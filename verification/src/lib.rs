//! Subscription engine and message ingestion pipeline for an interactive
//! message-broker client.
//!
//! The crate models the state that drives a live broker session: the map of
//! active subscriptions and their worker lifecycle, the bounded scrollable
//! buffer of rendered message lines, the per-file log batcher, and the
//! configuration records behind them. Broker traffic, terminal rendering and
//! file handling live outside this crate; everything here is plain data and
//! decisions, stated in contracts and verified.

mod amqp;
mod app;
mod config;
mod enums;
mod exchange_options;
mod file_logger;
mod json;
mod laws;
mod read_value;
mod strutil;
mod ui;

pub use crate::amqp::worker_step;
pub use crate::amqp::Ampq;
pub use crate::amqp::SubscriptionAction;
pub use crate::amqp::WorkerAction;
pub use crate::amqp::WorkerEvent;
pub use crate::amqp::WorkerPlan;
pub use crate::app::App;
pub use crate::app::Command;
pub use crate::app::Key;
pub use crate::app::Mode;
pub use crate::app::Windows;
pub use crate::config::Config;
pub use crate::config::ConfigSer;
pub use crate::enums::ExchangeTypeSer;
pub use crate::enums::SelectedState;
pub use crate::exchange_options::ExchangeOptions;
pub use crate::exchange_options::ExchangeOptionsSer;
pub use crate::file_logger::FileLogger;
pub use crate::json::render_pretty;
pub use crate::laws::lemma_at_most_one_worker;
pub use crate::laws::lemma_buffer_fifo;
pub use crate::laws::lemma_flush_on_tick;
pub use crate::laws::lemma_pending_add;
pub use crate::laws::lemma_scroll_window_clamped;
pub use crate::laws::lemma_subscribe_then_unsubscribe;
pub use crate::read_value::ReadValue;
pub use crate::ui::EditType;
pub use crate::ui::SelectorRow;
pub use crate::ui::Ui;
