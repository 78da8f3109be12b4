//! The session itself: the configuration, the subscription engine, the log
//! batcher and the console log, driven by keys and by delivered messages.
//!
//! Every decision is taken here and returned as a command; the caller
//! performs the broker calls, the file writes and the drawing, exactly as
//! the commands say.

use vstd::prelude::*;

use crate::amqp::spec_queue_name;
use crate::amqp::Ampq;
use crate::amqp::SubscriptionAction;
use crate::amqp::WorkerPlan;
use crate::config::Config;
use crate::enums::SelectedState;
use crate::exchange_options::ExchangeOptions;
use crate::file_logger::spec_add;
use crate::file_logger::spec_add_all;
use crate::file_logger::lemma_add_all_snoc;
use crate::file_logger::FileLogger;
use crate::json::json_parse;
use crate::json::render_pretty;
use crate::json::spec_render_pretty;
use crate::read_value::format_timestamp;
use crate::read_value::timestamp_text;
use crate::read_value::ReadValue;
use crate::strutil::dash_line;
use crate::strutil::str_eq;
use crate::ui::lemma_push_lines_snoc;
use crate::ui::spec_push_line;
use crate::ui::spec_push_lines;
use crate::ui::Ui;

verus! {

/// Which window owns the keyboard.
#[derive(Debug, PartialEq, Eq, Structural)]
pub enum Windows {
    Main,
    Options,
    OptionsStringInput,
    SelectionFilter,
    MultiSelectInput,
}

/// How the message window behaves: following the newest lines, or scrolled
/// by hand.
#[derive(Debug, PartialEq, Eq, Structural)]
pub enum Mode {
    Normal,
    Scroll,
}

/// A pressed key, as the session sees it.
#[derive(Debug, PartialEq, Eq, Structural, Clone, Copy)]
pub enum Key {
    Char(char),
    Up,
    Down,
    Left,
    Right,
    Enter,
    Esc,
    Backspace,
    PageUp,
    PageDown,
    Other,
}

/// What the caller must carry out after a decision: end the session (sweep
/// the session's queues and save the configuration), start a worker for this
/// plan, signal this exchange's cancellation channel, delete this queue over
/// a fresh channel, publish the test message of this exchange, write the
/// configuration file, or set the shared pause flag.
pub enum Command {
    Exit,
    StartWorker(WorkerPlan),
    CancelWorker(String),
    DeleteQueue(String),
    Publish(u64),
    SaveConfig,
    SetPause(bool),
}

/// The first exchange with this identifier, or `-1`.
pub open spec fn spec_find_id(items: Seq<ExchangeOptions>, id: u64) -> int
    decreases items.len(),
{
    if items.len() == 0 {
        -1
    } else if items[0].id == id {
        0
    } else {
        let r = spec_find_id(items.drop_first(), id);
        if r < 0 {
            -1
        } else {
            r + 1
        }
    }
}

proof fn lemma_find_id_at(items: Seq<ExchangeOptions>, id: u64, k: int)
    requires
        0 <= k < items.len(),
        items[k].id == id,
        forall|j: int| 0 <= j < k ==> (#[trigger] items[j]).id != id,
    ensures
        spec_find_id(items, id) == k,
    decreases k,
{
    if k > 0 {
        lemma_find_id_at(items.drop_first(), id, k - 1);
    }
}

proof fn lemma_find_id_none(items: Seq<ExchangeOptions>, id: u64)
    requires
        forall|j: int| 0 <= j < items.len() ==> (#[trigger] items[j]).id != id,
    ensures
        spec_find_id(items, id) == -1,
    decreases items.len(),
{
    if items.len() > 0 {
        lemma_find_id_none(items.drop_first(), id);
    }
}

/// The first exchange with this exchange name, or `-1`.
pub open spec fn spec_find_name(items: Seq<ExchangeOptions>, name: Seq<char>) -> int
    decreases items.len(),
{
    if items.len() == 0 {
        -1
    } else if items[0].exchange_name@ == name {
        0
    } else {
        let r = spec_find_name(items.drop_first(), name);
        if r < 0 {
            -1
        } else {
            r + 1
        }
    }
}

proof fn lemma_find_name_none(items: Seq<ExchangeOptions>, name: Seq<char>)
    requires
        forall|j: int| 0 <= j < items.len() ==> (#[trigger] items[j]).exchange_name@ != name,
    ensures
        spec_find_name(items, name) == -1,
    decreases items.len(),
{
    if items.len() > 0 {
        lemma_find_name_none(items.drop_first(), name);
    }
}

proof fn lemma_find_name_at(items: Seq<ExchangeOptions>, name: Seq<char>, k: int)
    requires
        0 <= k < items.len(),
        items[k].exchange_name@ == name,
        forall|j: int| 0 <= j < k ==> (#[trigger] items[j]).exchange_name@ != name,
    ensures
        spec_find_name(items, name) == k,
    decreases k,
{
    if k > 0 {
        lemma_find_name_at(items.drop_first(), name, k - 1);
    }
}

fn find_index_by_id(items: &Vec<ExchangeOptions>, id: u64) -> (r: Option<usize>)
    ensures
        r matches Some(i) ==> i == spec_find_id(items@, id) && i < items@.len()
            && items@[i as int].id == id,
        r is None ==> spec_find_id(items@, id) == -1,
{
    let n = items.len();
    let mut i: usize = 0;
    while i < n
        invariant
            n == items@.len(),
            i <= n,
            forall|j: int| 0 <= j < i ==> (#[trigger] items@[j]).id != id,
        decreases n - i,
    {
        if items[i].id == id {
            proof {
                lemma_find_id_at(items@, id, i as int);
            }
            return Some(i);
        }
        i = i + 1;
    }
    proof {
        lemma_find_id_none(items@, id);
    }
    None
}

fn find_index_by_name(items: &Vec<ExchangeOptions>, name: &str) -> (r: Option<usize>)
    ensures
        r matches Some(i) ==> i == spec_find_name(items@, name@) && i < items@.len()
            && items@[i as int].exchange_name@ == name@,
        r is None ==> spec_find_name(items@, name@) == -1,
{
    let n = items.len();
    let mut i: usize = 0;
    while i < n
        invariant
            n == items@.len(),
            i <= n,
            forall|j: int| 0 <= j < i ==> (#[trigger] items@[j]).exchange_name@ != name@,
        decreases n - i,
    {
        if str_eq(items[i].exchange_name.as_str(), name) {
            proof {
                lemma_find_name_at(items@, name@, i as int);
            }
            return Some(i);
        }
        i = i + 1;
    }
    proof {
        lemma_find_name_none(items@, name@);
    }
    None
}

/// The state the selection toggle leaves an exchange in: an unselected one
/// is now awaiting its first message; a pending or subscribed one is
/// unselected again.
pub open spec fn spec_toggle_state(s: SelectedState) -> SelectedState {
    match s {
        SelectedState::Unselected => SelectedState::PendingSubscription,
        SelectedState::PendingSubscription => SelectedState::Unselected,
        SelectedState::Subscribed => SelectedState::Unselected,
    }
}

/// The lines one delivery renders to: a separator as wide as the window, a
/// `name | timestamp` header, then the payload — pretty-printed one line per
/// line when pretty rendering is on and the payload is well-formed, the raw
/// payload text otherwise.
pub open spec fn spec_message_lines(
    pretty: bool,
    payload: Seq<char>,
    display: Seq<char>,
    ts: chrono::NaiveDateTime,
    width: nat,
) -> Seq<Seq<char>> {
    seq![Seq::new(width, |i: int| '-'), display + " | "@ + timestamp_text(ts)]
        + spec_message_body(pretty, payload)
}

/// The payload part of a rendered delivery.
pub open spec fn spec_message_body(pretty: bool, payload: Seq<char>) -> Seq<Seq<char>> {
    if pretty {
        match spec_render_pretty(payload) {
            Some(ls) => ls,
            None => seq![payload],
        }
    } else {
        seq![payload]
    }
}

/// The lines of one delivery that go to the exchange's log file: everything
/// but the separator.
pub open spec fn spec_logged_lines(pretty: bool, payload: Seq<char>, display: Seq<char>, ts: chrono::NaiveDateTime) -> Seq<
    Seq<char>,
> {
    seq![display + " | "@ + timestamp_text(ts)] + spec_message_body(pretty, payload)
}

/// One running session.
pub struct App {
    pub console_logs: Vec<String>,
    pub active_window: Windows,
    pub mode: Mode,
    pub file_logger: FileLogger,
    pub config: Config,
    pub selection_filter: String,
    pub ampq: Ampq,
    pub paused: bool,
    pub tick_rate: u64,
}

impl App {
    /// The engine map and the batcher keep their invariants.
    pub open spec fn wf(&self) -> bool {
        &&& self.file_logger.wf()
        &&& self.ampq.wf()
    }

    /// A fresh session over this configuration: main window, following mode,
    /// not paused, nothing subscribed, nothing pending, a 100 ms tick.
    pub fn new(config: Config) -> (r: App)
        ensures
            r.wf(),
            r.console_logs@ == Seq::<String>::empty(),
            r.active_window == Windows::Main,
            r.mode == Mode::Normal,
            r.config == config,
            r.selection_filter@ == Seq::<char>::empty(),
            r.paused == false,
            r.tick_rate == 100,
            r.ampq.subs() == Seq::<Seq<char>>::empty(),
            r.ampq.queues() == Seq::<Seq<char>>::empty(),
            r.file_logger.pending() == Seq::<(Seq<char>, Seq<Seq<char>>)>::empty(),
    {
        App {
            console_logs: Vec::new(),
            active_window: Windows::Main,
            mode: Mode::Normal,
            file_logger: FileLogger::new(),
            config,
            selection_filter: String::new(),
            ampq: Ampq::new(),
            paused: false,
            tick_rate: 100,
        }
    }

    /// One selection toggle on the exchange with this identifier. Its
    /// selection state moves one step (unselected to pending; pending or
    /// subscribed back to unselected). Leaving the pending state before any
    /// message arrived also deletes the derived queue proactively. Then the
    /// engine toggles: no worker yet starts one, a live worker is cancelled.
    /// An unknown identifier only notes the problem in the console log.
    pub fn toggle_selected(&mut self, selected_id: u64) -> (r: Vec<Command>)
        requires
            old(self).wf(),
        ensures
            final(self).wf(),
            *final(self) == (App {
                config: final(self).config,
                ampq: final(self).ampq,
                console_logs: final(self).console_logs,
                ..*old(self)
            }),
            final(self).config == (Config { items: final(self).config.items, ..old(self).config }),
            spec_find_id(old(self).config.items@, selected_id) < 0 ==> ({
                &&& final(self).config.items == old(self).config.items
                &&& final(self).ampq == old(self).ampq
                &&& final(self).console_logs@.len() == old(self).console_logs@.len() + 1
                &&& r@.len() == 0
            }),
            spec_find_id(old(self).config.items@, selected_id) >= 0 ==> ({
                let idx = spec_find_id(old(self).config.items@, selected_id);
                let item = old(self).config.items@[idx];
                let name = item.exchange_name@;
                let deleting = item.selected_state == SelectedState::PendingSubscription;
                &&& final(self).console_logs == old(self).console_logs
                &&& final(self).config.items@ == old(self).config.items@.update(
                    idx,
                    (ExchangeOptions {
                        selected_state: spec_toggle_state(item.selected_state),
                        ..item
                    }),
                )
                &&& (deleting ==> r@.len() == 2 && (r@[0] matches Command::DeleteQueue(q)
                    && q@ == spec_queue_name(name)))
                &&& (!deleting ==> r@.len() == 1)
                &&& (!old(self).ampq.subs().contains(name) ==> ({
                    &&& final(self).ampq.subs() == old(self).ampq.subs().push(name)
                    &&& r@.last() matches Command::StartWorker(plan) && plan.exchange_name@ == name
                        && plan.exchange_type == item.exchange_type && plan.queue_routing_key@
                        == item.queue_routing_key@ && plan.queue_name@ == spec_queue_name(name)
                        && plan.id == selected_id
                }))
                &&& (old(self).ampq.subs().contains(name) ==> ({
                    &&& final(self).ampq.subs() == old(self).ampq.subs().remove_value(name)
                    &&& !final(self).ampq.subs().contains(name)
                    &&& final(self).ampq.queues() == old(self).ampq.queues()
                    &&& r@.last() matches Command::CancelWorker(n) && n@ == name
                }))
            }),
    {
        let mut r: Vec<Command> = Vec::new();
        match find_index_by_id(&self.config.items, selected_id) {
            None => {
                self.console_logs.push("Cannot find selected item in config.items".to_owned());
            },
            Some(idx) => {
                let mut item = self.config.items.remove(idx);
                let deleting = item.selected_state == SelectedState::PendingSubscription;
                item.selected_state = match item.selected_state {
                    SelectedState::Unselected => SelectedState::PendingSubscription,
                    SelectedState::PendingSubscription => SelectedState::Unselected,
                    SelectedState::Subscribed => SelectedState::Unselected,
                };
                if deleting {
                    let queue_name = self.ampq.create_queue_name(item.exchange_name.as_str());
                    r.push(Command::DeleteQueue(queue_name));
                }
                let act = self.ampq.change_subscription(&item, selected_id);
                match act {
                    SubscriptionAction::Subscribe(plan) => {
                        r.push(Command::StartWorker(plan));
                    },
                    SubscriptionAction::Unsubscribe => {
                        r.push(Command::CancelWorker(item.exchange_name.clone()));
                    },
                }
                self.config.items.insert(idx, item);
                proof {
                    assert(self.config.items@ =~= old(self).config.items@.update(
                        idx as int,
                        self.config.items@[idx as int],
                    ));
                }
            },
        }
        r
    }

    /// One delivered message reaches the session: the subscription that
    /// produced it leaves the pending state on this first delivery, the
    /// message is rendered under the exchange's display name, every rendered
    /// line enters the line buffer (evicting the oldest at capacity), and all
    /// but the separator go to the exchange's log file when one is set.
    pub fn ingest_message(&mut self, ui: &mut Ui, read_value: ReadValue, width: usize)
        requires
            old(self).wf(),
            old(ui).wf(),
            spec_find_id(old(self).config.items@, read_value.id) >= 0,
            spec_find_name(old(self).config.items@, read_value.exchange_name@) >= 0,
        ensures
            final(self).wf(),
            final(ui).wf(),
            ({
                let items = old(self).config.items@;
                let idx = spec_find_id(items, read_value.id);
                let item = items[idx];
                let exch = items[spec_find_name(items, read_value.exchange_name@)];
                let msg_lines = spec_message_lines(
                    exch.pretty,
                    read_value.value@,
                    exch.spec_display_name(),
                    read_value.timestamp,
                    width as nat,
                );
                &&& final(self).config.items@ == (if item.selected_state
                    == SelectedState::PendingSubscription {
                    items.update(
                        idx,
                        (ExchangeOptions { selected_state: SelectedState::Subscribed, ..item }),
                    )
                } else {
                    items
                })
                &&& final(ui).lines() == spec_push_lines(
                    old(ui).lines(),
                    old(ui).line_buffer_size as nat,
                    msg_lines,
                )
                &&& (exch.log_file@.len() > 0 ==> final(self).file_logger.pending()
                    == spec_add_all(
                    old(self).file_logger.pending(),
                    exch.log_file@,
                    spec_logged_lines(
                        exch.pretty,
                        read_value.value@,
                        exch.spec_display_name(),
                        read_value.timestamp,
                    ),
                ))
                &&& (exch.log_file@.len() == 0 ==> final(self).file_logger.pending() == old(
                    self,
                ).file_logger.pending())
                &&& final(self).console_logs@.len() == old(self).console_logs@.len() + (
                if exch.pretty && json_parse(read_value.value@) is None {
                    1int
                } else {
                    0int
                })
            }),
            final(self).file_logger.spec_wait_time() == old(self).file_logger.spec_wait_time(),
            final(self).file_logger.spec_since_last_write() == old(
                self,
            ).file_logger.spec_since_last_write(),
            *final(self) == (App {
                config: final(self).config,
                file_logger: final(self).file_logger,
                console_logs: final(self).console_logs,
                ..*old(self)
            }),
            final(self).config == (Config { items: final(self).config.items, ..old(self).config }),
            *final(ui) == (Ui { line_buffer: final(ui).line_buffer, ..*old(ui) }),
    {
        let ghost items0 = self.config.items@;
        let idx = match find_index_by_id(&self.config.items, read_value.id) {
            Some(i) => i,
            None => {
                proof {
                    assert(false);
                }
                0
            },
        };
        if self.config.items[idx].selected_state == SelectedState::PendingSubscription {
            let mut item = self.config.items.remove(idx);
            item.selected_state = SelectedState::Subscribed;
            self.config.items.insert(idx, item);
            proof {
                assert(self.config.items@ =~= items0.update(
                    idx as int,
                    self.config.items@[idx as int],
                ));
            }
        } else {
            proof {
                assert(self.config.items@ =~= items0);
            }
        }
        proof {
            assert forall|j: int| 0 <= j < self.config.items@.len() implies (
            #[trigger] self.config.items@[j]).exchange_name@ == items0[j].exchange_name@ by {}
        }
        let eidx = match find_index_by_name(&self.config.items, read_value.exchange_name.as_str()) {
            Some(i) => i,
            None => {
                proof {
                    lemma_find_name_same(self.config.items@, items0, read_value.exchange_name@);
                    assert(false);
                }
                0
            },
        };
        proof {
            lemma_find_name_same(self.config.items@, items0, read_value.exchange_name@);
        }
        let ghost exch = items0[spec_find_name(items0, read_value.exchange_name@)];
        let ghost items1 = self.config.items@;
        proof {
            let idxg = spec_find_id(items0, read_value.id);
            assert(items1 == (if items0[idxg].selected_state
                == SelectedState::PendingSubscription {
                items0.update(
                    idxg,
                    (ExchangeOptions {
                        selected_state: SelectedState::Subscribed,
                        ..items0[idxg]
                    }),
                )
            } else {
                items0
            }));
            assert(self.config.items@[eidx as int].pretty == exch.pretty);
            assert(self.config.items@[eidx as int].log_file@ == exch.log_file@);
            assert(self.config.items@[eidx as int].spec_display_name() == exch.spec_display_name());
            assert(self.config == (Config { items: self.config.items, ..old(self).config }));
        }
        let display = self.config.items[eidx].display_name();
        let pretty = self.config.items[eidx].pretty;
        let log_file = self.config.items[eidx].log_file.clone();
        let ghost cap = ui.line_buffer_size as nat;
        let ghost buf0 = ui.lines();
        let ghost pend0 = self.file_logger.pending();
        let ghost msg_lines = spec_message_lines(
            exch.pretty,
            read_value.value@,
            exch.spec_display_name(),
            read_value.timestamp,
            width as nat,
        );
        let ghost logged = spec_logged_lines(
            exch.pretty,
            read_value.value@,
            exch.spec_display_name(),
            read_value.timestamp,
        );

        let header_line = dash_line(width);
        ui.add_line(header_line.as_str());

        let mut time_stamp_name = display;
        time_stamp_name.append(" | ");
        let ts = format_timestamp(&read_value.timestamp);
        time_stamp_name.append(ts.as_str());
        proof {
            reveal_strlit(" | ");
            assert(time_stamp_name@ == exch.spec_display_name() + " | "@ + timestamp_text(
                read_value.timestamp,
            ));
        }
        ui.add_line(time_stamp_name.as_str());
        Ui::add_log(&mut self.file_logger, log_file.as_str(), time_stamp_name.as_str());

        let ghost body = spec_message_body(exch.pretty, read_value.value@);
        proof {
            assert(msg_lines =~= seq![
                Seq::new(width as nat, |i: int| '-'),
                time_stamp_name@,
            ] + body);
            assert(logged =~= seq![time_stamp_name@] + body);
            assert(ui.lines() == spec_push_lines(buf0, cap, msg_lines.take(2))) by {
                assert(header_line@ == msg_lines[0]);
                assert(time_stamp_name@ == msg_lines[1]);
                let empty = Seq::<Seq<char>>::empty();
                assert(msg_lines.take(1) =~= empty.push(msg_lines[0]));
                assert(msg_lines.take(2) =~= msg_lines.take(1).push(msg_lines[1]));
                lemma_push_lines_snoc(buf0, cap, empty, msg_lines[0]);
                lemma_push_lines_snoc(buf0, cap, msg_lines.take(1), msg_lines[1]);
            }
            assert(self.file_logger.pending() == (if exch.log_file@.len() > 0 {
                spec_add_all(pend0, exch.log_file@, logged.take(1))
            } else {
                pend0
            })) by {
                assert(time_stamp_name@ == logged[0]);
                let empty = Seq::<Seq<char>>::empty();
                assert(logged.take(1) =~= empty.push(logged[0]));
                lemma_add_all_snoc(pend0, exch.log_file@, empty, logged[0]);
            }
        }

        let rendered: Option<Vec<String>> = if pretty {
            render_pretty(read_value.value.as_str())
        } else {
            None
        };
        match rendered {
            Some(lines) => {
                proof {
                    assert(body == lines.deep_view());
                }
                let n = lines.len();
                let mut k: usize = 0;
                while k < n
                    invariant
                        n == lines@.len(),
                        k <= n,
                        body == lines.deep_view(),
                        msg_lines =~= seq![
                            Seq::new(width as nat, |i: int| '-'),
                            exch.spec_display_name() + " | "@ + timestamp_text(
                                read_value.timestamp,
                            ),
                        ] + body,
                        logged =~= seq![
                            exch.spec_display_name() + " | "@ + timestamp_text(
                                read_value.timestamp,
                            ),
                        ] + body,
                        ui.wf(),
                        ui.line_buffer_size as nat == cap,
                        self.file_logger.wf(),
                        log_file@ == exch.log_file@,
                        ui.lines() == spec_push_lines(buf0, cap, msg_lines.take(2 + k)),
                        self.file_logger.pending() == (if exch.log_file@.len() > 0 {
                            spec_add_all(pend0, exch.log_file@, logged.take(1 + k))
                        } else {
                            pend0
                        }),
                        self.file_logger.spec_wait_time() == old(self).file_logger.spec_wait_time(),
                        self.file_logger.spec_since_last_write() == old(
                            self,
                        ).file_logger.spec_since_last_write(),
                        *ui == (Ui { line_buffer: ui.line_buffer, ..*old(ui) }),
                        *self == (App {
                            config: self.config,
                            file_logger: self.file_logger,
                            ..*old(self)
                        }),
                        self.console_logs == old(self).console_logs,
                        self.config.items@ == items1,
                        self.config == (Config { items: self.config.items, ..old(self).config }),
                    decreases n - k,
                {
                    ui.add_line(lines[k].as_str());
                    Ui::add_log(&mut self.file_logger, log_file.as_str(), lines[k].as_str());
                    k = k + 1;
                    proof {
                        lemma_push_lines_snoc(buf0, cap, msg_lines.take(2 + k - 1), body[k - 1]);
                        assert(msg_lines.take(2 + k) =~= msg_lines.take(2 + k - 1).push(
                            body[k - 1],
                        ));
                        lemma_add_all_snoc(pend0, exch.log_file@, logged.take(1 + k - 1), body[k
                            - 1]);
                        assert(logged.take(1 + k) =~= logged.take(1 + k - 1).push(body[k - 1]));
                    }
                }
                proof {
                    assert(msg_lines.take(2 + n) =~= msg_lines);
                    assert(logged.take(1 + n) =~= logged);
                }
            },
            None => {
                if pretty {
                    // a malformed structured payload is reported, never a crash,
                    // and the raw text is rendered instead
                    self.console_logs.push("Error pretty printing payload".to_owned());
                }
                ui.add_line(read_value.value.as_str());
                Ui::add_log(&mut self.file_logger, log_file.as_str(), read_value.value.as_str());
                proof {
                    assert(body =~= seq![read_value.value@]);
                    lemma_push_lines_snoc(buf0, cap, msg_lines.take(2), read_value.value@);
                    assert(msg_lines.take(3) =~= msg_lines.take(2).push(read_value.value@));
                    assert(msg_lines.take(3) =~= msg_lines);
                    lemma_add_all_snoc(pend0, exch.log_file@, logged.take(1), read_value.value@);
                    assert(logged.take(2) =~= logged.take(1).push(read_value.value@));
                    assert(logged.take(2) =~= logged);
                }
            },
        }
    }

    /// One render tick: a console line received meanwhile is recorded, and
    /// unless the session is paused the batcher counts the tick and may hand
    /// back the batch to write.
    pub fn on_tick(&mut self, console_line: Option<String>) -> (flush: Option<
        Vec<(String, Vec<String>)>,
    >)
        requires
            old(self).wf(),
        ensures
            final(self).wf(),
            *final(self) == (App {
                console_logs: final(self).console_logs,
                file_logger: final(self).file_logger,
                ..*old(self)
            }),
            final(self).console_logs@ == (match console_line {
                Some(l) => old(self).console_logs@.push(l),
                None => old(self).console_logs@,
            }),
            old(self).paused ==> flush is None && final(self).file_logger == old(
                self,
            ).file_logger,
            !old(self).paused ==> ({
                let acc = if old(self).file_logger.spec_since_last_write() + old(self).tick_rate
                    <= u64::MAX {
                    old(self).file_logger.spec_since_last_write() + old(self).tick_rate
                } else {
                    u64::MAX as int
                };
                if acc > old(self).file_logger.spec_wait_time() {
                    &&& flush matches Some(batch) && batch@.map_values(
                        |p: (String, Vec<String>)| (p.0@, p.1.deep_view()),
                    ) == old(self).file_logger.pending()
                    &&& final(self).file_logger.pending() == Seq::<(
                        Seq<char>,
                        Seq<Seq<char>>,
                    )>::empty()
                    &&& final(self).file_logger.spec_since_last_write() == 0
                } else {
                    &&& flush is None
                    &&& final(self).file_logger.pending() == old(self).file_logger.pending()
                    &&& final(self).file_logger.spec_since_last_write() == acc
                }
            }),
    {
        if let Some(line) = console_line {
            self.console_logs.push(line);
        }
        if !self.paused {
            self.file_logger.tick(self.tick_rate)
        } else {
            None
        }
    }
}

impl App {
    /// One key, dispatched to whichever window owns the keyboard. The first
    /// component of the result says whether the session ends; the second
    /// holds the commands the caller must carry out.
    ///
    /// In the main window `q` or escape ends the session; the arrow keys move
    /// the selector or resize the panes; enter toggles the selected
    /// subscription; `e` opens the options editor; `p` pauses and enters
    /// scroll mode (or resumes and leaves it); `f` or `/` opens the filter;
    /// `s` saves; `n` or `P` publishes. In scroll mode the arrow and page
    /// keys move the window instead. The editor windows edit the working
    /// copy until enter applies it or escape discards it.
    #[verifier::rlimit(80)]
    #[verifier::spinoff_prover]
    pub fn handle_input(&mut self, ui: &mut Ui, key: Key) -> (r: (bool, Vec<Command>))
        requires
            old(self).wf(),
            old(ui).wf(),
        ensures
            final(self).wf(),
            final(ui).wf(),
            final(self).tick_rate == old(self).tick_rate,
            final(self).file_logger == old(self).file_logger,
            final(self).config == (Config { items: final(self).config.items, ..old(self).config }),
            r.0 == (old(self).active_window == Windows::Main && (key == Key::Char('q') || key
                == Key::Esc)),
            r.0 ==> r.1@ == seq![Command::Exit] && *final(self) == *old(self) && *final(ui) == *old(
                ui,
            ),
            old(self).active_window == Windows::Main && old(self).mode == Mode::Normal && !r.0
                ==> ({
                &&& (key == Key::Up || key == Key::Char('k') ==> self_still(
                    *old(self),
                    *final(self),
                ) && r.1@.len() == 0 && *final(ui) == (Ui {
                    selector_index: final(ui).selector_index,
                    ..*old(ui)
                }) && final(ui).selector_index == (if old(ui).selector_index > 0 {
                    old(ui).selector_index - 1
                } else {
                    0
                }))
                &&& (key == Key::Down || key == Key::Char('j') ==> self_still(
                    *old(self),
                    *final(self),
                ) && r.1@.len() == 0 && *final(ui) == (Ui {
                    selector_index: final(ui).selector_index,
                    ..*old(ui)
                }) && final(ui).selector_index == (if old(ui).selector_length > 0 && old(
                    ui,
                ).selector_index < old(ui).selector_length - 1 {
                    old(ui).selector_index + 1
                } else {
                    old(ui).selector_index as int
                }))
                &&& (key == Key::Left ==> self_still(*old(self), *final(self)) && r.1@.len() == 0
                    && resized(*old(ui), *final(ui)))
                &&& (key == Key::Right ==> self_still(*old(self), *final(self)) && r.1@.len() == 0
                    && resized(*old(ui), *final(ui)))
                &&& (key == Key::Char('l') ==> self_still(*old(self), *final(self)) && r.1@.len()
                    == 0 && *final(ui) == (Ui { show_logs: !old(ui).show_logs, ..*old(ui) }))
                &&& (key == Key::Char('p') ==> paused_toggled(*old(self), *final(self), Mode::Scroll)
                    && r.1@ == seq![Command::SetPause(!old(self).paused)] && *final(ui) == *old(ui))
                &&& (key == Key::Char('f') || key == Key::Char('/') ==> *final(self) == (App {
                    active_window: Windows::SelectionFilter,
                    ..*old(self)
                }) && r.1@.len() == 0 && *final(ui) == *old(ui))
                &&& (key == Key::Char('s') ==> *final(self) == *old(self) && r.1@ == seq![
                    Command::SaveConfig,
                ] && *final(ui) == *old(ui))
                &&& (key == Key::Char('n') || key == Key::Char('P') ==> publish_decided(
                    *old(self),
                    *final(self),
                    *old(ui),
                    r.1@,
                ) && *final(ui) == *old(ui))
                &&& (key == Key::Enter ==> toggle_decided(*old(self), *final(self), *old(ui), r.1@)
                    && *final(ui) == *old(ui))
            }),
            old(self).active_window == Windows::Main && old(self).mode == Mode::Scroll && !r.0
                ==> ({
                &&& (key == Key::Up || key == Key::Char('k') ==> self_still(
                    *old(self),
                    *final(self),
                ) && r.1@.len() == 0 && *final(ui) == (Ui {
                    scroll_position: final(ui).scroll_position,
                    ..*old(ui)
                }) && final(ui).scroll_position == (if old(ui).scroll_position < old(
                    ui,
                ).max_offset() {
                    old(ui).scroll_position + 1
                } else {
                    old(ui).max_offset()
                }))
                &&& (key == Key::Down || key == Key::Char('j') ==> self_still(
                    *old(self),
                    *final(self),
                ) && r.1@.len() == 0 && *final(ui) == (Ui {
                    scroll_position: final(ui).scroll_position,
                    ..*old(ui)
                }) && final(ui).scroll_position == (if old(ui).scroll_position > 0 {
                    old(ui).scroll_position - 1
                } else {
                    0
                }))
                &&& (key == Key::PageUp ==> self_still(*old(self), *final(self)) && r.1@.len() == 0
                    && *final(ui) == (Ui {
                    scroll_position: final(ui).scroll_position,
                    ..*old(ui)
                }) && final(ui).scroll_position == (if old(ui).scroll_position + old(
                    ui,
                ).messages_window_height < old(ui).max_offset() {
                    old(ui).scroll_position + old(ui).messages_window_height
                } else {
                    old(ui).max_offset()
                }))
                &&& (key == Key::PageDown ==> self_still(*old(self), *final(self)) && r.1@.len()
                    == 0 && *final(ui) == (Ui {
                    scroll_position: final(ui).scroll_position,
                    ..*old(ui)
                }) && final(ui).scroll_position == (if old(ui).scroll_position >= old(
                    ui,
                ).messages_window_height {
                    old(ui).scroll_position - old(ui).messages_window_height
                } else {
                    0
                }))
                &&& (key == Key::Left ==> self_still(*old(self), *final(self)) && r.1@.len() == 0
                    && resized(*old(ui), *final(ui)))
                &&& (key == Key::Right ==> self_still(*old(self), *final(self)) && r.1@.len() == 0
                    && resized(*old(ui), *final(ui)))
                &&& (key == Key::Char('l') ==> self_still(*old(self), *final(self)) && r.1@.len()
                    == 0 && *final(ui) == (Ui { show_logs: !old(ui).show_logs, ..*old(ui) }))
                &&& (key == Key::Char('p') ==> paused_toggled(*old(self), *final(self), Mode::Normal)
                    && r.1@ == seq![Command::SetPause(!old(self).paused)] && *final(ui) == *old(ui))
            }),
            old(self).active_window == Windows::Options ==> r.1@.len() == 0 && ({
                &&& (key == Key::Esc ==> *final(self) == (App {
                    active_window: Windows::Main,
                    ..*old(self)
                }) && *final(ui) == (Ui { show_options: false, ..*old(ui) }))
                &&& (key == Key::Down || key == Key::Char('j') ==> self_still(
                    *old(self),
                    *final(self),
                ) && *final(ui) == (Ui {
                    options_window_index: final(ui).options_window_index,
                    ..*old(ui)
                }) && final(ui).options_window_index == (if old(ui).options_window_index < old(
                    ui,
                ).options_count - 1 {
                    old(ui).options_window_index + 1
                } else {
                    old(ui).options_window_index as int
                }))
                &&& (key == Key::Up || key == Key::Char('k') ==> self_still(
                    *old(self),
                    *final(self),
                ) && *final(ui) == (Ui {
                    options_window_index: final(ui).options_window_index,
                    ..*old(ui)
                }) && final(ui).options_window_index == (if old(ui).options_window_index > 0 {
                    old(ui).options_window_index - 1
                } else {
                    0
                }))
                &&& (key == Key::Char('e') ==> edit_opened(*old(self), *final(self), *old(ui), *final(ui)))
                &&& (key == Key::Enter ==> options_applied(*old(self), *final(self), *old(ui), *final(ui)))
            }),
            old(self).active_window == Windows::OptionsStringInput ==> r.1@.len() == 0 && *final(self) == (App {
                active_window: final(self).active_window,
                ..*old(self)
            }) && final(self).active_window == (
            if key == Key::Enter || key == Key::Esc {
                Windows::Options
            } else {
                Windows::OptionsStringInput
            }) && ({
                &&& (key matches Key::Char(c) ==> *final(ui) == (Ui {
                    string_input: final(ui).string_input,
                    ..*old(ui)
                }) && final(ui).string_input@ == old(ui).string_input@.push(c))
                &&& (key == Key::Backspace ==> *final(ui) == (Ui {
                    string_input: final(ui).string_input,
                    ..*old(ui)
                }) && final(ui).string_input@ == (if old(ui).string_input@.len() > 0 {
                    old(ui).string_input@.drop_last()
                } else {
                    old(ui).string_input@
                }))
            }),
            old(self).active_window == Windows::SelectionFilter ==> r.1@.len() == 0 && *final(ui)
                == *old(ui) && final(self).active_window == (if key == Key::Enter || key
                == Key::Esc {
                Windows::Main
            } else {
                Windows::SelectionFilter
            }) && ({
                &&& (key matches Key::Char(c) ==> *final(self) == (App {
                    selection_filter: final(self).selection_filter,
                    ..*old(self)
                }) && final(self).selection_filter@ == old(self).selection_filter@.push(c))
                &&& (key == Key::Backspace ==> *final(self) == (App {
                    selection_filter: final(self).selection_filter,
                    ..*old(self)
                }) && final(self).selection_filter@ == (if old(self).selection_filter@.len() > 0 {
                    old(self).selection_filter@.drop_last()
                } else {
                    old(self).selection_filter@
                }))
            }),
            old(self).active_window == Windows::MultiSelectInput ==> r.1@.len() == 0 && ({
                &&& (key == Key::Down || key == Key::Char('j') ==> self_still(
                    *old(self),
                    *final(self),
                ) && *final(ui) == (Ui {
                    multi_select_index: final(ui).multi_select_index,
                    ..*old(ui)
                }))
                &&& (key == Key::Up || key == Key::Char('k') ==> self_still(
                    *old(self),
                    *final(self),
                ) && *final(ui) == (Ui {
                    multi_select_index: final(ui).multi_select_index,
                    ..*old(ui)
                }))
                &&& (key == Key::Enter ==> *final(self) == (App {
                    active_window: Windows::Options,
                    ..*old(self)
                }) && final(ui).options_exchange.exchange_type
                    == crate::enums::ExchangeTypeSer::spec_from_name(
                    old(ui).multi_select_list_items.deep_view()[old(ui).multi_select_index as int],
                ) && *final(ui) == (Ui {
                    show_multi_select_input: false,
                    options_exchange: final(ui).options_exchange,
                    ..*old(ui)
                }))
                &&& (key == Key::Esc ==> *final(self) == (App {
                    active_window: Windows::Options,
                    ..*old(self)
                }) && *final(ui) == (Ui { show_multi_select_input: false, ..*old(ui) }))
            }),
    {
        match self.active_window {
            Windows::Main => {
                match self.mode {
                    Mode::Normal => {
                        match key {
                            Key::Char('q') | Key::Esc => {
                                let mut r: Vec<Command> = Vec::new();
                                r.push(Command::Exit);
                                return (true, r);
                            },
                            Key::Char('k') | Key::Up => {
                                ui.main_index_up();
                            },
                            Key::Char('j') | Key::Down => {
                                ui.main_index_down();
                            },
                            Key::Left => {
                                ui.left_resize();
                            },
                            Key::Right => {
                                ui.right_resize();
                            },
                            Key::Char('l') => {
                                ui.show_logs = !ui.show_logs;
                            },
                            Key::Enter => {
                                if ui.selector_index < ui.selector_ids.len() {
                                    let selected_id = ui.get_selected_item_id();
                                    let cmds = self.toggle_selected(selected_id);
                                    return (false, cmds);
                                }
                            },
                            Key::Char('e') => {
                                self.active_window = Windows::Options;
                                if ui.selector_index < ui.selector_ids.len() {
                                    let selected_id = ui.get_selected_item_id();
                                    match find_index_by_id(&self.config.items, selected_id) {
                                        None => {
                                            self.console_logs.push(
                                                "Cannot find selected item in config.items".to_owned(),
                                            );
                                        },
                                        Some(idx) => {
                                            let copy = self.config.items[idx].clone();
                                            ui.show_options_popup(copy);
                                        },
                                    }
                                }
                            },
                            Key::Char('p') => {
                                self.mode = Mode::Scroll;
                                return (false, self.toggle_pause());
                            },
                            Key::Char('f') | Key::Char('/') => {
                                self.active_window = Windows::SelectionFilter;
                            },
                            Key::Char('s') => {
                                let mut r: Vec<Command> = Vec::new();
                                r.push(Command::SaveConfig);
                                return (false, r);
                            },
                            Key::Char('n') | Key::Char('P') => {
                                return (false, self.send_publish_to_amqp(ui));
                            },
                            _ => {},
                        }
                    },
                    Mode::Scroll => {
                        match key {
                            Key::Char('q') | Key::Esc => {
                                let mut r: Vec<Command> = Vec::new();
                                r.push(Command::Exit);
                                return (true, r);
                            },
                            Key::Char('k') | Key::Up => {
                                ui.scroll_up();
                            },
                            Key::Char('j') | Key::Down => {
                                ui.scroll_down();
                            },
                            Key::PageUp => {
                                ui.scroll_up_page();
                            },
                            Key::PageDown => {
                                ui.scroll_down_page();
                            },
                            Key::Left => {
                                ui.left_resize();
                            },
                            Key::Right => {
                                ui.right_resize();
                            },
                            Key::Char('l') => {
                                ui.show_logs = !ui.show_logs;
                            },
                            Key::Char('p') => {
                                self.mode = Mode::Normal;
                                return (false, self.toggle_pause());
                            },
                            _ => {},
                        }
                    },
                }
            },
            Windows::Options => {
                match key {
                    Key::Esc => {
                        self.active_window = Windows::Main;
                        ui.hide_options_popup();
                    },
                    Key::Down | Key::Char('j') => {
                        ui.options_index_down();
                    },
                    Key::Up | Key::Char('k') => {
                        ui.options_index_up();
                    },
                    Key::Char('e') => {
                        match ui.options_change_value() {
                            crate::ui::EditType::NoEdit => {},
                            crate::ui::EditType::Text(res) => {
                                self.active_window = Windows::OptionsStringInput;
                                ui.show_string_input(res);
                            },
                            crate::ui::EditType::MultiSelect(res) => {
                                self.active_window = Windows::MultiSelectInput;
                                ui.show_multi_select_input(res);
                            },
                        }
                    },
                    Key::Enter => {
                        self.active_window = Windows::Main;
                        if ui.selector_index < ui.selector_ids.len() {
                            let selected_id = ui.get_selected_item_id();
                            match find_index_by_id(&self.config.items, selected_id) {
                                None => {
                                    self.console_logs.push(
                                        "Cannot find selected item in config.items".to_owned(),
                                    );
                                },
                                Some(idx) => {
                                    let replacement = ui.options_exchange.clone();
                                    let ghost items0 = self.config.items@;
                                    self.config.items.remove(idx);
                                    self.config.items.insert(idx, replacement);
                                    ui.hide_options_popup();
                                    proof {
                                        assert(self.config.items@ =~= items0.update(
                                            idx as int,
                                            old(ui).options_exchange,
                                        ));
                                    }
                                },
                            }
                        }
                    },
                    _ => {},
                }
            },
            Windows::OptionsStringInput => {
                match key {
                    Key::Enter => {
                        self.active_window = Windows::Options;
                        ui.set_option_value_string();
                    },
                    Key::Char(c) => {
                        crate::strutil::push_char(&mut ui.string_input, c);
                    },
                    Key::Backspace => {
                        crate::strutil::pop_char(&mut ui.string_input);
                    },
                    Key::Esc => {
                        self.active_window = Windows::Options;
                        ui.hide_string_input();
                    },
                    _ => {},
                }
            },
            Windows::SelectionFilter => {
                match key {
                    Key::Enter => {
                        self.active_window = Windows::Main;
                    },
                    Key::Char(c) => {
                        crate::strutil::push_char(&mut self.selection_filter, c);
                    },
                    Key::Backspace => {
                        crate::strutil::pop_char(&mut self.selection_filter);
                    },
                    Key::Esc => {
                        self.active_window = Windows::Main;
                    },
                    _ => {},
                }
            },
            Windows::MultiSelectInput => {
                match key {
                    Key::Down | Key::Char('j') => {
                        ui.multi_select_index_down();
                    },
                    Key::Up | Key::Char('k') => {
                        ui.multi_select_index_up();
                    },
                    Key::Enter => {
                        ui.multi_select_change_value();
                        self.active_window = Windows::Options;
                    },
                    Key::Esc => {
                        ui.hide_multi_select_input();
                        self.active_window = Windows::Options;
                    },
                    _ => {},
                }
            },
        }
        (false, Vec::new())
    }

    /// Flips the shared pause flag, notes the change in the console log and
    /// asks the caller to store the new flag where the workers read it.
    fn toggle_pause(&mut self) -> (r: Vec<Command>)
        requires
            old(self).wf(),
        ensures
            final(self).wf(),
            final(self).paused == !old(self).paused,
            *final(self) == (App {
                paused: !old(self).paused,
                console_logs: final(self).console_logs,
                ..*old(self)
            }),
            final(self).console_logs@.len() == old(self).console_logs@.len() + 1,
            r@ == seq![Command::SetPause(!old(self).paused)],
    {
        let new_value = !self.paused;
        self.paused = new_value;
        let mut line = "PAUSED: ".to_owned();
        line.append(crate::strutil::bool_str(new_value).as_str());
        self.console_logs.push(line);
        let mut r: Vec<Command> = Vec::new();
        r.push(Command::SetPause(new_value));
        proof {
            assert(r@ =~= seq![Command::SetPause(!old(self).paused)]);
        }
        r
    }

    /// Asks the caller to publish the selected exchange's test message; an
    /// unknown identifier only notes the problem in the console log.
    fn send_publish_to_amqp(&mut self, ui: &Ui) -> (r: Vec<Command>)
        requires
            old(self).wf(),
        ensures
            final(self).wf(),
            publish_decided(*old(self), *final(self), *ui, r@),
    {
        let mut r: Vec<Command> = Vec::new();
        if ui.selector_index < ui.selector_ids.len() {
            let selected_id = ui.get_selected_item_id();
            match find_index_by_id(&self.config.items, selected_id) {
                None => {
                    self.console_logs.push(
                        "Cannot find selected item in config.items".to_owned(),
                    );
                },
                Some(_) => {
                    r.push(Command::Publish(selected_id));
                    proof {
                        assert(r@ =~= seq![Command::Publish(selected_id)]);
                    }
                },
            }
        }
        r
    }
}

/// Nothing of the session state changed.
pub open spec fn self_still(a: App, b: App) -> bool {
    b == a
}

/// The pane split moved one step while still covering the width.
pub open spec fn resized(a: Ui, b: Ui) -> bool {
    &&& b == (Ui { left_size: b.left_size, right_size: b.right_size, ..a })
    &&& b.left_size + b.right_size == 100
}

/// The pause flag flipped, the mode changed as pausing asks, one console
/// line notes it, and nothing else of the session moved.
pub open spec fn paused_toggled(a: App, b: App, new_mode: Mode) -> bool {
    &&& b == (App { mode: new_mode, paused: !a.paused, console_logs: b.console_logs, ..a })
    &&& b.console_logs@.len() == a.console_logs@.len() + 1
}

/// A publish was decided: with a selected, known exchange the one command
/// names it; otherwise nothing is commanded and an unknown identifier is
/// noted in the console log.
pub open spec fn publish_decided(a: App, b: App, ui: Ui, cmds: Seq<Command>) -> bool {
    if ui.selector_index < ui.selector_ids@.len() {
        let id = ui.selector_ids@[ui.selector_index as int];
        if spec_find_id(a.config.items@, id) >= 0 {
            &&& b == a
            &&& cmds == seq![Command::Publish(id)]
        } else {
            &&& b == (App { console_logs: b.console_logs, ..a })
            &&& b.console_logs@.len() == a.console_logs@.len() + 1
            &&& cmds.len() == 0
        }
    } else {
        b == a && cmds.len() == 0
    }
}

/// A subscription toggle was decided for the selected exchange, as
/// `toggle_selected` says; with no selectable row nothing happened.
pub open spec fn toggle_decided(a: App, b: App, ui: Ui, cmds: Seq<Command>) -> bool {
    if ui.selector_index < ui.selector_ids@.len() {
        let id = ui.selector_ids@[ui.selector_index as int];
        let idx = spec_find_id(a.config.items@, id);
        if idx >= 0 {
            let item = a.config.items@[idx];
            let name = item.exchange_name@;
            let deleting = item.selected_state == SelectedState::PendingSubscription;
            &&& b == (App { config: b.config, ampq: b.ampq, ..a })
            &&& b.config == (Config { items: b.config.items, ..a.config })
            &&& b.config.items@ == a.config.items@.update(
                idx,
                (ExchangeOptions { selected_state: spec_toggle_state(item.selected_state), ..item }),
            )
            &&& (deleting ==> cmds.len() == 2 && (cmds[0] matches Command::DeleteQueue(q) && q@
                == spec_queue_name(name)))
            &&& (!deleting ==> cmds.len() == 1)
            &&& (!a.ampq.subs().contains(name) ==> b.ampq.subs() == a.ampq.subs().push(name)
                && (cmds.last() matches Command::StartWorker(plan) && plan.exchange_name@ == name
                && plan.queue_name@ == spec_queue_name(name) && plan.id == id
                && plan.exchange_type == item.exchange_type && plan.queue_routing_key@
                == item.queue_routing_key@))
            &&& (a.ampq.subs().contains(name) ==> b.ampq.subs() == a.ampq.subs().remove_value(name)
                && !b.ampq.subs().contains(name) && b.ampq.queues() == a.ampq.queues()
                && (cmds.last() matches Command::CancelWorker(n) && n@ == name))
        } else {
            &&& b == (App { console_logs: b.console_logs, ..a })
            &&& b.console_logs@.len() == a.console_logs@.len() + 1
            &&& cmds.len() == 0
        }
    } else {
        b == a && cmds.len() == 0
    }
}

/// Editing the selected option began: a boolean field toggled in place, a
/// text field opened the text input, the kind field opened the kind list.
pub open spec fn edit_opened(a: App, b: App, u0: Ui, u1: Ui) -> bool {
    let i = u0.options_window_index;
    if i == 1 {
        &&& b == (App { active_window: Windows::MultiSelectInput, ..a })
        &&& u1 == (Ui {
            show_multi_select_input: true,
            options_exchange_type: u0.options_exchange.exchange_type,
            ..u0
        })
    } else if i == 4 {
        &&& b == a
        &&& u1 == (Ui { options_exchange: u1.options_exchange, ..u0 })
        &&& u1.options_exchange == (ExchangeOptions {
            pretty: !u0.options_exchange.pretty,
            ..u0.options_exchange
        })
    } else {
        &&& b == (App { active_window: Windows::OptionsStringInput, ..a })
        &&& u1 == (Ui {
            show_string_input: true,
            string_input: u1.string_input,
            ..u0
        })
        &&& u1.string_input@ == (if i == 0 {
            u0.options_exchange.exchange_name@
        } else if i == 2 {
            u0.options_exchange.queue_routing_key@
        } else if i == 3 {
            u0.options_exchange.alias@
        } else if i == 5 {
            u0.options_exchange.log_file@
        } else {
            u0.options_exchange.publish_file@
        })
    }
}

/// The edited working copy replaced the selected exchange and the editor
/// closed; with no selectable row or an unknown identifier only the window
/// changed (and the problem was noted).
pub open spec fn options_applied(a: App, b: App, u0: Ui, u1: Ui) -> bool {
    &&& b.active_window == Windows::Main
    &&& (if u0.selector_index < u0.selector_ids@.len() {
        let id = u0.selector_ids@[u0.selector_index as int];
        let idx = spec_find_id(a.config.items@, id);
        if idx >= 0 {
            &&& b == (App { active_window: Windows::Main, config: b.config, ..a })
            &&& b.config == (Config { items: b.config.items, ..a.config })
            &&& b.config.items@ == a.config.items@.update(idx, u0.options_exchange)
            &&& u1 == (Ui { show_options: false, ..u0 })
        } else {
            &&& b == (App {
                active_window: Windows::Main,
                console_logs: b.console_logs,
                ..a
            })
            &&& b.console_logs@.len() == a.console_logs@.len() + 1
            &&& u1 == u0
        }
    } else {
        &&& b == (App { active_window: Windows::Main, ..a })
        &&& u1 == u0
    })
}

proof fn lemma_find_name_same(a: Seq<ExchangeOptions>, b: Seq<ExchangeOptions>, name: Seq<char>)
    requires
        a.len() == b.len(),
        forall|j: int| 0 <= j < a.len() ==> (#[trigger] a[j]).exchange_name@ == b[j].exchange_name@,
    ensures
        spec_find_name(a, name) == spec_find_name(b, name),
    decreases a.len(),
{
    if a.len() > 0 && a[0].exchange_name@ != name {
        assert forall|j: int|
            0 <= j < a.drop_first().len() implies (#[trigger] a.drop_first()[j]).exchange_name@
            == b.drop_first()[j].exchange_name@ by {
            assert(a.drop_first()[j] == a[j + 1]);
            assert(b.drop_first()[j] == b[j + 1]);
            assert(a[j + 1].exchange_name@ == b[j + 1].exchange_name@);
        }
        lemma_find_name_same(a.drop_first(), b.drop_first(), name);
    }
}

} // verus!
