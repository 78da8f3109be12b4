use amqp_client_cli::worker_step;
use amqp_client_cli::App;
use amqp_client_cli::Command;
use amqp_client_cli::Config;
use amqp_client_cli::ExchangeOptions;
use amqp_client_cli::ExchangeTypeSer;
use amqp_client_cli::Key;
use amqp_client_cli::Mode;
use amqp_client_cli::SelectedState;
use amqp_client_cli::Ui;
use amqp_client_cli::WorkerAction;
use amqp_client_cli::WorkerEvent;
use amqp_client_cli::Windows;

fn exchange(id: u64, name: &str, pretty: bool, log_file: &str) -> ExchangeOptions {
    ExchangeOptions {
        id,
        exchange_name: name.to_string(),
        exchange_type: ExchangeTypeSer::Topic,
        queue_routing_key: "#".to_string(),
        alias: String::new(),
        pretty,
        log_file: log_file.to_string(),
        publish_file: String::new(),
        selected_state: SelectedState::Unselected,
    }
}

fn session(items: Vec<ExchangeOptions>) -> App {
    App::new(Config {
        host: "broker.local".to_string(),
        port: 5672,
        username: "guest".to_string(),
        password: "guest".to_string(),
        pfx_path: None,
        pem_file: None,
        domain: None,
        items,
        path: "amqp-client-cli.json".to_string(),
        protocol: "amqp".to_string(),
    })
}

#[test]
fn subscribe_deliver_pretty_and_observe() {
    let mut app = session(vec![exchange(0, "orders", true, "")]);
    let mut ui = Ui::new();

    // toggling an unselected exchange requests the subscription
    let cmds = app.toggle_selected(0);
    assert_eq!(app.config.items[0].selected_state, SelectedState::PendingSubscription);
    assert_eq!(cmds.len(), 1);
    let plan = match &cmds[0] {
        Command::StartWorker(plan) => plan,
        _ => panic!("expected a worker start"),
    };
    assert_eq!(plan.queue_name, "amqp-client-cli.orders");

    // the worker decodes one delivery
    let now = chrono::Local::now().naive_local();
    let rv = match worker_step(
        WorkerEvent::Delivery(b"{\"id\":1}".to_vec()),
        false,
        plan.id,
        &plan.exchange_name,
        now,
    ) {
        WorkerAction::Emit(rv) => rv,
        _ => panic!("expected an emitted message"),
    };

    // the consumer renders it and flips the state to subscribed
    app.ingest_message(&mut ui, rv, 5);
    assert_eq!(app.config.items[0].selected_state, SelectedState::Subscribed);
    let ts = now.format("%Y/%m/%d %I:%M:%S%.6f %p").to_string();
    assert_eq!(
        ui.line_buffer,
        vec![
            "-----".to_string(),
            format!("orders | {}", ts),
            "{".to_string(),
            "  \"id\": 1".to_string(),
            "}".to_string(),
        ]
    );
}

#[test]
fn raw_rendering_and_log_forwarding() {
    let mut app = session(vec![exchange(0, "orders", false, "orders.log")]);
    let mut ui = Ui::new();
    app.toggle_selected(0);
    let now = chrono::Local::now().naive_local();
    let rv = match worker_step(
        WorkerEvent::Delivery(b"plain text".to_vec()),
        false,
        0,
        "orders",
        now,
    ) {
        WorkerAction::Emit(rv) => rv,
        _ => panic!("expected an emitted message"),
    };
    app.ingest_message(&mut ui, rv, 3);
    let ts = now.format("%Y/%m/%d %I:%M:%S%.6f %p").to_string();
    assert_eq!(
        ui.line_buffer,
        vec!["---".to_string(), format!("orders | {}", ts), "plain text".to_string()]
    );
    // the separator stays out of the log file
    let batch = app.file_logger.tick(1500).expect("flush");
    assert_eq!(
        batch,
        vec![("orders.log".to_string(), vec![format!("orders | {}", ts), "plain text".to_string()])]
    );
}

#[test]
fn malformed_pretty_payload_falls_back_to_raw() {
    let mut app = session(vec![exchange(0, "orders", true, "")]);
    let mut ui = Ui::new();
    app.toggle_selected(0);
    let now = chrono::Local::now().naive_local();
    let rv = match worker_step(WorkerEvent::Delivery(b"{oops".to_vec()), false, 0, "orders", now) {
        WorkerAction::Emit(rv) => rv,
        _ => panic!("expected an emitted message"),
    };
    app.ingest_message(&mut ui, rv, 2);
    assert_eq!(ui.line_buffer.len(), 3);
    assert_eq!(ui.line_buffer[2], "{oops");
    // the malformed payload is reported, not crashed on
    assert_eq!(app.console_logs.len(), 1);
}

#[test]
fn alias_names_the_message_header() {
    let mut item = exchange(0, "orders", false, "");
    item.alias = "bills".to_string();
    let mut app = session(vec![item]);
    let mut ui = Ui::new();
    let now = chrono::Local::now().naive_local();
    let rv = match worker_step(WorkerEvent::Delivery(b"x".to_vec()), false, 0, "orders", now) {
        WorkerAction::Emit(rv) => rv,
        _ => panic!("expected an emitted message"),
    };
    app.ingest_message(&mut ui, rv, 1);
    assert!(ui.line_buffer[1].starts_with("bills | "));
}

#[test]
fn pending_unsubscribe_deletes_the_fresh_queue() {
    let mut app = session(vec![exchange(0, "orders", true, "")]);
    app.toggle_selected(0);
    assert_eq!(app.config.items[0].selected_state, SelectedState::PendingSubscription);
    let cmds = app.toggle_selected(0);
    assert_eq!(app.config.items[0].selected_state, SelectedState::Unselected);
    assert_eq!(cmds.len(), 2);
    assert!(matches!(&cmds[0], Command::DeleteQueue(q) if q == "amqp-client-cli.orders"));
    assert!(matches!(&cmds[1], Command::CancelWorker(n) if n == "orders"));
}

#[test]
fn pause_key_toggles_the_flag_and_the_mode() {
    let mut app = session(vec![exchange(0, "orders", false, "")]);
    let mut ui = Ui::new();
    let (exit, cmds) = app.handle_input(&mut ui, Key::Char('p'));
    assert!(!exit);
    assert!(app.paused);
    assert_eq!(app.mode, Mode::Scroll);
    assert!(matches!(cmds[..], [Command::SetPause(true)]));
    let (_, cmds2) = app.handle_input(&mut ui, Key::Char('p'));
    assert!(!app.paused);
    assert_eq!(app.mode, Mode::Normal);
    assert!(matches!(cmds2[..], [Command::SetPause(false)]));
}

#[test]
fn paused_session_does_not_tick_the_batcher() {
    let mut app = session(vec![exchange(0, "orders", false, "")]);
    app.file_logger.add_to_buffer("a.log".to_string(), "one");
    app.paused = true;
    for _ in 0..50 {
        assert!(app.on_tick(None).is_none());
    }
    app.paused = false;
    let mut flushed = None;
    for _ in 0..12 {
        if let Some(batch) = app.on_tick(None) {
            flushed = Some(batch);
            break;
        }
    }
    assert_eq!(
        flushed.expect("the batcher flushes once the session resumes"),
        vec![("a.log".to_string(), vec!["one".to_string()])]
    );
}

#[test]
fn quit_keys_end_the_session() {
    let mut app = session(vec![]);
    let mut ui = Ui::new();
    let (exit, cmds) = app.handle_input(&mut ui, Key::Char('q'));
    assert!(exit);
    assert!(matches!(cmds[..], [Command::Exit]));
    let (exit2, _) = app.handle_input(&mut ui, Key::Esc);
    assert!(exit2);
}

#[test]
fn filter_window_collects_typed_text() {
    let mut app = session(vec![]);
    let mut ui = Ui::new();
    app.handle_input(&mut ui, Key::Char('/'));
    assert_eq!(app.active_window, Windows::SelectionFilter);
    app.handle_input(&mut ui, Key::Char('o'));
    app.handle_input(&mut ui, Key::Char('r'));
    app.handle_input(&mut ui, Key::Backspace);
    assert_eq!(app.selection_filter, "o");
    app.handle_input(&mut ui, Key::Enter);
    assert_eq!(app.active_window, Windows::Main);
}

#[test]
fn selector_filters_case_insensitively_and_sorts() {
    let mut ui = Ui::new();
    let items = vec![
        exchange(0, "Zebra", false, ""),
        exchange(1, "orders", false, ""),
        exchange(2, "Orbit", false, ""),
        exchange(3, "billing", false, ""),
    ];
    let rows = ui.update_selector(&items, "or");
    let names: Vec<&str> = rows.iter().map(|r| r.name.as_str()).collect();
    assert_eq!(names, vec!["Orbit", "orders"]);
    assert_eq!(ui.selector_length, 2);
    ui.selector_index = 1;
    assert_eq!(ui.get_selected_item_id(), 1);
}

#[test]
fn options_editor_round_trip() {
    let mut app = session(vec![exchange(0, "orders", false, "")]);
    let mut ui = Ui::new();
    ui.update_selector(&app.config.items, "");
    // open the editor on the selected exchange
    app.handle_input(&mut ui, Key::Char('e'));
    assert_eq!(app.active_window, Windows::Options);
    assert!(ui.options_exchange.exchange_name == "orders");
    // move to the pretty flag and toggle it in place
    for _ in 0..4 {
        app.handle_input(&mut ui, Key::Down);
    }
    app.handle_input(&mut ui, Key::Char('e'));
    assert!(ui.options_exchange.pretty);
    assert_eq!(app.active_window, Windows::Options);
    // apply the change back to the configuration
    app.handle_input(&mut ui, Key::Enter);
    assert_eq!(app.active_window, Windows::Main);
    assert!(app.config.items[0].pretty);
}

#[test]
fn alias_edit_goes_through_the_text_input() {
    let mut app = session(vec![exchange(0, "orders", false, "")]);
    let mut ui = Ui::new();
    ui.update_selector(&app.config.items, "");
    app.handle_input(&mut ui, Key::Char('e'));
    for _ in 0..3 {
        app.handle_input(&mut ui, Key::Down);
    }
    app.handle_input(&mut ui, Key::Char('e'));
    assert_eq!(app.active_window, Windows::OptionsStringInput);
    app.handle_input(&mut ui, Key::Char('b'));
    app.handle_input(&mut ui, Key::Char('z'));
    app.handle_input(&mut ui, Key::Backspace);
    app.handle_input(&mut ui, Key::Enter);
    assert_eq!(app.active_window, Windows::Options);
    assert_eq!(ui.options_exchange.alias, "b");
}

#[test]
fn kind_edit_goes_through_the_pick_list() {
    let mut app = session(vec![exchange(0, "orders", false, "")]);
    let mut ui = Ui::new();
    ui.update_selector(&app.config.items, "");
    app.handle_input(&mut ui, Key::Char('e'));
    app.handle_input(&mut ui, Key::Down);
    app.handle_input(&mut ui, Key::Char('e'));
    assert_eq!(app.active_window, Windows::MultiSelectInput);
    app.handle_input(&mut ui, Key::Down);
    app.handle_input(&mut ui, Key::Enter);
    assert_eq!(app.active_window, Windows::Options);
    assert!(matches!(ui.options_exchange.exchange_type, ExchangeTypeSer::Fanout));
}

#[test]
fn save_key_asks_for_a_config_write() {
    let mut app = session(vec![]);
    let mut ui = Ui::new();
    let (_, cmds) = app.handle_input(&mut ui, Key::Char('s'));
    assert!(matches!(cmds[..], [Command::SaveConfig]));
}

#[test]
fn publish_key_names_the_selected_exchange() {
    let mut app = session(vec![exchange(5, "orders", false, "")]);
    let mut ui = Ui::new();
    ui.update_selector(&app.config.items, "");
    let (_, cmds) = app.handle_input(&mut ui, Key::Char('n'));
    assert!(matches!(cmds[..], [Command::Publish(5)]));
}
