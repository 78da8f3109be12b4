use amqp_client_cli::Ampq;
use amqp_client_cli::ExchangeOptions;
use amqp_client_cli::ExchangeTypeSer;
use amqp_client_cli::SelectedState;
use amqp_client_cli::SubscriptionAction;
use amqp_client_cli::WorkerAction;
use amqp_client_cli::WorkerEvent;

fn orders() -> ExchangeOptions {
    ExchangeOptions {
        id: 7,
        exchange_name: "orders".to_string(),
        exchange_type: ExchangeTypeSer::Topic,
        queue_routing_key: "#".to_string(),
        alias: String::new(),
        pretty: true,
        log_file: String::new(),
        publish_file: String::new(),
        selected_state: SelectedState::Unselected,
    }
}

#[test]
fn queue_name_is_derived_from_client_and_exchange() {
    let engine = Ampq::new();
    assert_eq!(engine.create_queue_name("orders"), "amqp-client-cli.orders");
}

#[test]
fn toggle_subscribes_then_unsubscribes() {
    let mut engine = Ampq::new();
    let item = orders();

    assert!(!engine.has_subscription("orders"));
    match engine.change_subscription(&item, 7) {
        SubscriptionAction::Subscribe(plan) => {
            assert_eq!(plan.exchange_name, "orders");
            assert_eq!(plan.queue_name, "amqp-client-cli.orders");
            assert_eq!(plan.queue_routing_key, "#");
            assert_eq!(plan.id, 7);
        }
        SubscriptionAction::Unsubscribe => panic!("expected a subscribe"),
    }
    assert!(engine.has_subscription("orders"));

    match engine.change_subscription(&item, 7) {
        SubscriptionAction::Unsubscribe => {}
        SubscriptionAction::Subscribe(_) => panic!("expected an unsubscribe"),
    }
    assert!(!engine.has_subscription("orders"));
}

#[test]
fn resubscribing_tracks_the_queue_once() {
    let mut engine = Ampq::new();
    let item = orders();
    engine.change_subscription(&item, 7);
    engine.change_subscription(&item, 7);
    engine.change_subscription(&item, 7);
    let queues = engine.delete_remaining_queue();
    assert_eq!(queues, vec!["amqp-client-cli.orders".to_string()]);
}

#[test]
fn independent_exchanges_do_not_interfere() {
    let mut engine = Ampq::new();
    let a = orders();
    let mut b = orders();
    b.exchange_name = "invoices".to_string();
    engine.change_subscription(&a, 7);
    engine.change_subscription(&b, 8);
    assert!(engine.has_subscription("orders"));
    assert!(engine.has_subscription("invoices"));
    engine.change_subscription(&a, 7);
    assert!(!engine.has_subscription("orders"));
    assert!(engine.has_subscription("invoices"));
    let queues = engine.delete_remaining_queue();
    assert_eq!(
        queues,
        vec![
            "amqp-client-cli.orders".to_string(),
            "amqp-client-cli.invoices".to_string()
        ]
    );
}

#[test]
fn cancelled_worker_deletes_its_queue() {
    let now = chrono::Local::now().naive_local();
    let act = amqp_client_cli::worker_step(WorkerEvent::Cancelled, false, 7, "orders", now);
    assert!(matches!(act, WorkerAction::DeleteQueueAndExit));
}

#[test]
fn paused_worker_drops_the_delivery_but_keeps_consuming() {
    let now = chrono::Local::now().naive_local();
    let act = amqp_client_cli::worker_step(
        WorkerEvent::Delivery(b"{\"id\":1}".to_vec()),
        true,
        7,
        "orders",
        now,
    );
    assert!(matches!(act, WorkerAction::Skip));
}

#[test]
fn running_worker_decodes_the_delivery() {
    let now = chrono::Local::now().naive_local();
    let act = amqp_client_cli::worker_step(
        WorkerEvent::Delivery(b"{\"id\":1}".to_vec()),
        false,
        7,
        "orders",
        now,
    );
    match act {
        WorkerAction::Emit(rv) => {
            assert_eq!(rv.id, 7);
            assert_eq!(rv.exchange_name, "orders");
            assert_eq!(rv.value, "{\"id\":1}");
            assert_eq!(rv.timestamp, now);
        }
        _ => panic!("expected an emitted message"),
    }
}

#[test]
fn empty_delivery_is_dropped() {
    let now = chrono::Local::now().naive_local();
    let act = amqp_client_cli::worker_step(WorkerEvent::Delivery(Vec::new()), false, 7, "orders", now);
    assert!(matches!(act, WorkerAction::Skip));
}

#[test]
fn ended_consumption_exits_without_deleting() {
    let now = chrono::Local::now().naive_local();
    let act = amqp_client_cli::worker_step(WorkerEvent::Ended, false, 7, "orders", now);
    assert!(matches!(act, WorkerAction::ExitNoDelete));
}

#[test]
fn lossy_decode_replaces_invalid_bytes() {
    let now = chrono::Local::now().naive_local();
    let act = amqp_client_cli::worker_step(
        WorkerEvent::Delivery(vec![b'h', b'i', 0xff]),
        false,
        1,
        "orders",
        now,
    );
    match act {
        WorkerAction::Emit(rv) => assert_eq!(rv.value, "hi\u{fffd}"),
        _ => panic!("expected an emitted message"),
    }
}
