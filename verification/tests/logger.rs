use amqp_client_cli::FileLogger;

#[test]
fn nothing_flushes_before_the_threshold() {
    let mut logger = FileLogger::new();
    logger.add_to_buffer("a.log".to_string(), "one");
    assert!(logger.tick(400).is_none());
    assert!(logger.tick(600).is_none());
}

#[test]
fn flush_on_tick_hands_back_every_line_in_order() {
    let mut logger = FileLogger::new();
    logger.add_to_buffer("a.log".to_string(), "one");
    logger.add_to_buffer("b.log".to_string(), "uno");
    logger.add_to_buffer("a.log".to_string(), "two");
    logger.add_to_buffer("a.log".to_string(), "three");
    assert!(logger.tick(1000).is_none());
    let batch = logger.tick(1).expect("the accumulated ticks passed the threshold");
    assert_eq!(
        batch,
        vec![
            (
                "a.log".to_string(),
                vec!["one".to_string(), "two".to_string(), "three".to_string()]
            ),
            ("b.log".to_string(), vec!["uno".to_string()]),
        ]
    );
}

#[test]
fn pending_is_empty_right_after_a_flush() {
    let mut logger = FileLogger::new();
    logger.add_to_buffer("a.log".to_string(), "one");
    logger.tick(2000).expect("flush");
    let again = logger.tick(2000).expect("a crossing tick flushes even when empty");
    assert_eq!(again, vec![]);
}

#[test]
fn accumulator_resets_on_flush() {
    let mut logger = FileLogger::new();
    logger.add_to_buffer("a.log".to_string(), "one");
    logger.tick(1001).expect("flush");
    logger.add_to_buffer("a.log".to_string(), "two");
    assert!(logger.tick(999).is_none());
    let batch = logger.tick(2).expect("flush");
    assert_eq!(batch, vec![("a.log".to_string(), vec!["two".to_string()])]);
}
