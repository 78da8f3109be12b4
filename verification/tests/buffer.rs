use amqp_client_cli::Ui;

#[test]
fn buffer_keeps_the_last_capacity_lines_in_order() {
    let mut ui = Ui::new();
    let capacity = ui.line_buffer_size;
    for i in 0..capacity + 3 {
        ui.add_line(&format!("line{}", i));
    }
    assert_eq!(ui.line_buffer.len(), capacity);
    assert_eq!(ui.line_buffer[0], "line3");
    assert_eq!(ui.line_buffer[1], "line4");
    assert_eq!(ui.line_buffer[capacity - 1], format!("line{}", capacity + 2));
}

#[test]
fn buffer_below_capacity_just_appends() {
    let mut ui = Ui::new();
    ui.add_line("a");
    ui.add_line("b");
    assert_eq!(ui.line_buffer, vec!["a".to_string(), "b".to_string()]);
}

fn filled(lines: usize, height: usize) -> Ui {
    let mut ui = Ui::new();
    for i in 0..lines {
        ui.add_line(&format!("line{}", i));
    }
    ui.set_messages_window_height(height);
    ui
}

#[test]
fn normal_window_shows_the_most_recent_lines() {
    let mut ui = filled(10, 4);
    let (upper, lower) = ui.compute_window(false);
    assert_eq!((upper, lower), (6, 10));
}

#[test]
fn short_history_shows_whole() {
    let mut ui = filled(3, 4);
    let (upper, lower) = ui.compute_window(true);
    assert_eq!((upper, lower), (0, 3));
}

#[test]
fn scroll_window_moves_up_by_the_offset() {
    let mut ui = filled(10, 4);
    ui.scroll_up();
    ui.scroll_up();
    let (upper, lower) = ui.compute_window(true);
    assert_eq!((upper, lower), (4, 8));
}

#[test]
fn scroll_up_stops_at_the_top_of_history() {
    let mut ui = filled(6, 4);
    for _ in 0..10 {
        ui.scroll_up();
    }
    assert_eq!(ui.scroll_position, 2);
    let (upper, lower) = ui.compute_window(true);
    assert_eq!((upper, lower), (0, 4));
    ui.scroll_up();
    assert_eq!(ui.scroll_position, 2);
}

#[test]
fn scroll_down_stops_at_the_bottom() {
    let mut ui = filled(6, 4);
    ui.scroll_down();
    assert_eq!(ui.scroll_position, 0);
    let (upper, lower) = ui.compute_window(true);
    assert_eq!((upper, lower), (2, 6));
}

#[test]
fn page_keys_move_a_window_at_a_time_and_clamp() {
    let mut ui = filled(20, 5);
    ui.scroll_up_page();
    assert_eq!(ui.scroll_position, 5);
    ui.scroll_up_page();
    ui.scroll_up_page();
    ui.scroll_up_page();
    assert_eq!(ui.scroll_position, 15);
    ui.scroll_down_page();
    assert_eq!(ui.scroll_position, 10);
    ui.scroll_down_page();
    ui.scroll_down_page();
    ui.scroll_down_page();
    assert_eq!(ui.scroll_position, 0);
}

#[test]
fn window_bounds_stay_inside_history_after_resize() {
    let mut ui = filled(10, 4);
    for _ in 0..6 {
        ui.scroll_up();
    }
    ui.set_messages_window_height(8);
    let (upper, lower) = ui.compute_window(true);
    assert!(upper <= lower && lower <= 10);
    assert_eq!((upper, lower), (0, 8));
}

#[test]
fn selector_window_follows_the_resting_row() {
    assert_eq!(Ui::selector_window(3, 5, 0), (0, 3));
    assert_eq!(Ui::selector_window(10, 5, 0), (0, 5));
    assert_eq!(Ui::selector_window(10, 5, 7), (3, 8));
    assert_eq!(Ui::selector_window(10, 5, 9), (5, 10));
}
