use chatroom::App;
use chatroom::Event;
use chatroom::Key;

fn app_with_items(labels: &[&str]) -> App {
    App {
        items: labels.iter().map(|s| s.to_string()).collect(),
        selected: None,
        input: String::new(),
        messages: Vec::new(),
    }
}

#[test]
fn new_starts_empty() {
    let app = App::new();
    assert_eq!(app.items.len(), 24);
    assert_eq!(app.items[0], "Item1");
    assert_eq!(app.items[23], "Item24");
    assert_eq!(app.selected, None);
    assert_eq!(app.input, "");
    assert!(app.messages.is_empty());
}

#[test]
fn move_down_cycles_through_all_items() {
    let mut app = app_with_items(&["a", "b", "c"]);
    let mut seen = Vec::new();
    for _ in 0..3 {
        app.move_down();
        seen.push(app.selected.unwrap());
    }
    assert_eq!(seen, vec![0, 1, 2]);
    app.move_down();
    assert_eq!(app.selected, Some(0));
}

#[test]
fn move_up_from_none_lands_on_last() {
    let mut app = app_with_items(&["a", "b", "c", "d"]);
    app.move_up();
    assert_eq!(app.selected, Some(3));
}

#[test]
fn move_up_wraps_downward_back_to_last() {
    let mut app = app_with_items(&["a", "b", "c"]);
    let mut seen = Vec::new();
    for _ in 0..4 {
        app.move_up();
        seen.push(app.selected.unwrap());
    }
    assert_eq!(seen, vec![2, 1, 0, 2]);
}

#[test]
fn move_left_always_clears_selection() {
    let mut app = app_with_items(&["a", "b"]);
    app.move_left();
    assert_eq!(app.selected, None);
    app.move_down();
    assert_eq!(app.selected, Some(0));
    app.move_left();
    assert_eq!(app.selected, None);
}

#[test]
fn submit_appends_input_and_clears_it() {
    let mut app = app_with_items(&["a"]);
    app.enter_char('h');
    app.enter_char('e');
    app.enter_char('y');
    app.submit();
    assert_eq!(app.messages, vec!["hey".to_string()]);
    assert_eq!(app.input, "");
}

#[test]
fn submit_of_empty_input_records_empty_message() {
    let mut app = app_with_items(&["a"]);
    app.submit();
    assert_eq!(app.messages, vec![String::new()]);
    assert_eq!(app.input, "");
}

#[test]
fn enter_char_appends_to_input() {
    let mut app = app_with_items(&["a"]);
    app.enter_char('x');
    assert_eq!(app.input, "x");
    app.enter_char('y');
    assert_eq!(app.input, "xy");
}

#[test]
fn backspace_drops_last_character() {
    let mut app = app_with_items(&["a"]);
    app.enter_char('a');
    app.enter_char('b');
    app.backspace();
    assert_eq!(app.input, "a");
}

#[test]
fn backspace_on_empty_input_is_a_no_op() {
    let mut app = app_with_items(&["a"]);
    app.backspace();
    assert_eq!(app.input, "");
    assert!(app.messages.is_empty());
    assert_eq!(app.selected, None);
}

#[test]
fn scenario_three_downs_over_three_items() {
    let mut app = app_with_items(&["Item1", "Item2", "Item3"]);
    assert_eq!(app.selected, None);
    app.move_down();
    app.move_down();
    app.move_down();
    assert_eq!(app.selected, Some(2));
    app.move_down();
    assert_eq!(app.selected, Some(0));
}

#[test]
fn scenario_typing_backspace_then_submit() {
    let mut app = app_with_items(&["Item1"]);
    assert_eq!(app.input, "");
    let quit = app.handle_event(Event::Input(Key::Char('h')));
    assert!(!quit);
    app.handle_event(Event::Input(Key::Char('i')));
    assert_eq!(app.input, "hi");
    app.handle_event(Event::Input(Key::Backspace));
    assert_eq!(app.input, "h");
    app.handle_event(Event::Input(Key::Char('\n')));
    assert_eq!(app.messages, vec!["h".to_string()]);
    assert_eq!(app.input, "");
}

#[test]
fn quit_key_reports_quit_and_changes_nothing() {
    let mut app = app_with_items(&["a", "b"]);
    app.enter_char('z');
    app.move_down();
    let quit = app.handle_event(Event::Input(Key::Char('q')));
    assert!(quit);
    assert_eq!(app.input, "z");
    assert_eq!(app.selected, Some(0));
    assert!(app.messages.is_empty());
}

#[test]
fn tick_and_unbound_keys_change_nothing() {
    let mut app = app_with_items(&["a", "b"]);
    app.move_down();
    app.enter_char('k');
    for ev in [
        Event::Tick,
        Event::Input(Key::Right),
        Event::Input(Key::Other),
    ] {
        let quit = app.handle_event(ev);
        assert!(!quit);
        assert_eq!(app.selected, Some(0));
        assert_eq!(app.input, "k");
        assert!(app.messages.is_empty());
    }
}

#[test]
fn arrow_events_drive_the_selection() {
    let mut app = app_with_items(&["a", "b", "c"]);
    app.handle_event(Event::Input(Key::Down));
    assert_eq!(app.selected, Some(0));
    app.handle_event(Event::Input(Key::Down));
    assert_eq!(app.selected, Some(1));
    app.handle_event(Event::Input(Key::Up));
    assert_eq!(app.selected, Some(0));
    app.handle_event(Event::Input(Key::Up));
    assert_eq!(app.selected, Some(2));
    app.handle_event(Event::Input(Key::Left));
    assert_eq!(app.selected, None);
}
