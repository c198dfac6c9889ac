use soldash::app::{App, InputMode, TAB_COUNT};
use soldash::handler::{handle_key_events, KeyCode, KeyEvent, KeyEventKind, KeyModifiers};

fn press(code: KeyCode) -> KeyEvent {
    KeyEvent::press(code)
}

#[test]
fn q_quits_in_normal_mode() {
    let mut app = App::new();
    handle_key_events(press(KeyCode::Char('q')), &mut app);
    assert!(!app.running);
}

#[test]
fn esc_quits_in_normal_mode() {
    let mut app = App::new();
    handle_key_events(press(KeyCode::Esc), &mut app);
    assert!(!app.running);
}

#[test]
fn ctrl_c_quits_but_plain_c_does_not() {
    let mut app = App::new();
    handle_key_events(press(KeyCode::Char('c')), &mut app);
    assert!(app.running);
    let ctrl_c = KeyEvent {
        code: KeyCode::Char('C'),
        modifiers: KeyModifiers { control: true, alt: false, shift: false, other: false },
        kind: KeyEventKind::Press,
    };
    handle_key_events(ctrl_c, &mut app);
    assert!(!app.running);
}

#[test]
fn ctrl_with_another_modifier_does_not_quit() {
    let mut app = App::new();
    let event = KeyEvent {
        code: KeyCode::Char('c'),
        modifiers: KeyModifiers { control: true, alt: true, shift: false, other: false },
        kind: KeyEventKind::Press,
    };
    handle_key_events(event, &mut app);
    assert!(app.running);
    let with_rare_modifier = KeyEvent {
        code: KeyCode::Char('c'),
        modifiers: KeyModifiers { control: true, alt: false, shift: false, other: true },
        kind: KeyEventKind::Press,
    };
    handle_key_events(with_rare_modifier, &mut app);
    assert!(app.running);
}

#[test]
fn arrows_step_the_counter_in_normal_mode() {
    let mut app = App::new();
    handle_key_events(press(KeyCode::Right), &mut app);
    handle_key_events(press(KeyCode::Right), &mut app);
    assert_eq!(app.counter, 2);
    handle_key_events(press(KeyCode::Left), &mut app);
    assert_eq!(app.counter, 1);
}

#[test]
fn tab_keys_cycle_tabs_in_normal_mode() {
    let mut app = App::new();
    handle_key_events(press(KeyCode::Tab), &mut app);
    assert_eq!(app.context.tab_index, 1);
    handle_key_events(press(KeyCode::BackTab), &mut app);
    assert_eq!(app.context.tab_index, 0);
    handle_key_events(press(KeyCode::BackTab), &mut app);
    assert_eq!(app.context.tab_index, TAB_COUNT - 1);
}

#[test]
fn i_enters_editing_mode() {
    let mut app = App::new();
    handle_key_events(press(KeyCode::Char('i')), &mut app);
    assert!(app.context.input.input_mode == InputMode::Editing);
    assert!(app.running);
}

#[test]
fn unrecognized_events_change_nothing() {
    let mut app = App::new();
    handle_key_events(press(KeyCode::Other), &mut app);
    handle_key_events(press(KeyCode::Enter), &mut app);
    handle_key_events(press(KeyCode::Backspace), &mut app);
    assert!(app.running);
    assert_eq!(app.counter, 0);
    assert_eq!(app.context.tab_index, 0);
    assert!(app.context.input.input.is_empty());
    assert!(app.context.input.input_mode == InputMode::Normal);
}

#[test]
fn typing_in_editing_mode_edits_the_buffer() {
    let mut app = App::new();
    handle_key_events(press(KeyCode::Char('i')), &mut app);
    for c in ['h', 'i', '!'] {
        handle_key_events(press(KeyCode::Char(c)), &mut app);
    }
    assert_eq!(app.context.input.input, vec!['h', 'i', '!']);
    handle_key_events(press(KeyCode::Backspace), &mut app);
    assert_eq!(app.context.input.input, vec!['h', 'i']);
    handle_key_events(press(KeyCode::Left), &mut app);
    handle_key_events(press(KeyCode::Char('e')), &mut app);
    assert_eq!(app.context.input.input, vec!['h', 'e', 'i']);
    handle_key_events(press(KeyCode::Right), &mut app);
    assert_eq!(app.context.input.cursor_position, 3);
}

#[test]
fn enter_submits_in_editing_mode() {
    let mut app = App::new();
    handle_key_events(press(KeyCode::Char('i')), &mut app);
    handle_key_events(press(KeyCode::Char('o')), &mut app);
    handle_key_events(press(KeyCode::Char('k')), &mut app);
    handle_key_events(press(KeyCode::Enter), &mut app);
    assert_eq!(app.context.input.messages, vec![vec!['o', 'k']]);
    assert!(app.context.input.input.is_empty());
    assert_eq!(app.context.input.cursor_position, 0);
    assert!(app.context.input.input_mode == InputMode::Editing);
}

#[test]
fn esc_returns_to_normal_mode() {
    let mut app = App::new();
    handle_key_events(press(KeyCode::Char('i')), &mut app);
    handle_key_events(press(KeyCode::Esc), &mut app);
    assert!(app.context.input.input_mode == InputMode::Normal);
    assert!(app.running);
}

#[test]
fn release_and_repeat_are_ignored_in_editing_mode() {
    let mut app = App::new();
    handle_key_events(press(KeyCode::Char('i')), &mut app);
    let release = KeyEvent {
        code: KeyCode::Char('x'),
        modifiers: KeyModifiers { control: false, alt: false, shift: false, other: false },
        kind: KeyEventKind::Release,
    };
    handle_key_events(release, &mut app);
    assert!(app.context.input.input.is_empty());
    let repeat = KeyEvent {
        code: KeyCode::Backspace,
        modifiers: KeyModifiers { control: false, alt: false, shift: false, other: false },
        kind: KeyEventKind::Repeat,
    };
    handle_key_events(repeat, &mut app);
    assert!(app.context.input.input.is_empty());
}

#[test]
fn q_types_a_letter_in_editing_mode() {
    let mut app = App::new();
    handle_key_events(press(KeyCode::Char('i')), &mut app);
    handle_key_events(press(KeyCode::Char('q')), &mut app);
    assert!(app.running);
    assert_eq!(app.context.input.input, vec!['q']);
}

#[test]
fn modifiers_helpers() {
    assert!(KeyModifiers { control: true, alt: false, shift: false, other: false }.is_control_only());
    assert!(!KeyModifiers { control: true, alt: false, shift: true, other: false }.is_control_only());
    assert!(!KeyModifiers::none().is_control_only());
}
