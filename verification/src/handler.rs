use vstd::prelude::*;

use crate::app::{
    App, AppView, InputMode, spec_back_tab, spec_decrement, spec_delete_char, spec_increment,
    spec_insert_char, spec_move_left, spec_move_right, spec_next_tab,
};

verus! {

/// Logical key code of an input event. The external terminal backend knows
/// many more keys; every one the dashboard does not react to arrives as
/// `Other`.
#[derive(Debug, Clone, Copy, PartialEq, Eq, Structural)]
pub enum KeyCode {
    Esc,
    Enter,
    Backspace,
    Left,
    Right,
    Tab,
    BackTab,
    Char(char),
    Other,
}

/// Modifier flags carried by a key event. `other` stands for every rarer
/// modifier the event source may report (such as a super key), so "control
/// alone" can be told apart exactly.
#[derive(Debug, Clone, Copy, PartialEq, Eq, Structural)]
pub struct KeyModifiers {
    pub control: bool,
    pub alt: bool,
    pub shift: bool,
    pub other: bool,
}

/// Exactly the control modifier is held, and no other.
pub open spec fn spec_control_only(modifiers: KeyModifiers) -> bool {
    modifiers == (KeyModifiers { control: true, alt: false, shift: false, other: false })
}

impl KeyModifiers {
    /// No modifier held.
    pub fn none() -> (modifiers: KeyModifiers)
        ensures
            modifiers == (KeyModifiers { control: false, alt: false, shift: false, other: false }),
    {
        KeyModifiers { control: false, alt: false, shift: false, other: false }
    }

    /// Exactly the control modifier is held, and no other.
    pub fn is_control_only(&self) -> (control_only: bool)
        ensures
            control_only == spec_control_only(*self),
    {
        self.control && !self.alt && !self.shift && !self.other
    }
}

/// Whether a key event reports the key going down, auto-repeating, or going
/// up. Event sources that cannot tell report every event as `Press`.
#[derive(Debug, Clone, Copy, PartialEq, Eq, Structural)]
pub enum KeyEventKind {
    Press,
    Repeat,
    Release,
}

/// One discrete input event: a logical key, its modifiers, and whether the
/// key went down or up.
#[derive(Debug, Clone, Copy, PartialEq, Eq, Structural)]
pub struct KeyEvent {
    pub code: KeyCode,
    pub modifiers: KeyModifiers,
    pub kind: KeyEventKind,
}

impl KeyEvent {
    /// A plain key press without modifiers.
    pub fn press(code: KeyCode) -> (event: KeyEvent)
        ensures
            event == (KeyEvent {
                code,
                modifiers: KeyModifiers { control: false, alt: false, shift: false, other: false },
                kind: KeyEventKind::Press,
            }),
    {
        KeyEvent { code, modifiers: KeyModifiers::none(), kind: KeyEventKind::Press }
    }
}

/// The state after one event is applied, as a function of the state before
/// it. This is the whole dispatch policy:
///
/// - In Normal mode: `Esc` or `q` quits, as does `c`/`C` under the control
///   modifier alone; the arrow keys step the counter; `Tab`/`BackTab` cycle
///   the tabs; `i` enters Editing mode; anything else is ignored.
/// - In Editing mode, and only while the key is going down: characters are
///   inserted at the cursor, `Backspace` erases left of it, the arrow keys
///   move it, `Enter` submits the buffer, `Esc` returns to Normal mode;
///   anything else is ignored, as is every repeat or release event.
pub open spec fn spec_dispatch(v: AppView, event: KeyEvent) -> AppView {
    match v.mode {
        InputMode::Normal => match event.code {
            KeyCode::Esc => AppView { running: false, ..v },
            KeyCode::Char(ch) => if ch == 'q' {
                AppView { running: false, ..v }
            } else if (ch == 'c' || ch == 'C') && spec_control_only(event.modifiers) {
                AppView { running: false, ..v }
            } else if ch == 'i' {
                AppView { mode: InputMode::Editing, ..v }
            } else {
                v
            },
            KeyCode::Right => AppView { counter: spec_increment(v.counter), ..v },
            KeyCode::Left => AppView { counter: spec_decrement(v.counter), ..v },
            KeyCode::Tab => AppView { tab_index: spec_next_tab(v.tab_index), row_index: 0, ..v },
            KeyCode::BackTab => AppView {
                tab_index: spec_back_tab(v.tab_index),
                row_index: 0,
                ..v
            },
            _ => v,
        },
        InputMode::Editing => if event.kind == KeyEventKind::Press {
            match event.code {
                KeyCode::Enter => AppView {
                    history: v.history.push(v.buffer),
                    buffer: Seq::empty(),
                    cursor: 0,
                    ..v
                },
                KeyCode::Char(ch) => AppView {
                    buffer: spec_insert_char(v.buffer, v.cursor, ch).0,
                    cursor: spec_insert_char(v.buffer, v.cursor, ch).1,
                    ..v
                },
                KeyCode::Backspace => AppView {
                    buffer: spec_delete_char(v.buffer, v.cursor).0,
                    cursor: spec_delete_char(v.buffer, v.cursor).1,
                    ..v
                },
                KeyCode::Left => AppView {
                    cursor: spec_move_left(v.cursor, v.buffer.len() as int),
                    ..v
                },
                KeyCode::Right => AppView {
                    cursor: spec_move_right(v.cursor, v.buffer.len() as int),
                    ..v
                },
                KeyCode::Esc => AppView { mode: InputMode::Normal, ..v },
                _ => v,
            }
        } else {
            v
        },
    }
}

/// Handles one key event and updates the state of [`App`]: the event is
/// interpreted against the current mode and applies exactly one state
/// transition, [`spec_dispatch`]. Unrecognized events change nothing.
pub fn handle_key_events(key_event: KeyEvent, app: &mut App)
    requires
        old(app).inv(),
    ensures
        final(app)@ == spec_dispatch(old(app)@, key_event),
        final(app).inv(),
{
    match app.context.input.input_mode {
        InputMode::Normal => match key_event.code {
            // Exit application on `ESC` or `q`
            KeyCode::Esc => {
                app.quit();
            }
            KeyCode::Char(ch) => {
                if ch == 'q' {
                    app.quit();
                } else if (ch == 'c' || ch == 'C') && key_event.modifiers.is_control_only() {
                    // Exit application on `Ctrl-C`
                    app.quit();
                } else if ch == 'i' {
                    app.context.input.set_mode(InputMode::Editing);
                }
            }
            // Counter handlers
            KeyCode::Right => {
                app.increment_counter();
            }
            KeyCode::Left => {
                app.decrement_counter();
            }
            // Tab handlers
            KeyCode::Tab => {
                app.next_tab();
            }
            KeyCode::BackTab => {
                app.back_tab();
            }
            _ => {}
        },
        InputMode::Editing => {
            if key_event.kind == KeyEventKind::Press {
                match key_event.code {
                    KeyCode::Enter => {
                        app.submit_message();
                    }
                    KeyCode::Char(to_insert) => {
                        app.enter_char(to_insert);
                    }
                    KeyCode::Backspace => {
                        app.delete_char();
                    }
                    KeyCode::Left => {
                        app.move_cursor_left();
                    }
                    KeyCode::Right => {
                        app.move_cursor_right();
                    }
                    KeyCode::Esc => {
                        app.context.input.set_mode(InputMode::Normal);
                    }
                    _ => {}
                }
            }
        }
    }
    proof {
        assert(app@ =~~= spec_dispatch(old(app)@, key_event));
    }
}

} // verus!
