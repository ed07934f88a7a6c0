use vstd::prelude::*;
use crate::app::{AppState, AppView, Focus, MENU_LEN, SIDEBAR_W, sidebar_hit_test};

verus! {

/// A key, as far as the interface tells keys apart.
#[derive(Debug, Clone, Copy, PartialEq, Eq, Structural)]
pub enum Key {
    Char(char),
    Esc,
    Tab,
    Up,
    Down,
    Enter,
    Other,
}

/// A terminal event, as far as the interface reacts to it.
#[derive(Debug, Clone, Copy, PartialEq, Eq, Structural)]
pub enum InputEvent {
    /// A key event; `press` is false for releases and repeats, `ctrl` tells
    /// whether Control was held.
    Key { key: Key, ctrl: bool, press: bool },
    /// The left mouse button went down at this cell.
    MouseLeftDown { column: u16, row: u16 },
    /// Anything else.
    Other,
}

/// The focus after Tab: the side menu and the log panel swap, and any other
/// panel hands focus to the side menu.
pub open spec fn next_focus(f: Focus) -> Focus {
    match f {
        Focus::Sidebar => Focus::Logs,
        Focus::Logs => Focus::Sidebar,
        _ => Focus::Sidebar,
    }
}

/// The state after a terminal event, and whether the interface is to quit.
/// Ctrl+C and Esc quit; Tab moves the focus; Up and Down move through the
/// side menu while it has focus; Enter moves from the side menu to the log
/// panel; a left click on a menu button selects it and focuses the menu, a
/// click right of the menu focuses the log panel.
pub open spec fn handle_event_spec(s: AppView, ev: InputEvent) -> (AppView, bool) {
    match ev {
        InputEvent::Key { key, ctrl, press } => if !press {
            (s, false)
        } else {
            match key {
                Key::Char(c) => (s, c == 'c' && ctrl),
                Key::Esc => (s, true),
                Key::Tab => (AppView { focus: next_focus(s.focus), ..s }, false),
                Key::Up => if s.focus == Focus::Sidebar && s.selected_menu > 0 {
                    (AppView { selected_menu: (s.selected_menu - 1) as usize, ..s }, false)
                } else {
                    (s, false)
                },
                Key::Down => if s.focus == Focus::Sidebar && s.selected_menu + 1 < MENU_LEN {
                    (AppView { selected_menu: (s.selected_menu + 1) as usize, ..s }, false)
                } else {
                    (s, false)
                },
                Key::Enter => if s.focus == Focus::Sidebar {
                    (AppView { focus: Focus::Logs, ..s }, false)
                } else {
                    (s, false)
                },
                Key::Other => (s, false),
            }
        },
        InputEvent::MouseLeftDown { column, row } => if column < SIDEBAR_W {
            if 2 <= row && row < 2 + 4 * MENU_LEN {
                (
                    AppView {
                        selected_menu: ((row - 2) / 4int) as usize,
                        focus: Focus::Sidebar,
                        ..s
                    },
                    false,
                )
            } else {
                (s, false)
            }
        } else {
            (AppView { focus: Focus::Logs, ..s }, false)
        },
        InputEvent::Other => (s, false),
    }
}

/// Reacts to one terminal event; returns whether the interface is to quit.
pub fn handle_event(app: &mut AppState, ev: InputEvent) -> (quit: bool)
    requires
        old(app)@.wf(),
    ensures
        (final(app)@, quit) == handle_event_spec(old(app)@, ev),
        final(app)@.wf(),
{
    match ev {
        InputEvent::Key { key, ctrl, press } => {
            if !press {
                return false;
            }
            match key {
                Key::Char(c) => c == 'c' && ctrl,
                Key::Esc => true,
                Key::Tab => {
                    app.focus = match app.focus {
                        Focus::Sidebar => Focus::Logs,
                        Focus::Logs => Focus::Sidebar,
                        _ => Focus::Sidebar,
                    };
                    false
                },
                Key::Up => {
                    if app.focus == Focus::Sidebar && app.selected_menu > 0 {
                        app.selected_menu = app.selected_menu - 1;
                    }
                    false
                },
                Key::Down => {
                    if app.focus == Focus::Sidebar && app.selected_menu + 1 < MENU_LEN {
                        app.selected_menu = app.selected_menu + 1;
                    }
                    false
                },
                Key::Enter => {
                    if app.focus == Focus::Sidebar {
                        app.focus = Focus::Logs;
                    }
                    false
                },
                Key::Other => false,
            }
        },
        InputEvent::MouseLeftDown { column, row } => {
            if column < SIDEBAR_W {
                match sidebar_hit_test(row) {
                    Some(i) => {
                        app.selected_menu = i;
                        app.focus = Focus::Sidebar;
                    },
                    None => {},
                }
            } else {
                app.focus = Focus::Logs;
            }
            false
        },
        InputEvent::Other => false,
    }
}

} // verus!
