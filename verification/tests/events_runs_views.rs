use deploykit::app::{AppState, ConnectionState, DeployTargetState, Focus, Message, Sender};
use deploykit::deploy::{DeployRun, DeployStep};
use deploykit::event::{handle_event, InputEvent, Key};
use deploykit::profile::{Database, DeploymentTarget, Profile};
use deploykit::ssh::{
    output_line_event, read_error_event, script_outcome_event, session_error_event, SshEvent,
};
use deploykit::view::{
    button_lines, chat_lines, deploy_row_text, field_display, field_label_text, field_value_text,
    input_cursor_visible, input_display, profile_row_text, repeat_str, sidebar_status_text,
    split_lines, status_text, ChatLine, Role,
};

fn key(k: Key) -> InputEvent {
    InputEvent::Key { key: k, ctrl: false, press: true }
}

#[test]
fn quitting_keys() {
    let mut app = AppState::new(vec![], vec![]);
    assert!(handle_event(&mut app, InputEvent::Key { key: Key::Char('c'), ctrl: true, press: true }));
    assert!(!handle_event(&mut app, key(Key::Char('c'))));
    assert!(handle_event(&mut app, key(Key::Esc)));
    assert!(!handle_event(&mut app, InputEvent::Key { key: Key::Esc, ctrl: false, press: false }));
    assert!(!handle_event(&mut app, InputEvent::Other));
}

#[test]
fn focus_and_menu_keys() {
    let mut app = AppState::new(vec![], vec![]);
    assert_eq!(app.focus, Focus::Input);
    handle_event(&mut app, key(Key::Tab));
    assert_eq!(app.focus, Focus::Sidebar);
    handle_event(&mut app, key(Key::Tab));
    assert_eq!(app.focus, Focus::Logs);
    handle_event(&mut app, key(Key::Tab));
    assert_eq!(app.focus, Focus::Sidebar);
    handle_event(&mut app, key(Key::Up));
    assert_eq!(app.selected_menu, 0);
    for _ in 0..10 {
        handle_event(&mut app, key(Key::Down));
    }
    assert_eq!(app.selected_menu, 5);
    handle_event(&mut app, key(Key::Up));
    assert_eq!(app.selected_menu, 4);
    handle_event(&mut app, key(Key::Enter));
    assert_eq!(app.focus, Focus::Logs);
    handle_event(&mut app, key(Key::Down));
    assert_eq!(app.selected_menu, 4);
}

#[test]
fn mouse_clicks() {
    let mut app = AppState::new(vec![], vec![]);
    handle_event(&mut app, InputEvent::MouseLeftDown { column: 3, row: 10 });
    assert_eq!(app.selected_menu, 2);
    assert_eq!(app.focus, Focus::Sidebar);
    handle_event(&mut app, InputEvent::MouseLeftDown { column: 3, row: 40 });
    assert_eq!(app.selected_menu, 2);
    handle_event(&mut app, InputEvent::MouseLeftDown { column: 22, row: 10 });
    assert_eq!(app.focus, Focus::Logs);
    assert_eq!(app.selected_menu, 2);
}

#[test]
fn deploy_run_all_succeed() {
    let targets = vec![DeploymentTarget::Hardening, DeploymentTarget::Database(Database::Redis)];
    let mut run = DeployRun::new(targets);
    assert_eq!(
        run.first_step(),
        DeployStep::Run {
            events: vec![SshEvent::Line("\n>>> System Hardening".to_string())],
            target: DeploymentTarget::Hardening,
        }
    );
    assert_eq!(
        run.next_step(Ok(0)),
        DeployStep::Run {
            events: vec![
                SshEvent::Line("[ System Hardening done, exit: 0 ]".to_string()),
                SshEvent::Line("\n>>> Redis".to_string()),
            ],
            target: DeploymentTarget::Database(Database::Redis),
        }
    );
    assert!(!run.is_finished());
    assert_eq!(
        run.next_step(Ok(3)),
        DeployStep::Finish {
            events: vec![
                SshEvent::Line("[ Redis done, exit: 3 ]".to_string()),
                SshEvent::Done(0),
                SshEvent::Line("=== DEPLOYMENT COMPLETE ===".to_string()),
            ],
        }
    );
    assert!(run.is_finished());
}

#[test]
fn deploy_run_stops_at_failure() {
    let targets = vec![DeploymentTarget::Hardening, DeploymentTarget::Binary];
    let mut run = DeployRun::new(targets);
    run.first_step();
    assert_eq!(
        run.next_step(Err("no route".to_string())),
        DeployStep::Finish {
            events: vec![
                SshEvent::Error("[ System Hardening failed: no route ]".to_string()),
                SshEvent::Done(0),
                SshEvent::Line("=== DEPLOYMENT COMPLETE ===".to_string()),
            ],
        }
    );
    assert!(run.is_finished());
}

#[test]
fn empty_deploy_run_just_closes() {
    let mut run = DeployRun::new(vec![]);
    assert_eq!(
        run.first_step(),
        DeployStep::Finish {
            events: vec![SshEvent::Done(0), SshEvent::Line("=== DEPLOYMENT COMPLETE ===".to_string())],
        }
    );
    assert!(run.is_finished());
}

#[test]
fn worker_events() {
    assert_eq!(output_line_event("total 4 \r\n"), SshEvent::Line("total 4".to_string()));
    assert_eq!(read_error_event("eof"), SshEvent::Error("read error: eof".to_string()));
    assert_eq!(session_error_event("refused"), SshEvent::Error("SSH error: refused".to_string()));
    assert_eq!(script_outcome_event(Ok(5)), SshEvent::Done(5));
    assert_eq!(script_outcome_event(Err("x".to_string())), SshEvent::Error("script error: x".to_string()));
}

#[test]
fn chat_layout() {
    let msgs = vec![
        Message { sender: Sender::System, content: "a\nb".to_string() },
        Message { sender: Sender::Tool { name: "ls".to_string() }, content: "".to_string() },
    ];
    assert_eq!(
        chat_lines(&msgs),
        vec![
            ChatLine::Header { role: Role::System, title: "system".to_string() },
            ChatLine::Body { role: Role::System, text: "a".to_string() },
            ChatLine::Body { role: Role::System, text: "b".to_string() },
            ChatLine::Blank,
            ChatLine::Header { role: Role::Tool, title: "tool:ls".to_string() },
            ChatLine::Body { role: Role::Tool, text: "".to_string() },
            ChatLine::Blank,
        ]
    );
    assert_eq!(split_lines("x\n"), vec!["x".to_string(), "".to_string()]);
}

#[test]
fn chat_scroll_follows() {
    let mut app = AppState::new(vec![], vec![]);
    app.selected_menu = 1;
    assert_eq!(app.follow_chat_scroll(30, 10), 20);
    assert_eq!(app.scroll_offset(), 20);
    app.following_chat = false;
    app.set_scroll_offset(5);
    assert_eq!(app.follow_chat_scroll(30, 10), 5);
    app.set_scroll_offset(50);
    assert_eq!(app.follow_chat_scroll(30, 10), 20);
    app.set_scroll_offset(9);
    assert_eq!(app.follow_chat_scroll(4, 10), 3);
    assert_eq!(app.follow_chat_scroll(0, 10), 0);
}

#[test]
fn log_scroll_and_cursor() {
    let mut app = AppState::new(vec![], vec![]);
    app.logs_scroll_offset = 40;
    app.clamp_logs_scroll(30, 10);
    assert_eq!(app.logs_scroll_offset, 20);
    app.logs_scroll_offset = 3;
    app.clamp_logs_scroll(30, 10);
    assert_eq!(app.logs_scroll_offset, 3);
    app.clamp_logs_scroll(5, 10);
    assert_eq!(app.logs_scroll_offset, 0);
    app.content_cursor = 12;
    app.clamp_content_cursor(10);
    assert_eq!(app.content_cursor, 9);
    app.clamp_content_cursor(0);
    assert_eq!(app.content_cursor, 0);
}

#[test]
fn page_rows() {
    let dt = DeployTargetState { target: DeploymentTarget::Database(Database::MongoDB), selected: true };
    assert_eq!(deploy_row_text(&dt, true), " > [x] MongoDB");
    assert_eq!(deploy_row_text(&dt, false), "   [x] MongoDB");
    let p = Profile { name: "n".into(), host: "h".into(), port: 22, username: "u".into(), key_path: "k".into() };
    assert_eq!(profile_row_text(&p, false, true), "   \u{25cf} u@h:22");
    assert_eq!(profile_row_text(&p, true, false), " > \u{25cb} u@h:22");
    assert_eq!(status_text(ConnectionState::Connecting), "\u{25d0} Connecting...");
    let mut app = AppState::new(vec![p.clone()], vec![]);
    assert!(!app.is_connected_profile(0));
    app.selected_profile = Some(0);
    app.connection_state = ConnectionState::Connected;
    assert!(app.is_connected_profile(0));
    assert!(!app.is_connected_profile(1));
}

#[test]
fn form_rows() {
    assert_eq!(field_label_text(0), "       Name:");
    assert_eq!(field_label_text(4), "   Key Path:");
    assert_eq!(field_display(1, ""), "required");
    assert_eq!(field_display(2, ""), "22");
    assert_eq!(field_display(4, ""), "~/.ssh/id_rsa");
    assert_eq!(field_display(0, ""), "");
    assert_eq!(field_display(1, "h"), "h");
    assert_eq!(field_value_text(3, "root"), " [root]");
}

#[test]
fn sidebar_and_input() {
    let (top, mid, bottom) = button_lines(0, 19, true);
    assert_eq!(top, format!(" ╭─{}─╮ ", "─".repeat(15)));
    assert_eq!(mid, format!(" {}▶DEPLOY{} ", " ".repeat(6), " ".repeat(6)));
    assert_eq!(bottom, format!(" ╰{}╯ ", "─".repeat(17)));
    let (_, mid, _) = button_lines(1, 3, false);
    assert_eq!(mid, "  SETUP AGENT ");
    assert_eq!(sidebar_status_text(ConnectionState::Failed), "  \u{2717} SSH");
    assert_eq!(repeat_str("ab", 3), "ababab");
    assert!(input_cursor_visible(Focus::Input));
    assert!(!input_cursor_visible(Focus::Logs));
    assert_eq!(input_display(""), " type a message or /help...");
    assert_eq!(input_display("/he"), "/he");
}
