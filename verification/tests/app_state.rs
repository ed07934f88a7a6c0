use deploykit::app::{
    menu_item, sidebar_hit_test, AppState, ConnectionState, DeployTargetState, Effect, Focus,
    Message, ProfileForm, Sender, MENU_LEN,
};
use deploykit::profile::{Database, DeploymentTarget, Profile};
use deploykit::ssh::SshEvent;

fn profile(name: &str, host: &str, port: u16) -> Profile {
    Profile {
        name: name.to_string(),
        host: host.to_string(),
        port,
        username: "ubuntu".to_string(),
        key_path: "/k".to_string(),
    }
}

fn sys(s: &str) -> Message {
    Message { sender: Sender::System, content: s.to_string() }
}

fn asst(s: &str) -> Message {
    Message { sender: Sender::Assistant, content: s.to_string() }
}

fn last(app: &AppState) -> &Message {
    app.messages().last().unwrap()
}

fn submit(app: &mut AppState, text: &str) -> Effect {
    app.input = text.to_string();
    app.submit_input(Some("/home/ann"))
}

const TARGET_LIST: &str = "Available targets:\n  [x] System Hardening\n  [ ] Postgres\n  [ ] Redis\n  [ ] MongoDB\n  [ ] Caddy\n  [ ] Nginx\n  [ ] Hermes Agent\n  [ ] OpenClaw Agent\n  [ ] Docker Compose\n  [ ] Binary Deployment\n\nCommands:\n  /targets       - show this list\n  /select <name> - toggle a target by name\n  /deploy        - run all selected targets";

#[test]
fn new_state_is_the_welcome_screen() {
    let app = AppState::new(vec![], vec![]);
    assert_eq!(app.pages.len(), MENU_LEN);
    assert!(app.pages[0].is_empty());
    assert_eq!(
        app.pages[1],
        vec![
            sys("You are in the SETUP AGENT view.\n\nConfigure and set up a new AI agent."),
            asst("Welcome to SETUP AGENT.\n\nType a message or use /help for available commands."),
        ]
    );
    assert_eq!(app.pages[2][0].content, "You are in the CONNECT VPS view.\n\nManage SSH connections.\nSelect a profile and press Enter to connect.");
    assert_eq!(app.scroll_offsets, vec![0; 6]);
    assert_eq!(app.focus, Focus::Input);
    assert!(app.following_chat);
    assert_eq!(app.connection_state, ConnectionState::Disconnected);
    assert_eq!(app.deploy_targets.len(), 10);
    assert!(app.deploy_targets[0].selected);
    assert!(app.deploy_targets[1..].iter().all(|d| !d.selected));
    assert!(!app.profile_form.active);
    assert_eq!(menu_item(2), "CONNECT VPS");
}

#[test]
fn sidebar_rows_map_to_buttons() {
    assert_eq!(sidebar_hit_test(0), None);
    assert_eq!(sidebar_hit_test(1), None);
    assert_eq!(sidebar_hit_test(2), Some(0));
    assert_eq!(sidebar_hit_test(5), Some(0));
    assert_eq!(sidebar_hit_test(6), Some(1));
    assert_eq!(sidebar_hit_test(25), Some(5));
    assert_eq!(sidebar_hit_test(26), None);
    assert_eq!(sidebar_hit_test(u16::MAX), None);
}

#[test]
fn profile_form_fields() {
    let mut f = ProfileForm::open(Some("/home/ann"));
    assert!(f.active);
    assert_eq!(f.port, "22");
    assert_eq!(f.username, "root");
    assert_eq!(f.key_path, "/home/ann/.ssh/id_rsa");
    assert_eq!(ProfileForm::open(None).key_path, "");
    assert_eq!(f.field_count(), 6);
    *f.field_mut(1).unwrap() = "example.org".to_string();
    assert_eq!(f.host, "example.org");
    assert!(f.field_mut(5).is_none());
    assert_eq!(ProfileForm::field_label(4), "Key Path");
    assert_eq!(ProfileForm::field_label(9), "");
}

#[test]
fn refresh_deploy_page_lists_targets() {
    let mut app = AppState::new(vec![], vec![]);
    app.refresh_deploy_page();
    assert_eq!(
        app.pages[0],
        vec![
            sys("Select deployment targets, then run /deploy to execute."),
            asst(TARGET_LIST),
            sys("Not connected to any VPS. Use CONNECT VPS first."),
        ]
    );
    app.connection_state = ConnectionState::Connected;
    app.refresh_deploy_page();
    assert_eq!(app.pages[0].len(), 2);
    app.deploy_running = true;
    app.refresh_deploy_page();
    assert_eq!(app.pages[0][2], sys("Deployment in progress... Check the logs panel for output."));
}

#[test]
fn toggle_target_ignores_case() {
    let mut app = AppState::new(vec![], vec![]);
    app.toggle_target("POSTGRES");
    assert!(app.deploy_targets[1].selected);
    assert_eq!(last(&app), &sys("Toggled Postgres on"));
    app.toggle_target("gres");
    assert!(!app.deploy_targets[1].selected);
    assert_eq!(last(&app), &sys("Toggled Postgres off"));
    app.toggle_target("agent");
    assert!(app.deploy_targets[6].selected);
    app.toggle_target("xyz");
    assert_eq!(last(&app), &sys("No target matching 'xyz'. Use /targets to list available targets."));
}

#[test]
fn select_without_name_toggles_the_first_target() {
    let mut app = AppState::new(vec![], vec![]);
    app.selected_menu = 3;
    assert_eq!(submit(&mut app, "/select"), Effect::Nothing);
    assert_eq!(app.selected_menu, 0);
    assert!(!app.deploy_targets[0].selected);
    assert_eq!(last(&app), &sys("Toggled System Hardening off"));
}

#[test]
fn deploy_refusals() {
    let mut app = AppState::new(vec![profile("a", "h", 22)], vec![]);
    assert_eq!(app.start_deployment(), Effect::Nothing);
    assert_eq!(last(&app), &sys("Not connected. Use /connect <n> first."));
    app.connection_state = ConnectionState::Connected;
    assert_eq!(app.start_deployment(), Effect::Nothing);
    assert_eq!(last(&app), &sys("No profile selected. Use /connect <n> first."));
    app.selected_profile = Some(4);
    assert_eq!(app.start_deployment(), Effect::Nothing);
    assert_eq!(last(&app), &sys("No profile selected. Use /connect <n> first."));
    app.selected_profile = Some(0);
    app.deploy_targets[0].selected = false;
    assert_eq!(app.start_deployment(), Effect::Nothing);
    assert_eq!(last(&app), &sys("No targets selected. Use /select <name> to toggle targets."));
    app.deploy_running = true;
    assert_eq!(app.start_deployment(), Effect::Nothing);
    assert_eq!(last(&app), &sys("Deployment already in progress."));
}

#[test]
fn deploy_starts_with_the_selected_targets() {
    let mut app = AppState::new(vec![profile("a", "h", 22)], vec![]);
    app.connection_state = ConnectionState::Connected;
    app.selected_profile = Some(0);
    app.selected_menu = 2;
    app.deploy_targets[2] = DeployTargetState {
        target: DeploymentTarget::Database(Database::Redis),
        selected: true,
    };
    let e = app.start_deployment();
    assert_eq!(
        e,
        Effect::Deploy {
            profile: profile("a", "h", 22),
            targets: vec![DeploymentTarget::Hardening, DeploymentTarget::Database(Database::Redis)],
        }
    );
    assert!(app.deploy_running);
    assert_eq!(app.selected_menu, 0);
    assert_eq!(app.focus, Focus::Logs);
    assert_eq!(app.pages[0][2], sys("Deployment in progress... Check the logs panel for output."));
    assert_eq!(last(&app), &sys("Starting deployment: System Hardening, Redis"));
    assert_eq!(
        app.logs,
        vec!["=== DEPLOYMENT STARTED ===".to_string(), ">>> System Hardening".to_string(), ">>> Redis".to_string()]
    );
}

#[test]
fn ssh_events_update_the_state() {
    let mut app = AppState::new(vec![], vec![]);
    app.selected_menu = 3;
    app.drain_ssh_events(vec![
        SshEvent::Connected,
        SshEvent::Line("hello".to_string()),
        SshEvent::Done(-2),
    ]);
    assert_eq!(app.connection_state, ConnectionState::Connected);
    assert_eq!(app.logs, vec!["SSH connected".to_string(), "hello".to_string(), "[exit code: -2]".to_string()]);
    let page = &app.pages[3];
    assert_eq!(page[page.len() - 3], sys("Connected to VPS."));
    assert_eq!(page[page.len() - 2], asst("Connection established. You can now run commands.\nType a command or select a target from DEPLOY."));
    assert_eq!(page[page.len() - 1], sys("Command finished with exit code -2"));
    app.apply_ssh_event(SshEvent::Error("boom".to_string()));
    assert_eq!(app.connection_state, ConnectionState::Failed);
    assert_eq!(app.logs.last().unwrap(), "ERROR: boom");
    assert_eq!(last(&app), &sys("SSH error: boom"));
}

#[test]
fn finished_deployment_rewrites_the_deploy_page() {
    let mut app = AppState::new(vec![], vec![]);
    app.connection_state = ConnectionState::Connected;
    app.deploy_running = true;
    app.selected_menu = 4;
    let before = app.pages[4].clone();
    app.apply_ssh_event(SshEvent::Done(0));
    assert!(!app.deploy_running);
    assert_eq!(app.pages[4], before);
    assert_eq!(app.pages[0], vec![sys("Select deployment targets, then run /deploy to execute."), asst(TARGET_LIST)]);
    assert_eq!(app.logs, vec!["[exit code: 0]".to_string()]);
}

#[test]
fn blank_input_is_ignored() {
    let mut app = AppState::new(vec![], vec![]);
    app.input = "   ".to_string();
    let before = app.pages.clone();
    assert_eq!(app.submit_input(None), Effect::Nothing);
    assert_eq!(app.input, "   ");
    assert_eq!(app.pages, before);
}

#[test]
fn plain_text_is_posted_and_cleared() {
    let mut app = AppState::new(vec![], vec![]);
    app.selected_menu = 1;
    assert_eq!(submit(&mut app, "  hello there "), Effect::Nothing);
    assert_eq!(app.input, "");
    assert_eq!(last(&app), &Message { sender: Sender::User, content: "hello there".to_string() });
}

#[test]
fn help_and_unknown_commands() {
    let mut app = AppState::new(vec![], vec![]);
    app.selected_menu = 1;
    submit(&mut app, "/help");
    assert!(last(&app).content.starts_with("Available commands:\n  /help          - show this message\n"));
    assert!(last(&app).content.ends_with("  /clear         - clear log panel"));
    submit(&mut app, "/frobnicate now");
    assert_eq!(last(&app), &asst("Unknown command: /frobnicate. Type /help for available commands."));
    submit(&mut app, "/");
    assert_eq!(last(&app), &asst("Unknown command: /. Type /help for available commands."));
    submit(&mut app, "/run ls");
    assert!(last(&app).content.starts_with("Use a deployment target instead"));
}

#[test]
fn connect_command() {
    let mut app = AppState::new(vec![profile("a", "example.org", 2222)], vec![]);
    submit(&mut app, "/connect");
    assert_eq!(last(&app), &sys("Usage: /connect <profile_index>"));
    submit(&mut app, "/connect x");
    assert_eq!(last(&app), &sys("Usage: /connect <profile_index>"));
    submit(&mut app, "/connect 7");
    assert_eq!(last(&app), &sys("Profile 7 not found. Use /profiles to list them."));
    let e = submit(&mut app, "/connect 0");
    assert_eq!(e, Effect::Connect(profile("a", "example.org", 2222)));
    assert_eq!(app.selected_menu, 2);
    assert_eq!(app.selected_profile, Some(0));
    assert_eq!(app.connection_state, ConnectionState::Connecting);
    assert_eq!(app.logs.last().unwrap(), "Connecting to ubuntu@example.org...");
    assert_eq!(last(&app), &sys("Connecting to ubuntu@example.org:2222..."));
}

#[test]
fn connect_to_out_of_range_does_nothing() {
    let mut app = AppState::new(vec![], vec![]);
    assert_eq!(app.connect_to(0), Effect::Nothing);
    assert_eq!(app.selected_profile, None);
    assert!(app.logs.is_empty());
}

#[test]
fn disconnect_profiles_clear_targets() {
    let mut app = AppState::new(vec![profile("a", "h1", 22), profile("b", "h2", 2200)], vec![]);
    app.connection_state = ConnectionState::Connected;
    assert_eq!(submit(&mut app, "/disconnect"), Effect::CloseConnection);
    assert_eq!(app.connection_state, ConnectionState::Disconnected);
    assert_eq!(app.logs, vec!["Disconnected.".to_string()]);
    assert_eq!(last(&app), &sys("SSH connection closed."));
    submit(&mut app, "/profiles");
    assert_eq!(last(&app), &asst("Saved profiles:\n  0. ubuntu@h1:22\n  1. ubuntu@h2:2200\n"));
    assert_eq!(submit(&mut app, "/clear"), Effect::Nothing);
    assert!(app.logs.is_empty());
    app.selected_menu = 3;
    submit(&mut app, "/targets");
    assert_eq!(app.selected_menu, 0);
    assert_eq!(app.pages[0][1], asst(TARGET_LIST));
    let mut empty = AppState::new(vec![], vec![]);
    submit(&mut empty, "/profiles");
    assert_eq!(last(&empty), &asst("No profiles saved. Use /add-profile to create one."));
}

#[test]
fn add_and_save_profile_commands() {
    let mut app = AppState::new(vec![], vec![]);
    assert_eq!(submit(&mut app, "/add-profile"), Effect::Nothing);
    assert!(app.profile_form.active);
    assert_eq!(app.selected_menu, 2);
    assert_eq!(app.focus, Focus::Content);
    assert_eq!(app.profile_form.key_path, "/home/ann/.ssh/id_rsa");
    assert_eq!(submit(&mut app, "/save-profile"), Effect::SaveProfiles);
    assert_eq!(app.profiles, vec![Profile::blank("/home/ann")]);
    assert_eq!(last(&app), &sys("Blank profile saved (fill in details manually in ~/.config/deploykit/profiles.toml)"));
    app.input = "/save-profile".to_string();
    app.submit_input(None);
    assert_eq!(app.profiles[1].key_path, "/.ssh/id_rsa");
}

#[test]
fn save_profile_form() {
    let mut app = AppState::new(vec![], vec![]);
    app.open_profile_form(Some("/root"));
    assert_eq!(app.save_profile_form(), Effect::Nothing);
    assert!(app.profiles.is_empty());
    assert!(app.profile_form.active);
    app.profile_form.host = "10.0.0.1".to_string();
    app.profile_form.port = "abc".to_string();
    assert_eq!(app.save_profile_form(), Effect::SaveProfiles);
    assert_eq!(
        app.profiles,
        vec![Profile {
            name: "root@10.0.0.1".to_string(),
            host: "10.0.0.1".to_string(),
            port: 22,
            username: "root".to_string(),
            key_path: "/root/.ssh/id_rsa".to_string(),
        }]
    );
    assert!(!app.profile_form.active);
    assert_eq!(app.profile_form.host, "");
    assert_eq!(app.profile_form.username, "");
    assert_eq!(app.profile_form.port, "abc");
    assert_eq!(app.content_cursor, 0);
    app.open_profile_form(None);
    app.profile_form.name = "box".to_string();
    app.profile_form.host = "h".to_string();
    app.profile_form.port = "2022".to_string();
    app.save_profile_form();
    assert_eq!(app.profiles[1].name, "box");
    assert_eq!(app.profiles[1].port, 2022);
    assert_eq!(app.content_cursor, 1);
}

#[test]
fn accessors() {
    let mut app = AppState::new(vec![], vec![]);
    app.selected_menu = 4;
    app.set_scroll_offset(7);
    assert_eq!(app.scroll_offset(), 7);
    assert_eq!(app.scroll_offsets[4], 7);
    app.add_message(sys("x"));
    assert_eq!(app.messages().last().unwrap(), &sys("x"));
    app.messages_mut().clear();
    assert!(app.pages[4].is_empty());
    app.add_log("l".to_string());
    assert_eq!(app.logs, vec!["l".to_string()]);
    app.set_page_messages(9, vec![sys("y")]);
    app.set_page_messages(5, vec![sys("y")]);
    assert_eq!(app.pages[5], vec![sys("y")]);
    assert_eq!(app.pages.len(), 6);
}
