use deploykit::app::{AppState, ConnectionState, Effect};
use deploykit::deploy::{DeployRun, DeployStep};
use deploykit::profile::{DeploymentTarget, Profile};
use deploykit::ssh::SshEvent;
use deploykit::text::{decimal_string, parse_unsigned};

fn state() -> AppState {
    let p = Profile { name: "n".into(), host: "h".into(), port: 22, username: "u".into(), key_path: "k".into() };
    AppState::new(vec![p.clone(), p.clone(), p], vec![])
}

fn events() -> Vec<SshEvent> {
    vec![
        SshEvent::Connected,
        SshEvent::Line("a".into()),
        SshEvent::Error("e".into()),
        SshEvent::Done(1),
        SshEvent::Line("b".into()),
    ]
}

#[test]
fn drain_in_one_batch_or_two_is_the_same() {
    let mut one = state();
    one.drain_ssh_events(events());
    let mut two = state();
    let evs = events();
    two.drain_ssh_events(evs[..2].to_vec());
    two.drain_ssh_events(evs[2..].to_vec());
    assert_eq!(one.pages, two.pages);
    assert_eq!(one.logs, two.logs);
    assert_eq!(one.connection_state, two.connection_state);
}

#[test]
fn refresh_twice_is_refresh_once() {
    let mut app = state();
    app.refresh_deploy_page();
    let once = app.pages.clone();
    app.refresh_deploy_page();
    assert_eq!(app.pages, once);
}

#[test]
fn toggle_twice_restores_selection() {
    for name in ["redis", "AGENT", "", "nothing-here"] {
        let mut app = state();
        let before = app.deploy_targets.clone();
        app.toggle_target(name);
        app.toggle_target(name);
        assert_eq!(app.deploy_targets, before, "{name}");
    }
}

#[test]
fn decimal_reads_back() {
    for n in [0u64, 9, 10, 65535, 4096, 123456789] {
        assert_eq!(parse_unsigned(&decimal_string(n), u64::MAX), Some(n));
    }
}

#[test]
fn connect_by_listed_number() {
    let mut app = state();
    app.input = "/profiles".into();
    app.submit_input(None);
    let listing = app.messages().last().unwrap().content.clone();
    assert!(listing.contains("  2. u@h:22"));
    app.input = "/connect 2".into();
    let e = app.submit_input(None);
    assert!(matches!(e, Effect::Connect(_)));
    assert_eq!(app.selected_profile, Some(2));
    app.apply_ssh_event(SshEvent::Connected);
    assert_eq!(app.connection_state, ConnectionState::Connected);
    assert_eq!(app.selected_profile, Some(2));
}

#[test]
fn a_run_with_exit_codes_deploys_everything() {
    let targets = vec![DeploymentTarget::Hardening, DeploymentTarget::DockerCompose, DeploymentTarget::Binary];
    let mut run = DeployRun::new(targets.clone());
    let mut step = run.first_step();
    let mut ran = Vec::new();
    let mut code = 0;
    loop {
        match step {
            DeployStep::Run { target, .. } => {
                ran.push(target);
                code += 1;
                step = run.next_step(Ok(code));
            }
            DeployStep::Finish { events } => {
                assert_eq!(events[events.len() - 2], SshEvent::Done(0));
                break;
            }
        }
    }
    assert_eq!(ran, targets);
    assert!(run.is_finished());
}

#[test]
fn state_stays_well_formed() {
    let mut app = state();
    for line in ["/help", "/select agent", "/deploy", "/connect 1", "/targets", "/add-profile", "/clear", "hi", "/", "  "] {
        app.input = line.into();
        app.submit_input(Some("/h"));
        assert_eq!(app.pages.len(), 6);
        assert_eq!(app.scroll_offsets.len(), 6);
        assert!(app.selected_menu < 6);
    }
    app.drain_ssh_events(events());
    assert_eq!(app.pages.len(), 6);
    assert!(app.selected_menu < 6);
}
