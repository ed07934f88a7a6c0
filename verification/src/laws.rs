use vstd::prelude::*;
use crate::app::{
    apply_ssh_event_spec, apply_ssh_events_spec, command_spec, connect_to_spec, deploy_page,
    first_match, is_first_match, label_matches, msg, selected_targets, start_deployment_spec,
    submit_input_spec, toggle_target_spec, AppView, ConnectionState, DeployTargetState,
    EffectView, Focus, SenderView,
};
use crate::deploy::{closing_events, failed_line, next_step_spec, DeployRunView, DeployStepView, OutcomeView};
use crate::profile::DeploymentTarget;
use crate::event::{handle_event_spec, InputEvent, Key};
use crate::ssh::SshEventView;
use crate::text::{
    all_digits, contains_spec, decimal, digit_char, digits_value, is_digit, is_white_space, parse_unsigned_spec, split_scan,
    trim_spec, unsigned_digits, words_spec,
};

verus! {

// ---------------------------------------------------------------------------
// SSH events
// ---------------------------------------------------------------------------

/// Applying two batches of SSH events one after the other is the same as
/// applying them as one batch: it does not matter how the events are split
/// across calls of `drain_ssh_events`.
pub proof fn law_drain_events_compose(s: AppView, a: Seq<SshEventView>, b: Seq<SshEventView>)
    ensures
        apply_ssh_events_spec(s, a + b) == apply_ssh_events_spec(apply_ssh_events_spec(s, a), b),
    decreases b.len(),
{
    if b.len() == 0 {
        assert(a + b =~= a);
    } else {
        law_drain_events_compose(s, a, b.drop_last());
        assert((a + b).drop_last() =~= a + b.drop_last());
        assert((a + b).last() == b.last());
    }
}

/// Every event from an SSH worker keeps the state well formed: one page and
/// one scroll position per menu entry, and a menu entry selected.
pub proof fn law_events_keep_wf(s: AppView, evs: Seq<SshEventView>)
    requires
        s.wf(),
    ensures
        apply_ssh_events_spec(s, evs).wf(),
    decreases evs.len(),
{
    if evs.len() > 0 {
        law_events_keep_wf(s, evs.drop_last());
    }
}

/// Submitting input keeps the state well formed, whatever was typed.
pub proof fn law_submit_keeps_wf(s: AppView, home: Option<Seq<char>>)
    requires
        s.wf(),
    ensures
        submit_input_spec(s, home).0.wf(),
{
    let text = trim_spec(s.input);
    if text.len() > 0 {
        let s1 = AppView { input: Seq::empty(), ..s }.add_message(msg(SenderView::User, text));
        let cmd = text.drop_first();
        let parts = words_spec(cmd);
        let name = if parts.len() > 1 {
            parts[1]
        } else {
            Seq::empty()
        };
        let s2 = AppView { selected_menu: 0, ..s1 };
        let found = first_match(s2.deploy_targets, name);
        if let Some(i) = found {
            let k = choose|k: int| is_first_match(s2.deploy_targets, name, k);
            assert(is_first_match(s2.deploy_targets, name, k));
        }
    }
}

// ---------------------------------------------------------------------------
// The deploy page
// ---------------------------------------------------------------------------

/// Rewriting the deploy page twice gives what rewriting it once gives.
pub proof fn law_refresh_idempotent(s: AppView)
    requires
        s.wf(),
    ensures
        s.refresh_deploy_page().refresh_deploy_page() == s.refresh_deploy_page(),
{
    let r = s.refresh_deploy_page();
    assert(deploy_page(r) == deploy_page(s));
    assert(r.refresh_deploy_page() =~= r);
}

proof fn lemma_first_match_same_targets(
    ts: Seq<DeployTargetState>,
    us: Seq<DeployTargetState>,
    name: Seq<char>,
)
    requires
        ts.len() == us.len(),
        forall|i: int| 0 <= i < ts.len() ==> #[trigger] ts[i].target == us[i].target,
    ensures
        first_match(ts, name) == first_match(us, name),
{
    assert forall|i: int| is_first_match(ts, name, i) <==> is_first_match(us, name, i) by {
        if is_first_match(ts, name, i) {
            assert forall|j: int| 0 <= j < i implies !label_matches(#[trigger] us[j].target, name) by {
                assert(ts[j].target == us[j].target);
            }
        }
        if is_first_match(us, name, i) {
            assert forall|j: int| 0 <= j < i implies !label_matches(#[trigger] ts[j].target, name) by {
                assert(ts[j].target == us[j].target);
            }
        }
    }
    if exists|i: int| is_first_match(ts, name, i) {
        let k = choose|i: int| is_first_match(ts, name, i);
        assert(is_first_match(us, name, k));
    }
}

/// Toggling targets by the same name twice leaves the target list, and so
/// every selection, as it was.
pub proof fn law_toggle_twice_restores(s: AppView, name: Seq<char>)
    requires
        s.wf(),
    ensures
        toggle_target_spec(toggle_target_spec(s, name), name).deploy_targets == s.deploy_targets,
{
    let ts = s.deploy_targets;
    let s1 = toggle_target_spec(s, name);
    match first_match(ts, name) {
        Some(i) => {
            let k = choose|k: int| is_first_match(ts, name, k);
            assert(is_first_match(ts, name, k));
            lemma_first_match_same_targets(ts, s1.deploy_targets, name);
            let s2 = toggle_target_spec(s1, name);
            assert(s2.deploy_targets =~= ts);
        },
        None => {
            assert(s1.deploy_targets == ts);
            lemma_first_match_same_targets(ts, s1.deploy_targets, name);
        },
    }
}

// ---------------------------------------------------------------------------
// Numbers
// ---------------------------------------------------------------------------

proof fn lemma_digit_char(d: nat)
    requires
        d < 10,
    ensures
        digit_char(d) as nat == d + 48,
        is_digit(digit_char(d)),
{
    assert((d + 48) as char as nat == d + 48);
}

proof fn lemma_decimal_digits(n: nat)
    ensures
        decimal(n).len() > 0,
        all_digits(decimal(n)),
        digits_value(decimal(n)) == n,
    decreases n,
{
    lemma_digit_char(n % 10);
    if n < 10 {
        assert(decimal(n).drop_last() =~= Seq::<char>::empty());
        assert(decimal(n).last() == digit_char(n));
        assert(digits_value(decimal(n).drop_last()) == 0);
        assert(digits_value(decimal(n)) == digits_value(decimal(n).drop_last()) * 10 + ((
        decimal(n).last() as nat) - 48) as nat);
    } else {
        lemma_decimal_digits(n / 10);
        let d = decimal(n);
        assert(d.drop_last() == decimal(n / 10));
        assert(d.last() == digit_char(n % 10));
        assert(digits_value(d) == (n / 10) * 10 + n % 10);
        assert((n / 10) * 10 + n % 10 == n) by (nonlinear_arith);
        assert forall|i: int| 0 <= i < d.len() implies is_digit(#[trigger] d[i]) by {
            if i < d.len() - 1 {
                assert(d[i] == decimal(n / 10)[i]);
            }
        }
    }
}

/// A number written in decimal reads back as itself, for every number that
/// fits the type being parsed.
pub proof fn law_parse_decimal_roundtrip(n: nat, max: nat)
    requires
        n <= max,
    ensures
        parse_unsigned_spec(decimal(n), max) == Some(n),
{
    lemma_decimal_digits(n);
    let d = decimal(n);
    assert(is_digit(d[0]));
    assert(unsigned_digits(d) == d);
}

// ---------------------------------------------------------------------------
// Commands
// ---------------------------------------------------------------------------

proof fn lemma_scan_no_space(s: Seq<char>, t: Seq<char>)
    requires
        forall|i: int| 0 <= i < t.len() ==> !is_white_space(#[trigger] t[i]),
    ensures
        split_scan(s + t) == (split_scan(s).0, split_scan(s).1 + t),
    decreases t.len(),
{
    if t.len() == 0 {
        assert(s + t =~= s);
        assert(split_scan(s).1 + t =~= split_scan(s).1);
    } else {
        let u = t.drop_last();
        lemma_scan_no_space(s, u);
        assert((s + t).drop_last() =~= s + u);
        assert((s + t).last() == t.last());
        assert(!is_white_space(t[t.len() - 1]));
        assert(split_scan(s).1 + u + seq![t.last()] =~= split_scan(s).1 + t);
    }
}

/// `/connect` followed by the number that `/profiles` shows for a profile
/// connects to that profile.
pub proof fn law_connect_listed_index(s: AppView, i: usize, home: Option<Seq<char>>)
    requires
        s.wf(),
        i < s.profiles.len(),
    ensures
        command_spec(s, "connect "@ + decimal(i as nat), home) == connect_to_spec(s, i),
{
    reveal_strlit("connect ");
    reveal_strlit("connect");
    reveal_strlit("help");
    let d = decimal(i as nat);
    lemma_decimal_digits(i as nat);
    let w = "connect"@;
    let cmd = "connect "@ + d;
    assert forall|k: int| 0 <= k < w.len() implies !is_white_space(#[trigger] w[k]) by {}
    assert forall|k: int| 0 <= k < d.len() implies !is_white_space(#[trigger] d[k]) by {
        assert(is_digit(d[k]));
    }
    lemma_scan_no_space(Seq::empty(), w);
    assert(Seq::<char>::empty() + w =~= w);
    assert(split_scan(Seq::<char>::empty()) == (Seq::<Seq<char>>::empty(), Seq::<char>::empty()));
    let ws = w.push(' ');
    assert(ws.drop_last() =~= w);
    assert(split_scan(ws) == (seq![w], Seq::<char>::empty()));
    lemma_scan_no_space(ws, d);
    assert(cmd =~= ws + d);
    assert(Seq::<char>::empty() + d =~= d);
    assert(words_spec(cmd) =~= seq![w, d]);
    law_parse_decimal_roundtrip(i as nat, usize::MAX as nat);
    assert(w != "help"@);
}

/// Once a session reports that it is established, the connection is up:
/// after `/connect i` and the session's `Connected` event, the state is
/// Connected with profile `i` selected.
pub proof fn law_connected_after_connect(s: AppView, i: usize)
    requires
        s.wf(),
        i < s.profiles.len(),
    ensures
        ({
            let t = apply_ssh_event_spec(connect_to_spec(s, i).0, SshEventView::Connected);
            &&& t.connection_state == ConnectionState::Connected
            &&& t.selected_profile == Some(i)
        }),
{
}

// ---------------------------------------------------------------------------
// Deployment runs
// ---------------------------------------------------------------------------

/// The run state after the scripts ended with `outcomes`, in order.
pub open spec fn run_after(r: DeployRunView, outcomes: Seq<OutcomeView>) -> DeployRunView
    decreases outcomes.len(),
{
    if outcomes.len() == 0 {
        r
    } else {
        let p = run_after(r, outcomes.drop_last());
        if p.finished || p.next >= p.targets.len() {
            p
        } else {
            next_step_spec(p, outcomes.last()).0
        }
    }
}

/// A run whose scripts all exit, whatever their codes, deploys every target
/// in order and is over once the last one is done.
pub proof fn law_run_completes(targets: Seq<DeploymentTarget>, outcomes: Seq<OutcomeView>)
    requires
        outcomes.len() == targets.len(),
        forall|k: int| 0 <= k < outcomes.len() ==> (#[trigger] outcomes[k]) is Exited,
    ensures
        ({
            let start = DeployRunView { targets, next: 0, finished: targets.len() == 0 };
            let end = run_after(start, outcomes);
            end.finished && end.next == targets.len()
        }),
{
    let start = DeployRunView { targets, next: 0, finished: targets.len() == 0 };
    lemma_run_progress(start, outcomes, outcomes.len());
    assert(outcomes.take(outcomes.len() as int) =~= outcomes);
}

proof fn lemma_run_progress(start: DeployRunView, outcomes: Seq<OutcomeView>, k: nat)
    requires
        k <= outcomes.len() == start.targets.len(),
        start.next == 0,
        start.finished == (start.targets.len() == 0),
        forall|j: int| 0 <= j < outcomes.len() ==> (#[trigger] outcomes[j]) is Exited,
    ensures
        run_after(start, outcomes.take(k as int)).next == k,
        run_after(start, outcomes.take(k as int)).targets == start.targets,
        run_after(start, outcomes.take(k as int)).finished == (k == start.targets.len()),
    decreases k,
{
    if k == 0 {
        assert(outcomes.take(0) =~= Seq::<OutcomeView>::empty());
    } else {
        lemma_run_progress(start, outcomes, (k - 1) as nat);
        assert(outcomes.take(k as int).drop_last() =~= outcomes.take(k - 1));
        assert(outcomes.take(k as int).last() == outcomes[k - 1]);
    }
}

/// A script that cannot run ends the deployment: the run is over and its
/// last report is exit code 0 followed by the closing line, after the
/// failure itself.
pub proof fn law_failure_ends_run(r: DeployRunView, e: Seq<char>)
    requires
        !r.finished,
        r.next < r.targets.len(),
    ensures
        next_step_spec(r, OutcomeView::Failed(e)).0.finished,
        next_step_spec(r, OutcomeView::Failed(e)).1 == (DeployStepView::Finish {
            events: seq![failed_line(r.targets[r.next as int], e)] + closing_events(),
        }),
{
}

// ---------------------------------------------------------------------------
// Connecting, deploying, finishing, moving through the menu
// ---------------------------------------------------------------------------

/// Connecting to a listed profile opens the session to exactly the profile
/// at the index given and selects that profile: the effect carries
/// `profiles[idx]`, the state is Connecting with `selected_profile ==
/// Some(idx)`, the profile list is unchanged, and the log line and the
/// message both name that profile's host. An index past the list changes
/// nothing.
pub proof fn law_connect_opens_the_given_profile(s: AppView, idx: usize)
    requires
        s.wf(),
    ensures
        ({
            let (t, e) = connect_to_spec(s, idx);
            if idx < s.profiles.len() {
                &&& e == EffectView::Connect(s.profiles[idx as int])
                &&& t.selected_profile == Some(idx)
                &&& t.connection_state == ConnectionState::Connecting
                &&& t.profiles == s.profiles
                &&& contains_spec(t.logs.last(), s.profiles[idx as int].host)
                &&& contains_spec(t.current_page().last().content, s.profiles[idx as int].host)
            } else {
                t == s && e == EffectView::Nothing
            }
        }),
{
    if idx < s.profiles.len() {
        reveal_strlit("Connecting to ");
        reveal_strlit("@");
        let p = s.profiles[idx as int];
        let (t, e) = connect_to_spec(s, idx);
        let k: int = 14 + p.username.len() as int + 1;
        let log = "Connecting to "@ + p.username + "@"@ + p.host + "..."@;
        assert(t.logs.last() == log);
        assert(log.subrange(k, k + p.host.len()) =~= p.host);
        let m = "Connecting to "@ + p.username + "@"@ + p.host + ":"@ + decimal(p.port as nat) + "..."@;
        assert(t.current_page().last().content == m);
        assert(m.subrange(k, k + p.host.len()) =~= p.host);
    }
}

/// The selected targets are exactly the targets of the selected entries,
/// in list order: each selected entry's target is among them, and there are
/// as many as there are selected entries.
pub proof fn law_selected_targets_are_the_selection(ts: Seq<DeployTargetState>)
    ensures
        selected_targets(ts) == ts.filter(|d: DeployTargetState| d.selected).map_values(
            |d: DeployTargetState| d.target,
        ),
        selected_targets(ts).len() == ts.filter(|d: DeployTargetState| d.selected).len(),
        forall|i: int|
            0 <= i < ts.len() && (#[trigger] ts[i]).selected ==> selected_targets(ts).contains(
                ts[i].target,
            ),
    decreases ts.len(),
{
    let sel = |d: DeployTargetState| d.selected;
    let tgt = |d: DeployTargetState| d.target;
    if ts.len() == 0 {
        reveal(Seq::filter);
        assert(ts.filter(sel).map_values(tgt) =~= Seq::<DeploymentTarget>::empty());
    } else {
        let front = ts.drop_last();
        law_selected_targets_are_the_selection(front);
        assert(front.push(ts.last()) =~= ts);
        front.lemma_filter_push(ts.last(), sel);
        let f0 = front.filter(sel);
        if ts.last().selected {
            assert(f0.push(ts.last()).map_values(tgt) =~= f0.map_values(tgt).push(ts.last().target));
        }
    }
    let r = selected_targets(ts);
    let f = ts.filter(sel);
    assert forall|i: int| 0 <= i < ts.len() && (#[trigger] ts[i]).selected implies r.contains(ts[i].target) by {
        ts.lemma_filter_contains(sel, i);
        let j = choose|j: int| 0 <= j < f.len() && f[j] == ts[i];
        assert(r[j] == ts[i].target);
    }
}

/// `/deploy` on a connected session with a selected profile and no running
/// deployment deploys on that profile, and every selected target is among
/// the targets deployed, which are as many as the selected entries.
pub proof fn law_deploy_takes_every_selected_target(s: AppView, i: int)
    requires
        s.wf(),
        s.connection_state == ConnectionState::Connected,
        !s.deploy_running,
        s.selected_profile matches Some(p) && p < s.profiles.len(),
        0 <= i < s.deploy_targets.len(),
        s.deploy_targets[i].selected,
    ensures
        ({
            let (t, e) = start_deployment_spec(s);
            &&& e matches EffectView::Deploy { profile, targets } && profile
                == s.profiles[s.selected_profile->0 as int] && targets.contains(
                s.deploy_targets[i].target,
            ) && targets.len() == s.deploy_targets.filter(|d: DeployTargetState| d.selected).len()
            &&& t.deploy_running
        }),
{
    law_selected_targets_are_the_selection(s.deploy_targets);
    assert(selected_targets(s.deploy_targets).contains(s.deploy_targets[i].target));
}

/// A reported exit code always ends a running deployment: after a `Done`
/// event no deployment is running, whatever the connection state, and when
/// one was running the deploy page is rewritten for the new state. No other
/// event starts or ends a deployment.
pub proof fn law_done_ends_deployment(s: AppView, ev: SshEventView)
    requires
        s.wf(),
    ensures
        ev matches SshEventView::Done(_) ==> !apply_ssh_event_spec(s, ev).deploy_running,
        ev matches SshEventView::Done(_) && s.deploy_running ==> apply_ssh_event_spec(s, ev).pages[0]
            == deploy_page(apply_ssh_event_spec(s, ev)),
        !(ev matches SshEventView::Done(_)) ==> apply_ssh_event_spec(s, ev).deploy_running
            == s.deploy_running,
{
}

/// Keys move through the side menu only while the side menu has focus, and
/// then only one entry: Up to the previous one, Down to the next one.
pub proof fn law_menu_moves_only_with_sidebar_focus(s: AppView, key: Key, ctrl: bool, press: bool)
    requires
        s.wf(),
    ensures
        ({
            let t = handle_event_spec(s, InputEvent::Key { key, ctrl, press }).0;
            &&& s.focus != Focus::Sidebar ==> t.selected_menu == s.selected_menu
            &&& t.selected_menu != s.selected_menu ==> press && ((key == Key::Up
                && t.selected_menu + 1 == s.selected_menu) || (key == Key::Down && t.selected_menu
                == s.selected_menu + 1))
        }),
{
}

} // verus!
