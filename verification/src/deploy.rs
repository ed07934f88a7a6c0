use vstd::prelude::*;
use crate::pipeline::{label_spec, Pipeline};
use crate::profile::DeploymentTarget;
use crate::ssh::{SshEvent, SshEventView};
use crate::text::{push_signed_decimal, signed_decimal};

verus! {

/// A deployment run in progress: the targets to deploy, in order, how many
/// of them have finished, and whether the run is over.
pub struct DeployRun {
    targets: Vec<DeploymentTarget>,
    next: usize,
    finished: bool,
}

/// The mathematical value of a [`DeployRun`].
pub struct DeployRunView {
    pub targets: Seq<DeploymentTarget>,
    pub next: nat,
    pub finished: bool,
}

impl View for DeployRun {
    type V = DeployRunView;

    closed spec fn view(&self) -> DeployRunView {
        DeployRunView { targets: self.targets@, next: self.next as nat, finished: self.finished }
    }
}

/// What the worker running a deployment is to do next.
#[derive(Debug, Clone, PartialEq, Eq)]
pub enum DeployStep {
    /// Report `events`, then run the script of `target` and hand its outcome
    /// to [`DeployRun::next_step`].
    Run { events: Vec<SshEvent>, target: DeploymentTarget },
    /// Report `events`; the run is over.
    Finish { events: Vec<SshEvent> },
}

/// The mathematical value of a [`DeployStep`].
pub enum DeployStepView {
    Run { events: Seq<SshEventView>, target: DeploymentTarget },
    Finish { events: Seq<SshEventView> },
}

impl View for DeployStep {
    type V = DeployStepView;

    open spec fn view(&self) -> DeployStepView {
        match self {
            DeployStep::Run { events, target } => DeployStepView::Run {
                events: events.deep_view(),
                target: *target,
            },
            DeployStep::Finish { events } => DeployStepView::Finish { events: events.deep_view() },
        }
    }
}

/// The line announcing the script of a target: a blank line, then `>>> Label`.
pub open spec fn start_line(t: DeploymentTarget) -> SshEventView {
    SshEventView::Line("\n>>> "@ + label_spec(t))
}

/// The line reporting that a target's script exited with `code`.
pub open spec fn done_line(t: DeploymentTarget, code: i32) -> SshEventView {
    SshEventView::Line("[ "@ + label_spec(t) + " done, exit: "@ + signed_decimal(code as int) + " ]"@)
}

/// The error reporting that a target's script could not run.
pub open spec fn failed_line(t: DeploymentTarget, e: Seq<char>) -> SshEventView {
    SshEventView::Error("[ "@ + label_spec(t) + " failed: "@ + e + " ]"@)
}

/// The events that close every run: exit code 0, then the closing line.
pub open spec fn closing_events() -> Seq<SshEventView> {
    seq![SshEventView::Done(0), SshEventView::Line("=== DEPLOYMENT COMPLETE ==="@)]
}

/// What follows once `next` targets are done: the next target's script, or
/// the closing events when none is left.
pub open spec fn continue_from(targets: Seq<DeploymentTarget>, next: nat, before: Seq<SshEventView>) -> DeployStepView {
    if next < targets.len() {
        DeployStepView::Run { events: before.push(start_line(targets[next as int])), target: targets[next as int] }
    } else {
        DeployStepView::Finish { events: before + closing_events() }
    }
}


/// The outcome of a target's script: its exit code, or why it could not run.
pub enum OutcomeView {
    Exited(i32),
    Failed(Seq<char>),
}

/// The view of a script outcome.
pub open spec fn outcome_view(r: Result<i32, String>) -> OutcomeView {
    match r {
        Ok(c) => OutcomeView::Exited(c),
        Err(e) => OutcomeView::Failed(e@),
    }
}

/// The step after the script of target `next` ended with `outcome`: a
/// failure ends the run; an exit code, whatever it is, moves on to the
/// following target.
pub open spec fn next_step_spec(r: DeployRunView, outcome: OutcomeView) -> (DeployRunView, DeployStepView) {
    let t = r.targets[r.next as int];
    match outcome {
        OutcomeView::Exited(code) => {
            let next = r.next + 1;
            let step = continue_from(r.targets, next, seq![done_line(t, code)]);
            (
                DeployRunView { next, finished: next >= r.targets.len(), ..r },
                step,
            )
        },
        OutcomeView::Failed(e) => (
            DeployRunView { finished: true, ..r },
            DeployStepView::Finish { events: seq![failed_line(t, e)] + closing_events() },
        ),
    }
}

fn closing(events: &mut Vec<SshEvent>)
    ensures
        final(events).deep_view() == old(events).deep_view() + closing_events(),
{
    let ghost e0 = events.deep_view();
    events.push(SshEvent::Done(0));
    events.push(SshEvent::Line(String::from_str("=== DEPLOYMENT COMPLETE ===")));
    assert(events.deep_view() =~= e0 + closing_events());
}

impl DeployRun {
    /// A run of `targets`, in order, none done yet.
    pub fn new(targets: Vec<DeploymentTarget>) -> (r: DeployRun)
        ensures
            r@ == (DeployRunView { targets: targets@, next: 0, finished: false }),
    {
        DeployRun { targets, next: 0, finished: false }
    }

    /// The first step: the first target's script, or, with no targets, the
    /// closing events.
    pub fn first_step(&mut self) -> (step: DeployStep)
        requires
            old(self)@.next == 0,
            !old(self)@.finished,
        ensures
            step@ == continue_from(old(self)@.targets, 0, Seq::empty()),
            final(self)@ == (DeployRunView { finished: old(self)@.targets.len() == 0, ..old(self)@ }),
    {
        let events: Vec<SshEvent> = Vec::new();
        assert(events.deep_view() =~= Seq::<SshEventView>::empty());
        self.finished = self.targets.len() == 0;
        self.step_from(events)
    }

    fn step_from(&self, events: Vec<SshEvent>) -> (step: DeployStep)
        ensures
            step@ == continue_from(self@.targets, self@.next, events.deep_view()),
    {
        let mut events = events;
        if self.next < self.targets.len() {
            let t = self.targets[self.next];
            let ghost e0 = events.deep_view();
            events.push(SshEvent::Line(String::from_str("\n>>> ").concat(Pipeline::target_label(&t))));
            assert(events.deep_view() =~= e0.push(start_line(t)));
            DeployStep::Run { events, target: t }
        } else {
            closing(&mut events);
            DeployStep::Finish { events }
        }
    }

    /// The step after the script of the current target ended with `outcome`
    /// (its exit code, or why it could not run).
    pub fn next_step(&mut self, outcome: Result<i32, String>) -> (step: DeployStep)
        requires
            !old(self)@.finished,
            old(self)@.next < old(self)@.targets.len(),
        ensures
            (final(self)@, step@) == next_step_spec(old(self)@, outcome_view(outcome)),
    {
        let n = self.targets.len();
        let t = self.targets[self.next];
        let label = Pipeline::target_label(&t);
        match outcome {
            Ok(code) => {
                let mut line = String::from_str("[ ").concat(label).concat(" done, exit: ");
                push_signed_decimal(&mut line, code as i64);
                line.append(" ]");
                let mut events: Vec<SshEvent> = Vec::new();
                events.push(SshEvent::Line(line));
                assert(events.deep_view() =~= seq![done_line(t, code)]);
                self.next = self.next + 1;
                self.finished = self.next >= self.targets.len();
                self.step_from(events)
            },
            Err(e) => {
                let text = String::from_str("[ ").concat(label).concat(" failed: ").concat(e.as_str()).concat(" ]");
                let mut events: Vec<SshEvent> = Vec::new();
                events.push(SshEvent::Error(text));
                assert(events.deep_view() =~= seq![failed_line(t, e@)]);
                closing(&mut events);
                self.finished = true;
                DeployStep::Finish { events }
            },
        }
    }

    /// Whether the run is over.
    pub fn is_finished(&self) -> (b: bool)
        ensures
            b == self@.finished,
    {
        self.finished
    }
}

} // verus!
