use vstd::prelude::*;
use crate::text::{trim_end, trim_end_spec};

verus! {

/// What an SSH worker reports back to the application.
#[derive(Debug, Clone, PartialEq, Eq)]
pub enum SshEvent {
    /// A line of remote output or of progress.
    Line(String),
    /// A failure, with its description.
    Error(String),
    /// A command or a deployment finished with this exit code.
    Done(i32),
    /// The session was established and authenticated.
    Connected,
}

/// The mathematical value of an [`SshEvent`].
pub enum SshEventView {
    Line(Seq<char>),
    Error(Seq<char>),
    Done(i32),
    Connected,
}

impl View for SshEvent {
    type V = SshEventView;

    open spec fn view(&self) -> SshEventView {
        match self {
            SshEvent::Line(l) => SshEventView::Line(l@),
            SshEvent::Error(e) => SshEventView::Error(e@),
            SshEvent::Done(c) => SshEventView::Done(*c),
            SshEvent::Connected => SshEventView::Connected,
        }
    }
}

impl DeepView for SshEvent {
    type V = SshEventView;

    open spec fn deep_view(&self) -> SshEventView {
        self@
    }
}

/// The SSH client. Its sessions run outside the verified library; what it
/// reports comes back as [`SshEvent`]s.
pub struct SshClient;

/// The event for a line of remote output: the line without its trailing
/// white space (the line break included).
pub fn output_line_event(raw: &str) -> (ev: SshEvent)
    ensures
        ev@ == SshEventView::Line(trim_end_spec(raw@)),
{
    SshEvent::Line(trim_end(raw))
}

/// The event for a failed read of remote output.
pub fn read_error_event(e: &str) -> (ev: SshEvent)
    ensures
        ev@ == SshEventView::Error("read error: "@ + e@),
{
    SshEvent::Error(String::from_str("read error: ").concat(e))
}

/// The event for a session that could not be opened.
pub fn session_error_event(e: &str) -> (ev: SshEvent)
    ensures
        ev@ == SshEventView::Error("SSH error: "@ + e@),
{
    SshEvent::Error(String::from_str("SSH error: ").concat(e))
}

/// The event for a script run in the background: its exit code, or the
/// reason it could not run.
pub fn script_outcome_event(outcome: Result<i32, String>) -> (ev: SshEvent)
    ensures
        ev@ == match outcome {
            Ok(code) => SshEventView::Done(code),
            Err(e) => SshEventView::Error("script error: "@ + e@),
        },
{
    match outcome {
        Ok(code) => SshEvent::Done(code),
        Err(e) => SshEvent::Error(String::from_str("script error: ").concat(e.as_str())),
    }
}

} // verus!
