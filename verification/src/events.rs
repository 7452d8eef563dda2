//! What the library asks the shell to send to the observers of a session:
//! log lines while a process runs, and one completion when it is over.

use vstd::prelude::*;
use crate::kind::OperationKind;
use crate::text::opt_text;

verus! {

/// One line of the transcript of a session.
#[derive(Debug, Clone, PartialEq, Eq)]
pub struct LogEvent {
    pub tab_id: String,
    pub message: String,
}

/// How a build ended.
#[derive(Debug, Clone, PartialEq, Eq)]
pub struct BuildCompleteEvent {
    pub success: bool,
    pub error: Option<String>,
}

/// How a test run ended.
#[derive(Debug, Clone, PartialEq, Eq)]
pub struct TestCompleteEvent {
    pub success: bool,
    pub error: Option<String>,
}

/// An event for the observers of a session, on the channel of its kind.
#[derive(Debug, Clone, PartialEq, Eq)]
pub enum SessionEvent {
    BuildLog(LogEvent),
    BuildComplete(String, BuildCompleteEvent),
    TestLog(LogEvent),
    TestComplete(String, TestCompleteEvent),
}

/// What an event carries.
pub enum Payload {
    Log(Seq<char>),
    Complete { success: bool, error: Option<Seq<char>> },
}

/// What a `SessionEvent` holds: the kind of work, the session, and the
/// line or the completion.
pub struct SessionEventView {
    pub kind: OperationKind,
    pub tab_id: Seq<char>,
    pub payload: Payload,
}

impl View for SessionEvent {
    type V = SessionEventView;

    open spec fn view(&self) -> SessionEventView {
        match self {
            SessionEvent::BuildLog(line) => SessionEventView {
                kind: OperationKind::Build,
                tab_id: line.tab_id@,
                payload: Payload::Log(line.message@),
            },
            SessionEvent::BuildComplete(tab_id, end) => SessionEventView {
                kind: OperationKind::Build,
                tab_id: tab_id@,
                payload: Payload::Complete { success: end.success, error: opt_text(end.error) },
            },
            SessionEvent::TestLog(line) => SessionEventView {
                kind: OperationKind::Test,
                tab_id: line.tab_id@,
                payload: Payload::Log(line.message@),
            },
            SessionEvent::TestComplete(tab_id, end) => SessionEventView {
                kind: OperationKind::Test,
                tab_id: tab_id@,
                payload: Payload::Complete { success: end.success, error: opt_text(end.error) },
            },
        }
    }
}

/// The views of a sequence of events.
pub open spec fn events_view(events: Seq<SessionEvent>) -> Seq<SessionEventView> {
    Seq::new(events.len(), |i: int| events[i]@)
}

/// A log line of a session.
pub open spec fn log_of(kind: OperationKind, tab_id: Seq<char>, message: Seq<char>) -> SessionEventView {
    SessionEventView { kind, tab_id, payload: Payload::Log(message) }
}

/// The completion of a session's process.
pub open spec fn completion_of(
    kind: OperationKind,
    tab_id: Seq<char>,
    success: bool,
    error: Option<Seq<char>>,
) -> SessionEventView {
    SessionEventView { kind, tab_id, payload: Payload::Complete { success, error } }
}

/// The name of the channel an event goes out on.
pub open spec fn channel_of(event: SessionEventView) -> Seq<char> {
    match (event.kind, event.payload) {
        (OperationKind::Build, Payload::Log(_)) => "build_log"@,
        (OperationKind::Build, Payload::Complete { .. }) => "build_complete"@,
        (OperationKind::Test, Payload::Log(_)) => "test_log"@,
        (OperationKind::Test, Payload::Complete { .. }) => "test_complete"@,
    }
}

impl SessionEvent {
    /// A log line of a session, on the channel of `kind`.
    pub fn log(kind: OperationKind, tab_id: &str, message: String) -> (event: SessionEvent)
        ensures
            event@ == log_of(kind, tab_id@, message@),
    {
        let line = LogEvent { tab_id: tab_id.to_owned(), message };
        match kind {
            OperationKind::Build => SessionEvent::BuildLog(line),
            OperationKind::Test => SessionEvent::TestLog(line),
        }
    }

    /// The completion of a session's process, on the channel of `kind`.
    pub fn completion(
        kind: OperationKind,
        tab_id: &str,
        success: bool,
        error: Option<String>,
    ) -> (event: SessionEvent)
        ensures
            event@ == completion_of(kind, tab_id@, success, opt_text(error)),
    {
        match kind {
            OperationKind::Build => SessionEvent::BuildComplete(
                tab_id.to_owned(),
                BuildCompleteEvent { success, error },
            ),
            OperationKind::Test => SessionEvent::TestComplete(
                tab_id.to_owned(),
                TestCompleteEvent { success, error },
            ),
        }
    }

    /// The name of the channel the event goes out on.
    pub fn channel(&self) -> (name: &'static str)
        ensures
            name@ == channel_of(self@),
    {
        match self {
            SessionEvent::BuildLog(_) => "build_log",
            SessionEvent::BuildComplete(_, _) => "build_complete",
            SessionEvent::TestLog(_) => "test_log",
            SessionEvent::TestComplete(_, _) => "test_complete",
        }
    }

    /// The session the event belongs to.
    pub fn tab_id(&self) -> (tab_id: &str)
        ensures
            tab_id@ == self@.tab_id,
    {
        match self {
            SessionEvent::BuildLog(line) => line.tab_id.as_str(),
            SessionEvent::BuildComplete(tab_id, _) => tab_id.as_str(),
            SessionEvent::TestLog(line) => line.tab_id.as_str(),
            SessionEvent::TestComplete(tab_id, _) => tab_id.as_str(),
        }
    }

    /// Whether the event is a completion.
    pub fn is_completion(&self) -> (completion: bool)
        ensures
            completion == (self@.payload is Complete),
    {
        match self {
            SessionEvent::BuildLog(_) => false,
            SessionEvent::BuildComplete(_, _) => true,
            SessionEvent::TestLog(_) => false,
            SessionEvent::TestComplete(_, _) => true,
        }
    }
}

} // verus!
