//! The life of one invocation: from the request, through the start and the
//! run of the engine process, to the one completion that ends it.
//!
//! The shell performs what takes time (it starts the process, reads its
//! two streams, sleeps between looks). Each time something has happened it
//! tells the supervisor, which decides what the invocation has become and
//! what goes out to the observers.

use vstd::prelude::*;
use crate::controller::{other_kind, SessionController};
use crate::events::{completion_of, events_view, log_of, SessionEvent, SessionEventView};
use crate::kind::OperationKind;
use crate::process::{opt_status, HandleStatus, HandleStatusView, ProcessHandle};
use crate::text::{decimal, decimal_text};

verus! {

/// How long the watch over a running process sleeps between two looks,
/// in milliseconds.
pub const POLL_INTERVAL_MILLIS: u64 = 100;

/// Where an invocation stands.
#[derive(Debug, Clone, PartialEq, Eq)]
pub enum Phase {
    /// Requested, and nothing done yet.
    Idle,
    /// The engine is being checked and the process started.
    Starting,
    /// The process is registered; its output is forwarded.
    Running,
    /// The process has ended by itself: whether with success.
    Completed(bool),
    /// The invocation failed: why.
    Failed(String),
    /// The process was taken from the registry by a request to stop.
    Stopped,
}

/// What a `Phase` holds.
pub enum PhaseView {
    Idle,
    Starting,
    Running,
    Completed(bool),
    Failed(Seq<char>),
    Stopped,
}

impl View for Phase {
    type V = PhaseView;

    open spec fn view(&self) -> PhaseView {
        match self {
            Phase::Idle => PhaseView::Idle,
            Phase::Starting => PhaseView::Starting,
            Phase::Running => PhaseView::Running,
            Phase::Completed(success) => PhaseView::Completed(*success),
            Phase::Failed(why) => PhaseView::Failed(why@),
            Phase::Stopped => PhaseView::Stopped,
        }
    }
}

impl PhaseView {
    /// Whether the invocation is over.
    pub open spec fn is_terminal(self) -> bool {
        self is Completed || self is Failed || self is Stopped
    }
}

/// What ended the watch over a running process.
#[derive(Debug, Clone, PartialEq, Eq)]
pub enum Verdict {
    /// The process has ended: whether with success, and its exit code.
    Exited { success: bool, code: Option<i32> },
    /// The registry no longer had the process: a request to stop took it.
    Stopped,
    /// The look at the process failed: the system's message.
    QueryError(String),
}

/// What a `Verdict` holds.
pub enum VerdictView {
    Exited { success: bool, code: Option<i32> },
    Stopped,
    QueryError(Seq<char>),
}

impl View for Verdict {
    type V = VerdictView;

    open spec fn view(&self) -> VerdictView {
        match self {
            Verdict::Exited { success, code } => VerdictView::Exited {
                success: *success,
                code: *code,
            },
            Verdict::Stopped => VerdictView::Stopped,
            Verdict::QueryError(message) => VerdictView::QueryError(message@),
        }
    }
}

/// The view of an optional verdict.
pub open spec fn opt_verdict(verdict: Option<Verdict>) -> Option<VerdictView> {
    match verdict {
        Some(v) => Some(v@),
        None => None,
    }
}

/// Where a line of the transcript comes from.
#[derive(Clone, Copy, Debug, PartialEq, Eq, Structural)]
pub enum LogSource {
    /// The library's own word on the invocation.
    Notice,
    /// The standard output of the process.
    Stdout,
    /// The standard error of the process.
    Stderr,
}

/// An invocation as a mathematical value.
pub struct SupervisorView {
    pub kind: OperationKind,
    pub tab_id: Seq<char>,
    pub phase: PhaseView,
    pub verdict: Option<VerdictView>,
}

/// What can happen to an invocation.
pub enum Input {
    /// The shell takes the request up.
    Start,
    /// The start failed before a process was registered: why.
    Refuse(Seq<char>),
    /// The process was started and is offered to the registry, which has
    /// (`taken`) or has not an entry for the session already.
    Register { taken: bool },
    /// A line for the transcript.
    Log(LogSource, Seq<char>),
    /// A look at the registry: what the handle of the session said, or
    /// nothing where the session has no entry.
    Observe(Option<HandleStatusView>),
    /// Both streams of the process have been read to their end.
    Finish,
}

/// An invocation that has just been requested.
pub open spec fn requested(kind: OperationKind, tab_id: Seq<char>) -> SupervisorView {
    SupervisorView { kind, tab_id, phase: PhaseView::Idle, verdict: None }
}

/// Why a session that has a process of the kind in flight gets no second.
pub open spec fn already_running_text(kind: OperationKind) -> Seq<char> {
    match kind {
        OperationKind::Build => "A Docker build is already running for this tab"@,
        OperationKind::Test => "A Docker test is already running for this tab"@,
    }
}

/// A line as the transcript shows it: one from the standard error is
/// marked as such.
pub open spec fn line_text(source: LogSource, text: Seq<char>) -> Seq<char> {
    match source {
        LogSource::Stderr => "STDERR: "@ + text,
        _ => text,
    }
}

/// The notice for a stream of the process that can no longer be read: the
/// lines that the stream still held are lost, and the transcript says so.
pub open spec fn read_failure_text(source: LogSource, message: Seq<char>) -> Seq<char> {
    (match source {
        LogSource::Stderr => "ERROR: Failed to read stderr: "@,
        _ => "ERROR: Failed to read stdout: "@,
    }) + message
}

/// The verdict that a look at the registry leads to, if it ends the watch:
/// a session without an entry was stopped; a process that still runs is
/// looked at again.
pub open spec fn verdict_of(seen: Option<HandleStatusView>) -> Option<VerdictView> {
    match seen {
        None => Some(VerdictView::Stopped),
        Some(HandleStatusView::Exited { success, code }) => Some(
            VerdictView::Exited { success, code },
        ),
        Some(HandleStatusView::StillRunning) => None,
        Some(HandleStatusView::QueryError(message)) => Some(VerdictView::QueryError(message)),
    }
}

/// What a failed look at the process is called.
pub open spec fn query_note(message: Seq<char>) -> Seq<char> {
    "Process error: "@ + message
}

/// What a completion says of a process that ended without success.
pub open spec fn failure_note(kind: OperationKind) -> Seq<char> {
    match kind {
        OperationKind::Build => "Build failed"@,
        OperationKind::Test => "Test run failed"@,
    }
}

/// What a completion says of a process that was stopped.
pub open spec fn stopped_note(kind: OperationKind) -> Seq<char> {
    match kind {
        OperationKind::Build => "Build was stopped"@,
        OperationKind::Test => "Test was stopped"@,
    }
}

/// The last line of the transcript of a process that was stopped.
pub open spec fn stopped_line(kind: OperationKind) -> Seq<char> {
    match kind {
        OperationKind::Build => "Build stopped by user"@,
        OperationKind::Test => "Test stopped by user"@,
    }
}

/// The last line of the transcript of a process that ended without
/// success: its exit code, or -1 where it has none.
pub open spec fn exit_line(kind: OperationKind, code: Option<i32>) -> Seq<char> {
    (match kind {
        OperationKind::Build => "ERROR: Docker build failed with exit code: "@,
        OperationKind::Test => "ERROR: Docker test run failed with exit code: "@,
    }) + decimal_text(
        match code {
            Some(c) => c as int,
            None => -1,
        },
    )
}

/// The phase in which a verdict leaves the invocation.
pub open spec fn closing_phase(verdict: VerdictView) -> PhaseView {
    match verdict {
        VerdictView::Exited { success, .. } => PhaseView::Completed(success),
        VerdictView::Stopped => PhaseView::Stopped,
        VerdictView::QueryError(message) => PhaseView::Failed(query_note(message)),
    }
}

/// What goes out when an invocation ends: a last line of the transcript
/// unless the process succeeded, and then the completion.
pub open spec fn closing_events(
    kind: OperationKind,
    tab_id: Seq<char>,
    verdict: VerdictView,
) -> Seq<SessionEventView> {
    match verdict {
        VerdictView::Exited { success, code } => if success {
            seq![completion_of(kind, tab_id, true, None)]
        } else {
            seq![
                log_of(kind, tab_id, exit_line(kind, code)),
                completion_of(kind, tab_id, false, Some(failure_note(kind))),
            ]
        },
        VerdictView::Stopped => seq![
            log_of(kind, tab_id, stopped_line(kind)),
            completion_of(kind, tab_id, false, Some(stopped_note(kind))),
        ],
        VerdictView::QueryError(message) => seq![
            log_of(kind, tab_id, "ERROR: "@ + query_note(message)),
            completion_of(kind, tab_id, false, Some(query_note(message))),
        ],
    }
}

/// What an invocation becomes when something happens to it, and what goes
/// out to the observers. What does not apply in the phase it is in changes
/// nothing and sends nothing.
pub open spec fn next(s: SupervisorView, input: Input) -> (SupervisorView, Seq<SessionEventView>) {
    match input {
        Input::Start => if s.phase is Idle {
            (SupervisorView { phase: PhaseView::Starting, ..s }, Seq::empty())
        } else {
            (s, Seq::empty())
        },
        Input::Refuse(why) => if s.phase is Starting {
            (SupervisorView { phase: PhaseView::Failed(why), ..s }, Seq::empty())
        } else {
            (s, Seq::empty())
        },
        Input::Register { taken } => if s.phase is Starting {
            if taken {
                (
                    SupervisorView { phase: PhaseView::Failed(already_running_text(s.kind)), ..s },
                    Seq::empty(),
                )
            } else {
                (SupervisorView { phase: PhaseView::Running, ..s }, Seq::empty())
            }
        } else {
            (s, Seq::empty())
        },
        Input::Log(source, text) => if s.phase is Starting || s.phase is Running {
            (s, seq![log_of(s.kind, s.tab_id, line_text(source, text))])
        } else {
            (s, Seq::empty())
        },
        Input::Observe(seen) => if s.phase is Running && s.verdict is None {
            (SupervisorView { verdict: verdict_of(seen), ..s }, Seq::empty())
        } else {
            (s, Seq::empty())
        },
        Input::Finish => match s.verdict {
            Some(verdict) => if s.phase is Running {
                (
                    SupervisorView { phase: closing_phase(verdict), ..s },
                    closing_events(s.kind, s.tab_id, verdict),
                )
            } else {
                (s, Seq::empty())
            },
            None => (s, Seq::empty()),
        },
    }
}

/// The invocation after a sequence of inputs.
pub open spec fn after(s: SupervisorView, inputs: Seq<Input>) -> SupervisorView
    decreases inputs.len(),
{
    if inputs.len() == 0 {
        s
    } else {
        after(next(s, inputs[0]).0, inputs.drop_first())
    }
}

/// Everything that goes out over a sequence of inputs, in order.
pub open spec fn emitted(s: SupervisorView, inputs: Seq<Input>) -> Seq<SessionEventView>
    decreases inputs.len(),
{
    if inputs.len() == 0 {
        Seq::empty()
    } else {
        next(s, inputs[0]).1 + emitted(next(s, inputs[0]).0, inputs.drop_first())
    }
}

/// Whether the invocation's process was registered: it runs, or it is over
/// with a verdict.
pub open spec fn supervised(s: SupervisorView) -> bool {
    s.phase is Running || (s.phase.is_terminal() && s.verdict is Some)
}

/// What holds of every invocation that the inputs can lead to: a verdict
/// is there only once the process was registered, and an invocation that
/// completed or was stopped has one.
pub open spec fn coherent(s: SupervisorView) -> bool {
    &&& s.verdict is Some ==> s.phase is Running || s.phase.is_terminal()
    &&& s.phase is Completed || s.phase is Stopped ==> s.verdict is Some
}

/// Writes the notice for a stream of the process that can no longer be
/// read; `message` is the system's. It goes to the transcript as a notice.
pub fn read_failure_line(source: LogSource, message: &str) -> (line: String)
    ensures
        line@ == read_failure_text(source, message@),
{
    let mut line = match source {
        LogSource::Stderr => String::from_str("ERROR: Failed to read stderr: "),
        _ => String::from_str("ERROR: Failed to read stdout: "),
    };
    line.append(message);
    line
}

/// One invocation: a build or a test run of one session.
#[derive(Debug)]
pub struct Supervisor {
    kind: OperationKind,
    tab_id: String,
    phase: Phase,
    verdict: Option<Verdict>,
}

impl View for Supervisor {
    type V = SupervisorView;

    closed spec fn view(&self) -> SupervisorView {
        SupervisorView {
            kind: self.kind,
            tab_id: self.tab_id@,
            phase: self.phase@,
            verdict: opt_verdict(self.verdict),
        }
    }
}

/// Writes the last line of the transcript of a process that ended without
/// success.
fn write_exit_line(kind: OperationKind, code: Option<i32>) -> (line: String)
    ensures
        line@ == exit_line(kind, code),
{
    let mut line = match kind {
        OperationKind::Build => String::from_str("ERROR: Docker build failed with exit code: "),
        OperationKind::Test => String::from_str("ERROR: Docker test run failed with exit code: "),
    };
    let shown = match code {
        Some(c) => decimal(c),
        None => decimal(-1),
    };
    line.append(shown.as_str());
    line
}

/// Writes what a failed look at the process is called.
fn write_query_note(message: &str) -> (note: String)
    ensures
        note@ == query_note(message@),
{
    let mut note = String::from_str("Process error: ");
    note.append(message);
    note
}

/// What goes out when an invocation ends with `verdict`.
fn closing(kind: OperationKind, tab_id: &str, verdict: &Verdict) -> (events: Vec<SessionEvent>)
    ensures
        events_view(events@) == closing_events(kind, tab_id@, verdict@),
{
    let events = match verdict {
        Verdict::Exited { success, code } => {
            if *success {
                vec![SessionEvent::completion(kind, tab_id, true, None)]
            } else {
                let note = match kind {
                    OperationKind::Build => String::from_str("Build failed"),
                    OperationKind::Test => String::from_str("Test run failed"),
                };
                vec![
                    SessionEvent::log(kind, tab_id, write_exit_line(kind, *code)),
                    SessionEvent::completion(kind, tab_id, false, Some(note)),
                ]
            }
        },
        Verdict::Stopped => {
            let line = match kind {
                OperationKind::Build => String::from_str("Build stopped by user"),
                OperationKind::Test => String::from_str("Test stopped by user"),
            };
            let note = match kind {
                OperationKind::Build => String::from_str("Build was stopped"),
                OperationKind::Test => String::from_str("Test was stopped"),
            };
            vec![
                SessionEvent::log(kind, tab_id, line),
                SessionEvent::completion(kind, tab_id, false, Some(note)),
            ]
        },
        Verdict::QueryError(message) => {
            let note = write_query_note(message.as_str());
            let mut line = String::from_str("ERROR: ");
            line.append(note.as_str());
            vec![
                SessionEvent::log(kind, tab_id, line),
                SessionEvent::completion(kind, tab_id, false, Some(note)),
            ]
        },
    };
    assert(events_view(events@) =~= closing_events(kind, tab_id@, verdict@));
    events
}

impl Supervisor {
    /// The supervisor of an invocation that has just been requested.
    pub fn new(kind: OperationKind, tab_id: String) -> (supervisor: Supervisor)
        ensures
            supervisor@ == requested(kind, tab_id@),
    {
        Supervisor { kind, tab_id, phase: Phase::Idle, verdict: None }
    }

    /// The kind of work.
    pub fn kind(&self) -> (kind: OperationKind)
        ensures
            kind == self@.kind,
    {
        self.kind
    }

    /// The session.
    pub fn tab_id(&self) -> (tab_id: &str)
        ensures
            tab_id@ == self@.tab_id,
    {
        self.tab_id.as_str()
    }

    /// Where the invocation stands.
    pub fn phase(&self) -> (phase: &Phase)
        ensures
            phase@ == self@.phase,
    {
        &self.phase
    }

    /// Whether the invocation is over.
    pub fn is_terminal(&self) -> (over: bool)
        ensures
            over == self@.phase.is_terminal(),
    {
        match self.phase {
            Phase::Completed(_) => true,
            Phase::Failed(_) => true,
            Phase::Stopped => true,
            _ => false,
        }
    }

    /// Whether the watch over the process goes on: it runs and no look has
    /// ended the watch.
    pub fn is_watching(&self) -> (watching: bool)
        ensures
            watching == (self@.phase is Running && self@.verdict is None),
    {
        match self.phase {
            Phase::Running => self.verdict.is_none(),
            _ => false,
        }
    }

    /// The shell takes the request up.
    pub fn start(&mut self)
        ensures
            final(self)@ == next(old(self)@, Input::Start).0,
    {
        match self.phase {
            Phase::Idle => {
                self.phase = Phase::Starting;
            },
            _ => {},
        }
    }

    /// The start failed before a process was registered.
    pub fn refuse(&mut self, why: String)
        ensures
            final(self)@ == next(old(self)@, Input::Refuse(why@)).0,
    {
        match self.phase {
            Phase::Starting => {
                self.phase = Phase::Failed(why);
            },
            _ => {},
        }
    }

    /// Offers the started process to the registry of the invocation's
    /// kind. If the session has no entry there, the registry takes the
    /// handle and the invocation runs. Otherwise the invocation fails,
    /// nothing is stored, and the handle comes back.
    pub fn register<H>(&mut self, controller: &mut SessionController<H>, handle: H) -> (refused:
        Result<(), H>)
        ensures
            final(self)@ == next(
                old(self)@,
                (Input::Register {
                    taken: old(controller).held(old(self)@.kind).contains_key(old(self)@.tab_id),
                }),
            ).0,
            final(controller).held(other_kind(old(self)@.kind)) == old(controller).held(
                other_kind(old(self)@.kind),
            ),
            match refused {
                Ok(()) => {
                    &&& old(self)@.phase is Starting
                    &&& final(self)@.phase is Running
                    &&& final(controller).held(old(self)@.kind) == old(controller).held(
                        old(self)@.kind,
                    ).insert(old(self)@.tab_id, handle)
                },
                Err(back) => {
                    &&& !(final(self)@.phase is Running && old(self)@.phase is Starting)
                    &&& back == handle
                    &&& final(controller).held(old(self)@.kind) == old(controller).held(
                        old(self)@.kind,
                    )
                },
            },
    {
        match self.phase {
            Phase::Starting => {
                match controller.try_insert(self.kind, self.tab_id.clone(), handle) {
                    Ok(()) => {
                        self.phase = Phase::Running;
                        Ok(())
                    },
                    Err(back) => {
                        self.phase = Phase::Failed(
                            match self.kind {
                                OperationKind::Build => String::from_str(
                                    "A Docker build is already running for this tab",
                                ),
                                OperationKind::Test => String::from_str(
                                    "A Docker test is already running for this tab",
                                ),
                            },
                        );
                        Err(back)
                    },
                }
            },
            _ => Err(handle),
        }
    }

    /// A line for the transcript. It goes out while the invocation starts
    /// or runs, and is dropped once the invocation is over.
    pub fn log(&self, source: LogSource, text: &str) -> (event: Option<SessionEvent>)
        ensures
            match event {
                Some(e) => next(self@, Input::Log(source, text@)).1 == seq![e@],
                None => next(self@, Input::Log(source, text@)).1 == Seq::<
                    SessionEventView,
                >::empty(),
            },
    {
        let live = match self.phase {
            Phase::Starting => true,
            Phase::Running => true,
            _ => false,
        };
        if !live {
            return None;
        }
        let message = match source {
            LogSource::Stderr => {
                let mut message = String::from_str("STDERR: ");
                message.append(text);
                message
            },
            _ => String::from_str(text),
        };
        Some(SessionEvent::log(self.kind, self.tab_id.as_str(), message))
    }

    /// Takes in one look at the registry: what the handle of the session
    /// said, or nothing where the session has no entry. Says whether the
    /// watch goes on.
    pub fn observe(&mut self, seen: Option<HandleStatus>) -> (again: bool)
        ensures
            final(self)@ == next(old(self)@, Input::Observe(opt_status(seen))).0,
            again == (final(self)@.phase is Running && final(self)@.verdict is None),
    {
        if !self.is_watching() {
            return false;
        }
        match seen {
            None => {
                self.verdict = Some(Verdict::Stopped);
                false
            },
            Some(HandleStatus::Exited { success, code }) => {
                self.verdict = Some(Verdict::Exited { success, code });
                false
            },
            Some(HandleStatus::StillRunning) => true,
            Some(HandleStatus::QueryError(message)) => {
                self.verdict = Some(Verdict::QueryError(message));
                false
            },
        }
    }

    /// Looks once at the process of the invocation, through the registry
    /// and without waiting, and says whether to look again. The look finds
    /// nothing exactly if the session has no entry. It never adds or
    /// removes an entry.
    pub fn poll<H: ProcessHandle>(&mut self, controller: &mut SessionController<H>) -> (again:
        bool)
        ensures
            again == (final(self)@.phase is Running && final(self)@.verdict is None),
            final(controller).held(old(self)@.kind).dom() == old(controller).held(
                old(self)@.kind,
            ).dom(),
            final(controller).held(other_kind(old(self)@.kind)) == old(controller).held(
                other_kind(old(self)@.kind),
            ),
            exists|seen: Option<HandleStatusView>|
                (seen is None <==> !old(controller).held(old(self)@.kind).contains_key(
                    old(self)@.tab_id,
                )) && final(self)@ == (#[trigger] next(old(self)@, Input::Observe(seen))).0,
    {
        let seen = controller.probe(self.kind, self.tab_id.as_str());
        let ghost witness = opt_status(seen);
        let again = self.observe(seen);
        assert(final(self)@ == next(old(self)@, Input::Observe(witness)).0);
        again
    }

    /// Ends the invocation once both streams of the process have been read
    /// to their end and a look has ended the watch: removes the session's
    /// entry from the registry, if it is still there, and hands back what
    /// goes out, the completion last. Before that, and once the invocation
    /// is over, it changes nothing and hands back nothing.
    pub fn finish<H>(&mut self, controller: &mut SessionController<H>) -> (events: Vec<
        SessionEvent,
    >)
        ensures
            final(self)@ == next(old(self)@, Input::Finish).0,
            events_view(events@) == next(old(self)@, Input::Finish).1,
            final(controller).held(other_kind(old(self)@.kind)) == old(controller).held(
                other_kind(old(self)@.kind),
            ),
            old(self)@.phase is Running && old(self)@.verdict is Some ==> {
                &&& final(self)@.phase.is_terminal()
                &&& !final(controller).held(old(self)@.kind).contains_key(old(self)@.tab_id)
                &&& final(controller).held(old(self)@.kind) == old(controller).held(
                    old(self)@.kind,
                ).remove(old(self)@.tab_id)
            },
            !(old(self)@.phase is Running && old(self)@.verdict is Some) ==> final(controller).held(
                old(self)@.kind,
            ) == old(controller).held(old(self)@.kind),
    {
        let running = match self.phase {
            Phase::Running => true,
            _ => false,
        };
        if !running {
            let events: Vec<SessionEvent> = Vec::new();
            assert(events_view(events@) =~= Seq::<SessionEventView>::empty());
            return events;
        }
        match &self.verdict {
            None => {
                let events: Vec<SessionEvent> = Vec::new();
                assert(events_view(events@) =~= Seq::<SessionEventView>::empty());
                events
            },
            Some(verdict) => {
                let events = closing(self.kind, self.tab_id.as_str(), verdict);
                let phase = match verdict {
                    Verdict::Exited { success, .. } => Phase::Completed(*success),
                    Verdict::Stopped => Phase::Stopped,
                    Verdict::QueryError(message) => Phase::Failed(
                        write_query_note(message.as_str()),
                    ),
                };
                let _ = controller.remove(self.kind, self.tab_id.as_str());
                self.phase = phase;
                proof {
                    let before = old(controller).held(old(self)@.kind);
                    if !before.contains_key(old(self)@.tab_id) {
                        assert(before.remove(old(self)@.tab_id) =~= before);
                    }
                }
                events
            },
        }
    }
}

/// Whatever happens to an invocation keeps it coherent, and leaves its
/// kind and its session as they are.
pub proof fn lemma_next_keeps_coherent(s: SupervisorView, input: Input)
    requires
        coherent(s),
    ensures
        coherent(next(s, input).0),
        next(s, input).0.kind == s.kind,
        next(s, input).0.tab_id == s.tab_id,
{
}

/// An invocation that is over stays as it is and sends nothing more.
pub proof fn lemma_terminal_is_silent(s: SupervisorView, inputs: Seq<Input>)
    requires
        s.phase.is_terminal(),
    ensures
        after(s, inputs) == s,
        emitted(s, inputs) == Seq::<SessionEventView>::empty(),
    decreases inputs.len(),
{
    if inputs.len() > 0 {
        lemma_terminal_is_silent(s, inputs.drop_first());
        assert(next(s, inputs[0]).1 + Seq::<SessionEventView>::empty() =~= Seq::<
            SessionEventView,
        >::empty());
    }
}

/// Whatever happens to an invocation, and in whatever order: every event
/// that goes out is of its kind and its session; a completion is the last
/// event to go out, so every line of the transcript precedes it; and no
/// second completion goes out.
pub proof fn lemma_completion_is_last(s: SupervisorView, inputs: Seq<Input>)
    ensures
        ({
            let sent = emitted(s, inputs);
            &&& forall|i: int|
                0 <= i < sent.len() ==> (#[trigger] sent[i]).kind == s.kind && sent[i].tab_id
                    == s.tab_id
            &&& forall|i: int|
                0 <= i < sent.len() && (#[trigger] sent[i]).payload is Complete ==> i == sent.len()
                    - 1
            &&& forall|i: int, j: int|
                0 <= i < sent.len() && 0 <= j < sent.len() && (#[trigger] sent[i]).payload
                    is Complete && (#[trigger] sent[j]).payload is Complete ==> i == j
        }),
    decreases inputs.len(),
{
    if inputs.len() > 0 {
        let first = next(s, inputs[0]);
        let rest = emitted(first.0, inputs.drop_first());
        let all = emitted(s, inputs);
        lemma_completion_is_last(first.0, inputs.drop_first());
        if first.0.phase.is_terminal() {
            lemma_terminal_is_silent(first.0, inputs.drop_first());
            assert(all =~= first.1);
        } else {
            assert forall|i: int| 0 <= i < first.1.len() implies !((#[trigger] first.1[i]).payload
                is Complete) by {}
        }
        assert forall|i: int| 0 <= i < all.len() implies (#[trigger] all[i]).kind == s.kind
            && all[i].tab_id == s.tab_id by {
            if i >= first.1.len() {
                assert(all[i] == rest[i - first.1.len()]);
            } else {
                assert(all[i] == first.1[i]);
            }
        }
        assert forall|i: int| 0 <= i < all.len() && (#[trigger] all[i]).payload is Complete implies i
            == all.len() - 1 by {
            if i >= first.1.len() {
                assert(all[i] == rest[i - first.1.len()]);
            } else {
                assert(all[i] == first.1[i]);
            }
        }
    }
}

/// An invocation whose process was registered and which is over has sent
/// its completion, as the last event: exactly one, by
/// `lemma_completion_is_last`. An invocation that failed before a process
/// was registered has sent none.
pub proof fn lemma_one_completion(s: SupervisorView, inputs: Seq<Input>)
    requires
        coherent(s),
        !s.phase.is_terminal(),
    ensures
        ({
            let sent = emitted(s, inputs);
            let end = after(s, inputs);
            &&& end.phase.is_terminal() && supervised(end) ==> sent.len() > 0
                && sent.last().payload is Complete
            &&& end.phase.is_terminal() && !supervised(end) ==> forall|i: int|
                0 <= i < sent.len() ==> !((#[trigger] sent[i]).payload is Complete)
        }),
    decreases inputs.len(),
{
    if inputs.len() > 0 {
        let first = next(s, inputs[0]);
        let rest = emitted(first.0, inputs.drop_first());
        let all = emitted(s, inputs);
        lemma_next_keeps_coherent(s, inputs[0]);
        if first.0.phase.is_terminal() {
            lemma_terminal_is_silent(first.0, inputs.drop_first());
            assert(all =~= first.1);
        } else {
            lemma_one_completion(first.0, inputs.drop_first());
            assert forall|i: int| 0 <= i < first.1.len() implies !((#[trigger] first.1[i]).payload
                is Complete) by {}
            if rest.len() > 0 {
                assert(all.last() == rest.last());
            }
            assert forall|i: int| 0 <= i < all.len() && (forall|k: int|
                0 <= k < rest.len() ==> !((#[trigger] rest[k]).payload is Complete)) implies !((
            #[trigger] all[i]).payload is Complete) by {
                if i >= first.1.len() {
                    assert(all[i] == rest[i - first.1.len()]);
                } else {
                    assert(all[i] == first.1[i]);
                }
            }
        }
    }
}

/// A running invocation ends in one way only: by `Finish`, after a look
/// has ended the watch. So wherever an invocation that was registered is
/// over, `Supervisor::finish` has run, which leaves the registry without
/// an entry for the session.
pub proof fn lemma_supervised_ends_by_finish(s: SupervisorView, input: Input)
    requires
        coherent(s),
        !s.phase.is_terminal(),
        next(s, input).0.phase.is_terminal(),
        supervised(next(s, input).0),
    ensures
        input is Finish,
        s.phase is Running,
        s.verdict is Some,
{
}

} // verus!
