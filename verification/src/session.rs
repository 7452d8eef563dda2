//! Starting and stopping the build and the test run of a session.
//!
//! A request to start is admitted if the engine is there and the session
//! has no process of the kind in flight. The shell then starts the engine
//! with the arguments given here and offers the process to the registry
//! through the invocation's supervisor. A request to stop takes the
//! process out of the registry and hands it to the shell to end.

use vstd::prelude::*;
use crate::controller::{other_kind, SessionController};
use crate::events::{events_view, log_of, SessionEvent, SessionEventView};
use crate::kind::OperationKind;
use crate::supervisor::{
    already_running_text, requested, LogSource, PhaseView, Supervisor, SupervisorView,
};
use crate::text::{is_blank, is_blank_text, texts};

verus! {

/// Why a request to start was not carried out.
#[derive(Debug, Clone, PartialEq, Eq)]
pub enum StartError {
    /// The engine is missing or its daemon does not answer: why.
    EngineUnavailable(String),
    /// The session has a process of the kind in flight.
    AlreadyRunning,
    /// The file for the recipe could not be created: the system's message.
    RecipeNotCreated(String),
    /// The recipe could not be written to its file: the system's message.
    RecipeNotWritten(String),
    /// The system could not start the process: its message.
    SpawnFailure(String),
    /// One of the two output streams of the process could not be had.
    StreamCaptureFailure { stderr: bool },
}

/// What a `StartError` holds.
pub enum StartErrorView {
    EngineUnavailable(Seq<char>),
    AlreadyRunning,
    RecipeNotCreated(Seq<char>),
    RecipeNotWritten(Seq<char>),
    SpawnFailure(Seq<char>),
    StreamCaptureFailure { stderr: bool },
}

impl View for StartError {
    type V = StartErrorView;

    open spec fn view(&self) -> StartErrorView {
        match self {
            StartError::EngineUnavailable(why) => StartErrorView::EngineUnavailable(why@),
            StartError::AlreadyRunning => StartErrorView::AlreadyRunning,
            StartError::RecipeNotCreated(why) => StartErrorView::RecipeNotCreated(why@),
            StartError::RecipeNotWritten(why) => StartErrorView::RecipeNotWritten(why@),
            StartError::SpawnFailure(why) => StartErrorView::SpawnFailure(why@),
            StartError::StreamCaptureFailure { stderr } => StartErrorView::StreamCaptureFailure {
                stderr: *stderr,
            },
        }
    }
}

/// The text that tells a user why a request to start was not carried out.
pub open spec fn start_error_text(error: StartErrorView, kind: OperationKind) -> Seq<char> {
    match error {
        StartErrorView::EngineUnavailable(why) => why,
        StartErrorView::AlreadyRunning => already_running_text(kind),
        StartErrorView::RecipeNotCreated(why) => "Failed to create temporary file: "@ + why,
        StartErrorView::RecipeNotWritten(why) => "Failed to write Dockerfile: "@ + why,
        StartErrorView::SpawnFailure(why) => (match kind {
            OperationKind::Build => "Failed to start Docker build: "@,
            OperationKind::Test => "Failed to start Docker test: "@,
        }) + why,
        StartErrorView::StreamCaptureFailure { stderr } => if stderr {
            "Failed to capture stderr"@
        } else {
            "Failed to capture stdout"@
        },
    }
}

impl StartError {
    /// The text that tells a user why a request to start a process of the
    /// kind was not carried out.
    pub fn message(&self, kind: OperationKind) -> (text: String)
        ensures
            text@ == start_error_text(self@, kind),
    {
        match self {
            StartError::EngineUnavailable(why) => why.clone(),
            StartError::AlreadyRunning => match kind {
                OperationKind::Build => String::from_str(
                    "A Docker build is already running for this tab",
                ),
                OperationKind::Test => String::from_str(
                    "A Docker test is already running for this tab",
                ),
            },
            StartError::RecipeNotCreated(why) => {
                let mut text = String::from_str("Failed to create temporary file: ");
                text.append(why.as_str());
                text
            },
            StartError::RecipeNotWritten(why) => {
                let mut text = String::from_str("Failed to write Dockerfile: ");
                text.append(why.as_str());
                text
            },
            StartError::SpawnFailure(why) => {
                let mut text = match kind {
                    OperationKind::Build => String::from_str("Failed to start Docker build: "),
                    OperationKind::Test => String::from_str("Failed to start Docker test: "),
                };
                text.append(why.as_str());
                text
            },
            StartError::StreamCaptureFailure { stderr } => {
                if *stderr {
                    String::from_str("Failed to capture stderr")
                } else {
                    String::from_str("Failed to capture stdout")
                }
            },
        }
    }
}

/// Why a request to stop was not carried out.
#[derive(Debug, Clone, PartialEq, Eq)]
pub enum StopError {
    /// The session has no process of the kind in flight.
    NotRunning,
    /// The system refused to end the process: its message.
    Signal(String),
}

/// What a `StopError` holds.
pub enum StopErrorView {
    NotRunning,
    Signal(Seq<char>),
}

impl View for StopError {
    type V = StopErrorView;

    open spec fn view(&self) -> StopErrorView {
        match self {
            StopError::NotRunning => StopErrorView::NotRunning,
            StopError::Signal(why) => StopErrorView::Signal(why@),
        }
    }
}

/// The text that tells a user why a request to stop was not carried out.
pub open spec fn stop_error_text(error: StopErrorView, kind: OperationKind) -> Seq<char> {
    match (error, kind) {
        (StopErrorView::NotRunning, OperationKind::Build) => "No build process is currently running for this tab"@,
        (StopErrorView::NotRunning, OperationKind::Test) => "No test process is currently running for this tab"@,
        (StopErrorView::Signal(why), OperationKind::Build) => "Failed to stop build: "@ + why,
        (StopErrorView::Signal(why), OperationKind::Test) => "Failed to stop test: "@ + why,
    }
}

impl StopError {
    /// The text that tells a user why a request to stop a process of the
    /// kind was not carried out.
    pub fn message(&self, kind: OperationKind) -> (text: String)
        ensures
            text@ == stop_error_text(self@, kind),
    {
        match self {
            StopError::NotRunning => match kind {
                OperationKind::Build => String::from_str(
                    "No build process is currently running for this tab",
                ),
                OperationKind::Test => String::from_str(
                    "No test process is currently running for this tab",
                ),
            },
            StopError::Signal(why) => {
                let mut text = match kind {
                    OperationKind::Build => String::from_str("Failed to stop build: "),
                    OperationKind::Test => String::from_str("Failed to stop test: "),
                };
                text.append(why.as_str());
                text
            },
        }
    }
}

/// An admitted request: the supervisor of the invocation, which is
/// starting, the engine to run, and the lines that announce the run.
pub struct Launch {
    supervisor: Supervisor,
    program: String,
    preface: Vec<SessionEvent>,
}

/// What a `Launch` holds.
pub struct LaunchView {
    pub supervisor: SupervisorView,
    pub program: Seq<char>,
    pub preface: Seq<SessionEventView>,
}

impl View for Launch {
    type V = LaunchView;

    closed spec fn view(&self) -> LaunchView {
        LaunchView {
            supervisor: self.supervisor@,
            program: self.program@,
            preface: events_view(self.preface@),
        }
    }
}

/// A request to start that failed after it was admitted: the text that
/// tells the user why, and the process to end, where one was started.
#[derive(Debug)]
pub struct Refusal<H> {
    pub text: String,
    pub orphan: Option<H>,
}

/// What came of starting the engine.
pub enum Spawned<H> {
    /// The system could not start the process: its message.
    Failed(String),
    /// The process runs, but its standard output could not be had.
    WithoutStdout(H),
    /// The process runs, but its standard error could not be had.
    WithoutStderr(H),
    /// The process runs, and both its output streams were taken from its
    /// handle.
    Ready(H),
}

/// An invocation of the kind for the session, as it is while it starts.
pub open spec fn starting(kind: OperationKind, tab_id: Seq<char>) -> SupervisorView {
    SupervisorView { phase: PhaseView::Starting, ..requested(kind, tab_id) }
}

/// Each notice as a line of the transcript of the session.
pub open spec fn notices(
    kind: OperationKind,
    tab_id: Seq<char>,
    lines: Seq<Seq<char>>,
) -> Seq<SessionEventView> {
    Seq::new(lines.len(), |i: int| log_of(kind, tab_id, lines[i]))
}

/// What becomes of a request to start: it is refused where the engine is
/// not there, and where the session has a process of the kind in flight
/// (`taken`); otherwise it is admitted, with `lines` to announce the run.
pub open spec fn admission(
    kind: OperationKind,
    tab_id: Seq<char>,
    taken: bool,
    engine: Result<Seq<char>, Seq<char>>,
    lines: Seq<Seq<char>>,
) -> Result<LaunchView, StartErrorView> {
    match engine {
        Err(why) => Err(StartErrorView::EngineUnavailable(why)),
        Ok(program) => if taken {
            Err(StartErrorView::AlreadyRunning)
        } else {
            Ok(
                LaunchView {
                    supervisor: starting(kind, tab_id),
                    program,
                    preface: notices(kind, tab_id, lines),
                },
            )
        },
    }
}

/// The view of an engine that was found, or of the reason why not.
pub open spec fn engine_view(engine: Result<String, String>) -> Result<Seq<char>, Seq<char>> {
    match engine {
        Ok(program) => Ok(program@),
        Err(why) => Err(why@),
    }
}

/// What an admission holds is what is owed.
pub open spec fn admitted_as(
    got: Result<Launch, StartError>,
    owed: Result<LaunchView, StartErrorView>,
) -> bool {
    match got {
        Ok(launch) => owed == Ok::<LaunchView, StartErrorView>(launch@),
        Err(error) => owed == Err::<LaunchView, StartErrorView>(error@),
    }
}

/// Decides a request to start a process of the kind for the session.
fn decide_start<H>(
    controller: &SessionController<H>,
    kind: OperationKind,
    tab_id: String,
    engine: Result<String, String>,
    lines: Vec<String>,
) -> (launch: Result<Launch, StartError>)
    ensures
        admitted_as(
            launch,
            admission(
                kind,
                tab_id@,
                controller.held(kind).contains_key(tab_id@),
                engine_view(engine),
                texts(lines@),
            ),
        ),
{
    let program = match engine {
        Ok(program) => program,
        Err(why) => {
            return Err(StartError::EngineUnavailable(why));
        },
    };
    if controller.is_running(kind, tab_id.as_str()) {
        return Err(StartError::AlreadyRunning);
    }
    let ghost tab = tab_id@;
    let mut supervisor = Supervisor::new(kind, tab_id);
    supervisor.start();
    let mut preface: Vec<SessionEvent> = Vec::new();
    let mut i: usize = 0;
    while i < lines.len()
        invariant
            i <= lines.len(),
            supervisor@ == starting(kind, tab),
            preface@.len() == i,
            forall|k: int| 0 <= k < i ==> (#[trigger] preface@[k])@ == log_of(kind, tab, lines@[k]@),
        decreases lines.len() - i,
    {
        let line = supervisor.log(LogSource::Notice, lines[i].as_str());
        proof {
            let owed = seq![log_of(kind, tab, lines@[i as int]@)];
            assert(owed.len() == 1);
            assert(line is Some);
            assert(owed[0] == line->Some_0@);
        }
        if let Some(event) = line {
            preface.push(event);
        }
        i = i + 1;
    }
    assert(events_view(preface@) =~= notices(kind, tab, texts(lines@)));
    Ok(Launch { supervisor, program, preface })
}

/// The lines that announce a build.
pub open spec fn build_notices(
    program: Seq<char>,
    image_name: Seq<char>,
    repo: Seq<char>,
    commit: Seq<char>,
) -> Seq<Seq<char>> {
    seq![
        "Starting Docker build..."@,
        "Using Docker: "@ + program,
        "Building image: "@ + image_name,
        "Repository: "@ + repo,
        "Commit: "@ + commit,
        Seq::empty(),
    ]
}

/// The lines that announce a test run.
pub open spec fn test_notices(
    program: Seq<char>,
    image_name: Seq<char>,
    test_cmd: Seq<char>,
    test_file_paths: Seq<char>,
) -> Seq<Seq<char>> {
    seq![
        "Starting Docker test run..."@,
        "Using Docker: "@ + program,
        "Image: "@ + image_name,
        "Test command: "@ + test_cmd,
        "Test files: "@ + test_file_paths,
        Seq::empty(),
    ]
}

/// The program of an engine that was found; nothing where none was.
pub open spec fn program_of(engine: Result<Seq<char>, Seq<char>>) -> Seq<char> {
    match engine {
        Ok(program) => program,
        Err(_) => Seq::empty(),
    }
}

/// A label and what it labels, as one line.
fn labelled(label: &str, value: &str) -> (line: String)
    ensures
        line@ == label@ + value@,
{
    let mut line = String::from_str(label);
    line.append(value);
    line
}

/// The program of an engine that was found.
fn found_program(engine: &Result<String, String>) -> (program: &str)
    ensures
        program@ == program_of(engine_view(*engine)),
{
    proof {
        reveal_strlit("");
        assert(""@ =~= Seq::<char>::empty());
    }
    match engine {
        Ok(program) => program.as_str(),
        Err(_) => "",
    }
}

/// Decides a request to build the image of a session. The request is
/// refused where the engine is not there (`engine` holds the reason), and
/// where the session has a build in flight. Otherwise it is admitted: the
/// shell stages the recipe, sends the lines that announce the build,
/// starts the engine, and offers the process to the registry.
pub fn build_docker_image<H>(
    controller: &SessionController<H>,
    tab_id: String,
    image_name: &str,
    github_repo_url: &str,
    commit: &str,
    engine: Result<String, String>,
) -> (launch: Result<Launch, StartError>)
    ensures
        admitted_as(
            launch,
            admission(
                OperationKind::Build,
                tab_id@,
                controller.held(OperationKind::Build).contains_key(tab_id@),
                engine_view(engine),
                build_notices(
                    program_of(engine_view(engine)),
                    image_name@,
                    github_repo_url@,
                    commit@,
                ),
            ),
        ),
{
    proof {
        reveal_strlit("");
        assert(""@ =~= Seq::<char>::empty());
    }
    let lines = vec![
        String::from_str("Starting Docker build..."),
        labelled("Using Docker: ", found_program(&engine)),
        labelled("Building image: ", image_name),
        labelled("Repository: ", github_repo_url),
        labelled("Commit: ", commit),
        String::from_str(""),
    ];
    assert(texts(lines@) =~= build_notices(
        program_of(engine_view(engine)),
        image_name@,
        github_repo_url@,
        commit@,
    ));
    decide_start(controller, OperationKind::Build, tab_id, engine, lines)
}

/// Decides a request to run the tests of a session in its image. The
/// request is refused where the engine is not there (`engine` holds the
/// reason), and where the session has a test run in flight. Otherwise it
/// is admitted: the shell sends the lines that announce the run, starts
/// the engine, and offers the process to the registry.
pub fn run_docker_test<H>(
    controller: &SessionController<H>,
    tab_id: String,
    image_name: &str,
    test_cmd: &str,
    test_file_paths: &str,
    engine: Result<String, String>,
) -> (launch: Result<Launch, StartError>)
    ensures
        admitted_as(
            launch,
            admission(
                OperationKind::Test,
                tab_id@,
                controller.held(OperationKind::Test).contains_key(tab_id@),
                engine_view(engine),
                test_notices(
                    program_of(engine_view(engine)),
                    image_name@,
                    test_cmd@,
                    test_file_paths@,
                ),
            ),
        ),
{
    proof {
        reveal_strlit("");
        assert(""@ =~= Seq::<char>::empty());
    }
    let lines = vec![
        String::from_str("Starting Docker test run..."),
        labelled("Using Docker: ", found_program(&engine)),
        labelled("Image: ", image_name),
        labelled("Test command: ", test_cmd),
        labelled("Test files: ", test_file_paths),
        String::from_str(""),
    ];
    assert(texts(lines@) =~= test_notices(
        program_of(engine_view(engine)),
        image_name@,
        test_cmd@,
        test_file_paths@,
    ));
    decide_start(controller, OperationKind::Test, tab_id, engine, lines)
}

/// The arguments with which the engine builds an image from the recipe in
/// a file, in the directory it is started in.
pub open spec fn build_command(dockerfile_path: Seq<char>, image_name: Seq<char>) -> Seq<
    Seq<char>,
> {
    seq!["build"@, "-f"@, dockerfile_path, "-t"@, image_name, "."@]
}

/// The arguments with which the engine builds an image from the recipe in
/// a file.
pub fn build_arguments(dockerfile_path: &str, image_name: &str) -> (arguments: Vec<String>)
    ensures
        texts(arguments@) == build_command(dockerfile_path@, image_name@),
{
    let arguments = vec![
        String::from_str("build"),
        String::from_str("-f"),
        String::from_str(dockerfile_path),
        String::from_str("-t"),
        String::from_str(image_name),
        String::from_str("."),
    ];
    assert(texts(arguments@) =~= build_command(dockerfile_path@, image_name@));
    arguments
}

/// The test command as the container runs it: the base command, and
/// after one space the test files, unless they are blank.
pub open spec fn full_test_command(test_cmd: Seq<char>, test_file_paths: Seq<char>) -> Seq<char> {
    if is_blank(test_file_paths) {
        test_cmd
    } else {
        test_cmd + " "@ + test_file_paths
    }
}

/// The arguments with which the engine runs the tests in a container of
/// the image, which it removes afterwards.
pub open spec fn test_command(
    image_name: Seq<char>,
    test_cmd: Seq<char>,
    test_file_paths: Seq<char>,
) -> Seq<Seq<char>> {
    seq![
        "run"@,
        "--rm"@,
        image_name,
        "bash"@,
        "-c"@,
        full_test_command(test_cmd, test_file_paths),
    ]
}

/// The arguments with which the engine runs the tests in a container of
/// the image.
pub fn test_arguments(image_name: &str, test_cmd: &str, test_file_paths: &str) -> (arguments: Vec<
    String,
>)
    ensures
        texts(arguments@) == test_command(image_name@, test_cmd@, test_file_paths@),
{
    let mut full = String::from_str(test_cmd);
    if !is_blank_text(test_file_paths) {
        full.append(" ");
        full.append(test_file_paths);
    }
    assert(full@ =~= full_test_command(test_cmd@, test_file_paths@));
    let arguments = vec![
        String::from_str("run"),
        String::from_str("--rm"),
        String::from_str(image_name),
        String::from_str("bash"),
        String::from_str("-c"),
        full,
    ];
    assert(texts(arguments@) =~= test_command(image_name@, test_cmd@, test_file_paths@));
    arguments
}

/// An invocation of the kind for the session, as it is while it runs.
pub open spec fn running(kind: OperationKind, tab_id: Seq<char>) -> SupervisorView {
    SupervisorView { phase: PhaseView::Running, ..requested(kind, tab_id) }
}

impl Launch {
    /// What every admitted request keeps: its invocation is starting.
    #[verifier::type_invariant]
    spec fn is_starting(&self) -> bool {
        self.supervisor@.phase is Starting && self.supervisor@.verdict is None
    }

    /// The kind of work.
    pub fn kind(&self) -> (kind: OperationKind)
        ensures
            kind == self@.supervisor.kind,
    {
        self.supervisor.kind()
    }

    /// The session.
    pub fn tab_id(&self) -> (tab_id: &str)
        ensures
            tab_id@ == self@.supervisor.tab_id,
    {
        self.supervisor.tab_id()
    }

    /// The engine to run.
    pub fn program(&self) -> (program: &str)
        ensures
            program@ == self@.program,
    {
        self.program.as_str()
    }

    /// The lines that announce the run, to be sent before the engine is
    /// started.
    pub fn preface(&self) -> (preface: &Vec<SessionEvent>)
        ensures
            events_view(preface@) == self@.preface,
    {
        &self.preface
    }

    /// Gives the request up because the shell could not prepare the start:
    /// the text that tells the user why. No process was started.
    pub fn abandon(self, error: &StartError) -> (text: String)
        ensures
            text@ == start_error_text(error@, self@.supervisor.kind),
    {
        error.message(self.supervisor.kind())
    }

    /// Takes in what came of starting the engine. A process that is ready
    /// is offered to the registry of the kind: if the session has no entry
    /// there, the registry takes it, and the supervisor of the running
    /// invocation comes back. In every other case the request fails, the
    /// registries stay as they are, and the refusal holds the text that
    /// tells the user why and, where a process was started, that process
    /// as the one for the caller to end, so that none is left behind.
    pub fn begin<H>(self, controller: &mut SessionController<H>, spawned: Spawned<H>) -> (begun:
        Result<Supervisor, Refusal<H>>)
        ensures
            final(controller).held(other_kind(self@.supervisor.kind)) == old(controller).held(
                other_kind(self@.supervisor.kind),
            ),
            begun is Err ==> final(controller).held(self@.supervisor.kind) == old(controller).held(
                self@.supervisor.kind,
            ),
            match spawned {
                Spawned::Failed(why) => {
                    &&& begun is Err
                    &&& begun->Err_0.orphan is None
                    &&& begun->Err_0.text@ == start_error_text(
                        StartErrorView::SpawnFailure(why@),
                        self@.supervisor.kind,
                    )
                },
                Spawned::WithoutStdout(handle) => {
                    &&& begun is Err
                    &&& begun->Err_0.orphan == Some(handle)
                    &&& begun->Err_0.text@ == start_error_text(
                        (StartErrorView::StreamCaptureFailure { stderr: false }),
                        self@.supervisor.kind,
                    )
                },
                Spawned::WithoutStderr(handle) => {
                    &&& begun is Err
                    &&& begun->Err_0.orphan == Some(handle)
                    &&& begun->Err_0.text@ == start_error_text(
                        (StartErrorView::StreamCaptureFailure { stderr: true }),
                        self@.supervisor.kind,
                    )
                },
                Spawned::Ready(handle) => if old(controller).held(
                    self@.supervisor.kind,
                ).contains_key(self@.supervisor.tab_id) {
                    &&& begun is Err
                    &&& begun->Err_0.orphan == Some(handle)
                    &&& begun->Err_0.text@ == already_running_text(self@.supervisor.kind)
                } else {
                    &&& begun is Ok
                    &&& begun->Ok_0@ == running(self@.supervisor.kind, self@.supervisor.tab_id)
                    &&& final(controller).held(self@.supervisor.kind) == old(controller).held(
                        self@.supervisor.kind,
                    ).insert(self@.supervisor.tab_id, handle)
                },
            },
    {
        proof {
            use_type_invariant(&self);
        }
        let kind = self.supervisor.kind();
        let mut supervisor = self.supervisor;
        match spawned {
            Spawned::Failed(why) => Err(
                Refusal { text: StartError::SpawnFailure(why).message(kind), orphan: None },
            ),
            Spawned::WithoutStdout(handle) => Err(
                Refusal {
                    text: StartError::StreamCaptureFailure { stderr: false }.message(kind),
                    orphan: Some(handle),
                },
            ),
            Spawned::WithoutStderr(handle) => Err(
                Refusal {
                    text: StartError::StreamCaptureFailure { stderr: true }.message(kind),
                    orphan: Some(handle),
                },
            ),
            Spawned::Ready(handle) => match supervisor.register(controller, handle) {
                Ok(()) => Ok(supervisor),
                Err(back) => Err(
                    Refusal { text: StartError::AlreadyRunning.message(kind), orphan: Some(back) },
                ),
            },
        }
    }
}

/// What a request to stop comes to, given what the system answered when
/// it was asked to end the process: done, or refused with the system's
/// message.
pub fn stop_outcome(answer: Result<(), String>) -> (outcome: Result<(), StopError>)
    ensures
        match answer {
            Ok(()) => outcome is Ok,
            Err(why) => outcome == Err::<(), StopError>(StopError::Signal(why)),
        },
{
    match answer {
        Ok(()) => Ok(()),
        Err(why) => Err(StopError::Signal(why)),
    }
}

/// What a request to stop finds: the process that the session had in
/// flight, or that there was none.
pub open spec fn stop_finding<H>(held: Map<Seq<char>, H>, tab_id: Seq<char>) -> Result<
    H,
    StopErrorView,
> {
    if held.contains_key(tab_id) {
        Ok(held[tab_id])
    } else {
        Err(StopErrorView::NotRunning)
    }
}

/// What a request to stop found is what is owed.
pub open spec fn found_as<H>(got: Result<H, StopError>, owed: Result<H, StopErrorView>) -> bool {
    match got {
        Ok(handle) => owed == Ok::<H, StopErrorView>(handle),
        Err(error) => owed == Err::<H, StopErrorView>(error@),
    }
}

/// Takes the process of the kind that the session has in flight out of
/// its registry.
fn stop<H>(controller: &mut SessionController<H>, kind: OperationKind, tab_id: &str) -> (outcome:
    Result<H, StopError>)
    ensures
        final(controller).held(other_kind(kind)) == old(controller).held(other_kind(kind)),
        final(controller).held(kind) == old(controller).held(kind).remove(tab_id@),
        !final(controller).held(kind).contains_key(tab_id@),
        found_as(outcome, stop_finding(old(controller).held(kind), tab_id@)),
{
    match controller.remove(kind, tab_id) {
        None => {
            proof {
                let before = old(controller).held(kind);
                assert(before.remove(tab_id@) =~= before);
            }
            Err(StopError::NotRunning)
        },
        Some(handle) => Ok(handle),
    }
}

/// Stops the build of a session. Where the session has no build in
/// flight, nothing changes and the request fails as `NotRunning`.
/// Otherwise the build leaves the registry, and its process is handed to
/// the caller as the one to end: the caller asks the system to end it,
/// without waiting for it to end, and `stop_outcome` says what the
/// system's answer comes to. The process is out of the registry before
/// anyone can ask to end it. The session's test run is not touched.
pub fn stop_docker_build<H>(controller: &mut SessionController<H>, tab_id: &str) -> (outcome:
    Result<H, StopError>)
    ensures
        final(controller).held(OperationKind::Test) == old(controller).held(OperationKind::Test),
        final(controller).held(OperationKind::Build) == old(controller).held(
            OperationKind::Build,
        ).remove(tab_id@),
        !final(controller).held(OperationKind::Build).contains_key(tab_id@),
        found_as(outcome, stop_finding(old(controller).held(OperationKind::Build), tab_id@)),
{
    stop(controller, OperationKind::Build, tab_id)
}

/// Stops the test run of a session. Where the session has no test run in
/// flight, nothing changes and the request fails as `NotRunning`.
/// Otherwise the test run leaves the registry, and its process is handed
/// to the caller as the one to end: the caller asks the system to end it,
/// without waiting for it to end, and `stop_outcome` says what the
/// system's answer comes to. The process is out of the registry before
/// anyone can ask to end it. The session's build is not touched.
pub fn stop_docker_test<H>(controller: &mut SessionController<H>, tab_id: &str) -> (outcome:
    Result<H, StopError>)
    ensures
        final(controller).held(OperationKind::Build) == old(controller).held(
            OperationKind::Build,
        ),
        final(controller).held(OperationKind::Test) == old(controller).held(
            OperationKind::Test,
        ).remove(tab_id@),
        !final(controller).held(OperationKind::Test).contains_key(tab_id@),
        found_as(outcome, stop_finding(old(controller).held(OperationKind::Test), tab_id@)),
{
    stop(controller, OperationKind::Test, tab_id)
}

} // verus!
