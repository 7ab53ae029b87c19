//! The operations, step by step.
//!
//! An operation asks for one thing at a time of the world outside: to run a
//! tool, to look for a directory, to write the port marker. The caller does
//! what is asked and reports what came of it; the plan then says what is next.

use crate::decimal::decimal;
use crate::error::{Error, ErrorKind, ErrorView};
use crate::pgtemp::{conn_string_spec, db_path, port_path, PgTemp};
use crate::process::{join3, run, run_spec, Exit, ExitView, Invocation, InvocationView};
use crate::tools::{client, client_spec, init_spec, initdb, probe, probe_spec, start, start_spec};
use crate::tools::{stop, stop_spec, Tool};
use crate::version::{get_postgres_version, version_spec};
use vstd::prelude::*;

verus! {

/// The directories that a plan asks about.
#[derive(Clone, Copy, PartialEq, Eq, Debug)]
pub enum Place {
    /// The instance directory.
    Root,
    /// The data directory.
    Data,
}

/// What a plan asks of its caller.
#[derive(Clone, PartialEq, Eq, Debug)]
pub enum Action {
    /// Run the tool and wait for its end.
    Run { tool: Tool, invocation: Invocation },
    /// Say whether the directory exists.
    Exists { place: Place, path: String },
    /// Create the instance directory.
    CreateDir { path: String },
    /// Write the port marker.
    Write { path: String, contents: String },
    /// Read the port marker.
    Read { path: String },
    /// Remove the instance directory and all below it.
    RemoveTree { path: String },
}

/// An [`Action`] as a mathematical value.
pub enum ActionView {
    Run { tool: Tool, invocation: InvocationView },
    Exists { place: Place, path: Seq<char> },
    CreateDir { path: Seq<char> },
    Write { path: Seq<char>, contents: Seq<char> },
    Read { path: Seq<char> },
    RemoveTree { path: Seq<char> },
}

impl View for Action {
    type V = ActionView;

    open spec fn view(&self) -> ActionView {
        match *self {
            Action::Run { tool, invocation } => ActionView::Run { tool, invocation: invocation@ },
            Action::Exists { place, path } => ActionView::Exists { place, path: path@ },
            Action::CreateDir { path } => ActionView::CreateDir { path: path@ },
            Action::Write { path, contents } => ActionView::Write {
                path: path@,
                contents: contents@,
            },
            Action::Read { path } => ActionView::Read { path: path@ },
            Action::RemoveTree { path } => ActionView::RemoveTree { path: path@ },
        }
    }
}

/// What came of an action.
#[derive(Clone, PartialEq, Eq, Debug)]
pub enum Event {
    /// The tool ran and ended.
    Exited(Exit),
    /// Whether the directory exists.
    Present(bool),
    /// The directory was created, the marker written, the tree removed.
    Done,
    /// What the port marker holds.
    Contents(Vec<u8>),
    /// There is no port marker.
    Missing,
    /// The action could not be carried out, and why.
    Failed(String),
}

/// An [`Event`] as a mathematical value.
pub enum EventView {
    Exited(ExitView),
    Present(bool),
    Done,
    Contents(Seq<u8>),
    Missing,
    Failed(Seq<char>),
}

impl View for Event {
    type V = EventView;

    open spec fn view(&self) -> EventView {
        match *self {
            Event::Exited(exit) => EventView::Exited(exit@),
            Event::Present(present) => EventView::Present(present),
            Event::Done => EventView::Done,
            Event::Contents(bytes) => EventView::Contents(bytes@),
            Event::Missing => EventView::Missing,
            Event::Failed(reason) => EventView::Failed(reason@),
        }
    }
}

/// How far an operation has come: each stage but the last waits for the answer
/// to one action.
#[derive(Clone, PartialEq, Eq, Debug)]
pub enum Stage {
    /// Initialisation: is the instance directory there?
    EnsureCheck,
    /// Initialisation: the instance directory is being created.
    EnsureCreate,
    /// Initialisation: the creation was refused for `reason`; is the directory
    /// there all the same?
    EnsureRecheck { reason: String },
    /// Create: which version is installed?
    CreateProbe { port: u32 },
    /// Create: is a data directory there already?
    DataCheck { port: u32 },
    /// Create: the port marker is being written.
    MarkerWrite { port: u32 },
    /// Create: is the directory above the data directory there?
    ParentCheck { port: u32 },
    /// Create: the directory above the data directory is being created.
    ParentCreate { port: u32 },
    /// Create: the creation was refused for `reason`; is the directory there all
    /// the same?
    ParentRecheck { port: u32, reason: String },
    /// Create: the init tool runs.
    InitTool { port: u32 },
    /// Create: the server is being started.
    Start { port: u32 },
    /// Create has failed with `error`: is there an instance directory to remove?
    CleanupCheck { error: Error },
    /// Create has failed with `error`: the instance directory is being removed.
    CleanupRemove { error: Error },
    /// Destroy: which version is installed?
    DestroyProbe,
    /// Destroy: is there an instance at all?
    RootCheck,
    /// Destroy: the server is being stopped.
    Stop,
    /// Destroy: the instance directory is being removed.
    Remove,
    /// Connect: the port marker is being read.
    ConnectRead,
    /// Connect: the client runs.
    Client { endpoint: String },
    /// The operation has ended, with `error` if it failed.
    Finished { error: Option<Error> },
}

/// A [`Stage`] as a mathematical value.
pub enum StageView {
    EnsureCheck,
    EnsureCreate,
    EnsureRecheck { reason: Seq<char> },
    CreateProbe { port: u32 },
    DataCheck { port: u32 },
    MarkerWrite { port: u32 },
    ParentCheck { port: u32 },
    ParentCreate { port: u32 },
    ParentRecheck { port: u32, reason: Seq<char> },
    InitTool { port: u32 },
    Start { port: u32 },
    CleanupCheck { error: ErrorView },
    CleanupRemove { error: ErrorView },
    DestroyProbe,
    RootCheck,
    Stop,
    Remove,
    ConnectRead,
    Client { endpoint: Seq<char> },
    Finished { error: Option<ErrorView> },
}

/// An error that may be absent, as a mathematical value.
pub open spec fn error_view(error: Option<Error>) -> Option<ErrorView> {
    match error {
        Some(error) => Some(error@),
        None => None,
    }
}

impl View for Stage {
    type V = StageView;

    open spec fn view(&self) -> StageView {
        match *self {
            Stage::EnsureCheck => StageView::EnsureCheck,
            Stage::EnsureCreate => StageView::EnsureCreate,
            Stage::EnsureRecheck { reason } => StageView::EnsureRecheck { reason: reason@ },
            Stage::CreateProbe { port } => StageView::CreateProbe { port },
            Stage::DataCheck { port } => StageView::DataCheck { port },
            Stage::MarkerWrite { port } => StageView::MarkerWrite { port },
            Stage::ParentCheck { port } => StageView::ParentCheck { port },
            Stage::ParentCreate { port } => StageView::ParentCreate { port },
            Stage::ParentRecheck { port, reason } => StageView::ParentRecheck {
                port,
                reason: reason@,
            },
            Stage::InitTool { port } => StageView::InitTool { port },
            Stage::Start { port } => StageView::Start { port },
            Stage::CleanupCheck { error } => StageView::CleanupCheck { error: error@ },
            Stage::CleanupRemove { error } => StageView::CleanupRemove { error: error@ },
            Stage::DestroyProbe => StageView::DestroyProbe,
            Stage::RootCheck => StageView::RootCheck,
            Stage::Stop => StageView::Stop,
            Stage::Remove => StageView::Remove,
            Stage::ConnectRead => StageView::ConnectRead,
            Stage::Client { endpoint } => StageView::Client { endpoint: endpoint@ },
            Stage::Finished { error } => StageView::Finished { error: error_view(error) },
        }
    }
}

/// The end of an operation that succeeded.
pub open spec fn succeeded() -> StageView {
    StageView::Finished { error: None }
}

/// The end of an operation that failed.
pub open spec fn failed(kind: ErrorKind, message: Seq<char>) -> StageView {
    StageView::Finished { error: Some(ErrorView { kind, message }) }
}

/// The message that refuses a second instance.
pub open spec fn already_exists() -> Seq<char> {
    "Cannot create a new DB, one still exists."@
}

/// The message that reports an instance directory that could not be removed.
pub open spec fn removal_failed(root: Seq<char>, reason: Seq<char>) -> Seq<char> {
    "Failed to remove "@ + root + ": "@ + reason
}

/// The stage that follows `stage` when `event` is reported, for the instance
/// directory `root`. An event that does not answer the action of `stage` changes
/// nothing.
pub open spec fn step(root: Seq<char>, stage: StageView, event: EventView) -> StageView {
    match stage {
        StageView::EnsureCheck => match event {
            EventView::Present(present) => if present {
                succeeded()
            } else {
                StageView::EnsureCreate
            },
            EventView::Failed(reason) => failed(ErrorKind::Io, reason),
            _ => stage,
        },
        StageView::EnsureCreate => match event {
            EventView::Done => succeeded(),
            EventView::Failed(reason) => StageView::EnsureRecheck { reason },
            _ => stage,
        },
        StageView::EnsureRecheck { reason } => match event {
            EventView::Present(present) => if present {
                succeeded()
            } else {
                failed(ErrorKind::Io, reason)
            },
            EventView::Failed(_) => failed(ErrorKind::Io, reason),
            _ => stage,
        },
        StageView::CreateProbe { port } => match event {
            EventView::Exited(exit) => match version_spec(exit) {
                Ok(_) => StageView::DataCheck { port },
                Err(error) => StageView::Finished { error: Some(error) },
            },
            EventView::Failed(reason) => failed(ErrorKind::Probe, reason),
            _ => stage,
        },
        StageView::DataCheck { port } => match event {
            EventView::Present(present) => if present {
                failed(ErrorKind::AlreadyExists, already_exists())
            } else {
                StageView::MarkerWrite { port }
            },
            EventView::Failed(reason) => failed(ErrorKind::Io, reason),
            _ => stage,
        },
        StageView::MarkerWrite { port } => match event {
            EventView::Done => StageView::ParentCheck { port },
            EventView::Failed(reason) => failed(ErrorKind::Io, reason),
            _ => stage,
        },
        StageView::ParentCheck { port } => match event {
            EventView::Present(present) => if present {
                StageView::InitTool { port }
            } else {
                StageView::ParentCreate { port }
            },
            EventView::Failed(reason) => failed(ErrorKind::Io, reason),
            _ => stage,
        },
        StageView::ParentCreate { port } => match event {
            EventView::Done => StageView::InitTool { port },
            EventView::Failed(reason) => StageView::ParentRecheck { port, reason },
            _ => stage,
        },
        StageView::ParentRecheck { port, reason } => match event {
            EventView::Present(present) => if present {
                StageView::InitTool { port }
            } else {
                failed(ErrorKind::Io, reason)
            },
            EventView::Failed(_) => failed(ErrorKind::Io, reason),
            _ => stage,
        },
        StageView::InitTool { port } => match event {
            EventView::Exited(exit) => match run_spec("initdb"@, exit, ErrorKind::Setup) {
                Ok(_) => StageView::Start { port },
                Err(error) => StageView::CleanupCheck { error },
            },
            EventView::Failed(reason) => StageView::CleanupCheck {
                error: ErrorView { kind: ErrorKind::Setup, message: reason },
            },
            _ => stage,
        },
        StageView::Start { port } => match event {
            EventView::Exited(exit) => match run_spec("pg_ctl"@, exit, ErrorKind::Setup) {
                Ok(_) => succeeded(),
                Err(error) => StageView::CleanupCheck { error },
            },
            EventView::Failed(reason) => StageView::CleanupCheck {
                error: ErrorView { kind: ErrorKind::Setup, message: reason },
            },
            _ => stage,
        },
        StageView::CleanupCheck { error } => match event {
            EventView::Present(present) => if present {
                StageView::CleanupRemove { error }
            } else {
                StageView::Finished { error: Some(error) }
            },
            EventView::Failed(_) => StageView::Finished { error: Some(error) },
            _ => stage,
        },
        StageView::CleanupRemove { error } => match event {
            EventView::Done => StageView::Finished { error: Some(error) },
            EventView::Failed(_) => StageView::Finished { error: Some(error) },
            _ => stage,
        },
        StageView::DestroyProbe => match event {
            EventView::Exited(exit) => match version_spec(exit) {
                Ok(_) => StageView::RootCheck,
                Err(error) => StageView::Finished { error: Some(error) },
            },
            EventView::Failed(reason) => failed(ErrorKind::Probe, reason),
            _ => stage,
        },
        StageView::RootCheck => match event {
            EventView::Present(present) => if present {
                StageView::Stop
            } else {
                succeeded()
            },
            EventView::Failed(reason) => failed(ErrorKind::Io, reason),
            _ => stage,
        },
        StageView::Stop => match event {
            EventView::Exited(exit) => match run_spec("pg_ctl"@, exit, ErrorKind::Stop) {
                Ok(_) => StageView::Remove,
                Err(error) => StageView::Finished { error: Some(error) },
            },
            EventView::Failed(reason) => failed(ErrorKind::Stop, reason),
            _ => stage,
        },
        StageView::Remove => match event {
            EventView::Done => succeeded(),
            EventView::Failed(reason) => failed(ErrorKind::Io, removal_failed(root, reason)),
            _ => stage,
        },
        StageView::ConnectRead => match event {
            EventView::Contents(bytes) => match conn_string_spec(Some(bytes)) {
                Ok(endpoint) => StageView::Client { endpoint },
                Err(error) => StageView::Finished { error: Some(error) },
            },
            EventView::Missing => match conn_string_spec(None) {
                Ok(endpoint) => StageView::Client { endpoint },
                Err(error) => StageView::Finished { error: Some(error) },
            },
            EventView::Failed(reason) => failed(ErrorKind::Io, reason),
            _ => stage,
        },
        StageView::Client { endpoint } => match event {
            EventView::Exited(exit) => match run_spec("psql"@, exit, ErrorKind::Launch) {
                Ok(_) => succeeded(),
                Err(error) => StageView::Finished { error: Some(error) },
            },
            EventView::Failed(reason) => failed(ErrorKind::Launch, reason),
            _ => stage,
        },
        StageView::Finished { error } => stage,
    }
}

/// What `stage` asks of the caller, for the instance directory `root`; nothing
/// once the operation has ended.
pub open spec fn pending_spec(root: Seq<char>, stage: StageView) -> Option<ActionView> {
    match stage {
        StageView::EnsureCheck => Some(ActionView::Exists { place: Place::Root, path: root }),
        StageView::EnsureCreate => Some(ActionView::CreateDir { path: root }),
        StageView::EnsureRecheck { reason } => Some(
            ActionView::Exists { place: Place::Root, path: root },
        ),
        StageView::CreateProbe { port } => Some(
            ActionView::Run { tool: Tool::Probe, invocation: probe_spec() },
        ),
        StageView::DataCheck { port } => Some(
            ActionView::Exists { place: Place::Data, path: db_path(root) },
        ),
        StageView::MarkerWrite { port } => Some(
            ActionView::Write { path: port_path(root), contents: decimal(port as nat) },
        ),
        StageView::ParentCheck { port } => Some(
            ActionView::Exists { place: Place::Root, path: root },
        ),
        StageView::ParentCreate { port } => Some(ActionView::CreateDir { path: root }),
        StageView::ParentRecheck { port, reason } => Some(
            ActionView::Exists { place: Place::Root, path: root },
        ),
        StageView::InitTool { port } => Some(
            ActionView::Run { tool: Tool::Init, invocation: init_spec(db_path(root)) },
        ),
        StageView::Start { port } => Some(
            ActionView::Run { tool: Tool::Start, invocation: start_spec(db_path(root), port) },
        ),
        StageView::CleanupCheck { error } => Some(
            ActionView::Exists { place: Place::Root, path: root },
        ),
        StageView::CleanupRemove { error } => Some(ActionView::RemoveTree { path: root }),
        StageView::DestroyProbe => Some(
            ActionView::Run { tool: Tool::Probe, invocation: probe_spec() },
        ),
        StageView::RootCheck => Some(ActionView::Exists { place: Place::Root, path: root }),
        StageView::Stop => Some(
            ActionView::Run { tool: Tool::Stop, invocation: stop_spec(db_path(root)) },
        ),
        StageView::Remove => Some(ActionView::RemoveTree { path: root }),
        StageView::ConnectRead => Some(ActionView::Read { path: port_path(root) }),
        StageView::Client { endpoint } => Some(
            ActionView::Run { tool: Tool::Client, invocation: client_spec(endpoint) },
        ),
        StageView::Finished { error } => None,
    }
}

/// How `stage` has ended: `None` while it has not.
pub open spec fn outcome_spec(stage: StageView) -> Option<Result<(), ErrorView>> {
    match stage {
        StageView::Finished { error } => match error {
            Some(error) => Some(Err(error)),
            None => Some(Ok(())),
        },
        _ => None,
    }
}

/// An action that may be absent, as a mathematical value.
pub open spec fn action_view(action: Option<Action>) -> Option<ActionView> {
    match action {
        Some(action) => Some(action@),
        None => None,
    }
}

/// An outcome that may be absent, as a mathematical value.
pub open spec fn outcome_view(outcome: Option<Result<(), Error>>) -> Option<Result<(), ErrorView>> {
    match outcome {
        Some(Ok(_)) => Some(Ok(())),
        Some(Err(error)) => Some(Err(error@)),
        None => None,
    }
}

/// An operation under way.
#[derive(Clone, PartialEq, Eq, Debug)]
pub struct Plan {
    manager: PgTemp,
    stage: Stage,
}

/// A [`Plan`] as a mathematical value.
pub struct PlanView {
    /// The path of the instance directory.
    pub root: Seq<char>,
    /// How far the operation has come.
    pub stage: StageView,
}

impl View for Plan {
    type V = PlanView;

    closed spec fn view(&self) -> PlanView {
        PlanView { root: self.manager@, stage: self.stage@ }
    }
}

/// The stage that ends an operation with a failure.
fn fail(kind: ErrorKind, message: String) -> (stage: Stage)
    ensures
        stage@ == failed(kind, message@),
{
    Stage::Finished { error: Some(Error { kind, message }) }
}

/// What follows the answer to whether the directory above the data directory
/// is there: it is created where it is not.
fn create_folders(port: u32, present: bool) -> (stage: Stage)
    ensures
        stage@ == if present {
            StageView::InitTool { port }
        } else {
            StageView::ParentCreate { port }
        },
{
    if present {
        Stage::InitTool { port }
    } else {
        Stage::ParentCreate { port }
    }
}

/// What follows, after the failure `error`, the answer to whether an instance
/// directory is there: it is removed where it is.
fn clean_up(error: Error, present: bool) -> (stage: Stage)
    ensures
        stage@ == if present {
            StageView::CleanupRemove { error: error@ }
        } else {
            StageView::Finished { error: Some(error@) }
        },
{
    if present {
        Stage::CleanupRemove { error }
    } else {
        Stage::Finished { error: Some(error) }
    }
}

impl Plan {
    /// The plan of `manager` that stands at `stage`.
    pub(crate) fn at(manager: PgTemp, stage: Stage) -> (plan: Plan)
        ensures
            plan@ == (PlanView { root: manager@, stage: stage@ }),
    {
        Plan { manager, stage }
    }

    /// What the plan asks of its caller now; `None` once the operation has ended.
    pub fn pending(&self) -> (action: Option<Action>)
        ensures
            action_view(action) == pending_spec(self@.root, self@.stage),
    {
        match &self.stage {
            Stage::EnsureCheck => Some(
                Action::Exists { place: Place::Root, path: self.manager.config_dir() },
            ),
            Stage::EnsureCreate => Some(Action::CreateDir { path: self.manager.config_dir() }),
            Stage::EnsureRecheck { reason } => Some(
                Action::Exists { place: Place::Root, path: self.manager.config_dir() },
            ),
            Stage::CreateProbe { port } => Some(
                Action::Run { tool: Tool::Probe, invocation: probe() },
            ),
            Stage::DataCheck { port } => Some(
                Action::Exists { place: Place::Data, path: self.manager.db_path() },
            ),
            Stage::MarkerWrite { port } => Some(self.manager.write_port(*port)),
            Stage::ParentCheck { port } => Some(
                Action::Exists { place: Place::Root, path: self.manager.config_dir() },
            ),
            Stage::ParentCreate { port } => Some(
                Action::CreateDir { path: self.manager.config_dir() },
            ),
            Stage::ParentRecheck { port, reason } => Some(
                Action::Exists { place: Place::Root, path: self.manager.config_dir() },
            ),
            Stage::InitTool { port } => Some(
                Action::Run { tool: Tool::Init, invocation: initdb(self.manager.db_path()) },
            ),
            Stage::Start { port } => Some(
                Action::Run { tool: Tool::Start, invocation: start(self.manager.db_path(), *port) },
            ),
            Stage::CleanupCheck { error } => Some(
                Action::Exists { place: Place::Root, path: self.manager.config_dir() },
            ),
            Stage::CleanupRemove { error } => Some(
                Action::RemoveTree { path: self.manager.config_dir() },
            ),
            Stage::DestroyProbe => Some(Action::Run { tool: Tool::Probe, invocation: probe() }),
            Stage::RootCheck => Some(
                Action::Exists { place: Place::Root, path: self.manager.config_dir() },
            ),
            Stage::Stop => Some(
                Action::Run { tool: Tool::Stop, invocation: stop(self.manager.db_path()) },
            ),
            Stage::Remove => Some(Action::RemoveTree { path: self.manager.config_dir() }),
            Stage::ConnectRead => Some(Action::Read { path: self.manager.port_path() }),
            Stage::Client { endpoint } => Some(
                Action::Run { tool: Tool::Client, invocation: client(endpoint.clone()) },
            ),
            Stage::Finished { error } => None,
        }
    }

    /// Takes the caller's report of what came of the pending action, and moves on.
    pub fn advance(self, event: Event) -> (next: Plan)
        ensures
            next@ == (PlanView {
                root: self@.root,
                stage: step(self@.root, self@.stage, event@),
            }),
    {
        let manager = self.manager;
        let stage = match self.stage {
            Stage::EnsureCheck => match event {
                Event::Present(present) => if present {
                    Stage::Finished { error: None }
                } else {
                    Stage::EnsureCreate
                },
                Event::Failed(reason) => fail(ErrorKind::Io, reason),
                _ => Stage::EnsureCheck,
            },
            Stage::EnsureCreate => match event {
                Event::Done => Stage::Finished { error: None },
                Event::Failed(reason) => Stage::EnsureRecheck { reason },
                _ => Stage::EnsureCreate,
            },
            Stage::EnsureRecheck { reason } => match event {
                Event::Present(present) => if present {
                    Stage::Finished { error: None }
                } else {
                    fail(ErrorKind::Io, reason)
                },
                Event::Failed(_) => fail(ErrorKind::Io, reason),
                _ => Stage::EnsureRecheck { reason },
            },
            Stage::CreateProbe { port } => match event {
                Event::Exited(exit) => match get_postgres_version(&exit) {
                    Ok(_) => Stage::DataCheck { port },
                    Err(error) => Stage::Finished { error: Some(error) },
                },
                Event::Failed(reason) => fail(ErrorKind::Probe, reason),
                _ => Stage::CreateProbe { port },
            },
            Stage::DataCheck { port } => match event {
                Event::Present(present) => if present {
                    fail(
                        ErrorKind::AlreadyExists,
                        String::from_str("Cannot create a new DB, one still exists."),
                    )
                } else {
                    Stage::MarkerWrite { port }
                },
                Event::Failed(reason) => fail(ErrorKind::Io, reason),
                _ => Stage::DataCheck { port },
            },
            Stage::MarkerWrite { port } => match event {
                Event::Done => Stage::ParentCheck { port },
                Event::Failed(reason) => fail(ErrorKind::Io, reason),
                _ => Stage::MarkerWrite { port },
            },
            Stage::ParentCheck { port } => match event {
                Event::Present(present) => create_folders(port, present),
                Event::Failed(reason) => fail(ErrorKind::Io, reason),
                _ => Stage::ParentCheck { port },
            },
            Stage::ParentCreate { port } => match event {
                Event::Done => Stage::InitTool { port },
                Event::Failed(reason) => Stage::ParentRecheck { port, reason },
                _ => Stage::ParentCreate { port },
            },
            Stage::ParentRecheck { port, reason } => match event {
                Event::Present(present) => if present {
                    Stage::InitTool { port }
                } else {
                    fail(ErrorKind::Io, reason)
                },
                Event::Failed(_) => fail(ErrorKind::Io, reason),
                _ => Stage::ParentRecheck { port, reason },
            },
            Stage::InitTool { port } => match event {
                Event::Exited(exit) => match run("initdb", &exit, ErrorKind::Setup) {
                    Ok(_) => Stage::Start { port },
                    Err(error) => Stage::CleanupCheck { error },
                },
                Event::Failed(reason) => Stage::CleanupCheck {
                    error: Error { kind: ErrorKind::Setup, message: reason },
                },
                _ => Stage::InitTool { port },
            },
            Stage::Start { port } => match event {
                Event::Exited(exit) => match run("pg_ctl", &exit, ErrorKind::Setup) {
                    Ok(_) => Stage::Finished { error: None },
                    Err(error) => Stage::CleanupCheck { error },
                },
                Event::Failed(reason) => Stage::CleanupCheck {
                    error: Error { kind: ErrorKind::Setup, message: reason },
                },
                _ => Stage::Start { port },
            },
            Stage::CleanupCheck { error } => match event {
                Event::Present(present) => clean_up(error, present),
                Event::Failed(_) => Stage::Finished { error: Some(error) },
                _ => Stage::CleanupCheck { error },
            },
            Stage::CleanupRemove { error } => match event {
                Event::Done => Stage::Finished { error: Some(error) },
                Event::Failed(_) => Stage::Finished { error: Some(error) },
                _ => Stage::CleanupRemove { error },
            },
            Stage::DestroyProbe => match event {
                Event::Exited(exit) => match get_postgres_version(&exit) {
                    Ok(_) => Stage::RootCheck,
                    Err(error) => Stage::Finished { error: Some(error) },
                },
                Event::Failed(reason) => fail(ErrorKind::Probe, reason),
                _ => Stage::DestroyProbe,
            },
            Stage::RootCheck => match event {
                Event::Present(present) => if present {
                    Stage::Stop
                } else {
                    Stage::Finished { error: None }
                },
                Event::Failed(reason) => fail(ErrorKind::Io, reason),
                _ => Stage::RootCheck,
            },
            Stage::Stop => match event {
                Event::Exited(exit) => match run("pg_ctl", &exit, ErrorKind::Stop) {
                    Ok(_) => Stage::Remove,
                    Err(error) => Stage::Finished { error: Some(error) },
                },
                Event::Failed(reason) => fail(ErrorKind::Stop, reason),
                _ => Stage::Stop,
            },
            Stage::Remove => match event {
                Event::Done => Stage::Finished { error: None },
                Event::Failed(reason) => {
                    let root = manager.config_dir();
                    let mut message = join3("Failed to remove ", root.as_str(), ": ");
                    message.append(reason.as_str());
                    fail(ErrorKind::Io, message)
                },
                _ => Stage::Remove,
            },
            Stage::ConnectRead => match event {
                Event::Contents(bytes) => match manager.conn_string(Some(bytes.as_slice())) {
                    Ok(endpoint) => Stage::Client { endpoint },
                    Err(error) => Stage::Finished { error: Some(error) },
                },
                Event::Missing => match manager.conn_string(None) {
                    Ok(endpoint) => Stage::Client { endpoint },
                    Err(error) => Stage::Finished { error: Some(error) },
                },
                Event::Failed(reason) => fail(ErrorKind::Io, reason),
                _ => Stage::ConnectRead,
            },
            Stage::Client { endpoint } => match event {
                Event::Exited(exit) => match run("psql", &exit, ErrorKind::Launch) {
                    Ok(_) => Stage::Finished { error: None },
                    Err(error) => Stage::Finished { error: Some(error) },
                },
                Event::Failed(reason) => fail(ErrorKind::Launch, reason),
                _ => Stage::Client { endpoint },
            },
            Stage::Finished { error } => Stage::Finished { error },
        };
        Plan { manager, stage }
    }

    /// Whether the operation has ended.
    pub fn finished(&self) -> (yes: bool)
        ensures
            yes == (self@.stage is Finished),
    {
        match &self.stage {
            Stage::Finished { error } => true,
            _ => false,
        }
    }

    /// How the operation has ended; `None` while it has not.
    pub fn outcome(self) -> (outcome: Option<Result<(), Error>>)
        ensures
            outcome_view(outcome) == outcome_spec(self@.stage),
    {
        match self.stage {
            Stage::Finished { error } => match error {
                Some(error) => Some(Err(error)),
                None => Some(Ok(())),
            },
            _ => None,
        }
    }
}

} // verus!
