//! Lifecycle state machine of the managed server process.
//!
//! The supervisor decides; its caller acts. Each operation (`start`, `stop`,
//! `restart`) returns an [`Action`] for the caller to perform; the caller
//! reports what happened as an [`Event`] through [`Supervisor::advance`],
//! which returns the next action, until a `Finish` action ends the
//! operation. The caller holds its lock on the supervisor from the first
//! action to `Finish`; a new operation can only begin once the previous one
//! has finished.

use vstd::prelude::*;
use vstd::string::*;
use crate::config::{ServerConfig, ConfigView, strings, url_of};
use crate::log_buffer::{LogBuffer, LogLevel, logged_one};
use crate::config::copy_strings;
use crate::text::join;

verus! {

/// How long the liveness probe waits for a connection.
pub const PROBE_TIMEOUT_MS: u64 = 1000;
/// How long a freshly spawned server is given before readiness is re-checked.
pub const SETTLE_DELAY_MS: u64 = 3000;
/// Pause between the stop and the start of a restart.
pub const RESTART_DELAY_MS: u64 = 1000;

/// Snapshot of the server's state as reported to the shell.
#[derive(Clone, Copy, Debug, PartialEq, Eq, Structural)]
pub struct ServerStatus {
    pub running: bool,
    pub port: u16,
    pub pid: Option<u32>,
}

/// A child process the supervisor spawned: its process id and the caller's
/// handle to terminate and await it.
pub struct OwnedChild<H> {
    pub pid: u32,
    pub handle: H,
}

/// Why an operation failed.
#[derive(Debug)]
pub enum SupervisorError {
    AlreadyRunning,
    DirectoryNotFound { searched: Vec<String> },
    BuildPrerequisiteMissing { file: String },
    BuildFailed { stderr: String },
    SpawnFailed { cause: String },
    StopFailed { cause: String },
}

/// The content of a [`SupervisorError`].
pub enum ErrorView {
    AlreadyRunning,
    DirectoryNotFound { searched: Seq<Seq<char>> },
    BuildPrerequisiteMissing { file: Seq<char> },
    BuildFailed { stderr: Seq<char> },
    SpawnFailed { cause: Seq<char> },
    StopFailed { cause: Seq<char> },
}

impl View for SupervisorError {
    type V = ErrorView;

    open spec fn view(&self) -> ErrorView {
        match self {
            SupervisorError::AlreadyRunning => ErrorView::AlreadyRunning,
            SupervisorError::DirectoryNotFound { searched } => ErrorView::DirectoryNotFound {
                searched: strings(searched@),
            },
            SupervisorError::BuildPrerequisiteMissing { file } => ErrorView::BuildPrerequisiteMissing {
                file: file@,
            },
            SupervisorError::BuildFailed { stderr } => ErrorView::BuildFailed { stderr: stderr@ },
            SupervisorError::SpawnFailed { cause } => ErrorView::SpawnFailed { cause: cause@ },
            SupervisorError::StopFailed { cause } => ErrorView::StopFailed { cause: cause@ },
        }
    }
}

/// Where a start operation stands.
#[derive(Clone, Copy, Debug, PartialEq, Eq, Structural)]
pub enum StartStage {
    /// Restart pause before the start proper.
    Delaying,
    /// Waiting for the probe of the configured port.
    Probing,
    /// Waiting for the check of the candidate directory at `index`.
    Locating { index: usize },
    /// Waiting for the check of the build descriptor and entrypoint.
    CheckingPrerequisites { index: usize },
    /// Waiting for the build command to finish.
    Building { index: usize },
    /// Waiting for the spawn of the server.
    Spawning { index: usize },
    /// Spawned; waiting out the settle interval.
    Settling,
    /// Waiting for the readiness probe.
    Confirming,
}

/// Lifecycle state.
#[derive(Debug)]
pub enum Phase {
    Stopped,
    Running,
    Failed { reason: SupervisorError },
    Starting { stage: StartStage },
    Stopping { then_start: bool },
}

/// The content of a [`Phase`].
pub enum PhaseView {
    Stopped,
    Running,
    Failed { reason: ErrorView },
    Starting { stage: StartStage },
    Stopping { then_start: bool },
}

impl View for Phase {
    type V = PhaseView;

    open spec fn view(&self) -> PhaseView {
        match self {
            Phase::Stopped => PhaseView::Stopped,
            Phase::Running => PhaseView::Running,
            Phase::Failed { reason } => PhaseView::Failed { reason: reason@ },
            Phase::Starting { stage } => PhaseView::Starting { stage: *stage },
            Phase::Stopping { then_start } => PhaseView::Stopping { then_start: *then_start },
        }
    }
}

/// What the caller observed while performing an action.
#[allow(inconsistent_fields)]
pub enum Event<H> {
    PortProbed { reachable: bool },
    CandidateChecked { exists: bool, has_descriptor: bool, has_binary: bool },
    PrerequisitesChecked { descriptor: bool, entrypoint: bool },
    /// `Err` carries the build's standard error.
    BuildFinished { result: Result<(), String> },
    /// `Err` carries the cause.
    Spawned { result: Result<OwnedChild<H>, String> },
    /// `Err` hands the child back with the cause.
    Terminated { result: Result<(), (OwnedChild<H>, String)> },
    Slept,
}

/// The content of an [`Event`].
#[allow(inconsistent_fields)]
pub enum EventView<H> {
    PortProbed { reachable: bool },
    CandidateChecked { exists: bool, has_descriptor: bool, has_binary: bool },
    PrerequisitesChecked { descriptor: bool, entrypoint: bool },
    BuildFinished { result: Result<(), Seq<char>> },
    Spawned { result: Result<OwnedChild<H>, Seq<char>> },
    Terminated { result: Result<(), (OwnedChild<H>, Seq<char>)> },
    Slept,
}

impl<H> View for Event<H> {
    type V = EventView<H>;

    open spec fn view(&self) -> EventView<H> {
        match self {
            Event::PortProbed { reachable } => EventView::PortProbed { reachable: *reachable },
            Event::CandidateChecked { exists, has_descriptor, has_binary } => EventView::CandidateChecked {
                exists: *exists,
                has_descriptor: *has_descriptor,
                has_binary: *has_binary,
            },
            Event::PrerequisitesChecked { descriptor, entrypoint } => EventView::PrerequisitesChecked {
                descriptor: *descriptor,
                entrypoint: *entrypoint,
            },
            Event::BuildFinished { result } => EventView::BuildFinished {
                result: match result {
                    Ok(()) => Ok(()),
                    Err(e) => Err(e@),
                },
            },
            Event::Spawned { result } => EventView::Spawned {
                result: match result {
                    Ok(c) => Ok(*c),
                    Err(e) => Err(e@),
                },
            },
            Event::Terminated { result } => EventView::Terminated {
                result: match result {
                    Ok(()) => Ok(()),
                    Err((c, e)) => Err((*c, e@)),
                },
            },
            Event::Slept => EventView::Slept,
        }
    }
}

/// What the caller is to do next.
pub enum Action<H> {
    /// Probe the configured address with `PROBE_TIMEOUT_MS`; report `PortProbed`.
    ProbePort,
    /// Check the candidate directory at `index`; report `CandidateChecked`.
    CheckCandidate { index: usize },
    /// Check the build descriptor and entrypoint there; report `PrerequisitesChecked`.
    CheckPrerequisites { index: usize },
    /// Run the build command there; report `BuildFinished`.
    RunBuild { index: usize },
    /// Spawn the server there with the configured environment; report `Spawned`.
    Spawn { index: usize },
    /// Wait; report `Slept`.
    Sleep { millis: u64 },
    /// Kill the child and wait for its exit; report `Terminated`.
    Terminate { child: OwnedChild<H> },
    /// The operation is over; `announce`, when present, is a status-changed
    /// event for the shell.
    Finish { result: Result<(), SupervisorError>, announce: Option<ServerStatus> },
}

/// The content of an [`Action`].
pub enum ActionView<H> {
    ProbePort,
    CheckCandidate { index: usize },
    CheckPrerequisites { index: usize },
    RunBuild { index: usize },
    Spawn { index: usize },
    Sleep { millis: u64 },
    Terminate { child: OwnedChild<H> },
    Finish { result: Result<(), ErrorView>, announce: Option<ServerStatus> },
}

impl<H> View for Action<H> {
    type V = ActionView<H>;

    open spec fn view(&self) -> ActionView<H> {
        match self {
            Action::ProbePort => ActionView::ProbePort,
            Action::CheckCandidate { index } => ActionView::CheckCandidate { index: *index },
            Action::CheckPrerequisites { index } => ActionView::CheckPrerequisites { index: *index },
            Action::RunBuild { index } => ActionView::RunBuild { index: *index },
            Action::Spawn { index } => ActionView::Spawn { index: *index },
            Action::Sleep { millis } => ActionView::Sleep { millis: *millis },
            Action::Terminate { child } => ActionView::Terminate { child: *child },
            Action::Finish { result, announce } => ActionView::Finish {
                result: match result {
                    Ok(()) => Ok(()),
                    Err(e) => Err(e@),
                },
                announce: *announce,
            },
        }
    }
}

/// The supervisor's state: its phase and the child it owns, if any.
pub struct SupervisorView<H> {
    pub phase: PhaseView,
    pub child: Option<OwnedChild<H>>,
}

/// One step of the machine: the next state, the action for the caller and
/// the level of the log entry the step writes.
pub struct Transition<H> {
    pub state: SupervisorView<H>,
    pub action: ActionView<H>,
    pub level: LogLevel,
}

/// The operations a caller can begin.
#[derive(Clone, Copy, Debug, PartialEq, Eq, Structural)]
pub enum Command {
    Start,
    Stop,
    Restart,
}

/// No operation is in progress.
pub open spec fn is_idle(p: PhaseView) -> bool {
    p is Stopped || p is Running || p is Failed
}

/// A child is held exactly while the server runs under the supervisor's
/// ownership (or settles after its spawn); stage indices name candidates.
pub open spec fn wf_state<H>(cfg: ConfigView, s: SupervisorView<H>) -> bool {
    match s.phase {
        PhaseView::Running => true,
        PhaseView::Starting { stage } => match stage {
            StartStage::Settling => s.child is Some,
            StartStage::Confirming => s.child is Some,
            StartStage::Locating { index } => s.child is None && index < cfg.candidates.len(),
            StartStage::CheckingPrerequisites { index } => s.child is None && index < cfg.candidates.len(),
            StartStage::Building { index } => s.child is None && index < cfg.candidates.len(),
            StartStage::Spawning { index } => s.child is None && index < cfg.candidates.len(),
            _ => s.child is None,
        },
        _ => s.child is None,
    }
}

/// The event a phase waits for.
pub open spec fn expects<H>(p: PhaseView, e: EventView<H>) -> bool {
    match p {
        PhaseView::Stopping { .. } => e is Terminated,
        PhaseView::Starting { stage } => match stage {
            StartStage::Delaying => e is Slept,
            StartStage::Settling => e is Slept,
            StartStage::Probing => e is PortProbed,
            StartStage::Confirming => e is PortProbed,
            StartStage::Locating { .. } => e is CandidateChecked,
            StartStage::CheckingPrerequisites { .. } => e is PrerequisitesChecked,
            StartStage::Building { .. } => e is BuildFinished,
            StartStage::Spawning { .. } => e is Spawned,
        },
        _ => false,
    }
}

/// A step into `phase`, keeping or setting `child`.
pub open spec fn step_to<H>(
    phase: PhaseView,
    child: Option<OwnedChild<H>>,
    action: ActionView<H>,
    level: LogLevel,
) -> Transition<H> {
    Transition { state: SupervisorView { phase, child }, action, level }
}

/// A start that fails with `reason`.
pub open spec fn fail_with<H>(reason: ErrorView) -> Transition<H> {
    step_to(
        PhaseView::Failed { reason },
        None,
        ActionView::Finish { result: Err(reason), announce: None },
        LogLevel::Error,
    )
}

/// How an operation begins.
pub open spec fn begin_spec<H>(cfg: ConfigView, s: SupervisorView<H>, command: Command) -> Transition<H> {
    match command {
        Command::Start => match s.child {
            Some(_) => step_to(
                s.phase,
                s.child,
                ActionView::Finish { result: Err(ErrorView::AlreadyRunning), announce: None },
                LogLevel::Warning,
            ),
            None => step_to(
                PhaseView::Starting { stage: StartStage::Probing },
                None,
                ActionView::ProbePort,
                LogLevel::Info,
            ),
        },
        Command::Stop => match s.child {
            Some(c) => step_to(
                PhaseView::Stopping { then_start: false },
                None,
                ActionView::Terminate { child: c },
                LogLevel::Info,
            ),
            None => step_to(s.phase, None, ActionView::Finish { result: Ok(()), announce: None }, LogLevel::Debug),
        },
        Command::Restart => match s.child {
            Some(c) => step_to(
                PhaseView::Stopping { then_start: true },
                None,
                ActionView::Terminate { child: c },
                LogLevel::Info,
            ),
            None => step_to(
                PhaseView::Starting { stage: StartStage::Delaying },
                None,
                ActionView::Sleep { millis: RESTART_DELAY_MS },
                LogLevel::Debug,
            ),
        },
    }
}

/// How an operation in progress answers the event its phase waits for.
pub open spec fn next_spec<H>(cfg: ConfigView, s: SupervisorView<H>, e: EventView<H>) -> Transition<H> {
    match s.phase {
        PhaseView::Stopping { then_start } => match e {
            EventView::Terminated { result: Ok(()) } => if then_start {
                step_to(
                    PhaseView::Starting { stage: StartStage::Delaying },
                    None,
                    ActionView::Sleep { millis: RESTART_DELAY_MS },
                    LogLevel::Debug,
                )
            } else {
                step_to(PhaseView::Stopped, None, ActionView::Finish { result: Ok(()), announce: None }, LogLevel::Info)
            },
            EventView::Terminated { result: Err((c, cause)) } => step_to(
                PhaseView::Running,
                Some(c),
                ActionView::Finish { result: Err(ErrorView::StopFailed { cause }), announce: None },
                LogLevel::Error,
            ),
            _ => arbitrary(),
        },
        PhaseView::Starting { stage } => match (stage, e) {
            (StartStage::Delaying, EventView::Slept) => step_to(
                PhaseView::Starting { stage: StartStage::Probing },
                None,
                ActionView::ProbePort,
                LogLevel::Debug,
            ),
            (StartStage::Probing, EventView::PortProbed { reachable }) => if reachable {
                step_to(PhaseView::Running, None, ActionView::Finish { result: Ok(()), announce: None }, LogLevel::Info)
            } else if cfg.candidates.len() > 0 {
                step_to(
                    PhaseView::Starting { stage: StartStage::Locating { index: 0 } },
                    None,
                    ActionView::CheckCandidate { index: 0 },
                    LogLevel::Debug,
                )
            } else {
                fail_with(ErrorView::DirectoryNotFound { searched: cfg.candidates })
            },
            (StartStage::Locating { index }, EventView::CandidateChecked { exists, has_descriptor, has_binary }) =>
                if exists && has_binary {
                    step_to(
                        PhaseView::Starting { stage: StartStage::Spawning { index } },
                        None,
                        ActionView::Spawn { index },
                        LogLevel::Info,
                    )
                } else if exists && has_descriptor {
                    step_to(
                        PhaseView::Starting { stage: StartStage::CheckingPrerequisites { index } },
                        None,
                        ActionView::CheckPrerequisites { index },
                        LogLevel::Info,
                    )
                } else if index + 1 < cfg.candidates.len() {
                    step_to(
                        PhaseView::Starting { stage: StartStage::Locating { index: (index + 1) as usize } },
                        None,
                        ActionView::CheckCandidate { index: (index + 1) as usize },
                        LogLevel::Debug,
                    )
                } else {
                    fail_with(ErrorView::DirectoryNotFound { searched: cfg.candidates })
                },
            (StartStage::CheckingPrerequisites { index }, EventView::PrerequisitesChecked { descriptor, entrypoint }) =>
                if !descriptor {
                    fail_with(ErrorView::BuildPrerequisiteMissing {
                        file: join(cfg.candidates[index as int], cfg.descriptor_name),
                    })
                } else if !entrypoint {
                    fail_with(ErrorView::BuildPrerequisiteMissing {
                        file: join(cfg.candidates[index as int], cfg.entrypoint),
                    })
                } else {
                    step_to(
                        PhaseView::Starting { stage: StartStage::Building { index } },
                        None,
                        ActionView::RunBuild { index },
                        LogLevel::Debug,
                    )
                },
            (StartStage::Building { index }, EventView::BuildFinished { result }) => match result {
                Ok(()) => step_to(
                    PhaseView::Starting { stage: StartStage::Spawning { index } },
                    None,
                    ActionView::Spawn { index },
                    LogLevel::Info,
                ),
                Err(stderr) => fail_with(ErrorView::BuildFailed { stderr }),
            },
            (StartStage::Spawning { index }, EventView::Spawned { result }) => match result {
                Ok(c) => step_to(
                    PhaseView::Starting { stage: StartStage::Settling },
                    Some(c),
                    ActionView::Sleep { millis: SETTLE_DELAY_MS },
                    LogLevel::Info,
                ),
                Err(cause) => fail_with(ErrorView::SpawnFailed { cause }),
            },
            (StartStage::Settling, EventView::Slept) => step_to(
                PhaseView::Starting { stage: StartStage::Confirming },
                s.child,
                ActionView::ProbePort,
                LogLevel::Debug,
            ),
            (StartStage::Confirming, EventView::PortProbed { reachable }) => step_to(
                PhaseView::Running,
                s.child,
                ActionView::Finish {
                    result: Ok(()),
                    announce: Some(ServerStatus { running: true, port: cfg.port, pid: Some(s.child->0.pid) }),
                },
                if reachable { LogLevel::Info } else { LogLevel::Warning },
            ),
            _ => arbitrary(),
        },
        _ => arbitrary(),
    }
}

/// The process id of the child owned in state `s`, if any.
pub open spec fn owned_pid<H>(s: SupervisorView<H>) -> Option<u32> {
    match s.child {
        Some(c) => Some(c.pid),
        None => None,
    }
}

/// The status reported for state `s` when the probe of the port found it
/// `reachable`.
pub open spec fn status_of<H>(cfg: ConfigView, s: SupervisorView<H>, reachable: bool) -> ServerStatus {
    ServerStatus { running: reachable, port: cfg.port, pid: owned_pid(s) }
}

/// Supervises at most one server process.
pub struct Supervisor<H> {
    config: ServerConfig,
    phase: Phase,
    child: Option<OwnedChild<H>>,
}

impl<H> View for Supervisor<H> {
    type V = SupervisorView<H>;

    closed spec fn view(&self) -> SupervisorView<H> {
        SupervisorView { phase: self.phase@, child: self.child }
    }
}

/// The machine took step `t`: it is now in `t.state`, asked for `t.action`
/// and wrote one log entry of level `t.level`.
pub open spec fn stepped<H>(
    t: Transition<H>,
    state: SupervisorView<H>,
    action: ActionView<H>,
    log_before: LogBuffer,
    log_after: LogBuffer,
) -> bool {
    &&& state == t.state
    &&& action == t.action
    &&& logged_one(log_before, log_after, t.level)
}

fn note(log: &mut LogBuffer, level: LogLevel, message: &str)
    requires
        old(log).wf(),
    ensures
        logged_one(*old(log), *final(log), level),
{
    log.append(level, String::from_str(message));
}

fn note_with(log: &mut LogBuffer, level: LogLevel, message: &str, detail: &str)
    requires
        old(log).wf(),
    ensures
        logged_one(*old(log), *final(log), level),
{
    let mut text = String::from_str(message);
    text.append(detail);
    log.append(level, text);
}

impl SupervisorError {
    /// A copy of the error with the same content.
    pub fn duplicate(&self) -> (r: SupervisorError)
        ensures
            r@ == self@,
    {
        match self {
            SupervisorError::AlreadyRunning => SupervisorError::AlreadyRunning,
            SupervisorError::DirectoryNotFound { searched } => SupervisorError::DirectoryNotFound {
                searched: copy_strings(searched),
            },
            SupervisorError::BuildPrerequisiteMissing { file } => SupervisorError::BuildPrerequisiteMissing {
                file: file.clone(),
            },
            SupervisorError::BuildFailed { stderr } => SupervisorError::BuildFailed { stderr: stderr.clone() },
            SupervisorError::SpawnFailed { cause } => SupervisorError::SpawnFailed { cause: cause.clone() },
            SupervisorError::StopFailed { cause } => SupervisorError::StopFailed { cause: cause.clone() },
        }
    }
}

impl<H> Supervisor<H> {
    /// The configuration the supervisor runs the server with.
    pub closed spec fn config_view(&self) -> ConfigView {
        self.config@
    }

    /// The state is consistent with the configuration.
    pub open spec fn wf(&self) -> bool {
        wf_state(self.config_view(), self@)
    }

    /// A stopped supervisor owning no child.
    pub fn new(config: ServerConfig) -> (r: Supervisor<H>)
        ensures
            r.wf(),
            r.config_view() == config@,
            r@.phase is Stopped,
            r@.child is None,
    {
        Supervisor { config, phase: Phase::Stopped, child: None }
    }

    /// The configuration.
    pub fn config(&self) -> (r: &ServerConfig)
        ensures
            r@ == self.config_view(),
    {
        &self.config
    }

    /// No operation is in progress.
    pub fn is_idle(&self) -> (r: bool)
        ensures
            r == is_idle(self@.phase),
    {
        match self.phase {
            Phase::Stopped => true,
            Phase::Running => true,
            Phase::Failed { .. } => true,
            _ => false,
        }
    }

    /// The process id of the child the supervisor owns, if any.
    pub fn pid(&self) -> (r: Option<u32>)
        ensures
            r == owned_pid(self@),
    {
        match &self.child {
            Some(c) => Some(c.pid),
            None => None,
        }
    }

    /// The status snapshot, given whether a fresh probe of the port found it
    /// reachable: `pid` is present only for a child the supervisor owns.
    /// Taken only between operations, never mid-transition.
    pub fn status(&self, reachable: bool) -> (r: ServerStatus)
        requires
            is_idle(self@.phase),
        ensures
            r == status_of(self.config_view(), self@, reachable),
    {
        ServerStatus { running: reachable, port: self.config.port(), pid: self.pid() }
    }

    /// `http://{host}:{port}`.
    pub fn url(&self) -> (r: String)
        ensures
            r@ == url_of(self.config_view().host, self.config_view().port),
    {
        self.config.url()
    }

    /// Begins a start: refused with `AlreadyRunning`, and no change, when a
    /// child is owned; otherwise asks for a probe of the port.
    pub fn start(&mut self, log: &mut LogBuffer) -> (r: Action<H>)
        requires
            old(self).wf(),
            is_idle(old(self)@.phase),
            old(log).wf(),
        ensures
            final(self).wf(),
            final(self).config_view() == old(self).config_view(),
            stepped(
                begin_spec(old(self).config_view(), old(self)@, Command::Start),
                final(self)@,
                r@,
                *old(log),
                *final(log),
            ),
    {
        self.begin(Command::Start, log)
    }

    /// Begins a stop: hands the owned child out for termination, or, when
    /// none is owned, finishes at once with success and no change.
    pub fn stop(&mut self, log: &mut LogBuffer) -> (r: Action<H>)
        requires
            old(self).wf(),
            is_idle(old(self)@.phase),
            old(log).wf(),
        ensures
            final(self).wf(),
            final(self).config_view() == old(self).config_view(),
            stepped(
                begin_spec(old(self).config_view(), old(self)@, Command::Stop),
                final(self)@,
                r@,
                *old(log),
                *final(log),
            ),
    {
        self.begin(Command::Stop, log)
    }

    /// Begins a restart: a stop, the restart pause, then a start, all as one
    /// operation.
    pub fn restart(&mut self, log: &mut LogBuffer) -> (r: Action<H>)
        requires
            old(self).wf(),
            is_idle(old(self)@.phase),
            old(log).wf(),
        ensures
            final(self).wf(),
            final(self).config_view() == old(self).config_view(),
            stepped(
                begin_spec(old(self).config_view(), old(self)@, Command::Restart),
                final(self)@,
                r@,
                *old(log),
                *final(log),
            ),
    {
        self.begin(Command::Restart, log)
    }

    /// Begins `command`.
    pub fn begin(&mut self, command: Command, log: &mut LogBuffer) -> (r: Action<H>)
        requires
            old(self).wf(),
            is_idle(old(self)@.phase),
            old(log).wf(),
        ensures
            final(self).wf(),
            final(self).config_view() == old(self).config_view(),
            stepped(
                begin_spec(old(self).config_view(), old(self)@, command),
                final(self)@,
                r@,
                *old(log),
                *final(log),
            ),
    {
        match command {
            Command::Start => {
                if self.child.is_some() {
                    note(log, LogLevel::Warning, "Attempt to start server when already running");
                    Action::Finish { result: Err(SupervisorError::AlreadyRunning), announce: None }
                } else {
                    note(log, LogLevel::Info, "Starting server: checking whether the port is already served");
                    self.phase = Phase::Starting { stage: StartStage::Probing };
                    Action::ProbePort
                }
            },
            Command::Stop => match self.child.take() {
                Some(c) => {
                    note(log, LogLevel::Info, "Stopping server");
                    self.phase = Phase::Stopping { then_start: false };
                    Action::Terminate { child: c }
                },
                None => {
                    note(log, LogLevel::Debug, "Server already stopped");
                    Action::Finish { result: Ok(()), announce: None }
                },
            },
            Command::Restart => match self.child.take() {
                Some(c) => {
                    note(log, LogLevel::Info, "Restarting server: stopping it first");
                    self.phase = Phase::Stopping { then_start: true };
                    Action::Terminate { child: c }
                },
                None => {
                    note(log, LogLevel::Debug, "Restarting server: nothing to stop, pausing before start");
                    self.phase = Phase::Starting { stage: StartStage::Delaying };
                    Action::Sleep { millis: RESTART_DELAY_MS }
                },
            },
        }
    }

    /// Ends a start with `reason`.
    fn fail(&mut self, reason: SupervisorError) -> (r: Action<H>)
        ensures
            final(self).config_view() == old(self).config_view(),
            final(self)@ == fail_with::<H>(reason@).state,
            r@ == fail_with::<H>(reason@).action,
    {
        let copy = reason.duplicate();
        self.phase = Phase::Failed { reason };
        self.child = None;
        Action::Finish { result: Err(copy), announce: None }
    }

    /// Answers the event the current operation waits for with the next
    /// action.
    pub fn advance(&mut self, event: Event<H>, log: &mut LogBuffer) -> (r: Action<H>)
        requires
            old(self).wf(),
            expects(old(self)@.phase, event@),
            old(log).wf(),
        ensures
            final(self).wf(),
            final(self).config_view() == old(self).config_view(),
            stepped(
                next_spec(old(self).config_view(), old(self)@, event@),
                final(self)@,
                r@,
                *old(log),
                *final(log),
            ),
    {
        let stage = match &self.phase {
            Phase::Stopping { then_start } => {
                let then_start = *then_start;
                return self.finish_stop(then_start, event, log);
            },
            Phase::Starting { stage } => *stage,
            _ => {
                proof {
                    assert(false);
                }
                return Action::ProbePort;
            },
        };
        match event {
            Event::Slept => {
                match stage {
                    StartStage::Delaying => {
                        note(log, LogLevel::Debug, "Restart pause over");
                        self.phase = Phase::Starting { stage: StartStage::Probing };
                        Action::ProbePort
                    },
                    _ => {
                        note(log, LogLevel::Debug, "Settle interval over; checking readiness");
                        self.phase = Phase::Starting { stage: StartStage::Confirming };
                        Action::ProbePort
                    },
                }
            },
            Event::PortProbed { reachable } => {
                match stage {
                    StartStage::Probing => {
                        if reachable {
                            note(log, LogLevel::Info, "Server already running on the port; not starting another");
                            self.phase = Phase::Running;
                            Action::Finish { result: Ok(()), announce: None }
                        } else if self.config.candidate_count() > 0 {
                            note(log, LogLevel::Debug, "Looking for the server directory");
                            self.phase = Phase::Starting { stage: StartStage::Locating { index: 0 } };
                            Action::CheckCandidate { index: 0 }
                        } else {
                            note(log, LogLevel::Error, "Server directory not found: no candidates");
                            self.fail(SupervisorError::DirectoryNotFound { searched: self.config.candidates() })
                        }
                    },
                    _ => {
                        let pid: u32 = match &self.child {
                            Some(c) => c.pid,
                            None => 0,
                        };
                        if reachable {
                            note(log, LogLevel::Info, "Server started and is responding");
                        } else {
                            note(log, LogLevel::Warning, "Server process started but not responding on the port");
                        }
                        self.phase = Phase::Running;
                        Action::Finish {
                            result: Ok(()),
                            announce: Some(ServerStatus { running: true, port: self.config.port(), pid: Some(pid) }),
                        }
                    },
                }
            },
            Event::CandidateChecked { exists, has_descriptor, has_binary } => {
                let index = match stage {
                    StartStage::Locating { index } => index,
                    _ => {
                        proof {
                            assert(false);
                        }
                        0
                    },
                };
                let count = self.config.candidate_count();
                if exists && has_binary {
                    note_with(log, LogLevel::Info, "Found server executable in ", self.config.candidate(index));
                    self.phase = Phase::Starting { stage: StartStage::Spawning { index } };
                    Action::Spawn { index }
                } else if exists && has_descriptor {
                    note_with(log, LogLevel::Info, "Found server source, building it in ", self.config.candidate(index));
                    self.phase = Phase::Starting { stage: StartStage::CheckingPrerequisites { index } };
                    Action::CheckPrerequisites { index }
                } else if index + 1 < count {
                    note_with(log, LogLevel::Debug, "No server in ", self.config.candidate(index));
                    self.phase = Phase::Starting { stage: StartStage::Locating { index: index + 1 } };
                    Action::CheckCandidate { index: index + 1 }
                } else {
                    note(log, LogLevel::Error, "Server directory not found in any candidate");
                    self.fail(SupervisorError::DirectoryNotFound { searched: self.config.candidates() })
                }
            },
            Event::PrerequisitesChecked { descriptor, entrypoint } => {
                let index = match stage {
                    StartStage::CheckingPrerequisites { index } => index,
                    _ => {
                        proof {
                            assert(false);
                        }
                        0
                    },
                };
                if !descriptor {
                    let file = self.config.descriptor_path(index);
                    note_with(log, LogLevel::Error, "Build descriptor missing: ", file.as_str());
                    self.fail(SupervisorError::BuildPrerequisiteMissing { file })
                } else if !entrypoint {
                    let file = self.config.entrypoint_path(index);
                    note_with(log, LogLevel::Error, "Build entrypoint missing: ", file.as_str());
                    self.fail(SupervisorError::BuildPrerequisiteMissing { file })
                } else {
                    note(log, LogLevel::Debug, "Running the build command");
                    self.phase = Phase::Starting { stage: StartStage::Building { index } };
                    Action::RunBuild { index }
                }
            },
            Event::BuildFinished { result } => {
                let index = match stage {
                    StartStage::Building { index } => index,
                    _ => {
                        proof {
                            assert(false);
                        }
                        0
                    },
                };
                match result {
                    Ok(()) => {
                        note(log, LogLevel::Info, "Server binary built successfully");
                        self.phase = Phase::Starting { stage: StartStage::Spawning { index } };
                        Action::Spawn { index }
                    },
                    Err(stderr) => {
                        note_with(log, LogLevel::Error, "Server build failed: ", stderr.as_str());
                        self.fail(SupervisorError::BuildFailed { stderr })
                    },
                }
            },
            Event::Spawned { result } => {
                match result {
                    Ok(c) => {
                        note(log, LogLevel::Info, "Server process spawned; waiting for it to initialise");
                        self.child = Some(c);
                        self.phase = Phase::Starting { stage: StartStage::Settling };
                        Action::Sleep { millis: SETTLE_DELAY_MS }
                    },
                    Err(cause) => {
                        note_with(log, LogLevel::Error, "Failed to spawn the server: ", cause.as_str());
                        self.fail(SupervisorError::SpawnFailed { cause })
                    },
                }
            },
            Event::Terminated { .. } => {
                proof {
                    assert(false);
                }
                Action::ProbePort
            },
        }
    }

    /// The answer of a stop (or of the stop half of a restart) to the
    /// termination of the child.
    fn finish_stop(&mut self, then_start: bool, event: Event<H>, log: &mut LogBuffer) -> (r: Action<H>)
        requires
            old(self).wf(),
            old(self)@.phase == (PhaseView::Stopping { then_start }),
            expects(old(self)@.phase, event@),
            old(log).wf(),
        ensures
            final(self).wf(),
            final(self).config_view() == old(self).config_view(),
            stepped(
                next_spec(old(self).config_view(), old(self)@, event@),
                final(self)@,
                r@,
                *old(log),
                *final(log),
            ),
    {
        match event {
            Event::Terminated { result } => match result {
                Ok(()) => {
                    if then_start {
                        note(log, LogLevel::Debug, "Server stopped; pausing before start");
                        self.phase = Phase::Starting { stage: StartStage::Delaying };
                        Action::Sleep { millis: RESTART_DELAY_MS }
                    } else {
                        note(log, LogLevel::Info, "Server stopped");
                        self.phase = Phase::Stopped;
                        Action::Finish { result: Ok(()), announce: None }
                    }
                },
                Err((c, cause)) => {
                    note_with(log, LogLevel::Error, "Failed to stop server: ", cause.as_str());
                    self.child = Some(c);
                    self.phase = Phase::Running;
                    Action::Finish { result: Err(SupervisorError::StopFailed { cause }), announce: None }
                },
            },
            _ => {
                proof {
                    assert(false);
                }
                Action::ProbePort
            },
        }
    }
}

} // verus!
