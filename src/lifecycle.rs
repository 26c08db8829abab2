//! Properties of the supervisor over whole sequences of operations.
//!
//! A caller begins an operation only when none is in progress and then
//! feeds it the events it waits for; [`run`] follows the machine through
//! such a sequence of inputs.

use vstd::prelude::*;
use crate::config::ConfigView;
use crate::text::join;
use crate::log_buffer::LogLevel;
use crate::supervisor::{
    ActionView, Command, ErrorView, EventView, OwnedChild, PhaseView, ServerStatus, StartStage, SupervisorView,
    Transition, begin_spec, expects, is_idle, next_spec, status_of, wf_state,
};

verus! {

/// One input to the machine: an operation begun, or an event fed to the
/// operation in progress.
pub enum Input<H> {
    Begin { command: Command },
    Feed { event: EventView<H> },
}

/// The step the machine takes on input `i` in state `s`.
pub open spec fn apply<H>(cfg: ConfigView, s: SupervisorView<H>, i: Input<H>) -> Transition<H> {
    match i {
        Input::Begin { command } => begin_spec(cfg, s, command),
        Input::Feed { event } => next_spec(cfg, s, event),
    }
}

/// An operation begins only when none is in progress; an event comes only
/// when the operation in progress waits for one of its kind.
pub open spec fn admissible<H>(s: SupervisorView<H>, i: Input<H>) -> bool {
    match i {
        Input::Begin { .. } => is_idle(s.phase),
        Input::Feed { event } => expects(s.phase, event),
    }
}

/// The state after the inputs, in order.
pub open spec fn run<H>(cfg: ConfigView, s: SupervisorView<H>, inputs: Seq<Input<H>>) -> SupervisorView<H>
    decreases inputs.len(),
{
    if inputs.len() == 0 {
        s
    } else {
        run(cfg, apply(cfg, s, inputs[0]).state, inputs.drop_first())
    }
}

/// Every input of the sequence is admissible where it comes.
pub open spec fn admissible_run<H>(cfg: ConfigView, s: SupervisorView<H>, inputs: Seq<Input<H>>) -> bool
    decreases inputs.len(),
{
    inputs.len() == 0 || (admissible(s, inputs[0]) && admissible_run(
        cfg,
        apply(cfg, s, inputs[0]).state,
        inputs.drop_first(),
    ))
}

/// The input reports a successful spawn.
pub open spec fn is_spawn<H>(i: Input<H>) -> bool {
    i matches Input::Feed { event: EventView::Spawned { result: Ok(_) } }
}

/// The input reports a confirmed termination.
pub open spec fn is_reap<H>(i: Input<H>) -> bool {
    i matches Input::Feed { event: EventView::Terminated { result: Ok(()) } }
}

/// Number of successful spawns reported in the inputs.
pub open spec fn spawned<H>(inputs: Seq<Input<H>>) -> int
    decreases inputs.len(),
{
    if inputs.len() == 0 {
        0
    } else {
        (if is_spawn(inputs[0]) { 1int } else { 0int }) + spawned(inputs.drop_first())
    }
}

/// Number of confirmed terminations reported in the inputs.
pub open spec fn reaped<H>(inputs: Seq<Input<H>>) -> int
    decreases inputs.len(),
{
    if inputs.len() == 0 {
        0
    } else {
        (if is_reap(inputs[0]) { 1int } else { 0int }) + reaped(inputs.drop_first())
    }
}

/// Children spawned by the supervisor and not yet confirmed gone: the one it
/// owns, and the one a stop has handed out for termination.
pub open spec fn live_children<H>(s: SupervisorView<H>) -> int {
    (if s.child is Some { 1int } else { 0int }) + (if s.phase is Stopping { 1int } else { 0int })
}

/// One step keeps the state consistent and accounts for every child.
pub proof fn lemma_step_accounts_children<H>(cfg: ConfigView, s: SupervisorView<H>, i: Input<H>)
    requires
        wf_state(cfg, s),
        admissible(s, i),
    ensures
        wf_state(cfg, apply(cfg, s, i).state),
        live_children(apply(cfg, s, i).state) == live_children(s) + (if is_spawn(i) { 1int } else { 0int })
            - (if is_reap(i) { 1int } else { 0int }),
        live_children(apply(cfg, s, i).state) <= 1,
{
}

/// At most one live child: over any sequence of operations, however
/// callers interleave them, the children spawned and not yet confirmed gone
/// never number more than one, and the supervisor's count of them matches
/// the spawns and terminations reported.
pub proof fn lemma_at_most_one_child<H>(cfg: ConfigView, s: SupervisorView<H>, inputs: Seq<Input<H>>)
    requires
        wf_state(cfg, s),
        admissible_run(cfg, s, inputs),
    ensures
        wf_state(cfg, run(cfg, s, inputs)),
        live_children(run(cfg, s, inputs)) == live_children(s) + spawned(inputs) - reaped(inputs),
        live_children(run(cfg, s, inputs)) <= 1,
    decreases inputs.len(),
{
    if inputs.len() == 0 {
        assert(live_children(s) <= 1);
    } else {
        lemma_step_accounts_children(cfg, s, inputs[0]);
        lemma_at_most_one_child(cfg, apply(cfg, s, inputs[0]).state, inputs.drop_first());
    }
}

/// Starts spawn at most once: over any sequence of operations in which no
/// termination is confirmed (concurrent starts, serialized by the caller's
/// lock, for one), at most one child is spawned, and none while a child is
/// already owned.
pub proof fn lemma_single_spawn<H>(cfg: ConfigView, s: SupervisorView<H>, inputs: Seq<Input<H>>)
    requires
        wf_state(cfg, s),
        admissible_run(cfg, s, inputs),
        reaped(inputs) == 0,
    ensures
        spawned(inputs) <= 1,
        s.child is Some ==> spawned(inputs) == 0,
{
    lemma_at_most_one_child(cfg, s, inputs);
    lemma_counts_nonnegative(inputs);
}

/// Counts are never negative.
pub proof fn lemma_counts_nonnegative<H>(inputs: Seq<Input<H>>)
    ensures
        spawned(inputs) >= 0,
        reaped(inputs) >= 0,
    decreases inputs.len(),
{
    if inputs.len() > 0 {
        lemma_counts_nonnegative(inputs.drop_first());
    }
}

/// `n` attempts of `command` in a row.
pub open spec fn repeated<H>(command: Command, n: nat) -> Seq<Input<H>> {
    Seq::new(n, |k: int| Input::Begin { command })
}

/// A second start is refused: while the supervisor owns a child, a start
/// returns `AlreadyRunning` and changes nothing, any number of times in a
/// row.
pub proof fn lemma_start_refused_while_owned<H>(cfg: ConfigView, s: SupervisorView<H>, n: nat)
    requires
        wf_state(cfg, s),
        is_idle(s.phase),
        s.child is Some,
    ensures
        apply(cfg, s, Input::Begin { command: Command::Start }) == (Transition {
            state: s,
            action: ActionView::Finish { result: Err(ErrorView::AlreadyRunning), announce: None },
            level: LogLevel::Warning,
        }),
        admissible_run(cfg, s, repeated::<H>(Command::Start, n)),
        run(cfg, s, repeated::<H>(Command::Start, n)) == s,
    decreases n,
{
    if n > 0 {
        lemma_start_refused_while_owned(cfg, s, (n - 1) as nat);
        assert(repeated::<H>(Command::Start, n).drop_first() =~= repeated::<H>(Command::Start, (n - 1) as nat));
    }
}

/// Stop is idempotent: with no child owned, a stop succeeds at once and
/// changes nothing, any number of times in a row.
pub proof fn lemma_stop_idempotent<H>(cfg: ConfigView, s: SupervisorView<H>, n: nat)
    requires
        wf_state(cfg, s),
        is_idle(s.phase),
        s.child is None,
    ensures
        apply(cfg, s, Input::Begin { command: Command::Stop }).state == s,
        apply(cfg, s, Input::Begin { command: Command::Stop }).action == (ActionView::<H>::Finish {
            result: Ok(()),
            announce: None,
        }),
        admissible_run(cfg, s, repeated::<H>(Command::Stop, n)),
        run(cfg, s, repeated::<H>(Command::Stop, n)) == s,
    decreases n,
{
    if n > 0 {
        lemma_stop_idempotent(cfg, s, (n - 1) as nat);
        assert(repeated::<H>(Command::Stop, n).drop_first() =~= repeated::<H>(Command::Stop, (n - 1) as nat));
    }
}

/// Operations are atomic: a step leaves the supervisor idle exactly when it
/// finishes the operation, so between the stop and the start of a restart
/// no other operation (a start in particular) can begin.
pub proof fn lemma_operation_atomic<H>(cfg: ConfigView, s: SupervisorView<H>, i: Input<H>)
    requires
        wf_state(cfg, s),
        admissible(s, i),
    ensures
        apply(cfg, s, i).action is Finish <==> is_idle(apply(cfg, s, i).state.phase),
{
}

/// A restart that finds a child hands it out for termination and starts no
/// new one before that termination is confirmed.
pub proof fn lemma_restart_stops_first<H>(cfg: ConfigView, s: SupervisorView<H>)
    requires
        wf_state(cfg, s),
        is_idle(s.phase),
        s.child is Some,
    ensures
        apply(cfg, s, Input::Begin { command: Command::Restart }).state == (SupervisorView::<H> {
            phase: PhaseView::Stopping { then_start: true },
            child: None,
        }),
        apply(cfg, s, Input::Begin { command: Command::Restart }).action == (ActionView::Terminate {
            child: s.child->0,
        }),
{
}

/// The report that the candidate under check exists and holds the build
/// descriptor and the executable as given.
pub open spec fn checked<H>(has_descriptor: bool, has_binary: bool) -> Input<H> {
    Input::Feed { event: EventView::CandidateChecked { exists: true, has_descriptor, has_binary } }
}

/// A located directory that holds the executable is run as it is: the
/// server is spawned there without a build, the spawned child is owned,
/// and once the readiness probe answers the supervisor reports it running
/// with that child's pid and announces the same status.
pub proof fn lemma_prebuilt_binary_spawned<H>(
    cfg: ConfigView,
    index: usize,
    has_descriptor: bool,
    child: OwnedChild<H>,
    ready: bool,
)
    requires
        index < cfg.candidates.len(),
    ensures
        ({
            let s0 = SupervisorView::<H> {
                phase: PhaseView::Starting { stage: StartStage::Locating { index } },
                child: None,
            };
            let t1 = apply(cfg, s0, checked::<H>(has_descriptor, true));
            let t2 = apply(cfg, t1.state, Input::Feed { event: EventView::Spawned { result: Ok(child) } });
            let t3 = apply(cfg, t2.state, Input::Feed { event: EventView::Slept });
            let t4 = apply(cfg, t3.state, Input::Feed { event: EventView::PortProbed { reachable: ready } });
            &&& admissible(s0, checked::<H>(has_descriptor, true))
            &&& t1.action == ActionView::<H>::Spawn { index }
            &&& admissible(t1.state, Input::Feed { event: EventView::Spawned { result: Ok(child) } })
            &&& t2.state.child == Some(child)
            &&& admissible(t2.state, Input::Feed { event: EventView::Slept })
            &&& admissible(t3.state, Input::Feed { event: EventView::PortProbed { reachable: ready } })
            &&& t4.state == (SupervisorView::<H> { phase: PhaseView::Running, child: Some(child) })
            &&& t4.action == ActionView::<H>::Finish {
                result: Ok(()),
                announce: Some(ServerStatus { running: true, port: cfg.port, pid: Some(child.pid) }),
            }
            &&& status_of(cfg, t4.state, true) == (ServerStatus { running: true, port: cfg.port, pid: Some(child.pid) })
        }),
{
}

/// A missing entrypoint blocks the build: when the located directory holds
/// the build descriptor but no executable, and the entrypoint is missing,
/// the start fails naming the entrypoint's path, with no build run, no
/// spawn and no child owned.
pub proof fn lemma_missing_entrypoint_blocks_build<H>(cfg: ConfigView, index: usize)
    requires
        index < cfg.candidates.len(),
    ensures
        ({
            let s0 = SupervisorView::<H> {
                phase: PhaseView::Starting { stage: StartStage::Locating { index } },
                child: None,
            };
            let t1 = apply(cfg, s0, checked::<H>(true, false));
            let e2 = Input::<H>::Feed { event: EventView::PrerequisitesChecked { descriptor: true, entrypoint: false } };
            let t2 = apply(cfg, t1.state, e2);
            let reason = ErrorView::BuildPrerequisiteMissing { file: join(cfg.candidates[index as int], cfg.entrypoint) };
            &&& admissible(s0, checked::<H>(true, false))
            &&& t1.action == ActionView::<H>::CheckPrerequisites { index }
            &&& admissible(t1.state, e2)
            &&& t2.action == ActionView::<H>::Finish { result: Err(reason), announce: None }
            &&& t2.state == (SupervisorView::<H> { phase: PhaseView::Failed { reason }, child: None })
        }),
{
}

} // verus!
