//! The lifecycle of a script's worker: the decisions of the caller side
//! (spawn on first use, tear down on kill) and of the worker thread (build
//! the context lazily, serve requests, exit on kill). The thread and the
//! rendezvous channel themselves are driven by the embedding program.

use vstd::prelude::*;
use crate::executor::{ExecutionStatus, ExecutorError};

verus! {

/// The caller side of a script's worker.
#[derive(Clone, Copy, Debug, PartialEq, Eq, Structural)]
pub enum ActorState {
    /// No worker thread; the next call spawns one.
    Uninitialized,
    /// A worker thread is running and keeps the script's context.
    Ready,
}

/// What the caller does for one call of `execute`.
#[derive(Clone, Copy, Debug, PartialEq, Eq, Structural)]
pub struct ExecuteStep {
    /// Spawn a fresh worker before sending the request.
    pub spawn: bool,
    pub next: ActorState,
}

/// What the caller does for `kill`.
#[derive(Clone, Copy, Debug, PartialEq, Eq, Structural)]
pub struct KillStep {
    /// Send the worker the signal to exit.
    pub send_kill: bool,
    pub next: ActorState,
}

pub open spec fn spec_execute_step(s: ActorState) -> ExecuteStep {
    ExecuteStep { spawn: s == ActorState::Uninitialized, next: ActorState::Ready }
}

pub open spec fn spec_kill_step(s: ActorState) -> KillStep {
    KillStep { send_kill: s == ActorState::Ready, next: ActorState::Uninitialized }
}

impl ActorState {
    pub fn execute_step(self) -> (r: ExecuteStep)
        ensures
            r == spec_execute_step(self),
    {
        match self {
            ActorState::Uninitialized => ExecuteStep { spawn: true, next: ActorState::Ready },
            ActorState::Ready => ExecuteStep { spawn: false, next: ActorState::Ready },
        }
    }

    pub fn kill_step(self) -> (r: KillStep)
        ensures
            r == spec_kill_step(self),
    {
        match self {
            ActorState::Uninitialized => KillStep {
                send_kill: false,
                next: ActorState::Uninitialized,
            },
            ActorState::Ready => KillStep { send_kill: true, next: ActorState::Uninitialized },
        }
    }
}

/// A call on a script's worker, as the caller sees it.
#[derive(Clone, Copy, Debug, PartialEq, Eq, Structural)]
pub enum ActorEvent {
    Execute,
    Kill,
}

/// The caller state after a sequence of calls.
pub open spec fn actor_after(s: ActorState, evs: Seq<ActorEvent>) -> ActorState
    decreases evs.len(),
{
    if evs.len() == 0 {
        s
    } else {
        let t = actor_after(s, evs.drop_last());
        match evs.last() {
            ActorEvent::Execute => spec_execute_step(t).next,
            ActorEvent::Kill => spec_kill_step(t).next,
        }
    }
}

/// How many workers a sequence of calls spawns.
pub open spec fn spawns(s: ActorState, evs: Seq<ActorEvent>) -> nat
    decreases evs.len(),
{
    if evs.len() == 0 {
        0
    } else {
        let t = actor_after(s, evs.drop_last());
        let n = spawns(s, evs.drop_last());
        match evs.last() {
            ActorEvent::Execute => if spec_execute_step(t).spawn {
                n + 1
            } else {
                n
            },
            ActorEvent::Kill => n,
        }
    }
}

/// A message on a worker's channel.
#[derive(Debug)]
pub enum ExecutorJob {
    Request((String, Option<String>)),
    Responce(Result<ExecutionStatus, ExecutorError>),
    Kill,
}

/// What a worker does with the message it received.
#[derive(Clone, Copy, Debug, PartialEq, Eq, Structural)]
pub enum WorkerAction {
    /// Build the script's context, then serve the request if that worked.
    Construct,
    /// Serve the request in the context it already has.
    Run,
    /// A response is not meant for the worker: wait for the next message.
    Ignore,
    /// Leave the loop; the context goes with the thread.
    Exit,
}

pub open spec fn spec_worker_action(has_context: bool, job: ExecutorJob) -> WorkerAction {
    match job {
        ExecutorJob::Request(_) => if has_context {
            WorkerAction::Run
        } else {
            WorkerAction::Construct
        },
        ExecutorJob::Responce(_) => WorkerAction::Ignore,
        ExecutorJob::Kill => WorkerAction::Exit,
    }
}

/// The worker's decision for one message.
pub fn worker_action(has_context: bool, job: &ExecutorJob) -> (r: WorkerAction)
    ensures
        r == spec_worker_action(has_context, *job),
{
    match job {
        ExecutorJob::Request(_) => if has_context {
            WorkerAction::Run
        } else {
            WorkerAction::Construct
        },
        ExecutorJob::Responce(_) => WorkerAction::Ignore,
        ExecutorJob::Kill => WorkerAction::Exit,
    }
}

/// After an attempt to build the context: whether the worker now has one,
/// and the reply to send at once when it has not. A failed attempt leaves
/// the worker usable; the next request tries again.
pub fn after_construct(built: Result<(), ExecutorError>) -> (r: (
    bool,
    Option<Result<ExecutionStatus, ExecutorError>>,
))
    ensures
        match built {
            Ok(()) => r.0 && r.1 is None,
            Err(e) => !r.0 && r.1 == Some(Err::<ExecutionStatus, ExecutorError>(e)),
        },
{
    match built {
        Ok(()) => (true, None),
        Err(e) => (false, Some(Err(e))),
    }
}

/// Why a call on a worker failed.
#[derive(Debug)]
pub enum CallError {
    /// The script itself failed.
    Script(ExecutorError),
    /// The channel is closed: the worker is gone, which is a defect of the
    /// engine rather than of the script.
    Disconnected,
    /// The worker answered with something other than a response.
    UnexpectedMessage,
}

/// The outcome of a call from what came back on the channel (`None` when
/// it was disconnected).
pub fn read_reply(reply: Option<ExecutorJob>) -> (r: Result<ExecutionStatus, CallError>)
    ensures
        match reply {
            None => r matches Err(CallError::Disconnected),
            Some(ExecutorJob::Responce(Ok(s))) => r == Ok::<ExecutionStatus, CallError>(s),
            Some(ExecutorJob::Responce(Err(e))) => r == Err::<ExecutionStatus, CallError>(
                CallError::Script(e),
            ),
            Some(_) => r matches Err(CallError::UnexpectedMessage),
        },
{
    match reply {
        None => Err(CallError::Disconnected),
        Some(ExecutorJob::Responce(Ok(s))) => Ok(s),
        Some(ExecutorJob::Responce(Err(e))) => Err(CallError::Script(e)),
        Some(_) => Err(CallError::UnexpectedMessage),
    }
}

/// `n` calls of `execute` in a row.
pub open spec fn executes(n: nat) -> Seq<ActorEvent> {
    Seq::new(n, |i: int| ActorEvent::Execute)
}

/// Calls made one after another reach one worker: of any number of calls
/// on a fresh script, only the first spawns a worker, and the worker keeps
/// its context between requests, so the script's top-level state carries
/// over from each call to the next.
pub proof fn lemma_state_persists(n: nat, request: (String, Option<String>))
    requires
        n >= 1,
    ensures
        spawns(ActorState::Uninitialized, executes(n)) == 1,
        actor_after(ActorState::Uninitialized, executes(n)) == ActorState::Ready,
        spec_worker_action(true, ExecutorJob::Request(request)) == WorkerAction::Run,
    decreases n,
{
    assert(executes(n).drop_last() =~= executes((n - 1) as nat));
    assert(executes(n).last() == ActorEvent::Execute);
    assert(executes((n - 1) as nat).len() == n - 1);
    if n > 1 {
        lemma_state_persists((n - 1) as nat, request);
    } else {
        assert(actor_after(ActorState::Uninitialized, executes(0)) == ActorState::Uninitialized);
        assert(spawns(ActorState::Uninitialized, executes(0)) == 0);
    }
    assert(spawns(ActorState::Uninitialized, executes(n)) == spawns(
        ActorState::Uninitialized,
        executes((n - 1) as nat),
    ) + if n == 1 {
        1nat
    } else {
        0nat
    });
}

/// Killing resets a script: after any calls, a kill followed by a call
/// spawns exactly one new worker, and a new worker has no context yet, so
/// it builds a fresh one before serving the request.
pub proof fn lemma_kill_resets(s: ActorState, evs: Seq<ActorEvent>, request: (String, Option<String>))
    ensures
        spawns(s, evs + seq![ActorEvent::Kill, ActorEvent::Execute]) == spawns(s, evs) + 1,
        actor_after(s, evs + seq![ActorEvent::Kill, ActorEvent::Execute]) == ActorState::Ready,
        spec_worker_action(false, ExecutorJob::Request(request)) == WorkerAction::Construct,
{
    let k = evs + seq![ActorEvent::Kill];
    let ke = evs + seq![ActorEvent::Kill, ActorEvent::Execute];
    assert(ke.drop_last() =~= k);
    assert(k.drop_last() =~= evs);
    assert(ke.last() == ActorEvent::Execute);
    assert(k.last() == ActorEvent::Kill);
    assert(actor_after(s, k) == ActorState::Uninitialized);
    assert(spawns(s, k) == spawns(s, evs));
}

} // verus!
