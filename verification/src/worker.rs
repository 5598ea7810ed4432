//! The delivery worker: the sole consumer of the message channel.
//!
//! The worker's decisions are a state machine from the current phase and
//! an observed outcome to the next phase and the next action. The
//! embedding runs the loop: it receives from the channel, posts over
//! HTTP, and sleeps, handing each outcome back to `step`. A verified
//! `replay` drives the same machine over a recorded queue and recorded
//! send outcomes, and its log is pinned exactly by `spec_run`.

use vstd::prelude::*;

use crate::message::OutboundPayload;

verus! {

/// A command sent to the worker: a new payload to deliver, or the order
/// to stop consuming.
pub enum WorkerMessage {
    Data(OutboundPayload),
    Shutdown,
}

impl Clone for WorkerMessage {
    fn clone(&self) -> (r: Self)
        ensures
            r == *self,
    {
        match self {
            WorkerMessage::Data(p) => WorkerMessage::Data(p.clone()),
            WorkerMessage::Shutdown => WorkerMessage::Shutdown,
        }
    }
}

/// Maximum number of attempts for one payload before it is abandoned.
pub const MAX_ATTEMPTS: usize = 10;

/// Two to the power `n`.
pub open spec fn spec_pow2(n: nat) -> nat
    decreases n,
{
    if n == 0 {
        1
    } else {
        2 * spec_pow2((n - 1) as nat)
    }
}

/// The delay in milliseconds after failed attempt number `failures`
/// (counted from one): `100 * 2^(failures - 1)`.
pub open spec fn backoff_ms(failures: nat) -> nat {
    100 * spec_pow2((failures - 1) as nat)
}

/// The delay after failed attempt number `failures`, growing
/// exponentially from 100 ms and uncapped within the attempt ceiling.
pub fn backoff_delay_ms(failures: usize) -> (d: u64)
    requires
        1 <= failures <= MAX_ATTEMPTS,
    ensures
        d as nat == backoff_ms(failures as nat),
{
    proof {
        reveal_with_fuel(spec_pow2, 11);
    }
    match failures {
        1 => 100,
        2 => 200,
        3 => 400,
        4 => 800,
        5 => 1600,
        6 => 3200,
        7 => 6400,
        8 => 12800,
        9 => 25600,
        _ => 51200,
    }
}

/// What the embedding is to do next on the worker's behalf.
#[derive(Debug, PartialEq, Eq)]
pub enum WorkerCommand {
    /// Await the next message from the channel.
    Receive,
    /// Issue an HTTP POST of the payload's body to its destination.
    Post(OutboundPayload),
    /// Wait for the given number of milliseconds.
    Sleep(u64),
    /// Stop: the worker consumes nothing further.
    Exit,
}

/// The outcome the embedding observed while carrying out the last
/// command.
pub enum WorkerEvent {
    /// A message arrived from the channel.
    Message(WorkerMessage),
    /// The channel is closed and drained.
    Disconnected,
    /// The HTTP POST was answered and its response read.
    PostSucceeded,
    /// The HTTP POST failed, in transport or while reading the response.
    PostFailed,
    /// The backoff delay elapsed.
    SleepFinished,
}

/// Where the worker stands between two commands.
pub enum WorkerPhase {
    /// Waiting for the next message.
    Receiving,
    /// Attempt `attempt` (counted from one) of `payload` is in flight.
    Posting { payload: OutboundPayload, attempt: usize },
    /// `failures` attempts of `payload` have failed; backing off.
    Backing { payload: OutboundPayload, failures: usize },
    /// The worker has stopped consuming.
    Stopped,
}

/// The phase after observing `event` in `phase`. An event that does not
/// answer the phase's pending command leaves the phase unchanged.
pub open spec fn next_phase(phase: WorkerPhase, event: WorkerEvent) -> WorkerPhase {
    match phase {
        WorkerPhase::Receiving => match event {
            WorkerEvent::Message(WorkerMessage::Data(p)) => WorkerPhase::Posting {
                payload: p,
                attempt: 1,
            },
            WorkerEvent::Message(WorkerMessage::Shutdown) => WorkerPhase::Stopped,
            WorkerEvent::Disconnected => WorkerPhase::Stopped,
            _ => WorkerPhase::Receiving,
        },
        WorkerPhase::Posting { payload, attempt } => match event {
            WorkerEvent::PostSucceeded => WorkerPhase::Receiving,
            WorkerEvent::PostFailed => WorkerPhase::Backing { payload, failures: attempt },
            _ => WorkerPhase::Posting { payload, attempt },
        },
        WorkerPhase::Backing { payload, failures } => match event {
            WorkerEvent::SleepFinished => if failures < MAX_ATTEMPTS {
                WorkerPhase::Posting { payload, attempt: (failures + 1) as usize }
            } else {
                WorkerPhase::Receiving
            },
            _ => WorkerPhase::Backing { payload, failures },
        },
        WorkerPhase::Stopped => WorkerPhase::Stopped,
    }
}

/// The command pending in a phase.
pub open spec fn spec_command(phase: WorkerPhase) -> WorkerCommand {
    match phase {
        WorkerPhase::Receiving => WorkerCommand::Receive,
        WorkerPhase::Posting { payload, attempt } => WorkerCommand::Post(payload),
        WorkerPhase::Backing { payload, failures } => WorkerCommand::Sleep(
            backoff_ms(failures as nat) as u64,
        ),
        WorkerPhase::Stopped => WorkerCommand::Exit,
    }
}

/// The delivery worker's decision core. The embedding performs each
/// returned command and hands the observed outcome to the next `step`.
pub struct DeliveryWorker {
    pub phase: WorkerPhase,
}

impl DeliveryWorker {
    /// Attempt counters stay within the attempt ceiling.
    pub open spec fn wf(self) -> bool {
        match self.phase {
            WorkerPhase::Posting { attempt, .. } => 1 <= attempt <= MAX_ATTEMPTS,
            WorkerPhase::Backing { failures, .. } => 1 <= failures <= MAX_ATTEMPTS,
            _ => true,
        }
    }

    /// A fresh worker, waiting for its first message.
    pub fn new() -> (w: DeliveryWorker)
        ensures
            w.phase == WorkerPhase::Receiving,
            w.wf(),
    {
        DeliveryWorker { phase: WorkerPhase::Receiving }
    }

    /// Advance by one observed outcome and say what to do next.
    pub fn step(&mut self, event: WorkerEvent) -> (cmd: WorkerCommand)
        requires
            old(self).wf(),
        ensures
            final(self).phase == next_phase(old(self).phase, event),
            final(self).wf(),
            cmd == spec_command(final(self).phase),
    {
        let new_phase: WorkerPhase = match &self.phase {
            WorkerPhase::Receiving => match event {
                WorkerEvent::Message(WorkerMessage::Data(p)) => WorkerPhase::Posting {
                    payload: p,
                    attempt: 1,
                },
                WorkerEvent::Message(WorkerMessage::Shutdown) => WorkerPhase::Stopped,
                WorkerEvent::Disconnected => WorkerPhase::Stopped,
                _ => WorkerPhase::Receiving,
            },
            WorkerPhase::Posting { payload, attempt } => match event {
                WorkerEvent::PostSucceeded => WorkerPhase::Receiving,
                WorkerEvent::PostFailed => WorkerPhase::Backing {
                    payload: payload.clone(),
                    failures: *attempt,
                },
                _ => WorkerPhase::Posting { payload: payload.clone(), attempt: *attempt },
            },
            WorkerPhase::Backing { payload, failures } => match event {
                WorkerEvent::SleepFinished => if *failures < MAX_ATTEMPTS {
                    WorkerPhase::Posting { payload: payload.clone(), attempt: *failures + 1 }
                } else {
                    WorkerPhase::Receiving
                },
                _ => WorkerPhase::Backing { payload: payload.clone(), failures: *failures },
            },
            WorkerPhase::Stopped => WorkerPhase::Stopped,
        };
        self.phase = new_phase;
        match &self.phase {
            WorkerPhase::Receiving => WorkerCommand::Receive,
            WorkerPhase::Posting { payload, .. } => WorkerCommand::Post(payload.clone()),
            WorkerPhase::Backing { failures, .. } => WorkerCommand::Sleep(
                backoff_delay_ms(*failures),
            ),
            WorkerPhase::Stopped => WorkerCommand::Exit,
        }
    }
}

/// One observable effect of a worker run.
#[derive(Debug, PartialEq, Eq)]
pub enum DeliveryAction {
    /// The payload was posted once.
    Posted(OutboundPayload),
    /// The worker backed off for the given number of milliseconds.
    Slept(u64),
}

/// The actions of delivering one payload whose first `failures` attempts
/// have already failed, given the send outcomes still to come; also the
/// outcomes left over. A missing outcome counts as a failure. Delivery
/// ends at the first success or when the attempt ceiling is reached.
pub open spec fn spec_deliver(
    payload: OutboundPayload,
    failures: nat,
    outcomes: Seq<bool>,
) -> (Seq<DeliveryAction>, Seq<bool>)
    decreases MAX_ATTEMPTS - failures,
{
    let ok = outcomes.len() > 0 && outcomes[0];
    let rest = if outcomes.len() > 0 {
        outcomes.drop_first()
    } else {
        outcomes
    };
    if ok {
        (seq![DeliveryAction::Posted(payload)], rest)
    } else {
        let f = failures + 1;
        let acts = seq![
            DeliveryAction::Posted(payload),
            DeliveryAction::Slept(backoff_ms(f) as u64),
        ];
        if f < MAX_ATTEMPTS {
            let cont = spec_deliver(payload, f, rest);
            (acts + cont.0, cont.1)
        } else {
            (acts, rest)
        }
    }
}

/// Every action a worker performs for a queue of messages, consuming the
/// recorded send outcomes in order: each payload before the first
/// shutdown message is delivered per `spec_deliver`; the first shutdown
/// ends the run, and the queue's end does too.
pub open spec fn spec_run(queue: Seq<WorkerMessage>, outcomes: Seq<bool>) -> Seq<DeliveryAction>
    decreases queue.len(),
{
    if queue.len() == 0 {
        Seq::empty()
    } else {
        match queue[0] {
            WorkerMessage::Shutdown => Seq::empty(),
            WorkerMessage::Data(p) => {
                let d = spec_deliver(p, 0, outcomes);
                d.0 + spec_run(queue.drop_first(), d.1)
            },
        }
    }
}

/// The payloads of the data messages that precede the first shutdown
/// message, in order.
pub open spec fn data_before_shutdown(queue: Seq<WorkerMessage>) -> Seq<OutboundPayload>
    decreases queue.len(),
{
    if queue.len() == 0 {
        Seq::empty()
    } else {
        match queue[0] {
            WorkerMessage::Shutdown => Seq::empty(),
            WorkerMessage::Data(p) => seq![p] + data_before_shutdown(queue.drop_first()),
        }
    }
}

/// The actions still to come when the worker stands in `phase` with the
/// given queue and send outcomes ahead of it.
pub open spec fn continuation(
    phase: WorkerPhase,
    queue: Seq<WorkerMessage>,
    outcomes: Seq<bool>,
) -> Seq<DeliveryAction> {
    match phase {
        WorkerPhase::Receiving => spec_run(queue, outcomes),
        WorkerPhase::Posting { payload, attempt } => {
            let d = spec_deliver(payload, (attempt - 1) as nat, outcomes);
            d.0 + spec_run(queue, d.1)
        },
        WorkerPhase::Backing { payload, failures } => {
            let slept = seq![DeliveryAction::Slept(backoff_ms(failures as nat) as u64)];
            if failures < MAX_ATTEMPTS {
                let d = spec_deliver(payload, failures as nat, outcomes);
                slept + d.0 + spec_run(queue, d.1)
            } else {
                slept + spec_run(queue, outcomes)
            }
        },
        WorkerPhase::Stopped => Seq::empty(),
    }
}

/// Loop measure: phases get closer to `Stopped` as attempts burn down.
pub open spec fn phase_rank(phase: WorkerPhase) -> int {
    match phase {
        WorkerPhase::Stopped => 0,
        WorkerPhase::Receiving => 1,
        WorkerPhase::Posting { attempt, .. } => 2 * (MAX_ATTEMPTS - attempt) + 3,
        WorkerPhase::Backing { failures, .. } => 2 * (MAX_ATTEMPTS - failures) + 2,
    }
}

/// Drive a fresh worker over a recorded queue of messages and recorded
/// send outcomes, performing no I/O: each `Post` command consumes the
/// next outcome (a missing outcome counts as a failure) and each `Sleep`
/// is only logged. The log is exactly `spec_run` of the inputs.
#[verifier::rlimit(80)]
pub fn replay(queue: &Vec<WorkerMessage>, outcomes: &Vec<bool>) -> (log: Vec<DeliveryAction>)
    ensures
        log@ == spec_run(queue@, outcomes@),
{
    let mut w = DeliveryWorker::new();
    let mut cmd = WorkerCommand::Receive;
    let mut log: Vec<DeliveryAction> = Vec::new();
    let mut qi: usize = 0;
    let mut oi: usize = 0;
    let mut done: bool = false;
    proof {
        assert(queue@.skip(0) =~= queue@);
        assert(outcomes@.skip(0) =~= outcomes@);
        assert(log@ + spec_run(queue@, outcomes@) =~= spec_run(queue@, outcomes@));
    }
    while !done
        invariant
            qi <= queue.len(),
            oi <= outcomes.len(),
            w.wf(),
            !done ==> cmd == spec_command(w.phase),
            !done ==> log@ + continuation(w.phase, queue@.skip(qi as int), outcomes@.skip(oi as int))
                == spec_run(queue@, outcomes@),
            done ==> log@ == spec_run(queue@, outcomes@),
        decreases (if done { 0int } else { 1int }), queue@.len() - qi, phase_rank(w.phase),
    {
        let ghost q_rest = queue@.skip(qi as int);
        let ghost o_rest = outcomes@.skip(oi as int);
        match cmd {
            WorkerCommand::Receive => {
                if qi < queue.len() {
                    let msg = queue[qi].clone();
                    qi += 1;
                    proof {
                        assert(q_rest[0] == queue@[qi - 1 as int]);
                        assert(q_rest.drop_first() =~= queue@.skip(qi as int));
                    }
                    cmd = w.step(WorkerEvent::Message(msg));
                    proof {
                        assert(log@ + continuation(
                            w.phase,
                            queue@.skip(qi as int),
                            outcomes@.skip(oi as int),
                        ) =~= spec_run(queue@, outcomes@));
                    }
                } else {
                    proof {
                        assert(q_rest =~= Seq::<WorkerMessage>::empty());
                    }
                    cmd = w.step(WorkerEvent::Disconnected);
                }
            },
            WorkerCommand::Post(p) => {
                let ghost attempt = w.phase->Posting_attempt;
                let ok = if oi < outcomes.len() {
                    let b = outcomes[oi];
                    oi += 1;
                    b
                } else {
                    false
                };
                proof {
                    assert(o_rest.len() > 0 ==> o_rest[0] == outcomes@[oi - 1 as int]);
                    assert(o_rest.len() > 0 ==> o_rest.drop_first() =~= outcomes@.skip(oi as int));
                }
                log.push(DeliveryAction::Posted(p));
                let ev = if ok {
                    WorkerEvent::PostSucceeded
                } else {
                    WorkerEvent::PostFailed
                };
                cmd = w.step(ev);
                proof {
                    assert(log@ + continuation(
                        w.phase,
                        queue@.skip(qi as int),
                        outcomes@.skip(oi as int),
                    ) =~= spec_run(queue@, outcomes@));
                }
            },
            WorkerCommand::Sleep(ms) => {
                log.push(DeliveryAction::Slept(ms));
                cmd = w.step(WorkerEvent::SleepFinished);
                proof {
                    assert(log@ + continuation(
                        w.phase,
                        queue@.skip(qi as int),
                        outcomes@.skip(oi as int),
                    ) =~= spec_run(queue@, outcomes@));
                }
            },
            WorkerCommand::Exit => {
                proof {
                    assert(w.phase is Stopped);
                    assert(log@ =~= spec_run(queue@, outcomes@));
                }
                done = true;
            },
        }
    }
    log
}

proof fn lemma_deliver_posts_only_payload(payload: OutboundPayload, failures: nat, outcomes: Seq<
    bool,
>)
    ensures
        forall|i: int|
            0 <= i < spec_deliver(payload, failures, outcomes).0.len() ==> (match #[trigger] spec_deliver(
                payload,
                failures,
                outcomes,
            ).0[i] {
                DeliveryAction::Posted(q) => q == payload,
                DeliveryAction::Slept(_) => true,
            }),
    decreases MAX_ATTEMPTS - failures,
{
    let ok = outcomes.len() > 0 && outcomes[0];
    let rest = if outcomes.len() > 0 {
        outcomes.drop_first()
    } else {
        outcomes
    };
    if !ok && failures + 1 < MAX_ATTEMPTS {
        lemma_deliver_posts_only_payload(payload, failures + 1, rest);
    }
}

/// Once a shutdown message is enqueued, no data message enqueued after it
/// is ever posted: every payload a run posts comes from a data message
/// that precedes the first shutdown in the queue.
pub proof fn lemma_no_post_after_shutdown(
    queue: Seq<WorkerMessage>,
    outcomes: Seq<bool>,
    i: int,
    p: OutboundPayload,
)
    requires
        0 <= i < spec_run(queue, outcomes).len(),
        spec_run(queue, outcomes)[i] == DeliveryAction::Posted(p),
    ensures
        data_before_shutdown(queue).contains(p),
    decreases queue.len(),
{
    if queue.len() > 0 {
        match queue[0] {
            WorkerMessage::Shutdown => {},
            WorkerMessage::Data(q) => {
                let d = spec_deliver(q, 0, outcomes);
                if i < d.0.len() {
                    lemma_deliver_posts_only_payload(q, 0, outcomes);
                    assert(p == q);
                    assert(data_before_shutdown(queue)[0] == q);
                } else {
                    lemma_no_post_after_shutdown(
                        queue.drop_first(),
                        d.1,
                        i - d.0.len(),
                        p,
                    );
                    let j = choose|j: int|
                        0 <= j < data_before_shutdown(queue.drop_first()).len()
                            && data_before_shutdown(queue.drop_first())[j] == p;
                    assert(data_before_shutdown(queue)[j + 1] == p);
                }
            },
        }
    }
}

/// Where the background worker's lifecycle stands: created, running, or
/// shut down.
#[derive(Clone, Copy, PartialEq, Eq, Structural, Debug)]
pub enum LifecycleState {
    Idle,
    Running,
    Stopped,
}

/// Starting an already started or stopped worker is a misuse, reported
/// rather than risking a deadlock.
#[derive(Clone, Copy, PartialEq, Eq, Structural, Debug)]
pub enum LifecycleMisuseError {
    AlreadyStarted,
}

/// What a shutdown call found.
#[derive(Clone, Copy, PartialEq, Eq, Structural, Debug)]
pub enum ShutdownOutcome {
    /// A running worker was told to shut down and its completion is to
    /// be awaited.
    SignalledWorker,
    /// No running worker existed; the call is a reported no-op.
    NoRunningWorker,
}

/// The lifecycle state after a shutdown call, and what the call reports.
pub open spec fn spec_shutdown(s: LifecycleState) -> (LifecycleState, ShutdownOutcome) {
    (
        LifecycleState::Stopped,
        if s == LifecycleState::Running {
            ShutdownOutcome::SignalledWorker
        } else {
            ShutdownOutcome::NoRunningWorker
        },
    )
}

/// The caller-facing lifecycle of the background worker: populated
/// exactly once by `start`, consumed exactly once by `shutdown`.
pub struct WorkerLifecycle {
    pub state: LifecycleState,
}

impl WorkerLifecycle {
    /// A lifecycle with no worker yet.
    pub fn new() -> (r: WorkerLifecycle)
        ensures
            r.state == LifecycleState::Idle,
    {
        WorkerLifecycle { state: LifecycleState::Idle }
    }

    /// Record that the worker was started. A second start call is a
    /// checked misuse and changes nothing.
    pub fn start(&mut self) -> (r: Result<(), LifecycleMisuseError>)
        ensures
            old(self).state == LifecycleState::Idle ==> final(self).state
                == LifecycleState::Running && r is Ok,
            old(self).state != LifecycleState::Idle ==> final(self).state == old(self).state && r
                == Err::<(), LifecycleMisuseError>(LifecycleMisuseError::AlreadyStarted),
    {
        match self.state {
            LifecycleState::Idle => {
                self.state = LifecycleState::Running;
                Ok(())
            },
            _ => Err(LifecycleMisuseError::AlreadyStarted),
        }
    }

    /// Consume the worker handle. Exactly when a running worker existed,
    /// the caller is to signal it and await its completion; otherwise
    /// the call reports a no-op and never fails.
    pub fn shutdown(&mut self) -> (r: ShutdownOutcome)
        ensures
            final(self).state == spec_shutdown(old(self).state).0,
            r == spec_shutdown(old(self).state).1,
    {
        let was_running = match self.state {
            LifecycleState::Running => true,
            _ => false,
        };
        self.state = LifecycleState::Stopped;
        if was_running {
            ShutdownOutcome::SignalledWorker
        } else {
            ShutdownOutcome::NoRunningWorker
        }
    }
}

/// A second shutdown call on the same lifecycle, whatever its state was,
/// reports a no-op and does not fail.
pub proof fn lemma_second_shutdown_is_noop(s: LifecycleState)
    ensures
        spec_shutdown(spec_shutdown(s).0).1 == ShutdownOutcome::NoRunningWorker,
{
}

} // verus!
