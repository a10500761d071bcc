//! The supervisor of the worker process: what to probe, what to kill, and what to do
//! next after each thing that happened.

use crate::seq_lemmas::{lemma_filter_empty, lemma_filter_push};
use crate::text::{contains, decimal, i64_to_string, spec_contains};
use vstd::prelude::*;

verus! {

/// The host that the worker serves on.
pub const BACKEND_HOST: &'static str = "127.0.0.1";

/// Where the worker's executable lies, below the directory it is looked for in.
pub const BACKEND_PATH: &'static str = "_up_/dist/systembridgebackend/systembridgebackend";

/// How many seconds a probe may take.
pub const PROBE_TIMEOUT_SECS: u64 = 5;

/// How many seconds lie between two rounds of the keep-alive loop.
pub const KEEP_ALIVE_INTERVAL_SECS: u64 = 30;

/// The address of the worker, for a port.
pub open spec fn spec_base_url(port: i64) -> Seq<char> {
    "http://"@ + BACKEND_HOST@ + ":"@ + decimal(port as int)
}

/// The address of the worker, for the port that the settings name.
pub fn base_url(port: i64) -> (r: String)
    ensures
        r@ == spec_base_url(port),
{
    let mut url = "http://".to_owned();
    url.append(BACKEND_HOST);
    url.append(":");
    url.append(i64_to_string(port).as_str());
    url
}

/// The address that the probe asks: the root of the worker's address.
pub fn probe_url(base_url: &str) -> (r: String)
    ensures
        r@ == base_url@ + "/"@,
{
    let mut url = base_url.to_owned();
    url.append("/");
    url
}

/// Why the worker counts as down.
#[derive(Debug, Clone, Copy, PartialEq, Eq, Structural)]
pub enum BackendDown {
    /// The probe got no answer in time.
    NoAnswer,
    /// The probe got an answer with a status that is no success.
    BadStatus { status: u16 },
}

/// What a probe says: the worker is up where an answer came back with a status from
/// 200 to 299.
pub open spec fn spec_check_backend(status: Option<u16>) -> Result<(), BackendDown> {
    match status {
        None => Err(BackendDown::NoAnswer),
        Some(status) => if 200 <= status < 300 {
            Ok(())
        } else {
            Err(BackendDown::BadStatus { status })
        },
    }
}

/// Judges a probe by the status of the answer (`None` where none came in time).
pub fn check_backend(status: Option<u16>) -> (r: Result<(), BackendDown>)
    ensures
        r == spec_check_backend(status),
{
    match status {
        None => Err(BackendDown::NoAnswer),
        Some(status) => if 200 <= status && status < 300 {
            Ok(())
        } else {
            Err(BackendDown::BadStatus { status })
        },
    }
}

/// Whether a process of this name counts as the worker.
pub open spec fn spec_is_backend_process(name: Seq<char>) -> bool {
    spec_contains(name, "systembridgebac"@) || spec_contains(name, "systembridgebackend"@)
}

/// Whether a process of this name counts as the worker: its name holds the worker's
/// name, or the start of it that a system with short process names keeps.
pub fn is_backend_process(name: &str) -> (r: bool)
    ensures
        r == spec_is_backend_process(name@),
{
    contains(name, "systembridgebac") || contains(name, "systembridgebackend")
}

/// A running process: its id and its name.
#[derive(Debug, Clone, PartialEq, Eq)]
pub struct ProcessInfo {
    pub pid: u32,
    pub name: String,
}

/// The ids of the processes to kill: those that count as the worker, in the order of
/// the list.
pub open spec fn spec_stop_backend(processes: Seq<ProcessInfo>) -> Seq<u32> {
    processes.filter(|p: ProcessInfo| spec_is_backend_process(p.name@)).map_values(
        |p: ProcessInfo| p.pid,
    )
}

/// Picks, out of the running processes, the ones to kill so that no worker is left.
pub fn stop_backend(processes: &Vec<ProcessInfo>) -> (r: Vec<u32>)
    ensures
        r@ == spec_stop_backend(processes@),
{
    let mut pids: Vec<u32> = Vec::new();
    let ghost is_worker = |p: ProcessInfo| spec_is_backend_process(p.name@);
    let ghost pid_of = |p: ProcessInfo| p.pid;
    let mut i: usize = 0;
    while i < processes.len()
        invariant
            i <= processes.len(),
            is_worker == (|p: ProcessInfo| spec_is_backend_process(p.name@)),
            pid_of == (|p: ProcessInfo| p.pid),
            pids@ == processes@.take(i as int).filter(is_worker).map_values(pid_of),
        decreases processes.len() - i,
    {
        let ghost head = processes@.take(i as int);
        let ghost process = processes@[i as int];
        proof {
            assert(processes@.take(i + 1) =~= head.push(process));
            lemma_filter_push(head, process, is_worker);
        }
        if is_backend_process(processes[i].name.as_str()) {
            pids.push(processes[i].pid);
            assert(head.filter(is_worker).push(process).map_values(pid_of) =~= head.filter(
                is_worker,
            ).map_values(pid_of).push(process.pid));
        }
        i = i + 1;
    }
    proof {
        assert(processes@.take(processes@.len() as int) =~= processes@);
    }
    pids
}

/// In what setting the supervisor runs.
#[derive(Debug, Clone, Copy, PartialEq, Eq, Structural)]
pub enum SupervisorContext {
    /// Before anything else can serve: without the worker the process gives up.
    Bootstrap,
    /// In the background: a failure is reported, and the next round tries again.
    KeepAlive,
}

/// How far a recovery has come.
#[derive(Debug, Clone, Copy, PartialEq, Eq, Structural)]
pub enum RecoveryStep {
    /// Leftover workers are being killed.
    Stopping,
    /// A new worker is being started.
    Starting,
}

/// Where the supervisor stands.
#[derive(Debug, Clone, Copy, PartialEq, Eq, Structural)]
pub enum SupervisorState {
    /// A probe is out. `recovered` says whether this round has restarted the worker.
    Checking { recovered: bool },
    /// The worker did not answer and is being restarted.
    Recovering { step: RecoveryStep },
    /// The worker answered; the round is over.
    Alive,
    /// The worker could not be brought back this round; the next round tries again.
    Down,
    /// The worker could not be brought up at bootstrap: the process ends.
    Exited,
}

/// What happened outside.
#[derive(Debug, Clone, Copy, PartialEq, Eq, Structural)]
pub enum SupervisorEvent {
    /// The probe found the worker serving.
    ProbeSucceeded,
    /// The probe found no worker serving.
    ProbeFailed,
    /// The leftover workers were killed.
    Stopped,
    /// The worker was started.
    Started,
    /// The worker could not be started.
    StartFailed,
    /// The interval between two rounds is over.
    IntervalElapsed,
}

/// What to do outside next.
#[derive(Debug, Clone, Copy, PartialEq, Eq, Structural)]
pub enum SupervisorAction {
    /// Ask the worker's address whether it serves.
    Probe,
    /// Kill the processes that `stop_backend` picks.
    Stop,
    /// Start the worker.
    Start,
    /// Go on with the bootstrap: the worker serves.
    Proceed,
    /// Wait for the interval to pass.
    Sleep,
    /// Report that the worker is down, then wait for the interval to pass.
    Report,
    /// End the process with a status that is not zero.
    Exit,
    /// Nothing: the event was not one that the state waits for.
    Ignore,
}

/// What the supervisor does when a round ends without a worker.
pub open spec fn spec_give_up(context: SupervisorContext) -> (SupervisorState, SupervisorAction) {
    match context {
        SupervisorContext::Bootstrap => (SupervisorState::Exited, SupervisorAction::Exit),
        SupervisorContext::KeepAlive => (SupervisorState::Down, SupervisorAction::Report),
    }
}

/// What the supervisor does when a round ends with the worker serving.
pub open spec fn spec_settle(context: SupervisorContext) -> (SupervisorState, SupervisorAction) {
    match context {
        SupervisorContext::Bootstrap => (SupervisorState::Alive, SupervisorAction::Proceed),
        SupervisorContext::KeepAlive => (SupervisorState::Alive, SupervisorAction::Sleep),
    }
}

/// The supervisor's rule: the next state and what to do, for each state and event.
/// A round starts with a probe. A probe that succeeds ends the round. The first probe
/// of a round that fails starts a recovery: stop, then start, then probe again. A
/// start that fails, or a probe that fails after the restart, ends the round without
/// a worker. When the interval has passed after a round, the next one starts. An
/// event that the state does not wait for changes nothing.
pub open spec fn spec_step(
    context: SupervisorContext,
    state: SupervisorState,
    event: SupervisorEvent,
) -> (SupervisorState, SupervisorAction) {
    match (state, event) {
        (SupervisorState::Checking { recovered }, SupervisorEvent::ProbeSucceeded) => spec_settle(
            context,
        ),
        (SupervisorState::Checking { recovered: false }, SupervisorEvent::ProbeFailed) => (
            SupervisorState::Recovering { step: RecoveryStep::Stopping },
            SupervisorAction::Stop,
        ),
        (SupervisorState::Checking { recovered: true }, SupervisorEvent::ProbeFailed) => spec_give_up(
            context,
        ),
        (
            SupervisorState::Recovering { step: RecoveryStep::Stopping },
            SupervisorEvent::Stopped,
        ) => (SupervisorState::Recovering { step: RecoveryStep::Starting }, SupervisorAction::Start),
        (
            SupervisorState::Recovering { step: RecoveryStep::Starting },
            SupervisorEvent::Started,
        ) => (SupervisorState::Checking { recovered: true }, SupervisorAction::Probe),
        (
            SupervisorState::Recovering { step: RecoveryStep::Starting },
            SupervisorEvent::StartFailed,
        ) => spec_give_up(context),
        (SupervisorState::Alive, SupervisorEvent::IntervalElapsed) => (
            SupervisorState::Checking { recovered: false },
            SupervisorAction::Probe,
        ),
        (SupervisorState::Down, SupervisorEvent::IntervalElapsed) => (
            SupervisorState::Checking { recovered: false },
            SupervisorAction::Probe,
        ),
        _ => (state, SupervisorAction::Ignore),
    }
}

/// The state in which every round starts, with its probe out.
pub fn start_round() -> (r: (SupervisorState, SupervisorAction))
    ensures
        r == (SupervisorState::Checking { recovered: false }, SupervisorAction::Probe),
{
    (SupervisorState::Checking { recovered: false }, SupervisorAction::Probe)
}

fn give_up(context: SupervisorContext) -> (r: (SupervisorState, SupervisorAction))
    ensures
        r == spec_give_up(context),
{
    match context {
        SupervisorContext::Bootstrap => (SupervisorState::Exited, SupervisorAction::Exit),
        SupervisorContext::KeepAlive => (SupervisorState::Down, SupervisorAction::Report),
    }
}

/// Decides the supervisor's next state and what to do, after something happened.
pub fn keep_backend_alive(
    context: SupervisorContext,
    state: SupervisorState,
    event: SupervisorEvent,
) -> (r: (SupervisorState, SupervisorAction))
    ensures
        r == spec_step(context, state, event),
{
    match state {
        SupervisorState::Checking { recovered } => match event {
            SupervisorEvent::ProbeSucceeded => match context {
                SupervisorContext::Bootstrap => (SupervisorState::Alive, SupervisorAction::Proceed),
                SupervisorContext::KeepAlive => (SupervisorState::Alive, SupervisorAction::Sleep),
            },
            SupervisorEvent::ProbeFailed => if recovered {
                give_up(context)
            } else {
                (
                    SupervisorState::Recovering { step: RecoveryStep::Stopping },
                    SupervisorAction::Stop,
                )
            },
            _ => (state, SupervisorAction::Ignore),
        },
        SupervisorState::Recovering { step: RecoveryStep::Stopping } => match event {
            SupervisorEvent::Stopped => (
                SupervisorState::Recovering { step: RecoveryStep::Starting },
                SupervisorAction::Start,
            ),
            _ => (state, SupervisorAction::Ignore),
        },
        SupervisorState::Recovering { step: RecoveryStep::Starting } => match event {
            SupervisorEvent::Started => (
                SupervisorState::Checking { recovered: true },
                SupervisorAction::Probe,
            ),
            SupervisorEvent::StartFailed => give_up(context),
            _ => (state, SupervisorAction::Ignore),
        },
        SupervisorState::Alive => match event {
            SupervisorEvent::IntervalElapsed => start_round(),
            _ => (state, SupervisorAction::Ignore),
        },
        SupervisorState::Down => match event {
            SupervisorEvent::IntervalElapsed => start_round(),
            _ => (state, SupervisorAction::Ignore),
        },
        SupervisorState::Exited => (state, SupervisorAction::Ignore),
    }
}

/// What the supervisor does over a run of events, from a state on: the action after
/// each event, in order.
pub open spec fn spec_run(
    context: SupervisorContext,
    state: SupervisorState,
    events: Seq<SupervisorEvent>,
) -> Seq<SupervisorAction>
    decreases events.len(),
{
    if events.len() == 0 {
        Seq::empty()
    } else {
        let (next, action) = spec_step(context, state, events[0]);
        seq![action] + spec_run(context, next, events.drop_first())
    }
}

/// The state that a run of events leaves the supervisor in.
pub open spec fn spec_run_state(
    context: SupervisorContext,
    state: SupervisorState,
    events: Seq<SupervisorEvent>,
) -> SupervisorState
    decreases events.len(),
{
    if events.len() == 0 {
        state
    } else {
        spec_run_state(context, spec_step(context, state, events[0]).0, events.drop_first())
    }
}

/// The test whether an action is a given one.
pub open spec fn is_action(action: SupervisorAction) -> spec_fn(SupervisorAction) -> bool {
    |a: SupervisorAction| a == action
}

/// How often an action occurs in a run of actions.
pub open spec fn count(actions: Seq<SupervisorAction>, action: SupervisorAction) -> nat {
    actions.filter(is_action(action)).len()
}

/// How far a state is into its round: a round only ever moves forward until the
/// interval has passed.
pub open spec fn progress(state: SupervisorState) -> nat {
    match state {
        SupervisorState::Checking { recovered: false } => 0,
        SupervisorState::Recovering { step: RecoveryStep::Stopping } => 1,
        SupervisorState::Recovering { step: RecoveryStep::Starting } => 2,
        SupervisorState::Checking { recovered: true } => 3,
        _ => 4,
    }
}

/// No event of the run says that the interval has passed: the run stays within one
/// round.
pub open spec fn within_one_round(events: Seq<SupervisorEvent>) -> bool {
    forall|i: int| 0 <= i < events.len() ==> events[i] != SupervisorEvent::IntervalElapsed
}

/// A probe that succeeds ends the round at once, and asks neither for a kill nor for
/// a start.
pub proof fn law_passing_probe_touches_nothing(context: SupervisorContext, recovered: bool)
    ensures
        spec_step(
            context,
            SupervisorState::Checking { recovered },
            SupervisorEvent::ProbeSucceeded,
        ).0 == SupervisorState::Alive,
        spec_step(
            context,
            SupervisorState::Checking { recovered },
            SupervisorEvent::ProbeSucceeded,
        ).1 != SupervisorAction::Stop,
        spec_step(
            context,
            SupervisorState::Checking { recovered },
            SupervisorEvent::ProbeSucceeded,
        ).1 != SupervisorAction::Start,
{
}

/// A round whose first probe fails goes through one recovery: a kill, then a start,
/// then a second probe.
pub proof fn law_failing_probe_restarts_once(context: SupervisorContext)
    ensures
        spec_run(
            context,
            SupervisorState::Checking { recovered: false },
            seq![
                SupervisorEvent::ProbeFailed,
                SupervisorEvent::Stopped,
                SupervisorEvent::Started,
            ],
        ) == seq![SupervisorAction::Stop, SupervisorAction::Start, SupervisorAction::Probe],
        spec_run_state(
            context,
            SupervisorState::Checking { recovered: false },
            seq![
                SupervisorEvent::ProbeFailed,
                SupervisorEvent::Stopped,
                SupervisorEvent::Started,
            ],
        ) == (SupervisorState::Checking { recovered: true }),
{
    let events = seq![
        SupervisorEvent::ProbeFailed,
        SupervisorEvent::Stopped,
        SupervisorEvent::Started,
    ];
    let second = events.drop_first();
    let third = second.drop_first();
    let stopping = SupervisorState::Recovering { step: RecoveryStep::Stopping };
    let starting = SupervisorState::Recovering { step: RecoveryStep::Starting };
    let checking = SupervisorState::Checking { recovered: true };
    assert(third.drop_first() =~= Seq::<SupervisorEvent>::empty());
    assert(spec_run(context, checking, third.drop_first()) =~= Seq::<SupervisorAction>::empty());
    assert(spec_run(context, starting, third) =~= seq![SupervisorAction::Probe]);
    assert(spec_run(context, stopping, second) =~= seq![
        SupervisorAction::Start,
        SupervisorAction::Probe,
    ]);
    assert(spec_run(context, SupervisorState::Checking { recovered: false }, events) =~= seq![
        SupervisorAction::Stop,
        SupervisorAction::Start,
        SupervisorAction::Probe,
    ]);
    assert(spec_run_state(context, checking, third.drop_first()) == checking);
    assert(spec_run_state(context, starting, third) == checking);
    assert(spec_run_state(context, stopping, second) == checking);
}

/// A run that starts with one action holds a given action once more than the rest of
/// the run where that first action is the given one, and as often as the rest where
/// it is not.
pub proof fn lemma_count_first(
    first: SupervisorAction,
    rest: Seq<SupervisorAction>,
    action: SupervisorAction,
)
    ensures
        count(seq![first] + rest, action) == count(rest, action) + (if first == action {
            1nat
        } else {
            0nat
        }),
{
    let wanted = is_action(action);
    Seq::filter_distributes_over_add(seq![first], rest, wanted);
    lemma_filter_empty(wanted);
    lemma_filter_push(Seq::<SupervisorAction>::empty(), first, wanted);
    assert(seq![first] =~= Seq::<SupervisorAction>::empty().push(first));
}

/// Within a round the supervisor only moves forward. It asks for a kill only as it
/// leaves the first probe, and for a start only as the kill is done.
pub proof fn lemma_step_moves_forward(
    context: SupervisorContext,
    state: SupervisorState,
    event: SupervisorEvent,
)
    requires
        event != SupervisorEvent::IntervalElapsed,
    ensures
        progress(spec_step(context, state, event).0) >= progress(state),
        spec_step(context, state, event).1 == SupervisorAction::Stop ==> progress(state) == 0
            && progress(spec_step(context, state, event).0) == 1,
        spec_step(context, state, event).1 == SupervisorAction::Start ==> progress(state) == 1
            && progress(spec_step(context, state, event).0) == 2,
{
}

/// Whatever happens within one round, the supervisor asks for at most one kill and at
/// most one start, and for none at all once the round is past them.
pub proof fn law_one_recovery_per_round(
    context: SupervisorContext,
    state: SupervisorState,
    events: Seq<SupervisorEvent>,
)
    requires
        within_one_round(events),
    ensures
        count(spec_run(context, state, events), SupervisorAction::Stop) <= (if progress(state)
            == 0 {
            1nat
        } else {
            0nat
        }),
        count(spec_run(context, state, events), SupervisorAction::Start) <= (if progress(state)
            <= 1 {
            1nat
        } else {
            0nat
        }),
    decreases events.len(),
{
    if events.len() == 0 {
        lemma_filter_empty(is_action(SupervisorAction::Stop));
        lemma_filter_empty(is_action(SupervisorAction::Start));
    } else {
        let next = spec_step(context, state, events[0]).0;
        let action = spec_step(context, state, events[0]).1;
        let rest = spec_run(context, next, events.drop_first());
        assert(events[0] != SupervisorEvent::IntervalElapsed);
        assert(within_one_round(events.drop_first())) by {
            assert forall|i: int| 0 <= i < events.drop_first().len() implies events.drop_first()[i]
                != SupervisorEvent::IntervalElapsed by {
                assert(events.drop_first()[i] == events[i + 1]);
            }
        }
        law_one_recovery_per_round(context, next, events.drop_first());
        lemma_step_moves_forward(context, state, events[0]);
        lemma_count_first(action, rest, SupervisorAction::Stop);
        lemma_count_first(action, rest, SupervisorAction::Start);
        assert(spec_run(context, state, events) == seq![action] + rest);
    }
}

/// A start that fails, like a probe that fails after the restart, ends the process at
/// bootstrap, and is reported in the keep-alive loop, which then waits for its next
/// round.
pub proof fn law_failed_recovery(context: SupervisorContext)
    ensures
        spec_step(
            context,
            SupervisorState::Checking { recovered: true },
            SupervisorEvent::ProbeFailed,
        ) == spec_give_up(context),
        spec_step(
            context,
            SupervisorState::Recovering { step: RecoveryStep::Starting },
            SupervisorEvent::StartFailed,
        ) == spec_give_up(context),
        spec_give_up(SupervisorContext::Bootstrap) == (
            SupervisorState::Exited,
            SupervisorAction::Exit,
        ),
        spec_give_up(SupervisorContext::KeepAlive) == (
            SupervisorState::Down,
            SupervisorAction::Report,
        ),
        spec_step(
            SupervisorContext::KeepAlive,
            SupervisorState::Down,
            SupervisorEvent::IntervalElapsed,
        ) == (SupervisorState::Checking { recovered: false }, SupervisorAction::Probe),
{
}

/// The keep-alive loop never ends the process, whatever state it is in and whatever
/// happens.
pub proof fn law_keep_alive_never_exits(state: SupervisorState, event: SupervisorEvent)
    requires
        state != SupervisorState::Exited,
    ensures
        spec_step(SupervisorContext::KeepAlive, state, event).1 != SupervisorAction::Exit,
        spec_step(SupervisorContext::KeepAlive, state, event).0 != SupervisorState::Exited,
{
}

/// Runs the supervisor over a list of events and hands back where it stands and what
/// it asked for on the way.
pub fn run_supervisor(
    context: SupervisorContext,
    state: SupervisorState,
    events: &Vec<SupervisorEvent>,
) -> (r: (SupervisorState, Vec<SupervisorAction>))
    ensures
        r.0 == spec_run_state(context, state, events@),
        r.1@ == spec_run(context, state, events@),
{
    let mut actions: Vec<SupervisorAction> = Vec::new();
    let mut current = state;
    let mut i: usize = 0;
    proof {
        assert(events@.skip(0) =~= events@);
        assert(actions@ + spec_run(context, state, events@) =~= spec_run(context, state, events@));
    }
    while i < events.len()
        invariant
            i <= events.len(),
            spec_run_state(context, state, events@) == spec_run_state(
                context,
                current,
                events@.skip(i as int),
            ),
            spec_run(context, state, events@) == actions@ + spec_run(
                context,
                current,
                events@.skip(i as int),
            ),
        decreases events.len() - i,
    {
        let ghost rest = events@.skip(i as int);
        let (next, action) = keep_backend_alive(context, current, events[i]);
        proof {
            assert(rest[0] == events@[i as int]);
            assert(rest.drop_first() =~= events@.skip(i + 1));
            assert(actions@.push(action) + spec_run(context, next, events@.skip(i + 1))
                =~= actions@ + (seq![action] + spec_run(context, next, events@.skip(i + 1))));
        }
        actions.push(action);
        current = next;
        i = i + 1;
    }
    proof {
        assert(events@.skip(events@.len() as int) =~= Seq::<SupervisorEvent>::empty());
        assert(actions@ + Seq::<SupervisorAction>::empty() =~= actions@);
    }
    (current, actions)
}

} // verus!
