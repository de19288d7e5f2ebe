//! Start/stop bookkeeping for the background server.
//!
//! The bridge cannot join or cancel the server thread once the engine owns
//! it, so all it tracks is an intent flag: [`Lifecycle`]. Starting and
//! stopping need the engine's help (initialisation, a mode query, a thread
//! spawn, a restart signal), and that work cannot be done from here. The two
//! operations are therefore written as step functions: the caller reports
//! what just happened, the step function answers with the lifecycle value to
//! store and the next thing to do, until it answers `Return`.
//!
//! A caller that holds the flag in a shared cell reads it before every step
//! and writes it back when a step changes it.

use vstd::prelude::*;

verus! {

/// Whether the bridge has launched the background server and not yet asked it
/// to stop.
#[derive(Clone, Copy, PartialEq, Eq, Debug, Structural)]
pub enum Lifecycle {
    Stopped,
    Running,
}

impl Lifecycle {
    /// The value at process start.
    pub fn new() -> (state: Lifecycle)
        ensures
            state == Lifecycle::Stopped,
    {
        Lifecycle::Stopped
    }

    /// Reads a stored flag back into a lifecycle value.
    pub fn from_flag(running: bool) -> (state: Lifecycle)
        ensures
            state == (if running { Lifecycle::Running } else { Lifecycle::Stopped }),
    {
        if running {
            Lifecycle::Running
        } else {
            Lifecycle::Stopped
        }
    }
}

/// Pure read of the lifecycle: true exactly in `Running`.
pub fn rd_is_server_running(state: Lifecycle) -> (running: bool)
    ensures
        running == (state == Lifecycle::Running),
{
    match state {
        Lifecycle::Running => true,
        Lifecycle::Stopped => false,
    }
}

/// What the caller reports to [`rd_start_server_safe`].
#[derive(Clone, Copy, PartialEq, Eq, Debug, Structural)]
pub enum StartEvent {
    /// The host asked for a start.
    Requested,
    /// Global engine initialisation finished, successfully or not.
    EngineInitialized(bool),
    /// The engine said whether it runs in companion mode.
    CompanionMode(bool),
    /// The persisted stop request has been cleared.
    StopRequestCleared,
    /// The detached server thread has been spawned.
    ServerSpawned,
}

/// What [`rd_start_server_safe`] asks the caller to do next.
#[derive(Clone, Copy, PartialEq, Eq, Debug, Structural)]
pub enum StartAction {
    /// Run global engine initialisation, then report `EngineInitialized`.
    InitializeEngine,
    /// Ask the engine for its mode, then report `CompanionMode`.
    QueryCompanionMode,
    /// Clear the persisted stop request, then report `StopRequestCleared`.
    ClearStopRequest,
    /// Spawn the detached server thread, then report `ServerSpawned`.
    SpawnServer,
    /// The call is over; hand this flag to the host.
    Return(bool),
}

/// The action that answers `event` when the lifecycle is `state`.
pub open spec fn start_action(state: Lifecycle, event: StartEvent) -> StartAction {
    match event {
        StartEvent::Requested => if state == Lifecycle::Running {
            StartAction::Return(true)
        } else {
            StartAction::InitializeEngine
        },
        StartEvent::EngineInitialized(ok) => if ok {
            StartAction::QueryCompanionMode
        } else {
            StartAction::Return(false)
        },
        StartEvent::CompanionMode(companion) => if companion {
            StartAction::Return(true)
        } else {
            StartAction::ClearStopRequest
        },
        StartEvent::StopRequestCleared => StartAction::SpawnServer,
        StartEvent::ServerSpawned => StartAction::Return(true),
    }
}

/// The lifecycle after `event`: only a spawned server thread changes it.
pub open spec fn start_state(state: Lifecycle, event: StartEvent) -> Lifecycle {
    if event == StartEvent::ServerSpawned {
        Lifecycle::Running
    } else {
        state
    }
}

/// One step of the idempotent start.
///
/// A start on a running bridge returns success at once and asks for nothing.
/// Otherwise the engine is initialised first; a failed initialisation ends
/// the call with failure. An engine in companion mode hosts no server loop:
/// the call then ends with success and the lifecycle stays as it was, so a
/// successful start does not imply `Running`. In every other case the stop
/// request is cleared, the server thread is spawned, and only then does the
/// lifecycle become `Running`.
pub fn rd_start_server_safe(state: Lifecycle, event: StartEvent) -> (step: (Lifecycle, StartAction))
    ensures
        step.0 == start_state(state, event),
        step.1 == start_action(state, event),
{
    match event {
        StartEvent::Requested => match state {
            Lifecycle::Running => (state, StartAction::Return(true)),
            Lifecycle::Stopped => (state, StartAction::InitializeEngine),
        },
        StartEvent::EngineInitialized(true) => (state, StartAction::QueryCompanionMode),
        StartEvent::EngineInitialized(false) => (state, StartAction::Return(false)),
        StartEvent::CompanionMode(true) => (state, StartAction::Return(true)),
        StartEvent::CompanionMode(false) => (state, StartAction::ClearStopRequest),
        StartEvent::StopRequestCleared => (state, StartAction::SpawnServer),
        StartEvent::ServerSpawned => (Lifecycle::Running, StartAction::Return(true)),
    }
}

/// What the caller reports to [`rd_stop_server`].
#[derive(Clone, Copy, PartialEq, Eq, Debug, Structural)]
pub enum StopEvent {
    /// The host asked for a stop.
    Requested,
    /// The stop request has been persisted.
    StopRequestRecorded,
    /// The engine's mediator has been told to restart.
    MediatorSignalled,
}

/// What [`rd_stop_server`] asks the caller to do next.
#[derive(Clone, Copy, PartialEq, Eq, Debug, Structural)]
pub enum StopAction {
    /// Persist the stop request, then report `StopRequestRecorded`.
    RecordStopRequest,
    /// Tell the engine's mediator to restart, then report `MediatorSignalled`.
    SignalMediator,
    /// The call is over; hand this flag to the host.
    Return(bool),
}

/// The action that answers `event` when the lifecycle is `state`.
pub open spec fn stop_action(state: Lifecycle, event: StopEvent) -> StopAction {
    match event {
        StopEvent::Requested => if state == Lifecycle::Stopped {
            StopAction::Return(true)
        } else {
            StopAction::RecordStopRequest
        },
        StopEvent::StopRequestRecorded => StopAction::SignalMediator,
        StopEvent::MediatorSignalled => StopAction::Return(true),
    }
}

/// The lifecycle after `event`: only an issued stop signal changes it.
pub open spec fn stop_state(state: Lifecycle, event: StopEvent) -> Lifecycle {
    if event == StopEvent::MediatorSignalled {
        Lifecycle::Stopped
    } else {
        state
    }
}

/// One step of the idempotent stop.
///
/// A stop on a stopped bridge returns success at once and signals nothing.
/// Otherwise the stop request is persisted, the mediator is told to restart
/// (its way of honouring the request), and the lifecycle becomes `Stopped`.
/// The call does not wait for the server loop to wind down.
pub fn rd_stop_server(state: Lifecycle, event: StopEvent) -> (step: (Lifecycle, StopAction))
    ensures
        step.0 == stop_state(state, event),
        step.1 == stop_action(state, event),
{
    match event {
        StopEvent::Requested => match state {
            Lifecycle::Stopped => (state, StopAction::Return(true)),
            Lifecycle::Running => (state, StopAction::RecordStopRequest),
        },
        StopEvent::StopRequestRecorded => (state, StopAction::SignalMediator),
        StopEvent::MediatorSignalled => (Lifecycle::Stopped, StopAction::Return(true)),
    }
}

/// The configuration option that carries the stop request, as a key and the
/// value to store under it: `"Y"` while a stop is requested, empty otherwise.
pub fn stop_request_option(requested: bool) -> (option: (&'static str, &'static str))
    ensures
        option.0@ == "stop-service"@,
        option.1@ == (if requested { "Y"@ } else { ""@ }),
{
    if requested {
        ("stop-service", "Y")
    } else {
        ("stop-service", "")
    }
}

/// How the engine answers the two questions a start may put to it.
pub struct Engine {
    /// Whether global initialisation succeeds.
    pub init_ok: bool,
    /// Whether the engine runs in companion mode.
    pub companion: bool,
}

/// The event a caller reports after carrying out `action` against `engine`.
pub open spec fn start_report(engine: Engine, action: StartAction) -> StartEvent {
    match action {
        StartAction::InitializeEngine => StartEvent::EngineInitialized(engine.init_ok),
        StartAction::QueryCompanionMode => StartEvent::CompanionMode(engine.companion),
        StartAction::ClearStopRequest => StartEvent::StopRequestCleared,
        StartAction::SpawnServer => StartEvent::ServerSpawned,
        StartAction::Return(_) => StartEvent::Requested,
    }
}

/// A start driven from `event` until it returns: the final lifecycle and the
/// flag handed to the host, or no flag if `budget` further actions were not
/// enough.
pub open spec fn start_run(state: Lifecycle, engine: Engine, event: StartEvent, budget: nat) -> (
    Lifecycle,
    Option<bool>,
)
    decreases budget,
{
    let next = start_state(state, event);
    match start_action(state, event) {
        StartAction::Return(ok) => (next, Some(ok)),
        action => if budget == 0 {
            (next, None)
        } else {
            start_run(next, engine, start_report(engine, action), (budget - 1) as nat)
        },
    }
}

/// Whether a start against `engine` launches the server when none is running.
pub open spec fn launches(engine: Engine) -> bool {
    engine.init_ok && !engine.companion
}

/// What one whole start comes to: the lifecycle it leaves and the flag it
/// returns.
pub open spec fn start_call(state: Lifecycle, engine: Engine) -> (Lifecycle, bool) {
    if state == Lifecycle::Running {
        (Lifecycle::Running, true)
    } else if launches(engine) {
        (Lifecycle::Running, true)
    } else {
        (Lifecycle::Stopped, engine.init_ok)
    }
}

/// What one whole stop comes to: always `Stopped`, always success.
pub open spec fn stop_call(state: Lifecycle) -> (Lifecycle, bool) {
    (Lifecycle::Stopped, true)
}

/// The event a caller reports after carrying out `action` of a stop.
pub open spec fn stop_report(action: StopAction) -> StopEvent {
    match action {
        StopAction::RecordStopRequest => StopEvent::StopRequestRecorded,
        StopAction::SignalMediator => StopEvent::MediatorSignalled,
        StopAction::Return(_) => StopEvent::Requested,
    }
}

/// A stop driven from `event` until it returns, as [`start_run`] does for a
/// start.
pub open spec fn stop_run(state: Lifecycle, event: StopEvent, budget: nat) -> (Lifecycle, Option<bool>)
    decreases budget,
{
    let next = stop_state(state, event);
    match stop_action(state, event) {
        StopAction::Return(ok) => (next, Some(ok)),
        action => if budget == 0 {
            (next, None)
        } else {
            stop_run(next, stop_report(action), (budget - 1) as nat)
        },
    }
}

/// Every start returns after at most four actions, with the outcome that
/// [`start_call`] names.
pub proof fn lemma_start_returns(state: Lifecycle, engine: Engine, budget: nat)
    requires
        budget >= 4,
    ensures
        start_run(state, engine, StartEvent::Requested, budget) == (
            start_call(state, engine).0,
            Some(start_call(state, engine).1),
        ),
{
    reveal_with_fuel(start_run, 5);
}

/// Every stop returns success after at most two actions and leaves the
/// lifecycle `Stopped`.
pub proof fn lemma_stop_returns(state: Lifecycle, budget: nat)
    requires
        budget >= 2,
    ensures
        stop_run(state, StopEvent::Requested, budget) == (
            stop_call(state).0,
            Some(stop_call(state).1),
        ),
{
    reveal_with_fuel(stop_run, 3);
}

/// Starting twice in a row: once the first start has found or launched a
/// server, the lifecycle is `Running` after both calls, both return success,
/// and the second asks the engine for nothing.
///
/// A first start that fails to initialise, or that meets an engine in
/// companion mode, leaves a stopped bridge stopped; those are left out.
pub proof fn lemma_start_twice(state: Lifecycle, first: Engine, second: Engine)
    requires
        state == Lifecycle::Running || launches(first),
    ensures
        start_call(state, first) == (Lifecycle::Running, true),
        start_call(start_call(state, first).0, second) == (Lifecycle::Running, true),
        start_action(start_call(state, first).0, StartEvent::Requested) == StartAction::Return(true),
        start_state(start_call(state, first).0, StartEvent::Requested) == Lifecycle::Running,
{
}

/// Stopping a stopped bridge returns success at once: nothing is persisted,
/// nothing is signalled, and the lifecycle stays `Stopped`.
pub proof fn lemma_stop_when_stopped()
    ensures
        stop_action(Lifecycle::Stopped, StopEvent::Requested) == StopAction::Return(true),
        stop_state(Lifecycle::Stopped, StopEvent::Requested) == Lifecycle::Stopped,
        stop_call(Lifecycle::Stopped) == (Lifecycle::Stopped, true),
{
}

/// One lifecycle operation as the host issues it.
pub enum Call {
    /// A start, with the answers the engine gives during it.
    Start(Engine),
    /// A stop.
    Stop,
}

/// The lifecycle after `call`.
pub open spec fn after_call(state: Lifecycle, call: Call) -> Lifecycle {
    match call {
        Call::Start(engine) => start_call(state, engine).0,
        Call::Stop => stop_call(state).0,
    }
}

/// The lifecycle after `calls`, issued one after the other from `state`.
pub open spec fn after_calls(state: Lifecycle, calls: Seq<Call>) -> Lifecycle
    decreases calls.len(),
{
    if calls.len() == 0 {
        state
    } else {
        after_call(after_calls(state, calls.drop_last()), calls.last())
    }
}

/// The lifecycle that `call` settles whatever it was before, if it settles
/// one: a stop settles `Stopped`, a start that can launch the server settles
/// `Running`, and any other start leaves the lifecycle alone.
pub open spec fn settles(call: Call) -> Option<Lifecycle> {
    match call {
        Call::Start(engine) => if launches(engine) {
            Some(Lifecycle::Running)
        } else {
            None
        },
        Call::Stop => Some(Lifecycle::Stopped),
    }
}

/// What the latest settling call among `calls` settles, if there is one.
pub open spec fn last_settled(calls: Seq<Call>) -> Option<Lifecycle>
    decreases calls.len(),
{
    if calls.len() == 0 {
        None
    } else if settles(calls.last()) is Some {
        settles(calls.last())
    } else {
        last_settled(calls.drop_last())
    }
}

/// After any sequence of starts and stops the lifecycle is what the latest
/// settling call made it, and the initial value if no call settled anything.
pub proof fn lemma_lifecycle_follows_last_transition(state: Lifecycle, calls: Seq<Call>)
    ensures
        after_calls(state, calls) == (match last_settled(calls) {
            Some(settled) => settled,
            None => state,
        }),
    decreases calls.len(),
{
    if calls.len() > 0 {
        lemma_lifecycle_follows_last_transition(state, calls.drop_last());
    }
}

} // verus!
