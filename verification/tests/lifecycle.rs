use rustdesk_sdk::lifecycle::{
    rd_is_server_running, rd_start_server_safe, rd_stop_server, stop_request_option, Lifecycle,
    StartAction, StartEvent, StopAction, StopEvent,
};

/// A stand-in for the engine: scripted answers, and a record of what was
/// asked of it.
struct Host {
    state: Lifecycle,
    init_ok: bool,
    companion: bool,
    log: Vec<&'static str>,
}

impl Host {
    fn new(init_ok: bool, companion: bool) -> Host {
        Host { state: Lifecycle::new(), init_ok, companion, log: Vec::new() }
    }

    fn start(&mut self) -> bool {
        let mut event = StartEvent::Requested;
        for _ in 0..8 {
            let (next, action) = rd_start_server_safe(self.state, event);
            self.state = next;
            event = match action {
                StartAction::Return(ok) => return ok,
                StartAction::InitializeEngine => {
                    self.log.push("init");
                    StartEvent::EngineInitialized(self.init_ok)
                }
                StartAction::QueryCompanionMode => {
                    self.log.push("mode");
                    StartEvent::CompanionMode(self.companion)
                }
                StartAction::ClearStopRequest => {
                    self.log.push("clear");
                    StartEvent::StopRequestCleared
                }
                StartAction::SpawnServer => {
                    self.log.push("spawn");
                    StartEvent::ServerSpawned
                }
            };
        }
        panic!("start did not return");
    }

    fn stop(&mut self) -> bool {
        let mut event = StopEvent::Requested;
        for _ in 0..8 {
            let (next, action) = rd_stop_server(self.state, event);
            self.state = next;
            event = match action {
                StopAction::Return(ok) => return ok,
                StopAction::RecordStopRequest => {
                    self.log.push("record");
                    StopEvent::StopRequestRecorded
                }
                StopAction::SignalMediator => {
                    self.log.push("signal");
                    StopEvent::MediatorSignalled
                }
            };
        }
        panic!("stop did not return");
    }

    fn running(&self) -> bool {
        rd_is_server_running(self.state)
    }
}

#[test]
fn a_fresh_bridge_is_stopped() {
    assert_eq!(Lifecycle::new(), Lifecycle::Stopped);
    assert!(!rd_is_server_running(Lifecycle::new()));
    assert!(rd_is_server_running(Lifecycle::Running));
    assert!(!rd_is_server_running(Lifecycle::Stopped));
}

#[test]
fn a_flag_reads_back_as_a_lifecycle() {
    assert_eq!(Lifecycle::from_flag(true), Lifecycle::Running);
    assert_eq!(Lifecycle::from_flag(false), Lifecycle::Stopped);
    assert!(rd_is_server_running(Lifecycle::from_flag(true)));
}

#[test]
fn start_launches_the_server_in_order() {
    let mut host = Host::new(true, false);
    assert!(host.start());
    assert!(host.running());
    assert_eq!(host.log, vec!["init", "mode", "clear", "spawn"]);
}

#[test]
fn start_twice_is_running_and_the_second_is_a_no_op() {
    let mut host = Host::new(true, false);
    assert!(host.start());
    assert!(host.running());
    let asked = host.log.len();
    assert!(host.start());
    assert!(host.running());
    assert_eq!(host.log.len(), asked);
}

#[test]
fn start_on_a_running_bridge_does_not_ask_the_engine() {
    let mut host = Host::new(false, true);
    host.state = Lifecycle::Running;
    assert!(host.start());
    assert!(host.running());
    assert!(host.log.is_empty());
    assert_eq!(
        rd_start_server_safe(Lifecycle::Running, StartEvent::Requested),
        (Lifecycle::Running, StartAction::Return(true))
    );
}

#[test]
fn start_fails_when_initialisation_fails() {
    let mut host = Host::new(false, false);
    assert!(!host.start());
    assert!(!host.running());
    assert_eq!(host.log, vec!["init"]);
}

#[test]
fn start_in_companion_mode_succeeds_without_running() {
    let mut host = Host::new(true, true);
    assert!(host.start());
    assert!(!host.running());
    assert_eq!(host.log, vec!["init", "mode"]);
}

#[test]
fn the_lifecycle_changes_only_once_the_server_is_spawned() {
    let state = Lifecycle::Stopped;
    assert_eq!(rd_start_server_safe(state, StartEvent::Requested), (state, StartAction::InitializeEngine));
    assert_eq!(
        rd_start_server_safe(state, StartEvent::EngineInitialized(true)),
        (state, StartAction::QueryCompanionMode)
    );
    assert_eq!(
        rd_start_server_safe(state, StartEvent::EngineInitialized(false)),
        (state, StartAction::Return(false))
    );
    assert_eq!(
        rd_start_server_safe(state, StartEvent::CompanionMode(false)),
        (state, StartAction::ClearStopRequest)
    );
    assert_eq!(
        rd_start_server_safe(state, StartEvent::CompanionMode(true)),
        (state, StartAction::Return(true))
    );
    assert_eq!(
        rd_start_server_safe(state, StartEvent::StopRequestCleared),
        (state, StartAction::SpawnServer)
    );
    assert_eq!(
        rd_start_server_safe(state, StartEvent::ServerSpawned),
        (Lifecycle::Running, StartAction::Return(true))
    );
}

#[test]
fn stop_on_a_stopped_bridge_signals_nothing() {
    let mut host = Host::new(true, false);
    assert!(host.stop());
    assert!(!host.running());
    assert!(host.log.is_empty());
    assert_eq!(
        rd_stop_server(Lifecycle::Stopped, StopEvent::Requested),
        (Lifecycle::Stopped, StopAction::Return(true))
    );
}

#[test]
fn stop_records_the_request_then_signals() {
    let mut host = Host::new(true, false);
    assert!(host.start());
    host.log.clear();
    assert!(host.stop());
    assert!(!host.running());
    assert_eq!(host.log, vec!["record", "signal"]);
}

#[test]
fn the_lifecycle_changes_only_once_the_mediator_is_signalled() {
    let state = Lifecycle::Running;
    assert_eq!(rd_stop_server(state, StopEvent::Requested), (state, StopAction::RecordStopRequest));
    assert_eq!(
        rd_stop_server(state, StopEvent::StopRequestRecorded),
        (state, StopAction::SignalMediator)
    );
    assert_eq!(
        rd_stop_server(state, StopEvent::MediatorSignalled),
        (Lifecycle::Stopped, StopAction::Return(true))
    );
}

#[test]
fn stop_twice_stays_stopped() {
    let mut host = Host::new(true, false);
    assert!(host.start());
    assert!(host.stop());
    let asked = host.log.len();
    assert!(host.stop());
    assert!(!host.running());
    assert_eq!(host.log.len(), asked);
}

#[test]
fn running_follows_the_last_transition() {
    let mut host = Host::new(true, false);
    assert!(!host.running());
    assert!(host.start());
    assert!(host.running());
    assert!(host.stop());
    assert!(!host.running());
    assert!(host.start());
    assert!(host.running());
    host.init_ok = false;
    assert!(host.start());
    assert!(host.running());
    assert!(host.stop());
    assert!(!host.running());
    assert!(!host.start());
    assert!(!host.running());
    host.init_ok = true;
    host.companion = true;
    assert!(host.start());
    assert!(!host.running());
}

#[test]
fn the_stop_request_is_an_option() {
    assert_eq!(stop_request_option(true), ("stop-service", "Y"));
    assert_eq!(stop_request_option(false), ("stop-service", ""));
}
