use azure_sphere::azureiot::AuthenticationState;
use azure_sphere::azureiot::AzureIoT;
use azure_sphere::azureiot::ConnectionPhase;
use azure_sphere::azureiot::IoTResult;
use azure_sphere::azureiot::SlotKind;
use azure_sphere::azureiot::TimerTask;
use azure_sphere::backoff::next_connect_period;
use azure_sphere::client_ll::CallbackId;
use azure_sphere::client_ll::ConfirmationResult;
use azure_sphere::client_ll::ConnectionStatus as HubStatus;
use azure_sphere::client_ll::ConnectionStatusReason;
use azure_sphere::client_ll::DeviceTwinUpdateState;
use azure_sphere::client_ll::MessageDisposition;
use azure_sphere::connection::ConnectionSetup;
use azure_sphere::connection::ConnectionStatus;
use azure_sphere::connection::SetupAction;
use azure_sphere::connection::SetupOutcome;
use azure_sphere::connection::SetupStage;
use azure_sphere::events::EventQueue;
use azure_sphere::events::IotHubEvent;
use azure_sphere::message::IotHubMessage;
use azure_sphere::security::SecurityType;
use azure_sphere::client_ll::TransportProvider;

/// A transport whose handle creation fails a given number of times first.
struct FakeTransport {
    failures_left: u32,
    next_handle: u32,
    created: Vec<u32>,
    actions: Vec<SetupAction>,
}

impl FakeTransport {
    fn new(failures: u32) -> Self {
        FakeTransport { failures_left: failures, next_handle: 100, created: vec![], actions: vec![] }
    }

    fn run(&mut self, setup: ConnectionSetup) -> ConnectionStatus {
        self.run_steps(setup).finish()
    }

    fn run_steps(&mut self, mut setup: ConnectionSetup) -> ConnectionSetup {
        loop {
            let action = setup.next_action();
            self.actions.push(action);
            let outcome = match action {
                SetupAction::CheckReadyToConnect => SetupOutcome::Ready(true),
                SetupAction::InitSecurity(_) => SetupOutcome::SecurityInitialized(0),
                SetupAction::CreateFromDeviceAuth(_) => {
                    if self.failures_left > 0 {
                        self.failures_left -= 1;
                        SetupOutcome::ClientCreated(0)
                    } else {
                        let h = self.next_handle;
                        self.next_handle += 1;
                        self.created.push(h);
                        SetupOutcome::ClientCreated(h)
                    }
                }
                SetupAction::SetOptionDeviceId(_)
                | SetupAction::SetOptionAutoUrlEncodeDecode(_)
                | SetupAction::SetOptionModelId => SetupOutcome::OptionSet(0),
                SetupAction::Finished => return setup,
            };
            setup.advance(outcome);
        }
    }
}

fn connected_adapter() -> AzureIoT {
    let mut iot = AzureIoT::new(String::from("dtmi:test;1"), String::from("hub.example"), 3, 4);
    let mut t = FakeTransport::new(0);
    let setup = iot.connection_timer_event(true).unwrap();
    let status = t.run(setup);
    iot.connection_status_callback(status);
    iot.on_connection_status(HubStatus::Authenticated, ConnectionStatusReason::ConnectionOk);
    iot.drain_events();
    iot
}

#[test]
fn backoff_sequence_from_default() {
    let mut p = 1;
    let mut seen = vec![];
    for _ in 0..9 {
        p = next_connect_period(p);
        seen.push(p);
    }
    assert_eq!(seen, vec![10, 20, 40, 80, 160, 320, 600, 600, 600]);
    assert_eq!(next_connect_period(300), 600);
    assert_eq!(next_connect_period(301), 600);
    assert_eq!(next_connect_period(u64::MAX), 600);
}

#[test]
fn failures_back_off_and_completion_resets() {
    let mut iot = AzureIoT::new(String::from("m"), String::from("h"), 1, 2);
    assert_eq!(iot.connect_period_seconds(), 1);
    assert_eq!(iot.connection_status_callback(ConnectionStatus::Failed), 10);
    assert_eq!(iot.connection_status_callback(ConnectionStatus::Failed), 20);
    assert_eq!(iot.connection_status_callback(ConnectionStatus::Failed), 40);
    let mut t = FakeTransport::new(0);
    let setup = iot.connection_timer_event(true).unwrap();
    let status = t.run(setup);
    assert!(matches!(status, ConnectionStatus::Complete(_)));
    assert_eq!(iot.connection_status_callback(status), 1);
    assert_eq!(iot.connection_status_callback(ConnectionStatus::Failed), 10);
}

#[test]
fn end_to_end_two_failures_then_success() {
    let mut iot = AzureIoT::new(String::from("dtmi:test;1"), String::from("hub.example"), 3, 4);
    let mut t = FakeTransport::new(2);
    let mut phases = vec![];
    let mut periods = vec![];
    for _ in 0..3 {
        let setup = iot.connection_timer_event(true).expect("an attempt starts");
        assert_eq!(iot.connection_phase(), ConnectionPhase::Started);
        let finished = t.run_steps(setup);
        periods.push(iot.complete_connection_attempt(finished));
        phases.push(iot.connection_phase());
    }
    assert_eq!(phases, vec![ConnectionPhase::Failed, ConnectionPhase::Failed, ConnectionPhase::Complete]);
    assert_eq!(periods, vec![10, 20, 1]);
    assert_eq!(t.created, vec![100]);
    let client = iot.client().unwrap();
    assert_eq!(client.client.handle(), 100);
    assert_eq!(client.client.message_callback(), Some(CallbackId::Adapter));
    assert_eq!(client.client.connection_status_callback(), Some(CallbackId::Adapter));
    assert_eq!(client.client.device_twin_callback(), Some(CallbackId::Adapter));
    assert_eq!(client.client.device_method_callback(), Some(CallbackId::Adapter));
    assert_eq!(iot.do_work(), Some(100));
    assert_eq!(iot.authentication_state(), AuthenticationState::AuthenticationInitiated);
    // a complete connection starts no new attempt
    assert!(iot.connection_timer_event(true).is_none());
}

#[test]
fn setup_steps_come_in_order() {
    let mut t = FakeTransport::new(0);
    let status = t.run(ConnectionSetup::new());
    assert!(matches!(status, ConnectionStatus::Complete(_)));
    assert_eq!(
        t.actions,
        vec![
            SetupAction::CheckReadyToConnect,
            SetupAction::InitSecurity(SecurityType::X509),
            SetupAction::CreateFromDeviceAuth(TransportProvider::MQTT),
            SetupAction::SetOptionDeviceId(1),
            SetupAction::SetOptionAutoUrlEncodeDecode(true),
            SetupAction::SetOptionModelId,
            SetupAction::Finished,
        ]
    );
}

#[test]
fn setup_stops_at_first_failure() {
    let mut s = ConnectionSetup::new();
    s.advance(SetupOutcome::Ready(true));
    s.advance(SetupOutcome::SecurityInitialized(0));
    s.advance(SetupOutcome::ClientCreated(9));
    assert_eq!(s.client_handle(), Some(9));
    s.advance(SetupOutcome::OptionSet(2));
    assert_eq!(s.next_action(), SetupAction::Finished);
    assert_eq!(s.client_handle(), None);
    assert!(matches!(s.finish(), ConnectionStatus::Failed));

    let mut s = ConnectionSetup::new();
    s.advance(SetupOutcome::Ready(false));
    assert!(matches!(s.finish(), ConnectionStatus::Failed));

    let mut s = ConnectionSetup::new();
    s.advance(SetupOutcome::Ready(true));
    s.advance(SetupOutcome::SecurityInitialized(-3));
    assert_eq!(s.next_action(), SetupAction::Finished);
    let _ = SetupStage::Failed;
}

#[test]
fn no_attempt_without_network() {
    let mut iot = AzureIoT::new(String::from("m"), String::from("h"), 1, 2);
    assert!(iot.connection_timer_event(false).is_none());
    assert_eq!(iot.connection_phase(), ConnectionPhase::NotStarted);
    // while an attempt is under way no second one starts
    assert!(iot.connection_timer_event(true).is_some());
    assert!(iot.connection_timer_event(true).is_none());
}

#[test]
fn timer_dispatch() {
    let iot = AzureIoT::new(String::from("m"), String::from("h"), 7, 8);
    assert_eq!(iot.event(7), TimerTask::DoWork);
    assert_eq!(iot.event(8), TimerTask::Connect);
    assert_eq!(iot.event(9), TimerTask::Unknown);
    assert_eq!(iot.fd_list(), vec![7, 8]);
    assert_eq!(iot.do_work(), None);
}

#[test]
fn send_round_trip_gives_one_confirmation() {
    let mut iot = connected_adapter();
    assert_eq!(iot.authentication_state(), AuthenticationState::Authenticated);
    let ctx = iot.send_telemetry("{\"temperature\":21}", true).unwrap();
    iot.on_send_confirmation(ctx, ConfirmationResult::Success);
    iot.on_send_confirmation(ctx, ConfirmationResult::Success);
    let events = iot.drain_events();
    assert_eq!(events.len(), 1);
    match &events[0] {
        IotHubEvent::MessageConfirmation { result, message } => {
            assert_eq!(*result, ConfirmationResult::Success);
            assert_eq!(message.get_string(), Ok(String::from("{\"temperature\":21}")));
        }
        _ => panic!("expected a confirmation"),
    }
}

#[test]
fn telemetry_failures() {
    let mut iot = AzureIoT::new(String::from("m"), String::from("h"), 1, 2);
    assert_eq!(iot.send_telemetry("{}", false), Err(IoTResult::NoNetwork));
    assert_eq!(iot.send_telemetry("{}", true), Err(IoTResult::OtherFailure));
    let mut iot = connected_adapter();
    assert_eq!(iot.send_telemetry("a\0b", true), Err(IoTResult::OtherFailure));
    iot.on_connection_status(HubStatus::Unauthenticated, ConnectionStatusReason::NoNetwork);
    assert_eq!(iot.authentication_state(), AuthenticationState::NotAuthenticated);
    assert_eq!(iot.connection_phase(), ConnectionPhase::NotStarted);
    assert_eq!(iot.send_telemetry("{}", true), Err(IoTResult::OtherFailure));
}

#[test]
fn queue_keeps_order_and_drains_once() {
    let mut iot = connected_adapter();
    let m1 = IotHubMessage::from_string("first").unwrap();
    assert_eq!(iot.on_message(m1), MessageDisposition::Accepted);
    iot.on_device_twin(DeviceTwinUpdateState::Partial, vec![1, 2]);
    let batch1 = iot.drain_events();
    let (code, body) = iot.on_device_method(String::from("reboot"), vec![3]);
    assert_eq!(code, -1);
    assert!(body.is_empty());
    let batch2 = iot.drain_events();
    let batch3 = iot.drain_events();
    assert_eq!(batch1.len(), 2);
    assert!(matches!(&batch1[0], IotHubEvent::InboundMessage(m) if m.get_string() == Ok(String::from("first"))));
    assert!(matches!(&batch1[1], IotHubEvent::DeviceTwinUpdated { update_state: DeviceTwinUpdateState::Partial, payload } if *payload == vec![1, 2]));
    assert_eq!(batch2.len(), 1);
    assert!(matches!(&batch2[0], IotHubEvent::DeviceMethodInvoked { method_name, payload } if method_name == "reboot" && *payload == vec![3]));
    assert!(batch3.is_empty());
}

#[test]
fn event_queue_push_and_drain() {
    let mut q = EventQueue::new();
    q.push(IotHubEvent::ReportedStateAck(ConnectionStatusReason::ConnectionOk));
    q.push(IotHubEvent::ReportedStateAck(ConnectionStatusReason::NoNetwork));
    assert_eq!(q.len(), 2);
    let first = q.drain();
    assert_eq!(q.len(), 0);
    q.push(IotHubEvent::ReportedStateAck(ConnectionStatusReason::RetryExpired));
    let second = q.drain();
    assert!(matches!(first[0], IotHubEvent::ReportedStateAck(ConnectionStatusReason::ConnectionOk)));
    assert!(matches!(first[1], IotHubEvent::ReportedStateAck(ConnectionStatusReason::NoNetwork)));
    assert_eq!(second.len(), 1);
    assert!(matches!(second[0], IotHubEvent::ReportedStateAck(ConnectionStatusReason::RetryExpired)));
}

#[test]
fn unknown_reported_state_ack_is_ignored() {
    let mut iot = connected_adapter();
    iot.on_reported_state(5, ConnectionStatusReason::ConnectionOk);
    assert!(iot.drain_events().is_empty());
}

#[test]
fn slots_route_native_callbacks() {
    let mut iot = AzureIoT::new(String::from("m"), String::from("h"), 1, 2);
    // no client yet: the built-in answer, nothing queued
    assert_eq!(iot.deliver_message(IotHubMessage::from_string("x").ok()), Some(0));
    assert!(!iot.deliver_connection_status(0, 6));
    assert!(iot.drain_events().is_empty());
    let mut iot = connected_adapter();
    assert_eq!(iot.callback_slot(SlotKind::Message), Some(CallbackId::Adapter));
    assert_eq!(iot.deliver_message(IotHubMessage::from_string("hello").ok()), Some(0));
    assert_eq!(iot.deliver_message(None), Some(1));
    assert!(iot.deliver_connection_status(1, 4));
    assert_eq!(iot.authentication_state(), AuthenticationState::NotAuthenticated);
    let events = iot.drain_events();
    assert_eq!(events.len(), 2);
    assert!(matches!(&events[0], IotHubEvent::InboundMessage(m) if m.get_string() == Ok(String::from("hello"))));
    assert!(matches!(
        events[1],
        IotHubEvent::ConnectionStatusChanged { status: HubStatus::Unauthenticated, reason: ConnectionStatusReason::NoNetwork }
    ));
}

#[test]
fn failed_attempt_is_reported_once() {
    let mut iot = AzureIoT::new(String::from("m"), String::from("h"), 1, 2);
    let mut setup = iot.connection_timer_event(true).unwrap();
    setup.advance(SetupOutcome::Ready(false));
    assert_eq!(iot.complete_connection_attempt(setup), 10);
    assert_eq!(iot.connection_phase(), ConnectionPhase::Failed);
    assert!(iot.client().is_none());
}
