//! The connection adapter: it owns the client handle once a connection
//! attempt completes, registers its own handlers in all four callback slots,
//! turns what they report into events, and decides on each timer tick what
//! the transport and the connection should do next.
use crate::backoff::is_backoff_period;
use crate::backoff::lemma_backoff_period_closed;
use crate::backoff::next_connect_period;
use crate::backoff::spec_next_connect_period;
use crate::backoff::DEFAULT_CONNECT_PERIOD_SECONDS;
use crate::client::IotHubDeviceClient;
use crate::client_ll::CallbackId;
use crate::client_ll::ClientModel;
use crate::client_ll::ConfirmationResult;
use crate::client_ll::ConnectionStatus as HubConnectionStatus;
use crate::client_ll::ConnectionStatusReason;
use crate::client_ll::DeviceTwinUpdateState;
use crate::client_ll::disposition_code;
use crate::client_ll::map_connection_status_code;
use crate::client_ll::spec_connection_status_reason;
use crate::client_ll::IotHubDeviceClientLowLevel;
use crate::client_ll::MessageDisposition;
use crate::codes;
use crate::connection::Connection;
use crate::connection::ConnectionSetup;
use crate::connection::ConnectionStatus;
use crate::connection::SetupModel;
use crate::connection::SetupStage;
use crate::events::EventQueue;
use crate::events::IotHubEvent;
use crate::message::encodable;
use crate::message::IotHubMessage;
use crate::message::MessageModel;
use vstd::prelude::*;
use vstd::string::StringSliceAdditionalSpecFns;

verus! {

/// Period of the transport's work pump.
pub const DO_WORK_INTERVAL_MILLISECOND: u32 = 100;

/// Failures that end the application.
#[derive(Debug, PartialEq, Eq, Clone, Copy, Structural)]
pub enum FailureReason {
    NetworkingIsReadyFailed,
}

/// What the application does when the adapter meets a failure it cannot
/// recover from; by default nothing.
pub trait FailureCallback {
    fn failure_callback(&mut self, reason: FailureReason) {
    }
}

/// Why a telemetry message could not be sent.
#[derive(Debug, PartialEq, Eq, Clone, Copy, Structural)]
pub enum IoTResult {
    /// No network connection was available.
    NoNetwork,
    /// Any other reason.
    OtherFailure,
}

/// Authentication state of the client with respect to the hub.
#[derive(Debug, PartialEq, Eq, Clone, Copy, Structural)]
pub enum AuthenticationState {
    NotAuthenticated,
    AuthenticationInitiated,
    Authenticated,
}

/// The phase of the connection, without the client it may carry.
#[derive(Debug, PartialEq, Eq, Clone, Copy, Structural)]
pub enum ConnectionPhase {
    NotStarted,
    Started,
    Complete,
    Failed,
}

/// Which periodic task a timer event belongs to.
#[derive(Debug, PartialEq, Eq, Clone, Copy, Structural)]
pub enum TimerTask {
    /// Pump the transport.
    DoWork,
    /// Check the connection and attempt one if due.
    Connect,
    /// The event came from neither timer.
    Unknown,
}

/// The client model after the adapter registered its handlers.
pub open spec fn with_adapter_callbacks(c: ClientModel) -> ClientModel {
    ClientModel {
        message_callback: Some(CallbackId::Adapter),
        connection_status_callback: Some(CallbackId::Adapter),
        device_twin_callback: Some(CallbackId::Adapter),
        device_method_callback: Some(CallbackId::Adapter),
        ..c
    }
}

/// The event reports the confirmation of `message` with `result`.
pub open spec fn is_confirmation(e: IotHubEvent, result: ConfirmationResult, message: MessageModel) -> bool {
    match e {
        IotHubEvent::MessageConfirmation { result: r, message: m } => r == result && m@ == message,
        _ => false,
    }
}

/// A callback slot of a client handle.
#[derive(Debug, PartialEq, Eq, Clone, Copy, Structural)]
pub enum SlotKind {
    Message,
    ConnectionStatus,
    DeviceTwin,
    DeviceMethod,
}

/// What the slot `kind` of the adapter's client leads to; nothing without
/// a client.
pub open spec fn spec_slot(client: Option<ClientModel>, kind: SlotKind) -> Option<CallbackId> {
    match client {
        None => None,
        Some(c) => match kind {
            SlotKind::Message => c.message_callback,
            SlotKind::ConnectionStatus => c.connection_status_callback,
            SlotKind::DeviceTwin => c.device_twin_callback,
            SlotKind::DeviceMethod => c.device_method_callback,
        },
    }
}

/// What the adapter holds, as mathematical values.
pub struct AzureIoTModel {
    pub do_work_timer: i32,
    pub connection_timer: i32,
    pub connect_period_seconds: u64,
    pub authentication_state: AuthenticationState,
    pub connection_phase: ConnectionPhase,
    pub client: Option<ClientModel>,
    pub events: Seq<IotHubEvent>,
}

impl AzureIoTModel {
    /// The client is live and the poll period is one of the backoff periods.
    pub open spec fn wf(&self) -> bool {
        &&& self.client is Some ==> self.client->Some_0.wf()
        &&& is_backoff_period(self.connect_period_seconds as int)
    }
}

/// An IoT hub connection adapter.
pub struct AzureIoT {
    do_work_timer: i32,
    connection_timer: i32,
    connect_period_seconds: u64,
    authentication_state: AuthenticationState,
    connection_phase: ConnectionPhase,
    client_handle: Option<IotHubDeviceClient>,
    connection: Connection,
    events: EventQueue,
}

impl View for AzureIoT {
    type V = AzureIoTModel;

    closed spec fn view(&self) -> AzureIoTModel {
        AzureIoTModel {
            do_work_timer: self.do_work_timer,
            connection_timer: self.connection_timer,
            connect_period_seconds: self.connect_period_seconds,
            authentication_state: self.authentication_state,
            connection_phase: self.connection_phase,
            client: match self.client_handle {
                Some(c) => Some(c@),
                None => None,
            },
            events: self.events@,
        }
    }
}

impl AzureIoT {
    /// A new adapter for a device with `model_id`, to connect to the hub at
    /// `hostname`; the two timers are known by their tokens.
    pub fn new(model_id: String, hostname: String, do_work_timer: i32, connection_timer: i32) -> (r: Self)
        ensures
            r@ == (AzureIoTModel {
                do_work_timer,
                connection_timer,
                connect_period_seconds: DEFAULT_CONNECT_PERIOD_SECONDS,
                authentication_state: AuthenticationState::NotAuthenticated,
                connection_phase: ConnectionPhase::NotStarted,
                client: None,
                events: Seq::empty(),
            }),
            r@.wf(),
            r.spec_connection().spec_model_id() == model_id@,
            r.spec_connection().spec_hostname() == hostname@,
    {
        AzureIoT {
            do_work_timer,
            connection_timer,
            connect_period_seconds: DEFAULT_CONNECT_PERIOD_SECONDS,
            authentication_state: AuthenticationState::NotAuthenticated,
            connection_phase: ConnectionPhase::NotStarted,
            client_handle: None,
            connection: Connection::new(model_id, hostname),
            events: EventQueue::new(),
        }
    }

    pub closed spec fn spec_connection(&self) -> Connection {
        self.connection
    }

    /// The connection settings.
    pub fn connection(&self) -> (r: &Connection)
        ensures
            *r == self.spec_connection(),
    {
        &self.connection
    }

    /// The tokens of the two timers.
    pub fn fd_list(&self) -> (r: Vec<i32>)
        ensures
            r@ == seq![self@.do_work_timer, self@.connection_timer],
    {
        let mut v: Vec<i32> = Vec::new();
        v.push(self.do_work_timer);
        v.push(self.connection_timer);
        v
    }

    /// The task that a timer event with token `fd` belongs to.
    pub fn event(&self, fd: i32) -> (r: TimerTask)
        ensures
            r == if fd == self@.do_work_timer {
                TimerTask::DoWork
            } else if fd == self@.connection_timer {
                TimerTask::Connect
            } else {
                TimerTask::Unknown
            },
    {
        if fd == self.do_work_timer {
            TimerTask::DoWork
        } else if fd == self.connection_timer {
            TimerTask::Connect
        } else {
            TimerTask::Unknown
        }
    }

    /// The handle whose work pump is to run on a work tick, if a connection
    /// is complete.
    pub fn do_work(&self) -> (r: Option<u32>)
        ensures
            r is Some <==> self@.client is Some,
            r is Some ==> r->Some_0 == self@.client->Some_0.handle,
    {
        match &self.client_handle {
            Some(c) => Some(c.do_work()),
            None => None,
        }
    }

    /// The period, in seconds, of the connection timer.
    pub fn connect_period_seconds(&self) -> (r: u64)
        ensures
            r == self@.connect_period_seconds,
    {
        self.connect_period_seconds
    }

    pub fn authentication_state(&self) -> (r: AuthenticationState)
        ensures
            r == self@.authentication_state,
    {
        self.authentication_state
    }

    pub fn connection_phase(&self) -> (r: ConnectionPhase)
        ensures
            r == self@.connection_phase,
    {
        self.connection_phase
    }

    /// The client of the complete connection, if any.
    pub fn client(&self) -> (r: Option<&IotHubDeviceClient>)
        ensures
            r is Some <==> self@.client is Some,
            r is Some ==> r->Some_0@ == self@.client->Some_0,
    {
        match &self.client_handle {
            Some(c) => Some(c),
            None => None,
        }
    }

    /// Takes the connection's report of its phase. On `Complete` the adapter
    /// keeps the client, puts its handlers in all four callback slots and
    /// resets the poll period to the default; on `Failed` the period backs
    /// off. Returns the period the connection timer is to run at.
    pub fn connection_status_callback(&mut self, status: ConnectionStatus) -> (r: u64)
        requires
            old(self)@.wf(),
            status is Complete ==> status->Complete_0@.wf(),
        ensures
            final(self)@.wf(),
            r == final(self)@.connect_period_seconds,
            final(self)@.events == old(self)@.events,
            final(self)@.do_work_timer == old(self)@.do_work_timer,
            final(self)@.connection_timer == old(self)@.connection_timer,
            final(self).spec_connection() == old(self).spec_connection(),
            match status {
                ConnectionStatus::NotStarted => final(self)@ == (AzureIoTModel {
                    connection_phase: ConnectionPhase::NotStarted,
                    ..old(self)@
                }),
                ConnectionStatus::Started => final(self)@ == (AzureIoTModel {
                    connection_phase: ConnectionPhase::Started,
                    ..old(self)@
                }),
                ConnectionStatus::Complete(c) => final(self)@ == (AzureIoTModel {
                    connection_phase: ConnectionPhase::Complete,
                    connect_period_seconds: DEFAULT_CONNECT_PERIOD_SECONDS,
                    authentication_state: AuthenticationState::AuthenticationInitiated,
                    client: Some(with_adapter_callbacks(c@)),
                    ..old(self)@
                }),
                ConnectionStatus::Failed => final(self)@ == (AzureIoTModel {
                    connection_phase: ConnectionPhase::Failed,
                    connect_period_seconds: spec_next_connect_period(
                        old(self)@.connect_period_seconds as int,
                    ) as u64,
                    ..old(self)@
                }),
            },
    {
        match status {
            ConnectionStatus::NotStarted => {
                self.connection_phase = ConnectionPhase::NotStarted;
            },
            ConnectionStatus::Started => {
                self.connection_phase = ConnectionPhase::Started;
            },
            ConnectionStatus::Complete(client) => {
                let mut client = client;
                client.set_message_callback(CallbackId::Adapter);
                client.set_device_twin_callback(CallbackId::Adapter);
                client.set_device_method_callback(CallbackId::Adapter);
                client.set_connection_status_callback(CallbackId::Adapter);
                self.client_handle = Some(client);
                self.connect_period_seconds = DEFAULT_CONNECT_PERIOD_SECONDS;
                self.authentication_state = AuthenticationState::AuthenticationInitiated;
                self.connection_phase = ConnectionPhase::Complete;
            },
            ConnectionStatus::Failed => {
                self.connection_phase = ConnectionPhase::Failed;
                proof {
                    lemma_backoff_period_closed(self.connect_period_seconds as int);
                }
                self.connect_period_seconds = next_connect_period(self.connect_period_seconds);
            },
        }
        self.connect_period_seconds
    }

    /// A tick of the connection timer. While the client is not
    /// authenticated and the network is ready, the old client is dropped
    /// and, unless an attempt is already under way, a new attempt starts:
    /// the connection enters `Started` and the attempt is returned for the
    /// caller to carry out.
    pub fn connection_timer_event(&mut self, networking_ready: bool) -> (r: Option<ConnectionSetup>)
        requires
            old(self)@.wf(),
        ensures
            final(self)@.wf(),
            final(self).spec_connection() == old(self).spec_connection(),
            !(old(self)@.authentication_state == AuthenticationState::NotAuthenticated
                && networking_ready) ==> r is None && final(self)@ == old(self)@,
            old(self)@.authentication_state == AuthenticationState::NotAuthenticated
                && networking_ready ==> {
                let starts = old(self)@.connection_phase == ConnectionPhase::NotStarted
                    || old(self)@.connection_phase == ConnectionPhase::Failed;
                &&& (r is Some <==> starts)
                &&& final(self)@ == (AzureIoTModel {
                    client: None,
                    connection_phase: if starts {
                        ConnectionPhase::Started
                    } else {
                        old(self)@.connection_phase
                    },
                    ..old(self)@
                })
                &&& (r is Some ==> r->Some_0@ == (SetupModel {
                    stage: SetupStage::CheckReady,
                    client: None,
                }) && r->Some_0@.wf())
            },
    {
        if self.authentication_state == AuthenticationState::NotAuthenticated && networking_ready {
            self.client_handle = None;
            if self.connection_phase == ConnectionPhase::NotStarted || self.connection_phase
                == ConnectionPhase::Failed {
                self.connection_status_callback(ConnectionStatus::Started);
                return Some(self.connection.start());
            }
        }
        None
    }

    /// The adapter's handler of inbound messages: the message is queued and
    /// accepted.
    pub fn on_message(&mut self, message: IotHubMessage) -> (r: MessageDisposition)
        ensures
            r == MessageDisposition::Accepted,
            final(self)@ == (AzureIoTModel {
                events: old(self)@.events.push(IotHubEvent::InboundMessage(message)),
                ..old(self)@
            }),
            final(self).spec_connection() == old(self).spec_connection(),
    {
        self.events.push(IotHubEvent::InboundMessage(message));
        MessageDisposition::Accepted
    }

    /// The adapter's handler of device twin updates: the update is queued.
    pub fn on_device_twin(&mut self, update_state: DeviceTwinUpdateState, payload: Vec<u8>)
        ensures
            final(self)@ == (AzureIoTModel {
                events: old(self)@.events.push(
                    IotHubEvent::DeviceTwinUpdated { update_state, payload },
                ),
                ..old(self)@
            }),
            final(self).spec_connection() == old(self).spec_connection(),
    {
        self.events.push(IotHubEvent::DeviceTwinUpdated { update_state, payload });
    }

    /// The adapter's handler of device method invocations: the invocation
    /// is queued, and with no method handler at this level the answer is
    /// status -1 with an empty body.
    pub fn on_device_method(&mut self, method_name: String, payload: Vec<u8>) -> (r: (i32, Vec<u8>))
        ensures
            r.0 == -1,
            r.1@.len() == 0,
            final(self)@ == (AzureIoTModel {
                events: old(self)@.events.push(
                    IotHubEvent::DeviceMethodInvoked { method_name, payload },
                ),
                ..old(self)@
            }),
            final(self).spec_connection() == old(self).spec_connection(),
    {
        self.events.push(IotHubEvent::DeviceMethodInvoked { method_name, payload });
        (-1, Vec::new())
    }

    /// The adapter's handler of connection status changes. Authentication
    /// makes the client ready to send; losing it sends the connection back
    /// to `NotStarted`, so that the connection timer starts a new attempt.
    /// The change is queued.
    pub fn on_connection_status(&mut self, status: HubConnectionStatus, reason: ConnectionStatusReason)
        ensures
            final(self)@ == (AzureIoTModel {
                events: old(self)@.events.push(
                    IotHubEvent::ConnectionStatusChanged { status, reason },
                ),
                authentication_state: if status == HubConnectionStatus::Authenticated {
                    AuthenticationState::Authenticated
                } else {
                    AuthenticationState::NotAuthenticated
                },
                connection_phase: if status == HubConnectionStatus::Authenticated {
                    old(self)@.connection_phase
                } else {
                    ConnectionPhase::NotStarted
                },
                ..old(self)@
            }),
            final(self).spec_connection() == old(self).spec_connection(),
    {
        if status == HubConnectionStatus::Authenticated {
            self.authentication_state = AuthenticationState::Authenticated;
        } else {
            self.authentication_state = AuthenticationState::NotAuthenticated;
            self.connection_phase = ConnectionPhase::NotStarted;
        }
        self.events.push(IotHubEvent::ConnectionStatusChanged { status, reason });
    }

    /// The completion of the send that `context` names: the message comes
    /// back in one confirmation event. A context that is not in flight
    /// changes nothing.
    pub fn on_send_confirmation(&mut self, context: u64, result: ConfirmationResult)
        requires
            old(self)@.wf(),
        ensures
            final(self)@.wf(),
            final(self).spec_connection() == old(self).spec_connection(),
            ({
                let found = old(self)@.client is Some && exists|i: int|
                    0 <= i < old(self)@.client->Some_0.pending_sends.len() && old(
                        self,
                    )@.client->Some_0.pending_sends[i].0 == context;
                &&& !found ==> final(self)@ == old(self)@
                &&& found ==> exists|i: int|
                    0 <= i < old(self)@.client->Some_0.pending_sends.len() && old(
                        self,
                    )@.client->Some_0.pending_sends[i].0 == context && final(self)@.events.len()
                        == old(self)@.events.len() + 1 && final(self)@.events.drop_last() == old(
                        self,
                    )@.events && is_confirmation(
                        final(self)@.events.last(),
                        result,
                        old(self)@.client->Some_0.pending_sends[i].1,
                    ) && final(self)@ == (AzureIoTModel {
                        client: Some(
                            ClientModel {
                                pending_sends: old(self)@.client->Some_0.pending_sends.remove(i),
                                ..old(self)@.client->Some_0
                            },
                        ),
                        events: final(self)@.events,
                        ..old(self)@
                    })
            }),
    {
        match &mut self.client_handle {
            Some(c) => {
                match c.client.confirm_send(context) {
                    Some(message) => {
                        self.events.push(IotHubEvent::MessageConfirmation { result, message });
                    },
                    None => {},
                }
            },
            None => {},
        }
    }

    /// The acknowledgement of the reported-state update that `context`
    /// names: it is queued once. A context that is not in flight changes
    /// nothing.
    pub fn on_reported_state(&mut self, context: u64, reason: ConnectionStatusReason)
        requires
            old(self)@.wf(),
        ensures
            final(self)@.wf(),
            final(self).spec_connection() == old(self).spec_connection(),
            ({
                let found = old(self)@.client is Some && old(
                    self,
                )@.client->Some_0.pending_reports.contains(context);
                &&& !found ==> final(self)@ == old(self)@
                &&& found ==> exists|i: int|
                    0 <= i < old(self)@.client->Some_0.pending_reports.len() && old(
                        self,
                    )@.client->Some_0.pending_reports[i] == context && final(self)@ == (
                    AzureIoTModel {
                        client: Some(
                            ClientModel {
                                pending_reports: old(self)@.client->Some_0.pending_reports.remove(
                                    i,
                                ),
                                ..old(self)@.client->Some_0
                            },
                        ),
                        events: old(self)@.events.push(IotHubEvent::ReportedStateAck(reason)),
                        ..old(self)@
                    })
            }),
    {
        match &mut self.client_handle {
            Some(c) => {
                if c.client.confirm_reported_state(context) {
                    self.events.push(IotHubEvent::ReportedStateAck(reason));
                }
            },
            None => {},
        }
    }

    /// Takes every queued event, in the order the callbacks fired.
    pub fn drain_events(&mut self) -> (r: Vec<IotHubEvent>)
        ensures
            r@ == old(self)@.events,
            final(self)@ == (AzureIoTModel { events: Seq::empty(), ..old(self)@ }),
            final(self).spec_connection() == old(self).spec_connection(),
    {
        self.events.drain()
    }

    /// Sends `json_message` as a text message. Fails with `NoNetwork` when
    /// the network is not ready, and with `OtherFailure` when the client is
    /// not authenticated, the text cannot be encoded or no context is left.
    /// On success the context of the send is returned.
    pub fn send_telemetry(&mut self, json_message: &str, networking_ready: bool) -> (r: Result<u64, IoTResult>)
        requires
            old(self)@.wf(),
        ensures
            final(self)@.wf(),
            final(self).spec_connection() == old(self).spec_connection(),
            !networking_ready ==> r == Err::<u64, IoTResult>(IoTResult::NoNetwork),
            r is Err ==> final(self)@ == old(self)@,
            r is Ok <==> networking_ready && old(self)@.authentication_state
                == AuthenticationState::Authenticated && old(self)@.client is Some && encodable(
                json_message.spec_bytes(),
            ) && old(self)@.client->Some_0.next_context < u64::MAX,
            networking_ready && !(r is Ok) ==> r == Err::<u64, IoTResult>(IoTResult::OtherFailure),
            r is Ok ==> {
                let c = old(self)@.client->Some_0;
                &&& r->Ok_0 == c.next_context
                &&& final(self)@.client is Some
                &&& final(self)@.client->Some_0.pending_sends.len() == c.pending_sends.len() + 1
                &&& final(self)@.client->Some_0.pending_sends.drop_last() == c.pending_sends
                &&& final(self)@.client->Some_0.pending_sends.last().0 == c.next_context
                &&& final(self)@.client->Some_0.pending_sends.last().1.content
                    == crate::message::ContentModel::Text(json_message@)
                &&& final(self)@ == (AzureIoTModel {
                    client: Some(
                        ClientModel {
                            pending_sends: final(self)@.client->Some_0.pending_sends,
                            next_context: (c.next_context + 1) as u64,
                            ..c
                        },
                    ),
                    ..old(self)@
                })
            },
    {
        if !networking_ready {
            return Err(IoTResult::NoNetwork);
        }
        if self.authentication_state != AuthenticationState::Authenticated {
            return Err(IoTResult::OtherFailure);
        }
        let message = match IotHubMessage::from_string(json_message) {
            Ok(m) => m,
            Err(_) => {
                return Err(IoTResult::OtherFailure);
            },
        };
        match &mut self.client_handle {
            Some(c) => match c.send_event(message) {
                Ok(context) => Ok(context),
                Err(_) => Err(IoTResult::OtherFailure),
            },
            None => Err(IoTResult::OtherFailure),
        }
    }
}

impl AzureIoT {
    /// What the slot `kind` of the client leads to.
    pub fn callback_slot(&self, kind: SlotKind) -> (r: Option<CallbackId>)
        ensures
            r == spec_slot(self@.client, kind),
    {
        match &self.client_handle {
            None => None,
            Some(c) => {
                let ll: &IotHubDeviceClientLowLevel = &c.client;
                match kind {
                    SlotKind::Message => ll.message_callback(),
                    SlotKind::ConnectionStatus => ll.connection_status_callback(),
                    SlotKind::DeviceTwin => ll.device_twin_callback(),
                    SlotKind::DeviceMethod => ll.device_method_callback(),
                }
            },
        }
    }

    /// Ends a connection attempt and reports its outcome, once: `Complete`
    /// with the attempt's client if every step succeeded, `Failed`
    /// otherwise. With `connection_timer_event`, which reports `Started`,
    /// each attempt is reported exactly twice. Returns the period the
    /// connection timer is to run at.
    pub fn complete_connection_attempt(&mut self, setup: ConnectionSetup) -> (r: u64)
        requires
            old(self)@.wf(),
            setup@.wf(),
        ensures
            final(self)@.wf(),
            r == final(self)@.connect_period_seconds,
            final(self).spec_connection() == old(self).spec_connection(),
            setup@.stage == SetupStage::Succeeded ==> final(self)@ == (AzureIoTModel {
                connection_phase: ConnectionPhase::Complete,
                connect_period_seconds: DEFAULT_CONNECT_PERIOD_SECONDS,
                authentication_state: AuthenticationState::AuthenticationInitiated,
                client: Some(with_adapter_callbacks(setup@.client->Some_0)),
                ..old(self)@
            }),
            setup@.stage != SetupStage::Succeeded ==> final(self)@ == (AzureIoTModel {
                connection_phase: ConnectionPhase::Failed,
                connect_period_seconds: spec_next_connect_period(
                    old(self)@.connect_period_seconds as int,
                ) as u64,
                ..old(self)@
            }),
    {
        let status = setup.finish();
        self.connection_status_callback(status)
    }

    /// Delivers an inbound message to the callback in the message slot and
    /// returns the disposition code to relay. The adapter's handler queues
    /// the message and accepts it, or rejects a message that could not be
    /// read (`None`); the built-in handler accepts. For a callback of the
    /// application the answer is `None`: the caller runs it and relays its
    /// verdict.
    pub fn deliver_message(&mut self, message: Option<IotHubMessage>) -> (r: Option<u32>)
        ensures
            final(self).spec_connection() == old(self).spec_connection(),
            ({
                let slot = spec_slot(old(self)@.client, SlotKind::Message);
                &&& slot == Some(CallbackId::Adapter) && message is Some ==> r == Some(
                    codes::IOTHUBMESSAGE_ACCEPTED,
                ) && final(self)@ == (AzureIoTModel {
                    events: old(self)@.events.push(IotHubEvent::InboundMessage(message->Some_0)),
                    ..old(self)@
                })
                &&& slot == Some(CallbackId::Adapter) && message is None ==> r == Some(
                    codes::IOTHUBMESSAGE_REJECTED,
                ) && final(self)@ == old(self)@
                &&& slot is Some && slot->Some_0 is User ==> r is None && final(self)@ == old(
                    self,
                )@
                &&& (slot is None || slot == Some(CallbackId::Default)) ==> r == Some(
                    codes::IOTHUBMESSAGE_ACCEPTED,
                ) && final(self)@ == old(self)@
            }),
    {
        match self.callback_slot(SlotKind::Message) {
            Some(CallbackId::Adapter) => match message {
                Some(m) => Some(disposition_code(self.on_message(m))),
                None => Some(disposition_code(MessageDisposition::Rejected)),
            },
            Some(CallbackId::User(_)) => None,
            _ => Some(disposition_code(crate::client::default_message_disposition())),
        }
    }

    /// Delivers a native connection status change to the adapter's handler
    /// when it holds the connection status slot; returns whether it did.
    pub fn deliver_connection_status(&mut self, result: u32, reason: u32) -> (r: bool)
        ensures
            final(self).spec_connection() == old(self).spec_connection(),
            r <==> spec_slot(old(self)@.client, SlotKind::ConnectionStatus) == Some(
                CallbackId::Adapter,
            ),
            !r ==> final(self)@ == old(self)@,
            r ==> {
                let status = if result == codes::IOTHUB_CLIENT_CONNECTION_AUTHENTICATED {
                    HubConnectionStatus::Authenticated
                } else {
                    HubConnectionStatus::Unauthenticated
                };
                &&& final(self)@.client == old(self)@.client
                &&& final(self)@.connect_period_seconds == old(self)@.connect_period_seconds
                &&& final(self)@.authentication_state == if status
                    == HubConnectionStatus::Authenticated {
                    AuthenticationState::Authenticated
                } else {
                    AuthenticationState::NotAuthenticated
                }
                &&& final(self)@.events.len() == old(self)@.events.len() + 1
                &&& final(self)@.events.drop_last() == old(self)@.events
                &&& match final(self)@.events.last() {
                    IotHubEvent::ConnectionStatusChanged { status: s, reason: why } => s == status
                        && why == spec_connection_status_reason(reason),
                    _ => false,
                }
            },
    {
        let adapter = match self.callback_slot(SlotKind::ConnectionStatus) {
            Some(CallbackId::Adapter) => true,
            _ => false,
        };
        if adapter {
            let status = map_connection_status_code(result);
            let why = IotHubDeviceClientLowLevel::map_connection_status(reason);
            let ghost before = self@.events;
            self.on_connection_status(status, why);
            assert(self@.events.drop_last() =~= before);
            true
        } else {
            false
        }
    }
}

} // verus!
