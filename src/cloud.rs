//! The thermometer device's cloud logic: it answers device methods, applies
//! the desired-property part of device twin documents, and tells the
//! application what changed.
use crate::azureiot::AzureIoT;
use crate::azureiot::AzureIoTModel;
use crate::azureiot::IoTResult;
use crate::azureiot::is_confirmation;
use crate::azureiot::with_adapter_callbacks;
use crate::azureiot::AuthenticationState;
use crate::azureiot::ConnectionPhase;
use crate::azureiot::spec_slot;
use crate::azureiot::SlotKind;
use crate::azureiot::TimerTask;
use crate::client_ll::decode_device_twin;
use crate::client_ll::decode_method_name;
use crate::client_ll::map_connection_status_code;
use crate::client_ll::CallbackId;
use crate::client_ll::IotHubDeviceClientLowLevel;
use crate::codes;
use crate::backoff::spec_next_connect_period;
use crate::backoff::DEFAULT_CONNECT_PERIOD_SECONDS;
use crate::client_ll::ClientModel;
use crate::connection::SetupModel;
use crate::connection::SetupStage;
use crate::client_ll::ConfirmationResult;
use crate::client_ll::MessageDisposition;
use crate::connection::ConnectionSetup;
use crate::connection::ConnectionStatus;
use crate::events::IotHubEvent;
use crate::message::IotHubMessage;
use crate::client_ll::text_from_utf8;
use crate::client_ll::ConnectionStatus as HubConnectionStatus;
use crate::client_ll::ConnectionStatusReason;
use crate::client_ll::DeviceTwinUpdateState;
use vstd::prelude::*;
use vstd::slice::slice_to_vec;
use vstd::string::StringSliceAdditionalSpecFns;
use vstd::utf8::decode_utf8;
use vstd::utf8::valid_utf8;

verus! {

#[verifier::external_type_specification]
#[verifier::external_body]
pub struct ExJsonValue(serde_json::Value);

/// Relies on `serde_json::Value::as_bool`: the boolean of a JSON boolean,
/// `None` for any other value.
pub assume_specification[ serde_json::Value::as_bool ](v: &serde_json::Value) -> Option<bool>;

/// Relies on `serde_json::Value::as_u64`: the number of a JSON integer that
/// fits a `u64`, `None` for any other value.
pub assume_specification[ serde_json::Value::as_u64 ](v: &serde_json::Value) -> Option<u64>;

/// Whether a text is one JSON document, as serde_json's parser decides.
pub uninterp spec fn json_parses(s: Seq<char>) -> bool;

/// Relies on `serde_json::from_str` into a `serde_json::Value`: it succeeds
/// exactly on the texts that hold one JSON document.
#[verifier::external_body]
fn parse_json(s: &str) -> (r: Option<serde_json::Value>)
    ensures
        r is Some <==> json_parses(s@),
{
    serde_json::from_str::<serde_json::Value>(s).ok()
}

/// Relies on `serde_json::Value::get` with a string key: the member of that
/// name of a JSON object, `None` when there is no such member or the value
/// is no object.
#[verifier::external_body]
fn json_member(v: &serde_json::Value, key: &str) -> (r: Option<serde_json::Value>) {
    v.get(key).cloned()
}

/// The model id announced to the hub.
pub const MODEL_ID: &'static str = "dtmi:com:example:azuresphere:thermometer;1";

/// The device method that displays an alert.
pub const DISPLAY_ALERT_METHOD: &'static str = "displayAlert";

/// The answer to a displayed alert: a JSON string, quotes included.
pub const ALERT_RESPONSE: &'static str = "\"Alert message displayed successfully.\"";

/// The alert text shown when the payload is not UTF-8.
pub const ALERT_NOT_UTF8: &'static str = "Failed to convert alert to utf8";

/// The answer to a method this device does not have.
pub const UNKNOWN_METHOD_RESPONSE: &'static str = "{}";

/// Why the cloud could not take a telemetry message.
#[derive(Debug, PartialEq, Eq, Clone, Copy, Structural)]
pub enum CloudResult {
    NoNetwork,
    OtherFailure,
}

/// The cloud's result for an adapter's result.
pub fn azureiot_to_cloud_result(azureiot_result: Result<(), IoTResult>) -> (r: Result<(), CloudResult>)
    ensures
        r == match azureiot_result {
            Ok(_) => Ok::<(), CloudResult>(()),
            Err(IoTResult::NoNetwork) => Err::<(), CloudResult>(CloudResult::NoNetwork),
            Err(IoTResult::OtherFailure) => Err::<(), CloudResult>(CloudResult::OtherFailure),
        },
{
    match azureiot_result {
        Ok(_) => Ok(()),
        Err(IoTResult::NoNetwork) => Err(CloudResult::NoNetwork),
        Err(IoTResult::OtherFailure) => Err(CloudResult::OtherFailure),
    }
}

/// What the cloud tells the application.
pub enum CloudNotification {
    /// The telemetry upload setting changed, by the cloud or not.
    TelemetryUploadEnabledChanged { upload_enabled: bool, from_cloud: bool },
    /// An alert is to be displayed.
    DisplayAlert(String),
    /// The connection to the hub came up or went down.
    ConnectionChanged(bool),
}

/// The state of the cloud logic.
pub struct CloudData {
    last_acked_version: u64,
    notifications: Vec<CloudNotification>,
}

/// What the cloud logic holds, as mathematical values.
pub struct CloudModel {
    pub last_acked_version: u64,
    pub notifications: Seq<CloudNotification>,
}

impl View for CloudData {
    type V = CloudModel;

    closed spec fn view(&self) -> CloudModel {
        CloudModel { last_acked_version: self.last_acked_version, notifications: self.notifications@ }
    }
}

/// The alert text of a payload: its text when it is UTF-8, a fixed notice
/// otherwise.
pub open spec fn alert_text(payload: Seq<u8>) -> Seq<char> {
    if valid_utf8(payload) {
        decode_utf8(payload)
    } else {
        ALERT_NOT_UTF8@
    }
}

impl CloudData {
    pub fn new() -> (r: Self)
        ensures
            r@ == (CloudModel { last_acked_version: 0, notifications: Seq::empty() }),
    {
        CloudData { last_acked_version: 0, notifications: Vec::new() }
    }

    /// The desired-properties version acknowledged last.
    pub fn last_acked_version(&self) -> (r: u64)
        ensures
            r == self@.last_acked_version,
    {
        self.last_acked_version
    }

    /// Takes the notifications, in the order they were made.
    pub fn take_notifications(&mut self) -> (r: Vec<CloudNotification>)
        ensures
            r@ == old(self)@.notifications,
            final(self)@ == (CloudModel { notifications: Seq::empty(), ..old(self)@ }),
    {
        let mut taken: Vec<CloudNotification> = Vec::new();
        std::mem::swap(&mut taken, &mut self.notifications);
        taken
    }

    /// Answers a device method. `displayAlert` shows its payload as an alert
    /// and answers 200 with a JSON string; any other method is ignored and
    /// answered -1 with an empty JSON object.
    pub fn device_method_callback_handler(&mut self, method_name: String, payload: Vec<u8>) -> (r: (
        i32,
        Vec<u8>,
    ))
        ensures
            method_name@ == DISPLAY_ALERT_METHOD@ ==> {
                &&& r.0 == 200
                &&& r.1@ == ALERT_RESPONSE.spec_bytes()
                &&& final(self)@.last_acked_version == old(self)@.last_acked_version
                &&& final(self)@.notifications.len() == old(self)@.notifications.len() + 1
                &&& final(self)@.notifications.drop_last() == old(self)@.notifications
                &&& match final(self)@.notifications.last() {
                    CloudNotification::DisplayAlert(s) => s@ == alert_text(payload@),
                    _ => false,
                }
            },
            method_name@ != DISPLAY_ALERT_METHOD@ ==> {
                &&& r.0 == -1
                &&& r.1@ == UNKNOWN_METHOD_RESPONSE.spec_bytes()
                &&& final(self)@ == old(self)@
            },
    {
        let expected: String = DISPLAY_ALERT_METHOD.to_owned();
        if method_name == expected {
            let alert = match text_from_utf8(payload) {
                Some(s) => s,
                None => ALERT_NOT_UTF8.to_owned(),
            };
            self.notifications.push(CloudNotification::DisplayAlert(alert));
            (200, slice_to_vec(ALERT_RESPONSE.as_bytes()))
        } else {
            (-1, slice_to_vec(UNKNOWN_METHOD_RESPONSE.as_bytes()))
        }
    }

    /// Applies a desired telemetry upload setting read from a twin document:
    /// the setting (false when it is no boolean) and its version (0 when it
    /// is no unsigned integer). The version is acknowledged and the change
    /// is told to the application as coming from the cloud.
    pub fn apply_desired_upload_setting(&mut self, upload_enabled: Option<bool>, version: Option<u64>)
        ensures
            final(self)@.last_acked_version == match version {
                Some(v) => v,
                None => 0u64,
            },
            final(self)@.notifications == old(self)@.notifications.push(
                CloudNotification::TelemetryUploadEnabledChanged {
                    upload_enabled: match upload_enabled {
                        Some(b) => b,
                        None => false,
                    },
                    from_cloud: true,
                },
            ),
    {
        let enabled = match upload_enabled {
            Some(b) => b,
            None => false,
        };
        self.last_acked_version = match version {
            Some(v) => v,
            None => 0,
        };
        self.notifications.push(
            CloudNotification::TelemetryUploadEnabledChanged { upload_enabled: enabled, from_cloud: true },
        );
    }

    /// Reads a device twin document. The desired properties are the
    /// `desired` member, or the whole document when there is none; when they
    /// hold `thermometerTelemetryUploadEnabled`, that setting is applied.
    /// A text that is no JSON document changes nothing.
    pub fn device_twin_callback_handler(&mut self, content: &str)
        ensures
            !json_parses(content@) ==> final(self)@ == old(self)@,
            final(self)@ == old(self)@ || (final(self)@.notifications.len()
                == old(self)@.notifications.len() + 1 && final(self)@.notifications.drop_last()
                == old(self)@.notifications && match final(self)@.notifications.last() {
                CloudNotification::TelemetryUploadEnabledChanged { from_cloud, .. } => from_cloud,
                _ => false,
            }),
    {
        let root = match parse_json(content) {
            Some(v) => v,
            None => {
                return ;
            },
        };
        let desired = json_member(&root, "desired");
        let properties = match &desired {
            Some(d) => d,
            None => &root,
        };
        match json_member(properties, "thermometerTelemetryUploadEnabled") {
            Some(setting) => {
                let version = match json_member(properties, "$version") {
                    Some(v) => v.as_u64(),
                    None => None,
                };
                let ghost before = self@;
                self.apply_desired_upload_setting(setting.as_bool(), version);
                assert(self@.notifications.drop_last() =~= before.notifications);
            },
            None => {},
        }
    }

    /// Reports that the connection came up or went down.
    pub fn connection_changed(&mut self, connected: bool)
        ensures
            final(self)@ == (CloudModel {
                notifications: old(self)@.notifications.push(
                    CloudNotification::ConnectionChanged(connected),
                ),
                ..old(self)@
            }),
    {
        self.notifications.push(CloudNotification::ConnectionChanged(connected));
    }
}

/// The thermometer's cloud connection: the adapter and the cloud logic that
/// its handlers feed.
pub struct Cloud {
    azureiot: AzureIoT,
    data: CloudData,
}

impl Cloud {
    pub closed spec fn iot(&self) -> AzureIoTModel {
        self.azureiot@
    }

    pub closed spec fn cloud(&self) -> CloudModel {
        self.data@
    }

    pub closed spec fn model_id(&self) -> Seq<char> {
        self.azureiot.spec_connection().spec_model_id()
    }

    /// A cloud connection to the hub at `hostname`, announcing this device's
    /// model id; the two timers are known by their tokens.
    pub fn new(hostname: String, do_work_timer: i32, connection_timer: i32) -> (r: Self)
        ensures
            r.iot() == (AzureIoTModel {
                do_work_timer,
                connection_timer,
                connect_period_seconds: crate::backoff::DEFAULT_CONNECT_PERIOD_SECONDS,
                authentication_state: crate::azureiot::AuthenticationState::NotAuthenticated,
                connection_phase: crate::azureiot::ConnectionPhase::NotStarted,
                client: None,
                events: Seq::empty(),
            }),
            r.iot().wf(),
            r.cloud() == (CloudModel { last_acked_version: 0, notifications: Seq::empty() }),
            r.model_id() == MODEL_ID@,
    {
        Cloud {
            azureiot: AzureIoT::new(MODEL_ID.to_owned(), hostname, do_work_timer, connection_timer),
            data: CloudData::new(),
        }
    }

    /// The ISO 8601 UTC text of a telemetry timestamp; see
    /// `datetime::build_utc_datetime`.
    pub fn build_utc_datetime(unix_seconds: i64) -> (r: Option<String>)
        ensures
            r is Some ==> exists|t: crate::datetime::UtcDateTime|
                r->Some_0@ == crate::datetime::iso8601_text(t) && t.hour == (unix_seconds as int
                    % 86400) / 3600 && t.minute == (unix_seconds as int % 3600) / 60 && t.second
                    == unix_seconds as int % 60 && (t.year as int, t.month as int, t.day as int)
                    == crate::datetime::civil_date_of(unix_seconds as int / 86400),
    {
        crate::datetime::build_utc_datetime(unix_seconds)
    }

    /// The adapter.
    pub fn azureiot(&self) -> (r: &AzureIoT)
        ensures
            r@ == self.iot(),
    {
        &self.azureiot
    }

    /// The cloud logic.
    pub fn data(&self) -> (r: &CloudData)
        ensures
            r@ == self.cloud(),
    {
        &self.data
    }

    /// The tokens of the adapter's timers.
    pub fn fd_list(&self) -> (r: Vec<i32>)
        ensures
            r@ == seq![self.iot().do_work_timer, self.iot().connection_timer],
    {
        self.azureiot.fd_list()
    }

    /// See `AzureIoT::event`.
    pub fn event(&self, fd: i32) -> (r: TimerTask)
        ensures
            r == if fd == self.iot().do_work_timer {
                TimerTask::DoWork
            } else if fd == self.iot().connection_timer {
                TimerTask::Connect
            } else {
                TimerTask::Unknown
            },
    {
        self.azureiot.event(fd)
    }

    /// See `AzureIoT::do_work`.
    pub fn do_work(&self) -> (r: Option<u32>)
        ensures
            r is Some <==> self.iot().client is Some,
            r is Some ==> r->Some_0 == self.iot().client->Some_0.handle,
    {
        self.azureiot.do_work()
    }

    /// See `AzureIoT::connection_timer_event`.
    pub fn connection_timer_event(&mut self, networking_ready: bool) -> (r: Option<ConnectionSetup>)
        requires
            old(self).iot().wf(),
        ensures
            final(self).iot().wf(),
            final(self).cloud() == old(self).cloud(),
            final(self).model_id() == old(self).model_id(),
            !(old(self).iot().authentication_state == AuthenticationState::NotAuthenticated
                && networking_ready) ==> r is None && final(self).iot() == old(self).iot(),
            old(self).iot().authentication_state == AuthenticationState::NotAuthenticated
                && networking_ready ==> {
                let starts = old(self).iot().connection_phase == ConnectionPhase::NotStarted
                    || old(self).iot().connection_phase == ConnectionPhase::Failed;
                &&& (r is Some <==> starts)
                &&& final(self).iot() == (AzureIoTModel {
                    client: None,
                    connection_phase: if starts {
                        ConnectionPhase::Started
                    } else {
                        old(self).iot().connection_phase
                    },
                    ..old(self).iot()
                })
                &&& (r is Some ==> r->Some_0@ == (SetupModel {
                    stage: SetupStage::CheckReady,
                    client: None,
                }) && r->Some_0@.wf())
            },
    {
        self.azureiot.connection_timer_event(networking_ready)
    }

    /// See `AzureIoT::connection_status_callback`.
    pub fn connection_status_callback(&mut self, status: ConnectionStatus) -> (r: u64)
        requires
            old(self).iot().wf(),
            status is Complete ==> status->Complete_0@.wf(),
        ensures
            final(self).iot().wf(),
            r == final(self).iot().connect_period_seconds,
            final(self).cloud() == old(self).cloud(),
            final(self).model_id() == old(self).model_id(),
            final(self).iot().events == old(self).iot().events,
            final(self).iot().do_work_timer == old(self).iot().do_work_timer,
            final(self).iot().connection_timer == old(self).iot().connection_timer,
            match status {
                ConnectionStatus::NotStarted => final(self).iot() == (AzureIoTModel {
                    connection_phase: ConnectionPhase::NotStarted,
                    ..old(self).iot()
                }),
                ConnectionStatus::Started => final(self).iot() == (AzureIoTModel {
                    connection_phase: ConnectionPhase::Started,
                    ..old(self).iot()
                }),
                ConnectionStatus::Complete(c) => final(self).iot() == (AzureIoTModel {
                    connection_phase: ConnectionPhase::Complete,
                    connect_period_seconds: DEFAULT_CONNECT_PERIOD_SECONDS,
                    authentication_state: AuthenticationState::AuthenticationInitiated,
                    client: Some(with_adapter_callbacks(c@)),
                    ..old(self).iot()
                }),
                ConnectionStatus::Failed => final(self).iot() == (AzureIoTModel {
                    connection_phase: ConnectionPhase::Failed,
                    connect_period_seconds: spec_next_connect_period(
                        old(self).iot().connect_period_seconds as int,
                    ) as u64,
                    ..old(self).iot()
                }),
            },
    {
        self.azureiot.connection_status_callback(status)
    }

    /// Sends the serialized telemetry and returns the context of the send;
    /// see `AzureIoT::send_telemetry`.
    pub fn send_telemetry(&mut self, serialized_telemetry: &str, networking_ready: bool) -> (r: Result<u64, CloudResult>)
        requires
            old(self).iot().wf(),
        ensures
            final(self).iot().wf(),
            final(self).cloud() == old(self).cloud(),
            final(self).model_id() == old(self).model_id(),
            !networking_ready ==> r == Err::<u64, CloudResult>(CloudResult::NoNetwork),
            r is Ok <==> networking_ready && old(self).iot().authentication_state
                == crate::azureiot::AuthenticationState::Authenticated && old(self).iot().client is Some
                && crate::message::encodable(serialized_telemetry.spec_bytes()) && old(self).iot().client->Some_0.next_context < u64::MAX,
            r is Ok ==> r->Ok_0 == old(self).iot().client->Some_0.next_context,
            networking_ready && !(r is Ok) ==> r == Err::<u64, CloudResult>(CloudResult::OtherFailure),
            r is Err ==> final(self).iot() == old(self).iot(),
    {
        match self.azureiot.send_telemetry(serialized_telemetry, networking_ready) {
            Ok(context) => Ok(context),
            Err(e) => match azureiot_to_cloud_result(Err(e)) {
                Ok(_) => Err(CloudResult::OtherFailure),
                Err(c) => Err(c),
            },
        }
    }

    /// The handler of inbound messages; see `AzureIoT::on_message`.
    pub fn on_message(&mut self, message: IotHubMessage) -> (r: MessageDisposition)
        ensures
            r == MessageDisposition::Accepted,
            final(self).iot() == (AzureIoTModel {
                events: old(self).iot().events.push(IotHubEvent::InboundMessage(message)),
                ..old(self).iot()
            }),
            final(self).cloud() == old(self).cloud(),
            final(self).model_id() == old(self).model_id(),
    {
        self.azureiot.on_message(message)
    }

    /// The handler of device methods: the cloud logic answers; see
    /// `CloudData::device_method_callback_handler`.
    pub fn on_device_method(&mut self, method_name: String, payload: Vec<u8>) -> (r: (i32, Vec<u8>))
        ensures
            final(self).iot() == old(self).iot(),
            final(self).model_id() == old(self).model_id(),
            method_name@ == DISPLAY_ALERT_METHOD@ ==> {
                &&& r.0 == 200
                &&& r.1@ == ALERT_RESPONSE.spec_bytes()
                &&& final(self).cloud().last_acked_version == old(self).cloud().last_acked_version
                &&& final(self).cloud().notifications.len() == old(self).cloud().notifications.len()
                    + 1
                &&& final(self).cloud().notifications.drop_last() == old(self).cloud().notifications
                &&& match final(self).cloud().notifications.last() {
                    CloudNotification::DisplayAlert(s) => s@ == alert_text(payload@),
                    _ => false,
                }
            },
            method_name@ != DISPLAY_ALERT_METHOD@ ==> r.0 == -1 && r.1@
                == UNKNOWN_METHOD_RESPONSE.spec_bytes() && final(self).cloud() == old(self).cloud(),
    {
        self.data.device_method_callback_handler(method_name, payload)
    }

    /// The handler of device twin updates: a UTF-8 document goes to the
    /// cloud logic; other bytes are dropped.
    pub fn on_device_twin(&mut self, update_state: DeviceTwinUpdateState, payload: Vec<u8>)
        ensures
            final(self).iot() == old(self).iot(),
            final(self).model_id() == old(self).model_id(),
            !valid_utf8(payload@) ==> final(self).cloud() == old(self).cloud(),
            valid_utf8(payload@) && !json_parses(decode_utf8(payload@)) ==> final(self).cloud()
                == old(self).cloud(),
    {
        match text_from_utf8(payload) {
            Some(content) => self.data.device_twin_callback_handler(content.as_str()),
            None => {},
        }
    }

    /// The handler of connection status changes: the adapter takes it, and
    /// the application hears whether the device is connected.
    pub fn on_connection_status(&mut self, status: HubConnectionStatus, reason: ConnectionStatusReason)
        ensures
            final(self).model_id() == old(self).model_id(),
            final(self).cloud() == (CloudModel {
                notifications: old(self).cloud().notifications.push(
                    CloudNotification::ConnectionChanged(status == HubConnectionStatus::Authenticated),
                ),
                ..old(self).cloud()
            }),
            final(self).iot().authentication_state == if status == HubConnectionStatus::Authenticated {
                crate::azureiot::AuthenticationState::Authenticated
            } else {
                crate::azureiot::AuthenticationState::NotAuthenticated
            },
            final(self).iot().client == old(self).iot().client,
            final(self).iot().events == old(self).iot().events.push(
                IotHubEvent::ConnectionStatusChanged { status, reason },
            ),
    {
        self.azureiot.on_connection_status(status, reason);
        self.data.connection_changed(status == HubConnectionStatus::Authenticated);
    }

    /// See `AzureIoT::on_send_confirmation`.
    pub fn on_send_confirmation(&mut self, context: u64, result: ConfirmationResult)
        requires
            old(self).iot().wf(),
        ensures
            final(self).iot().wf(),
            final(self).cloud() == old(self).cloud(),
            final(self).model_id() == old(self).model_id(),
            ({
                let found = old(self).iot().client is Some && exists|i: int|
                    0 <= i < old(self).iot().client->Some_0.pending_sends.len() && old(self).iot().client->Some_0.pending_sends[i].0 == context;
                &&& !found ==> final(self).iot() == old(self).iot()
                &&& found ==> exists|i: int|
                    0 <= i < old(self).iot().client->Some_0.pending_sends.len() && old(self).iot().client->Some_0.pending_sends[i].0 == context && final(self).iot().events.len()
                        == old(self).iot().events.len() + 1 && final(self).iot().events.drop_last() == old(self).iot().events && is_confirmation(
                        final(self).iot().events.last(),
                        result,
                        old(self).iot().client->Some_0.pending_sends[i].1,
                    ) && final(self).iot() == (AzureIoTModel {
                        client: Some(
                            ClientModel {
                                pending_sends: old(self).iot().client->Some_0.pending_sends.remove(i),
                                ..old(self).iot().client->Some_0
                            },
                        ),
                        events: final(self).iot().events,
                        ..old(self).iot()
                    })
            }),
    {
        self.azureiot.on_send_confirmation(context, result)
    }

    /// See `AzureIoT::on_reported_state`.
    pub fn on_reported_state(&mut self, context: u64, reason: ConnectionStatusReason)
        requires
            old(self).iot().wf(),
        ensures
            final(self).iot().wf(),
            final(self).cloud() == old(self).cloud(),
            final(self).model_id() == old(self).model_id(),
            ({
                let found = old(self).iot().client is Some && old(self).iot().client->Some_0.pending_reports.contains(context);
                &&& !found ==> final(self).iot() == old(self).iot()
                &&& found ==> exists|i: int|
                    0 <= i < old(self).iot().client->Some_0.pending_reports.len() && old(self).iot().client->Some_0.pending_reports[i] == context && final(self).iot() == (
                    AzureIoTModel {
                        client: Some(
                            ClientModel {
                                pending_reports: old(self).iot().client->Some_0.pending_reports.remove(
                                    i,
                                ),
                                ..old(self).iot().client->Some_0
                            },
                        ),
                        events: old(self).iot().events.push(IotHubEvent::ReportedStateAck(reason)),
                        ..old(self).iot()
                    })
            }),
    {
        self.azureiot.on_reported_state(context, reason)
    }

    /// See `AzureIoT::drain_events`.
    pub fn drain_events(&mut self) -> (r: Vec<IotHubEvent>)
        ensures
            r@ == old(self).iot().events,
            final(self).iot() == (AzureIoTModel { events: Seq::empty(), ..old(self).iot() }),
            final(self).cloud() == old(self).cloud(),
            final(self).model_id() == old(self).model_id(),
    {
        self.azureiot.drain_events()
    }

    /// See `CloudData::take_notifications`.
    pub fn take_notifications(&mut self) -> (r: Vec<CloudNotification>)
        ensures
            r@ == old(self).cloud().notifications,
            final(self).cloud() == (CloudModel { notifications: Seq::empty(), ..old(self).cloud() }),
            final(self).iot() == old(self).iot(),
            final(self).model_id() == old(self).model_id(),
    {
        self.data.take_notifications()
    }
}

impl Cloud {
    /// See `AzureIoT::complete_connection_attempt`.
    pub fn complete_connection_attempt(&mut self, setup: ConnectionSetup) -> (r: u64)
        requires
            old(self).iot().wf(),
            setup@.wf(),
        ensures
            final(self).iot().wf(),
            r == final(self).iot().connect_period_seconds,
            final(self).cloud() == old(self).cloud(),
            final(self).model_id() == old(self).model_id(),
            setup@.stage == SetupStage::Succeeded ==> final(self).iot() == (AzureIoTModel {
                connection_phase: ConnectionPhase::Complete,
                connect_period_seconds: DEFAULT_CONNECT_PERIOD_SECONDS,
                authentication_state: AuthenticationState::AuthenticationInitiated,
                client: Some(with_adapter_callbacks(setup@.client->Some_0)),
                ..old(self).iot()
            }),
            setup@.stage != SetupStage::Succeeded ==> final(self).iot() == (AzureIoTModel {
                connection_phase: ConnectionPhase::Failed,
                connect_period_seconds: spec_next_connect_period(
                    old(self).iot().connect_period_seconds as int,
                ) as u64,
                ..old(self).iot()
            }),
    {
        self.azureiot.complete_connection_attempt(setup)
    }

    /// See `AzureIoT::deliver_message`.
    pub fn deliver_message(&mut self, message: Option<IotHubMessage>) -> (r: Option<u32>)
        ensures
            final(self).cloud() == old(self).cloud(),
            final(self).model_id() == old(self).model_id(),
            ({
                let slot = spec_slot(old(self).iot().client, SlotKind::Message);
                &&& slot == Some(CallbackId::Adapter) && message is Some ==> r == Some(
                    codes::IOTHUBMESSAGE_ACCEPTED,
                ) && final(self).iot() == (AzureIoTModel {
                    events: old(self).iot().events.push(IotHubEvent::InboundMessage(message->Some_0)),
                    ..old(self).iot()
                })
                &&& slot == Some(CallbackId::Adapter) && message is None ==> r == Some(
                    codes::IOTHUBMESSAGE_REJECTED,
                ) && final(self).iot() == old(self).iot()
                &&& slot is Some && slot->Some_0 is User ==> r is None && final(self).iot() == old(self).iot()
                &&& (slot is None || slot == Some(CallbackId::Default)) ==> r == Some(
                    codes::IOTHUBMESSAGE_ACCEPTED,
                ) && final(self).iot() == old(self).iot()
            }),
    {
        self.azureiot.deliver_message(message)
    }

    /// Delivers a native connection status change when the adapter holds the
    /// connection status slot: the adapter takes it and the application
    /// hears whether the device is connected. Returns whether it did.
    pub fn deliver_connection_status(&mut self, result: u32, reason: u32) -> (r: bool)
        ensures
            final(self).model_id() == old(self).model_id(),
            r <==> spec_slot(old(self).iot().client, SlotKind::ConnectionStatus) == Some(
                CallbackId::Adapter,
            ),
            !r ==> final(self).iot() == old(self).iot() && final(self).cloud() == old(self).cloud(),
            r ==> final(self).cloud() == (CloudModel {
                notifications: old(self).cloud().notifications.push(
                    CloudNotification::ConnectionChanged(
                        result == codes::IOTHUB_CLIENT_CONNECTION_AUTHENTICATED,
                    ),
                ),
                ..old(self).cloud()
            }),
            r ==> final(self).iot().client == old(self).iot().client && final(self).iot().authentication_state == if result
                == codes::IOTHUB_CLIENT_CONNECTION_AUTHENTICATED {
                AuthenticationState::Authenticated
            } else {
                AuthenticationState::NotAuthenticated
            },
    {
        let adapter = match self.azureiot.callback_slot(SlotKind::ConnectionStatus) {
            Some(CallbackId::Adapter) => true,
            _ => false,
        };
        if adapter {
            let status = map_connection_status_code(result);
            let why = IotHubDeviceClientLowLevel::map_connection_status(reason);
            self.on_connection_status(status, why);
            true
        } else {
            false
        }
    }

    /// Delivers a native device twin update when the adapter holds the
    /// device twin slot: the payload is copied and handed to
    /// `on_device_twin`. Returns whether it did.
    pub fn deliver_device_twin(&mut self, update_state: u32, payload: &[u8]) -> (r: bool)
        ensures
            final(self).model_id() == old(self).model_id(),
            final(self).iot() == old(self).iot(),
            r <==> spec_slot(old(self).iot().client, SlotKind::DeviceTwin) == Some(CallbackId::Adapter),
            !r ==> final(self).cloud() == old(self).cloud(),
            r && !valid_utf8(payload@) ==> final(self).cloud() == old(self).cloud(),
            r && valid_utf8(payload@) && !json_parses(decode_utf8(payload@)) ==> final(self).cloud()
                == old(self).cloud(),
    {
        let adapter = match self.azureiot.callback_slot(SlotKind::DeviceTwin) {
            Some(CallbackId::Adapter) => true,
            _ => false,
        };
        if adapter {
            let (state, bytes) = decode_device_twin(update_state, payload);
            self.on_device_twin(state, bytes);
            true
        } else {
            false
        }
    }

    /// Delivers a native device method invocation: when the adapter holds
    /// the device method slot and the name is UTF-8, the cloud logic answers
    /// (see `on_device_method`); otherwise the answer is -1 with an empty
    /// body and nothing changes.
    pub fn deliver_device_method(&mut self, method_name: &[u8], payload: &[u8]) -> (r: (i32, Vec<u8>))
        ensures
            final(self).model_id() == old(self).model_id(),
            final(self).iot() == old(self).iot(),
            !(spec_slot(old(self).iot().client, SlotKind::DeviceMethod) == Some(CallbackId::Adapter)
                && valid_utf8(method_name@)) ==> r.0 == -1 && r.1@.len() == 0 && final(self).cloud()
                == old(self).cloud(),
            spec_slot(old(self).iot().client, SlotKind::DeviceMethod) == Some(CallbackId::Adapter)
                && valid_utf8(method_name@) && decode_utf8(method_name@) == DISPLAY_ALERT_METHOD@ ==> {
                &&& r.0 == 200
                &&& r.1@ == ALERT_RESPONSE.spec_bytes()
                &&& final(self).cloud().notifications.drop_last() == old(self).cloud().notifications
                &&& match final(self).cloud().notifications.last() {
                    CloudNotification::DisplayAlert(s) => s@ == alert_text(payload@),
                    _ => false,
                }
            },
            spec_slot(old(self).iot().client, SlotKind::DeviceMethod) == Some(CallbackId::Adapter)
                && valid_utf8(method_name@) && decode_utf8(method_name@) != DISPLAY_ALERT_METHOD@
                ==> r.0 == -1 && r.1@ == UNKNOWN_METHOD_RESPONSE.spec_bytes() && final(self).cloud()
                == old(self).cloud(),
    {
        let adapter = match self.azureiot.callback_slot(SlotKind::DeviceMethod) {
            Some(CallbackId::Adapter) => true,
            _ => false,
        };
        if adapter {
            match decode_method_name(method_name) {
                Ok(name) => {
                    return self.on_device_method(name, slice_to_vec(payload));
                },
                Err(()) => {},
            }
        }
        (-1, Vec::new())
    }
}

} // verus!
