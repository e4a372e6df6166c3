//! Making a connection to the hub with device authentication: the fixed
//! sequence of native steps and what each outcome decides.
//!
//! Every step is native work done at the edge of the library. The
//! sequence is a small state machine here: `next_action` says which step is
//! due, `advance` takes its outcome, and the first failure ends the attempt.
use crate::client::IotHubDeviceClient;
use crate::client_ll::CallbackId;
use crate::client_ll::ClientModel;
use crate::client_ll::ClientRetryPolicy;
use crate::client_ll::IotHubDeviceClientLowLevel;
use crate::client_ll::TransportProvider;
use crate::codes;
use crate::security::SecurityType;
use vstd::prelude::*;

verus! {

/// The phase of a connection attempt, as the connection reports it.
pub enum ConnectionStatus {
    NotStarted,
    Started,
    Complete(IotHubDeviceClient),
    Failed,
}

/// The device id option value that makes the client use the device
/// authentication certificate.
pub const DEVICE_ID_FOR_CERT_USAGE: i32 = 1;

/// One native step of a connection attempt.
#[derive(Debug, PartialEq, Eq, Clone, Copy, Structural)]
pub enum SetupAction {
    /// Check that networking and device authentication are ready.
    CheckReadyToConnect,
    /// Initialise the security module with this authentication type.
    InitSecurity(SecurityType),
    /// Create a client handle for the hub's host name over this transport.
    CreateFromDeviceAuth(TransportProvider),
    /// Set the option "SetDeviceId" to this value.
    SetOptionDeviceId(i32),
    /// Set the automatic URL encoding option to this value.
    SetOptionAutoUrlEncodeDecode(bool),
    /// Set the model id option to the connection's model id.
    SetOptionModelId,
    /// Nothing is left to do.
    Finished,
}

/// The outcome of one native step.
#[derive(Debug, PartialEq, Eq, Clone, Copy, Structural)]
pub enum SetupOutcome {
    /// Whether networking and device authentication are ready.
    Ready(bool),
    /// The security module's result: zero on success.
    SecurityInitialized(i32),
    /// The created handle: zero on failure.
    ClientCreated(u32),
    /// A native client result code of setting an option.
    OptionSet(u32),
}

/// Where a connection attempt stands.
#[derive(Debug, PartialEq, Eq, Clone, Copy, Structural)]
pub enum SetupStage {
    CheckReady,
    InitSecurity,
    CreateClient,
    SetDeviceId,
    SetUrlEncoding,
    SetModelId,
    Succeeded,
    Failed,
}

/// The step due at each stage.
pub open spec fn spec_setup_action(stage: SetupStage) -> SetupAction {
    match stage {
        SetupStage::CheckReady => SetupAction::CheckReadyToConnect,
        SetupStage::InitSecurity => SetupAction::InitSecurity(SecurityType::X509),
        SetupStage::CreateClient => SetupAction::CreateFromDeviceAuth(TransportProvider::MQTT),
        SetupStage::SetDeviceId => SetupAction::SetOptionDeviceId(DEVICE_ID_FOR_CERT_USAGE),
        SetupStage::SetUrlEncoding => SetupAction::SetOptionAutoUrlEncodeDecode(true),
        SetupStage::SetModelId => SetupAction::SetOptionModelId,
        _ => SetupAction::Finished,
    }
}

/// The stage that an outcome leads to: the next step after a success, the
/// end after a failure or an outcome of another step.
pub open spec fn spec_setup_advance(stage: SetupStage, outcome: SetupOutcome) -> SetupStage {
    match (stage, outcome) {
        (SetupStage::CheckReady, SetupOutcome::Ready(true)) => SetupStage::InitSecurity,
        (SetupStage::InitSecurity, SetupOutcome::SecurityInitialized(0)) => SetupStage::CreateClient,
        (SetupStage::CreateClient, SetupOutcome::ClientCreated(h)) => if h != 0 {
            SetupStage::SetDeviceId
        } else {
            SetupStage::Failed
        },
        (SetupStage::SetDeviceId, SetupOutcome::OptionSet(rc)) => if rc == codes::IOTHUB_CLIENT_OK {
            SetupStage::SetUrlEncoding
        } else {
            SetupStage::Failed
        },
        (SetupStage::SetUrlEncoding, SetupOutcome::OptionSet(rc)) => if rc
            == codes::IOTHUB_CLIENT_OK {
            SetupStage::SetModelId
        } else {
            SetupStage::Failed
        },
        (SetupStage::SetModelId, SetupOutcome::OptionSet(rc)) => if rc == codes::IOTHUB_CLIENT_OK {
            SetupStage::Succeeded
        } else {
            SetupStage::Failed
        },
        (SetupStage::Succeeded, _) => SetupStage::Succeeded,
        _ => SetupStage::Failed,
    }
}

/// The stages at which the attempt holds a client handle.
pub open spec fn holds_client(stage: SetupStage) -> bool {
    stage == SetupStage::SetDeviceId || stage == SetupStage::SetUrlEncoding || stage
        == SetupStage::SetModelId || stage == SetupStage::Succeeded
}

/// The device client that a fresh handle becomes.
pub open spec fn fresh_client(handle: u32) -> ClientModel {
    ClientModel {
        handle,
        message_callback: Some(CallbackId::Default),
        connection_status_callback: None,
        device_twin_callback: Some(CallbackId::Default),
        device_method_callback: None,
        retry_policy: ClientRetryPolicy::ExponentialBackoffWithJitter,
        retry_timeout_limit_in_seconds: 0,
        pending_sends: Seq::empty(),
        pending_reports: Seq::empty(),
        next_context: 0,
    }
}

/// What a connection attempt holds, as mathematical values.
pub struct SetupModel {
    pub stage: SetupStage,
    pub client: Option<ClientModel>,
}

/// One connection attempt in progress.
pub struct ConnectionSetup {
    stage: SetupStage,
    client: Option<IotHubDeviceClient>,
}

impl View for ConnectionSetup {
    type V = SetupModel;

    closed spec fn view(&self) -> SetupModel {
        SetupModel {
            stage: self.stage,
            client: match self.client {
                Some(c) => Some(c@),
                None => None,
            },
        }
    }
}

impl SetupModel {
    /// A client is held exactly at the stages that need one, and it is live.
    pub open spec fn wf(&self) -> bool {
        &&& (self.client is Some <==> holds_client(self.stage))
        &&& (self.client is Some ==> self.client->Some_0.wf())
    }
}

impl ConnectionSetup {
    /// A new attempt, at its first step.
    pub fn new() -> (r: Self)
        ensures
            r@ == (SetupModel { stage: SetupStage::CheckReady, client: None }),
            r@.wf(),
    {
        ConnectionSetup { stage: SetupStage::CheckReady, client: None }
    }

    /// The step that is due.
    pub fn next_action(&self) -> (r: SetupAction)
        ensures
            r == spec_setup_action(self@.stage),
    {
        match self.stage {
            SetupStage::CheckReady => SetupAction::CheckReadyToConnect,
            SetupStage::InitSecurity => SetupAction::InitSecurity(SecurityType::X509),
            SetupStage::CreateClient => SetupAction::CreateFromDeviceAuth(TransportProvider::MQTT),
            SetupStage::SetDeviceId => SetupAction::SetOptionDeviceId(DEVICE_ID_FOR_CERT_USAGE),
            SetupStage::SetUrlEncoding => SetupAction::SetOptionAutoUrlEncodeDecode(true),
            SetupStage::SetModelId => SetupAction::SetOptionModelId,
            _ => SetupAction::Finished,
        }
    }

    /// The native handle of the client being set up, for the option steps.
    pub fn client_handle(&self) -> (r: Option<u32>)
        ensures
            r is Some <==> self@.client is Some,
            r is Some ==> r->Some_0 == self@.client->Some_0.handle,
    {
        match &self.client {
            Some(c) => Some(c.client.handle()),
            None => None,
        }
    }

    /// Takes the outcome of the step that was due. A failed attempt drops
    /// the client it made.
    pub fn advance(&mut self, outcome: SetupOutcome)
        requires
            old(self)@.wf(),
        ensures
            final(self)@.wf(),
            final(self)@.stage == spec_setup_advance(old(self)@.stage, outcome),
            final(self)@.stage == SetupStage::SetDeviceId && old(self)@.stage
                == SetupStage::CreateClient ==> final(self)@.client == Some(
                fresh_client(outcome->ClientCreated_0),
            ),
            holds_client(old(self)@.stage) && holds_client(final(self)@.stage) ==> final(self)@.client
                == old(self)@.client,
    {
        let next = match (self.stage, outcome) {
            (SetupStage::CheckReady, SetupOutcome::Ready(true)) => SetupStage::InitSecurity,
            (SetupStage::InitSecurity, SetupOutcome::SecurityInitialized(0)) => SetupStage::CreateClient,
            (SetupStage::CreateClient, SetupOutcome::ClientCreated(h)) => {
                match IotHubDeviceClientLowLevel::from_handle(h) {
                    Some(ll) => {
                        match IotHubDeviceClient::new(ll) {
                            Ok(c) => {
                                self.client = Some(c);
                                SetupStage::SetDeviceId
                            },
                            Err(_) => SetupStage::Failed,
                        }
                    },
                    None => SetupStage::Failed,
                }
            },
            (SetupStage::SetDeviceId, SetupOutcome::OptionSet(rc)) => if rc == codes::IOTHUB_CLIENT_OK {
                SetupStage::SetUrlEncoding
            } else {
                SetupStage::Failed
            },
            (SetupStage::SetUrlEncoding, SetupOutcome::OptionSet(rc)) => if rc
                == codes::IOTHUB_CLIENT_OK {
                SetupStage::SetModelId
            } else {
                SetupStage::Failed
            },
            (SetupStage::SetModelId, SetupOutcome::OptionSet(rc)) => if rc
                == codes::IOTHUB_CLIENT_OK {
                SetupStage::Succeeded
            } else {
                SetupStage::Failed
            },
            (SetupStage::Succeeded, _) => SetupStage::Succeeded,
            _ => SetupStage::Failed,
        };
        if next == SetupStage::Failed {
            self.client = None;
        }
        self.stage = next;
    }

    /// Ends the attempt: `Complete` with the client if every step
    /// succeeded, `Failed` otherwise.
    pub fn finish(self) -> (r: ConnectionStatus)
        requires
            self@.wf(),
        ensures
            self@.stage == SetupStage::Succeeded ==> r is Complete && r->Complete_0@
                == self@.client->Some_0,
            self@.stage != SetupStage::Succeeded ==> r is Failed,
    {
        if self.stage == SetupStage::Succeeded {
            match self.client {
                Some(c) => ConnectionStatus::Complete(c),
                None => ConnectionStatus::Failed,
            }
        } else {
            ConnectionStatus::Failed
        }
    }
}

/// An attempt that starts fresh succeeds exactly when every step succeeds
/// in turn: readiness, security, a nonzero handle, and the three options.
pub proof fn lemma_setup_succeeds(ready: bool, security: i32, handle: u32, rc1: u32, rc2: u32, rc3: u32)
    ensures
        spec_setup_advance(
            spec_setup_advance(
                spec_setup_advance(
                    spec_setup_advance(
                        spec_setup_advance(
                            spec_setup_advance(SetupStage::CheckReady, SetupOutcome::Ready(ready)),
                            SetupOutcome::SecurityInitialized(security),
                        ),
                        SetupOutcome::ClientCreated(handle),
                    ),
                    SetupOutcome::OptionSet(rc1),
                ),
                SetupOutcome::OptionSet(rc2),
            ),
            SetupOutcome::OptionSet(rc3),
        ) == if ready && security == 0 && handle != 0 && rc1 == codes::IOTHUB_CLIENT_OK && rc2
            == codes::IOTHUB_CLIENT_OK && rc3 == codes::IOTHUB_CLIENT_OK {
            SetupStage::Succeeded
        } else {
            SetupStage::Failed
        },
{
}

/// The settings of a connection: the model id announced to the hub and the
/// hub's host name.
pub struct Connection {
    model_id: String,
    hostname: String,
}

impl Connection {
    pub closed spec fn spec_model_id(&self) -> Seq<char> {
        self.model_id@
    }

    pub closed spec fn spec_hostname(&self) -> Seq<char> {
        self.hostname@
    }

    pub fn new(model_id: String, hub_host_name: String) -> (r: Self)
        ensures
            r.spec_model_id() == model_id@,
            r.spec_hostname() == hub_host_name@,
    {
        Connection { model_id, hostname: hub_host_name }
    }

    /// The model id, for the model id option.
    pub fn model_id(&self) -> (r: &String)
        ensures
            r@ == self.spec_model_id(),
    {
        &self.model_id
    }

    /// The hub's host name, for creating the client handle.
    pub fn hostname(&self) -> (r: &String)
        ensures
            r@ == self.spec_hostname(),
    {
        &self.hostname
    }

    /// Begins a connection attempt.
    pub fn start(&self) -> (r: ConnectionSetup)
        ensures
            r@ == (SetupModel { stage: SetupStage::CheckReady, client: None }),
            r@.wf(),
    {
        ConnectionSetup::new()
    }
}

} // verus!
