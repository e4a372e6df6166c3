//! The client handle: one native connection, its callback slots, its retry
//! policy and the sends that wait for their confirmation.
//!
//! The native transport is driven at the edge of the library. It reports
//! through raw codes, which the functions here turn into typed values, and it
//! is registered once with a fixed trampoline: which callback of the
//! application a native callback reaches is decided by the slots kept here.
use crate::codes;
use crate::message::IotHubMessage;
use crate::message::MessageModel;
use vstd::prelude::*;
use vstd::slice::slice_to_vec;
use vstd::utf8::decode_utf8;
use vstd::utf8::valid_utf8;

verus! {

/// The transport provider to use.
#[derive(Debug, PartialEq, Eq, Clone, Copy, Structural)]
pub enum TransportProvider {
    MQTT,
    MQTTWebSocket,
}

/// Error results of client operations.
#[derive(Debug, PartialEq, Eq, Clone, Copy, Structural)]
pub enum ClientResult {
    InvalidArg,
    Error,
    InvalidSize,
    IndefiniteTime,
}

/// Client retry policy.
#[derive(Debug, PartialEq, Eq, Clone, Copy, Structural)]
pub enum ClientRetryPolicy {
    NoRetry,
    Immediate,
    Interval,
    LinearBackoff,
    ExponentialBackoff,
    ExponentialBackoffWithJitter,
    Random,
}

/// Whether a device twin update carries the whole document or a part of it.
#[derive(Debug, PartialEq, Eq, Clone, Copy, Structural)]
pub enum DeviceTwinUpdateState {
    Complete,
    Partial,
}

/// Authentication status of the connection, as the hub reports it.
#[derive(Debug, PartialEq, Eq, Clone, Copy, Structural)]
pub enum ConnectionStatus {
    Authenticated,
    Unauthenticated,
}

/// The reason given with a connection status change.
#[derive(Debug, PartialEq, Eq, Clone, Copy, Structural)]
pub enum ConnectionStatusReason {
    ExpiredSasToken,
    DeviceDisabled,
    BadCredential,
    RetryExpired,
    NoNetwork,
    CommunicationError,
    ConnectionOk,
    NoPingResponse,
    UnknownError,
}

/// The verdict of an inbound-message callback, relayed to the transport.
#[derive(Debug, PartialEq, Eq, Clone, Copy, Structural)]
pub enum MessageDisposition {
    Accepted,
    Rejected,
    Abandoned,
}

/// How the hub dealt with a sent message.
#[derive(Debug, PartialEq, Eq, Clone, Copy, Structural)]
pub enum ConfirmationResult {
    Success,
    BecauseDestroy,
    MessageTimeout,
    Error,
}

/// Settings of an HTTP proxy.
pub struct HttpProxyOptions {
    pub host_address: String,
    pub port: u16,
    pub username: Option<String>,
    /// Not a `String`: it need not be UTF-8.
    pub password: Option<Vec<u8>>,
}

/// Who a callback slot leads to: the built-in handler of the device client,
/// the handler of the connection adapter, or a callback of the application
/// known by its number.
#[derive(Debug, PartialEq, Eq, Clone, Copy, Structural)]
pub enum CallbackId {
    Default,
    Adapter,
    User(u64),
}

/// The native code that a disposition is relayed as.
pub open spec fn spec_disposition_code(d: MessageDisposition) -> u32 {
    match d {
        MessageDisposition::Accepted => codes::IOTHUBMESSAGE_ACCEPTED,
        MessageDisposition::Rejected => codes::IOTHUBMESSAGE_REJECTED,
        MessageDisposition::Abandoned => codes::IOTHUBMESSAGE_ABANDONED,
    }
}

/// The retry policy that a native code stands for; the interval policy and
/// unknown codes have none.
pub open spec fn spec_retry_policy_of(code: u32) -> Option<ClientRetryPolicy> {
    if code == codes::IOTHUB_CLIENT_RETRY_NONE {
        Some(ClientRetryPolicy::NoRetry)
    } else if code == codes::IOTHUB_CLIENT_RETRY_IMMEDIATE {
        Some(ClientRetryPolicy::Immediate)
    } else if code == codes::IOTHUB_CLIENT_RETRY_LINEAR_BACKOFF {
        Some(ClientRetryPolicy::LinearBackoff)
    } else if code == codes::IOTHUB_CLIENT_RETRY_EXPONENTIAL_BACKOFF {
        Some(ClientRetryPolicy::ExponentialBackoff)
    } else if code == codes::IOTHUB_CLIENT_RETRY_EXPONENTIAL_BACKOFF_WITH_JITTER {
        Some(ClientRetryPolicy::ExponentialBackoffWithJitter)
    } else if code == codes::IOTHUB_CLIENT_RETRY_RANDOM {
        Some(ClientRetryPolicy::Random)
    } else {
        None
    }
}

/// The native code of a retry policy; the interval policy has none.
pub open spec fn spec_retry_policy_code(p: ClientRetryPolicy) -> Option<u32> {
    match p {
        ClientRetryPolicy::NoRetry => Some(codes::IOTHUB_CLIENT_RETRY_NONE),
        ClientRetryPolicy::Immediate => Some(codes::IOTHUB_CLIENT_RETRY_IMMEDIATE),
        ClientRetryPolicy::Interval => None,
        ClientRetryPolicy::LinearBackoff => Some(codes::IOTHUB_CLIENT_RETRY_LINEAR_BACKOFF),
        ClientRetryPolicy::ExponentialBackoff => Some(codes::IOTHUB_CLIENT_RETRY_EXPONENTIAL_BACKOFF),
        ClientRetryPolicy::ExponentialBackoffWithJitter => Some(
            codes::IOTHUB_CLIENT_RETRY_EXPONENTIAL_BACKOFF_WITH_JITTER,
        ),
        ClientRetryPolicy::Random => Some(codes::IOTHUB_CLIENT_RETRY_RANDOM),
    }
}

/// The connection status reason that a native code stands for.
pub open spec fn spec_connection_status_reason(code: u32) -> ConnectionStatusReason {
    if code == codes::IOTHUB_CLIENT_CONNECTION_EXPIRED_SAS_TOKEN {
        ConnectionStatusReason::ExpiredSasToken
    } else if code == codes::IOTHUB_CLIENT_CONNECTION_DEVICE_DISABLED {
        ConnectionStatusReason::DeviceDisabled
    } else if code == codes::IOTHUB_CLIENT_CONNECTION_BAD_CREDENTIAL {
        ConnectionStatusReason::BadCredential
    } else if code == codes::IOTHUB_CLIENT_CONNECTION_RETRY_EXPIRED {
        ConnectionStatusReason::RetryExpired
    } else if code == codes::IOTHUB_CLIENT_CONNECTION_NO_NETWORK {
        ConnectionStatusReason::NoNetwork
    } else if code == codes::IOTHUB_CLIENT_CONNECTION_COMMUNICATION_ERROR {
        ConnectionStatusReason::CommunicationError
    } else if code == codes::IOTHUB_CLIENT_CONNECTION_OK {
        ConnectionStatusReason::ConnectionOk
    } else if code == codes::IOTHUB_CLIENT_CONNECTION_NO_PING_RESPONSE {
        ConnectionStatusReason::NoPingResponse
    } else {
        ConnectionStatusReason::UnknownError
    }
}

/// The error that a native client result other than success stands for;
/// unknown codes count as `Error`.
pub open spec fn spec_client_error(code: u32) -> ClientResult {
    if code == codes::IOTHUB_CLIENT_INVALID_ARG {
        ClientResult::InvalidArg
    } else if code == codes::IOTHUB_CLIENT_INVALID_SIZE {
        ClientResult::InvalidSize
    } else if code == codes::IOTHUB_CLIENT_INDEFINITE_TIME {
        ClientResult::IndefiniteTime
    } else {
        ClientResult::Error
    }
}

/// The native code of a disposition. Each disposition keeps its own code:
/// none is replaced by a default.
pub fn disposition_code(d: MessageDisposition) -> (r: u32)
    ensures
        r == spec_disposition_code(d),
{
    match d {
        MessageDisposition::Accepted => codes::IOTHUBMESSAGE_ACCEPTED,
        MessageDisposition::Rejected => codes::IOTHUBMESSAGE_REJECTED,
        MessageDisposition::Abandoned => codes::IOTHUBMESSAGE_ABANDONED,
    }
}

/// The native code of a retry policy, or `Error` for the interval policy,
/// which this client does not set.
pub fn retry_policy_code(p: ClientRetryPolicy) -> (r: Result<u32, ClientResult>)
    ensures
        spec_retry_policy_code(p) is Some ==> r == Ok::<u32, ClientResult>(
            spec_retry_policy_code(p)->Some_0,
        ),
        spec_retry_policy_code(p) is None ==> r == Err::<u32, ClientResult>(ClientResult::Error),
{
    match p {
        ClientRetryPolicy::NoRetry => Ok(codes::IOTHUB_CLIENT_RETRY_NONE),
        ClientRetryPolicy::Immediate => Ok(codes::IOTHUB_CLIENT_RETRY_IMMEDIATE),
        ClientRetryPolicy::LinearBackoff => Ok(codes::IOTHUB_CLIENT_RETRY_LINEAR_BACKOFF),
        ClientRetryPolicy::ExponentialBackoff => Ok(codes::IOTHUB_CLIENT_RETRY_EXPONENTIAL_BACKOFF),
        ClientRetryPolicy::ExponentialBackoffWithJitter => Ok(
            codes::IOTHUB_CLIENT_RETRY_EXPONENTIAL_BACKOFF_WITH_JITTER,
        ),
        ClientRetryPolicy::Random => Ok(codes::IOTHUB_CLIENT_RETRY_RANDOM),
        _ => Err(ClientResult::Error),
    }
}

/// The retry policy that a native code stands for, or `Error`.
pub fn map_retry_policy(code: u32) -> (r: Result<ClientRetryPolicy, ClientResult>)
    ensures
        spec_retry_policy_of(code) is Some ==> r == Ok::<ClientRetryPolicy, ClientResult>(
            spec_retry_policy_of(code)->Some_0,
        ),
        spec_retry_policy_of(code) is None ==> r == Err::<ClientRetryPolicy, ClientResult>(
            ClientResult::Error,
        ),
{
    if code == codes::IOTHUB_CLIENT_RETRY_NONE {
        Ok(ClientRetryPolicy::NoRetry)
    } else if code == codes::IOTHUB_CLIENT_RETRY_IMMEDIATE {
        Ok(ClientRetryPolicy::Immediate)
    } else if code == codes::IOTHUB_CLIENT_RETRY_LINEAR_BACKOFF {
        Ok(ClientRetryPolicy::LinearBackoff)
    } else if code == codes::IOTHUB_CLIENT_RETRY_EXPONENTIAL_BACKOFF {
        Ok(ClientRetryPolicy::ExponentialBackoff)
    } else if code == codes::IOTHUB_CLIENT_RETRY_EXPONENTIAL_BACKOFF_WITH_JITTER {
        Ok(ClientRetryPolicy::ExponentialBackoffWithJitter)
    } else if code == codes::IOTHUB_CLIENT_RETRY_RANDOM {
        Ok(ClientRetryPolicy::Random)
    } else {
        Err(ClientResult::Error)
    }
}

/// The confirmation result that a native code stands for; unknown codes
/// count as `Error`.
pub fn map_confirmation_result(code: u32) -> (r: ConfirmationResult)
    ensures
        code == codes::IOTHUB_CLIENT_CONFIRMATION_OK ==> r == ConfirmationResult::Success,
        code == codes::IOTHUB_CLIENT_CONFIRMATION_BECAUSE_DESTROY ==> r
            == ConfirmationResult::BecauseDestroy,
        code == codes::IOTHUB_CLIENT_CONFIRMATION_MESSAGE_TIMEOUT ==> r
            == ConfirmationResult::MessageTimeout,
        code >= codes::IOTHUB_CLIENT_CONFIRMATION_ERROR ==> r == ConfirmationResult::Error,
{
    if code == codes::IOTHUB_CLIENT_CONFIRMATION_OK {
        ConfirmationResult::Success
    } else if code == codes::IOTHUB_CLIENT_CONFIRMATION_BECAUSE_DESTROY {
        ConfirmationResult::BecauseDestroy
    } else if code == codes::IOTHUB_CLIENT_CONFIRMATION_MESSAGE_TIMEOUT {
        ConfirmationResult::MessageTimeout
    } else {
        ConfirmationResult::Error
    }
}

/// The authentication status that a native code stands for; unknown codes
/// count as unauthenticated.
pub fn map_connection_status_code(code: u32) -> (r: ConnectionStatus)
    ensures
        r == (if code == codes::IOTHUB_CLIENT_CONNECTION_AUTHENTICATED {
            ConnectionStatus::Authenticated
        } else {
            ConnectionStatus::Unauthenticated
        }),
{
    if code == codes::IOTHUB_CLIENT_CONNECTION_AUTHENTICATED {
        ConnectionStatus::Authenticated
    } else {
        ConnectionStatus::Unauthenticated
    }
}

/// The twin update state that a native code stands for: anything but the
/// complete code is a partial update.
pub fn map_device_twin_update_state(code: u32) -> (r: DeviceTwinUpdateState)
    ensures
        r == (if code == codes::DEVICE_TWIN_UPDATE_COMPLETE {
            DeviceTwinUpdateState::Complete
        } else {
            DeviceTwinUpdateState::Partial
        }),
{
    if code == codes::DEVICE_TWIN_UPDATE_COMPLETE {
        DeviceTwinUpdateState::Complete
    } else {
        DeviceTwinUpdateState::Partial
    }
}

/// A device twin update as the native callback hands it over: the state code
/// and a buffer that lives only for the call, copied here.
pub fn decode_device_twin(update_state: u32, payload: &[u8]) -> (r: (DeviceTwinUpdateState, Vec<u8>))
    ensures
        r.0 == (if update_state == codes::DEVICE_TWIN_UPDATE_COMPLETE {
            DeviceTwinUpdateState::Complete
        } else {
            DeviceTwinUpdateState::Partial
        }),
        r.1@ == payload@,
{
    (map_device_twin_update_state(update_state), slice_to_vec(payload))
}

/// Relies on `String::from_utf8`: it succeeds exactly on valid UTF-8 and then
/// holds the characters that the bytes encode.
#[verifier::external_body]
pub(crate) fn text_from_utf8(bytes: Vec<u8>) -> (r: Option<String>)
    ensures
        r is Some <==> valid_utf8(bytes@),
        r is Some ==> r->Some_0@ == decode_utf8(bytes@),
{
    String::from_utf8(bytes).ok()
}

/// The name of an invoked device method, from the bytes of the native
/// string (without its terminating NUL). Bytes that are not valid UTF-8 are
/// an error for the caller to see, not a reason to panic.
pub fn decode_method_name(name: &[u8]) -> (r: Result<String, ()>)
    ensures
        r is Ok <==> valid_utf8(name@),
        r is Ok ==> r->Ok_0@ == decode_utf8(name@),
{
    match text_from_utf8(slice_to_vec(name)) {
        Some(s) => Ok(s),
        None => Err(()),
    }
}

/// A message handed to the transport, waiting for its confirmation.
struct PendingSend {
    context: u64,
    message: IotHubMessage,
}

/// What a client handle holds, as mathematical values.
pub struct ClientModel {
    pub handle: u32,
    pub message_callback: Option<CallbackId>,
    pub connection_status_callback: Option<CallbackId>,
    pub device_twin_callback: Option<CallbackId>,
    pub device_method_callback: Option<CallbackId>,
    pub retry_policy: ClientRetryPolicy,
    pub retry_timeout_limit_in_seconds: usize,
    /// Sends in flight, each with the context its confirmation will carry.
    pub pending_sends: Seq<(u64, MessageModel)>,
    /// Reported-state updates in flight, by context.
    pub pending_reports: Seq<u64>,
    /// The context that the next send or report gets.
    pub next_context: u64,
}

/// A sequence of contexts in strictly increasing order, all below `bound`.
pub open spec fn contexts_ordered(cs: Seq<u64>, bound: u64) -> bool {
    &&& forall|i: int, j: int| 0 <= i < j < cs.len() ==> cs[i] < cs[j]
    &&& forall|i: int| 0 <= i < cs.len() ==> cs[i] < bound
}

proof fn lemma_contexts_ordered_remove(cs: Seq<u64>, bound: u64, i: int)
    requires
        contexts_ordered(cs, bound),
        0 <= i < cs.len(),
    ensures
        contexts_ordered(cs.remove(i), bound),
{
    let r = cs.remove(i);
    assert forall|a: int, b: int| 0 <= a < b < r.len() implies r[a] < r[b] by {
        let a0 = if a < i { a } else { a + 1 };
        let b0 = if b < i { b } else { b + 1 };
        assert(r[a] == cs[a0] && r[b] == cs[b0]);
    }
    assert forall|a: int| 0 <= a < r.len() implies r[a] < bound by {
        let a0 = if a < i { a } else { a + 1 };
        assert(r[a] == cs[a0]);
    }
}

/// A handle to an IoT hub device client connection.
pub struct IotHubDeviceClientLowLevel {
    handle: u32,
    message_callback: Option<CallbackId>,
    connection_status_callback: Option<CallbackId>,
    device_twin_callback: Option<CallbackId>,
    device_method_callback: Option<CallbackId>,
    retry_policy: ClientRetryPolicy,
    retry_timeout_limit_in_seconds: usize,
    pending_sends: Vec<PendingSend>,
    pending_reports: Vec<u64>,
    next_context: u64,
}

impl View for IotHubDeviceClientLowLevel {
    type V = ClientModel;

    closed spec fn view(&self) -> ClientModel {
        ClientModel {
            handle: self.handle,
            message_callback: self.message_callback,
            connection_status_callback: self.connection_status_callback,
            device_twin_callback: self.device_twin_callback,
            device_method_callback: self.device_method_callback,
            retry_policy: self.retry_policy,
            retry_timeout_limit_in_seconds: self.retry_timeout_limit_in_seconds,
            pending_sends: self.pending_sends@.map_values(
                |p: PendingSend| (p.context, p.message@),
            ),
            pending_reports: self.pending_reports@,
            next_context: self.next_context,
        }
    }
}

impl ClientModel {
    pub open spec fn send_contexts(&self) -> Seq<u64> {
        self.pending_sends.map_values(|p: (u64, MessageModel)| p.0)
    }

    /// The handle is live and the contexts in flight are told apart.
    pub open spec fn wf(&self) -> bool {
        &&& self.handle != 0
        &&& contexts_ordered(self.send_contexts(), self.next_context)
        &&& contexts_ordered(self.pending_reports, self.next_context)
    }
}

impl IotHubDeviceClientLowLevel {
    /// Maps a native client result to `Ok(())` or the error it stands for;
    /// unknown codes count as `Error`.
    pub fn map_client_result(result: u32) -> (r: Result<(), ClientResult>)
        ensures
            r == if result == codes::IOTHUB_CLIENT_OK {
                Ok::<(), ClientResult>(())
            } else {
                Err::<(), ClientResult>(spec_client_error(result))
            },
            r is Ok <==> result == codes::IOTHUB_CLIENT_OK,
            result == codes::IOTHUB_CLIENT_INVALID_ARG ==> r == Err::<(), ClientResult>(
                ClientResult::InvalidArg,
            ),
            result == codes::IOTHUB_CLIENT_ERROR ==> r == Err::<(), ClientResult>(ClientResult::Error),
            result == codes::IOTHUB_CLIENT_INVALID_SIZE ==> r == Err::<(), ClientResult>(
                ClientResult::InvalidSize,
            ),
            result == codes::IOTHUB_CLIENT_INDEFINITE_TIME ==> r == Err::<(), ClientResult>(
                ClientResult::IndefiniteTime,
            ),
            result > codes::IOTHUB_CLIENT_INDEFINITE_TIME ==> r == Err::<(), ClientResult>(
                ClientResult::Error,
            ),
    {
        if result == codes::IOTHUB_CLIENT_OK {
            Ok(())
        } else if result == codes::IOTHUB_CLIENT_INVALID_ARG {
            Err(ClientResult::InvalidArg)
        } else if result == codes::IOTHUB_CLIENT_ERROR {
            Err(ClientResult::Error)
        } else if result == codes::IOTHUB_CLIENT_INVALID_SIZE {
            Err(ClientResult::InvalidSize)
        } else if result == codes::IOTHUB_CLIENT_INDEFINITE_TIME {
            Err(ClientResult::IndefiniteTime)
        } else {
            Err(ClientResult::Error)
        }
    }

    /// Maps a native connection status reason; unknown codes give
    /// `UnknownError`.
    pub fn map_connection_status(result_reason: u32) -> (r: ConnectionStatusReason)
        ensures
            r == spec_connection_status_reason(result_reason),
            result_reason == codes::IOTHUB_CLIENT_CONNECTION_EXPIRED_SAS_TOKEN ==> r
                == ConnectionStatusReason::ExpiredSasToken,
            result_reason == codes::IOTHUB_CLIENT_CONNECTION_DEVICE_DISABLED ==> r
                == ConnectionStatusReason::DeviceDisabled,
            result_reason == codes::IOTHUB_CLIENT_CONNECTION_BAD_CREDENTIAL ==> r
                == ConnectionStatusReason::BadCredential,
            result_reason == codes::IOTHUB_CLIENT_CONNECTION_RETRY_EXPIRED ==> r
                == ConnectionStatusReason::RetryExpired,
            result_reason == codes::IOTHUB_CLIENT_CONNECTION_NO_NETWORK ==> r
                == ConnectionStatusReason::NoNetwork,
            result_reason == codes::IOTHUB_CLIENT_CONNECTION_COMMUNICATION_ERROR ==> r
                == ConnectionStatusReason::CommunicationError,
            result_reason == codes::IOTHUB_CLIENT_CONNECTION_OK ==> r
                == ConnectionStatusReason::ConnectionOk,
            result_reason == codes::IOTHUB_CLIENT_CONNECTION_NO_PING_RESPONSE ==> r
                == ConnectionStatusReason::NoPingResponse,
            result_reason > codes::IOTHUB_CLIENT_CONNECTION_NO_PING_RESPONSE ==> r
                == ConnectionStatusReason::UnknownError,
    {
        if result_reason == codes::IOTHUB_CLIENT_CONNECTION_EXPIRED_SAS_TOKEN {
            ConnectionStatusReason::ExpiredSasToken
        } else if result_reason == codes::IOTHUB_CLIENT_CONNECTION_DEVICE_DISABLED {
            ConnectionStatusReason::DeviceDisabled
        } else if result_reason == codes::IOTHUB_CLIENT_CONNECTION_BAD_CREDENTIAL {
            ConnectionStatusReason::BadCredential
        } else if result_reason == codes::IOTHUB_CLIENT_CONNECTION_RETRY_EXPIRED {
            ConnectionStatusReason::RetryExpired
        } else if result_reason == codes::IOTHUB_CLIENT_CONNECTION_NO_NETWORK {
            ConnectionStatusReason::NoNetwork
        } else if result_reason == codes::IOTHUB_CLIENT_CONNECTION_COMMUNICATION_ERROR {
            ConnectionStatusReason::CommunicationError
        } else if result_reason == codes::IOTHUB_CLIENT_CONNECTION_OK {
            ConnectionStatusReason::ConnectionOk
        } else if result_reason == codes::IOTHUB_CLIENT_CONNECTION_NO_PING_RESPONSE {
            ConnectionStatusReason::NoPingResponse
        } else {
            ConnectionStatusReason::UnknownError
        }
    }

    /// Takes charge of a handle that a native create call returned; the
    /// zero handle means that the creation failed.
    pub fn from_handle(handle: u32) -> (r: Option<Self>)
        ensures
            r is Some <==> handle != 0,
            r is Some ==> r->Some_0@.wf(),
            r is Some ==> r->Some_0@ == (ClientModel {
                handle,
                message_callback: None,
                connection_status_callback: None,
                device_twin_callback: None,
                device_method_callback: None,
                retry_policy: ClientRetryPolicy::ExponentialBackoffWithJitter,
                retry_timeout_limit_in_seconds: 0,
                pending_sends: Seq::empty(),
                pending_reports: Seq::empty(),
                next_context: 0,
            }),
    {
        if handle == 0 {
            None
        } else {
            let c = IotHubDeviceClientLowLevel {
                handle,
                message_callback: None,
                connection_status_callback: None,
                device_twin_callback: None,
                device_method_callback: None,
                retry_policy: ClientRetryPolicy::ExponentialBackoffWithJitter,
                retry_timeout_limit_in_seconds: 0,
                pending_sends: Vec::new(),
                pending_reports: Vec::new(),
                next_context: 0,
            };
            assert(c@.pending_sends =~= Seq::empty());
            Some(c)
        }
    }

    /// The native handle.
    pub fn handle(&self) -> (r: u32)
        ensures
            r == self@.handle,
    {
        self.handle
    }

    /// The callback that inbound messages reach.
    pub fn message_callback(&self) -> (r: Option<CallbackId>)
        ensures
            r == self@.message_callback,
    {
        self.message_callback
    }

    /// The callback that connection status changes reach.
    pub fn connection_status_callback(&self) -> (r: Option<CallbackId>)
        ensures
            r == self@.connection_status_callback,
    {
        self.connection_status_callback
    }

    /// The callback that device twin updates reach.
    pub fn device_twin_callback(&self) -> (r: Option<CallbackId>)
        ensures
            r == self@.device_twin_callback,
    {
        self.device_twin_callback
    }

    /// The callback that device method invocations reach.
    pub fn device_method_callback(&self) -> (r: Option<CallbackId>)
        ensures
            r == self@.device_method_callback,
    {
        self.device_method_callback
    }

    /// Makes `callback` the one callback that inbound messages reach. The
    /// callback it replaces, if any, is returned: nothing reaches it any
    /// more, and its owner releases it.
    pub fn set_message_callback(&mut self, callback: CallbackId) -> (r: Option<CallbackId>)
        ensures
            r == old(self)@.message_callback,
            final(self)@ == (ClientModel { message_callback: Some(callback), ..old(self)@ }),
    {
        let previous = self.message_callback;
        self.message_callback = Some(callback);
        previous
    }

    /// Makes `callback` the one callback that connection status changes
    /// reach, and returns the one it replaces.
    pub fn set_connection_status_callback(&mut self, callback: CallbackId) -> (r: Option<CallbackId>)
        ensures
            r == old(self)@.connection_status_callback,
            final(self)@ == (ClientModel {
                connection_status_callback: Some(callback),
                ..old(self)@
            }),
    {
        let previous = self.connection_status_callback;
        self.connection_status_callback = Some(callback);
        previous
    }

    /// Makes `callback` the one callback that device twin updates reach, and
    /// returns the one it replaces.
    pub fn set_device_twin_callback(&mut self, callback: CallbackId) -> (r: Option<CallbackId>)
        ensures
            r == old(self)@.device_twin_callback,
            final(self)@ == (ClientModel { device_twin_callback: Some(callback), ..old(self)@ }),
    {
        let previous = self.device_twin_callback;
        self.device_twin_callback = Some(callback);
        previous
    }

    /// Makes `callback` the one callback that device method invocations
    /// reach, and returns the one it replaces.
    pub fn set_device_method_callback(&mut self, callback: CallbackId) -> (r: Option<CallbackId>)
        ensures
            r == old(self)@.device_method_callback,
            final(self)@ == (ClientModel { device_method_callback: Some(callback), ..old(self)@ }),
    {
        let previous = self.device_method_callback;
        self.device_method_callback = Some(callback);
        previous
    }

    /// Sets the retry policy. The interval policy is refused with `Error`
    /// and leaves the client as it was.
    pub fn set_retry_policy(
        &mut self,
        retry_policy: ClientRetryPolicy,
        retry_timeout_limit_in_seconds: usize,
    ) -> (r: Result<(), ClientResult>)
        ensures
            r is Ok <==> retry_policy != ClientRetryPolicy::Interval,
            r is Err ==> r == Err::<(), ClientResult>(ClientResult::Error) && final(self)@ == old(
                self,
            )@,
            r is Ok ==> final(self)@ == (ClientModel {
                retry_policy,
                retry_timeout_limit_in_seconds,
                ..old(self)@
            }),
    {
        retry_policy_code(retry_policy)?;
        self.retry_policy = retry_policy;
        self.retry_timeout_limit_in_seconds = retry_timeout_limit_in_seconds;
        Ok(())
    }

    /// The retry policy and its timeout limit, as last set or read.
    pub fn retry_policy(&self) -> (r: (ClientRetryPolicy, usize))
        ensures
            r == (self@.retry_policy, self@.retry_timeout_limit_in_seconds),
    {
        (self.retry_policy, self.retry_timeout_limit_in_seconds)
    }

    /// The retry policy that the transport reports: the status of the native
    /// query, the policy code and the timeout limit it wrote. A failed query
    /// gives its error; a code with no policy here (the interval policy, an
    /// unknown code) gives `Error`. A policy read successfully is recorded.
    pub fn get_retry_policy(
        &mut self,
        status: u32,
        retry_policy_native: u32,
        retry_timeout_limit_in_seconds: usize,
    ) -> (r: Result<(ClientRetryPolicy, usize), ClientResult>)
        ensures
            status != codes::IOTHUB_CLIENT_OK ==> r == Err::<(ClientRetryPolicy, usize), ClientResult>(
                spec_client_error(status),
            ),
            status == codes::IOTHUB_CLIENT_OK && spec_retry_policy_of(retry_policy_native) is None
                ==> r == Err::<(ClientRetryPolicy, usize), ClientResult>(ClientResult::Error),
            status == codes::IOTHUB_CLIENT_OK && spec_retry_policy_of(retry_policy_native) is Some
                ==> r == Ok::<(ClientRetryPolicy, usize), ClientResult>(
                (spec_retry_policy_of(retry_policy_native)->Some_0, retry_timeout_limit_in_seconds),
            ),
            r is Err ==> final(self)@ == old(self)@,
            r is Ok ==> final(self)@ == (ClientModel {
                retry_policy: r->Ok_0.0,
                retry_timeout_limit_in_seconds,
                ..old(self)@
            }),
    {
        Self::map_client_result(status)?;
        let policy = map_retry_policy(retry_policy_native)?;
        self.retry_policy = policy;
        self.retry_timeout_limit_in_seconds = retry_timeout_limit_in_seconds;
        Ok((policy, retry_timeout_limit_in_seconds))
    }

    /// Takes `event_message` in charge for an asynchronous send and returns
    /// the context that its confirmation will carry. Fails with `Error` only
    /// once every context has been handed out.
    pub fn send_event_async(&mut self, event_message: IotHubMessage) -> (r: Result<u64, ClientResult>)
        requires
            old(self)@.wf(),
        ensures
            final(self)@.wf(),
            r is Ok <==> old(self)@.next_context < u64::MAX,
            r is Err ==> r == Err::<u64, ClientResult>(ClientResult::Error) && final(self)@ == old(
                self,
            )@,
            r is Ok ==> r->Ok_0 == old(self)@.next_context && final(self)@ == (ClientModel {
                pending_sends: old(self)@.pending_sends.push((r->Ok_0, event_message@)),
                next_context: (old(self)@.next_context + 1) as u64,
                ..old(self)@
            }),
    {
        if self.next_context == u64::MAX {
            return Err(ClientResult::Error);
        }
        let context = self.next_context;
        let ghost before = self@;
        self.pending_sends.push(PendingSend { context, message: event_message });
        self.next_context = context + 1;
        assert(self@.pending_sends =~= before.pending_sends.push((context, event_message@)));
        assert(self@.send_contexts() =~= before.send_contexts().push(context));
        Ok(context)
    }

    /// Hands back the message of the send that `context` names, once its
    /// confirmation came; `None` for a context that is not in flight.
    pub fn confirm_send(&mut self, context: u64) -> (r: Option<IotHubMessage>)
        requires
            old(self)@.wf(),
        ensures
            final(self)@.wf(),
            r is Some <==> exists|i: int|
                0 <= i < old(self)@.pending_sends.len() && old(self)@.pending_sends[i].0
                    == context,
            r is None ==> final(self)@ == old(self)@,
            r is Some ==> exists|i: int|
                0 <= i < old(self)@.pending_sends.len() && old(self)@.pending_sends[i].0 == context
                    && r->Some_0@ == old(self)@.pending_sends[i].1 && final(self)@ == (ClientModel {
                    pending_sends: old(self)@.pending_sends.remove(i),
                    ..old(self)@
                }),
    {
        let ghost before = self@;
        let mut i: usize = 0;
        while i < self.pending_sends.len()
            invariant
                self@ == before,
                before == old(self)@,
                before.wf(),
                0 <= i <= before.pending_sends.len(),
                forall|j: int| 0 <= j < i ==> before.pending_sends[j].0 != context,
            decreases before.pending_sends.len() - i,
        {
            if self.pending_sends[i].context == context {
                assert(before.pending_sends[i as int].0 == context);
                let p = self.pending_sends.remove(i);
                assert(self@.pending_sends =~= before.pending_sends.remove(i as int));
                assert(self@.send_contexts() =~= before.send_contexts().remove(i as int));
                proof {
                    lemma_contexts_ordered_remove(before.send_contexts(), before.next_context, i as int);
                }
                assert(p.message@ == before.pending_sends[i as int].1);
                assert(self@ == (ClientModel {
                    pending_sends: before.pending_sends.remove(i as int),
                    ..before
                }));
                assert(before == old(self)@);
                assert(0 <= i < old(self)@.pending_sends.len() && old(self)@.pending_sends[i as int].0 == context);
                return Some(p.message);
            }
            i = i + 1;
        }
        None
    }

    /// Records a reported-state update about to be handed to the transport
    /// (the document itself goes straight to it) and returns the context
    /// that its acknowledgement will carry. `Error` comes only once every
    /// context has been handed out.
    pub fn send_reported_state(&mut self) -> (r: Result<u64, ClientResult>)
        requires
            old(self)@.wf(),
        ensures
            final(self)@.wf(),
            old(self)@.next_context == u64::MAX ==> r == Err::<u64, ClientResult>(ClientResult::Error),
            r is Ok <==> old(self)@.next_context < u64::MAX,
            r is Err ==> final(self)@ == old(self)@,
            r is Ok ==> r->Ok_0 == old(self)@.next_context && final(self)@ == (ClientModel {
                pending_reports: old(self)@.pending_reports.push(r->Ok_0),
                next_context: (old(self)@.next_context + 1) as u64,
                ..old(self)@
            }),
    {
        if self.next_context == u64::MAX {
            return Err(ClientResult::Error);
        }
        let context = self.next_context;
        let ghost before = self@;
        self.pending_reports.push(context);
        self.next_context = context + 1;
        assert(self@.pending_sends =~= before.pending_sends);
        Ok(context)
    }

    /// Closes the reported-state update that `context` names, once its
    /// acknowledgement came; `false` for a context that is not in flight.
    pub fn confirm_reported_state(&mut self, context: u64) -> (r: bool)
        requires
            old(self)@.wf(),
        ensures
            final(self)@.wf(),
            r <==> old(self)@.pending_reports.contains(context),
            !r ==> final(self)@ == old(self)@,
            r ==> exists|i: int|
                0 <= i < old(self)@.pending_reports.len() && old(self)@.pending_reports[i]
                    == context && final(self)@ == (ClientModel {
                    pending_reports: old(self)@.pending_reports.remove(i),
                    ..old(self)@
                }),
    {
        let ghost before = self@;
        let mut i: usize = 0;
        while i < self.pending_reports.len()
            invariant
                self@ == before,
                before == old(self)@,
                before.wf(),
                0 <= i <= before.pending_reports.len(),
                forall|j: int| 0 <= j < i ==> before.pending_reports[j] != context,
            decreases before.pending_reports.len() - i,
        {
            if self.pending_reports[i] == context {
                assert(before.pending_reports[i as int] == context);
                assert(before == old(self)@);
                self.pending_reports.remove(i);
                assert(self@.pending_sends =~= before.pending_sends);
                proof {
                    lemma_contexts_ordered_remove(before.pending_reports, before.next_context, i as int);
                }
                return true;
            }
            i = i + 1;
        }
        assert(!before.pending_reports.contains(context));
        false
    }
}

/// Each disposition is relayed as its own code: the three codes differ, so
/// no verdict is silently replaced by another.
pub proof fn lemma_disposition_relay(a: MessageDisposition, b: MessageDisposition)
    ensures
        spec_disposition_code(MessageDisposition::Accepted) == codes::IOTHUBMESSAGE_ACCEPTED,
        spec_disposition_code(MessageDisposition::Rejected) == codes::IOTHUBMESSAGE_REJECTED,
        spec_disposition_code(MessageDisposition::Abandoned) == codes::IOTHUBMESSAGE_ABANDONED,
        spec_disposition_code(a) == spec_disposition_code(b) ==> a == b,
{
}

/// Registering a message callback on a handle whose slot holds `previous`:
/// from then on inbound messages reach the new callback only, and
/// `previous` is handed back to its owner to be released. Registering in
/// any other slot afterwards leaves the message slot as it is.
pub proof fn lemma_message_callback_replaced(
    c: ClientModel,
    previous: CallbackId,
    callback: CallbackId,
    other: CallbackId,
)
    requires
        c.message_callback == Some(previous),
    ensures
        ({
            let after = ClientModel { message_callback: Some(callback), ..c };
            &&& after.message_callback == Some(callback)
            &&& c.message_callback == Some(previous)
            &&& (ClientModel { connection_status_callback: Some(other), ..after }).message_callback
                == Some(callback)
            &&& (ClientModel { device_twin_callback: Some(other), ..after }).message_callback
                == Some(callback)
            &&& (ClientModel { device_method_callback: Some(other), ..after }).message_callback
                == Some(callback)
        }),
{
}

/// A send followed by the confirmation of its context: the context names
/// exactly one send in flight, that send holds the message that was sent,
/// and closing it leaves the sends in flight as they were before.
pub proof fn lemma_send_round_trip(c: ClientModel, message: MessageModel)
    requires
        c.wf(),
        c.next_context < u64::MAX,
    ensures
        ({
            let sent = c.pending_sends.push((c.next_context, message));
            let i = c.pending_sends.len() as int;
            &&& 0 <= i < sent.len()
            &&& sent[i] == (c.next_context, message)
            &&& forall|j: int| 0 <= j < sent.len() && sent[j].0 == c.next_context ==> j == i
            &&& sent.remove(i) == c.pending_sends
        }),
{
    let sent = c.pending_sends.push((c.next_context, message));
    let i = c.pending_sends.len() as int;
    assert forall|j: int| 0 <= j < sent.len() && sent[j].0 == c.next_context implies j == i by {
        if j < i {
            assert(c.send_contexts()[j] == c.pending_sends[j].0);
        }
    }
    assert(sent.remove(i) =~= c.pending_sends);
}

} // verus!
