//! The device client: a client handle that starts with the built-in message
//! and device twin handlers registered.
use crate::client_ll::CallbackId;
use crate::client_ll::ClientModel;
use crate::client_ll::ClientResult;
use crate::client_ll::spec_client_error;
use crate::client_ll::spec_retry_policy_of;
use crate::client_ll::ClientRetryPolicy;
use crate::codes;
use crate::client_ll::IotHubDeviceClientLowLevel;
use crate::client_ll::MessageDisposition;
use crate::message::IotHubMessage;
use vstd::prelude::*;

verus! {

/// A device client over one client handle.
pub struct IotHubDeviceClient {
    pub client: IotHubDeviceClientLowLevel,
}

/// What the built-in message handler answers: every message is accepted.
pub fn default_message_disposition() -> (r: MessageDisposition)
    ensures
        r == MessageDisposition::Accepted,
{
    MessageDisposition::Accepted
}

impl View for IotHubDeviceClient {
    type V = ClientModel;

    open spec fn view(&self) -> ClientModel {
        self.client@
    }
}

impl IotHubDeviceClient {
    /// A device client over `client_ll`, with the built-in handlers in the
    /// message and device twin slots; the callbacks they replace are
    /// dropped.
    pub fn new(client_ll: IotHubDeviceClientLowLevel) -> (r: Result<Self, ClientResult>)
        ensures
            r is Ok,
            r->Ok_0@ == (ClientModel {
                message_callback: Some(CallbackId::Default),
                device_twin_callback: Some(CallbackId::Default),
                ..client_ll@
            }),
    {
        let mut client = client_ll;
        client.set_message_callback(CallbackId::Default);
        client.set_device_twin_callback(CallbackId::Default);
        Ok(IotHubDeviceClient { client })
    }

    /// See `IotHubDeviceClientLowLevel::set_device_method_callback`.
    pub fn set_device_method_callback(&mut self, callback: CallbackId) -> (r: Option<CallbackId>)
        ensures
            r == old(self)@.device_method_callback,
            final(self)@ == (ClientModel { device_method_callback: Some(callback), ..old(self)@ }),
    {
        self.client.set_device_method_callback(callback)
    }

    /// See `IotHubDeviceClientLowLevel::set_device_twin_callback`.
    pub fn set_device_twin_callback(&mut self, callback: CallbackId) -> (r: Option<CallbackId>)
        ensures
            r == old(self)@.device_twin_callback,
            final(self)@ == (ClientModel { device_twin_callback: Some(callback), ..old(self)@ }),
    {
        self.client.set_device_twin_callback(callback)
    }

    /// See `IotHubDeviceClientLowLevel::set_connection_status_callback`.
    pub fn set_connection_status_callback(&mut self, callback: CallbackId) -> (r: Option<CallbackId>)
        ensures
            r == old(self)@.connection_status_callback,
            final(self)@ == (ClientModel {
                connection_status_callback: Some(callback),
                ..old(self)@
            }),
    {
        self.client.set_connection_status_callback(callback)
    }

    /// See `IotHubDeviceClientLowLevel::set_message_callback`.
    pub fn set_message_callback(&mut self, callback: CallbackId) -> (r: Option<CallbackId>)
        ensures
            r == old(self)@.message_callback,
            final(self)@ == (ClientModel { message_callback: Some(callback), ..old(self)@ }),
    {
        self.client.set_message_callback(callback)
    }

    /// See `IotHubDeviceClientLowLevel::set_retry_policy`.
    pub fn set_retry_policy(
        &mut self,
        retry_policy: ClientRetryPolicy,
        retry_timeout_limit_in_seconds: usize,
    ) -> (r: Result<(), ClientResult>)
        ensures
            r is Ok <==> retry_policy != ClientRetryPolicy::Interval,
            r is Err ==> r == Err::<(), ClientResult>(ClientResult::Error) && final(self)@ == old(
                self,
            )@,
            r is Ok ==> final(self)@ == (ClientModel {
                retry_policy,
                retry_timeout_limit_in_seconds,
                ..old(self)@
            }),
    {
        self.client.set_retry_policy(retry_policy, retry_timeout_limit_in_seconds)
    }

    /// See `IotHubDeviceClientLowLevel::get_retry_policy`.
    pub fn get_retry_policy(
        &mut self,
        status: u32,
        retry_policy_native: u32,
        retry_timeout_limit_in_seconds: usize,
    ) -> (r: Result<(ClientRetryPolicy, usize), ClientResult>)
        ensures
            status != codes::IOTHUB_CLIENT_OK ==> r == Err::<(ClientRetryPolicy, usize), ClientResult>(
                spec_client_error(status),
            ),
            status == codes::IOTHUB_CLIENT_OK && spec_retry_policy_of(retry_policy_native) is None
                ==> r == Err::<(ClientRetryPolicy, usize), ClientResult>(ClientResult::Error),
            status == codes::IOTHUB_CLIENT_OK && spec_retry_policy_of(retry_policy_native) is Some
                ==> r == Ok::<(ClientRetryPolicy, usize), ClientResult>(
                (spec_retry_policy_of(retry_policy_native)->Some_0, retry_timeout_limit_in_seconds),
            ),
            r is Err ==> final(self)@ == old(self)@,
            r is Ok ==> final(self)@ == (ClientModel {
                retry_policy: r->Ok_0.0,
                retry_timeout_limit_in_seconds,
                ..old(self)@
            }),
    {
        self.client.get_retry_policy(status, retry_policy_native, retry_timeout_limit_in_seconds)
    }

    /// See `IotHubDeviceClientLowLevel::send_event_async`.
    pub fn send_event(&mut self, event_message: IotHubMessage) -> (r: Result<u64, ClientResult>)
        requires
            old(self)@.wf(),
        ensures
            final(self)@.wf(),
            r is Ok <==> old(self)@.next_context < u64::MAX,
            r is Err ==> r == Err::<u64, ClientResult>(ClientResult::Error) && final(self)@ == old(
                self,
            )@,
            r is Ok ==> r->Ok_0 == old(self)@.next_context && final(self)@ == (ClientModel {
                pending_sends: old(self)@.pending_sends.push((r->Ok_0, event_message@)),
                next_context: (old(self)@.next_context + 1) as u64,
                ..old(self)@
            }),
    {
        self.client.send_event_async(event_message)
    }

    /// See `IotHubDeviceClientLowLevel::send_reported_state`.
    pub fn send_reported_state(&mut self) -> (r: Result<u64, ClientResult>)
        requires
            old(self)@.wf(),
        ensures
            final(self)@.wf(),
            old(self)@.next_context == u64::MAX ==> r == Err::<u64, ClientResult>(ClientResult::Error),
            r is Ok <==> old(self)@.next_context < u64::MAX,
            r is Err ==> final(self)@ == old(self)@,
            r is Ok ==> r->Ok_0 == old(self)@.next_context && final(self)@ == (ClientModel {
                pending_reports: old(self)@.pending_reports.push(r->Ok_0),
                next_context: (old(self)@.next_context + 1) as u64,
                ..old(self)@
            }),
    {
        self.client.send_reported_state()
    }

    /// The native handle whose work pump is to run now.
    pub fn do_work(&self) -> (r: u32)
        ensures
            r == self@.handle,
    {
        self.client.handle()
    }
}

} // verus!
