//! Results of creating a client handle through device authentication, with
//! or without the device provisioning service.
use crate::client_ll::IotHubDeviceClientLowLevel;
use crate::codes;
use vstd::prelude::*;

verus! {

/// Result codes of the provisioning device client.
#[derive(Debug, PartialEq, Eq, Clone, Copy, Structural)]
pub enum ProvDeviceResult {
    InvalidArg,
    Success,
    Memory,
    Parsing,
    Transport,
    InvalidState,
    DeviceAuth,
    Timeout,
    KeyError,
    Error,
    HubNotSpecified,
    Unauthorized,
    Disabled,
}

/// Error results of the hub client, as provisioning reports them.
#[derive(Debug, PartialEq, Eq, Clone, Copy, Structural)]
pub enum IotHubClientResult {
    InvalidArg,
    Error,
    InvalidSize,
    IndefiniteTime,
}

/// What failed when provisioning.
#[derive(Debug, PartialEq, Eq, Clone, Copy, Structural)]
pub enum ProvReturnValue {
    /// One or more parameters were invalid.
    InvalidParam,
    /// The network is not ready.
    NetworkNotReady,
    /// Device authentication is not ready.
    DeviceAuthNotReady,
    /// Provisioning failed.
    ProvDeviceError(ProvDeviceResult),
    /// Creating the hub client failed.
    IotHubClientError(IotHubClientResult),
    /// Any other failure.
    GenericError,
}

pub open spec fn spec_prov_device_result(code: u32) -> ProvDeviceResult {
    if code == codes::PROV_DEVICE_RESULT_INVALID_ARG {
        ProvDeviceResult::InvalidArg
    } else if code == codes::PROV_DEVICE_RESULT_SUCCESS {
        ProvDeviceResult::Success
    } else if code == codes::PROV_DEVICE_RESULT_MEMORY {
        ProvDeviceResult::Memory
    } else if code == codes::PROV_DEVICE_RESULT_PARSING {
        ProvDeviceResult::Parsing
    } else if code == codes::PROV_DEVICE_RESULT_TRANSPORT {
        ProvDeviceResult::Transport
    } else if code == codes::PROV_DEVICE_RESULT_INVALID_STATE {
        ProvDeviceResult::InvalidState
    } else if code == codes::PROV_DEVICE_RESULT_DEV_AUTH_ERROR {
        ProvDeviceResult::DeviceAuth
    } else if code == codes::PROV_DEVICE_RESULT_TIMEOUT {
        ProvDeviceResult::Timeout
    } else if code == codes::PROV_DEVICE_RESULT_KEY_ERROR {
        ProvDeviceResult::KeyError
    } else if code == codes::PROV_DEVICE_RESULT_HUB_NOT_SPECIFIED {
        ProvDeviceResult::HubNotSpecified
    } else if code == codes::PROV_DEVICE_RESULT_UNAUTHORIZED {
        ProvDeviceResult::Unauthorized
    } else if code == codes::PROV_DEVICE_RESULT_DISABLED {
        ProvDeviceResult::Disabled
    } else {
        ProvDeviceResult::Error
    }
}

pub open spec fn spec_iothub_client_result(code: u32) -> IotHubClientResult {
    if code == codes::IOTHUB_CLIENT_INVALID_ARG {
        IotHubClientResult::InvalidArg
    } else if code == codes::IOTHUB_CLIENT_INVALID_SIZE {
        IotHubClientResult::InvalidSize
    } else if code == codes::IOTHUB_CLIENT_INDEFINITE_TIME {
        IotHubClientResult::IndefiniteTime
    } else {
        IotHubClientResult::Error
    }
}

/// The provisioning device result that a native code stands for; the
/// success-less `OK` code and unknown codes count as `Error`.
pub fn map_prov_device_result(code: u32) -> (r: ProvDeviceResult)
    ensures
        r == spec_prov_device_result(code),
{
    if code == codes::PROV_DEVICE_RESULT_INVALID_ARG {
        ProvDeviceResult::InvalidArg
    } else if code == codes::PROV_DEVICE_RESULT_SUCCESS {
        ProvDeviceResult::Success
    } else if code == codes::PROV_DEVICE_RESULT_MEMORY {
        ProvDeviceResult::Memory
    } else if code == codes::PROV_DEVICE_RESULT_PARSING {
        ProvDeviceResult::Parsing
    } else if code == codes::PROV_DEVICE_RESULT_TRANSPORT {
        ProvDeviceResult::Transport
    } else if code == codes::PROV_DEVICE_RESULT_INVALID_STATE {
        ProvDeviceResult::InvalidState
    } else if code == codes::PROV_DEVICE_RESULT_DEV_AUTH_ERROR {
        ProvDeviceResult::DeviceAuth
    } else if code == codes::PROV_DEVICE_RESULT_TIMEOUT {
        ProvDeviceResult::Timeout
    } else if code == codes::PROV_DEVICE_RESULT_KEY_ERROR {
        ProvDeviceResult::KeyError
    } else if code == codes::PROV_DEVICE_RESULT_HUB_NOT_SPECIFIED {
        ProvDeviceResult::HubNotSpecified
    } else if code == codes::PROV_DEVICE_RESULT_UNAUTHORIZED {
        ProvDeviceResult::Unauthorized
    } else if code == codes::PROV_DEVICE_RESULT_DISABLED {
        ProvDeviceResult::Disabled
    } else {
        ProvDeviceResult::Error
    }
}

/// The hub client error that a native code stands for; the success code and
/// unknown codes count as `Error`.
pub fn map_iothub_client_result(code: u32) -> (r: IotHubClientResult)
    ensures
        r == spec_iothub_client_result(code),
{
    if code == codes::IOTHUB_CLIENT_INVALID_ARG {
        IotHubClientResult::InvalidArg
    } else if code == codes::IOTHUB_CLIENT_INVALID_SIZE {
        IotHubClientResult::InvalidSize
    } else if code == codes::IOTHUB_CLIENT_INDEFINITE_TIME {
        IotHubClientResult::IndefiniteTime
    } else {
        IotHubClientResult::Error
    }
}

/// The error that a failed provisioning reports: its overall result code,
/// with the detail code that belongs to it.
pub open spec fn spec_prov_error(result: u32, prov_device_error: u32, iothub_client_error: u32) -> ProvReturnValue {
    if result == codes::AZURE_SPHERE_PROV_RESULT_INVALID_PARAM {
        ProvReturnValue::InvalidParam
    } else if result == codes::AZURE_SPHERE_PROV_RESULT_NETWORK_NOT_READY {
        ProvReturnValue::NetworkNotReady
    } else if result == codes::AZURE_SPHERE_PROV_RESULT_DEVICEAUTH_NOT_READY {
        ProvReturnValue::DeviceAuthNotReady
    } else if result == codes::AZURE_SPHERE_PROV_RESULT_PROV_DEVICE_ERROR {
        ProvReturnValue::ProvDeviceError(spec_prov_device_result(prov_device_error))
    } else if result == codes::AZURE_SPHERE_PROV_RESULT_IOTHUB_CLIENT_ERROR {
        ProvReturnValue::IotHubClientError(spec_iothub_client_result(iothub_client_error))
    } else {
        ProvReturnValue::GenericError
    }
}

/// The outcome of provisioning with device authentication: the native
/// call's result code, its two detail codes and the handle it wrote. A
/// success that left no handle counts as a generic error.
pub fn create_with_device_auth_provisioning(
    result: u32,
    prov_device_error: u32,
    iothub_client_error: u32,
    handle: u32,
) -> (r: Result<IotHubDeviceClientLowLevel, ProvReturnValue>)
    ensures
        r is Ok <==> result == codes::AZURE_SPHERE_PROV_RESULT_OK && handle != 0,
        r is Ok ==> r->Ok_0@.handle == handle && r->Ok_0@.wf(),
        result != codes::AZURE_SPHERE_PROV_RESULT_OK ==> r == Err::<
            IotHubDeviceClientLowLevel,
            ProvReturnValue,
        >(spec_prov_error(result, prov_device_error, iothub_client_error)),
        result == codes::AZURE_SPHERE_PROV_RESULT_OK && handle == 0 ==> r == Err::<
            IotHubDeviceClientLowLevel,
            ProvReturnValue,
        >(ProvReturnValue::GenericError),
{
    if result == codes::AZURE_SPHERE_PROV_RESULT_OK {
        match IotHubDeviceClientLowLevel::from_handle(handle) {
            Some(client) => Ok(client),
            None => Err(ProvReturnValue::GenericError),
        }
    } else if result == codes::AZURE_SPHERE_PROV_RESULT_INVALID_PARAM {
        Err(ProvReturnValue::InvalidParam)
    } else if result == codes::AZURE_SPHERE_PROV_RESULT_NETWORK_NOT_READY {
        Err(ProvReturnValue::NetworkNotReady)
    } else if result == codes::AZURE_SPHERE_PROV_RESULT_DEVICEAUTH_NOT_READY {
        Err(ProvReturnValue::DeviceAuthNotReady)
    } else if result == codes::AZURE_SPHERE_PROV_RESULT_PROV_DEVICE_ERROR {
        Err(ProvReturnValue::ProvDeviceError(map_prov_device_result(prov_device_error)))
    } else if result == codes::AZURE_SPHERE_PROV_RESULT_IOTHUB_CLIENT_ERROR {
        Err(ProvReturnValue::IotHubClientError(map_iothub_client_result(iothub_client_error)))
    } else {
        Err(ProvReturnValue::GenericError)
    }
}

/// The outcome of creating a client handle from device authentication: the
/// handle that the native call returned, zero meaning failure.
pub fn create_from_device_auth(handle: u32) -> (r: Option<IotHubDeviceClientLowLevel>)
    ensures
        r is Some <==> handle != 0,
        r is Some ==> r->Some_0@.handle == handle && r->Some_0@.wf(),
{
    IotHubDeviceClientLowLevel::from_handle(handle)
}

} // verus!
