//! Numeric codes of the native IoT hub SDK, as its C enumerations define
//! them (each enumeration counts up from zero in declaration order).
use vstd::prelude::*;

verus! {

// IOTHUB_CLIENT_RESULT
pub const IOTHUB_CLIENT_OK: u32 = 0;
pub const IOTHUB_CLIENT_INVALID_ARG: u32 = 1;
pub const IOTHUB_CLIENT_ERROR: u32 = 2;
pub const IOTHUB_CLIENT_INVALID_SIZE: u32 = 3;
pub const IOTHUB_CLIENT_INDEFINITE_TIME: u32 = 4;

// IOTHUB_CLIENT_RETRY_POLICY
pub const IOTHUB_CLIENT_RETRY_NONE: u32 = 0;
pub const IOTHUB_CLIENT_RETRY_IMMEDIATE: u32 = 1;
pub const IOTHUB_CLIENT_RETRY_INTERVAL: u32 = 2;
pub const IOTHUB_CLIENT_RETRY_LINEAR_BACKOFF: u32 = 3;
pub const IOTHUB_CLIENT_RETRY_EXPONENTIAL_BACKOFF: u32 = 4;
pub const IOTHUB_CLIENT_RETRY_EXPONENTIAL_BACKOFF_WITH_JITTER: u32 = 5;
pub const IOTHUB_CLIENT_RETRY_RANDOM: u32 = 6;

// IOTHUB_CLIENT_CONFIRMATION_RESULT
pub const IOTHUB_CLIENT_CONFIRMATION_OK: u32 = 0;
pub const IOTHUB_CLIENT_CONFIRMATION_BECAUSE_DESTROY: u32 = 1;
pub const IOTHUB_CLIENT_CONFIRMATION_MESSAGE_TIMEOUT: u32 = 2;
pub const IOTHUB_CLIENT_CONFIRMATION_ERROR: u32 = 3;

// IOTHUB_CLIENT_CONNECTION_STATUS
pub const IOTHUB_CLIENT_CONNECTION_AUTHENTICATED: u32 = 0;
pub const IOTHUB_CLIENT_CONNECTION_UNAUTHENTICATED: u32 = 1;

// IOTHUB_CLIENT_CONNECTION_STATUS_REASON
pub const IOTHUB_CLIENT_CONNECTION_EXPIRED_SAS_TOKEN: u32 = 0;
pub const IOTHUB_CLIENT_CONNECTION_DEVICE_DISABLED: u32 = 1;
pub const IOTHUB_CLIENT_CONNECTION_BAD_CREDENTIAL: u32 = 2;
pub const IOTHUB_CLIENT_CONNECTION_RETRY_EXPIRED: u32 = 3;
pub const IOTHUB_CLIENT_CONNECTION_NO_NETWORK: u32 = 4;
pub const IOTHUB_CLIENT_CONNECTION_COMMUNICATION_ERROR: u32 = 5;
pub const IOTHUB_CLIENT_CONNECTION_OK: u32 = 6;
pub const IOTHUB_CLIENT_CONNECTION_NO_PING_RESPONSE: u32 = 7;

// IOTHUBMESSAGE_DISPOSITION_RESULT
pub const IOTHUBMESSAGE_ACCEPTED: u32 = 0;
pub const IOTHUBMESSAGE_REJECTED: u32 = 1;
pub const IOTHUBMESSAGE_ABANDONED: u32 = 2;

// DEVICE_TWIN_UPDATE_STATE
pub const DEVICE_TWIN_UPDATE_COMPLETE: u32 = 0;
pub const DEVICE_TWIN_UPDATE_PARTIAL: u32 = 1;

// IOTHUB_MESSAGE_RESULT
pub const IOTHUB_MESSAGE_OK: u32 = 0;
pub const IOTHUB_MESSAGE_INVALID_ARG: u32 = 1;
pub const IOTHUB_MESSAGE_INVALID_TYPE: u32 = 2;
pub const IOTHUB_MESSAGE_ERROR: u32 = 3;

// IOTHUBMESSAGE_CONTENT_TYPE
pub const IOTHUBMESSAGE_BYTEARRAY: u32 = 0;
pub const IOTHUBMESSAGE_STRING: u32 = 1;
pub const IOTHUBMESSAGE_UNKNOWN: u32 = 2;

// IOTHUB_SECURITY_TYPE
pub const IOTHUB_SECURITY_TYPE_UNKNOWN: u32 = 0;
pub const IOTHUB_SECURITY_TYPE_SAS: u32 = 1;
pub const IOTHUB_SECURITY_TYPE_X509: u32 = 2;
pub const IOTHUB_SECURITY_TYPE_HTTP_EDGE: u32 = 3;
pub const IOTHUB_SECURITY_TYPE_SYMMETRIC_KEY: u32 = 4;

// AZURE_SPHERE_PROV_RESULT
pub const AZURE_SPHERE_PROV_RESULT_OK: u32 = 0;
pub const AZURE_SPHERE_PROV_RESULT_INVALID_PARAM: u32 = 1;
pub const AZURE_SPHERE_PROV_RESULT_NETWORK_NOT_READY: u32 = 2;
pub const AZURE_SPHERE_PROV_RESULT_DEVICEAUTH_NOT_READY: u32 = 3;
pub const AZURE_SPHERE_PROV_RESULT_PROV_DEVICE_ERROR: u32 = 4;
pub const AZURE_SPHERE_PROV_RESULT_IOTHUB_CLIENT_ERROR: u32 = 5;
pub const AZURE_SPHERE_PROV_RESULT_GENERIC_ERROR: u32 = 6;

// PROV_DEVICE_RESULT
pub const PROV_DEVICE_RESULT_OK: u32 = 0;
pub const PROV_DEVICE_RESULT_INVALID_ARG: u32 = 1;
pub const PROV_DEVICE_RESULT_SUCCESS: u32 = 2;
pub const PROV_DEVICE_RESULT_MEMORY: u32 = 3;
pub const PROV_DEVICE_RESULT_PARSING: u32 = 4;
pub const PROV_DEVICE_RESULT_TRANSPORT: u32 = 5;
pub const PROV_DEVICE_RESULT_INVALID_STATE: u32 = 6;
pub const PROV_DEVICE_RESULT_DEV_AUTH_ERROR: u32 = 7;
pub const PROV_DEVICE_RESULT_TIMEOUT: u32 = 8;
pub const PROV_DEVICE_RESULT_KEY_ERROR: u32 = 9;
pub const PROV_DEVICE_RESULT_ERROR: u32 = 10;
pub const PROV_DEVICE_RESULT_HUB_NOT_SPECIFIED: u32 = 11;
pub const PROV_DEVICE_RESULT_UNAUTHORIZED: u32 = 12;
pub const PROV_DEVICE_RESULT_DISABLED: u32 = 13;

} // verus!
