//! The security module of the SDK, which must be initialised with an
//! authentication type before a device-auth connection is made.
use crate::codes;
use vstd::prelude::*;

verus! {

/// Authentication types of the security module.
#[derive(Debug, PartialEq, Eq, Clone, Copy, Structural)]
pub enum SecurityType {
    Unknown,
    Sas,
    X509,
    HTTPEdge,
    SymmetricKey,
}

/// Proof that the security module was initialised.
pub struct IotHubSecurityFactory {}

/// The native code of a security type.
pub fn security_type_code(security_type: SecurityType) -> (r: u32)
    ensures
        r == match security_type {
            SecurityType::Unknown => codes::IOTHUB_SECURITY_TYPE_UNKNOWN,
            SecurityType::Sas => codes::IOTHUB_SECURITY_TYPE_SAS,
            SecurityType::X509 => codes::IOTHUB_SECURITY_TYPE_X509,
            SecurityType::HTTPEdge => codes::IOTHUB_SECURITY_TYPE_HTTP_EDGE,
            SecurityType::SymmetricKey => codes::IOTHUB_SECURITY_TYPE_SYMMETRIC_KEY,
        },
{
    match security_type {
        SecurityType::Unknown => codes::IOTHUB_SECURITY_TYPE_UNKNOWN,
        SecurityType::Sas => codes::IOTHUB_SECURITY_TYPE_SAS,
        SecurityType::X509 => codes::IOTHUB_SECURITY_TYPE_X509,
        SecurityType::HTTPEdge => codes::IOTHUB_SECURITY_TYPE_HTTP_EDGE,
        SecurityType::SymmetricKey => codes::IOTHUB_SECURITY_TYPE_SYMMETRIC_KEY,
    }
}

/// The security type that a native code stands for; unknown codes give
/// `Unknown`.
pub fn map_security_type(code: u32) -> (r: SecurityType)
    ensures
        code == codes::IOTHUB_SECURITY_TYPE_SAS ==> r == SecurityType::Sas,
        code == codes::IOTHUB_SECURITY_TYPE_X509 ==> r == SecurityType::X509,
        code == codes::IOTHUB_SECURITY_TYPE_HTTP_EDGE ==> r == SecurityType::HTTPEdge,
        code == codes::IOTHUB_SECURITY_TYPE_SYMMETRIC_KEY ==> r == SecurityType::SymmetricKey,
        (code == codes::IOTHUB_SECURITY_TYPE_UNKNOWN || code
            > codes::IOTHUB_SECURITY_TYPE_SYMMETRIC_KEY) ==> r == SecurityType::Unknown,
{
    if code == codes::IOTHUB_SECURITY_TYPE_SAS {
        SecurityType::Sas
    } else if code == codes::IOTHUB_SECURITY_TYPE_X509 {
        SecurityType::X509
    } else if code == codes::IOTHUB_SECURITY_TYPE_HTTP_EDGE {
        SecurityType::HTTPEdge
    } else if code == codes::IOTHUB_SECURITY_TYPE_SYMMETRIC_KEY {
        SecurityType::SymmetricKey
    } else {
        SecurityType::Unknown
    }
}

impl IotHubSecurityFactory {
    /// The outcome of the native initialisation, which returns zero on
    /// success and some other number on failure.
    pub fn from_init_result(ret: i32) -> (r: Result<Self, i32>)
        ensures
            r is Ok <==> ret == 0,
            r is Err ==> r->Err_0 == ret,
    {
        if ret == 0 {
            Ok(IotHubSecurityFactory {  })
        } else {
            Err(ret)
        }
    }
}

} // verus!
