//! Error taxonomy of the driver surface and of the reconcilers.
use vstd::prelude::*;

verus! {

/// The surface-visible status codes of the volume service.
#[derive(Clone, Copy, Debug, PartialEq, Eq, Structural)]
pub enum RpcCode {
    InvalidArgument,
    NotFound,
    PermissionDenied,
    Internal,
    Unknown,
    Unimplemented,
}

/// A status code together with a human-readable message.
#[derive(Debug)]
pub struct RpcStatus {
    pub code: RpcCode,
    pub message: String,
}

impl RpcStatus {
    pub fn new(code: RpcCode, message: String) -> (r: RpcStatus)
        ensures
            r.code == code,
            r.message@ == message@,
    {
        RpcStatus { code, message }
    }

    pub fn invalid_argument(message: String) -> (r: RpcStatus)
        ensures
            r.code == RpcCode::InvalidArgument,
            r.message@ == message@,
    {
        RpcStatus { code: RpcCode::InvalidArgument, message }
    }

    pub fn not_found(message: String) -> (r: RpcStatus)
        ensures
            r.code == RpcCode::NotFound,
            r.message@ == message@,
    {
        RpcStatus { code: RpcCode::NotFound, message }
    }

    pub fn permission_denied(message: String) -> (r: RpcStatus)
        ensures
            r.code == RpcCode::PermissionDenied,
            r.message@ == message@,
    {
        RpcStatus { code: RpcCode::PermissionDenied, message }
    }

    pub fn internal(message: String) -> (r: RpcStatus)
        ensures
            r.code == RpcCode::Internal,
            r.message@ == message@,
    {
        RpcStatus { code: RpcCode::Internal, message }
    }

    pub fn unimplemented(message: String) -> (r: RpcStatus)
        ensures
            r.code == RpcCode::Unimplemented,
            r.message@ == message@,
    {
        RpcStatus { code: RpcCode::Unimplemented, message }
    }
}

/// The status an operation the driver does not support returns.
pub fn unimplemented_status(operation: &str) -> (r: RpcStatus)
    ensures
        r.code == RpcCode::Unimplemented,
        r.message@ == operation@ + " is not implemented"@,
{
    RpcStatus {
        code: RpcCode::Unimplemented,
        message: crate::strings::str_concat(operation, " is not implemented"),
    }
}

/// Errors of the control loops.
#[derive(Debug)]
pub enum Error {
    /// An orchestrator API call failed; the payload is its rendering.
    KubeError(String),
    /// The control-loop logic itself refused the object.
    ReconcilerError(String),
    /// A referenced secret was absent.
    MissingSecret(String),
    /// A referenced secret could not be read.
    SecretAccessError(String),
    /// The finalizer lifecycle wrapper failed.
    FinalizerError(String),
}

} // verus!
