//! The error taxonomy shared by every resource operation.

use vstd::prelude::*;
use vstd::string::StringExecFns;

verus! {

/// What kind of failure ended a call.
#[derive(Clone, Copy, Debug, PartialEq, Eq, Structural)]
pub enum Code {
    InvalidArgument,
    NotFound,
    PermissionDenied,
    Internal,
}

/// A failed call: its kind and a message for the caller.
#[derive(Clone, Debug)]
pub struct ServiceError {
    pub code: Code,
    pub message: String,
}

impl ServiceError {
    pub fn invalid_argument(message: &str) -> (r: ServiceError)
        ensures
            r.code == Code::InvalidArgument,
            r.message@ == message@,
    {
        ServiceError { code: Code::InvalidArgument, message: String::from_str(message) }
    }

    pub fn not_found(message: &str) -> (r: ServiceError)
        ensures
            r.code == Code::NotFound,
            r.message@ == message@,
    {
        ServiceError { code: Code::NotFound, message: String::from_str(message) }
    }

    pub fn permission_denied(message: &str) -> (r: ServiceError)
        ensures
            r.code == Code::PermissionDenied,
            r.message@ == message@,
    {
        ServiceError { code: Code::PermissionDenied, message: String::from_str(message) }
    }

    /// A store failure, described by the driver's own text.
    pub fn database(detail: &str) -> (r: ServiceError)
        ensures
            r.code == Code::Internal,
            r.message@ == "database error: "@ + detail@,
    {
        let prefix = String::from_str("database error: ");
        ServiceError { code: Code::Internal, message: prefix.concat(detail) }
    }
}

} // verus!
