//! The error taxonomy: registration-time errors returned to the caller,
//! and invocation-time errors mapped onto protocol status codes.

use vstd::prelude::*;

use crate::ucode::code_value;
use crate::ucode::UCode;
use crate::ustatus::UStatus;

verus! {

/// An error returned synchronously by endpoint registration or
/// deregistration.
#[derive(Clone, Debug, PartialEq, Eq)]
pub enum RegistrationError {
    /// A filter address failed validation; the reason is carried as text.
    InvalidFilter(String),
    /// The resource id already has a registered handler.
    MaxListenersExceeded,
    /// The resource id has no registered handler.
    NoSuchListener,
    /// The transport refused the listener change; its status is carried
    /// unchanged.
    TransportError(UStatus),
}

/// An error produced by a request handler, or by the deadline that races
/// it.
#[derive(Clone, Debug, PartialEq, Eq)]
pub enum ServiceInvocationError {
    /// The invoked object does not exist.
    NotFound(String),
    /// The handler did not complete within the request's time-to-live.
    DeadlineExceeded,
    /// Any other failure, carried as free text.
    Other(String),
}

impl RegistrationError {
    /// Wraps the status with which the transport refused a listener
    /// change; the status is carried unchanged.
    pub fn from_transport_status(status: UStatus) -> (r: RegistrationError)
        ensures
            r == RegistrationError::TransportError(status),
    {
        RegistrationError::TransportError(status)
    }
}

/// The status code that an invocation error maps to. The mapping is total:
/// every variant has a code.
pub open spec fn invocation_error_code(e: ServiceInvocationError) -> UCode {
    match e {
        ServiceInvocationError::NotFound(_) => UCode::NOT_FOUND,
        ServiceInvocationError::DeadlineExceeded => UCode::DEADLINE_EXCEEDED,
        ServiceInvocationError::Other(_) => UCode::UNKNOWN,
    }
}

/// The free-text detail that an invocation error carries, if any.
pub open spec fn invocation_error_message(e: ServiceInvocationError) -> Option<Seq<char>> {
    match e {
        ServiceInvocationError::NotFound(m) => Some(m@),
        ServiceInvocationError::DeadlineExceeded => None,
        ServiceInvocationError::Other(m) => Some(m@),
    }
}

/// Maps an invocation error onto a status object: the code from
/// [`invocation_error_code`], the free-text detail preserved as the
/// message.
pub fn status_for_invocation_error(e: &ServiceInvocationError) -> (r: UStatus)
    ensures
        r.code == code_value(invocation_error_code(*e)),
        match invocation_error_message(*e) {
            Some(m) => r.message matches Some(rm) && rm@ == m,
            None => r.message is None,
        },
        r.details@ == Seq::<crate::ustatus::ProtoAny>::empty(),
{
    match e {
        ServiceInvocationError::NotFound(m) => UStatus {
            code: UCode::NOT_FOUND.value(),
            message: Some(m.clone()),
            details: Vec::new(),
        },
        ServiceInvocationError::DeadlineExceeded => UStatus {
            code: UCode::DEADLINE_EXCEEDED.value(),
            message: None,
            details: Vec::new(),
        },
        ServiceInvocationError::Other(m) => UStatus {
            code: UCode::UNKNOWN.value(),
            message: Some(m.clone()),
            details: Vec::new(),
        },
    }
}

/// Law: the error-to-status mapping is total and never yields a success
/// code.
pub proof fn lemma_invocation_error_code_total(e: ServiceInvocationError)
    ensures
        invocation_error_code(e) != UCode::OK,
{
}

} // verus!
