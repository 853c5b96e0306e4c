//! The status object: the protocol-level outcome of an invocation, as it
//! is carried in the payload of an error response.

use vstd::prelude::*;

use crate::ucode::code_of_value;
use crate::ucode::code_value;
use crate::ucode::UCode;

verus! {

/// A detail record attached to a status: an arbitrary payload tagged with
/// the URL of the type that describes it.
#[derive(Clone, Debug, PartialEq, Eq)]
pub struct ProtoAny {
    pub type_url: String,
    pub value: Vec<u8>,
}

impl core::default::Default for ProtoAny {
    /// Returns the empty detail record.
    fn default() -> (r: Self)
        ensures
            r.type_url@ == Seq::<char>::empty(),
            r.value@ == Seq::<u8>::empty(),
    {
        ProtoAny { type_url: String::new(), value: Vec::new() }
    }
}

/// The outcome of an operation: a numeric code, an optional human-readable
/// message, and optional detail records.
///
/// The `code` field holds the raw numeric value; [`UStatus::get_code`]
/// interprets it, falling back to the default code for values outside the
/// known range.
#[derive(Clone, Debug, PartialEq, Eq)]
pub struct UStatus {
    pub code: i32,
    pub message: Option<String>,
    pub details: Vec<ProtoAny>,
}

impl core::default::Default for UStatus {
    /// Returns the status with the default code and no message or details.
    fn default() -> (r: Self)
        ensures
            r.code == 0,
            r.message is None,
            r.details@ == Seq::<ProtoAny>::empty(),
    {
        UStatus { code: 0, message: None, details: Vec::new() }
    }
}

impl UStatus {
    /// Creates a status representing a success.
    pub fn ok() -> (r: Self)
        ensures
            r.code == code_value(UCode::OK),
            r.message is None,
            r.details@ == Seq::<ProtoAny>::empty(),
    {
        UStatus { code: UCode::OK.value(), message: None, details: Vec::new() }
    }

    /// Creates a status representing a failure, with the default failure
    /// code.
    pub fn fail(msg: &str) -> (r: Self)
        ensures
            r.code == code_value(UCode::UNKNOWN),
            r.message matches Some(m) && m@ == msg@,
            r.details@ == Seq::<ProtoAny>::empty(),
    {
        UStatus { code: UCode::UNKNOWN.value(), message: Some(msg.to_owned()), details: Vec::new() }
    }

    /// Creates a status representing a failure with the given code.
    pub fn fail_with_code(code: UCode, msg: &str) -> (r: Self)
        ensures
            r.code == code_value(code),
            r.message matches Some(m) && m@ == msg@,
            r.details@ == Seq::<ProtoAny>::empty(),
    {
        UStatus { code: code.value(), message: Some(msg.to_owned()), details: Vec::new() }
    }

    /// Checks if this status represents a failure.
    pub fn is_failed(&self) -> (r: bool)
        ensures
            r == (code_of_value(self.code as int) != UCode::OK),
    {
        self.get_code() != UCode::OK
    }

    /// Checks if this status represents a success.
    pub fn is_success(&self) -> (r: bool)
        ensures
            r == (code_of_value(self.code as int) == UCode::OK),
    {
        self.get_code() == UCode::OK
    }

    /// Gets this status' error message, or the empty string if it carries
    /// none.
    pub fn get_message(&self) -> (r: String)
        ensures
            match self.message {
                Some(m) => r@ == m@,
                None => r@ == Seq::<char>::empty(),
            },
    {
        match self.message.as_ref() {
            Some(msg) => msg.clone(),
            None => String::new(),
        }
    }

    /// Gets this status' error code: the code denoted by the raw `code`
    /// value, falling back to the default code for values outside the
    /// known range.
    pub fn get_code(&self) -> (r: UCode)
        ensures
            r == code_of_value(self.code as int),
    {
        UCode::from_value(self.code)
    }
}

} // verus!
