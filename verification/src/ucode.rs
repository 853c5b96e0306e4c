//! The protocol-level outcome codes carried by a status object.

use vstd::prelude::*;

verus! {

/// Outcome code of an operation, as fixed by the protocol's status model.
///
/// Each code corresponds to one numeric value on the wire; the mapping is
/// given by [`code_value`] and [`code_of_value`].
#[allow(non_camel_case_types)]
#[derive(Clone, Copy, Debug, PartialEq, Eq, Structural)]
pub enum UCode {
    OK,
    CANCELLED,
    UNKNOWN,
    INVALID_ARGUMENT,
    DEADLINE_EXCEEDED,
    NOT_FOUND,
    ALREADY_EXISTS,
    PERMISSION_DENIED,
    RESOURCE_EXHAUSTED,
    FAILED_PRECONDITION,
    ABORTED,
    OUT_OF_RANGE,
    UNIMPLEMENTED,
    INTERNAL,
    UNAVAILABLE,
    DATA_LOSS,
    UNAUTHENTICATED,
}

/// The numeric wire value of a code.
pub open spec fn code_value(code: UCode) -> int {
    match code {
        UCode::OK => 0,
        UCode::CANCELLED => 1,
        UCode::UNKNOWN => 2,
        UCode::INVALID_ARGUMENT => 3,
        UCode::DEADLINE_EXCEEDED => 4,
        UCode::NOT_FOUND => 5,
        UCode::ALREADY_EXISTS => 6,
        UCode::PERMISSION_DENIED => 7,
        UCode::RESOURCE_EXHAUSTED => 8,
        UCode::FAILED_PRECONDITION => 9,
        UCode::ABORTED => 10,
        UCode::OUT_OF_RANGE => 11,
        UCode::UNIMPLEMENTED => 12,
        UCode::INTERNAL => 13,
        UCode::UNAVAILABLE => 14,
        UCode::DATA_LOSS => 15,
        UCode::UNAUTHENTICATED => 16,
    }
}

/// The code denoted by a numeric value; values outside the known range
/// fall back to the default code, which is the one with value zero.
pub open spec fn code_of_value(value: int) -> UCode {
    if value == 1 {
        UCode::CANCELLED
    } else if value == 2 {
        UCode::UNKNOWN
    } else if value == 3 {
        UCode::INVALID_ARGUMENT
    } else if value == 4 {
        UCode::DEADLINE_EXCEEDED
    } else if value == 5 {
        UCode::NOT_FOUND
    } else if value == 6 {
        UCode::ALREADY_EXISTS
    } else if value == 7 {
        UCode::PERMISSION_DENIED
    } else if value == 8 {
        UCode::RESOURCE_EXHAUSTED
    } else if value == 9 {
        UCode::FAILED_PRECONDITION
    } else if value == 10 {
        UCode::ABORTED
    } else if value == 11 {
        UCode::OUT_OF_RANGE
    } else if value == 12 {
        UCode::UNIMPLEMENTED
    } else if value == 13 {
        UCode::INTERNAL
    } else if value == 14 {
        UCode::UNAVAILABLE
    } else if value == 15 {
        UCode::DATA_LOSS
    } else if value == 16 {
        UCode::UNAUTHENTICATED
    } else {
        UCode::OK
    }
}

impl UCode {
    /// Returns the numeric wire value of this code.
    pub fn value(self) -> (r: i32)
        ensures
            r == code_value(self),
    {
        match self {
            UCode::OK => 0,
            UCode::CANCELLED => 1,
            UCode::UNKNOWN => 2,
            UCode::INVALID_ARGUMENT => 3,
            UCode::DEADLINE_EXCEEDED => 4,
            UCode::NOT_FOUND => 5,
            UCode::ALREADY_EXISTS => 6,
            UCode::PERMISSION_DENIED => 7,
            UCode::RESOURCE_EXHAUSTED => 8,
            UCode::FAILED_PRECONDITION => 9,
            UCode::ABORTED => 10,
            UCode::OUT_OF_RANGE => 11,
            UCode::UNIMPLEMENTED => 12,
            UCode::INTERNAL => 13,
            UCode::UNAVAILABLE => 14,
            UCode::DATA_LOSS => 15,
            UCode::UNAUTHENTICATED => 16,
        }
    }

    /// Returns the code denoted by a numeric value, falling back to the
    /// default code for values outside the known range.
    pub fn from_value(value: i32) -> (r: UCode)
        ensures
            r == code_of_value(value as int),
    {
        if value == 1 {
            UCode::CANCELLED
        } else if value == 2 {
            UCode::UNKNOWN
        } else if value == 3 {
            UCode::INVALID_ARGUMENT
        } else if value == 4 {
            UCode::DEADLINE_EXCEEDED
        } else if value == 5 {
            UCode::NOT_FOUND
        } else if value == 6 {
            UCode::ALREADY_EXISTS
        } else if value == 7 {
            UCode::PERMISSION_DENIED
        } else if value == 8 {
            UCode::RESOURCE_EXHAUSTED
        } else if value == 9 {
            UCode::FAILED_PRECONDITION
        } else if value == 10 {
            UCode::ABORTED
        } else if value == 11 {
            UCode::OUT_OF_RANGE
        } else if value == 12 {
            UCode::UNIMPLEMENTED
        } else if value == 13 {
            UCode::INTERNAL
        } else if value == 14 {
            UCode::UNAVAILABLE
        } else if value == 15 {
            UCode::DATA_LOSS
        } else if value == 16 {
            UCode::UNAUTHENTICATED
        } else {
            UCode::OK
        }
    }
}

/// Round trip: the numeric value of a code denotes that code again.
pub proof fn lemma_code_value_round_trip(code: UCode)
    ensures
        code_of_value(code_value(code)) == code,
{
}

} // verus!
