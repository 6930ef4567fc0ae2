//! Status codes of a [`ServerLeave`](crate::model::ServerLeave).
use vstd::prelude::*;

verus! {

/// The outcome of a client's request to leave.
#[derive(Debug, Clone, Copy, PartialEq, Eq, Structural)]
pub enum StatusCode {
    /// The client left.
    Success,
}

/// The numeric value that stands for `code` on the wire.
pub open spec fn status_code_value(code: StatusCode) -> i32 {
    match code {
        StatusCode::Success => 0,
    }
}

/// The code whose numeric value is `value`, if there is one.
pub open spec fn status_code_from_value(value: i32) -> Option<StatusCode> {
    match value {
        0 => Some(StatusCode::Success),
        _ => None,
    }
}

/// Every code is read back from its numeric value, and a numeric value is read as the code that
/// it stands for.
pub proof fn lemma_status_code_value_roundtrip(code: StatusCode, value: i32)
    ensures
        status_code_from_value(status_code_value(code)) == Some(code),
        status_code_from_value(value) matches Some(read) ==> status_code_value(read) == value,
{
}

impl StatusCode {
    /// Returns the numeric value that stands for this code on the wire.
    pub fn value(self) -> (v: i32)
        ensures
            v == status_code_value(self),
    {
        match self {
            StatusCode::Success => 0,
        }
    }

    /// Returns the code whose numeric value is `value`, if there is one.
    pub fn from_i32(value: i32) -> (r: Option<StatusCode>)
        ensures
            r == status_code_from_value(value),
    {
        match value {
            0 => Some(StatusCode::Success),
            _ => None,
        }
    }
}

} // verus!
