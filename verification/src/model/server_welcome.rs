//! Status codes of a [`ServerWelcome`](crate::model::ServerWelcome).
use vstd::prelude::*;

verus! {

/// The outcome of a client's attempt to join a game.
#[derive(Debug, Clone, Copy, PartialEq, Eq, Structural)]
pub enum StatusCode {
    /// The client joined a game.
    Joined,
    /// The welcome message was ill-formed.
    BadRequest,
    /// The requested game does not exist or cannot take more players.
    GameCouldNotBeFound,
    /// Another player of the requested game already uses the nick.
    NickTaken,
}

/// The numeric value that stands for `code` on the wire.
pub open spec fn status_code_value(code: StatusCode) -> i32 {
    match code {
        StatusCode::Joined => 0,
        StatusCode::BadRequest => 1,
        StatusCode::GameCouldNotBeFound => 2,
        StatusCode::NickTaken => 3,
    }
}

/// The code whose numeric value is `value`, if there is one.
pub open spec fn status_code_from_value(value: i32) -> Option<StatusCode> {
    match value {
        0 => Some(StatusCode::Joined),
        1 => Some(StatusCode::BadRequest),
        2 => Some(StatusCode::GameCouldNotBeFound),
        3 => Some(StatusCode::NickTaken),
        _ => None,
    }
}

/// Every code is read back from its numeric value, and a numeric value is read as the code that
/// it stands for.
pub proof fn lemma_status_code_value_roundtrip(code: StatusCode, value: i32)
    ensures
        status_code_from_value(status_code_value(code)) == Some(code),
        status_code_from_value(value) matches Some(read) ==> status_code_value(read) == value,
{
}

impl StatusCode {
    /// Returns the numeric value that stands for this code on the wire.
    pub fn value(self) -> (v: i32)
        ensures
            v == status_code_value(self),
    {
        match self {
            StatusCode::Joined => 0,
            StatusCode::BadRequest => 1,
            StatusCode::GameCouldNotBeFound => 2,
            StatusCode::NickTaken => 3,
        }
    }

    /// Returns the code whose numeric value is `value`, if there is one.
    pub fn from_i32(value: i32) -> (r: Option<StatusCode>)
        ensures
            r == status_code_from_value(value),
    {
        match value {
            0 => Some(StatusCode::Joined),
            1 => Some(StatusCode::BadRequest),
            2 => Some(StatusCode::GameCouldNotBeFound),
            3 => Some(StatusCode::NickTaken),
            _ => None,
        }
    }
}

} // verus!
