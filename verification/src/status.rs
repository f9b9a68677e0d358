//! The failure value of a call: a code and a message for the caller.

use vstd::prelude::*;

verus! {

/// The two kinds of failure that a call can report.
#[derive(Clone, Copy, PartialEq, Eq, Structural, Debug)]
pub enum Code {
    /// The storage port failed, or the request's identifier was malformed.
    Internal,
    /// A read by identifier found no post.
    NotFound,
}

/// A failed call.
#[derive(Debug)]
pub struct Status {
    pub code: Code,
    pub message: String,
}

/// The mathematical value of a status.
pub struct StatusData {
    pub code: Code,
    pub message: Seq<char>,
}

impl View for Status {
    type V = StatusData;

    open spec fn view(&self) -> StatusData {
        StatusData { code: self.code, message: self.message@ }
    }
}

impl Status {
    /// An internal failure with the given message.
    pub fn internal(message: String) -> (r: Status)
        ensures
            r@ == (StatusData { code: Code::Internal, message: message@ }),
    {
        Status { code: Code::Internal, message }
    }

    /// A not-found failure with the given message.
    pub fn not_found(message: String) -> (r: Status)
        ensures
            r@ == (StatusData { code: Code::NotFound, message: message@ }),
    {
        Status { code: Code::NotFound, message }
    }
}

} // verus!
