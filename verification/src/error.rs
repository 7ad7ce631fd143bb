use vstd::prelude::*;

verus! {

/// Errors surfaced by the capture library.
///
/// Enumeration failures and malformed or unresolvable target ids are fatal to
/// the call that hit them; an empty frame cache is an expected, recoverable
/// answer to a poll.
#[derive(Debug)]
pub enum Error {
    /// The platform could not enumerate surfaces or grab pixels at all;
    /// carries the platform's own message.
    Platform(String),
    /// A target id has no `kind:number` shape (missing separator).
    InvalidTargetId,
    /// The prefix of a target id names neither a monitor nor a window.
    UnknownTargetKind,
    /// The suffix of a target id is not a number that fits the id space.
    InvalidTargetNumber,
    /// No currently enumerated surface matches the requested target.
    TargetNotFound,
    /// A frame could not be encoded at its current dimensions.
    EncodingFailed,
    /// Pull delivery: nothing has been captured yet; poll again.
    NoFrameYet,
}

impl Error {
    /// A short description of the error class.
    pub fn message(&self) -> (r: &'static str)
        ensures
            r@.len() > 0,
            self is Platform ==> r@ == "platform failure"@,
            self is InvalidTargetId ==> r@ == "invalid target id format"@,
            self is UnknownTargetKind ==> r@ == "unknown target kind"@,
            self is InvalidTargetNumber ==> r@ == "invalid target id number"@,
            self is TargetNotFound ==> r@ == "target not found"@,
            self is EncodingFailed ==> r@ == "failed to encode frame"@,
            self is NoFrameYet ==> r@ == "no frame available yet"@,
    {
        proof {
            reveal_strlit("platform failure");
            reveal_strlit("invalid target id format");
            reveal_strlit("unknown target kind");
            reveal_strlit("invalid target id number");
            reveal_strlit("target not found");
            reveal_strlit("failed to encode frame");
            reveal_strlit("no frame available yet");
        }
        match self {
            Error::Platform(_) => "platform failure",
            Error::InvalidTargetId => "invalid target id format",
            Error::UnknownTargetKind => "unknown target kind",
            Error::InvalidTargetNumber => "invalid target id number",
            Error::TargetNotFound => "target not found",
            Error::EncodingFailed => "failed to encode frame",
            Error::NoFrameYet => "no frame available yet",
        }
    }
}

} // verus!
