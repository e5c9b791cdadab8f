//! What the service replies: the two entities and the reply that carries
//! exactly one of them, or the usage text.

use crate::engine::MAX_INDEX;
use vstd::prelude::*;

verus! {

/// The status of a reply that carries what was asked for.
pub const STATUS_OK: u16 = 200;

/// The status of a reply to a request that the service refuses.
pub const STATUS_BAD_REQUEST: u16 = 400;

/// The body of the reply to a request for the root path.
pub const USAGE: &'static str = "Fibonacci Web Service - use /fibonacci/{number}";

/// The message of the reply to a request for an index beyond the maximum.
pub const TOO_LARGE: &'static str = "Number too large. Maximum is 90.";

/// Whether `text` holds `phrase` as one unbroken run of characters.
pub open spec fn contains_text(text: Seq<char>, phrase: Seq<char>) -> bool {
    exists|at: int|
        0 <= at && at + phrase.len() <= text.len() && #[trigger] text.subrange(
            at,
            at + phrase.len(),
        ) == phrase
}

/// The message for an index beyond the maximum names the maximum.
pub proof fn lemma_too_large_names_maximum()
    ensures
        contains_text(TOO_LARGE@, "Maximum is 90"@),
{
    reveal_strlit("Number too large. Maximum is 90.");
    reveal_strlit("Maximum is 90");
    let at: int = 18;
    assert(TOO_LARGE@.subrange(at, at + "Maximum is 90"@.len()) == "Maximum is 90"@);
}

/// The decimal digits of `n`, the most significant first.
pub open spec fn decimal(n: nat) -> Seq<char>
    decreases n,
{
    if n < 10 {
        seq![('0' as nat + n) as char]
    } else {
        decimal(n / 10).push(('0' as nat + n % 10) as char)
    }
}

/// The message for an index beyond the maximum reports the maximum index
/// itself: it is a fixed sentence around the digits of [`MAX_INDEX`].
pub proof fn lemma_too_large_reports_max_index()
    ensures
        TOO_LARGE@ == "Number too large. Maximum is "@ + decimal(MAX_INDEX as nat) + "."@,
{
    reveal_strlit("Number too large. Maximum is 90.");
    reveal_strlit("Number too large. Maximum is ");
    reveal_strlit(".");
    reveal_with_fuel(decimal, 2);
    assert(decimal(90) == seq!['9', '0']);
}

/// The result entity: the index that was asked for, the term at that index,
/// and the time that computing it took, in nanoseconds.
#[derive(Debug, Clone, Copy, PartialEq, Eq)]
pub struct FibonacciResponse {
    pub number: u64,
    pub result: u64,
    pub calculation_time_ns: u128,
}

/// The error entity: a message for the client.
#[derive(Debug, PartialEq, Eq)]
pub struct ErrorResponse {
    pub error: String,
}

/// A reply of the service. It carries the usage text, a result entity or an
/// error entity, and never two of them.
#[derive(Debug, PartialEq, Eq)]
pub enum Reply {
    /// The usage text, as plain text.
    Usage(&'static str),
    /// The term that was asked for.
    Computed(FibonacciResponse),
    /// The reason why no term was computed.
    Rejected(ErrorResponse),
}

impl Reply {
    /// The status that goes with the reply: a rejection is the client's
    /// fault, everything else is a success.
    pub open spec fn spec_status(&self) -> u16 {
        match self {
            Reply::Rejected(_) => STATUS_BAD_REQUEST,
            _ => STATUS_OK,
        }
    }

    /// The status that goes with the reply.
    pub fn status(&self) -> (code: u16)
        ensures
            code == self.spec_status(),
    {
        match self {
            Reply::Rejected(_) => STATUS_BAD_REQUEST,
            _ => STATUS_OK,
        }
    }
}

} // verus!
