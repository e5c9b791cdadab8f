//! The request handler: what the service replies to each of its two requests.

use crate::engine::{fibonacci, MAX_INDEX};
use crate::response::{
    contains_text, lemma_too_large_names_maximum, ErrorResponse, FibonacciResponse, Reply,
    STATUS_BAD_REQUEST, STATUS_OK, TOO_LARGE, USAGE,
};
use crate::sequence::fib;
use std::time::Instant;
use vstd::prelude::*;

verus! {

/// What is owed to a request for the term at index `n`: beyond the maximum
/// index a rejection with the fixed message, and up to it the result entity
/// for `n`, whatever the time taken.
pub open spec fn replies_to(n: u64, reply: Reply) -> bool {
    if n > MAX_INDEX {
        reply matches Reply::Rejected(refusal) && refusal.error@ == TOO_LARGE@
    } else {
        reply matches Reply::Computed(answer) && answer.number == n && answer.result == fib(
            n as nat,
        )
    }
}

/// Answers a request for the root path with the usage text.
pub fn hello() -> (reply: Reply)
    ensures
        reply matches Reply::Usage(text) && text@ == USAGE@ && text@.len() > 0,
        reply.spec_status() == STATUS_OK,
{
    proof {
        reveal_strlit("Fibonacci Web Service - use /fibonacci/{number}");
    }
    Reply::Usage(USAGE)
}

/// Answers a request for the term at index `n`.
///
/// An index beyond [`MAX_INDEX`] is refused. Otherwise the term is computed,
/// and the time between a clock reading just before the computation and one
/// just after it is reported with the term.
pub fn fibonacci_handler(n: u64) -> (reply: Reply)
    ensures
        replies_to(n, reply),
        reply.spec_status() == if n > MAX_INDEX {
            STATUS_BAD_REQUEST
        } else {
            STATUS_OK
        },
        n > MAX_INDEX ==> (reply matches Reply::Rejected(refusal) && contains_text(
            refusal.error@,
            "Maximum is 90"@,
        )),
{
    if n > MAX_INDEX {
        proof {
            lemma_too_large_names_maximum();
        }
        return Reply::Rejected(ErrorResponse { error: TOO_LARGE.to_string() });
    }
    let start_time: Instant = Instant::now();
    let result: u64 = fibonacci(n);
    let calculation_time: u128 = Instant::now().saturating_duration_since(start_time).as_nanos();

    Reply::Computed(FibonacciResponse { number: n, result, calculation_time_ns: calculation_time })
}

/// Asking twice gives the same answer: two replies owed to one index have
/// the same status, and either name the same index with the same term or
/// carry the same message. Only the times may differ.
pub proof fn lemma_same_request_same_answer(n: u64, first: Reply, second: Reply)
    requires
        replies_to(n, first),
        replies_to(n, second),
    ensures
        first.spec_status() == second.spec_status(),
        first matches Reply::Computed(a) ==> (second matches Reply::Computed(b) && a.number
            == b.number && a.result == b.result),
        first matches Reply::Rejected(a) ==> (second matches Reply::Rejected(b) && a.error@
            == b.error@),
{
}

} // verus!
