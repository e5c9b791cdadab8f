//! A Fibonacci lookup service, without the transport.
//!
//! The crate holds what the service decides and computes, and leaves the
//! listener, the routing and the wire format to the program around it:
//!
//! * [`sequence`] defines the Fibonacci sequence mathematically and proves the
//!   facts about it that the rest of the crate relies on;
//! * [`engine`] computes a term of the sequence in a fixed-width integer;
//! * [`response`] holds the entities that the service replies with;
//! * [`handler`] says what is replied to each request;
//! * [`clock`] declares the part of the standard library's clock that the
//!   handler reads, without proof.
//!
//! Every executable function is verified against its contract with
//! [Verus](https://github.com/verus-lang/verus).

pub mod clock;
pub mod engine;
pub mod handler;
pub mod response;
pub mod sequence;

pub use engine::{fibonacci, MAX_INDEX};
pub use handler::{fibonacci_handler, hello};
pub use response::{ErrorResponse, FibonacciResponse, Reply};
