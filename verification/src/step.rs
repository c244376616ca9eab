//! Work that alternates with the interpreter.
use vstd::prelude::*;

verus! {

/// What is next: a request and what is to be done with its reply, or nothing.
#[verifier::ext_equal]
pub enum Step<Q, P, O> {
    /// Perform the request, and hand its reply to what is pending.
    Ask(Q, P),
    /// The outcome.
    Done(O),
}

} // verus!
