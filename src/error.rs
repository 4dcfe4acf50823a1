//! Errors that end a run of the monitor or stop it from starting.
use vstd::prelude::*;

verus! {

#[derive(Clone, Copy, Debug, PartialEq, Eq, Structural)]
pub enum Error {
    /// A denylist pattern does not compile.
    InvalidPattern,
    /// The process-creation subscription could not be kept up.
    ListenerConnection,
}

} // verus!
