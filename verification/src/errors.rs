//! The closed set of failure kinds shared by every operation of this layer.

use vstd::prelude::*;

verus! {

/// Errors associated with handling interrupts.
///
/// Every fallible operation of this layer reports its failure through one of
/// these four kinds; no other failure categories exist at this level.
/// Capability absence is always signalled with [`Error::OperationNotSupported`]
/// (or a `None`-valued optional return), never with a backend-specific error,
/// so that callers can probe capabilities uniformly across concrete types.
#[derive(Clone, Copy, Debug, PartialEq, Eq, Structural)]
pub enum Error {
    /// Operation not supported for this interrupt.
    OperationNotSupported,
    /// The specified configuration is not valid.
    InvalidConfiguration,
    /// The interrupt state could not be changed.
    InterruptNotChanged,
    /// The interrupt could not be triggered.
    InterruptNotTriggered,
}

impl Error {
    /// A human-readable description of the failure kind.
    pub fn message(&self) -> (r: &'static str)
        ensures
            r@ == (match *self {
                Error::OperationNotSupported => "Interrupt error: operation not supported"@,
                Error::InvalidConfiguration => "Interrupt error: invalid configuration"@,
                Error::InterruptNotChanged => "Interrupt error: the interrupt state could not be changed"@,
                Error::InterruptNotTriggered => "Interrupt error: the interrupt could not be triggered"@,
            }),
    {
        match *self {
            Error::OperationNotSupported => "Interrupt error: operation not supported",
            Error::InvalidConfiguration => "Interrupt error: invalid configuration",
            Error::InterruptNotChanged => "Interrupt error: the interrupt state could not be changed",
            Error::InterruptNotTriggered => "Interrupt error: the interrupt could not be triggered",
        }
    }
}

} // verus!
