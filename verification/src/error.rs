//! Errors raised while a guest exit is emulated.

use vstd::prelude::*;

verus! {

/// Why the hypervisor could not emulate what a guest asked for.
#[derive(Clone, Copy, Debug, PartialEq, Eq, Structural)]
pub enum HyperError {
    /// The faulting guest physical address lies outside every emulated device.
    PageFault,
    /// The trapping instruction word could not be decoded.
    DecodeError,
    /// The trapping instruction decoded into something the device emulation does not accept.
    InvalidInstruction,
    /// The guest asked for an SBI extension that is not implemented.
    NotSupported,
}

/// Result of an operation that may fail with a [`HyperError`].
pub type HyperResult<T> = Result<T, HyperError>;

} // verus!
