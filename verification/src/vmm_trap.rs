//! Why a virtual machine hands control back to the scheduler.

use vstd::prelude::*;

verus! {

/// Identifies the reason for a trap taken from a vCPU that the virtual machine
/// does not settle on its own.
#[derive(Debug, Clone, Copy, PartialEq, Eq, Structural)]
pub enum VmmTrap {
    /// The guest programmed its timer with this absolute deadline.
    SetTimer(u64),
    /// A timer interrupt arrived while the guest ran. It cannot be delegated to
    /// the guest and has to be injected before the guest runs again.
    TimerInterruptEmulation,
}

} // verus!
