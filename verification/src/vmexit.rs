//! Why a guest stopped running.

use vstd::prelude::*;
use crate::sbi::HyperCallMsg;

verus! {

/// Privilege level at which the guest ran when it trapped.
#[derive(Clone, Copy, Debug, PartialEq, Eq, Structural)]
pub enum PrivilegeLevel {
    /// The guest's kernel.
    Supervisor,
    /// A program under the guest's kernel.
    User,
}

/// The reason for which a vCPU left the guest, with what the trap reported.
#[derive(Clone, Copy, Debug, PartialEq, Eq, Structural)]
pub enum VmExitInfo {
    /// An environment call. `None` when its registers name no known request.
    Ecall(Option<HyperCallMsg>),
    /// A guest page fault.
    PageFault {
        /// Guest physical address of the access.
        fault_addr: usize,
        /// Guest virtual address of the instruction that made it.
        fault_pc: usize,
        /// The instruction word as the trap reported it, zero if it did not.
        inst: u32,
        /// Privilege level of the access.
        priv_level: PrivilegeLevel,
    },
    /// The host timer fired; the guest may be owed a timer interrupt.
    TimerInterruptEmulation,
    /// An external interrupt is pending for the guest.
    ExternalInterruptEmulation,
    /// Any other cause. Nothing is emulated for it.
    Other,
}

} // verus!
