//! What the hypervisor's decisions ask of the hart it runs on.

use vstd::prelude::*;

verus! {

/// One operation on the host hart, its firmware or the real interrupt
/// controller. The emulation decides on them; whoever owns the hardware carries
/// them out, in the order given, before the guest runs again.
#[derive(Clone, Copy, Debug, PartialEq, Eq, Structural)]
pub enum HostOp {
    /// Set `sie.STIE`: let the host timer interrupt the hart.
    EnableStie,
    /// Clear `sie.STIE`.
    DisableStie,
    /// Set `hvip.VSTIP`: a timer interrupt is pending for the guest.
    SetVstip,
    /// Clear `hvip.VSTIP`.
    ClearVstip,
    /// Set `hvip.VSEIP`: an external interrupt is pending for the guest.
    SetVseip,
    /// Program the firmware timer with this absolute deadline.
    SetTimer(u64),
    /// Write this character to the firmware's console.
    PutChar(u8),
    /// Ask the firmware to shut the system down, giving system failure as the
    /// reason.
    SystemReset,
    /// Store `irq` to the claim/complete register at `addr` of the real
    /// interrupt controller.
    CompleteInterrupt { addr: usize, irq: u32 },
}

} // verus!
