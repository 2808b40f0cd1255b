//! The firmware interface as guests call it: the typed requests that the trap
//! decoder hands over, and the status words that go back in `a0`.

use vstd::prelude::*;
use crate::error::{HyperError, HyperResult};

verus! {

/// Status in `a0` of a call that succeeded.
pub const SBI_SUCCESS: usize = 0;

/// Status in `a0` of a call to an extension that is not implemented: -2 as a
/// register value.
pub const SBI_ERR_NOT_SUPPORTED: usize = usize::MAX - 1;

/// What `console getchar` returns when no character is waiting: -1 as a
/// register value.
pub const SBI_NO_CHAR: usize = usize::MAX;

/// A function of the base extension.
#[derive(Clone, Copy, Debug, PartialEq, Eq, Structural)]
pub enum BaseFunction {
    /// Version of the interface specification that the firmware implements.
    GetSpecificationVersion,
    /// Identifier of the firmware implementation.
    GetImplementationID,
    /// Version of the firmware implementation.
    GetImplementationVersion,
    /// Whether the extension with the given identifier is there.
    ProbeSbiExtension(u64),
    /// The machine's vendor identifier.
    GetMachineVendorID,
    /// The machine's architecture identifier.
    GetMachineArchitectureID,
    /// The machine's implementation identifier.
    GetMachineImplementationID,
}

/// A function of the remote fence extension.
#[derive(Clone, Copy, Debug, PartialEq, Eq, Structural)]
pub enum RemoteFenceFunction {
    /// Instruction fence on the harts selected by the mask.
    FenceI { hart_mask: u64, hart_mask_base: u64 },
    /// Address translation fence on the harts selected by the mask, for the
    /// virtual addresses from `start_addr` on.
    RemoteSFenceVMA { hart_mask: u64, hart_mask_base: u64, start_addr: u64, size: u64 },
}

/// A function of the performance monitoring extension.
#[derive(Clone, Copy, Debug, PartialEq, Eq, Structural)]
pub enum PmuFunction {
    /// Number of counters, hardware and firmware together.
    GetNumCounters,
    /// Description of the counter with the given index.
    GetCounterInfo(u64),
    /// Stop the counters selected by base index and mask.
    StopCounter { counter_index: u64, counter_mask: u64, stop_flags: u64 },
}

/// A guest's call into the firmware interface, decoded from its registers.
#[derive(Clone, Copy, Debug, PartialEq, Eq, Structural)]
pub enum HyperCallMsg {
    /// A base extension function.
    Base(BaseFunction),
    /// Read one character from the console.
    GetChar,
    /// Write one character to the console.
    PutChar(u8),
    /// Program the guest's timer with an absolute deadline.
    SetTimer(u64),
    /// Reset the system; the guest's reason is carried along.
    Reset(u64),
    /// A remote fence function.
    RemoteFence(RemoteFenceFunction),
    /// A performance monitoring function.
    PMU(PmuFunction),
    /// An inter-processor interrupt. No emulation is implemented for it.
    Ipi,
}

impl HyperCallMsg {
    /// Whether the hypervisor emulates the call. It emulates every call but the
    /// inter-processor interrupt.
    pub open spec fn is_supported(self) -> bool {
        !(self is Ipi)
    }

    /// Tells whether the hypervisor emulates the call:
    /// [`HyperError::NotSupported`] if it does not.
    pub fn check_supported(&self) -> (r: HyperResult<()>)
        ensures
            self.is_supported() ==> r is Ok,
            !self.is_supported() ==> r == Err::<(), HyperError>(HyperError::NotSupported),
    {
        match self {
            HyperCallMsg::Ipi => Err(HyperError::NotSupported),
            _ => Ok(()),
        }
    }
}

/// The pair of registers in which the firmware answers a call.
#[derive(Clone, Copy, Debug, PartialEq, Eq, Structural)]
pub struct SbiReturn {
    /// Status, for `a0`.
    pub error: usize,
    /// Value, for `a1`.
    pub value: usize,
}

/// The specification version as one word: the major number above bit 24, the
/// minor number below.
pub open spec fn spec_version_word(major: usize, minor: usize) -> usize {
    (major << 24) | minor
}

/// Packs an interface version as guests read it from the base extension.
pub fn version_word(major: usize, minor: usize) -> (word: usize)
    ensures
        word == spec_version_word(major, minor),
{
    (major << 24) | minor
}

/// A version whose major number has 7 bits and whose minor number has 24 packs
/// into 31 bits: the numbers do not overlap, and bit 31 stays clear.
pub proof fn lemma_version_word_bounds(major: usize, minor: usize)
    requires
        major <= 0x7f,
        minor <= 0xff_ffff,
    ensures
        spec_version_word(major, minor) == major * 0x100_0000 + minor,
        spec_version_word(major, minor) <= 0x7fff_ffff,
{
    assert(((major << 24) | minor) == major * 0x100_0000 + minor && ((major << 24) | minor)
        <= 0x7fff_ffff) by (bit_vector)
        requires
            major <= 0x7f,
            minor <= 0xff_ffff,
    ;
}

} // verus!
