//! What the exit handler needs to know of a trapping guest instruction: how long
//! it is, and whether it is a 32-bit load or store.

use vstd::prelude::*;

verus! {

/// How a guest instruction accesses memory, as far as device emulation cares.
#[derive(Clone, Copy, Debug, PartialEq, Eq, Structural)]
pub enum MmioAccess {
    /// `sw`: stores the low 32 bits of register number `rs2`.
    Store { rs2: u32 },
    /// `lw`: loads 32 bits into register number `rd`.
    Load { rd: u32 },
    /// An instruction that is neither of the two.
    Other,
    /// No instruction: the decoder rejected the word.
    Undecodable,
}

impl MmioAccess {
    /// The register number, where there is one, names one of the 32 registers.
    pub open spec fn wf(self) -> bool {
        match self {
            MmioAccess::Store { rs2 } => rs2 < 32,
            MmioAccess::Load { rd } => rd < 32,
            _ => true,
        }
    }
}

/// Length in bytes of the instruction whose low 16 bits are `low`, by the
/// length encoding of the base instruction set.
pub open spec fn instruction_length_of(low: u16) -> usize {
    if low & 0b11 != 0b11 {
        2
    } else if low & 0b11100 != 0b11100 {
        4
    } else if low & 0b111111 == 0b011111 {
        6
    } else if low & 0b1111111 == 0b011111 {
        8
    } else {
        (10 + 2 * ((low >> 12) & 0b111)) as usize
    }
}

/// `riscv_decode::instruction_length`, believed as read in its source: the
/// length is 2 unless the two low bits are both set, 4 unless bits 2 to 4 are
/// all set as well, and one of the longer reserved lengths otherwise.
pub assume_specification[ riscv_decode::instruction_length ](i: u16) -> (len: usize)
    ensures
        len == instruction_length_of(i),
;

/// The access that the decoder reports for the instruction word `inst`.
pub uninterp spec fn decoded_access(inst: u32) -> MmioAccess;

/// Calls `riscv_decode::decode` and keeps of its answer what device emulation
/// reads: the variant, and the source register of a `sw` or the destination
/// register of a `lw`. Believed without proof: the answer depends on `inst`
/// alone, and a register number is a five-bit field.
#[verifier::external_body]
pub(crate) fn decode_access(inst: u32) -> (access: MmioAccess)
    ensures
        access == decoded_access(inst),
        access.wf(),
{
    match riscv_decode::decode(inst) {
        Ok(riscv_decode::Instruction::Sw(i)) => MmioAccess::Store { rs2: i.rs2() },
        Ok(riscv_decode::Instruction::Lw(i)) => MmioAccess::Load { rd: i.rd() },
        Ok(_) => MmioAccess::Other,
        Err(_) => MmioAccess::Undecodable,
    }
}

/// Whether device emulation handles an instruction with these low 32 bits:
/// its length is 2 or 4 bytes.
pub open spec fn has_emulable_length(inst: u32) -> bool {
    let len = instruction_length_of(inst as u16);
    len == 2 || len == 4
}

/// The word handed to the decoder for `inst`: a compressed instruction is
/// decoded from its 16 bits alone.
pub open spec fn decoder_input(inst: u32) -> u32 {
    if instruction_length_of(inst as u16) == 2 {
        (inst as u16) as u32
    } else {
        inst
    }
}

/// Length of the trapping instruction and the access it makes.
///
/// The length comes from the low 16 bits of `inst`. A 2-byte instruction is
/// decoded from those 16 bits, a 4-byte one from the whole word.
pub fn classify_instruction(inst: u32) -> (r: (usize, MmioAccess))
    requires
        has_emulable_length(inst),
    ensures
        r.0 == instruction_length_of(inst as u16),
        r.1 == decoded_access(decoder_input(inst)),
        r.1.wf(),
{
    let low: u16 = inst as u16;
    let len: usize = riscv_decode::instruction_length(low);
    let word: u32 = if len == 2 {
        low as u32
    } else {
        inst
    };
    (len, decode_access(word))
}

/// Whether [`classify_instruction`] accepts `inst`.
pub fn check_emulable_length(inst: u32) -> (ok: bool)
    ensures
        ok == has_emulable_length(inst),
{
    let len: usize = riscv_decode::instruction_length(inst as u16);
    len == 2 || len == 4
}

} // verus!
