//! The guest's general purpose registers.

use vstd::prelude::*;

verus! {

/// Number of general purpose registers of a hart.
pub const GPR_COUNT: usize = 32;

/// Index of a general purpose register, by its ABI name.
#[derive(Clone, Copy, Debug, PartialEq, Eq, Structural)]
pub enum GprIndex {
    /// `x0`, hard-wired to zero.
    Zero,
    /// `x1`, return address.
    RA,
    /// `x2`, stack pointer.
    SP,
    /// `x3`, global pointer.
    GP,
    /// `x4`, thread pointer.
    TP,
    /// `x5`.
    T0,
    /// `x6`.
    T1,
    /// `x7`.
    T2,
    /// `x8`.
    S0,
    /// `x9`.
    S1,
    /// `x10`.
    A0,
    /// `x11`.
    A1,
    /// `x12`.
    A2,
    /// `x13`.
    A3,
    /// `x14`.
    A4,
    /// `x15`.
    A5,
    /// `x16`.
    A6,
    /// `x17`.
    A7,
    /// `x18`.
    S2,
    /// `x19`.
    S3,
    /// `x20`.
    S4,
    /// `x21`.
    S5,
    /// `x22`.
    S6,
    /// `x23`.
    S7,
    /// `x24`.
    S8,
    /// `x25`.
    S9,
    /// `x26`.
    S10,
    /// `x27`.
    S11,
    /// `x28`.
    T3,
    /// `x29`.
    T4,
    /// `x30`.
    T5,
    /// `x31`.
    T6,
}

impl GprIndex {
    /// The register's number, `0..=31`.
    pub open spec fn spec_index(self) -> int {
        match self {
            GprIndex::Zero => 0,
            GprIndex::RA => 1,
            GprIndex::SP => 2,
            GprIndex::GP => 3,
            GprIndex::TP => 4,
            GprIndex::T0 => 5,
            GprIndex::T1 => 6,
            GprIndex::T2 => 7,
            GprIndex::S0 => 8,
            GprIndex::S1 => 9,
            GprIndex::A0 => 10,
            GprIndex::A1 => 11,
            GprIndex::A2 => 12,
            GprIndex::A3 => 13,
            GprIndex::A4 => 14,
            GprIndex::A5 => 15,
            GprIndex::A6 => 16,
            GprIndex::A7 => 17,
            GprIndex::S2 => 18,
            GprIndex::S3 => 19,
            GprIndex::S4 => 20,
            GprIndex::S5 => 21,
            GprIndex::S6 => 22,
            GprIndex::S7 => 23,
            GprIndex::S8 => 24,
            GprIndex::S9 => 25,
            GprIndex::S10 => 26,
            GprIndex::S11 => 27,
            GprIndex::T3 => 28,
            GprIndex::T4 => 29,
            GprIndex::T5 => 30,
            GprIndex::T6 => 31,
        }
    }

    /// The register with number `raw`, if there is one.
    pub open spec fn spec_from_raw(raw: u32) -> Option<GprIndex> {
        if raw == 0 {
            Some(GprIndex::Zero)
        } else if raw == 1 {
            Some(GprIndex::RA)
        } else if raw == 2 {
            Some(GprIndex::SP)
        } else if raw == 3 {
            Some(GprIndex::GP)
        } else if raw == 4 {
            Some(GprIndex::TP)
        } else if raw == 5 {
            Some(GprIndex::T0)
        } else if raw == 6 {
            Some(GprIndex::T1)
        } else if raw == 7 {
            Some(GprIndex::T2)
        } else if raw == 8 {
            Some(GprIndex::S0)
        } else if raw == 9 {
            Some(GprIndex::S1)
        } else if raw == 10 {
            Some(GprIndex::A0)
        } else if raw == 11 {
            Some(GprIndex::A1)
        } else if raw == 12 {
            Some(GprIndex::A2)
        } else if raw == 13 {
            Some(GprIndex::A3)
        } else if raw == 14 {
            Some(GprIndex::A4)
        } else if raw == 15 {
            Some(GprIndex::A5)
        } else if raw == 16 {
            Some(GprIndex::A6)
        } else if raw == 17 {
            Some(GprIndex::A7)
        } else if raw == 18 {
            Some(GprIndex::S2)
        } else if raw == 19 {
            Some(GprIndex::S3)
        } else if raw == 20 {
            Some(GprIndex::S4)
        } else if raw == 21 {
            Some(GprIndex::S5)
        } else if raw == 22 {
            Some(GprIndex::S6)
        } else if raw == 23 {
            Some(GprIndex::S7)
        } else if raw == 24 {
            Some(GprIndex::S8)
        } else if raw == 25 {
            Some(GprIndex::S9)
        } else if raw == 26 {
            Some(GprIndex::S10)
        } else if raw == 27 {
            Some(GprIndex::S11)
        } else if raw == 28 {
            Some(GprIndex::T3)
        } else if raw == 29 {
            Some(GprIndex::T4)
        } else if raw == 30 {
            Some(GprIndex::T5)
        } else if raw == 31 {
            Some(GprIndex::T6)
        } else {
            None
        }
    }

    /// The register's number.
    pub fn index(self) -> (i: usize)
        ensures
            i == self.spec_index(),
            i < GPR_COUNT,
    {
        match self {
            GprIndex::Zero => 0,
            GprIndex::RA => 1,
            GprIndex::SP => 2,
            GprIndex::GP => 3,
            GprIndex::TP => 4,
            GprIndex::T0 => 5,
            GprIndex::T1 => 6,
            GprIndex::T2 => 7,
            GprIndex::S0 => 8,
            GprIndex::S1 => 9,
            GprIndex::A0 => 10,
            GprIndex::A1 => 11,
            GprIndex::A2 => 12,
            GprIndex::A3 => 13,
            GprIndex::A4 => 14,
            GprIndex::A5 => 15,
            GprIndex::A6 => 16,
            GprIndex::A7 => 17,
            GprIndex::S2 => 18,
            GprIndex::S3 => 19,
            GprIndex::S4 => 20,
            GprIndex::S5 => 21,
            GprIndex::S6 => 22,
            GprIndex::S7 => 23,
            GprIndex::S8 => 24,
            GprIndex::S9 => 25,
            GprIndex::S10 => 26,
            GprIndex::S11 => 27,
            GprIndex::T3 => 28,
            GprIndex::T4 => 29,
            GprIndex::T5 => 30,
            GprIndex::T6 => 31,
        }
    }

    /// The register with number `raw`; `None` when `raw` is 32 or more.
    pub fn from_raw(raw: u32) -> (r: Option<GprIndex>)
        ensures
            r == Self::spec_from_raw(raw),
            r is Some <==> raw < GPR_COUNT,
            r matches Some(g) ==> g.spec_index() == raw,
    {
        match raw {
            0 => Some(GprIndex::Zero),
            1 => Some(GprIndex::RA),
            2 => Some(GprIndex::SP),
            3 => Some(GprIndex::GP),
            4 => Some(GprIndex::TP),
            5 => Some(GprIndex::T0),
            6 => Some(GprIndex::T1),
            7 => Some(GprIndex::T2),
            8 => Some(GprIndex::S0),
            9 => Some(GprIndex::S1),
            10 => Some(GprIndex::A0),
            11 => Some(GprIndex::A1),
            12 => Some(GprIndex::A2),
            13 => Some(GprIndex::A3),
            14 => Some(GprIndex::A4),
            15 => Some(GprIndex::A5),
            16 => Some(GprIndex::A6),
            17 => Some(GprIndex::A7),
            18 => Some(GprIndex::S2),
            19 => Some(GprIndex::S3),
            20 => Some(GprIndex::S4),
            21 => Some(GprIndex::S5),
            22 => Some(GprIndex::S6),
            23 => Some(GprIndex::S7),
            24 => Some(GprIndex::S8),
            25 => Some(GprIndex::S9),
            26 => Some(GprIndex::S10),
            27 => Some(GprIndex::S11),
            28 => Some(GprIndex::T3),
            29 => Some(GprIndex::T4),
            30 => Some(GprIndex::T5),
            31 => Some(GprIndex::T6),
            _ => None,
        }
    }
}

/// What a write of `val` to register `idx` makes of the register file `regs`:
/// `x0` stays as it is, every other register takes the value.
pub open spec fn gpr_write(regs: Seq<usize>, idx: GprIndex, val: usize) -> Seq<usize> {
    if idx is Zero {
        regs
    } else {
        regs.update(idx.spec_index(), val)
    }
}

/// A snapshot of the 32 general purpose registers of a guest hart.
#[derive(Clone, Copy, Debug)]
pub struct GeneralPurposeRegisters {
    regs: [usize; 32],
}

impl View for GeneralPurposeRegisters {
    type V = Seq<usize>;

    closed spec fn view(&self) -> Seq<usize> {
        self.regs@
    }
}

impl GeneralPurposeRegisters {
    /// A register file holding zero in every register.
    pub fn new() -> (r: Self)
        ensures
            r@ == Seq::new(GPR_COUNT as nat, |i: int| 0usize),
    {
        let r = GeneralPurposeRegisters { regs: [0usize; 32] };
        assert(r@ =~= Seq::new(GPR_COUNT as nat, |i: int| 0usize));
        r
    }

    /// Every snapshot holds exactly [`GPR_COUNT`] registers.
    pub proof fn lemma_len(self)
        ensures
            self@.len() == GPR_COUNT,
    {
    }

    /// The value of register `idx`.
    pub fn reg(&self, idx: GprIndex) -> (val: usize)
        ensures
            val == self@[idx.spec_index()],
    {
        self.regs[idx.index()]
    }

    /// Writes `val` to register `idx`. A write to `x0` is dropped.
    pub fn set_reg(&mut self, idx: GprIndex, val: usize)
        ensures
            final(self)@ == gpr_write(old(self)@, idx, val),
    {
        match idx {
            GprIndex::Zero => {},
            _ => {
                let i: usize = idx.index();
                self.regs[i] = val;
            },
        }
    }
}

} // verus!
