//! The SM83 register file: eight independent 8-bit slots (A, F, B, C, D, E,
//! H, L), flag bits packed into the high nibble of F, and the derived 16-bit
//! pair views AF, BC, DE and HL. The pairs are pure views over the 8-bit
//! slots — no 16-bit value is stored, so a pair can never drift out of sync
//! with its halves. Bits 0–3 of F are grounded: every write to F, direct or
//! through AF, masks them to zero.

use vstd::prelude::*;

use crate::CpuError;

verus! {

/// Index of register A in the register file.
pub const REG_A: usize = 0;

/// Index of the flag register F.
pub const REG_F: usize = 1;

/// Index of register B.
pub const REG_B: usize = 2;

/// Index of register C.
pub const REG_C: usize = 3;

/// Index of register D.
pub const REG_D: usize = 4;

/// Index of register E.
pub const REG_E: usize = 5;

/// Index of register H.
pub const REG_H: usize = 6;

/// Index of register L.
pub const REG_L: usize = 7;

/// The eight 8-bit slots of the register file.
#[derive(Clone, Copy, Debug, PartialEq, Eq, Structural)]
#[verifier::ext_equal]
pub struct GeneralRegisters {
    pub a: u8,
    pub f: u8,
    pub b: u8,
    pub c: u8,
    pub d: u8,
    pub e: u8,
    pub h: u8,
    pub l: u8,
}

/// The CPU's independent 16-bit registers: the program counter and the stack
/// pointer. Unlike the pair views of `GeneralRegisters`, these own their
/// sixteen bits.
#[derive(Clone, Copy, Debug, PartialEq, Eq, Structural)]
#[verifier::ext_equal]
pub struct SixteenBitRegister {
    pub pc: u16,
    pub sp: u16,
}

/// Selector for the four 16-bit pair views.
#[derive(Clone, Copy, Debug, PartialEq, Eq, Structural)]
pub enum RegPair {
    AF,
    BC,
    DE,
    HL,
}

/// Selector for the four flag bits in the high nibble of F.
#[derive(Clone, Copy, Debug, PartialEq, Eq, Structural)]
pub enum Flag {
    Zero,
    Negative,
    HalfCarry,
    Carry,
}

impl Flag {
    /// The single-bit mask of this flag within F: Z is bit 7, N bit 6,
    /// H bit 5, C bit 4.
    pub open spec fn spec_mask(self) -> u8 {
        match self {
            Flag::Zero => 0x80,
            Flag::Negative => 0x40,
            Flag::HalfCarry => 0x20,
            Flag::Carry => 0x10,
        }
    }

    /// Returns the flag's bit mask.
    pub fn mask(self) -> (m: u8)
        ensures
            m == self.spec_mask(),
    {
        match self {
            Flag::Zero => 0x80,
            Flag::Negative => 0x40,
            Flag::HalfCarry => 0x20,
            Flag::Carry => 0x10,
        }
    }
}

impl GeneralRegisters {
    /// Well-formedness: the unused bits 0–3 of F are zero.
    pub open spec fn wf(self) -> bool {
        self.f & 0x0F == 0
    }

    /// The slot at `idx` in the canonical layout A, F, B, C, D, E, H, L.
    pub open spec fn spec_get8(self, idx: usize) -> u8 {
        if idx == REG_A {
            self.a
        } else if idx == REG_F {
            self.f
        } else if idx == REG_B {
            self.b
        } else if idx == REG_C {
            self.c
        } else if idx == REG_D {
            self.d
        } else if idx == REG_E {
            self.e
        } else if idx == REG_H {
            self.h
        } else {
            self.l
        }
    }

    /// The register file after writing `v` to the slot at `idx`; a write to
    /// F grounds its bits 0–3.
    pub open spec fn spec_set8(self, idx: usize, v: u8) -> GeneralRegisters {
        if idx == REG_A {
            GeneralRegisters { a: v, ..self }
        } else if idx == REG_F {
            GeneralRegisters { f: v & 0xF0, ..self }
        } else if idx == REG_B {
            GeneralRegisters { b: v, ..self }
        } else if idx == REG_C {
            GeneralRegisters { c: v, ..self }
        } else if idx == REG_D {
            GeneralRegisters { d: v, ..self }
        } else if idx == REG_E {
            GeneralRegisters { e: v, ..self }
        } else if idx == REG_H {
            GeneralRegisters { h: v, ..self }
        } else {
            GeneralRegisters { l: v, ..self }
        }
    }

    /// The 16-bit value of a pair view: high register in bits 8–15, low
    /// register in bits 0–7.
    pub open spec fn spec_pair(self, pair: RegPair) -> u16 {
        match pair {
            RegPair::AF => ((self.a as u16) << 8) | (self.f as u16),
            RegPair::BC => ((self.b as u16) << 8) | (self.c as u16),
            RegPair::DE => ((self.d as u16) << 8) | (self.e as u16),
            RegPair::HL => ((self.h as u16) << 8) | (self.l as u16),
        }
    }

    /// The register file after writing `v` to a pair view: the high byte
    /// goes to the high register, the low byte to the low register, and a
    /// write to AF grounds bits 0–3 of F.
    pub open spec fn spec_set16(self, pair: RegPair, v: u16) -> GeneralRegisters {
        match pair {
            RegPair::AF => GeneralRegisters { a: (v >> 8) as u8, f: (v as u8) & 0xF0, ..self },
            RegPair::BC => GeneralRegisters { b: (v >> 8) as u8, c: v as u8, ..self },
            RegPair::DE => GeneralRegisters { d: (v >> 8) as u8, e: v as u8, ..self },
            RegPair::HL => GeneralRegisters { h: (v >> 8) as u8, l: v as u8, ..self },
        }
    }

    /// Whether `flag` is set in F.
    pub open spec fn spec_get_flag(self, flag: Flag) -> bool {
        self.f & flag.spec_mask() != 0
    }

    /// A zero-initialized register file.
    pub fn new() -> (r: GeneralRegisters)
        ensures
            r == (GeneralRegisters { a: 0, f: 0, b: 0, c: 0, d: 0, e: 0, h: 0, l: 0 }),
            r.wf(),
    {
        proof {
            assert(0u8 & 0x0F == 0) by (bit_vector);
        }
        GeneralRegisters { a: 0, f: 0, b: 0, c: 0, d: 0, e: 0, h: 0, l: 0 }
    }

    /// Reads the slot at `idx`; an index outside the eight slots is a
    /// contract violation reported as `InvalidRegisterCode`.
    pub fn get8(&self, idx: usize) -> (r: Result<u8, CpuError>)
        ensures
            idx <= REG_L ==> r == Ok::<u8, CpuError>(self.spec_get8(idx)),
            idx > REG_L ==> r == Err::<u8, CpuError>(CpuError::InvalidRegisterCode),
    {
        match idx {
            0 => Ok(self.a),
            1 => Ok(self.f),
            2 => Ok(self.b),
            3 => Ok(self.c),
            4 => Ok(self.d),
            5 => Ok(self.e),
            6 => Ok(self.h),
            7 => Ok(self.l),
            _ => Err(CpuError::InvalidRegisterCode),
        }
    }

    /// Writes `v` to the slot at `idx`. A write to F stores `v & 0xF0`,
    /// keeping bits 0–3 grounded. An index outside the eight slots changes
    /// nothing and is reported as `InvalidRegisterCode`.
    pub fn set8(&mut self, idx: usize, v: u8) -> (r: Result<(), CpuError>)
        requires
            old(self).wf(),
        ensures
            final(self).wf(),
            idx <= REG_L ==> r == Ok::<(), CpuError>(()) && *final(self) == old(self).spec_set8(
                idx,
                v,
            ),
            idx > REG_L ==> r == Err::<(), CpuError>(CpuError::InvalidRegisterCode) && *final(self)
                == *old(self),
    {
        proof {
            assert(forall|x: u8| #[trigger] (x & 0xF0) & 0x0F == 0) by (bit_vector);
        }
        match idx {
            0 => {
                self.a = v;
                Ok(())
            },
            1 => {
                self.f = v & 0xF0;
                Ok(())
            },
            2 => {
                self.b = v;
                Ok(())
            },
            3 => {
                self.c = v;
                Ok(())
            },
            4 => {
                self.d = v;
                Ok(())
            },
            5 => {
                self.e = v;
                Ok(())
            },
            6 => {
                self.h = v;
                Ok(())
            },
            7 => {
                self.l = v;
                Ok(())
            },
            _ => Err(CpuError::InvalidRegisterCode),
        }
    }

    /// Reads a 16-bit pair view.
    pub fn get16(&self, pair: RegPair) -> (r: u16)
        ensures
            r == self.spec_pair(pair),
    {
        match pair {
            RegPair::AF => ((self.a as u16) << 8) | (self.f as u16),
            RegPair::BC => ((self.b as u16) << 8) | (self.c as u16),
            RegPair::DE => ((self.d as u16) << 8) | (self.e as u16),
            RegPair::HL => ((self.h as u16) << 8) | (self.l as u16),
        }
    }

    /// Writes a 16-bit value through a pair view; a write to AF grounds
    /// bits 0–3 of F.
    pub fn set16(&mut self, pair: RegPair, v: u16)
        requires
            old(self).wf(),
        ensures
            final(self).wf(),
            *final(self) == old(self).spec_set16(pair, v),
    {
        proof {
            assert(forall|x: u16| #[trigger] ((x as u8) & 0xF0) & 0x0F == 0) by (bit_vector);
        }
        match pair {
            RegPair::AF => {
                self.a = (v >> 8) as u8;
                self.f = (v as u8) & 0xF0;
            },
            RegPair::BC => {
                self.b = (v >> 8) as u8;
                self.c = v as u8;
            },
            RegPair::DE => {
                self.d = (v >> 8) as u8;
                self.e = v as u8;
            },
            RegPair::HL => {
                self.h = (v >> 8) as u8;
                self.l = v as u8;
            },
        }
    }

    /// Whether `flag` is set in F.
    pub fn get_flag(&self, flag: Flag) -> (r: bool)
        ensures
            r == self.spec_get_flag(flag),
    {
        (self.f & flag.mask()) != 0
    }

    /// Sets or clears one flag bit. Only that bit of F changes: the other
    /// three flags and the grounded low nibble keep their values, and the
    /// seven other registers are untouched.
    pub fn set_flag(&mut self, flag: Flag, on: bool)
        requires
            old(self).wf(),
        ensures
            final(self).wf(),
            final(self).f == if on {
                old(self).f | flag.spec_mask()
            } else {
                old(self).f & !flag.spec_mask()
            },
            final(self).spec_get_flag(flag) == on,
            forall|other: Flag| other != flag ==> final(self).spec_get_flag(other) == old(
                self,
            ).spec_get_flag(other),
            final(self).a == old(self).a,
            final(self).b == old(self).b,
            final(self).c == old(self).c,
            final(self).d == old(self).d,
            final(self).e == old(self).e,
            final(self).h == old(self).h,
            final(self).l == old(self).l,
    {
        let m = flag.mask();
        proof {
            let f0 = self.f;
            assert((f0 & 0x0F == 0 && (m == 0x80 || m == 0x40 || m == 0x20 || m == 0x10)) ==> (((f0
                | m) & 0x0F == 0) && ((f0 & !m) & 0x0F == 0) && ((f0 | m) & m != 0) && ((f0 & !m)
                & m == 0))) by (bit_vector);
            assert forall|other: Flag| other != flag implies ((f0 | m) & other.spec_mask() == f0
                & other.spec_mask()) && ((f0 & !m) & other.spec_mask() == f0
                & other.spec_mask()) by {
                let m2 = other.spec_mask();
                assert(m != m2);
                assert(((m == 0x80 || m == 0x40 || m == 0x20 || m == 0x10) && (m2 == 0x80 || m2
                    == 0x40 || m2 == 0x20 || m2 == 0x10) && m != m2) ==> (((f0 | m) & m2 == f0
                    & m2) && ((f0 & !m) & m2 == f0 & m2))) by (bit_vector);
            }
        }
        if on {
            self.f = self.f | m;
        } else {
            self.f = self.f & !m;
        }
    }
}

/// Law: every 8-bit value written to F is stored with bits 0–3 grounded —
/// reading F back after any write yields a byte whose low nibble is zero.
pub proof fn lemma_f_write_grounds_low_nibble(regs: GeneralRegisters, f: u8)
    ensures
        regs.spec_set8(REG_F, f).spec_get8(REG_F) & 0x0F == 0,
{
    assert((f & 0xF0) & 0x0F == 0) by (bit_vector);
}

/// Law: after `set16(AF, v)` the AF view has a zero low nibble and agrees
/// with `v` on bits 4–15, for every 16-bit `v`.
pub proof fn lemma_af_write_masks(regs: GeneralRegisters, v: u16)
    ensures
        regs.spec_set16(RegPair::AF, v).spec_pair(RegPair::AF) & 0x000F == 0,
        regs.spec_set16(RegPair::AF, v).spec_pair(RegPair::AF) & 0xFFF0 == v & 0xFFF0,
{
    let g = regs.spec_set16(RegPair::AF, v).spec_pair(RegPair::AF);
    assert(g == ((((v >> 8) as u8) as u16) << 8) | (((v as u8) & 0xF0) as u16));
    assert((g == ((((v >> 8) as u8) as u16) << 8) | (((v as u8) & 0xF0) as u16)) ==> (g & 0x000F
        == 0 && g & 0xFFF0 == v & 0xFFF0)) by (bit_vector);
}

/// Law: writing `h` to H and `l` to L, in either order of the two slots,
/// makes the HL view read exactly `(h << 8) | l`.
pub proof fn lemma_hl_round_trip(regs: GeneralRegisters, h: u8, l: u8)
    ensures
        regs.spec_set8(REG_H, h).spec_set8(REG_L, l).spec_pair(RegPair::HL) == ((h as u16) << 8) | (
        l as u16),
{
}

} // verus!
