//! The instruction decoder: turns an opcode byte into a structured operation
//! descriptor — operation kind, destination and source operands, instruction
//! length and base cycle cost. Decoding is a pure function of the opcode
//! byte and the program counter it was fetched from; it never touches CPU
//! state. An opcode with no defined mapping yields an `Unimplemented`
//! descriptor carrying the raw byte and the PC, rather than a failure.

use vstd::prelude::*;

verus! {

/// An instruction operand: either a register named by its 3-bit code, or
/// the byte in memory addressed by the HL pair (operand code 0b110).
#[derive(Clone, Copy, Debug, PartialEq, Eq, Structural)]
pub enum Operand {
    Reg { code: u8 },
    MemHl,
}

/// The operation of a decoded instruction.
#[derive(Clone, Copy, Debug, PartialEq, Eq, Structural)]
pub enum OpKind {
    /// A load of `src` into `dest`.
    Ld { dest: Operand, src: Operand },
    /// No operation is defined for the opcode byte.
    Unimplemented,
}

/// A decoded instruction: the raw opcode byte, the program counter it was
/// fetched from, its operation, its length in bytes, and its base cost in
/// clock cycles.
#[derive(Clone, Copy, Debug, PartialEq, Eq, Structural)]
pub struct OpDescriptor {
    pub opcode: u8,
    pub pc: u16,
    pub kind: OpKind,
    pub length: u16,
    pub cycles: u8,
}

/// Whether `opcode` encodes `LD r, (HL)`: bit pattern 01_rrr_110 with a
/// register destination, which excludes 0x76 (01_110_110, HALT).
pub open spec fn spec_is_ld_r_hl(opcode: u8) -> bool {
    opcode & 0xC7 == 0x46 && opcode != 0x76
}

/// Decodes one opcode byte fetched at `pc`.
///
/// The only operation currently defined is `LD r, (HL)` (one byte, eight
/// clock cycles); its destination operand carries the 3-bit register code
/// taken from bits 3–5 of the opcode. Every other byte decodes to an
/// `Unimplemented` descriptor that keeps the raw opcode and `pc`.
pub fn decode(opcode: u8, pc: u16) -> (d: OpDescriptor)
    ensures
        d.opcode == opcode,
        d.pc == pc,
        spec_is_ld_r_hl(opcode) ==> d == (OpDescriptor {
            opcode,
            pc,
            kind: OpKind::Ld {
                dest: Operand::Reg { code: (opcode >> 3) & 0x07 },
                src: Operand::MemHl,
            },
            length: 1,
            cycles: 8,
        }),
        !spec_is_ld_r_hl(opcode) ==> d == (OpDescriptor {
            opcode,
            pc,
            kind: OpKind::Unimplemented,
            length: 1,
            cycles: 0,
        }),
{
    if (opcode & 0xC7) == 0x46 && opcode != 0x76 {
        OpDescriptor {
            opcode,
            pc,
            kind: OpKind::Ld {
                dest: Operand::Reg { code: (opcode >> 3) & 0x07 },
                src: Operand::MemHl,
            },
            length: 1,
            cycles: 8,
        }
    } else {
        OpDescriptor { opcode, pc, kind: OpKind::Unimplemented, length: 1, cycles: 0 }
    }
}

} // verus!
