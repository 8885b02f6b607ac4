//! Instruction-execution core of an SM83 (Game Boy family) emulator: a
//! register file with paired 16-bit views, a byte-addressable region-mapped
//! memory bus, an opcode decoder, an execution engine, and a fetch-execute
//! step, each with a verified contract.

use vstd::prelude::*;

pub mod regs;
pub mod bus;
pub mod decode;
pub mod cpu;

verus! {

/// Every failure the core can report.
///
/// - `RomTooLarge`: a ROM image longer than the addressable ROM space was
///   offered at load time; the load is rejected before any state changes.
/// - `InvalidRegisterCode`: a 3-bit operand code that selects no register
///   (`0b110`, or a value above 7) reached the register file.
/// - `UnimplementedOpcode`: the decoder found no operation for an opcode
///   byte; it carries the raw byte and the program counter where it stood.
/// - `AddressDecodeGap`: reserved for a bus-decoding bug; address decoding
///   is total, so no operation of this crate produces it.
#[derive(Clone, Copy, Debug, PartialEq, Eq, Structural)]
pub enum CpuError {
    RomTooLarge,
    InvalidRegisterCode,
    UnimplementedOpcode { opcode: u8, pc: u16 },
    AddressDecodeGap,
}

} // verus!
