//! The CPU core: the register file, the program counter and stack pointer,
//! the memory bus, and the fetch-execute state machine that drives the
//! decoder and the execution engine. One call of `step` fetches, decodes and
//! executes exactly one instruction, atomically: on any failure the machine
//! state is exactly what it was before, apart from the Running → Halted
//! transition that an unimplemented opcode causes.

use vstd::prelude::*;

use crate::CpuError;
use crate::bus::{BusView, MemoryBus, MAX_ROM_SIZE};
use crate::decode::{decode, spec_is_ld_r_hl, OpDescriptor, OpKind, Operand};
use crate::regs::{
    GeneralRegisters, RegPair, SixteenBitRegister, REG_A, REG_B, REG_C, REG_D, REG_E, REG_H, REG_L,
};

verus! {

/// Whether a 3-bit operand code selects a register: 0b110 signals a memory
/// operand via HL and selects none, and values above 7 are not codes.
pub open spec fn spec_valid_reg_code(code: u8) -> bool {
    code <= 7 && code != 6
}

/// The register-file index selected by a valid 3-bit operand code, in the
/// canonical SM83 encoding: 111 is A, 000 B, 001 C, 010 D, 011 E, 100 H,
/// 101 L.
pub open spec fn spec_reg_index(code: u8) -> usize {
    if code == 7 {
        REG_A
    } else if code == 0 {
        REG_B
    } else if code == 1 {
        REG_C
    } else if code == 2 {
        REG_D
    } else if code == 3 {
        REG_E
    } else if code == 4 {
        REG_H
    } else {
        REG_L
    }
}

/// A 16-bit addition that wraps around the address space, as the program
/// counter does.
pub open spec fn spec_wrap16(x: u16, y: u16) -> u16 {
    if x + y > 0xFFFF {
        (x + y - 0x10000) as u16
    } else {
        (x + y) as u16
    }
}

/// The two states of the fetch-execute loop. `Halted` is terminal for this
/// core: a halted CPU performs no work until something outside re-enters
/// `Running`.
#[derive(Clone, Copy, Debug, PartialEq, Eq, Structural)]
pub enum RunState {
    Running,
    Halted,
}

/// The SM83 CPU: register file, program counter and stack pointer, memory
/// bus, and the run state of the fetch-execute loop.
pub struct CpuSm83 {
    pub general_registers: GeneralRegisters,
    pub sixteen_bit_registers: SixteenBitRegister,
    pub bus: MemoryBus,
    pub state: RunState,
}

/// The mathematical model of the whole machine: the register file and
/// 16-bit registers as they are, and the bus through its view.
#[verifier::ext_equal]
pub ghost struct CpuView {
    pub general_registers: GeneralRegisters,
    pub sixteen_bit_registers: SixteenBitRegister,
    pub bus: BusView,
    pub state: RunState,
}

impl View for CpuSm83 {
    type V = CpuView;

    open spec fn view(&self) -> CpuView {
        CpuView {
            general_registers: self.general_registers,
            sixteen_bit_registers: self.sixteen_bit_registers,
            bus: self.bus@,
            state: self.state,
        }
    }
}

/// One transition of the fetch-execute state machine. A halted machine is a
/// fixed point. A running machine fetches the opcode at PC: an implemented
/// opcode — `LD r, (HL)` — writes the byte at the HL address into its
/// destination register and advances PC past the instruction; any other
/// opcode halts the machine and changes nothing else.
pub open spec fn spec_step(v: CpuView) -> CpuView {
    if v.state == RunState::Halted {
        v
    } else {
        let pc = v.sixteen_bit_registers.pc;
        let op = v.bus.spec_read(pc);
        if spec_is_ld_r_hl(op) {
            CpuView {
                general_registers: v.general_registers.spec_set8(
                    spec_reg_index((op >> 3) & 0x07),
                    v.bus.spec_read(v.general_registers.spec_pair(RegPair::HL)),
                ),
                sixteen_bit_registers: SixteenBitRegister {
                    pc: spec_wrap16(pc, 1),
                    sp: v.sixteen_bit_registers.sp,
                },
                ..v
            }
        } else {
            CpuView { state: RunState::Halted, ..v }
        }
    }
}

/// The machine after `n` transitions of `spec_step`.
pub open spec fn spec_steps(v: CpuView, n: nat) -> CpuView
    decreases n,
{
    if n == 0 {
        v
    } else {
        spec_step(spec_steps(v, (n - 1) as nat))
    }
}

impl CpuSm83 {
    /// Well-formedness: the flag register's low nibble is grounded and the
    /// bus's stores and bank selectors are in shape.
    pub open spec fn wf(self) -> bool {
        self.general_registers.wf() && self.bus.wf()
    }

    /// A zero-initialized CPU: every register 0, PC = 0, SP = 0, all RAM,
    /// VRAM and ROM zeroed, state Running.
    pub fn new() -> (r: CpuSm83)
        ensures
            r.wf(),
            r.general_registers == (GeneralRegisters { a: 0, f: 0, b: 0, c: 0, d: 0, e: 0, h: 0, l: 0 }),
            r.sixteen_bit_registers == (SixteenBitRegister { pc: 0, sp: 0 }),
            r.bus@ == BusView::spec_init(),
            r.state == RunState::Running,
    {
        CpuSm83 {
            general_registers: GeneralRegisters::new(),
            sixteen_bit_registers: SixteenBitRegister { pc: 0, sp: 0 },
            bus: MemoryBus::new(),
            state: RunState::Running,
        }
    }

    /// Loads a ROM image into this CPU's ROM region. An image longer than
    /// the ROM capacity is rejected as `RomTooLarge` and the CPU is left
    /// exactly as it was; otherwise the image is copied over the start of
    /// ROM and registers, pointers and the other regions are untouched.
    pub fn load_rom(&mut self, rom: &[u8]) -> (r: Result<(), CpuError>)
        requires
            old(self).wf(),
        ensures
            final(self).wf(),
            rom@.len() <= MAX_ROM_SIZE ==> {
                &&& r == Ok::<(), CpuError>(())
                &&& final(self).bus@ == (BusView {
                    rom: rom@ + old(self).bus@.rom.skip(rom@.len() as int),
                    ..old(self).bus@
                })
                &&& final(self).general_registers == old(self).general_registers
                &&& final(self).sixteen_bit_registers == old(self).sixteen_bit_registers
                &&& final(self).state == old(self).state
            },
            rom@.len() > MAX_ROM_SIZE ==> r == Err::<(), CpuError>(CpuError::RomTooLarge)
                && *final(self) == *old(self),
    {
        self.bus.load_rom(rom)
    }

    /// Maps a 3-bit operand code to its register-file index per the
    /// canonical encoding; 0b110 and values above 7 select no register and
    /// are reported as `InvalidRegisterCode`.
    pub fn idx_regs(&self, encoded_register: u8) -> (r: Result<usize, CpuError>)
        ensures
            spec_valid_reg_code(encoded_register) ==> r == Ok::<usize, CpuError>(
                spec_reg_index(encoded_register),
            ),
            !spec_valid_reg_code(encoded_register) ==> r == Err::<usize, CpuError>(
                CpuError::InvalidRegisterCode,
            ),
    {
        match encoded_register {
            0b111 => Ok(REG_A),
            0b000 => Ok(REG_B),
            0b001 => Ok(REG_C),
            0b010 => Ok(REG_D),
            0b011 => Ok(REG_E),
            0b100 => Ok(REG_H),
            0b101 => Ok(REG_L),
            _ => Err(CpuError::InvalidRegisterCode),
        }
    }

    /// The 16-bit address formed by the HL pair view.
    pub fn read_hl(&self) -> (hl: u16)
        ensures
            hl == self.general_registers.spec_pair(RegPair::HL),
    {
        self.general_registers.get16(RegPair::HL)
    }

    /// Reads one byte through the memory bus. Total over the address space:
    /// unbacked regions read as 0xFF.
    pub fn access_memory(&self, address: u16) -> (r: u8)
        requires
            self.wf(),
        ensures
            r == self.bus@.spec_read(address),
    {
        self.bus.read(address)
    }

    /// Writes one byte through the memory bus; ROM and unbacked regions
    /// discard the write, and the echo region lands in WRAM. Registers and
    /// the run state are untouched.
    pub fn write_memory(&mut self, address: u16, value: u8)
        requires
            old(self).wf(),
        ensures
            final(self).wf(),
            final(self).bus@ == old(self).bus@.spec_write(address, value),
            final(self).general_registers == old(self).general_registers,
            final(self).sixteen_bit_registers == old(self).sixteen_bit_registers,
            final(self).state == old(self).state,
    {
        self.bus.write(address, value);
    }

    /// The register-to-register-or-memory load at the register-file level:
    /// with source code 0b110 it copies the byte at the address in HL into
    /// the register selected by `r`, touching nothing else — in particular
    /// no flag. Any other source code leaves the CPU unchanged, and an `r`
    /// that selects no register is `InvalidRegisterCode`. The program
    /// counter is not advanced here: that is the fetch-execute step's job.
    pub fn ld_rs(&mut self, r: u8, s: u8) -> (res: Result<(), CpuError>)
        requires
            old(self).wf(),
        ensures
            final(self).wf(),
            s == 0b110 && spec_valid_reg_code(r) ==> {
                &&& res == Ok::<(), CpuError>(())
                &&& final(self).general_registers == old(self).general_registers.spec_set8(
                    spec_reg_index(r),
                    old(self).bus@.spec_read(old(self).general_registers.spec_pair(RegPair::HL)),
                )
                &&& final(self).sixteen_bit_registers == old(self).sixteen_bit_registers
                &&& final(self).bus@ == old(self).bus@
                &&& final(self).state == old(self).state
            },
            s == 0b110 && !spec_valid_reg_code(r) ==> res == Err::<(), CpuError>(
                CpuError::InvalidRegisterCode,
            ) && *final(self) == *old(self),
            s != 0b110 ==> res == Ok::<(), CpuError>(()) && *final(self) == *old(self),
    {
        if s == 0b110 {
            let idx = match self.idx_regs(r) {
                Ok(idx) => idx,
                Err(e) => {
                    return Err(e);
                },
            };
            let hl = self.read_hl();
            let value = self.access_memory(hl);
            match self.general_registers.set8(idx, value) {
                Ok(_) => Ok(()),
                Err(e) => Err(e),
            }
        } else {
            Ok(())
        }
    }

    /// Applies one decoded operation, atomically: on success the documented
    /// register write happens, the program counter advances past the
    /// instruction (wrapping around the address space) and the base cycle
    /// cost is returned; on any failure the CPU is exactly as it was. The
    /// one operation currently implemented, `LD r, (HL)`, preserves every
    /// flag. A descriptor with no implemented operation fails with
    /// `UnimplementedOpcode` carrying its opcode byte and PC.
    pub fn execute(&mut self, d: OpDescriptor) -> (r: Result<u8, CpuError>)
        requires
            old(self).wf(),
        ensures
            final(self).wf(),
            match d.kind {
                OpKind::Ld { dest: Operand::Reg { code }, src: Operand::MemHl } => {
                    if spec_valid_reg_code(code) {
                        &&& r == Ok::<u8, CpuError>(d.cycles)
                        &&& final(self).general_registers == old(self).general_registers.spec_set8(
                            spec_reg_index(code),
                            old(self).bus@.spec_read(
                                old(self).general_registers.spec_pair(RegPair::HL),
                            ),
                        )
                        &&& final(self).general_registers.f == old(self).general_registers.f
                        &&& final(self).sixteen_bit_registers.pc == spec_wrap16(
                            old(self).sixteen_bit_registers.pc,
                            d.length,
                        )
                        &&& final(self).sixteen_bit_registers.sp == old(self).sixteen_bit_registers.sp
                        &&& final(self).bus@ == old(self).bus@
                        &&& final(self).state == old(self).state
                    } else {
                        r == Err::<u8, CpuError>(CpuError::InvalidRegisterCode) && *final(self)
                            == *old(self)
                    }
                },
                _ => r == Err::<u8, CpuError>(
                    CpuError::UnimplementedOpcode { opcode: d.opcode, pc: d.pc },
                ) && *final(self) == *old(self),
            },
    {
        match d.kind {
            OpKind::Ld { dest: Operand::Reg { code }, src: Operand::MemHl } => {
                match self.ld_rs(code, 0b110) {
                    Ok(_) => {
                        self.sixteen_bit_registers.pc = self.sixteen_bit_registers.pc.wrapping_add(
                            d.length,
                        );
                        Ok(d.cycles)
                    },
                    Err(e) => Err(e),
                }
            },
            _ => Err(CpuError::UnimplementedOpcode { opcode: d.opcode, pc: d.pc }),
        }
    }

    /// One iteration of the fetch-execute loop. A running CPU fetches the
    /// opcode at PC through the bus, decodes it and executes it: for an
    /// implemented opcode it stays Running and returns the cycle cost; for
    /// an unimplemented one it transitions to Halted and returns
    /// `UnimplementedOpcode` with that byte and PC, changing nothing else.
    /// A halted CPU does no work and reports zero cycles.
    pub fn step(&mut self) -> (r: Result<u8, CpuError>)
        requires
            old(self).wf(),
        ensures
            final(self).wf(),
            final(self)@ == spec_step(old(self)@),
            old(self).state == RunState::Halted ==> r == Ok::<u8, CpuError>(0) && *final(self)
                == *old(self),
            old(self).state == RunState::Running ==> ({
                let pc = old(self).sixteen_bit_registers.pc;
                let op = old(self).bus@.spec_read(pc);
                &&& (spec_is_ld_r_hl(op) ==> {
                    &&& r == Ok::<u8, CpuError>(8)
                    &&& final(self).state == RunState::Running
                    &&& final(self).general_registers == old(self).general_registers.spec_set8(
                        spec_reg_index((op >> 3) & 0x07),
                        old(self).bus@.spec_read(
                            old(self).general_registers.spec_pair(RegPair::HL),
                        ),
                    )
                    &&& final(self).general_registers.f == old(self).general_registers.f
                    &&& final(self).sixteen_bit_registers.pc == spec_wrap16(pc, 1)
                    &&& final(self).sixteen_bit_registers.sp == old(self).sixteen_bit_registers.sp
                    &&& final(self).bus@ == old(self).bus@
                })
                &&& (!spec_is_ld_r_hl(op) ==> {
                    &&& r == Err::<u8, CpuError>(CpuError::UnimplementedOpcode { opcode: op, pc })
                    &&& final(self).state == RunState::Halted
                    &&& final(self).general_registers == old(self).general_registers
                    &&& final(self).sixteen_bit_registers == old(self).sixteen_bit_registers
                    &&& final(self).bus@ == old(self).bus@
                })
            }),
    {
        let r = match self.state {
            RunState::Halted => Ok(0),
            RunState::Running => {
                let pc = self.sixteen_bit_registers.pc;
                let op = self.access_memory(pc);
                let d = decode(op, pc);
                proof {
                    assert((op & 0xC7 == 0x46 && op != 0x76) ==> ((op >> 3) & 0x07) <= 7 && ((op
                        >> 3) & 0x07) != 6) by (bit_vector);
                }
                match self.execute(d) {
                    Ok(cycles) => Ok(cycles),
                    Err(e) => {
                        self.state = RunState::Halted;
                        Err(e)
                    },
                }
            },
        };
        proof {
            assert(self@ =~= spec_step(old(self)@));
        }
        r
    }

    /// Drives the fetch-execute loop for at most `max_steps` transitions,
    /// stopping as soon as the machine is halted. Returns the number of
    /// transitions performed: the machine ends exactly `steps` applications
    /// of the state machine's transition past where it began, and a count
    /// below `max_steps` means it is halted.
    pub fn run(&mut self, max_steps: u32) -> (steps: u32)
        requires
            old(self).wf(),
        ensures
            final(self).wf(),
            steps <= max_steps,
            final(self)@ == spec_steps(old(self)@, steps as nat),
            steps < max_steps ==> final(self).state == RunState::Halted,
    {
        let mut i: u32 = 0;
        while i < max_steps
            invariant
                old(self).wf(),
                self.wf(),
                i <= max_steps,
                self@ == spec_steps(old(self)@, i as nat),
            decreases max_steps - i,
        {
            match self.state {
                RunState::Halted => {
                    return i;
                },
                RunState::Running => {},
            }
            let _ = self.step();
            i = i + 1;
        }
        i
    }
}

} // verus!
