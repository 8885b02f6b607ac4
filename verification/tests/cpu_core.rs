use sm83_core::bus::MAX_ROM_SIZE;
use sm83_core::cpu::{CpuSm83, RunState};
use sm83_core::decode::{decode, OpKind, Operand};
use sm83_core::regs::{RegPair, REG_A, REG_B, REG_F, REG_H, REG_L};
use sm83_core::CpuError;

#[test]
fn new_cpu_is_zero_initialized_and_running() {
    let cpu = CpuSm83::new();
    for idx in 0..8usize {
        assert_eq!(cpu.general_registers.get8(idx), Ok(0));
    }
    assert_eq!(cpu.sixteen_bit_registers.pc, 0);
    assert_eq!(cpu.sixteen_bit_registers.sp, 0);
    assert_eq!(cpu.state, RunState::Running);
    assert_eq!(cpu.access_memory(0x0000), 0);
    assert_eq!(cpu.access_memory(0xC000), 0);
    assert_eq!(cpu.access_memory(0x8000), 0);
}

#[test]
fn idx_regs_follows_the_canonical_encoding() {
    let cpu = CpuSm83::new();
    assert_eq!(cpu.idx_regs(0b111), Ok(REG_A));
    assert_eq!(cpu.idx_regs(0b000), Ok(REG_B));
    assert_eq!(cpu.idx_regs(0b001), Ok(3));
    assert_eq!(cpu.idx_regs(0b010), Ok(4));
    assert_eq!(cpu.idx_regs(0b011), Ok(5));
    assert_eq!(cpu.idx_regs(0b100), Ok(REG_H));
    assert_eq!(cpu.idx_regs(0b101), Ok(REG_L));
    assert_eq!(cpu.idx_regs(0b110), Err(CpuError::InvalidRegisterCode));
    assert_eq!(cpu.idx_regs(8), Err(CpuError::InvalidRegisterCode));
}

#[test]
fn decode_maps_every_ld_r_hl_opcode_and_nothing_else() {
    let dest_codes = [
        (0x46u8, 0b000u8),
        (0x4E, 0b001),
        (0x56, 0b010),
        (0x5E, 0b011),
        (0x66, 0b100),
        (0x6E, 0b101),
        (0x7E, 0b111),
    ];
    for &(opcode, code) in dest_codes.iter() {
        let d = decode(opcode, 0x1234);
        assert_eq!(d.opcode, opcode);
        assert_eq!(d.pc, 0x1234);
        assert_eq!(
            d.kind,
            OpKind::Ld { dest: Operand::Reg { code }, src: Operand::MemHl }
        );
        assert_eq!(d.length, 1);
        assert_eq!(d.cycles, 8);
    }
    // HALT's byte has the same bit pattern with destination code 0b110; it
    // is not a register load.
    assert_eq!(decode(0x76, 0).kind, OpKind::Unimplemented);
    for opcode in 0..=0xFFu8 {
        let is_ld = opcode & 0xC7 == 0x46 && opcode != 0x76;
        let d = decode(opcode, 7);
        assert_eq!(d.kind == OpKind::Unimplemented, !is_ld);
        assert_eq!(d.opcode, opcode);
        assert_eq!(d.pc, 7);
    }
}

#[test]
fn ld_r_hl_loads_from_vram_and_advances_pc_by_one() {
    let mut cpu = CpuSm83::new();
    // LD A, (HL) at address 0.
    cpu.load_rom(&[0x7E]).unwrap();
    cpu.general_registers.set8(REG_H, 0x80).unwrap();
    cpu.general_registers.set8(REG_L, 0x00).unwrap();
    cpu.write_memory(0x8000, 0x42);
    let flags_before = cpu.general_registers.get8(REG_F).unwrap();
    let cycles = cpu.step().unwrap();
    assert_eq!(cpu.general_registers.get8(REG_A), Ok(0x42));
    assert_eq!(cpu.general_registers.get8(REG_F), Ok(flags_before));
    assert_eq!(cpu.sixteen_bit_registers.pc, 1);
    assert_eq!(cycles, 8);
    assert_eq!(cpu.state, RunState::Running);
}

#[test]
fn ld_rs_loads_through_hl_for_source_code_0b110() {
    let mut cpu = CpuSm83::new();
    cpu.general_registers.set16(RegPair::HL, 0xC123);
    cpu.write_memory(0xC123, 0x99);
    cpu.ld_rs(0b000, 0b110).unwrap();
    assert_eq!(cpu.general_registers.get8(REG_B), Ok(0x99));
    // The program counter is the loop's business, not the transfer's.
    assert_eq!(cpu.sixteen_bit_registers.pc, 0);
}

#[test]
fn ld_rs_rejects_the_memory_operand_code_as_destination() {
    let mut cpu = CpuSm83::new();
    cpu.write_memory(0xC000, 0x77);
    cpu.general_registers.set16(RegPair::HL, 0xC000);
    assert_eq!(cpu.ld_rs(0b110, 0b110), Err(CpuError::InvalidRegisterCode));
    assert_eq!(cpu.ld_rs(9, 0b110), Err(CpuError::InvalidRegisterCode));
    for idx in 0..8usize {
        assert_eq!(
            cpu.general_registers.get8(idx).unwrap(),
            if idx == REG_H { 0xC0 } else { 0x00 }
        );
    }
}

#[test]
fn ld_rs_with_another_source_code_changes_nothing() {
    let mut cpu = CpuSm83::new();
    cpu.write_memory(0xC000, 0x77);
    cpu.general_registers.set16(RegPair::HL, 0xC000);
    cpu.ld_rs(0b111, 0b000).unwrap();
    assert_eq!(cpu.general_registers.get8(REG_A), Ok(0));
}

#[test]
fn every_ld_r_hl_opcode_executes_into_its_register() {
    let cases = [
        (0x46u8, 2usize),
        (0x4E, 3),
        (0x56, 4),
        (0x5E, 5),
        (0x66, 6),
        (0x6E, 7),
        (0x7E, 0),
    ];
    for &(opcode, reg_idx) in cases.iter() {
        let mut cpu = CpuSm83::new();
        cpu.load_rom(&[opcode]).unwrap();
        cpu.general_registers.set16(RegPair::HL, 0xC205);
        cpu.write_memory(0xC205, 0x5A);
        let cycles = cpu.step().unwrap();
        assert_eq!(cycles, 8);
        assert_eq!(cpu.general_registers.get8(reg_idx), Ok(0x5A));
        assert_eq!(cpu.sixteen_bit_registers.pc, 1);
        assert_eq!(cpu.state, RunState::Running);
    }
}

#[test]
fn oversized_rom_load_fails_and_leaves_the_cpu_untouched() {
    let mut cpu = CpuSm83::new();
    let image = vec![0x42u8; MAX_ROM_SIZE + 1];
    assert_eq!(cpu.load_rom(&image), Err(CpuError::RomTooLarge));
    for idx in 0..8usize {
        assert_eq!(cpu.general_registers.get8(idx), Ok(0));
    }
    assert_eq!(cpu.sixteen_bit_registers.pc, 0);
    assert_eq!(cpu.access_memory(0x0000), 0);
    assert_eq!(cpu.state, RunState::Running);
}

#[test]
fn rom_load_of_exactly_the_capacity_succeeds() {
    let mut cpu = CpuSm83::new();
    let mut image = vec![0u8; MAX_ROM_SIZE];
    image[0] = 0x7E;
    cpu.load_rom(&image).unwrap();
    assert_eq!(cpu.access_memory(0x0000), 0x7E);
}

#[test]
fn unimplemented_opcode_halts_the_loop_and_reports_byte_and_pc() {
    let mut cpu = CpuSm83::new();
    // 0xDD has no defined operation on the SM83.
    cpu.load_rom(&[0x00, 0xDD]).unwrap();
    cpu.sixteen_bit_registers.pc = 1;
    let r = cpu.step();
    assert_eq!(r, Err(CpuError::UnimplementedOpcode { opcode: 0xDD, pc: 1 }));
    assert_eq!(cpu.state, RunState::Halted);
    assert_eq!(cpu.sixteen_bit_registers.pc, 1);
    // Halted is terminal: a further step does no work.
    assert_eq!(cpu.step(), Ok(0));
    assert_eq!(cpu.state, RunState::Halted);
    assert_eq!(cpu.sixteen_bit_registers.pc, 1);
}

#[test]
fn pc_wraps_around_the_address_space() {
    let mut cpu = CpuSm83::new();
    // The interrupt-enable register holds the opcode byte at 0xFFFF.
    cpu.write_memory(0xFFFF, 0x7E);
    cpu.sixteen_bit_registers.pc = 0xFFFF;
    cpu.write_memory(0xC000, 0x31);
    cpu.general_registers.set16(RegPair::HL, 0xC000);
    let cycles = cpu.step().unwrap();
    assert_eq!(cycles, 8);
    assert_eq!(cpu.general_registers.get8(REG_A), Ok(0x31));
    assert_eq!(cpu.sixteen_bit_registers.pc, 0);
}

#[test]
fn run_drives_the_loop_until_the_machine_halts() {
    let mut cpu = CpuSm83::new();
    // Two LD B, (HL) loads, then a byte with no defined operation.
    cpu.load_rom(&[0x46, 0x46, 0xDD]).unwrap();
    let steps = cpu.run(10);
    assert_eq!(steps, 3);
    assert_eq!(cpu.state, RunState::Halted);
    assert_eq!(cpu.sixteen_bit_registers.pc, 2);
    assert_eq!(cpu.general_registers.get8(REG_B), Ok(0x46));
    // A halted machine performs no further transitions.
    assert_eq!(cpu.run(5), 0);

    // A bounded run that stops early leaves the machine running.
    let mut cpu2 = CpuSm83::new();
    cpu2.load_rom(&[0x46, 0x46, 0xDD]).unwrap();
    assert_eq!(cpu2.run(1), 1);
    assert_eq!(cpu2.state, RunState::Running);
    assert_eq!(cpu2.run(100), 2);
    assert_eq!(cpu2.state, RunState::Halted);
}

#[test]
fn read_hl_composes_the_pair() {
    let mut cpu = CpuSm83::new();
    cpu.general_registers.set8(REG_H, 0xAB).unwrap();
    cpu.general_registers.set8(REG_L, 0xCD).unwrap();
    assert_eq!(cpu.read_hl(), 0xABCD);
}
