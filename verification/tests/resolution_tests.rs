use mos6502::cpu::Cpu;
use mos6502::errors::CpuError;
use mos6502::flags::CpuFlags;
use mos6502::instructions::{Addressing, Instruction, Operations};
use mos6502::memory::{Memory, OutOfRangeError};

fn cpu_with_memory(size: u32) -> Cpu {
    Cpu::new(Memory::new(size).unwrap())
}

#[test]
fn memory_new_succeeds_at_both_boundaries() {
    assert!(Memory::new(13824).is_ok());
    assert!(Memory::new(65536).is_ok());
    assert!(Memory::new(13823).is_err());
    assert!(Memory::new(65537).is_err());
}

#[test]
fn memory_new_reports_the_allowed_window() {
    assert_eq!(
        Memory::new(13823).unwrap_err(),
        OutOfRangeError { value: 13823, min: 13824, max: 65536 }
    );
    assert_eq!(
        Memory::new(65537).unwrap_err(),
        OutOfRangeError { value: 65537, min: 13824, max: 65536 }
    );
}

#[test]
fn load_and_store_report_the_address_window() {
    let mut mem = Memory::new(16 * 1024).unwrap();
    assert_eq!(
        mem.load(0x4000),
        Err(OutOfRangeError { value: 0x4000, min: 0, max: 0x3fff })
    );
    assert_eq!(
        mem.store(0x4000, 0x77),
        Err(OutOfRangeError { value: 0x4000, min: 0, max: 0x3fff })
    );
}

#[test]
fn load_rom_overwrites_only_its_window() {
    let mut mem = Memory::new(16 * 1024).unwrap();
    mem.load_rom(0x0100, &[1, 2, 3]);
    assert_eq!(mem.load(0x00ff).unwrap(), 0);
    assert_eq!(mem.load(0x0100).unwrap(), 1);
    assert_eq!(mem.load(0x0101).unwrap(), 2);
    assert_eq!(mem.load(0x0102).unwrap(), 3);
    assert_eq!(mem.load(0x0103).unwrap(), 0);
}

#[test]
fn word_read_composes_little_endian() {
    let mut mem = Memory::new(64 * 1024).unwrap();
    mem.load_rom(0x2000, &[0x34, 0x12]);
    let cpu = Cpu::new(mem);

    let low = cpu.memory.load(0x2000).unwrap() as u16;
    let high = cpu.memory.load(0x2001).unwrap() as u16;
    let word = cpu.load_little_endian_u16(0x2000).unwrap();
    assert_eq!(word, low | (high << 8));
    assert_eq!(word, 0x1234);
}

#[test]
fn word_read_fails_at_the_top_of_the_address_space() {
    let cpu = cpu_with_memory(64 * 1024);
    assert_eq!(
        cpu.load_little_endian_u16(0xffff),
        Err(OutOfRangeError { value: 0x10000, min: 0, max: 0xffff })
    );
}

#[test]
fn word_read_fails_past_the_end_of_memory() {
    let cpu = cpu_with_memory(16 * 1024);
    assert_eq!(
        cpu.load_little_endian_u16(0x3fff),
        Err(OutOfRangeError { value: 0x4000, min: 0, max: 0x3fff })
    );
    assert_eq!(
        cpu.load_little_endian_u16(0x4000),
        Err(OutOfRangeError { value: 0x4000, min: 0, max: 0x3fff })
    );
}

#[test]
fn reset_fails_when_the_vector_is_unreadable() {
    let mut cpu = cpu_with_memory(16 * 1024);
    assert_eq!(
        cpu.reset(),
        Err(OutOfRangeError { value: 0xfffc, min: 0, max: 0x3fff })
    );
    // The CPU is left as `new` built it.
    assert_eq!(cpu.pc, 0x1000);
    assert_eq!(cpu.sp, 0xff);
    assert_eq!(cpu.cycles_busy, 0);
}

#[test]
fn scenario_reset_vector_reseats_program_counter() {
    let mut mem = Memory::new(65536).unwrap();
    mem.load_rom(0xfffc, &[0x02, 0x03]);
    let mut cpu = Cpu::new(mem);
    cpu.reset().unwrap();
    assert_eq!(cpu.pc, 0x0302);
}

#[test]
fn scenario_brk_then_ora_immediate() {
    let mut mem = Memory::new(16384).unwrap();
    mem.load_rom(0x1000, &[0x00, 0x09, 0x0a]);
    let mut cpu = Cpu::new(mem);

    let first = cpu.fetch().unwrap();
    assert_eq!(first, Instruction {
        operation: Operations::SoftwareInterrupt,
        addressing: Addressing::Implied,
        cycle_count: 7
    });
    assert_eq!(cpu.pc, 0x1001);

    let second = cpu.fetch().unwrap();
    assert_eq!(second, Instruction {
        operation: Operations::InclusiveOrWithAccumulator,
        addressing: Addressing::Immediate(0x0a),
        cycle_count: 2
    });
    assert_eq!(cpu.pc, 0x1003);
}

#[test]
fn scenario_status_register_bits() {
    let mut cpu = cpu_with_memory(64 * 1024);
    cpu.sr = 0b10101010;
    assert_eq!(cpu.get_flag(CpuFlags::Zero), true);
    assert_eq!(cpu.get_flag(CpuFlags::Negative), true);
    assert_eq!(cpu.get_flag(CpuFlags::Carry), false);

    cpu.sr = 0;
    cpu.set_flag(CpuFlags::BreakFlag);
    assert_eq!(cpu.sr, 0b00010000);
}

#[test]
fn fetch_decodes_undocumented_opcodes_as_noop() {
    let mut mem = Memory::new(64 * 1024).unwrap();
    mem.load_rom(0x1000, &[0x02, 0xff]);
    let mut cpu = Cpu::new(mem);

    let noop = Instruction {
        operation: Operations::NoOperation,
        addressing: Addressing::Implied,
        cycle_count: 2,
    };
    assert_eq!(cpu.fetch().unwrap(), noop);
    assert_eq!(cpu.pc, 0x1001);
    assert_eq!(cpu.fetch().unwrap(), noop);
    assert_eq!(cpu.pc, 0x1002);
}

#[test]
fn fetch_wraps_the_program_counter_around() {
    let mut mem = Memory::new(64 * 1024).unwrap();
    mem.store(0xffff, 0xea).unwrap();
    let mut cpu = Cpu::new(mem);
    cpu.pc = 0xffff;

    let instruction = cpu.fetch().unwrap();
    assert_eq!(instruction.operation, Operations::NoOperation);
    assert_eq!(cpu.pc, 0x0000);
}

#[test]
fn fetch_fails_past_the_end_of_memory() {
    let mut cpu = cpu_with_memory(16 * 1024);
    cpu.pc = 0x4000;
    assert_eq!(
        cpu.fetch(),
        Err(OutOfRangeError { value: 0x4000, min: 0, max: 0x3fff })
    );
    assert_eq!(cpu.pc, 0x4000);
}

#[test]
fn fetch_fails_on_a_truncated_operand() {
    // LDA immediate needs one operand byte that lies past the end.
    let mut mem = Memory::new(16 * 1024).unwrap();
    mem.store(0x3fff, 0xa9).unwrap();
    let mut cpu = Cpu::new(mem);
    cpu.pc = 0x3fff;
    assert_eq!(
        cpu.fetch(),
        Err(OutOfRangeError { value: 0x4000, min: 0, max: 0x3fff })
    );
    assert_eq!(cpu.pc, 0x3fff);

    // JMP absolute needs two operand bytes; only one fits.
    let mut mem = Memory::new(16 * 1024).unwrap();
    mem.load_rom(0x3ffe, &[0x4c, 0x10]);
    let mut cpu = Cpu::new(mem);
    cpu.pc = 0x3ffe;
    assert_eq!(
        cpu.fetch(),
        Err(OutOfRangeError { value: 0x4000, min: 0, max: 0x3fff })
    );
    assert_eq!(cpu.pc, 0x3ffe);
}

#[test]
fn effective_address_fails_for_immediate_and_implied() {
    let cpu = cpu_with_memory(64 * 1024);
    assert_eq!(
        cpu.get_effective_address(Addressing::Immediate(0x42)),
        Err(CpuError::InvalidAddressModeDereferenced)
    );
    assert_eq!(
        cpu.get_effective_address(Addressing::Implied),
        Err(CpuError::InvalidAddressModeDereferenced)
    );
}

#[test]
fn effective_address_of_absolute_and_zeropage() {
    let cpu = cpu_with_memory(64 * 1024);
    assert_eq!(cpu.get_effective_address(Addressing::Absolute(0x1234)).unwrap(), 0x1234);
    assert_eq!(cpu.get_effective_address(Addressing::Zeropage(0x7f)).unwrap(), 0x007f);
}

#[test]
fn effective_address_of_indexed_modes() {
    let cpu = cpu_with_memory(64 * 1024);
    assert_eq!(
        cpu.get_effective_address(Addressing::IndexedAbsolute(0x2000, 0xa1)).unwrap(),
        0x20a1
    );
    assert_eq!(
        cpu.get_effective_address(Addressing::IndexedZeropage(0xcc, 0x15)).unwrap(),
        0x00e1
    );
    // Zero-page indexing uses plain addition: the sum may leave the page.
    assert_eq!(
        cpu.get_effective_address(Addressing::IndexedZeropage(0xff, 0xff)).unwrap(),
        0x01fe
    );
    assert_eq!(
        cpu.get_effective_address(Addressing::PreindexedIndirect(0x15, 0x0a)).unwrap(),
        0x001f
    );
}

#[test]
fn effective_address_of_postindexed_indirect() {
    let mut mem = Memory::new(64 * 1024).unwrap();
    mem.load_rom(0x0040, &[0x00, 0x20]);
    let cpu = Cpu::new(mem);
    assert_eq!(
        cpu.get_effective_address(Addressing::PostindexedIndirect(0x40, 0x06)).unwrap(),
        0x2006
    );
}

#[test]
fn effective_address_of_indirect() {
    let mut mem = Memory::new(64 * 1024).unwrap();
    mem.load_rom(0x1715, &[0xcd, 0xab]);
    let cpu = Cpu::new(mem);
    assert_eq!(cpu.get_effective_address(Addressing::Indirect(0x1715)).unwrap(), 0xabcd);
}

#[test]
fn effective_address_of_indirect_fails_out_of_bounds() {
    let cpu = cpu_with_memory(16 * 1024);
    assert_eq!(
        cpu.get_effective_address(Addressing::Indirect(0x3fff)),
        Err(CpuError::MemoryBoundsError(OutOfRangeError {
            value: 0x4000,
            min: 0,
            max: 0x3fff
        }))
    );
}

#[test]
fn effective_address_of_relative_offsets() {
    let mut cpu = cpu_with_memory(64 * 1024);
    cpu.pc = 0x1002;
    // Positive offset: forward from the program counter.
    assert_eq!(cpu.get_effective_address(Addressing::RelativeAddress(0x10)).unwrap(), 0x1012);
    // High bit set: a two's-complement step backwards (0xfc is -4).
    assert_eq!(cpu.get_effective_address(Addressing::RelativeAddress(0xfc)).unwrap(), 0x0ffe);
}

#[test]
fn operand_of_immediate_is_the_payload() {
    let cpu = cpu_with_memory(64 * 1024);
    assert_eq!(cpu.get_operand(Addressing::Immediate(0x42)).unwrap(), 0x42);
}

#[test]
fn operand_loads_through_the_effective_address() {
    let mut mem = Memory::new(64 * 1024).unwrap();
    mem.store(0x2006, 0x99).unwrap();
    mem.store(0x0012, 0x55).unwrap();
    mem.load_rom(0x0040, &[0x00, 0x20]);
    let cpu = Cpu::new(mem);

    assert_eq!(cpu.get_operand(Addressing::Absolute(0x2006)).unwrap(), 0x99);
    assert_eq!(cpu.get_operand(Addressing::Zeropage(0x12)).unwrap(), 0x55);
    assert_eq!(cpu.get_operand(Addressing::IndexedAbsolute(0x2000, 0x06)).unwrap(), 0x99);
    assert_eq!(cpu.get_operand(Addressing::PostindexedIndirect(0x40, 0x06)).unwrap(), 0x99);
}

#[test]
fn operand_fails_for_implied_and_indirect() {
    let cpu = cpu_with_memory(64 * 1024);
    assert_eq!(
        cpu.get_operand(Addressing::Implied),
        Err(CpuError::InvalidAddressModeDereferenced)
    );
    assert_eq!(
        cpu.get_operand(Addressing::Indirect(0x1715)),
        Err(CpuError::InvalidAddressModeDereferenced)
    );
}

#[test]
fn operand_fails_out_of_bounds() {
    let cpu = cpu_with_memory(16 * 1024);
    assert_eq!(
        cpu.get_operand(Addressing::Absolute(0x4000)),
        Err(CpuError::MemoryBoundsError(OutOfRangeError {
            value: 0x4000,
            min: 0,
            max: 0x3fff
        }))
    );
}
