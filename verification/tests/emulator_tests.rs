use gbcore::emulator::Emulator;
use gbcore::emulator::Fault;
use gbcore::instructions::PairTarget;
use gbcore::instructions::jump;
use gbcore::instructions::load_immediate8;
use gbcore::instructions::load_immediate16;
use gbcore::memory::MemoryError;
use gbcore::memory::MemoryMapping;
use gbcore::registers::Registers;

#[test]
fn test_step_nop_changes_only_the_counter() {
    let mut emu = Emulator::new(vec![0x00]);
    assert_eq!(emu.step(), Ok(()));
    assert_eq!(emu.registers.program_counter, 1);
    assert_eq!(emu.registers.a, 0);
    assert_eq!(emu.registers.flag, 0);
    assert_eq!(emu.registers.b, 0);
    assert_eq!(emu.registers.c, 0);
    assert_eq!(emu.registers.d, 0);
    assert_eq!(emu.registers.e, 0);
    assert_eq!(emu.registers.h, 0);
    assert_eq!(emu.registers.l, 0);
    assert_eq!(emu.registers.stack_pointer, 0);
    // Memory is untouched.
    assert_eq!(emu.memory.read8(0, 0).unwrap(), 0x00);
    assert_eq!(emu.memory.read8(1, 0).unwrap(), 0x00);
    assert_eq!(emu.memory.read8(0xC000, 0).unwrap(), 0x00);
}

#[test]
fn test_step_xor_a_clears_a() {
    let mut emu = Emulator::new(vec![0xAF]);
    emu.registers.a = 0x5A;
    assert_eq!(emu.step(), Ok(()));
    assert_eq!(emu.registers.a, 0);
    assert_eq!(emu.registers.program_counter, 1);
}

#[test]
fn test_step_jump_sets_counter_absolutely() {
    let mut emu = Emulator::new(vec![0xC3, 0x10, 0x00]);
    assert_eq!(emu.step(), Ok(()));
    assert_eq!(emu.registers.program_counter, 0x0010);
    assert_ne!(emu.registers.program_counter, 0x0003);
}

#[test]
fn test_step_load_hl_immediate() {
    let mut emu = Emulator::new(vec![0x21, 0x34, 0x12]);
    assert_eq!(emu.step(), Ok(()));
    assert_eq!(emu.registers.get_hl(), 0x1234);
    assert_eq!(emu.registers.h, 0x12);
    assert_eq!(emu.registers.l, 0x34);
    assert_eq!(emu.registers.program_counter, 3);
}

#[test]
fn test_step_load_c_immediate() {
    let mut emu = Emulator::new(vec![0x0E, 0x42]);
    assert_eq!(emu.step(), Ok(()));
    assert_eq!(emu.registers.c, 0x42);
    assert_eq!(emu.registers.program_counter, 2);
}

#[test]
fn test_step_load_b_immediate() {
    let mut emu = Emulator::new(vec![0x06, 0x99]);
    assert_eq!(emu.step(), Ok(()));
    assert_eq!(emu.registers.b, 0x99);
    assert_eq!(emu.registers.program_counter, 2);
}

#[test]
fn test_step_composite_jump_nop_xor() {
    // A jump to 0x0005, where a NOP and then XOR A,A sit.
    let mut emu = Emulator::new(vec![0xC3, 0x05, 0x00, 0x00, 0x00, 0x00, 0xAF]);
    emu.registers.a = 0x77;
    assert_eq!(emu.step(), Ok(()));
    assert_eq!(emu.registers.program_counter, 5);
    assert_eq!(emu.step(), Ok(()));
    assert_eq!(emu.registers.program_counter, 6);
    assert_eq!(emu.step(), Ok(()));
    assert_eq!(emu.registers.program_counter, 7);
    assert_eq!(emu.registers.a, 0);
}

#[test]
fn test_step_unimplemented_opcode_faults() {
    let mut emu = Emulator::new(vec![0x01]);
    assert_eq!(emu.step(), Err(Fault::UnimplementedOpcode(0x01)));
    // The counter sits past the faulting opcode byte; nothing else moved.
    assert_eq!(emu.registers.program_counter, 1);
    assert_eq!(emu.memory.read8(0, 0).unwrap(), 0x01);
}

#[test]
fn test_step_illegal_opcode_faults() {
    let mut emu = Emulator::new(vec![0xD3]);
    assert_eq!(emu.step(), Err(Fault::IllegalOpcode(0xD3)));
    let mut emu2 = Emulator::new(vec![0xFD]);
    assert_eq!(emu2.step(), Err(Fault::IllegalOpcode(0xFD)));
}

#[test]
fn test_step_fetch_from_unmapped_address_faults() {
    let mut emu = Emulator::new(vec![0x00]);
    emu.registers.program_counter = 0xE000;
    assert_eq!(
        emu.step(),
        Err(Fault::Memory(MemoryError::AddressOutOfRange))
    );
    // A failed fetch changes nothing.
    assert_eq!(emu.registers.program_counter, 0xE000);
}

#[test]
fn test_step_operand_fetch_fault_reports_memory_error() {
    // An opcode at the last mapped address has its operand out of range.
    let mut emu = Emulator::new(vec![0x00]);
    emu.memory.write(0xDFFF, 0, 0xC3).unwrap();
    emu.registers.program_counter = 0xDFFF;
    assert_eq!(
        emu.step(),
        Err(Fault::Memory(MemoryError::AddressOutOfRange))
    );
    // The opcode byte was consumed before the operand fetch failed.
    assert_eq!(emu.registers.program_counter, 0xE000);
}

#[test]
fn test_jump_instruction_directly() {
    let mut regs = Registers::new();
    let mut mapping = MemoryMapping::new();
    mapping.load_rom(vec![0x10, 0x20]);
    jump(&mut regs, &mut mapping).unwrap();
    assert_eq!(regs.program_counter, 0x2010);
}

#[test]
fn test_load_immediate8_directly() {
    let regs = Registers::new();
    let mut mapping = MemoryMapping::new();
    mapping.load_rom(vec![0x7F]);
    let mut pc: u16 = regs.program_counter;
    let mut target: u8 = 0;
    load_immediate8(&mut pc, &mapping, &mut target).unwrap();
    assert_eq!(pc, 1);
    assert_eq!(target, 0x7F);
}

#[test]
fn test_load_immediate16_each_pair() {
    let mut mapping = MemoryMapping::new();
    mapping.load_rom(vec![0xCD, 0xAB]);
    for (target, check) in [
        (PairTarget::AF, Registers::get_af as fn(&Registers) -> u16),
        (PairTarget::BC, Registers::get_bc),
        (PairTarget::DE, Registers::get_de),
        (PairTarget::HL, Registers::get_hl),
    ] {
        let mut regs = Registers::new();
        load_immediate16(&mut regs, &mapping, target).unwrap();
        assert_eq!(regs.program_counter, 2);
        assert_eq!(check(&regs), 0xABCD);
    }
}

#[test]
fn test_load_immediate8_out_of_range_counter() {
    let mapping = MemoryMapping::new();
    let mut pc: u16 = 0xE000;
    let mut target: u8 = 0x33;
    assert_eq!(
        load_immediate8(&mut pc, &mapping, &mut target),
        Err(MemoryError::AddressOutOfRange)
    );
    assert_eq!(pc, 0xE000);
    assert_eq!(target, 0x33);
}
