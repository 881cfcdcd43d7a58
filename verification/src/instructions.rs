//! Pure operations that transform register and memory state given an
//! opcode's operand bytes. Operand bytes are fetched at the current
//! program counter, which has already been advanced past the one-byte
//! opcode before any of these run.
use vstd::prelude::*;

use crate::memory::MemoryError;
use crate::memory::MemoryMapping;
use crate::registers::Registers;
use crate::registers::high_byte;
use crate::registers::low_byte;

verus! {

/// The register pair an immediate 16-bit load targets.
#[derive(Clone, Copy, Debug, PartialEq, Eq, Structural)]
pub enum PairTarget {
    AF,
    BC,
    DE,
    HL,
}

/// `regs` with the pair `target` set to `value`: the high byte goes into
/// the pair's first-named register, the low byte into the second.
pub open spec fn with_pair(regs: Registers, target: PairTarget, value: u16) -> Registers {
    match target {
        PairTarget::AF => Registers { a: high_byte(value), flag: low_byte(value), ..regs },
        PairTarget::BC => Registers { b: high_byte(value), c: low_byte(value), ..regs },
        PairTarget::DE => Registers { d: high_byte(value), e: low_byte(value), ..regs },
        PairTarget::HL => Registers { h: high_byte(value), l: low_byte(value), ..regs },
    }
}

/// Absolute jump: reads the little-endian 16-bit immediate at the current
/// program counter and overwrites the counter with it; the counter is
/// not incremented past the operand. Fails, changing nothing, exactly
/// when the operand read fails.
pub fn jump(registers: &mut Registers, memory: &mut MemoryMapping) -> (r: Result<(), MemoryError>)
    ensures
        final(memory)@ == old(memory)@,
        match old(memory)@.read16(old(registers).program_counter, 0) {
            Ok(nn) => r == Ok::<(), MemoryError>(()) && *final(registers) == (Registers {
                program_counter: nn,
                ..*old(registers)
            }),
            Err(e) => r == Err::<(), MemoryError>(e) && *final(registers) == *old(registers),
        },
{
    match memory.read16(registers.program_counter, 0) {
        Ok(nn) => {
            registers.program_counter = nn;
            Ok(())
        },
        Err(e) => Err(e),
    }
}

/// Loads the 8-bit immediate at the current program counter into
/// `register` and advances the counter past it. Fails, changing nothing,
/// exactly when the operand read fails.
pub fn load_immediate8(program_counter: &mut u16, memory: &MemoryMapping, register: &mut u8) -> (r:
    Result<(), MemoryError>)
    ensures
        match memory@.read8(*old(program_counter), 0) {
            Ok(n) => r == Ok::<(), MemoryError>(()) && *final(program_counter) == *old(
                program_counter,
            ) + 1 && *final(register) == n,
            Err(e) => r == Err::<(), MemoryError>(e) && *final(program_counter) == *old(
                program_counter,
            ) && *final(register) == *old(register),
        },
{
    match memory.read8(*program_counter, 0) {
        Ok(n) => {
            assert(*program_counter < 0xE000);
            *program_counter += 1;
            *register = n;
            Ok(())
        },
        Err(e) => Err(e),
    }
}

/// Loads the little-endian 16-bit immediate at the current program
/// counter into the register pair `target` and advances the counter past
/// both operand bytes. Fails, changing nothing, exactly when the operand
/// read fails.
pub fn load_immediate16(
    registers: &mut Registers,
    memory: &MemoryMapping,
    target: PairTarget,
) -> (r: Result<(), MemoryError>)
    ensures
        match memory@.read16(old(registers).program_counter, 0) {
            Ok(nn) => r == Ok::<(), MemoryError>(()) && *final(registers) == with_pair(
                (Registers {
                    program_counter: (old(registers).program_counter + 2) as u16,
                    ..*old(registers)
                }),
                target,
                nn,
            ),
            Err(e) => r == Err::<(), MemoryError>(e) && *final(registers) == *old(registers),
        },
{
    match memory.read16(registers.program_counter, 0) {
        Ok(nn) => {
            assert(registers.program_counter < 0xE000);
            registers.program_counter += 2;
            match target {
                PairTarget::AF => registers.set_af(nn),
                PairTarget::BC => registers.set_bc(nn),
                PairTarget::DE => registers.set_de(nn),
                PairTarget::HL => registers.set_hl(nn),
            }
            Ok(())
        },
        Err(e) => Err(e),
    }
}

} // verus!
