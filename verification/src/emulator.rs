//! The top-level execution context: one register file, one memory map,
//! and the fetch-decode-execute step that drives them.
use vstd::prelude::*;

use crate::instructions::PairTarget;
use crate::instructions::jump;
use crate::instructions::load_immediate8;
use crate::instructions::load_immediate16;
use crate::instructions::with_pair;
use crate::memory::MemoryError;
use crate::memory::MemoryMapView;
use crate::memory::MemoryMapping;
use crate::registers::Registers;

verus! {

/// Why a fetch-decode-execute step stopped instead of continuing. Every
/// fault is reported to the caller, which decides fatality; the emulator
/// never aborts on its own.
#[derive(Clone, Copy, Debug, PartialEq, Eq, Structural)]
pub enum Fault {
    /// The fetch of the opcode or of an operand failed in the memory map.
    Memory(MemoryError),
    /// The opcode has no operation defined by this emulator yet.
    UnimplementedOpcode(u8),
    /// The opcode is architecturally illegal on the emulated hardware,
    /// which locks up rather than executes it.
    IllegalOpcode(u8),
}

/// The opcodes this emulator defines an operation for.
pub open spec fn is_defined_opcode(opcode: u8) -> bool {
    opcode == 0x00 || opcode == 0xC3 || opcode == 0xAF || opcode == 0x21 || opcode == 0x0E
        || opcode == 0x06
}

/// The opcodes the emulated hardware treats as illegal rather than
/// merely absent from this emulator.
pub open spec fn is_illegal_opcode(opcode: u8) -> bool {
    opcode == 0xD3 || opcode == 0xDB || opcode == 0xDD || opcode == 0xE3 || opcode == 0xE4
        || opcode == 0xEB || opcode == 0xEC || opcode == 0xED || opcode == 0xF4 || opcode == 0xFC
        || opcode == 0xFD
}

/// The registers and memory after `opcode` executes from `regs` and
/// `mem` — the program counter already advanced past the opcode byte —
/// together with the step's outcome. A fault leaves registers and memory
/// exactly as dispatch received them.
pub open spec fn spec_execute(opcode: u8, regs: Registers, mem: MemoryMapView) -> (
    Registers,
    MemoryMapView,
    Result<(), Fault>,
) {
    if opcode == 0x00 {
        (regs, mem, Ok(()))
    } else if opcode == 0xC3 {
        match mem.read16(regs.program_counter, 0) {
            Ok(nn) => ((Registers { program_counter: nn, ..regs }), mem, Ok(())),
            Err(e) => (regs, mem, Err(Fault::Memory(e))),
        }
    } else if opcode == 0xAF {
        ((Registers { a: 0u8, ..regs }), mem, Ok(()))
    } else if opcode == 0x21 {
        match mem.read16(regs.program_counter, 0) {
            Ok(nn) => (
                with_pair(
                    (Registers {
                        program_counter: (regs.program_counter + 2) as u16,
                        ..regs
                    }),
                    PairTarget::HL,
                    nn,
                ),
                mem,
                Ok(()),
            ),
            Err(e) => (regs, mem, Err(Fault::Memory(e))),
        }
    } else if opcode == 0x0E {
        match mem.read8(regs.program_counter, 0) {
            Ok(n) => (
                (Registers {
                    c: n,
                    program_counter: (regs.program_counter + 1) as u16,
                    ..regs
                }),
                mem,
                Ok(()),
            ),
            Err(e) => (regs, mem, Err(Fault::Memory(e))),
        }
    } else if opcode == 0x06 {
        match mem.read8(regs.program_counter, 0) {
            Ok(n) => (
                (Registers {
                    b: n,
                    program_counter: (regs.program_counter + 1) as u16,
                    ..regs
                }),
                mem,
                Ok(()),
            ),
            Err(e) => (regs, mem, Err(Fault::Memory(e))),
        }
    } else if is_illegal_opcode(opcode) {
        (regs, mem, Err(Fault::IllegalOpcode(opcode)))
    } else {
        (regs, mem, Err(Fault::UnimplementedOpcode(opcode)))
    }
}

/// One fetch-decode-execute step from `regs` and `mem`: fetch the opcode
/// byte at the program counter through page 0, advance the counter past
/// it, and dispatch. A failed fetch changes nothing.
pub open spec fn spec_step(regs: Registers, mem: MemoryMapView) -> (
    Registers,
    MemoryMapView,
    Result<(), Fault>,
) {
    match mem.read8(regs.program_counter, 0) {
        Err(e) => (regs, mem, Err(Fault::Memory(e))),
        Ok(opcode) => spec_execute(
            opcode,
            (Registers { program_counter: (regs.program_counter + 1) as u16, ..regs }),
            mem,
        ),
    }
}

/// An opcode with no defined operation is reported as a fault, never
/// silently skipped: dispatching it changes neither registers nor
/// memory, and yields `IllegalOpcode` for the codes the hardware defines
/// as illegal and `UnimplementedOpcode` for the rest.
pub proof fn lemma_unknown_opcode_faults(regs: Registers, mem: MemoryMapView, opcode: u8)
    requires
        !is_defined_opcode(opcode),
    ensures
        spec_execute(opcode, regs, mem).0 == regs,
        spec_execute(opcode, regs, mem).1 == mem,
        spec_execute(opcode, regs, mem).2 == Err::<(), Fault>(
            if is_illegal_opcode(opcode) {
                Fault::IllegalOpcode(opcode)
            } else {
                Fault::UnimplementedOpcode(opcode)
            },
        ),
{
}

/// Owns one register file and one memory map and drives the
/// fetch-decode-execute step.
pub struct Emulator {
    pub registers: Registers,
    pub memory: MemoryMapping,
}

impl Emulator {
    /// An emulator with a zero-initialized register file over a freshly
    /// built memory map with `rom_bytes` loaded.
    pub fn new(rom_bytes: Vec<u8>) -> (e: Emulator)
        ensures
            e.registers == (Registers {
                a: 0u8,
                flag: 0u8,
                b: 0u8,
                c: 0u8,
                d: 0u8,
                e: 0u8,
                h: 0u8,
                l: 0u8,
                stack_pointer: 0u16,
                program_counter: 0u16,
            }),
            e.memory@ == MemoryMapView::initial().with_rom_loaded(rom_bytes@),
            e.memory@.wf(),
    {
        let mut memory = MemoryMapping::new();
        memory.load_rom(rom_bytes);
        Emulator { registers: Registers::new(), memory }
    }

    /// Performs one fetch-decode-execute step, exactly as the step
    /// semantics describe it: `Ok(())` means the emulator can continue;
    /// a fault is reported for the caller to decide fatality.
    pub fn step(&mut self) -> (r: Result<(), Fault>)
        ensures
            ({
                let (regs2, mem2, res) = spec_step(old(self).registers, old(self).memory@);
                final(self).registers == regs2 && final(self).memory@ == mem2 && r == res
            }),
    {
        let opcode = match self.memory.read8(self.registers.program_counter, 0) {
            Ok(op) => op,
            Err(e) => {
                return Err(Fault::Memory(e));
            },
        };
        assert(self.registers.program_counter < 0xE000);
        self.registers.program_counter += 1;
        self.handle_instruction(opcode)
    }

    /// Dispatches one already-fetched opcode, the program counter having
    /// advanced past the opcode byte, exactly as the dispatch semantics
    /// describe it.
    fn handle_instruction(&mut self, opcode: u8) -> (r: Result<(), Fault>)
        ensures
            ({
                let (regs2, mem2, res) = spec_execute(
                    opcode,
                    old(self).registers,
                    old(self).memory@,
                );
                final(self).registers == regs2 && final(self).memory@ == mem2 && r == res
            }),
    {
        match opcode {
            0x00 => Ok(()),
            0xC3 => match jump(&mut self.registers, &mut self.memory) {
                Ok(()) => Ok(()),
                Err(e) => Err(Fault::Memory(e)),
            },
            0xAF => {
                let a0 = self.registers.a;
                proof {
                    assert(a0 ^ a0 == 0) by (bit_vector);
                }
                self.registers.a = a0 ^ a0;
                Ok(())
            },
            0x21 => match load_immediate16(&mut self.registers, &self.memory, PairTarget::HL) {
                Ok(()) => Ok(()),
                Err(e) => Err(Fault::Memory(e)),
            },
            0x0E => match load_immediate8(
                &mut self.registers.program_counter,
                &self.memory,
                &mut self.registers.c,
            ) {
                Ok(()) => Ok(()),
                Err(e) => Err(Fault::Memory(e)),
            },
            0x06 => match load_immediate8(
                &mut self.registers.program_counter,
                &self.memory,
                &mut self.registers.b,
            ) {
                Ok(()) => Ok(()),
                Err(e) => Err(Fault::Memory(e)),
            },
            0xD3 | 0xDB | 0xDD | 0xE3 | 0xE4 | 0xEB | 0xEC | 0xED | 0xF4 | 0xFC | 0xFD => Err(
                Fault::IllegalOpcode(opcode),
            ),
            _ => Err(Fault::UnimplementedOpcode(opcode)),
        }
    }
}

} // verus!
