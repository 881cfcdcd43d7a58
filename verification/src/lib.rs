//! Instruction-level core of an 8-bit handheld console emulator: a banked
//! 16-bit address space decoded onto fixed and paged storage regions, a
//! CPU register file with composed register pairs, and the
//! fetch-decode-execute step over them. Every fallible operation reports
//! a typed error instead of aborting, and every operation's effect is
//! specified and machine-checked against a mathematical model of the
//! memory and registers.
pub mod emulator;
pub mod instructions;
pub mod memory;
pub mod registers;
