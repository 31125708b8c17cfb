//! An instruction-level 6502 emulator: a decoded opcode table, an
//! addressing-mode resolver, and a step/run execution engine over a flat
//! 64 KiB memory, with the instruction semantics stated as specifications
//! and proved against the executable engine.

#![allow(non_snake_case)]

/// The CPU registers, status flags, and the execution engine.
pub mod cpu;
/// Opcode table, addressing modes, and the hex-text program loader.
pub mod opcodes;
/// Debug observer messages and the observer slot.
pub mod debugger;
/// The flat 64 KiB memory bus.
pub mod mem;
