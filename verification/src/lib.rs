//! Core of a 6502-family console emulator: the CPU's addressing-mode
//! resolver and execution loop, the bit-exact execution tracer used for
//! conformance testing against golden hardware logs, and the PPU's
//! register-driven VRAM access protocol with nametable mirroring and
//! buffered reads.

pub mod cpu;
pub mod opcodes;
pub mod ppu;
pub mod registers;
pub mod text;
pub mod trace;
