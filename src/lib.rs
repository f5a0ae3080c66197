//! The graphics unit of an 8-bit home console: its register protocol, the
//! mirroring of its address space, its frame clock and sprite memory, with
//! the operation table of the processor that drives it.
pub mod cartridge;
pub mod instructions;
pub mod ppu;
pub mod registers;
