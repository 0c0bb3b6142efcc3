//! An interpreter for the Sharp LR35902, the CPU of an 8-bit hand-held console,
//! together with the memory bus around it and the cartridge header parser.

pub mod cartridge;
pub mod cpu;
pub mod mmu;
pub mod rom;
pub mod text;
pub mod types;
