pub mod arith;
pub mod cpu;
pub mod flags;
pub mod memory;
pub mod opcodes;
pub mod ppu;
pub mod registers;
pub mod screen;
