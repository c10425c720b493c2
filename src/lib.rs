pub mod registers;
pub mod instructions;
pub mod gpu;
pub mod memory;
pub mod semantics;
pub mod cpu;
pub mod rom;
pub mod entry;
pub mod display;
mod text;
