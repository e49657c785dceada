//! A CHIP-8 virtual machine: memory, registers, call stack, framebuffer and
//! the instruction cycle that drives them.

pub mod diagnostics;
pub mod emulator;
pub mod font;
pub mod instruction;
pub mod machine;
pub mod screen;
pub mod session;
pub mod theorems;
