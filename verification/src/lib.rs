//! A byte-code interpreter for the CHIP-8 virtual machine, verified with Verus.
//!
//! The machine state is a flat memory, sixteen byte registers, a return-address
//! stack, a monochrome framebuffer and a sixteen-key latch. One call of
//! [`Chip8::cycle`] fetches, decodes and executes one instruction and then
//! ticks both timers.

pub mod fault;
pub mod graphics;
pub mod interpreter;
pub mod keyboard;
pub mod laws;
pub mod machine;
pub mod memory;
pub mod nibble;
pub mod operation;
mod random;
pub mod registers;
pub mod stack;

pub use fault::Fault;
pub use interpreter::Chip8;
pub use graphics::{Graphics, GFX_HEIGHT, GFX_WIDTH};
pub use keyboard::Keyboard;
pub use memory::Memory;
pub use nibble::{merge, merge_u16, split};
pub use operation::{decode, Opcode, Operation};
pub use registers::Registers;
pub use stack::Stack;
