//! An interpreter for a 16-bit, word-addressed machine with sixteen opcodes,
//! eight general-purpose registers, a program counter and a condition-flag
//! register. The machine's state and every instruction are specified over a
//! mathematical model and the executable code is verified against it.
pub mod condition_flags;
pub mod image;
pub mod laws;
pub mod machine;
pub mod memory_mapped_registers;
pub mod opcodes;
pub mod registers;
pub mod trap_codes;
pub mod vm;
