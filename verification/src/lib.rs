//! A verified core for a 64-bit RISC-V (RV64IMC) user-mode interpreter:
//! a total decoder from raw instruction words to a structured `Op`,
//! an executor over an explicit machine state, and a disassembler that
//! renders operations as canonical or pseudo-instruction assembly text.

pub mod alu;
pub mod bits;
pub mod encode;
pub mod err;
pub mod exec;
pub mod fields;
pub mod laws;
pub mod machine;
pub mod decode;
pub mod op;
pub mod render;
pub mod text;
