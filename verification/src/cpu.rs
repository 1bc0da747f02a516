//! The processor: its parts, from the leaves up.

pub mod bits;
pub mod debugging;
pub mod driver;
pub mod flags;
pub mod instructions;
pub mod laws;
pub mod machine;
pub mod memory;
pub mod opcode;
pub mod special;
pub mod state8080;
