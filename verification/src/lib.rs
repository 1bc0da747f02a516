//! An Intel 8080 processor core with the memory map, the shift-register device and
//! the half-frame interrupt pacing of the Space Invaders arcade board.
//!
//! Every function of the library carries a contract over a mathematical model of the
//! machine ([`cpu::machine::Machine`]) and is proved against it.

pub mod cpu;
pub mod render;
