//! An instruction-set emulator for a 16-bit MSP430-class microcontroller:
//! instruction decoding, operand addressing, and a single-step execution
//! engine whose behaviour is stated as spec functions over a machine model.
pub mod alu;
pub mod cpu;
pub mod isa;
pub mod laws;
pub mod mem;
