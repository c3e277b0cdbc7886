//! Instruction-execution core of an 8-bit accumulator machine with a flat
//! 64 KiB address space, verified against a step-level model.
pub mod cpu;
