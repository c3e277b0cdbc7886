use vstd::prelude::*;

verus! {

/// How an instruction finds its operand. Every variant but `Accumulator`
/// carries the number of operand bytes that follow the opcode.
#[derive(Copy, Clone, Debug, PartialEq, Eq, Structural)]
pub enum AddressMode {
    Immediate(u16),
    ZeroPage(u16),
    ZeroPageX(u16),
    ZeroPageY(u16),
    Absolute(u16),
    AbsoluteX(u16),
    AbsoluteY(u16),
    Accumulator,
    Indirect(u16),
    IndirectX(u16),
    IndirectY(u16),
}

impl AddressMode {
    /// Number of operand bytes the mode consumes from the instruction stream.
    pub open spec fn operand_len(self) -> u16 {
        match self {
            AddressMode::Immediate(n) => n,
            AddressMode::ZeroPage(n) => n,
            AddressMode::ZeroPageX(n) => n,
            AddressMode::ZeroPageY(n) => n,
            AddressMode::Absolute(n) => n,
            AddressMode::AbsoluteX(n) => n,
            AddressMode::AbsoluteY(n) => n,
            AddressMode::Accumulator => 0,
            AddressMode::Indirect(n) => n,
            AddressMode::IndirectX(n) => n,
            AddressMode::IndirectY(n) => n,
        }
    }

    /// Returns how far the program counter moves past the operand bytes.
    pub fn get_pc_increment(&self) -> (r: u16)
        ensures
            r == self.operand_len(),
    {
        match self {
            AddressMode::Immediate(n) => *n,
            AddressMode::ZeroPage(n) => *n,
            AddressMode::ZeroPageX(n) => *n,
            AddressMode::ZeroPageY(n) => *n,
            AddressMode::Absolute(n) => *n,
            AddressMode::AbsoluteX(n) => *n,
            AddressMode::AbsoluteY(n) => *n,
            AddressMode::Indirect(n) => *n,
            AddressMode::IndirectX(n) => *n,
            AddressMode::IndirectY(n) => *n,
            AddressMode::Accumulator => 0,
        }
    }
}

} // verus!
