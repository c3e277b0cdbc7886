use vstd::prelude::*;

verus! {

/// Bit position of the carry flag in the status register.
pub const CARRY: u8 = 0;

/// Bit position of the zero flag.
pub const ZERO: u8 = 1;

/// Bit position of the interrupt-disable flag.
pub const INTERRUPT_DISABLE: u8 = 2;

/// Bit position of the decimal-mode flag.
pub const DECIMAL_MODE: u8 = 3;

/// Bit position of the break flag, set by the software interrupt.
pub const BREAK: u8 = 5;

/// Bit position of the overflow flag.
pub const OVERFLOW: u8 = 6;

/// Bit position of the negative flag.
pub const NEGATIVE: u8 = 7;

/// Address at which programs are loaded and execution starts.
pub const PROGRAM_ROM: u16 = 0x8000;

/// Whether bit `bit` of the status byte `p` is set.
pub open spec fn flag_of(p: u8, bit: u8) -> bool {
    p & (1u8 << bit) != 0
}

/// `p` with bit `bit` set when `on` holds and cleared otherwise.
pub open spec fn set_flag(p: u8, bit: u8, on: bool) -> u8 {
    if on {
        p | (1u8 << bit)
    } else {
        p & !(1u8 << bit)
    }
}

/// The bit that `set_flag` writes reads back as written; every other bit is kept.
pub proof fn lemma_set_flag(p: u8, bit: u8, on: bool)
    requires
        bit < 8,
    ensures
        flag_of(set_flag(p, bit, on), bit) == on,
        forall|other: u8|
            other < 8 && other != bit ==> flag_of(#[trigger] set_flag(p, bit, on), other)
                == flag_of(p, other),
{
    assert(on ==> (p | (1u8 << bit)) & (1u8 << bit) != 0) by (bit_vector)
        requires
            bit < 8,
    ;
    assert(!on ==> (p & !(1u8 << bit)) & (1u8 << bit) == 0) by (bit_vector)
        requires
            bit < 8,
    ;
    assert forall|other: u8| other < 8 && other != bit implies flag_of(
        #[trigger] set_flag(p, bit, on),
        other,
    ) == flag_of(p, other) by {
        assert(((p | (1u8 << bit)) & (1u8 << other) != 0) == (p & (1u8 << other) != 0))
            by (bit_vector)
            requires
                bit < 8,
                other < 8,
                other != bit,
        ;
        assert(((p & !(1u8 << bit)) & (1u8 << other) != 0) == (p & (1u8 << other) != 0))
            by (bit_vector)
            requires
                bit < 8,
                other < 8,
                other != bit,
        ;
    }
}

/// The processor registers: accumulator, two index registers, program
/// counter, stack pointer (an offset within the stack page) and status byte.
#[derive(Copy, Clone, Debug, PartialEq, Eq, Structural)]
pub struct Registers {
    pub a: u8,
    pub x: u8,
    pub y: u8,
    pub pc: u16,
    pub s: u8,
    pub p: u8,
}

/// The named status flags.
#[derive(Copy, Clone, Debug, PartialEq, Eq, Structural)]
pub enum Flag {
    Carry,
    Zero,
    InterruptDisable,
    DecimalMode,
    Break,
    Overflow,
    Negative,
}

impl Flag {
    /// Bit position of the flag within the status byte.
    pub open spec fn bit(self) -> u8 {
        match self {
            Flag::Carry => CARRY,
            Flag::Zero => ZERO,
            Flag::InterruptDisable => INTERRUPT_DISABLE,
            Flag::DecimalMode => DECIMAL_MODE,
            Flag::Break => BREAK,
            Flag::Overflow => OVERFLOW,
            Flag::Negative => NEGATIVE,
        }
    }
}

impl Default for Registers {
    fn default() -> (r: Registers)
        ensures
            r == Registers::initial(),
    {
        Registers::new()
    }
}

impl Registers {
    /// The power-on register state.
    pub open spec fn initial() -> Registers {
        Registers { a: 0, x: 0, y: 0, pc: PROGRAM_ROM, s: 0xff, p: 0 }
    }

    /// Registers at power-on: program counter at the program region, stack
    /// pointer at the top of the stack page, everything else zero.
    pub fn new() -> (r: Registers)
        ensures
            r == Registers::initial(),
    {
        Registers { a: 0, x: 0, y: 0, pc: PROGRAM_ROM, s: 0xff, p: 0 }
    }

    /// Clears every register and sets the program counter to `pc`.
    pub fn reset(&mut self, pc: u16)
        ensures
            *final(self) == (Registers { a: 0, x: 0, y: 0, pc: pc, s: 0, p: 0 }),
    {
        self.a = 0;
        self.x = 0;
        self.y = 0;
        self.pc = pc;
        self.s = 0;
        self.p = 0;
    }

    /// Sets status bit `flag` when `condition` holds and clears it otherwise.
    pub fn update_flag(&mut self, flag: u8, condition: bool)
        requires
            flag < 8,
        ensures
            *final(self) == (Registers { p: set_flag(old(self).p, flag, condition), ..*old(self) }),
    {
        let flag_bit: u8 = 1u8 << flag;
        if condition {
            self.p = self.p | flag_bit;
        } else {
            self.p = self.p & !flag_bit;
        }
    }

    /// Sets the named flag.
    pub fn enable_flag(&mut self, flag: Flag)
        ensures
            *final(self) == (Registers { p: set_flag(old(self).p, flag.bit(), true), ..*old(self) }),
    {
        match flag {
            Flag::Carry => self.update_flag(CARRY, true),
            Flag::Zero => self.update_flag(ZERO, true),
            Flag::InterruptDisable => self.update_flag(INTERRUPT_DISABLE, true),
            Flag::DecimalMode => self.update_flag(DECIMAL_MODE, true),
            Flag::Break => self.update_flag(BREAK, true),
            Flag::Overflow => self.update_flag(OVERFLOW, true),
            Flag::Negative => self.update_flag(NEGATIVE, true),
        }
    }

    /// Clears the named flag.
    pub fn disable_flag(&mut self, flag: Flag)
        ensures
            *final(self) == (Registers { p: set_flag(old(self).p, flag.bit(), false), ..*old(self) }),
    {
        match flag {
            Flag::Carry => self.update_flag(CARRY, false),
            Flag::Zero => self.update_flag(ZERO, false),
            Flag::InterruptDisable => self.update_flag(INTERRUPT_DISABLE, false),
            Flag::DecimalMode => self.update_flag(DECIMAL_MODE, false),
            Flag::Break => self.update_flag(BREAK, false),
            Flag::Overflow => self.update_flag(OVERFLOW, false),
            Flag::Negative => self.update_flag(NEGATIVE, false),
        }
    }
}

} // verus!
