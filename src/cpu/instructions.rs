use vstd::prelude::*;

use crate::cpu::address_mode::AddressMode;
use crate::cpu::registers::{
    flag_of, set_flag, Flag, Registers, BREAK, CARRY, DECIMAL_MODE, INTERRUPT_DISABLE, NEGATIVE,
    OVERFLOW, ZERO,
};
use crate::cpu::{Cpu, Machine, BRK_VECTOR};

verus! {

// ---------------------------------------------------------------------------
// Semantics of the instruction set over `Machine`. Each function describes an
// instruction after its opcode has been consumed, with the program counter on
// its first operand byte.
// ---------------------------------------------------------------------------

/// Status byte `p` with Zero and Negative recomputed from the result `v`.
pub open spec fn with_zn(p: u8, v: u8) -> u8 {
    set_flag(set_flag(p, ZERO, v == 0), NEGATIVE, v & 0x80 != 0)
}

/// The carry flag as a number.
pub open spec fn carry_in(p: u8) -> u8 {
    if flag_of(p, CARRY) {
        1
    } else {
        0
    }
}

/// The operand byte that `mode` designates.
pub open spec fn operand(m: Machine, mode: AddressMode) -> u8 {
    m.byte(m.operand_address(mode))
}

/// Program counter after the operand bytes of `mode`.
pub open spec fn next_pc(m: Machine, mode: AddressMode) -> u16 {
    m.reg.pc.wrapping_add(mode.operand_len())
}

/// Byte a shift or rotate works on: the accumulator or the memory operand.
pub open spec fn shift_input(m: Machine, mode: AddressMode) -> u8 {
    match mode {
        AddressMode::Accumulator => m.reg.a,
        _ => operand(m, mode),
    }
}

/// Stores a shift or rotate `result` where its input came from, with Carry
/// set to `carry`, Zero and Negative recomputed, and the operand consumed.
pub open spec fn shift_output(m: Machine, mode: AddressMode, result: u8, carry: bool) -> Machine {
    let p = with_zn(set_flag(m.reg.p, CARRY, carry), result);
    match mode {
        AddressMode::Accumulator => m.with_reg(
            Registers { a: result, p: p, pc: next_pc(m, mode), ..m.reg },
        ),
        _ => m.write(m.operand_address(mode), result).with_reg(
            Registers { p: p, pc: next_pc(m, mode), ..m.reg },
        ),
    }
}

/// Accumulator set to `v` with Zero and Negative recomputed and the operand consumed.
pub open spec fn accumulator_result(m: Machine, mode: AddressMode, v: u8) -> Machine {
    m.with_reg(Registers { a: v, p: with_zn(m.reg.p, v), pc: next_pc(m, mode), ..m.reg })
}

/// Binary addition of `v` and the carry to the accumulator. Carry is the
/// unsigned carry out of bit 7 and Overflow the signed overflow; the
/// DecimalMode flag does not change the addition.
pub open spec fn add_spec(m: Machine, mode: AddressMode, v: u8) -> Machine {
    let a = m.reg.a;
    let sum = a + v + carry_in(m.reg.p);
    let r = (sum % 256) as u8;
    let overflow = (a ^ r) & (v ^ r) & 0x80 != 0;
    let p = with_zn(set_flag(set_flag(m.reg.p, CARRY, sum > 0xff), OVERFLOW, overflow), r);
    m.with_reg(Registers { a: r, p: p, pc: next_pc(m, mode), ..m.reg })
}

/// Flags of comparing register value `r` with the operand.
pub open spec fn compare_spec(m: Machine, mode: AddressMode, r: u8) -> Machine {
    let v = operand(m, mode);
    let p = set_flag(
        set_flag(set_flag(m.reg.p, CARRY, r >= v), ZERO, r == v),
        NEGATIVE,
        r.wrapping_sub(v) & 0x80 != 0,
    );
    m.with_reg(Registers { p: p, pc: next_pc(m, mode), ..m.reg })
}

/// Memory operand replaced by `v` with Zero and Negative recomputed.
pub open spec fn memory_result(m: Machine, mode: AddressMode, v: u8) -> Machine {
    m.write(m.operand_address(mode), v).with_reg(
        Registers { p: with_zn(m.reg.p, v), pc: next_pc(m, mode), ..m.reg },
    )
}

/// Two's-complement value of a branch offset.
pub open spec fn signed_offset(offset: u8) -> int {
    if offset < 0x80 {
        offset as int
    } else {
        offset - 256
    }
}

/// A relative branch: the offset byte is consumed, and when `taken` the
/// program counter then moves by its signed value, modulo the address space.
pub open spec fn branch_spec(m: Machine, taken: bool) -> Machine {
    let next = m.reg.pc.wrapping_add(1);
    let offset = m.byte(m.reg.pc);
    m.with_pc(
        if taken {
            ((next + signed_offset(offset)) % 0x10000) as u16
        } else {
            next
        },
    )
}

/// Status byte with a single flag written.
pub open spec fn flag_spec(m: Machine, bit: u8, on: bool) -> Machine {
    m.with_p(set_flag(m.reg.p, bit, on))
}

pub open spec fn adc_spec(m: Machine, mode: AddressMode) -> Machine {
    add_spec(m, mode, operand(m, mode))
}

/// Subtraction with borrow: the accumulator plus the complement of the
/// operand plus the carry.
pub open spec fn sbc_spec(m: Machine, mode: AddressMode) -> Machine {
    add_spec(m, mode, !operand(m, mode))
}

pub open spec fn and_spec(m: Machine, mode: AddressMode) -> Machine {
    accumulator_result(m, mode, m.reg.a & operand(m, mode))
}

pub open spec fn ora_spec(m: Machine, mode: AddressMode) -> Machine {
    accumulator_result(m, mode, m.reg.a | operand(m, mode))
}

pub open spec fn eor_spec(m: Machine, mode: AddressMode) -> Machine {
    accumulator_result(m, mode, m.reg.a ^ operand(m, mode))
}

pub open spec fn asl_spec(m: Machine, mode: AddressMode) -> Machine {
    let v = shift_input(m, mode);
    shift_output(m, mode, v << 1, v & 0x80 != 0)
}

pub open spec fn lsr_spec(m: Machine, mode: AddressMode) -> Machine {
    let v = shift_input(m, mode);
    shift_output(m, mode, v >> 1, v & 0x01 != 0)
}

pub open spec fn rol_spec(m: Machine, mode: AddressMode) -> Machine {
    let v = shift_input(m, mode);
    shift_output(m, mode, (v << 1) | carry_in(m.reg.p), v & 0x80 != 0)
}

pub open spec fn ror_spec(m: Machine, mode: AddressMode) -> Machine {
    let v = shift_input(m, mode);
    shift_output(m, mode, (v >> 1) | (carry_in(m.reg.p) << 7), v & 0x01 != 0)
}

/// Zero from the accumulator masked by the operand; Negative and Overflow
/// copy bits 7 and 6 of the operand.
pub open spec fn bit_spec(m: Machine, mode: AddressMode) -> Machine {
    let v = operand(m, mode);
    let p = set_flag(
        set_flag(set_flag(m.reg.p, ZERO, m.reg.a & v == 0), NEGATIVE, v & 0x80 != 0),
        OVERFLOW,
        v & 0x40 != 0,
    );
    m.with_reg(Registers { p: p, pc: next_pc(m, mode), ..m.reg })
}

pub open spec fn bcc_spec(m: Machine) -> Machine {
    branch_spec(m, !flag_of(m.reg.p, CARRY))
}

pub open spec fn bcs_spec(m: Machine) -> Machine {
    branch_spec(m, flag_of(m.reg.p, CARRY))
}

pub open spec fn beq_spec(m: Machine) -> Machine {
    branch_spec(m, flag_of(m.reg.p, ZERO))
}

pub open spec fn bne_spec(m: Machine) -> Machine {
    branch_spec(m, !flag_of(m.reg.p, ZERO))
}

pub open spec fn bmi_spec(m: Machine) -> Machine {
    branch_spec(m, flag_of(m.reg.p, NEGATIVE))
}

pub open spec fn bpl_spec(m: Machine) -> Machine {
    branch_spec(m, !flag_of(m.reg.p, NEGATIVE))
}

pub open spec fn bvc_spec(m: Machine) -> Machine {
    branch_spec(m, !flag_of(m.reg.p, OVERFLOW))
}

pub open spec fn bvs_spec(m: Machine) -> Machine {
    branch_spec(m, flag_of(m.reg.p, OVERFLOW))
}

/// Software interrupt: pushes the program counter and then the status byte,
/// sets Break, and continues at the address in the interrupt vector.
pub open spec fn brk_spec(m: Machine) -> Machine {
    let pushed = m.push_word(m.reg.pc).push(m.reg.p);
    pushed.with_reg(
        Registers {
            p: set_flag(m.reg.p, BREAK, true),
            pc: pushed.word(BRK_VECTOR),
            ..pushed.reg
        },
    )
}

/// Return from interrupt: pops the status byte and then the program counter.
pub open spec fn rti_spec(m: Machine) -> Machine {
    let after_p = m.popped();
    after_p.popped_word().with_reg(
        Registers { p: m.top(), pc: after_p.top_word(), ..after_p.popped_word().reg },
    )
}

/// Subroutine call: pushes the address of the last operand byte and jumps.
pub open spec fn jsr_spec(m: Machine, mode: AddressMode) -> Machine {
    let ret = next_pc(m, mode);
    m.with_pc(ret).push_word(ret.wrapping_sub(1)).with_pc(m.operand_address(mode))
}

/// Return from subroutine: pops a word and continues one byte after it.
pub open spec fn rts_spec(m: Machine) -> Machine {
    m.popped_word().with_pc(m.top_word().wrapping_add(1))
}

pub open spec fn jmp_spec(m: Machine, mode: AddressMode) -> Machine {
    m.with_pc(m.operand_address(mode))
}

pub open spec fn lda_spec(m: Machine, mode: AddressMode) -> Machine {
    accumulator_result(m, mode, operand(m, mode))
}

pub open spec fn ldx_spec(m: Machine, mode: AddressMode) -> Machine {
    let v = operand(m, mode);
    m.with_reg(Registers { x: v, p: with_zn(m.reg.p, v), pc: next_pc(m, mode), ..m.reg })
}

pub open spec fn ldy_spec(m: Machine, mode: AddressMode) -> Machine {
    let v = operand(m, mode);
    m.with_reg(Registers { y: v, p: with_zn(m.reg.p, v), pc: next_pc(m, mode), ..m.reg })
}

pub open spec fn sta_spec(m: Machine, mode: AddressMode) -> Machine {
    m.write(m.operand_address(mode), m.reg.a).with_pc(next_pc(m, mode))
}

pub open spec fn stx_spec(m: Machine, mode: AddressMode) -> Machine {
    m.write(m.operand_address(mode), m.reg.x).with_pc(next_pc(m, mode))
}

pub open spec fn sty_spec(m: Machine, mode: AddressMode) -> Machine {
    m.write(m.operand_address(mode), m.reg.y).with_pc(next_pc(m, mode))
}

pub open spec fn cmp_spec(m: Machine, mode: AddressMode) -> Machine {
    compare_spec(m, mode, m.reg.a)
}

pub open spec fn cpx_spec(m: Machine, mode: AddressMode) -> Machine {
    compare_spec(m, mode, m.reg.x)
}

pub open spec fn cpy_spec(m: Machine, mode: AddressMode) -> Machine {
    compare_spec(m, mode, m.reg.y)
}

pub open spec fn inc_spec(m: Machine, mode: AddressMode) -> Machine {
    memory_result(m, mode, operand(m, mode).wrapping_add(1))
}

pub open spec fn dec_spec(m: Machine, mode: AddressMode) -> Machine {
    memory_result(m, mode, operand(m, mode).wrapping_sub(1))
}

pub open spec fn inx_spec(m: Machine) -> Machine {
    let v = m.reg.x.wrapping_add(1);
    m.with_reg(Registers { x: v, p: with_zn(m.reg.p, v), ..m.reg })
}

pub open spec fn iny_spec(m: Machine) -> Machine {
    let v = m.reg.y.wrapping_add(1);
    m.with_reg(Registers { y: v, p: with_zn(m.reg.p, v), ..m.reg })
}

pub open spec fn dex_spec(m: Machine) -> Machine {
    let v = m.reg.x.wrapping_sub(1);
    m.with_reg(Registers { x: v, p: with_zn(m.reg.p, v), ..m.reg })
}

pub open spec fn dey_spec(m: Machine) -> Machine {
    let v = m.reg.y.wrapping_sub(1);
    m.with_reg(Registers { y: v, p: with_zn(m.reg.p, v), ..m.reg })
}

pub open spec fn tax_spec(m: Machine) -> Machine {
    m.with_reg(Registers { x: m.reg.a, p: with_zn(m.reg.p, m.reg.a), ..m.reg })
}

pub open spec fn tay_spec(m: Machine) -> Machine {
    m.with_reg(Registers { y: m.reg.a, p: with_zn(m.reg.p, m.reg.a), ..m.reg })
}

pub open spec fn tsx_spec(m: Machine) -> Machine {
    m.with_reg(Registers { x: m.reg.s, p: with_zn(m.reg.p, m.reg.s), ..m.reg })
}

pub open spec fn txa_spec(m: Machine) -> Machine {
    m.with_reg(Registers { a: m.reg.x, p: with_zn(m.reg.p, m.reg.x), ..m.reg })
}

pub open spec fn tya_spec(m: Machine) -> Machine {
    m.with_reg(Registers { a: m.reg.y, p: with_zn(m.reg.p, m.reg.y), ..m.reg })
}

pub open spec fn txs_spec(m: Machine) -> Machine {
    m.with_reg(Registers { s: m.reg.x, ..m.reg })
}

pub open spec fn pha_spec(m: Machine) -> Machine {
    m.push(m.reg.a)
}

pub open spec fn php_spec(m: Machine) -> Machine {
    m.push(m.reg.p)
}

pub open spec fn pla_spec(m: Machine) -> Machine {
    let v = m.top();
    m.popped().with_reg(Registers { a: v, p: with_zn(m.reg.p, v), ..m.popped().reg })
}

pub open spec fn plp_spec(m: Machine) -> Machine {
    m.popped().with_p(m.top())
}

pub open spec fn clc_spec(m: Machine) -> Machine {
    flag_spec(m, CARRY, false)
}

pub open spec fn sec_spec(m: Machine) -> Machine {
    flag_spec(m, CARRY, true)
}

pub open spec fn cli_spec(m: Machine) -> Machine {
    flag_spec(m, INTERRUPT_DISABLE, false)
}

pub open spec fn sei_spec(m: Machine) -> Machine {
    flag_spec(m, INTERRUPT_DISABLE, true)
}

pub open spec fn cld_spec(m: Machine) -> Machine {
    flag_spec(m, DECIMAL_MODE, false)
}

pub open spec fn sed_spec(m: Machine) -> Machine {
    flag_spec(m, DECIMAL_MODE, true)
}

pub open spec fn clv_spec(m: Machine) -> Machine {
    flag_spec(m, OVERFLOW, false)
}

pub open spec fn nop_spec(m: Machine) -> Machine {
    m
}

/// Effect of the instruction with opcode `opcode`, once the opcode byte has
/// been consumed. Opcodes without an instruction change nothing.
pub open spec fn execute_spec(m: Machine, opcode: u8) -> Machine {
    match opcode {
        0x00 => brk_spec(m),
        0x01 => ora_spec(m, AddressMode::IndirectX(1)),
        0x05 => ora_spec(m, AddressMode::ZeroPage(1)),
        0x06 => asl_spec(m, AddressMode::ZeroPage(1)),
        0x08 => php_spec(m),
        0x09 => ora_spec(m, AddressMode::Immediate(1)),
        0x0a => asl_spec(m, AddressMode::Accumulator),
        0x0d => ora_spec(m, AddressMode::Absolute(2)),
        0x0e => asl_spec(m, AddressMode::Absolute(2)),
        0x10 => bpl_spec(m),
        0x11 => ora_spec(m, AddressMode::IndirectY(1)),
        0x15 => ora_spec(m, AddressMode::ZeroPageX(1)),
        0x16 => asl_spec(m, AddressMode::ZeroPageX(1)),
        0x18 => clc_spec(m),
        0x19 => ora_spec(m, AddressMode::AbsoluteY(2)),
        0x1d => ora_spec(m, AddressMode::AbsoluteX(2)),
        0x1e => asl_spec(m, AddressMode::AbsoluteX(2)),
        0x20 => jsr_spec(m, AddressMode::Absolute(2)),
        0x21 => and_spec(m, AddressMode::IndirectX(1)),
        0x24 => bit_spec(m, AddressMode::ZeroPage(1)),
        0x25 => and_spec(m, AddressMode::ZeroPageX(1)),
        0x26 => rol_spec(m, AddressMode::ZeroPage(1)),
        0x28 => plp_spec(m),
        0x29 => and_spec(m, AddressMode::Immediate(1)),
        0x2a => rol_spec(m, AddressMode::Accumulator),
        0x2c => bit_spec(m, AddressMode::Absolute(2)),
        0x2d => and_spec(m, AddressMode::Absolute(2)),
        0x2e => rol_spec(m, AddressMode::Absolute(2)),
        0x30 => bmi_spec(m),
        0x31 => and_spec(m, AddressMode::IndirectY(1)),
        0x35 => and_spec(m, AddressMode::ZeroPageX(1)),
        0x36 => rol_spec(m, AddressMode::ZeroPageX(1)),
        0x38 => sec_spec(m),
        0x39 => and_spec(m, AddressMode::AbsoluteY(2)),
        0x3d => and_spec(m, AddressMode::AbsoluteX(2)),
        0x3e => rol_spec(m, AddressMode::AbsoluteX(2)),
        0x40 => rti_spec(m),
        0x41 => eor_spec(m, AddressMode::IndirectX(1)),
        0x45 => eor_spec(m, AddressMode::ZeroPage(1)),
        0x46 => lsr_spec(m, AddressMode::ZeroPage(1)),
        0x48 => pha_spec(m),
        0x49 => eor_spec(m, AddressMode::Immediate(1)),
        0x4a => lsr_spec(m, AddressMode::Accumulator),
        0x4c => jmp_spec(m, AddressMode::Absolute(2)),
        0x4d => eor_spec(m, AddressMode::Absolute(2)),
        0x4e => lsr_spec(m, AddressMode::Absolute(2)),
        0x50 => bvc_spec(m),
        0x51 => eor_spec(m, AddressMode::IndirectY(1)),
        0x55 => eor_spec(m, AddressMode::ZeroPageX(1)),
        0x56 => lsr_spec(m, AddressMode::ZeroPageX(1)),
        0x58 => cli_spec(m),
        0x59 => eor_spec(m, AddressMode::AbsoluteY(2)),
        0x5d => eor_spec(m, AddressMode::AbsoluteX(2)),
        0x5e => lsr_spec(m, AddressMode::AbsoluteX(2)),
        0x60 => rts_spec(m),
        0x61 => adc_spec(m, AddressMode::IndirectX(1)),
        0x65 => adc_spec(m, AddressMode::ZeroPage(1)),
        0x66 => ror_spec(m, AddressMode::ZeroPage(1)),
        0x68 => pla_spec(m),
        0x69 => adc_spec(m, AddressMode::Immediate(1)),
        0x6a => ror_spec(m, AddressMode::Accumulator),
        0x6c => jmp_spec(m, AddressMode::Indirect(2)),
        0x6d => adc_spec(m, AddressMode::Absolute(2)),
        0x6e => ror_spec(m, AddressMode::Absolute(2)),
        0x70 => bvs_spec(m),
        0x71 => adc_spec(m, AddressMode::IndirectY(1)),
        0x75 => adc_spec(m, AddressMode::ZeroPageX(1)),
        0x76 => ror_spec(m, AddressMode::ZeroPageX(1)),
        0x78 => sei_spec(m),
        0x79 => adc_spec(m, AddressMode::AbsoluteY(2)),
        0x7d => adc_spec(m, AddressMode::AbsoluteX(2)),
        0x7e => ror_spec(m, AddressMode::AbsoluteX(2)),
        0x81 => sta_spec(m, AddressMode::IndirectX(1)),
        0x84 => sty_spec(m, AddressMode::ZeroPage(1)),
        0x85 => sta_spec(m, AddressMode::ZeroPage(1)),
        0x86 => stx_spec(m, AddressMode::ZeroPage(1)),
        0x88 => dey_spec(m),
        0x8a => txa_spec(m),
        0x8c => sty_spec(m, AddressMode::Absolute(2)),
        0x8d => sta_spec(m, AddressMode::Absolute(2)),
        0x8e => stx_spec(m, AddressMode::Absolute(2)),
        0x90 => bcc_spec(m),
        0x91 => sta_spec(m, AddressMode::IndirectX(1)),
        0x94 => sty_spec(m, AddressMode::ZeroPageX(1)),
        0x95 => sta_spec(m, AddressMode::ZeroPageX(1)),
        0x96 => stx_spec(m, AddressMode::ZeroPageY(1)),
        0x98 => tya_spec(m),
        0x99 => sta_spec(m, AddressMode::AbsoluteY(2)),
        0x9a => txs_spec(m),
        0x9d => sta_spec(m, AddressMode::AbsoluteX(2)),
        0xa0 => ldy_spec(m, AddressMode::Immediate(1)),
        0xa1 => lda_spec(m, AddressMode::IndirectX(1)),
        0xa2 => ldx_spec(m, AddressMode::Immediate(1)),
        0xa4 => ldy_spec(m, AddressMode::ZeroPage(1)),
        0xa5 => lda_spec(m, AddressMode::ZeroPage(1)),
        0xa6 => ldx_spec(m, AddressMode::ZeroPage(1)),
        0xa8 => tay_spec(m),
        0xa9 => lda_spec(m, AddressMode::Immediate(1)),
        0xaa => tax_spec(m),
        0xac => ldy_spec(m, AddressMode::Absolute(2)),
        0xad => lda_spec(m, AddressMode::Absolute(2)),
        0xae => ldx_spec(m, AddressMode::Absolute(2)),
        0xb0 => bcs_spec(m),
        0xb1 => lda_spec(m, AddressMode::IndirectY(1)),
        0xb4 => ldy_spec(m, AddressMode::ZeroPageX(1)),
        0xb5 => lda_spec(m, AddressMode::ZeroPageX(1)),
        0xb6 => ldx_spec(m, AddressMode::ZeroPageX(1)),
        0xb8 => clv_spec(m),
        0xb9 => lda_spec(m, AddressMode::AbsoluteY(2)),
        0xba => tsx_spec(m),
        0xbc => ldy_spec(m, AddressMode::AbsoluteX(2)),
        0xbd => lda_spec(m, AddressMode::AbsoluteX(2)),
        0xbe => ldx_spec(m, AddressMode::AbsoluteX(2)),
        0xc0 => cpy_spec(m, AddressMode::Immediate(1)),
        0xc1 => cmp_spec(m, AddressMode::IndirectX(1)),
        0xc4 => cpy_spec(m, AddressMode::ZeroPage(1)),
        0xc5 => cmp_spec(m, AddressMode::ZeroPage(1)),
        0xc6 => dec_spec(m, AddressMode::ZeroPage(1)),
        0xc8 => iny_spec(m),
        0xc9 => cmp_spec(m, AddressMode::Immediate(1)),
        0xca => dex_spec(m),
        0xcc => cpy_spec(m, AddressMode::Absolute(2)),
        0xcd => cmp_spec(m, AddressMode::Absolute(2)),
        0xce => dec_spec(m, AddressMode::Absolute(2)),
        0xd0 => bne_spec(m),
        0xd1 => cmp_spec(m, AddressMode::IndirectY(1)),
        0xd5 => cmp_spec(m, AddressMode::ZeroPageX(1)),
        0xd6 => dec_spec(m, AddressMode::ZeroPageX(1)),
        0xd8 => cld_spec(m),
        0xd9 => cmp_spec(m, AddressMode::AbsoluteY(2)),
        0xdd => cmp_spec(m, AddressMode::AbsoluteX(2)),
        0xde => dec_spec(m, AddressMode::AbsoluteX(2)),
        0xe0 => cpx_spec(m, AddressMode::Immediate(1)),
        0xe1 => sbc_spec(m, AddressMode::IndirectX(1)),
        0xe4 => cpx_spec(m, AddressMode::ZeroPage(1)),
        0xe5 => sbc_spec(m, AddressMode::ZeroPage(1)),
        0xe6 => inc_spec(m, AddressMode::ZeroPage(1)),
        0xe8 => inx_spec(m),
        0xe9 => sbc_spec(m, AddressMode::Immediate(1)),
        0xec => cpx_spec(m, AddressMode::Absolute(2)),
        0xed => sbc_spec(m, AddressMode::Absolute(2)),
        0xee => inc_spec(m, AddressMode::Absolute(2)),
        0xf0 => beq_spec(m),
        0xf1 => sbc_spec(m, AddressMode::IndirectY(1)),
        0xf5 => sbc_spec(m, AddressMode::ZeroPageX(1)),
        0xf6 => inc_spec(m, AddressMode::ZeroPageX(1)),
        0xf8 => sed_spec(m),
        0xf9 => sbc_spec(m, AddressMode::AbsoluteX(2)),
        0xfd => sbc_spec(m, AddressMode::AbsoluteY(2)),
        0xfe => inc_spec(m, AddressMode::AbsoluteX(2)),
        _ => nop_spec(m),
    }
}

/// One fetch-decode-execute cycle.
pub open spec fn step(m: Machine) -> Machine {
    execute_spec(m.with_pc(m.reg.pc.wrapping_add(1)), m.byte(m.reg.pc))
}

// ---------------------------------------------------------------------------
// Helpers shared by the instruction handlers.
// ---------------------------------------------------------------------------

/// Two's complement of a byte, modulo 256.
fn twos_complement(value: u8) -> (r: u8)
    ensures
        r == (256 - value) % 256,
{
    assert(!value == 255 - value) by (bit_vector);
    (!value).wrapping_add(1)
}

/// Whether bit 7 of `value` is set.
fn is_negative(value: u8) -> (r: bool)
    ensures
        r == (value & 0x80 != 0),
        r == (value >= 0x80),
{
    assert((value & 0x80 == 0x80) == (value & 0x80 != 0)) by (bit_vector);
    assert((value & 0x80 != 0) == (value >= 0x80)) by (bit_vector);
    value & 0x80 == 0x80
}

/// Replaces bit `position` of `number` with `value`, which is 0 or 1.
fn replace_bit(number: &mut u8, position: u8, value: u8)
    requires
        position < 8,
        value <= 1,
    ensures
        *final(number) == set_flag(*old(number), position, value == 1),
{
    let mask: u8 = 1u8 << position;
    let n = *number;
    assert(value == 1 ==> (n & !mask) | (value << position) == n | mask) by (bit_vector)
        requires
            mask == 1u8 << position,
            position < 8,
    ;
    assert(value == 0 ==> (n & !mask) | (value << position) == n & !mask) by (bit_vector)
        requires
            position < 8,
    ;
    *number = (n & !mask) | (value << position);
}

/// The carry flag as 0 or 1.
fn carry_bit(reg: &Registers) -> (r: u8)
    ensures
        r == carry_in(reg.p),
        r <= 1,
{
    let p = reg.p;
    assert((p & 0x01) == (if p & (1u8 << 0u8) != 0 { 1u8 } else { 0u8 })) by (bit_vector);
    p & 0x01
}

/// Whether status bit `bit` is set.
fn flag_set(reg: &Registers, bit: u8) -> (r: bool)
    requires
        bit < 8,
    ensures
        r == flag_of(reg.p, bit),
{
    reg.p & (1u8 << bit) != 0
}

/// Recomputes Zero and Negative from `value`.
fn set_zero_negative(reg: &mut Registers, value: u8)
    ensures
        *final(reg) == (Registers { p: with_zn(old(reg).p, value), ..*old(reg) }),
{
    reg.update_flag(ZERO, value == 0);
    reg.update_flag(NEGATIVE, is_negative(value));
}

/// Moves the program counter past the operand bytes of `address_mode`.
fn consume_operand(cpu: &mut Cpu, address_mode: AddressMode)
    ensures
        final(cpu)@ == old(cpu)@.with_pc(next_pc(old(cpu)@, address_mode)),
{
    cpu.reg.pc = cpu.reg.pc.wrapping_add(address_mode.get_pc_increment());
}

/// Reads the operand byte that `address_mode` designates.
fn read_operand(cpu: &Cpu, address_mode: AddressMode) -> (r: u8)
    ensures
        r == operand(cpu@, address_mode),
{
    let address = cpu.get_address(address_mode);
    cpu.read_mem(address)
}

/// Reads the input of a shift or rotate.
fn shift_operand(cpu: &Cpu, address_mode: AddressMode) -> (r: u8)
    ensures
        r == shift_input(cpu@, address_mode),
{
    match address_mode {
        AddressMode::Accumulator => cpu.reg.a,
        _ => read_operand(cpu, address_mode),
    }
}

/// Stores the result of a shift or rotate and sets the flags.
fn store_shifted(cpu: &mut Cpu, address_mode: AddressMode, result: u8, carry: u8)
    requires
        carry <= 1,
    ensures
        final(cpu)@ == shift_output(old(cpu)@, address_mode, result, carry == 1),
{
    match address_mode {
        AddressMode::Accumulator => {
            cpu.reg.a = result;
        },
        _ => {
            let address = cpu.get_address(address_mode);
            cpu.write_mem(address, result);
        },
    }
    replace_bit(&mut cpu.reg.p, CARRY, carry);
    set_zero_negative(&mut cpu.reg, result);
    consume_operand(cpu, address_mode);
}

/// Loads `value` into the accumulator.
fn set_accumulator(cpu: &mut Cpu, address_mode: AddressMode, value: u8)
    ensures
        final(cpu)@ == accumulator_result(old(cpu)@, address_mode, value),
{
    cpu.reg.a = value;
    set_zero_negative(&mut cpu.reg, value);
    consume_operand(cpu, address_mode);
}

/// Adds `value` and the carry to the accumulator.
fn add_with_carry(cpu: &mut Cpu, address_mode: AddressMode, value: u8)
    ensures
        final(cpu)@ == add_spec(old(cpu)@, address_mode, value),
{
    let a = cpu.reg.a;
    let sum: u16 = a as u16 + value as u16 + carry_bit(&cpu.reg) as u16;
    let result = (sum % 256) as u8;
    let overflow = (a ^ result) & (value ^ result) & 0x80 != 0;
    cpu.reg.a = result;
    cpu.reg.update_flag(CARRY, sum > 0xff);
    cpu.reg.update_flag(OVERFLOW, overflow);
    set_zero_negative(&mut cpu.reg, result);
    consume_operand(cpu, address_mode);
}

/// Compares register value `register` with the operand.
fn compare(cpu: &mut Cpu, address_mode: AddressMode, register: u8)
    ensures
        final(cpu)@ == compare_spec(old(cpu)@, address_mode, register),
{
    let value = read_operand(cpu, address_mode);
    cpu.reg.update_flag(CARRY, register >= value);
    cpu.reg.update_flag(ZERO, register == value);
    cpu.reg.update_flag(NEGATIVE, is_negative(register.wrapping_sub(value)));
    consume_operand(cpu, address_mode);
}

/// Writes `value` to the memory operand.
fn set_memory(cpu: &mut Cpu, address_mode: AddressMode, value: u8)
    ensures
        final(cpu)@ == memory_result(old(cpu)@, address_mode, value),
{
    let address = cpu.get_address(address_mode);
    cpu.write_mem(address, value);
    set_zero_negative(&mut cpu.reg, value);
    consume_operand(cpu, address_mode);
}

/// Consumes the offset byte and, when `taken`, moves by its signed value.
fn branch(cpu: &mut Cpu, taken: bool)
    ensures
        final(cpu)@ == branch_spec(old(cpu)@, taken),
{
    let offset = cpu.read_mem(cpu.reg.pc);
    cpu.reg.pc = cpu.reg.pc.wrapping_add(1);
    if taken {
        if is_negative(offset) {
            cpu.reg.pc = cpu.reg.pc.wrapping_sub(twos_complement(offset) as u16);
        } else {
            cpu.reg.pc = cpu.reg.pc.wrapping_add(offset as u16);
        }
    }
}

// ---------------------------------------------------------------------------
// Instruction handlers.
// ---------------------------------------------------------------------------

fn adc(cpu: &mut Cpu, address_mode: AddressMode)
    ensures
        final(cpu)@ == adc_spec(old(cpu)@, address_mode),
{
    let value = read_operand(cpu, address_mode);
    add_with_carry(cpu, address_mode, value);
}

fn sbc(cpu: &mut Cpu, address_mode: AddressMode)
    ensures
        final(cpu)@ == sbc_spec(old(cpu)@, address_mode),
{
    let value = read_operand(cpu, address_mode);
    add_with_carry(cpu, address_mode, !value);
}

fn and(cpu: &mut Cpu, address_mode: AddressMode)
    ensures
        final(cpu)@ == and_spec(old(cpu)@, address_mode),
{
    let value = read_operand(cpu, address_mode);
    set_accumulator(cpu, address_mode, cpu.reg.a & value);
}

fn ora(cpu: &mut Cpu, address_mode: AddressMode)
    ensures
        final(cpu)@ == ora_spec(old(cpu)@, address_mode),
{
    let value = read_operand(cpu, address_mode);
    set_accumulator(cpu, address_mode, cpu.reg.a | value);
}

fn eor(cpu: &mut Cpu, address_mode: AddressMode)
    ensures
        final(cpu)@ == eor_spec(old(cpu)@, address_mode),
{
    let value = read_operand(cpu, address_mode);
    set_accumulator(cpu, address_mode, cpu.reg.a ^ value);
}

fn asl(cpu: &mut Cpu, address_mode: AddressMode)
    ensures
        final(cpu)@ == asl_spec(old(cpu)@, address_mode),
{
    let value = shift_operand(cpu, address_mode);
    let bit_7 = (value & 0x80) >> 7;
    assert(bit_7 <= 1 && (bit_7 == 1) == (value & 0x80 != 0)) by (bit_vector)
        requires
            bit_7 == (value & 0x80) >> 7,
    ;
    store_shifted(cpu, address_mode, value << 1, bit_7);
}

fn lsr(cpu: &mut Cpu, address_mode: AddressMode)
    ensures
        final(cpu)@ == lsr_spec(old(cpu)@, address_mode),
{
    let value = shift_operand(cpu, address_mode);
    let bit_0 = value & 0x01;
    assert(bit_0 <= 1 && (bit_0 == 1) == (value & 0x01 != 0)) by (bit_vector)
        requires
            bit_0 == value & 0x01,
    ;
    store_shifted(cpu, address_mode, value >> 1, bit_0);
}

fn rol(cpu: &mut Cpu, address_mode: AddressMode)
    ensures
        final(cpu)@ == rol_spec(old(cpu)@, address_mode),
{
    let value = shift_operand(cpu, address_mode);
    let carry = carry_bit(&cpu.reg);
    let bit_7 = (value & 0x80) >> 7;
    assert(bit_7 <= 1 && (bit_7 == 1) == (value & 0x80 != 0)) by (bit_vector)
        requires
            bit_7 == (value & 0x80) >> 7,
    ;
    store_shifted(cpu, address_mode, (value << 1) | carry, bit_7);
}

fn ror(cpu: &mut Cpu, address_mode: AddressMode)
    ensures
        final(cpu)@ == ror_spec(old(cpu)@, address_mode),
{
    let value = shift_operand(cpu, address_mode);
    let carry = carry_bit(&cpu.reg);
    let bit_0 = value & 0x01;
    assert(bit_0 <= 1 && (bit_0 == 1) == (value & 0x01 != 0)) by (bit_vector)
        requires
            bit_0 == value & 0x01,
    ;
    store_shifted(cpu, address_mode, (value >> 1) | (carry << 7), bit_0);
}

fn bit(cpu: &mut Cpu, address_mode: AddressMode)
    ensures
        final(cpu)@ == bit_spec(old(cpu)@, address_mode),
{
    let value = read_operand(cpu, address_mode);
    cpu.reg.update_flag(ZERO, cpu.reg.a & value == 0);
    cpu.reg.update_flag(NEGATIVE, is_negative(value));
    cpu.reg.update_flag(OVERFLOW, value & 0x40 != 0);
    consume_operand(cpu, address_mode);
}

fn bcc(cpu: &mut Cpu)
    ensures
        final(cpu)@ == bcc_spec(old(cpu)@),
{
    let taken = !flag_set(&cpu.reg, CARRY);
    branch(cpu, taken);
}

fn bcs(cpu: &mut Cpu)
    ensures
        final(cpu)@ == bcs_spec(old(cpu)@),
{
    let taken = flag_set(&cpu.reg, CARRY);
    branch(cpu, taken);
}

fn beq(cpu: &mut Cpu)
    ensures
        final(cpu)@ == beq_spec(old(cpu)@),
{
    let taken = flag_set(&cpu.reg, ZERO);
    branch(cpu, taken);
}

fn bne(cpu: &mut Cpu)
    ensures
        final(cpu)@ == bne_spec(old(cpu)@),
{
    let taken = !flag_set(&cpu.reg, ZERO);
    branch(cpu, taken);
}

fn bmi(cpu: &mut Cpu)
    ensures
        final(cpu)@ == bmi_spec(old(cpu)@),
{
    let taken = flag_set(&cpu.reg, NEGATIVE);
    branch(cpu, taken);
}

fn bpl(cpu: &mut Cpu)
    ensures
        final(cpu)@ == bpl_spec(old(cpu)@),
{
    let taken = !flag_set(&cpu.reg, NEGATIVE);
    branch(cpu, taken);
}

fn bvc(cpu: &mut Cpu)
    ensures
        final(cpu)@ == bvc_spec(old(cpu)@),
{
    let taken = !flag_set(&cpu.reg, OVERFLOW);
    branch(cpu, taken);
}

fn bvs(cpu: &mut Cpu)
    ensures
        final(cpu)@ == bvs_spec(old(cpu)@),
{
    let taken = flag_set(&cpu.reg, OVERFLOW);
    branch(cpu, taken);
}

fn brk(cpu: &mut Cpu)
    ensures
        final(cpu)@ == brk_spec(old(cpu)@),
{
    cpu.push_stack_u16(cpu.reg.pc);
    cpu.push_stack(cpu.reg.p);
    cpu.reg.enable_flag(Flag::Break);
    cpu.reg.pc = cpu.read_mem_u16(BRK_VECTOR);
}

fn rti(cpu: &mut Cpu)
    ensures
        final(cpu)@ == rti_spec(old(cpu)@),
{
    cpu.reg.p = cpu.pop_stack();
    cpu.reg.pc = cpu.pop_stack_u16();
}

fn jsr(cpu: &mut Cpu, address_mode: AddressMode)
    ensures
        final(cpu)@ == jsr_spec(old(cpu)@, address_mode),
{
    let address = cpu.get_address(address_mode);
    consume_operand(cpu, address_mode);
    cpu.push_stack_u16(cpu.reg.pc.wrapping_sub(1));
    cpu.reg.pc = address;
}

fn rts(cpu: &mut Cpu)
    ensures
        final(cpu)@ == rts_spec(old(cpu)@),
{
    cpu.reg.pc = cpu.pop_stack_u16().wrapping_add(1);
}

fn jmp(cpu: &mut Cpu, address_mode: AddressMode)
    ensures
        final(cpu)@ == jmp_spec(old(cpu)@, address_mode),
{
    cpu.reg.pc = cpu.get_address(address_mode);
}

fn lda(cpu: &mut Cpu, address_mode: AddressMode)
    ensures
        final(cpu)@ == lda_spec(old(cpu)@, address_mode),
{
    let value = read_operand(cpu, address_mode);
    set_accumulator(cpu, address_mode, value);
}

fn ldx(cpu: &mut Cpu, address_mode: AddressMode)
    ensures
        final(cpu)@ == ldx_spec(old(cpu)@, address_mode),
{
    let value = read_operand(cpu, address_mode);
    cpu.reg.x = value;
    set_zero_negative(&mut cpu.reg, value);
    consume_operand(cpu, address_mode);
}

fn ldy(cpu: &mut Cpu, address_mode: AddressMode)
    ensures
        final(cpu)@ == ldy_spec(old(cpu)@, address_mode),
{
    let value = read_operand(cpu, address_mode);
    cpu.reg.y = value;
    set_zero_negative(&mut cpu.reg, value);
    consume_operand(cpu, address_mode);
}

fn sta(cpu: &mut Cpu, address_mode: AddressMode)
    ensures
        final(cpu)@ == sta_spec(old(cpu)@, address_mode),
{
    let address = cpu.get_address(address_mode);
    cpu.write_mem(address, cpu.reg.a);
    consume_operand(cpu, address_mode);
}

fn stx(cpu: &mut Cpu, address_mode: AddressMode)
    ensures
        final(cpu)@ == stx_spec(old(cpu)@, address_mode),
{
    let address = cpu.get_address(address_mode);
    cpu.write_mem(address, cpu.reg.x);
    consume_operand(cpu, address_mode);
}

fn sty(cpu: &mut Cpu, address_mode: AddressMode)
    ensures
        final(cpu)@ == sty_spec(old(cpu)@, address_mode),
{
    let address = cpu.get_address(address_mode);
    cpu.write_mem(address, cpu.reg.y);
    consume_operand(cpu, address_mode);
}

fn cmp(cpu: &mut Cpu, address_mode: AddressMode)
    ensures
        final(cpu)@ == cmp_spec(old(cpu)@, address_mode),
{
    compare(cpu, address_mode, cpu.reg.a);
}

fn cpx(cpu: &mut Cpu, address_mode: AddressMode)
    ensures
        final(cpu)@ == cpx_spec(old(cpu)@, address_mode),
{
    compare(cpu, address_mode, cpu.reg.x);
}

fn cpy(cpu: &mut Cpu, address_mode: AddressMode)
    ensures
        final(cpu)@ == cpy_spec(old(cpu)@, address_mode),
{
    compare(cpu, address_mode, cpu.reg.y);
}

fn inc(cpu: &mut Cpu, address_mode: AddressMode)
    ensures
        final(cpu)@ == inc_spec(old(cpu)@, address_mode),
{
    let value = read_operand(cpu, address_mode);
    set_memory(cpu, address_mode, value.wrapping_add(1));
}

fn dec(cpu: &mut Cpu, address_mode: AddressMode)
    ensures
        final(cpu)@ == dec_spec(old(cpu)@, address_mode),
{
    let value = read_operand(cpu, address_mode);
    set_memory(cpu, address_mode, value.wrapping_sub(1));
}

fn inx(cpu: &mut Cpu)
    ensures
        final(cpu)@ == inx_spec(old(cpu)@),
{
    let value = cpu.reg.x.wrapping_add(1);
    cpu.reg.x = value;
    set_zero_negative(&mut cpu.reg, value);
}

fn iny(cpu: &mut Cpu)
    ensures
        final(cpu)@ == iny_spec(old(cpu)@),
{
    let value = cpu.reg.y.wrapping_add(1);
    cpu.reg.y = value;
    set_zero_negative(&mut cpu.reg, value);
}

fn dex(cpu: &mut Cpu)
    ensures
        final(cpu)@ == dex_spec(old(cpu)@),
{
    let value = cpu.reg.x.wrapping_sub(1);
    cpu.reg.x = value;
    set_zero_negative(&mut cpu.reg, value);
}

fn dey(cpu: &mut Cpu)
    ensures
        final(cpu)@ == dey_spec(old(cpu)@),
{
    let value = cpu.reg.y.wrapping_sub(1);
    cpu.reg.y = value;
    set_zero_negative(&mut cpu.reg, value);
}

fn tax(cpu: &mut Cpu)
    ensures
        final(cpu)@ == tax_spec(old(cpu)@),
{
    let value = cpu.reg.a;
    cpu.reg.x = value;
    set_zero_negative(&mut cpu.reg, value);
}

fn tay(cpu: &mut Cpu)
    ensures
        final(cpu)@ == tay_spec(old(cpu)@),
{
    let value = cpu.reg.a;
    cpu.reg.y = value;
    set_zero_negative(&mut cpu.reg, value);
}

fn tsx(cpu: &mut Cpu)
    ensures
        final(cpu)@ == tsx_spec(old(cpu)@),
{
    let value = cpu.reg.s;
    cpu.reg.x = value;
    set_zero_negative(&mut cpu.reg, value);
}

fn txa(cpu: &mut Cpu)
    ensures
        final(cpu)@ == txa_spec(old(cpu)@),
{
    let value = cpu.reg.x;
    cpu.reg.a = value;
    set_zero_negative(&mut cpu.reg, value);
}

fn tya(cpu: &mut Cpu)
    ensures
        final(cpu)@ == tya_spec(old(cpu)@),
{
    let value = cpu.reg.y;
    cpu.reg.a = value;
    set_zero_negative(&mut cpu.reg, value);
}

fn txs(cpu: &mut Cpu)
    ensures
        final(cpu)@ == txs_spec(old(cpu)@),
{
    cpu.reg.s = cpu.reg.x;
}

fn pha(cpu: &mut Cpu)
    ensures
        final(cpu)@ == pha_spec(old(cpu)@),
{
    cpu.push_stack(cpu.reg.a);
}

fn php(cpu: &mut Cpu)
    ensures
        final(cpu)@ == php_spec(old(cpu)@),
{
    cpu.push_stack(cpu.reg.p);
}

fn pla(cpu: &mut Cpu)
    ensures
        final(cpu)@ == pla_spec(old(cpu)@),
{
    let value = cpu.pop_stack();
    cpu.reg.a = value;
    set_zero_negative(&mut cpu.reg, value);
}

fn plp(cpu: &mut Cpu)
    ensures
        final(cpu)@ == plp_spec(old(cpu)@),
{
    cpu.reg.p = cpu.pop_stack();
}

fn clc(cpu: &mut Cpu)
    ensures
        final(cpu)@ == clc_spec(old(cpu)@),
{
    cpu.reg.disable_flag(Flag::Carry);
}

fn sec(cpu: &mut Cpu)
    ensures
        final(cpu)@ == sec_spec(old(cpu)@),
{
    cpu.reg.enable_flag(Flag::Carry);
}

fn cli(cpu: &mut Cpu)
    ensures
        final(cpu)@ == cli_spec(old(cpu)@),
{
    cpu.reg.disable_flag(Flag::InterruptDisable);
}

fn sei(cpu: &mut Cpu)
    ensures
        final(cpu)@ == sei_spec(old(cpu)@),
{
    cpu.reg.enable_flag(Flag::InterruptDisable);
}

fn cld(cpu: &mut Cpu)
    ensures
        final(cpu)@ == cld_spec(old(cpu)@),
{
    cpu.reg.disable_flag(Flag::DecimalMode);
}

fn sed(cpu: &mut Cpu)
    ensures
        final(cpu)@ == sed_spec(old(cpu)@),
{
    cpu.reg.enable_flag(Flag::DecimalMode);
}

fn clv(cpu: &mut Cpu)
    ensures
        final(cpu)@ == clv_spec(old(cpu)@),
{
    cpu.reg.disable_flag(Flag::Overflow);
}

fn nop(cpu: &mut Cpu)
    ensures
        final(cpu)@ == nop_spec(old(cpu)@),
{
}

impl Cpu {
    /// Runs the handler that the opcode selects, with its addressing mode.
    /// Opcodes without an instruction run the no-op handler.
    pub(crate) fn execute(&mut self, opcode: u8)
        ensures
            final(self)@ == execute_spec(old(self)@, opcode),
    {
        match opcode {
            0x00 => brk(self),
            0x01 => ora(self, AddressMode::IndirectX(1)),
            0x05 => ora(self, AddressMode::ZeroPage(1)),
            0x06 => asl(self, AddressMode::ZeroPage(1)),
            0x08 => php(self),
            0x09 => ora(self, AddressMode::Immediate(1)),
            0x0a => asl(self, AddressMode::Accumulator),
            0x0d => ora(self, AddressMode::Absolute(2)),
            0x0e => asl(self, AddressMode::Absolute(2)),
            0x10 => bpl(self),
            0x11 => ora(self, AddressMode::IndirectY(1)),
            0x15 => ora(self, AddressMode::ZeroPageX(1)),
            0x16 => asl(self, AddressMode::ZeroPageX(1)),
            0x18 => clc(self),
            0x19 => ora(self, AddressMode::AbsoluteY(2)),
            0x1d => ora(self, AddressMode::AbsoluteX(2)),
            0x1e => asl(self, AddressMode::AbsoluteX(2)),
            0x20 => jsr(self, AddressMode::Absolute(2)),
            0x21 => and(self, AddressMode::IndirectX(1)),
            0x24 => bit(self, AddressMode::ZeroPage(1)),
            0x25 => and(self, AddressMode::ZeroPageX(1)),
            0x26 => rol(self, AddressMode::ZeroPage(1)),
            0x28 => plp(self),
            0x29 => and(self, AddressMode::Immediate(1)),
            0x2a => rol(self, AddressMode::Accumulator),
            0x2c => bit(self, AddressMode::Absolute(2)),
            0x2d => and(self, AddressMode::Absolute(2)),
            0x2e => rol(self, AddressMode::Absolute(2)),
            0x30 => bmi(self),
            0x31 => and(self, AddressMode::IndirectY(1)),
            0x35 => and(self, AddressMode::ZeroPageX(1)),
            0x36 => rol(self, AddressMode::ZeroPageX(1)),
            0x38 => sec(self),
            0x39 => and(self, AddressMode::AbsoluteY(2)),
            0x3d => and(self, AddressMode::AbsoluteX(2)),
            0x3e => rol(self, AddressMode::AbsoluteX(2)),
            0x40 => rti(self),
            0x41 => eor(self, AddressMode::IndirectX(1)),
            0x45 => eor(self, AddressMode::ZeroPage(1)),
            0x46 => lsr(self, AddressMode::ZeroPage(1)),
            0x48 => pha(self),
            0x49 => eor(self, AddressMode::Immediate(1)),
            0x4a => lsr(self, AddressMode::Accumulator),
            0x4c => jmp(self, AddressMode::Absolute(2)),
            0x4d => eor(self, AddressMode::Absolute(2)),
            0x4e => lsr(self, AddressMode::Absolute(2)),
            0x50 => bvc(self),
            0x51 => eor(self, AddressMode::IndirectY(1)),
            0x55 => eor(self, AddressMode::ZeroPageX(1)),
            0x56 => lsr(self, AddressMode::ZeroPageX(1)),
            0x58 => cli(self),
            0x59 => eor(self, AddressMode::AbsoluteY(2)),
            0x5d => eor(self, AddressMode::AbsoluteX(2)),
            0x5e => lsr(self, AddressMode::AbsoluteX(2)),
            0x60 => rts(self),
            0x61 => adc(self, AddressMode::IndirectX(1)),
            0x65 => adc(self, AddressMode::ZeroPage(1)),
            0x66 => ror(self, AddressMode::ZeroPage(1)),
            0x68 => pla(self),
            0x69 => adc(self, AddressMode::Immediate(1)),
            0x6a => ror(self, AddressMode::Accumulator),
            0x6c => jmp(self, AddressMode::Indirect(2)),
            0x6d => adc(self, AddressMode::Absolute(2)),
            0x6e => ror(self, AddressMode::Absolute(2)),
            0x70 => bvs(self),
            0x71 => adc(self, AddressMode::IndirectY(1)),
            0x75 => adc(self, AddressMode::ZeroPageX(1)),
            0x76 => ror(self, AddressMode::ZeroPageX(1)),
            0x78 => sei(self),
            0x79 => adc(self, AddressMode::AbsoluteY(2)),
            0x7d => adc(self, AddressMode::AbsoluteX(2)),
            0x7e => ror(self, AddressMode::AbsoluteX(2)),
            0x81 => sta(self, AddressMode::IndirectX(1)),
            0x84 => sty(self, AddressMode::ZeroPage(1)),
            0x85 => sta(self, AddressMode::ZeroPage(1)),
            0x86 => stx(self, AddressMode::ZeroPage(1)),
            0x88 => dey(self),
            0x8a => txa(self),
            0x8c => sty(self, AddressMode::Absolute(2)),
            0x8d => sta(self, AddressMode::Absolute(2)),
            0x8e => stx(self, AddressMode::Absolute(2)),
            0x90 => bcc(self),
            0x91 => sta(self, AddressMode::IndirectX(1)),
            0x94 => sty(self, AddressMode::ZeroPageX(1)),
            0x95 => sta(self, AddressMode::ZeroPageX(1)),
            0x96 => stx(self, AddressMode::ZeroPageY(1)),
            0x98 => tya(self),
            0x99 => sta(self, AddressMode::AbsoluteY(2)),
            0x9a => txs(self),
            0x9d => sta(self, AddressMode::AbsoluteX(2)),
            0xa0 => ldy(self, AddressMode::Immediate(1)),
            0xa1 => lda(self, AddressMode::IndirectX(1)),
            0xa2 => ldx(self, AddressMode::Immediate(1)),
            0xa4 => ldy(self, AddressMode::ZeroPage(1)),
            0xa5 => lda(self, AddressMode::ZeroPage(1)),
            0xa6 => ldx(self, AddressMode::ZeroPage(1)),
            0xa8 => tay(self),
            0xa9 => lda(self, AddressMode::Immediate(1)),
            0xaa => tax(self),
            0xac => ldy(self, AddressMode::Absolute(2)),
            0xad => lda(self, AddressMode::Absolute(2)),
            0xae => ldx(self, AddressMode::Absolute(2)),
            0xb0 => bcs(self),
            0xb1 => lda(self, AddressMode::IndirectY(1)),
            0xb4 => ldy(self, AddressMode::ZeroPageX(1)),
            0xb5 => lda(self, AddressMode::ZeroPageX(1)),
            0xb6 => ldx(self, AddressMode::ZeroPageX(1)),
            0xb8 => clv(self),
            0xb9 => lda(self, AddressMode::AbsoluteY(2)),
            0xba => tsx(self),
            0xbc => ldy(self, AddressMode::AbsoluteX(2)),
            0xbd => lda(self, AddressMode::AbsoluteX(2)),
            0xbe => ldx(self, AddressMode::AbsoluteX(2)),
            0xc0 => cpy(self, AddressMode::Immediate(1)),
            0xc1 => cmp(self, AddressMode::IndirectX(1)),
            0xc4 => cpy(self, AddressMode::ZeroPage(1)),
            0xc5 => cmp(self, AddressMode::ZeroPage(1)),
            0xc6 => dec(self, AddressMode::ZeroPage(1)),
            0xc8 => iny(self),
            0xc9 => cmp(self, AddressMode::Immediate(1)),
            0xca => dex(self),
            0xcc => cpy(self, AddressMode::Absolute(2)),
            0xcd => cmp(self, AddressMode::Absolute(2)),
            0xce => dec(self, AddressMode::Absolute(2)),
            0xd0 => bne(self),
            0xd1 => cmp(self, AddressMode::IndirectY(1)),
            0xd5 => cmp(self, AddressMode::ZeroPageX(1)),
            0xd6 => dec(self, AddressMode::ZeroPageX(1)),
            0xd8 => cld(self),
            0xd9 => cmp(self, AddressMode::AbsoluteY(2)),
            0xdd => cmp(self, AddressMode::AbsoluteX(2)),
            0xde => dec(self, AddressMode::AbsoluteX(2)),
            0xe0 => cpx(self, AddressMode::Immediate(1)),
            0xe1 => sbc(self, AddressMode::IndirectX(1)),
            0xe4 => cpx(self, AddressMode::ZeroPage(1)),
            0xe5 => sbc(self, AddressMode::ZeroPage(1)),
            0xe6 => inc(self, AddressMode::ZeroPage(1)),
            0xe8 => inx(self),
            0xe9 => sbc(self, AddressMode::Immediate(1)),
            0xec => cpx(self, AddressMode::Absolute(2)),
            0xed => sbc(self, AddressMode::Absolute(2)),
            0xee => inc(self, AddressMode::Absolute(2)),
            0xf0 => beq(self),
            0xf1 => sbc(self, AddressMode::IndirectY(1)),
            0xf5 => sbc(self, AddressMode::ZeroPageX(1)),
            0xf6 => inc(self, AddressMode::ZeroPageX(1)),
            0xf8 => sed(self),
            0xf9 => sbc(self, AddressMode::AbsoluteX(2)),
            0xfd => sbc(self, AddressMode::AbsoluteY(2)),
            0xfe => inc(self, AddressMode::AbsoluteX(2)),
            _ => nop(self),
        }
    }
}

} // verus!
