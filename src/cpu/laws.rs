use vstd::prelude::*;

use crate::cpu::instructions::{signed_offset, step};
use crate::cpu::registers::{flag_of, lemma_set_flag, set_flag, NEGATIVE, ZERO};
use crate::cpu::{le_word, stack_slot, Machine};

verus! {

/// Loading any byte `v` with the immediate-mode accumulator load leaves `v`
/// in the accumulator, sets Zero exactly when `v` is zero and Negative exactly
/// when bit 7 of `v` is set, and moves past the two instruction bytes.
pub proof fn lemma_load_immediate(m: Machine, v: u8)
    requires
        m.wf(),
        m.byte(m.reg.pc) == 0xa9,
        m.byte(m.reg.pc.wrapping_add(1)) == v,
    ensures
        step(m).reg.a == v,
        flag_of(step(m).reg.p, ZERO) == (v == 0),
        flag_of(step(m).reg.p, NEGATIVE) == (v & 0x80 != 0),
        step(m).reg.pc == m.reg.pc.wrapping_add(2),
{
    let p1 = set_flag(m.reg.p, ZERO, v == 0);
    lemma_set_flag(m.reg.p, ZERO, v == 0);
    lemma_set_flag(p1, NEGATIVE, v & 0x80 != 0);
}

/// Storing the accumulator to a zero-page address and loading that address
/// straight back returns the accumulator's value, provided the store does not
/// overwrite the bytes of the load instruction itself.
pub proof fn lemma_store_load_round_trip(m: Machine, zp: u8)
    requires
        m.wf(),
        m.byte(m.reg.pc) == 0x85,
        m.byte(m.reg.pc.wrapping_add(1)) == zp,
        m.byte(m.reg.pc.wrapping_add(2)) == 0xa5,
        m.byte(m.reg.pc.wrapping_add(3)) == zp,
        zp as u16 != m.reg.pc.wrapping_add(2),
        zp as u16 != m.reg.pc.wrapping_add(3),
    ensures
        step(step(m)).reg.a == m.reg.a,
        step(step(m)).reg.pc == m.reg.pc.wrapping_add(4),
{
    let m1 = step(m);
    assert(m1.reg.pc == m.reg.pc.wrapping_add(2));
    assert(m1.byte(m1.reg.pc) == 0xa5);
    assert(m1.byte(m1.reg.pc.wrapping_add(1)) == zp);
    assert(m1.byte(zp as u16) == m.reg.a);
}

/// Popping right after pushing `v` returns `v` and puts every register,
/// the stack pointer included, back as it was before the push.
pub proof fn lemma_push_pop(m: Machine, v: u8)
    requires
        m.wf(),
    ensures
        m.push(v).top() == v,
        m.push(v).popped().reg == m.reg,
{
}

/// Popping a word right after pushing `w` returns `w` and restores the registers.
pub proof fn lemma_push_pop_word(m: Machine, w: u16)
    requires
        m.wf(),
    ensures
        m.push_word(w).top_word() == w,
        m.push_word(w).popped_word().reg == m.reg,
{
    let s = m.reg.s;
    assert(stack_slot(s) != stack_slot(s.wrapping_sub(1)));
}

/// A subroutine call followed by a return at its target continues at the
/// byte right after the three-byte call instruction, with the stack pointer
/// restored, provided the two stack slots the call writes do not hold the
/// return instruction.
pub proof fn lemma_call_return(m: Machine)
    requires
        m.wf(),
        m.byte(m.reg.pc) == 0x20,
        m.byte(le_word(m.byte(m.reg.pc.wrapping_add(1)), m.byte(m.reg.pc.wrapping_add(2))))
            == 0x60,
        le_word(m.byte(m.reg.pc.wrapping_add(1)), m.byte(m.reg.pc.wrapping_add(2))) != stack_slot(
            m.reg.s,
        ),
        le_word(m.byte(m.reg.pc.wrapping_add(1)), m.byte(m.reg.pc.wrapping_add(2))) != stack_slot(
            m.reg.s.wrapping_sub(1),
        ),
    ensures
        step(step(m)).reg.pc == m.reg.pc.wrapping_add(3),
        step(step(m)).reg.s == m.reg.s,
{
    let target = le_word(m.byte(m.reg.pc.wrapping_add(1)), m.byte(m.reg.pc.wrapping_add(2)));
    let m1 = step(m);
    let ret = m.reg.pc.wrapping_add(3).wrapping_sub(1);
    lemma_push_pop_word(m.with_pc(m.reg.pc.wrapping_add(3)), ret);
    assert(m1.reg.pc == target);
    assert(m1.byte(target) == 0x60);
}

/// A call at 0x8000 to 0x8050 followed by a return there continues at 0x8003.
pub proof fn lemma_call_return_at_program_start(m: Machine)
    requires
        m.wf(),
        m.reg.pc == 0x8000,
        m.byte(0x8000) == 0x20,
        m.byte(0x8001) == 0x50,
        m.byte(0x8002) == 0x80,
        m.byte(0x8050) == 0x60,
    ensures
        step(step(m)).reg.pc == 0x8003,
{
    lemma_call_return(m);
}

/// The indirect jump at 0x81fe takes the high byte of its target from 0x8100,
/// the start of the same page, rather than from 0x8200.
pub proof fn lemma_indirect_jump_page_wrap(m: Machine)
    requires
        m.wf(),
        m.reg.pc == 0x81fe,
        m.byte(0x81fe) == 0x6c,
        m.byte(0x81ff) == 0x00,
        m.byte(0x8100) == 0x90,
    ensures
        step(m).reg.pc == 0x9000,
{
    assert((0x81ffu16 & 0xff00u16) | (0x81ffu16.wrapping_add(1) & 0x00ffu16) == 0x8100u16)
        by (bit_vector);
}

/// A taken "branch if positive" moves the program counter by the signed value
/// of its offset byte, counted from the byte after the instruction and modulo
/// the address space.
pub proof fn lemma_branch_if_positive(m: Machine)
    requires
        m.wf(),
        m.byte(m.reg.pc) == 0x10,
        !flag_of(m.reg.p, NEGATIVE),
    ensures
        step(m).reg.pc as int == (m.reg.pc + 2 + signed_offset(m.byte(m.reg.pc.wrapping_add(1))))
            % 0x10000,
{
}

/// At 0x8000, a taken "branch if positive" with offset 0x64 lands on 0x8066
/// and with offset 0x9c, that is -100, on 0x7f9e.
pub proof fn lemma_branch_if_positive_at_program_start(m: Machine)
    requires
        m.wf(),
        m.reg.pc == 0x8000,
        m.byte(0x8000) == 0x10,
        !flag_of(m.reg.p, NEGATIVE),
    ensures
        m.byte(0x8001) == 0x64 ==> step(m).reg.pc == 0x8066,
        m.byte(0x8001) == 0x9c ==> step(m).reg.pc == 0x7f9e,
{
    lemma_branch_if_positive(m);
}

/// Running "load 0xc0 into the accumulator, copy it to X, increment X" from
/// 0x8000 leaves 0xc1 in X and the program counter at 0x8004, on the
/// software-interrupt opcode that follows.
pub proof fn lemma_load_transfer_increment(m: Machine)
    requires
        m.wf(),
        m.reg.pc == 0x8000,
        m.byte(0x8000) == 0xa9,
        m.byte(0x8001) == 0xc0,
        m.byte(0x8002) == 0xaa,
        m.byte(0x8003) == 0xe8,
        m.byte(0x8004) == 0x00,
    ensures
        step(step(step(m))).reg.x == 0xc1,
        step(step(step(m))).reg.pc == 0x8004,
        step(step(step(m))).byte(step(step(step(m))).reg.pc) == 0x00,
{
    let m1 = step(m);
    assert(m1.reg.a == 0xc0 && m1.reg.pc == 0x8002);
    let m2 = step(m1);
    assert(m2.reg.x == 0xc0 && m2.reg.pc == 0x8003);
}

} // verus!
