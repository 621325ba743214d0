//! Properties that hold of every instruction and every state of the model.
use crate::flags::{
    is_set, lemma_with_flag, with_flag, with_zn, BREAK, BREAK2, CARRY, DECIMAL_MODE,
    INTERRUPT_DISABLE, NEGATIV, OVERFLOW, ZERO,
};
use crate::machine::{
    add16, add8, add_to_a, adc_overflow, adc_result, adc_sum, carry_in, execute, operand,
    pop16_value, pop_value, popped, popped16, push, push16, rd, shifted, step, valid, Machine,
};
use crate::opcodes::{opcode_table, Mnemonic, OpCode};
use vstd::prelude::*;

verus! {

/// ZERO and NEGATIVE read back from `with_zn` as the result's zero test and
/// bit 7, and CARRY and OVERFLOW are left alone.
pub proof fn lemma_with_zn(p: u8, r: u8)
    ensures
        is_set(with_zn(p, r), ZERO) == (r == 0),
        is_set(with_zn(p, r), NEGATIV) == (r >= 0x80),
        is_set(with_zn(p, r), CARRY) == is_set(p, CARRY),
        is_set(with_zn(p, r), OVERFLOW) == is_set(p, OVERFLOW),
{
    let with_zero = with_flag(p, ZERO, r == 0);
    lemma_with_flag(p, ZERO, r == 0, ZERO);
    lemma_with_flag(p, ZERO, r == 0, CARRY);
    lemma_with_flag(p, ZERO, r == 0, OVERFLOW);
    lemma_with_flag(with_zero, NEGATIV, r >= 0x80, ZERO);
    lemma_with_flag(with_zero, NEGATIV, r >= 0x80, CARRY);
    lemma_with_flag(with_zero, NEGATIV, r >= 0x80, OVERFLOW);
}

/// The 8-bit result from which an instruction sets ZERO and NEGATIVE, for
/// the instructions that do so; `m` has PC at the first operand byte.
pub open spec fn zn_result(m: Machine, op: OpCode) -> Option<u8> {
    let v = operand(m, op.mode);
    let target = if op.mode is NoneAddressing {
        m.a
    } else {
        v
    };
    match op.mnemonic {
        Mnemonic::Lda | Mnemonic::Ldx | Mnemonic::Ldy => Some(v),
        Mnemonic::Tax | Mnemonic::Tay => Some(m.a),
        Mnemonic::Txa => Some(m.x),
        Mnemonic::Tya => Some(m.y),
        Mnemonic::Tsx => Some(m.sp),
        Mnemonic::Adc => Some(adc_result(m, v)),
        Mnemonic::Sbc => Some(adc_result(m, !v)),
        Mnemonic::And => Some(m.a & v),
        Mnemonic::Eor => Some(m.a ^ v),
        Mnemonic::Ora => Some(m.a | v),
        Mnemonic::Asl | Mnemonic::Lsr | Mnemonic::Rol | Mnemonic::Ror => Some(
            shifted(op.mnemonic, target, is_set(m.p, CARRY)),
        ),
        Mnemonic::Inc => Some(add8(v, 1)),
        Mnemonic::Dec => Some(add8(v, -1)),
        Mnemonic::Inx => Some(add8(m.x, 1)),
        Mnemonic::Iny => Some(add8(m.y, 1)),
        Mnemonic::Dex => Some(add8(m.x, -1)),
        Mnemonic::Dey => Some(add8(m.y, -1)),
        Mnemonic::Cmp => Some(add8(m.a, -(v as int))),
        Mnemonic::Cpx => Some(add8(m.x, -(v as int))),
        Mnemonic::Cpy => Some(add8(m.y, -(v as int))),
        Mnemonic::Pla => Some(pop_value(m)),
        _ => None,
    }
}

/// The state just before instruction `op` runs in a step from `m`: PC moved
/// past the opcode byte.
pub open spec fn fetched(m: Machine) -> Machine {
    Machine { pc: add16(m.pc, 1), ..m }
}

/// A step keeps the state well-formed: memory still covers the whole address
/// space, A, X, Y and SP stay bytes and PC a 16-bit address.
pub proof fn lemma_step_stays_in_range(m: Machine)
    requires
        valid(m),
    ensures
        valid(step(m).0),
        0 <= step(m).0.a <= 255,
        0 <= step(m).0.x <= 255,
        0 <= step(m).0.y <= 255,
        0 <= step(m).0.sp <= 255,
        0 <= step(m).0.pc <= 65535,
{
    reveal(execute);
}

/// After every instruction that sets ZERO and NEGATIVE from a result, ZERO
/// tells whether that result is zero and NEGATIVE holds its bit 7.
pub proof fn lemma_zero_negative_follow_result(m: Machine)
    requires
        valid(m),
        opcode_table(rd(m, m.pc)) matches Some(op) && zn_result(fetched(m), op) is Some,
    ensures
        ({
            let op = opcode_table(rd(m, m.pc))->Some_0;
            let r = zn_result(fetched(m), op)->Some_0;
            &&& is_set(step(m).0.p, ZERO) == (r == 0)
            &&& is_set(step(m).0.p, NEGATIV) == (r >= 0x80)
        }),
{
    reveal(execute);
    assert forall|p: u8, r: u8|
        is_set(#[trigger] with_zn(p, r), ZERO) == (r == 0) && is_set(with_zn(p, r), NEGATIV) == (
        r >= 0x80) by {
        lemma_with_zn(p, r);
    }
}

/// The operand that ADC adds, or SBC adds after complementing it.
pub open spec fn addend(m: Machine, op: OpCode) -> u8 {
    if op.mnemonic is Sbc {
        !operand(m, op.mode)
    } else {
        operand(m, op.mode)
    }
}

/// ADC and SBC: A becomes the low byte of `A + M + CARRY`, CARRY tells whether
/// that 9-bit sum exceeds 0xff, and OVERFLOW whether the operands agree in
/// sign while the result does not (`(M ^ result) & (result ^ A) & 0x80`).
pub proof fn lemma_add_with_carry_flags(m: Machine)
    requires
        valid(m),
        opcode_table(rd(m, m.pc)) matches Some(op) && (op.mnemonic is Adc || op.mnemonic is Sbc),
    ensures
        ({
            let op = opcode_table(rd(m, m.pc))->Some_0;
            let v = addend(fetched(m), op);
            let sum = m.a + v + (if is_set(m.p, CARRY) { 1int } else { 0int });
            let r = step(m).0.a;
            &&& r == sum % 256
            &&& is_set(step(m).0.p, CARRY) == (sum > 0xff)
            &&& is_set(step(m).0.p, OVERFLOW) == ((v ^ r) & (r ^ m.a) & 0x80 != 0)
        }),
{
    reveal(execute);
    let op = opcode_table(rd(m, m.pc))->Some_0;
    let m1 = fetched(m);
    let v = addend(m1, op);
    let with_carry = with_flag(m1.p, CARRY, adc_sum(m1, v) > 0xff);
    let with_overflow = with_flag(with_carry, OVERFLOW, adc_overflow(m1, v));
    lemma_with_flag(m1.p, CARRY, adc_sum(m1, v) > 0xff, CARRY);
    lemma_with_flag(with_carry, OVERFLOW, adc_overflow(m1, v), CARRY);
    lemma_with_flag(with_carry, OVERFLOW, adc_overflow(m1, v), OVERFLOW);
    lemma_with_zn(with_overflow, adc_result(m1, v));
}

/// A byte read as a two's-complement signed number.
pub open spec fn signed(b: u8) -> int {
    if b < 0x80 {
        b as int
    } else {
        b - 0x100
    }
}

/// The flags that no arithmetic or logic result touches.
pub open spec fn same_control_flags(p: u8, q: u8) -> bool {
    &&& is_set(p, INTERRUPT_DISABLE) == is_set(q, INTERRUPT_DISABLE)
    &&& is_set(p, DECIMAL_MODE) == is_set(q, DECIMAL_MODE)
    &&& is_set(p, BREAK) == is_set(q, BREAK)
    &&& is_set(p, BREAK2) == is_set(q, BREAK2)
}

/// Setting ZERO and NEGATIVE from a result reads back as its zero test and
/// bit 7, and leaves every other flag as it was.
pub proof fn lemma_zero_negative_update(p: u8, r: u8)
    ensures
        is_set(with_zn(p, r), ZERO) == (r == 0),
        is_set(with_zn(p, r), NEGATIV) == (r & 0x80 != 0),
        is_set(with_zn(p, r), CARRY) == is_set(p, CARRY),
        is_set(with_zn(p, r), OVERFLOW) == is_set(p, OVERFLOW),
        same_control_flags(with_zn(p, r), p),
{
    lemma_with_zn(p, r);
    let with_zero = with_flag(p, ZERO, r == 0);
    assert((r & 0x80u8 != 0) == (r >= 0x80u8)) by (bit_vector);
    lemma_with_flag(p, ZERO, r == 0, INTERRUPT_DISABLE);
    lemma_with_flag(p, ZERO, r == 0, DECIMAL_MODE);
    lemma_with_flag(p, ZERO, r == 0, BREAK);
    lemma_with_flag(p, ZERO, r == 0, BREAK2);
    lemma_with_flag(with_zero, NEGATIV, r >= 0x80, INTERRUPT_DISABLE);
    lemma_with_flag(with_zero, NEGATIV, r >= 0x80, DECIMAL_MODE);
    lemma_with_flag(with_zero, NEGATIV, r >= 0x80, BREAK);
    lemma_with_flag(with_zero, NEGATIV, r >= 0x80, BREAK2);
}

/// The overflow formula `(v ^ r) & (r ^ a) & 0x80 != 0` holds exactly when
/// the signed sum `a + v + c` leaves the range -128..=127, where `r` is the
/// low byte of the unsigned sum.
pub proof fn lemma_signed_overflow(a: u8, v: u8, c: int)
    requires
        c == 0 || c == 1,
    ensures
        ({
            let r = ((a + v + c) % 256) as u8;
            ((v ^ r) & (r ^ a) & 0x80 != 0) == !(-128 <= signed(a) + signed(v) + c <= 127)
        }),
{
    let r = ((a + v + c) % 256) as u8;
    assert(((v ^ r) & (r ^ a) & 0x80u8 != 0) == ((v >= 0x80u8) != (r >= 0x80u8) && (r
        >= 0x80u8) != (a >= 0x80u8))) by (bit_vector);
    assert(r == a + v + c || r == a + v + c - 256);
}

/// ADC of `v`: A becomes the low byte of `A + v + CARRY`; CARRY tells whether
/// that sum exceeds 0xff, OVERFLOW whether the signed sum leaves -128..=127
/// (equivalently, `(v ^ A') & (A' ^ A) & 0x80 != 0` for the new A'), ZERO and
/// NEGATIVE follow the new A; DECIMAL plays no part, and nothing else changes.
pub proof fn lemma_add_to_a(m: Machine, v: u8)
    ensures
        ({
            let c = carry_in(m);
            let m2 = add_to_a(m, v);
            &&& m2.a == (m.a + v + c) % 256
            &&& is_set(m2.p, CARRY) == (m.a + v + c > 0xff)
            &&& is_set(m2.p, OVERFLOW) == ((v ^ m2.a) & (m2.a ^ m.a) & 0x80 != 0)
            &&& is_set(m2.p, OVERFLOW) == !(-128 <= signed(m.a) + signed(v) + c <= 127)
            &&& is_set(m2.p, ZERO) == (m2.a == 0)
            &&& is_set(m2.p, NEGATIV) == (m2.a & 0x80 != 0)
            &&& same_control_flags(m2.p, m.p)
            &&& m2.x == m.x && m2.y == m.y && m2.sp == m.sp && m2.pc == m.pc && m2.mem == m.mem
        }),
{
    let with_carry = with_flag(m.p, CARRY, adc_sum(m, v) > 0xff);
    let with_overflow = with_flag(with_carry, OVERFLOW, adc_overflow(m, v));
    lemma_with_flag(m.p, CARRY, adc_sum(m, v) > 0xff, CARRY);
    lemma_with_flag(with_carry, OVERFLOW, adc_overflow(m, v), CARRY);
    lemma_with_flag(with_carry, OVERFLOW, adc_overflow(m, v), OVERFLOW);
    lemma_with_flag(m.p, CARRY, adc_sum(m, v) > 0xff, INTERRUPT_DISABLE);
    lemma_with_flag(m.p, CARRY, adc_sum(m, v) > 0xff, DECIMAL_MODE);
    lemma_with_flag(m.p, CARRY, adc_sum(m, v) > 0xff, BREAK);
    lemma_with_flag(m.p, CARRY, adc_sum(m, v) > 0xff, BREAK2);
    lemma_with_flag(with_carry, OVERFLOW, adc_overflow(m, v), INTERRUPT_DISABLE);
    lemma_with_flag(with_carry, OVERFLOW, adc_overflow(m, v), DECIMAL_MODE);
    lemma_with_flag(with_carry, OVERFLOW, adc_overflow(m, v), BREAK);
    lemma_with_flag(with_carry, OVERFLOW, adc_overflow(m, v), BREAK2);
    lemma_zero_negative_update(with_overflow, adc_result(m, v));
    lemma_signed_overflow(m.a, v, carry_in(m));
}

/// SBC of `v` is ADC of its complement: A becomes `A - v - (1 - CARRY)`
/// modulo 2^8, CARRY tells that this difference is not negative, and OVERFLOW
/// that the signed difference leaves -128..=127.
pub proof fn lemma_subtract_from_a(m: Machine, v: u8)
    ensures
        ({
            let b = 1 - carry_in(m);
            let m2 = add_to_a(m, !v);
            &&& m2.a == (m.a - v - b) % 256
            &&& is_set(m2.p, CARRY) == (m.a - v - b >= 0)
            &&& is_set(m2.p, OVERFLOW) == !(-128 <= signed(m.a) - signed(v) - b <= 127)
            &&& is_set(m2.p, ZERO) == (m2.a == 0)
            &&& is_set(m2.p, NEGATIV) == (m2.a & 0x80 != 0)
            &&& same_control_flags(m2.p, m.p)
            &&& m2.x == m.x && m2.y == m.y && m2.sp == m.sp && m2.pc == m.pc && m2.mem == m.mem
        }),
{
    lemma_add_to_a(m, !v);
    assert(!v == 255 - v) by (bit_vector);
    assert(v >= 0x80u8 <==> !v < 0x80u8) by (bit_vector);
}

/// A pop right after a push returns the pushed byte, restores SP, and leaves
/// the rest of the pushed state as it was.
pub proof fn lemma_pop_after_push(m: Machine, v: u8)
    requires
        valid(m),
    ensures
        pop_value(push(m, v)) == v,
        popped(push(m, v)) == (Machine { sp: m.sp, ..push(m, v) }),
{
}

/// A word pop right after a word push returns the pushed word, restores SP,
/// and leaves the rest of the pushed state as it was.
pub proof fn lemma_pop16_after_push16(m: Machine, w: u16)
    requires
        valid(m),
    ensures
        pop16_value(push16(m, w)) == w,
        popped16(push16(m, w)) == (Machine { sp: m.sp, ..push16(m, w) }),
{
}

} // verus!
