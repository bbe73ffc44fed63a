//! What the arithmetic and logic instructions compute, as functions of the
//! registers and the operand byte.

use vstd::prelude::*;
use vstd::wrapping::u8_specs;
use crate::cpu::reg::{has_bit, sum_overflows, Flag, RegState, Register};

verus! {

/// The byte shifted left by one bit; bit 7 falls out.
pub open spec fn shl(v: u8) -> u8 {
    (v * 2 % 256) as u8
}

/// The byte shifted right by one bit; bit 0 falls out.
pub open spec fn shr(v: u8) -> u8 {
    v / 2
}

/// The byte rotated left through the carry: the carry enters at bit 0.
pub open spec fn rol(v: u8, carry: bool) -> u8 {
    (shl(v) + if carry { 1int } else { 0 }) as u8
}

/// The byte rotated right through the carry: the carry enters at bit 7.
pub open spec fn ror(v: u8, carry: bool) -> u8 {
    (shr(v) + if carry { 128int } else { 0 }) as u8
}

/// The carry as the adder takes it in.
pub open spec fn carry_in(reg: RegState) -> int {
    if reg.p.carry {
        1
    } else {
        0
    }
}

/// ADC: A takes the low byte of `A + m + C`; C is set where the sum does not
/// fit a byte, V where it overflows as a signed sum; Z and N follow A.
pub open spec fn adc(reg: RegState, m: u8) -> RegState {
    let r = reg.a + m + carry_in(reg);
    reg.with_cv(reg.a, m, r as u16).write(Register::A, (r % 256) as u8)
}

/// SBC: ADC of the operand's complement.
pub open spec fn sbc(reg: RegState, m: u8) -> RegState {
    adc(reg, m ^ 0xFF)
}

/// CMP, CPX, CPY of the register value `v` with the operand `m`: C where
/// `v >= m`, Z where they are equal, N from bit 7 of the difference.
pub open spec fn compare(reg: RegState, v: u8, m: u8) -> RegState {
    reg.with_flag(Flag::Carry, v >= m).with_flag(Flag::Zero, v == m).with_flag(
        Flag::Negative,
        u8_specs::wrapping_sub(v, m) >= 0x80,
    )
}

/// BIT: Z where A and the operand share no bit; V and N are bits 6 and 7 of
/// the operand.
pub open spec fn bit_test(reg: RegState, m: u8) -> RegState {
    reg.with_flag(Flag::Zero, reg.a & m == 0).with_flag(Flag::Overflow, has_bit(m, 0x40)).with_flag(
        Flag::Negative,
        has_bit(m, 0x80),
    )
}

/// A shift or rotate of the accumulator: A takes `w`, C the bit that fell
/// out.
pub open spec fn shift_a(reg: RegState, out: bool, w: u8) -> RegState {
    reg.with_flag(Flag::Carry, out).write(Register::A, w)
}

/// A shift or rotate of a byte in memory: C takes the bit that fell out, Z
/// and N follow the byte `w` written back.
pub open spec fn shift_m(reg: RegState, out: bool, w: u8) -> RegState {
    reg.with_flag(Flag::Carry, out).with_zn(w)
}

/// AAC: A is and-ed with the operand; C copies N.
pub open spec fn aac(reg: RegState, m: u8) -> RegState {
    let r = reg.write(Register::A, reg.a & m);
    r.with_flag(Flag::Carry, r.p.negative)
}

/// ASR: A is and-ed with the operand, then shifted right.
pub open spec fn asr(reg: RegState, m: u8) -> RegState {
    let v = reg.a & m;
    shift_a(reg, has_bit(v, 0x01), shr(v))
}

/// ARR: A is and-ed with the operand, then rotated right through the carry;
/// C is bit 6 of the result, V is set where bits 6 and 5 differ.
pub open spec fn arr(reg: RegState, m: u8) -> RegState {
    let w = ror(reg.a & m, reg.p.carry);
    reg.write(Register::A, w).with_flag(Flag::Carry, has_bit(w, 0x40)).with_flag(
        Flag::Overflow,
        has_bit(w, 0x40) != has_bit(w, 0x20),
    )
}

/// AXS: X takes `(A & X) - m`; C is set where no borrow was needed.
pub open spec fn axs(reg: RegState, m: u8) -> RegState {
    let v = reg.a & reg.x;
    reg.with_flag(Flag::Carry, v >= m).write(Register::X, u8_specs::wrapping_sub(v, m))
}

/// The byte that SHY and SHX store for the register value `v` at an operand
/// with the high address byte `hi`.
pub open spec fn sa_value(v: u8, hi: u8) -> u8 {
    v & u8_specs::wrapping_add(hi, 1)
}

/// The machine's shifts are the arithmetic ones.
pub proof fn lemma_shifts(v: u8)
    ensures
        v << 1 == shl(v),
        v >> 1 == shr(v),
        (v << 1) | 0 == rol(v, false),
        (v << 1) | 1 == rol(v, true),
        0 | (v >> 1) == ror(v, false),
        0x80 | (v >> 1) == ror(v, true),
{
    assert(v << 1 == (v * 2 % 256) as u8 && v >> 1 == v / 2 && (v << 1) | 0 == (v * 2 % 256) as u8
        && (v << 1) | 1 == ((v * 2 % 256) + 1) as u8 && 0 | (v >> 1) == v / 2 && 0x80 | (v >> 1) == (
    v / 2 + 128) as u8) by (bit_vector);
}

/// The law of ADC. With `r = A + m + C`: A takes `r & 0xFF`, C is set
/// exactly where `r > 0xFF`, V exactly where
/// `(!(A ^ m) & (A ^ r) & 0x80) != 0`, Z and N follow the new A, and nothing
/// else changes.
pub proof fn lemma_adc_law(reg: RegState, m: u8)
    ensures
        ({
            let r = (reg.a + m + carry_in(reg)) as u16;
            let after = adc(reg, m);
            &&& r == reg.a + m + carry_in(reg)
            &&& after.a == r & 0xFF
            &&& after.p.carry == (r > 0xFF)
            &&& after.p.overflow == (((!(reg.a ^ m)) as u16) & ((reg.a as u16) ^ r) & 0x80 != 0)
            &&& after.p.zero == (after.a == 0)
            &&& after.p.negative == (after.a >= 0x80)
            &&& after.x == reg.x && after.y == reg.y && after.sp == reg.sp && after.pc == reg.pc
            &&& after.p.decimal == reg.p.decimal && after.p.interrupt == reg.p.interrupt
            &&& after.p.brk == reg.p.brk && after.p.always_one == reg.p.always_one
        }),
{
    let r = (reg.a + m + carry_in(reg)) as u16;
    assert(r & 0xFF == r % 256) by (bit_vector);
}

/// The law of SBC: that of ADC for the operand `m ^ 0xFF`.
pub proof fn lemma_sbc_law(reg: RegState, m: u8)
    ensures
        ({
            let b = m ^ 0xFF;
            let r = (reg.a + b + carry_in(reg)) as u16;
            let after = sbc(reg, m);
            &&& r == reg.a + b + carry_in(reg)
            &&& after.a == r & 0xFF
            &&& after.p.carry == (r > 0xFF)
            &&& after.p.overflow == (((!(reg.a ^ b)) as u16) & ((reg.a as u16) ^ r) & 0x80 != 0)
            &&& after.p.zero == (after.a == 0)
            &&& after.p.negative == (after.a >= 0x80)
        }),
{
    lemma_adc_law(reg, m ^ 0xFF);
}

/// SBC subtracts: A takes `A - m - (1 - C)` modulo 256, and C is set
/// exactly where no borrow was needed.
pub proof fn lemma_sbc_subtracts(reg: RegState, m: u8)
    ensures
        ({
            let d = reg.a - m - (1 - carry_in(reg));
            &&& sbc(reg, m).a == d % 256
            &&& sbc(reg, m).p.carry == (d >= 0)
        }),
{
    assert(m ^ 0xFF == 255 - m) by (bit_vector);
}

/// The overflow rule is signed overflow: V is set exactly where the
/// operands agree in sign and the low byte of their sum does not.
pub proof fn lemma_overflow_is_signed(a: u8, m: u8, carry: bool)
    ensures
        ({
            let r = (a + m + if carry { 1int } else { 0 }) as u16;
            sum_overflows(a, m, r) == ((a >= 0x80) == (m >= 0x80) && (a >= 0x80) != (r % 256
                >= 0x80))
        }),
{
    let c: u16 = if carry {
        1
    } else {
        0
    };
    let r: u16 = (a + m + c) as u16;
    assert((((!(a ^ m)) as u16) & ((a as u16) ^ r) & 0x80 != 0) == ((a >= 0x80) == (m >= 0x80) && (
    a >= 0x80) != (r % 256 >= 0x80))) by (bit_vector)
        requires
            r == a + m + c,
            c <= 1,
    ;
}

} // verus!
