//! What each arithmetic, logic, rotate and shift primitive computes: the
//! new value and the new flag byte, as functions of plain values.
use vstd::prelude::*;
use crate::registers::{Flag, flag_bits, flag_set};

verus! {

/// The incoming carry of flag byte `f`, as 0 or 1.
pub open spec fn carry_in(f: u8) -> int {
    if flag_set(f, Flag::C) {
        1
    } else {
        0
    }
}

/// `add`: A + v.
pub open spec fn add_spec(a: u8, v: u8) -> (u8, u8) {
    let sum = a + v;
    ((sum % 256) as u8, flag_bits(sum % 256 == 0, false, a % 16 + v % 16 > 15, sum > 255))
}

/// `adc`: A + v + carry.
pub open spec fn adc_spec(a: u8, v: u8, f: u8) -> (u8, u8) {
    let sum = a + v + carry_in(f);
    (
        (sum % 256) as u8,
        flag_bits(sum % 256 == 0, false, a % 16 + v % 16 + carry_in(f) > 15, sum > 255),
    )
}

/// The flags of comparing A with v.
pub open spec fn cp_flags(a: u8, v: u8) -> u8 {
    flag_bits(a == v, true, a % 16 < v % 16, a < v)
}

/// `sub`: A - v, with the flags of the comparison.
pub open spec fn sub_spec(a: u8, v: u8) -> (u8, u8) {
    (((a - v + 256) % 256) as u8, cp_flags(a, v))
}

/// `sbc`: A - v - carry.
pub open spec fn sbc_spec(a: u8, v: u8, f: u8) -> (u8, u8) {
    let d = a - v - carry_in(f);
    (
        ((d + 256) % 256) as u8,
        flag_bits((d + 256) % 256 == 0, true, a % 16 - v % 16 - carry_in(f) < 0, d < 0),
    )
}

pub open spec fn and_spec(a: u8, v: u8) -> (u8, u8) {
    (a & v, flag_bits(a & v == 0, false, true, false))
}

pub open spec fn xor_spec(a: u8, v: u8) -> (u8, u8) {
    (a ^ v, flag_bits(a ^ v == 0, false, false, false))
}

pub open spec fn or_spec(a: u8, v: u8) -> (u8, u8) {
    (a | v, flag_bits(a | v == 0, false, false, false))
}

/// `inc`: v + 1, carry kept.
pub open spec fn inc_spec(v: u8, f: u8) -> (u8, u8) {
    let r = (v + 1) % 256;
    (r as u8, flag_bits(r == 0, false, v % 16 == 15, flag_set(f, Flag::C)))
}

/// `dec`: v - 1, carry kept.
pub open spec fn dec_spec(v: u8, f: u8) -> (u8, u8) {
    let r = (v + 255) % 256;
    (r as u8, flag_bits(r == 0, true, v % 16 == 0, flag_set(f, Flag::C)))
}

/// The flags of a rotate or shift with result `r` and outgoing bit `c`.
pub open spec fn shift_flags(r: int, c: bool) -> u8 {
    flag_bits(r == 0, false, false, c)
}

/// `rlc`: rotate left, bit 7 to carry and bit 0.
pub open spec fn rlc_spec(v: u8) -> (u8, u8) {
    let r = v % 128 * 2 + v / 128;
    (r as u8, shift_flags(r, v >= 128))
}

/// `rl`: rotate left through carry.
pub open spec fn rl_spec(v: u8, f: u8) -> (u8, u8) {
    let r = v % 128 * 2 + carry_in(f);
    (r as u8, shift_flags(r, v >= 128))
}

/// `rrc`: rotate right, bit 0 to carry and bit 7.
pub open spec fn rrc_spec(v: u8) -> (u8, u8) {
    let r = v / 2 + v % 2 * 128;
    (r as u8, shift_flags(r, v % 2 == 1))
}

/// `rr`: rotate right through carry.
pub open spec fn rr_spec(v: u8, f: u8) -> (u8, u8) {
    let r = v / 2 + carry_in(f) * 128;
    (r as u8, shift_flags(r, v % 2 == 1))
}

/// `sla`: shift left, bit 7 to carry.
pub open spec fn sla_spec(v: u8) -> (u8, u8) {
    let r = v % 128 * 2;
    (r as u8, shift_flags(r, v >= 128))
}

/// `sra`: shift right keeping bit 7, bit 0 to carry.
pub open spec fn sra_spec(v: u8) -> (u8, u8) {
    let r = v / 2 + v / 128 * 128;
    (r as u8, shift_flags(r, v % 2 == 1))
}

/// `swap`: exchange the nibbles.
pub open spec fn swap_spec(v: u8) -> (u8, u8) {
    let r = v % 16 * 16 + v / 16;
    (r as u8, shift_flags(r, false))
}

/// `srl`: shift right, bit 0 to carry.
pub open spec fn srl_spec(v: u8) -> (u8, u8) {
    let r = v as int / 2;
    (r as u8, shift_flags(r, v % 2 == 1))
}

/// The mask of bit `b`.
pub open spec fn bit_mask(b: u8) -> u8 {
    (1u8 << b) as u8
}

/// `bit b`: Z tells whether bit `b` of v is clear; H set, N clear, carry kept.
pub open spec fn bit_flags(b: u8, v: u8, f: u8) -> u8 {
    flag_bits(v & bit_mask(b) == 0, false, true, flag_set(f, Flag::C))
}

/// `add_16`: lhs + rhs on 16 bits, carry out of bit 15, half-carry out of
/// bit 11, N clear, Z kept.
pub open spec fn add16_spec(lhs: u16, rhs: u16, f: u8) -> (u16, u8) {
    let sum = lhs + rhs;
    (
        (sum % 0x10000) as u16,
        flag_bits(flag_set(f, Flag::Z), false, lhs % 0x1000 + rhs % 0x1000 > 0xFFF, sum > 0xFFFF),
    )
}

/// The signed value of displacement byte `e`.
pub open spec fn signed_byte(e: u8) -> int {
    if e < 128 {
        e as int
    } else {
        e - 256
    }
}

/// SP plus a signed displacement, with the flags of adding the
/// displacement's byte to SP's low byte: Z and N clear.
pub open spec fn add_sp_spec(sp: u16, e: u8) -> (u16, u8) {
    (
        ((sp + signed_byte(e) + 0x10000) % 0x10000) as u16,
        flag_bits(false, false, sp % 16 + e % 16 > 15, sp % 256 + e > 255),
    )
}

/// The low correction of `daa`.
pub open spec fn daa_low(a: u8, f: u8) -> int {
    if flag_set(f, Flag::H) || (!flag_set(f, Flag::N) && a % 16 > 9) {
        0x06
    } else {
        0
    }
}

/// The high correction of `daa`.
pub open spec fn daa_high(a: u8, f: u8) -> int {
    if flag_set(f, Flag::C) || (!flag_set(f, Flag::N) && a > 0x99) {
        0x60
    } else {
        0
    }
}

/// `daa`: decimal adjustment of A after an addition (N clear) or a
/// subtraction (N set). C tells whether the high correction applied, H is
/// cleared, N kept.
pub open spec fn daa_spec(a: u8, f: u8) -> (u8, u8) {
    let adjust = daa_low(a, f) + daa_high(a, f);
    let r = if flag_set(f, Flag::N) {
        (a - adjust + 256) % 256
    } else {
        (a + adjust) % 256
    };
    (r as u8, flag_bits(r == 0, flag_set(f, Flag::N), false, daa_high(a, f) != 0))
}

/// Adding v to an accumulator holding a leaves (a + v) mod 256; Z is set
/// exactly when that is zero, C exactly when a + v exceeds 255, H exactly
/// when the low nibbles carry, and N is clear.
pub proof fn lemma_add(a: u8, v: u8)
    ensures
        add_spec(a, v).0 == (a + v) % 256,
        flag_set(add_spec(a, v).1, Flag::Z) == (add_spec(a, v).0 == 0),
        flag_set(add_spec(a, v).1, Flag::C) == (a + v > 255),
        flag_set(add_spec(a, v).1, Flag::H) == ((a & 0x0F) + (v & 0x0F) > 0x0F),
        !flag_set(add_spec(a, v).1, Flag::N),
{
    crate::registers::lemma_flag_bits(
        (a + v) % 256 == 0,
        false,
        a % 16 + v % 16 > 15,
        a + v > 255,
    );
    assert(a & 0x0F == a % 16 && v & 0x0F == v % 16) by (bit_vector);
}

/// Comparing with v sets Z exactly when a == v, C exactly when a < v, and
/// sets N.
pub proof fn lemma_cp(a: u8, v: u8)
    ensures
        flag_set(cp_flags(a, v), Flag::Z) == (a == v),
        flag_set(cp_flags(a, v), Flag::C) == (a < v),
        flag_set(cp_flags(a, v), Flag::N),
{
    crate::registers::lemma_flag_bits(a == v, true, a % 16 < v % 16, a < v);
}

/// Incrementing or decrementing leaves the carry flag as it was.
pub proof fn lemma_inc_dec_keep_carry(v: u8, f: u8)
    ensures
        flag_set(inc_spec(v, f).1, Flag::C) == flag_set(f, Flag::C),
        flag_set(dec_spec(v, f).1, Flag::C) == flag_set(f, Flag::C),
{
    crate::registers::lemma_flag_bits(
        (v + 1) % 256 == 0,
        false,
        v % 16 == 15,
        flag_set(f, Flag::C),
    );
    crate::registers::lemma_flag_bits(
        (v + 255) % 256 == 0,
        true,
        v % 16 == 0,
        flag_set(f, Flag::C),
    );
}

} // verus!
