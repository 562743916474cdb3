//! Integer semantics of the instruction set: two's-complement conversions,
//! word operations, shifts, multiplication and division.
//!
//! Registers hold 64 unsigned bits. An operation that reads them as signed goes
//! through [`signed64`]; a result that does not fit is reduced modulo 2^64 by
//! [`wrap64`]. Word operations work on the low 32 bits and sign-extend the
//! 32-bit result.

use vstd::prelude::*;

verus! {

/// The value of a register read as a two's-complement number.
pub open spec fn signed64(a: u64) -> int {
    if a < 0x8000_0000_0000_0000 {
        a as int
    } else {
        a as int - 0x1_0000_0000_0000_0000
    }
}

/// The value of a word read as a two's-complement number.
pub open spec fn signed32(a: u32) -> int {
    if a < 0x8000_0000 {
        a as int
    } else {
        a as int - 0x1_0000_0000
    }
}

/// An integer reduced modulo 2^64: the register that holds it.
pub open spec fn wrap64(v: int) -> u64 {
    (v % 0x1_0000_0000_0000_0000) as u64
}

/// An integer reduced modulo 2^32: the word that holds it.
pub open spec fn wrap32(v: int) -> u32 {
    (v % 0x1_0000_0000) as u32
}

/// The low 32 bits of a register.
pub open spec fn low32(a: u64) -> u32 {
    (a % 0x1_0000_0000) as u32
}

/// A word sign-extended to a register.
pub open spec fn sext32(a: u32) -> u64 {
    wrap64(signed32(a))
}

/// The low 32 bits of a value, sign-extended.
pub open spec fn sext_word(v: u64) -> u64 {
    sext32(low32(v))
}

/// The low 16 bits of a value, sign-extended.
pub open spec fn sext_half(v: u64) -> u64 {
    let m = v % 0x1_0000;
    if m < 0x8000 {
        m as u64
    } else {
        (m + 0xffff_ffff_ffff_0000) as u64
    }
}

/// The low 8 bits of a value, sign-extended.
pub open spec fn sext_byte(v: u64) -> u64 {
    let m = v % 0x100;
    if m < 0x80 {
        m as u64
    } else {
        (m + 0xffff_ffff_ffff_ff00) as u64
    }
}

/// The register that holds a sign-extended immediate.
pub open spec fn imm_bits(imm: i64) -> u64 {
    wrap64(imm as int)
}

/// The magnitude of an integer.
pub open spec fn magnitude(v: int) -> int {
    if v < 0 {
        -v
    } else {
        v
    }
}

/// Division that rounds toward zero.
pub open spec fn tdiv(a: int, b: int) -> int
    recommends
        b != 0,
{
    if (a < 0) == (b < 0) {
        magnitude(a) / magnitude(b)
    } else {
        -(magnitude(a) / magnitude(b))
    }
}

/// The remainder of division that rounds toward zero: it has the sign of the
/// dividend.
pub open spec fn trem(a: int, b: int) -> int
    recommends
        b != 0,
{
    if a < 0 {
        -(magnitude(a) % magnitude(b))
    } else {
        magnitude(a) % magnitude(b)
    }
}

/// The sum, modulo 2^64.
pub open spec fn add_spec(a: u64, b: u64) -> u64 {
    wrap64(a + b)
}

/// The difference, modulo 2^64.
pub open spec fn sub_spec(a: u64, b: u64) -> u64 {
    wrap64(a - b)
}

/// 1 where `a` is less than `b` as signed numbers, else 0.
pub open spec fn slt_spec(a: u64, b: u64) -> u64 {
    if signed64(a) < signed64(b) {
        1
    } else {
        0
    }
}

/// 1 where `a` is less than `b` as unsigned numbers, else 0.
pub open spec fn sltu_spec(a: u64, b: u64) -> u64 {
    if a < b {
        1
    } else {
        0
    }
}

/// Shifts take their amount from the low six bits of the second operand.
pub open spec fn sll_spec(a: u64, b: u64) -> u64 {
    a << (b % 64)
}

/// The logical right shift fills the vacated bits with zeros.
pub open spec fn srl_spec(a: u64, b: u64) -> u64 {
    a >> (b % 64)
}

/// The arithmetic right shift copies the sign bit into the vacated bits.
pub open spec fn sra_spec(a: u64, b: u64) -> u64 {
    ((a as i64) >> (b % 64)) as u64
}

/// The sum of the low words, sign-extended.
pub open spec fn addw_spec(a: u64, b: u64) -> u64 {
    sext32(wrap32(a + b))
}

/// The difference of the low words, sign-extended.
pub open spec fn subw_spec(a: u64, b: u64) -> u64 {
    sext32(wrap32(a - b))
}

/// Word shifts take their amount from the low five bits of the second operand.
pub open spec fn sllw_spec(a: u64, b: u64) -> u64 {
    sext32(low32(a) << (b % 32))
}

/// The logical right shift of the low word, sign-extended.
pub open spec fn srlw_spec(a: u64, b: u64) -> u64 {
    sext32(low32(a) >> (b % 32))
}

/// The arithmetic right shift of the low word, sign-extended.
pub open spec fn sraw_spec(a: u64, b: u64) -> u64 {
    sext32(((low32(a) as i32) >> (b % 32)) as u32)
}

/// The low 64 bits of the product.
pub open spec fn mul_spec(a: u64, b: u64) -> u64 {
    wrap64(a * b)
}

/// The upper 64 bits of the signed by signed product.
pub open spec fn mulh_spec(a: u64, b: u64) -> u64 {
    wrap64((signed64(a) * signed64(b)) / 0x1_0000_0000_0000_0000)
}

/// The upper 64 bits of the signed by unsigned product.
pub open spec fn mulhsu_spec(a: u64, b: u64) -> u64 {
    wrap64((signed64(a) * b) / 0x1_0000_0000_0000_0000)
}

/// The upper 64 bits of the unsigned by unsigned product.
pub open spec fn mulhu_spec(a: u64, b: u64) -> u64 {
    wrap64((a * b) / 0x1_0000_0000_0000_0000)
}

/// Signed division. Division by zero gives -1; the one quotient that does not
/// fit, the least integer by -1, wraps to the least integer.
pub open spec fn div_spec(a: u64, b: u64) -> u64 {
    if b == 0 {
        u64::MAX
    } else {
        wrap64(tdiv(signed64(a), signed64(b)))
    }
}

/// Unsigned division. Division by zero gives all ones.
pub open spec fn divu_spec(a: u64, b: u64) -> u64 {
    if b == 0 {
        u64::MAX
    } else {
        a / b
    }
}

/// Signed remainder. The remainder by zero is the dividend.
pub open spec fn rem_spec(a: u64, b: u64) -> u64 {
    if b == 0 {
        a
    } else {
        wrap64(trem(signed64(a), signed64(b)))
    }
}

/// Unsigned remainder. The remainder by zero is the dividend.
pub open spec fn remu_spec(a: u64, b: u64) -> u64 {
    if b == 0 {
        a
    } else {
        a % b
    }
}

/// The low word of the product, sign-extended.
pub open spec fn mulw_spec(a: u64, b: u64) -> u64 {
    sext32(wrap32(a * b))
}

/// Signed division of the low words, sign-extended. Division by zero gives -1.
pub open spec fn divw_spec(a: u64, b: u64) -> u64 {
    if low32(b) == 0 {
        u64::MAX
    } else {
        sext32(wrap32(tdiv(signed32(low32(a)), signed32(low32(b)))))
    }
}

/// Unsigned division of the low words, sign-extended. Division by zero gives
/// all ones.
pub open spec fn divuw_spec(a: u64, b: u64) -> u64 {
    if low32(b) == 0 {
        u64::MAX
    } else {
        sext32((low32(a) / low32(b)) as u32)
    }
}

/// Signed remainder of the low words, sign-extended. The remainder by zero is
/// the dividend's low word, sign-extended.
pub open spec fn remw_spec(a: u64, b: u64) -> u64 {
    if low32(b) == 0 {
        sext_word(a)
    } else {
        sext32(wrap32(trem(signed32(low32(a)), signed32(low32(b)))))
    }
}

/// Unsigned remainder of the low words, sign-extended. The remainder by zero
/// is the dividend's low word, sign-extended.
pub open spec fn remuw_spec(a: u64, b: u64) -> u64 {
    if low32(b) == 0 {
        sext_word(a)
    } else {
        sext32((low32(a) % low32(b)) as u32)
    }
}

/// The lesser of two registers read as signed numbers.
pub open spec fn min_signed_spec(a: u64, b: u64) -> u64 {
    if signed64(a) < signed64(b) {
        a
    } else {
        b
    }
}

/// The greater of two registers read as signed numbers.
pub open spec fn max_signed_spec(a: u64, b: u64) -> u64 {
    if signed64(a) < signed64(b) {
        b
    } else {
        a
    }
}

/// The lesser of two registers read as unsigned numbers.
pub open spec fn min_unsigned_spec(a: u64, b: u64) -> u64 {
    if a < b {
        a
    } else {
        b
    }
}

/// The greater of two registers read as unsigned numbers.
pub open spec fn max_unsigned_spec(a: u64, b: u64) -> u64 {
    if a < b {
        b
    } else {
        a
    }
}

/// Reads a register as a two's-complement number.
pub fn as_signed(a: u64) -> (r: i64)
    ensures
        r == signed64(a),
{
    assert((a as i64) as int == (if a < 0x8000_0000_0000_0000u64 {
        a as int
    } else {
        a as int - 0x1_0000_0000_0000_0000
    })) by (bit_vector);
    #[verifier::truncate]
    (a as i64)
}

/// The register that holds a two's-complement number.
pub fn as_unsigned(v: i64) -> (r: u64)
    ensures
        r == imm_bits(v),
        signed64(r) == v,
{
    assert((v as u64) as int == (if v >= 0 {
        v as int
    } else {
        v as int + 0x1_0000_0000_0000_0000
    })) by (bit_vector);
    #[verifier::truncate]
    (v as u64)
}

/// The low 32 bits of a register.
pub fn low_word(a: u64) -> (r: u32)
    ensures
        r == low32(a),
{
    assert(a as u32 == a % 0x1_0000_0000) by (bit_vector);
    #[verifier::truncate]
    (a as u32)
}

/// Sign-extends a word to a register.
pub fn sign_extend32(a: u32) -> (r: u64)
    ensures
        r == sext32(a),
{
    assert(((a as i32) as i64) as u64 == (if a < 0x8000_0000u32 {
        a as u64
    } else {
        (a as u64 + 0xffff_ffff_0000_0000) as u64
    })) by (bit_vector);
    #[verifier::truncate]
    ((#[verifier::truncate]
    (a as i32)) as i64 as u64)
}

/// Sign-extends the low 32 bits of a value.
pub fn sign_extend_word(v: u64) -> (r: u64)
    ensures
        r == sext_word(v),
{
    sign_extend32(low_word(v))
}

/// Sign-extends the low 16 bits of a value.
pub fn sign_extend_half(v: u64) -> (r: u64)
    ensures
        r == sext_half(v),
{
    assert(((v as u16) as i16) as i64 as u64 == (if v % 0x1_0000 < 0x8000 {
        (v % 0x1_0000) as u64
    } else {
        (v % 0x1_0000 + 0xffff_ffff_ffff_0000) as u64
    })) by (bit_vector);
    #[verifier::truncate]
    ((#[verifier::truncate]
    ((#[verifier::truncate]
    (v as u16)) as i16)) as i64 as u64)
}

/// Sign-extends the low 8 bits of a value.
pub fn sign_extend_byte(v: u64) -> (r: u64)
    ensures
        r == sext_byte(v),
{
    assert(((v as u8) as i8) as i64 as u64 == (if v % 0x100 < 0x80 {
        (v % 0x100) as u64
    } else {
        (v % 0x100 + 0xffff_ffff_ffff_ff00) as u64
    })) by (bit_vector);
    #[verifier::truncate]
    ((#[verifier::truncate]
    ((#[verifier::truncate]
    (v as u8)) as i8)) as i64 as u64)
}

/// Addition modulo 2^64.
pub fn plus(a: u64, b: u64) -> (r: u64)
    ensures
        r == add_spec(a, b),
{
    a.wrapping_add(b)
}

/// Subtraction modulo 2^64.
pub fn minus(a: u64, b: u64) -> (r: u64)
    ensures
        r == sub_spec(a, b),
{
    a.wrapping_sub(b)
}

/// Multiplication modulo 2^64.
pub fn times(a: u64, b: u64) -> (r: u64)
    ensures
        r == mul_spec(a, b),
{
    a.wrapping_mul(b)
}

/// Signed less-than: 1 or 0.
pub fn slt(a: u64, b: u64) -> (r: u64)
    ensures
        r == slt_spec(a, b),
{
    if as_signed(a) < as_signed(b) {
        1
    } else {
        0
    }
}

/// Unsigned less-than: 1 or 0.
pub fn sltu(a: u64, b: u64) -> (r: u64)
    ensures
        r == sltu_spec(a, b),
{
    if a < b {
        1
    } else {
        0
    }
}

/// The shift amount of a doubleword shift: the low six bits.
fn shamt6(b: u64) -> (s: u64)
    ensures
        s == b % 64,
{
    assert(b & 0x3f == b % 64) by (bit_vector);
    b & 0x3f
}

/// The shift amount of a word shift: the low five bits.
fn shamt5(b: u64) -> (s: u64)
    ensures
        s == b % 32,
{
    assert(b & 0x1f == b % 32) by (bit_vector);
    b & 0x1f
}

/// Shift left by the low six bits of `b`.
pub fn sll(a: u64, b: u64) -> (r: u64)
    ensures
        r == sll_spec(a, b),
{
    a << shamt6(b)
}

/// Logical shift right by the low six bits of `b`.
pub fn srl(a: u64, b: u64) -> (r: u64)
    ensures
        r == srl_spec(a, b),
{
    a >> shamt6(b)
}

/// Arithmetic shift right by the low six bits of `b`.
pub fn sra(a: u64, b: u64) -> (r: u64)
    ensures
        r == sra_spec(a, b),
{
    #[verifier::truncate]
    (((#[verifier::truncate]
    (a as i64)) >> shamt6(b)) as u64)
}

/// Word addition.
pub fn addw(a: u64, b: u64) -> (r: u64)
    ensures
        r == addw_spec(a, b),
{
    sign_extend_word(a.wrapping_add(b))
}

/// Word subtraction.
pub fn subw(a: u64, b: u64) -> (r: u64)
    ensures
        r == subw_spec(a, b),
{
    sign_extend_word(a.wrapping_sub(b))
}

/// Word shift left by the low five bits of `b`.
pub fn sllw(a: u64, b: u64) -> (r: u64)
    ensures
        r == sllw_spec(a, b),
{
    sign_extend32(low_word(a) << shamt5(b))
}

/// Word logical shift right by the low five bits of `b`.
pub fn srlw(a: u64, b: u64) -> (r: u64)
    ensures
        r == srlw_spec(a, b),
{
    sign_extend32(low_word(a) >> shamt5(b))
}

/// Word arithmetic shift right by the low five bits of `b`.
pub fn sraw(a: u64, b: u64) -> (r: u64)
    ensures
        r == sraw_spec(a, b),
{
    sign_extend32(
        #[verifier::truncate]
        (((#[verifier::truncate]
        (low_word(a) as i32)) >> shamt5(b)) as u32),
    )
}

/// The magnitude of a two's-complement number.
fn magnitude_of(v: i64) -> (r: u64)
    ensures
        r == magnitude(v as int),
{
    if v >= 0 {
        v as u64
    } else {
        (-(v as i128)) as u64
    }
}

/// The upper 64 bits of a 128-bit two's-complement number.
fn upper_half(p: i128) -> (r: u64)
    requires
        -0x8000_0000_0000_0000_0000_0000_0000_0000 < p,
    ensures
        r == wrap64(p as int / 0x1_0000_0000_0000_0000),
{
    if p >= 0 {
        ((p as u128) / 0x1_0000_0000_0000_0000u128) as u64
    } else {
        let m: u128 = (-(p + 1)) as u128;
        u64::MAX - ((m / 0x1_0000_0000_0000_0000u128) as u64)
    }
}

/// The upper half of the signed by signed product.
pub fn mulh(a: u64, b: u64) -> (r: u64)
    ensures
        r == mulh_spec(a, b),
{
    let sa = as_signed(a);
    let sb = as_signed(b);
    assert(-0x4000_0000_0000_0000_0000_0000_0000_0000 <= sa * sb
        <= 0x4000_0000_0000_0000_0000_0000_0000_0000) by (nonlinear_arith)
        requires
            -0x8000_0000_0000_0000 <= sa < 0x8000_0000_0000_0000,
            -0x8000_0000_0000_0000 <= sb < 0x8000_0000_0000_0000,
    ;
    upper_half((sa as i128) * (sb as i128))
}

/// The upper half of the signed by unsigned product.
pub fn mulhsu(a: u64, b: u64) -> (r: u64)
    ensures
        r == mulhsu_spec(a, b),
{
    let sa = as_signed(a);
    assert(-0x8000_0000_0000_0000_0000_0000_0000_0000 < sa * b
        < 0x8000_0000_0000_0000_0000_0000_0000_0000) by (nonlinear_arith)
        requires
            -0x8000_0000_0000_0000 <= sa < 0x8000_0000_0000_0000,
            0 <= b < 0x1_0000_0000_0000_0000,
    ;
    upper_half((sa as i128) * (b as i128))
}

/// The upper half of the unsigned by unsigned product.
pub fn mulhu(a: u64, b: u64) -> (r: u64)
    ensures
        r == mulhu_spec(a, b),
{
    assert(0 <= a * b <= 0xffff_ffff_ffff_ffff * 0xffff_ffff_ffff_ffff) by (nonlinear_arith)
        requires
            0 <= a <= 0xffff_ffff_ffff_ffff,
            0 <= b <= 0xffff_ffff_ffff_ffff,
    ;
    (((a as u128) * (b as u128)) / 0x1_0000_0000_0000_0000u128) as u64
}

/// Signed division.
pub fn div(a: u64, b: u64) -> (r: u64)
    ensures
        r == div_spec(a, b),
{
    if b == 0 {
        return u64::MAX;
    }
    let sa = as_signed(a);
    let sb = as_signed(b);
    let q = magnitude_of(sa) / magnitude_of(sb);
    if (sa < 0) == (sb < 0) {
        q
    } else {
        0u64.wrapping_sub(q)
    }
}

/// Unsigned division.
pub fn divu(a: u64, b: u64) -> (r: u64)
    ensures
        r == divu_spec(a, b),
{
    if b == 0 {
        u64::MAX
    } else {
        a / b
    }
}

/// Signed remainder.
pub fn rem(a: u64, b: u64) -> (r: u64)
    ensures
        r == rem_spec(a, b),
{
    if b == 0 {
        return a;
    }
    let sa = as_signed(a);
    let sb = as_signed(b);
    let m = magnitude_of(sa) % magnitude_of(sb);
    if sa < 0 {
        0u64.wrapping_sub(m)
    } else {
        m
    }
}

/// Unsigned remainder.
pub fn remu(a: u64, b: u64) -> (r: u64)
    ensures
        r == remu_spec(a, b),
{
    if b == 0 {
        a
    } else {
        a % b
    }
}

/// Word multiplication.
pub fn mulw(a: u64, b: u64) -> (r: u64)
    ensures
        r == mulw_spec(a, b),
{
    sign_extend_word(a.wrapping_mul(b))
}

/// Signed word division.
pub fn divw(a: u64, b: u64) -> (r: u64)
    ensures
        r == divw_spec(a, b),
{
    if low_word(b) == 0 {
        return u64::MAX;
    }
    let x = sign_extend_word(a);
    let y = sign_extend_word(b);
    assert(signed64(x) == signed32(low32(a)));
    assert(signed64(y) == signed32(low32(b)));
    let q = div(x, y);
    assert(low32(q) == wrap32(tdiv(signed64(x), signed64(y))));
    sign_extend_word(q)
}

/// Unsigned word division.
pub fn divuw(a: u64, b: u64) -> (r: u64)
    ensures
        r == divuw_spec(a, b),
{
    let x = low_word(a);
    let y = low_word(b);
    if y == 0 {
        u64::MAX
    } else {
        sign_extend32(x / y)
    }
}

/// Signed word remainder.
pub fn remw(a: u64, b: u64) -> (r: u64)
    ensures
        r == remw_spec(a, b),
{
    if low_word(b) == 0 {
        return sign_extend_word(a);
    }
    let x = sign_extend_word(a);
    let y = sign_extend_word(b);
    assert(signed64(x) == signed32(low32(a)));
    assert(signed64(y) == signed32(low32(b)));
    let m = rem(x, y);
    assert(low32(m) == wrap32(trem(signed64(x), signed64(y))));
    sign_extend_word(m)
}

/// Unsigned word remainder.
pub fn remuw(a: u64, b: u64) -> (r: u64)
    ensures
        r == remuw_spec(a, b),
{
    let x = low_word(a);
    let y = low_word(b);
    if y == 0 {
        sign_extend32(x)
    } else {
        sign_extend32(x % y)
    }
}

/// The lesser as signed numbers.
pub fn min_signed(a: u64, b: u64) -> (r: u64)
    ensures
        r == min_signed_spec(a, b),
{
    if as_signed(a) < as_signed(b) {
        a
    } else {
        b
    }
}

/// The greater as signed numbers.
pub fn max_signed(a: u64, b: u64) -> (r: u64)
    ensures
        r == max_signed_spec(a, b),
{
    if as_signed(a) < as_signed(b) {
        b
    } else {
        a
    }
}

/// The lesser as unsigned numbers.
pub fn min_unsigned(a: u64, b: u64) -> (r: u64)
    ensures
        r == min_unsigned_spec(a, b),
{
    if a < b {
        a
    } else {
        b
    }
}

/// The greater as unsigned numbers.
pub fn max_unsigned(a: u64, b: u64) -> (r: u64)
    ensures
        r == max_unsigned_spec(a, b),
{
    if a < b {
        b
    } else {
        a
    }
}

/// Division by zero gives all ones as the quotient and the dividend as the
/// remainder, signed or unsigned.
pub proof fn lemma_division_by_zero(a: u64)
    ensures
        div_spec(a, 0) == u64::MAX,
        signed64(div_spec(a, 0)) == -1,
        divu_spec(a, 0) == u64::MAX,
        rem_spec(a, 0) == a,
        remu_spec(a, 0) == a,
        divw_spec(a, 0) == u64::MAX,
        divuw_spec(a, 0) == u64::MAX,
        remw_spec(a, 0) == sext_word(a),
        remuw_spec(a, 0) == sext_word(a),
{
}

/// The least integer divided by -1 gives the least integer, with remainder
/// zero.
pub proof fn lemma_division_overflow()
    ensures
        signed64(0x8000_0000_0000_0000) == i64::MIN,
        signed64(u64::MAX) == -1,
        div_spec(0x8000_0000_0000_0000, u64::MAX) == 0x8000_0000_0000_0000,
        rem_spec(0x8000_0000_0000_0000, u64::MAX) == 0,
        divw_spec(0x8000_0000, u64::MAX) == 0xffff_ffff_8000_0000,
        remw_spec(0x8000_0000, u64::MAX) == 0,
{
}

/// A shift takes only the low six bits of its amount, so a shift by 64 is a
/// shift by 0, and in general by `n + 64` a shift by `n`.
pub proof fn lemma_shift_amount_masked(a: u64, n: u64)
    requires
        n <= u64::MAX - 64,
    ensures
        sll_spec(a, (n + 64) as u64) == sll_spec(a, n),
        srl_spec(a, (n + 64) as u64) == srl_spec(a, n),
        sra_spec(a, (n + 64) as u64) == sra_spec(a, n),
        sll_spec(a, 64) == sll_spec(a, 0),
        srl_spec(a, 64) == srl_spec(a, 0),
        sra_spec(a, 64) == sra_spec(a, 0),
{
}

/// A shift by zero leaves the operand as it is.
pub proof fn lemma_shift_by_zero(a: u64)
    by (bit_vector)
    ensures
        sll_spec(a, 0) == a,
        srl_spec(a, 0) == a,
        sra_spec(a, 0) == a,
        sll_spec(a, 64) == a,
        srl_spec(a, 64) == a,
        sra_spec(a, 64) == a,
{
}

/// The arithmetic right shift of a number that is not negative is the logical
/// shift; that of a negative number is the complement of the logical shift of
/// the complement, so that copies of the sign bit come in from the left.
pub proof fn lemma_arithmetic_shift(a: u64, b: u64)
    by (bit_vector)
    ensures
        a < 0x8000_0000_0000_0000 ==> sra_spec(a, b) == srl_spec(a, b),
        a >= 0x8000_0000_0000_0000 ==> sra_spec(a, b) == !srl_spec(!a, b),
{
}

/// The logical right shift divides by two to the shift amount.
pub proof fn lemma_logical_shift_divides(a: u64, b: u64)
    ensures
        srl_spec(a, b) == a as nat / vstd::arithmetic::power2::pow2((b % 64) as nat),
{
    vstd::bits::lemma_u64_shr_is_div(a, (b % 64) as u64);
}

} // verus!
