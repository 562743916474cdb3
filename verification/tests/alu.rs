use rrv64g::alu::{
    addw, as_signed, as_unsigned, div, divu, divuw, divw, low_word, max_signed, max_unsigned,
    min_signed, min_unsigned, minus, mulh, mulhsu, mulhu, mulw, plus, rem, remu, remuw, remw,
    sign_extend32, sign_extend_byte, sign_extend_half, sign_extend_word, sll, sllw, slt, sltu, sra,
    sraw, srl, srlw, subw, times,
};

const INT_MIN: u64 = 0x8000_0000_0000_0000;
const MINUS_ONE: u64 = 0xffff_ffff_ffff_ffff;
const WORD_MIN: u64 = 0xffff_ffff_8000_0000;

#[test]
fn twos_complement_conversions() {
    assert_eq!(as_signed(0), 0);
    assert_eq!(as_signed(MINUS_ONE), -1);
    assert_eq!(as_signed(INT_MIN), i64::MIN);
    assert_eq!(as_signed(0x7fff_ffff_ffff_ffff), i64::MAX);
    assert_eq!(as_unsigned(-1), MINUS_ONE);
    assert_eq!(as_unsigned(i64::MIN), INT_MIN);
    assert_eq!(as_unsigned(-2048), 0xffff_ffff_ffff_f800);
    assert_eq!(as_unsigned(5), 5);
}

#[test]
fn sign_extension() {
    assert_eq!(low_word(0x1234_5678_9abc_def0), 0x9abc_def0);
    assert_eq!(sign_extend32(0x7fff_ffff), 0x7fff_ffff);
    assert_eq!(sign_extend32(0x8000_0000), WORD_MIN);
    assert_eq!(sign_extend_word(0x1_8000_0000), WORD_MIN);
    assert_eq!(sign_extend_word(0xffff_ffff_0000_0001), 1);
    assert_eq!(sign_extend_half(0x7fff), 0x7fff);
    assert_eq!(sign_extend_half(0x1_8000), 0xffff_ffff_ffff_8000);
    assert_eq!(sign_extend_byte(0x7f), 0x7f);
    assert_eq!(sign_extend_byte(0x180), 0xffff_ffff_ffff_ff80);
    assert_eq!(sign_extend_byte(0xff), MINUS_ONE);
}

#[test]
fn wrapping_arithmetic() {
    assert_eq!(plus(MINUS_ONE, 1), 0);
    assert_eq!(plus(3, 4), 7);
    assert_eq!(minus(0, 1), MINUS_ONE);
    assert_eq!(minus(10, 4), 6);
    assert_eq!(times(INT_MIN, 2), 0);
    assert_eq!(times(MINUS_ONE, MINUS_ONE), 1);
    assert_eq!(times(6, 7), 42);
}

#[test]
fn comparisons() {
    assert_eq!(slt(MINUS_ONE, 0), 1);
    assert_eq!(slt(0, MINUS_ONE), 0);
    assert_eq!(slt(INT_MIN, 0x7fff_ffff_ffff_ffff), 1);
    assert_eq!(slt(5, 5), 0);
    assert_eq!(sltu(MINUS_ONE, 0), 0);
    assert_eq!(sltu(0, MINUS_ONE), 1);
    assert_eq!(sltu(5, 5), 0);
    assert_eq!(min_signed(MINUS_ONE, 1), MINUS_ONE);
    assert_eq!(max_signed(MINUS_ONE, 1), 1);
    assert_eq!(min_unsigned(MINUS_ONE, 1), 1);
    assert_eq!(max_unsigned(MINUS_ONE, 1), MINUS_ONE);
}

#[test]
fn shift_amount_is_masked_to_six_bits() {
    let a = 0x8123_4567_89ab_cdef;
    assert_eq!(sll(a, 64), a);
    assert_eq!(srl(a, 64), a);
    assert_eq!(sra(a, 64), a);
    assert_eq!(sll(a, 65), a << 1);
    assert_eq!(srl(a, 65), a >> 1);
    assert_eq!(sra(a, 65), 0xc091_a2b3_c4d5_e6f7);
    assert_eq!(sll(1, 63), INT_MIN);
    assert_eq!(sll(1, 0xffff_ffff_ffff_ffc0 + 4), 16);
    assert_eq!(srl(INT_MIN, 63), 1);
    assert_eq!(sra(INT_MIN, 63), MINUS_ONE);
    assert_eq!(sra(0x4000_0000_0000_0000, 62), 1);
    assert_eq!(sll(a, 32), 0x89ab_cdef_0000_0000);
}

#[test]
fn word_shifts_mask_to_five_bits_and_sign_extend() {
    assert_eq!(sllw(1, 31), WORD_MIN);
    assert_eq!(sllw(1, 32), 1);
    assert_eq!(sllw(0xffff_ffff_0000_0001, 4), 16);
    assert_eq!(srlw(0x8000_0000, 31), 1);
    assert_eq!(srlw(0x8000_0000, 0), WORD_MIN);
    assert_eq!(srlw(0xffff_ffff_ffff_ffff, 1), 0x7fff_ffff);
    assert_eq!(sraw(0x8000_0000, 31), MINUS_ONE);
    assert_eq!(sraw(0x8000_0000, 33), 0xffff_ffff_c000_0000);
    assert_eq!(sraw(0x4000_0000, 30), 1);
}

#[test]
fn word_arithmetic_sign_extends() {
    assert_eq!(addw(0x7fff_ffff, 1), WORD_MIN);
    assert_eq!(addw(0xffff_ffff, 1), 0);
    assert_eq!(addw(0x1_0000_0005, 0x2_0000_0006), 11);
    assert_eq!(subw(0, 1), MINUS_ONE);
    assert_eq!(subw(0x8000_0000, 1), 0x7fff_ffff);
    assert_eq!(mulw(0x10000, 0x8000), WORD_MIN);
    assert_eq!(mulw(0x10000, 0x10000), 0);
    assert_eq!(mulw(3, MINUS_ONE), 0xffff_ffff_ffff_fffd);
}

#[test]
fn upper_halves_of_products() {
    assert_eq!(mulhu(MINUS_ONE, MINUS_ONE), 0xffff_ffff_ffff_fffe);
    assert_eq!(mulhu(1 << 32, 1 << 32), 1);
    assert_eq!(mulhu(3, 4), 0);
    assert_eq!(mulh(MINUS_ONE, MINUS_ONE), 0);
    assert_eq!(mulh(MINUS_ONE, 1), MINUS_ONE);
    assert_eq!(mulh(INT_MIN, INT_MIN), 0x4000_0000_0000_0000);
    assert_eq!(mulh(INT_MIN, 2), MINUS_ONE);
    assert_eq!(mulh(1 << 62, 4), 1);
    assert_eq!(mulhsu(MINUS_ONE, MINUS_ONE), MINUS_ONE);
    assert_eq!(mulhsu(MINUS_ONE, 1), MINUS_ONE);
    assert_eq!(mulhsu(1, MINUS_ONE), 0);
    assert_eq!(mulhsu(INT_MIN, MINUS_ONE), 0x8000_0000_0000_0000);
    assert_eq!(mulhsu(2, INT_MIN), 1);
}

#[test]
fn division_by_zero() {
    for a in [0u64, 1, 42, INT_MIN, MINUS_ONE, 0x1234_5678_9abc_def0] {
        assert_eq!(div(a, 0), MINUS_ONE);
        assert_eq!(divu(a, 0), MINUS_ONE);
        assert_eq!(rem(a, 0), a);
        assert_eq!(remu(a, 0), a);
        assert_eq!(divw(a, 0), MINUS_ONE);
        assert_eq!(divuw(a, 0), MINUS_ONE);
        assert_eq!(remw(a, 0), sign_extend_word(a));
        assert_eq!(remuw(a, 0), sign_extend_word(a));
        // Only the low word of a word divisor counts.
        assert_eq!(divw(a, 0x1_0000_0000), MINUS_ONE);
        assert_eq!(remuw(a, 0xffff_ffff_0000_0000), sign_extend_word(a));
    }
}

#[test]
fn division_overflow() {
    assert_eq!(div(INT_MIN, MINUS_ONE), INT_MIN);
    assert_eq!(rem(INT_MIN, MINUS_ONE), 0);
    assert_eq!(divw(0x8000_0000, MINUS_ONE), WORD_MIN);
    assert_eq!(remw(0x8000_0000, MINUS_ONE), 0);
    assert_eq!(divw(WORD_MIN, 0xffff_ffff), WORD_MIN);
}

#[test]
fn signed_division_rounds_toward_zero() {
    assert_eq!(div(7, 2), 3);
    assert_eq!(div(as_unsigned(-7), 2), as_unsigned(-3));
    assert_eq!(div(7, as_unsigned(-2)), as_unsigned(-3));
    assert_eq!(div(as_unsigned(-7), as_unsigned(-2)), 3);
    assert_eq!(rem(7, 2), 1);
    assert_eq!(rem(as_unsigned(-7), 2), as_unsigned(-1));
    assert_eq!(rem(7, as_unsigned(-2)), 1);
    assert_eq!(rem(as_unsigned(-7), as_unsigned(-2)), as_unsigned(-1));
    assert_eq!(div(INT_MIN, 1), INT_MIN);
    assert_eq!(div(INT_MIN, 2), 0xc000_0000_0000_0000);
    assert_eq!(divw(as_unsigned(-7), 2), as_unsigned(-3));
    assert_eq!(remw(as_unsigned(-7), 2), as_unsigned(-1));
    assert_eq!(divw(0x1_0000_0007, 0x5_0000_0002), 3);
}

#[test]
fn unsigned_division() {
    assert_eq!(divu(MINUS_ONE, 2), 0x7fff_ffff_ffff_ffff);
    assert_eq!(remu(MINUS_ONE, 2), 1);
    assert_eq!(divu(7, 8), 0);
    assert_eq!(remu(7, 8), 7);
    assert_eq!(divuw(0xffff_ffff, 2), 0x7fff_ffff);
    assert_eq!(divuw(0xffff_ffff, 1), MINUS_ONE);
    assert_eq!(remuw(0xffff_ffff, 0x1_0000_0000 + 0x8000_0000), 0x7fff_ffff);
    assert_eq!(remuw(0xffff_ffff, 0), MINUS_ONE);
}
