//! The per-keystroke validator: unsigned-integer and decimal grammars.

use q_calc::validate::{validate, FieldKind};

#[test]
fn unsigned_accepts_plain_digit_strings() {
    assert!(validate(FieldKind::UnsignedInt, ""));
    assert!(validate(FieldKind::UnsignedInt, "0"));
    assert!(validate(FieldKind::UnsignedInt, "7"));
    assert!(validate(FieldKind::UnsignedInt, "42"));
    assert!(validate(FieldKind::UnsignedInt, "007"));
    assert!(validate(FieldKind::UnsignedInt, "4294967295"));
}

#[test]
fn unsigned_rejects_signs_garbage_and_overflow() {
    assert!(!validate(FieldKind::UnsignedInt, "+5"));
    assert!(!validate(FieldKind::UnsignedInt, "-5"));
    assert!(!validate(FieldKind::UnsignedInt, "1.5"));
    assert!(!validate(FieldKind::UnsignedInt, "abc"));
    assert!(!validate(FieldKind::UnsignedInt, " 5"));
    assert!(!validate(FieldKind::UnsignedInt, "5 "));
    assert!(!validate(FieldKind::UnsignedInt, "5five"));
    assert!(!validate(FieldKind::UnsignedInt, "4294967296"));
    assert!(!validate(FieldKind::UnsignedInt, "99999999999999999999"));
}

#[test]
fn unsigned_matches_u32_parsing_on_unsigned_literals() {
    // On digit-only candidates the validator coincides with u32 parsing;
    // it is stricter only in refusing an explicit sign.
    let cases = [
        "", "0", "1", "10", "007", "4294967295", "4294967296", "abc", "1 2", "0x10", "١٢",
    ];
    for s in cases {
        let digits_only = !s.is_empty() && s.bytes().all(|b| b.is_ascii_digit());
        let expected = if digits_only { s.parse::<u32>().is_ok() } else { s.is_empty() };
        assert_eq!(validate(FieldKind::UnsignedInt, s), expected, "case {:?}", s);
    }
}

#[test]
fn decimal_accepts_finite_literals() {
    assert!(validate(FieldKind::Decimal, ""));
    assert!(validate(FieldKind::Decimal, "1"));
    assert!(validate(FieldKind::Decimal, "-1"));
    assert!(validate(FieldKind::Decimal, "+1"));
    assert!(validate(FieldKind::Decimal, "1.5"));
    assert!(validate(FieldKind::Decimal, "-2.5"));
    assert!(validate(FieldKind::Decimal, ".5"));
    assert!(validate(FieldKind::Decimal, "-.5"));
    assert!(validate(FieldKind::Decimal, "5."));
    assert!(validate(FieldKind::Decimal, "5.e3"));
    assert!(validate(FieldKind::Decimal, "1e5"));
    assert!(validate(FieldKind::Decimal, "1E5"));
    assert!(validate(FieldKind::Decimal, "1e-5"));
    assert!(validate(FieldKind::Decimal, "+1e+5"));
    assert!(validate(FieldKind::Decimal, "0.000001"));
}

#[test]
fn decimal_rejects_malformed_strings() {
    assert!(!validate(FieldKind::Decimal, "."));
    assert!(!validate(FieldKind::Decimal, "+"));
    assert!(!validate(FieldKind::Decimal, "-"));
    assert!(!validate(FieldKind::Decimal, "--1"));
    assert!(!validate(FieldKind::Decimal, "+-1"));
    assert!(!validate(FieldKind::Decimal, "1e"));
    assert!(!validate(FieldKind::Decimal, "1e+"));
    assert!(!validate(FieldKind::Decimal, "e5"));
    assert!(!validate(FieldKind::Decimal, "-e5"));
    assert!(!validate(FieldKind::Decimal, "1e5e5"));
    assert!(!validate(FieldKind::Decimal, "1.2.3"));
    assert!(!validate(FieldKind::Decimal, "1,5"));
    assert!(!validate(FieldKind::Decimal, "abc"));
    assert!(!validate(FieldKind::Decimal, " 1"));
    assert!(!validate(FieldKind::Decimal, "1 "));
}

#[test]
fn decimal_is_finite_only() {
    // The chosen grammar covers finite literals; the special spellings of
    // infinities and NaNs are not part of it.
    assert!(!validate(FieldKind::Decimal, "inf"));
    assert!(!validate(FieldKind::Decimal, "-inf"));
    assert!(!validate(FieldKind::Decimal, "infinity"));
    assert!(!validate(FieldKind::Decimal, "nan"));
    assert!(!validate(FieldKind::Decimal, "NaN"));
}

#[test]
fn decimal_matches_f32_parsing_on_ordinary_literals() {
    // Away from the special inf/nan spellings and the bare-exponent corner
    // ("1e"), the grammar coincides with what f32 parsing accepts.
    let cases = [
        "", "1", "-1", "+1", "1.5", ".5", "5.", ".", "--1", "1e5", "1E-5", "+1e+5", "5.e3",
        "1.2.3", "1,5", "abc", " 1", "1 ", "0.000001", "9e99", "1e-99",
    ];
    for s in cases {
        let expected = if s.is_empty() { true } else { s.parse::<f32>().is_ok() };
        assert_eq!(validate(FieldKind::Decimal, s), expected, "case {:?}", s);
    }
}

#[test]
fn transitional_typing_of_an_exponent() {
    // Typing "e" after "1" passes through a rejected intermediate string:
    // "1e" is discarded, while the completed "1e5" is accepted.
    assert!(validate(FieldKind::Decimal, "1"));
    assert!(!validate(FieldKind::Decimal, "1e"));
    assert!(validate(FieldKind::Decimal, "1e5"));
}
