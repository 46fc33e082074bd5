//! The per-keystroke acceptance test for the four text fields.

use vstd::prelude::*;

use crate::decimal::{check_decimal, is_decimal_literal};
use crate::unsigned::{parse_unsigned, parses_as_u32};

verus! {

/// The numeric kind a field must hold.
#[derive(Clone, Copy, PartialEq, Eq, Structural, Debug)]
pub enum FieldKind {
    /// A digit string whose value fits in a `u32`: the diameters and the
    /// amplitude.
    UnsignedInt,
    /// A finite decimal literal: the frequency.
    Decimal,
}

/// What the validator accepts: the empty string (so the operator can clear
/// a field), or a string of the field's numeric kind.
pub open spec fn accepts(kind: FieldKind, candidate: Seq<char>) -> bool {
    candidate.len() == 0 || match kind {
        FieldKind::UnsignedInt => parses_as_u32(candidate),
        FieldKind::Decimal => is_decimal_literal(candidate),
    }
}

/// Decides whether a field of the given kind may be set to `candidate`.
///
/// A pure predicate: the caller writes `candidate` into the field only on
/// `true`, and otherwise leaves the field as it was.
pub fn validate(kind: FieldKind, candidate: &str) -> (r: bool)
    ensures
        r == accepts(kind, candidate@),
{
    if candidate.unicode_len() == 0 {
        return true;
    }
    match kind {
        FieldKind::UnsignedInt => parse_unsigned(candidate).is_some(),
        FieldKind::Decimal => check_decimal(candidate),
    }
}

} // verus!
