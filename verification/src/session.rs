//! The long-lived session: raw fields, results, error text, persistence.
//!
//! A `Session` holds the four raw field strings, the two formatted result
//! strings, and the transient operator-facing error text.  Raw fields are
//! only ever written through the validator's gate, so at all times each
//! one is empty or parses as its field's numeric kind.  The session is
//! persisted as a [`SessionRecord`] of its six display strings; the error
//! text is not persisted.

use vstd::prelude::*;

use crate::flow::{
    fields_parse, spec_compute, spec_si_of, try_calc_q, CalcError, CalculationResult,
};
use crate::unsigned::uint_value;
use crate::validate::{accepts, validate, FieldKind};

verus! {

/// Identifies one of the four raw input fields.
#[derive(Clone, Copy, PartialEq, Eq, Structural, Debug)]
pub enum FieldId {
    PistonDiameter,
    RodDiameter,
    Amplitude,
    Frequency,
}

impl FieldId {
    /// The numeric kind this field must hold.
    pub open spec fn kind(self) -> FieldKind {
        match self {
            FieldId::Frequency => FieldKind::Decimal,
            _ => FieldKind::UnsignedInt,
        }
    }
}

/// Identifies one of the two result fields for clipboard export.
#[derive(Clone, Copy, PartialEq, Eq, Structural, Debug)]
pub enum ResultId {
    /// The flow rate in litres per minute.
    Main,
    /// The flow rate in cubic metres per second.
    Secondary,
}

/// The session state: what the operator sees and what is persisted.
pub struct Session {
    pub piston_diameter: String,
    pub rod_diameter: String,
    pub amplitude: String,
    pub frequency: String,
    pub main_result: String,
    pub secondary_result: String,
    /// Transient; a single blank when there is no error, so the error
    /// region of a renderer keeps its layout space.
    pub last_error: String,
}

/// The persisted form of a session: the six display strings.  The
/// transient error text is not part of it.
pub struct SessionRecord {
    pub piston_diameter: String,
    pub rod_diameter: String,
    pub amplitude: String,
    pub frequency: String,
    pub main_result: String,
    pub secondary_result: String,
}

/// `r` holds exactly the persisted fields of `s`.
pub open spec fn persists(s: Session, r: SessionRecord) -> bool {
    &&& r.piston_diameter@ == s.piston_diameter@
    &&& r.rod_diameter@ == s.rod_diameter@
    &&& r.amplitude@ == s.amplitude@
    &&& r.frequency@ == s.frequency@
    &&& r.main_result@ == s.main_result@
    &&& r.secondary_result@ == s.secondary_result@
}

/// `s` is the session restored from record `r`: each raw field is kept
/// when the validator accepts it and cleared otherwise, the results are
/// kept as they were, and the error text is the blank placeholder.
pub open spec fn restores(r: SessionRecord, s: Session) -> bool {
    &&& s.piston_diameter@ == (if accepts(FieldKind::UnsignedInt, r.piston_diameter@) {
        r.piston_diameter@
    } else {
        Seq::<char>::empty()
    })
    &&& s.rod_diameter@ == (if accepts(FieldKind::UnsignedInt, r.rod_diameter@) {
        r.rod_diameter@
    } else {
        Seq::<char>::empty()
    })
    &&& s.amplitude@ == (if accepts(FieldKind::UnsignedInt, r.amplitude@) {
        r.amplitude@
    } else {
        Seq::<char>::empty()
    })
    &&& s.frequency@ == (if accepts(FieldKind::Decimal, r.frequency@) {
        r.frequency@
    } else {
        Seq::<char>::empty()
    })
    &&& s.main_result@ == r.main_result@
    &&& s.secondary_result@ == r.secondary_result@
    &&& s.last_error@ == " "@
}

impl Session {
    /// The raw-field invariant: every raw field is empty or parses as its
    /// field's numeric kind.
    pub open spec fn wf(self) -> bool {
        &&& accepts(FieldKind::UnsignedInt, self.piston_diameter@)
        &&& accepts(FieldKind::UnsignedInt, self.rod_diameter@)
        &&& accepts(FieldKind::UnsignedInt, self.amplitude@)
        &&& accepts(FieldKind::Decimal, self.frequency@)
    }

    /// The view of one raw field.
    pub open spec fn spec_field(self, id: FieldId) -> Seq<char> {
        match id {
            FieldId::PistonDiameter => self.piston_diameter@,
            FieldId::RodDiameter => self.rod_diameter@,
            FieldId::Amplitude => self.amplitude@,
            FieldId::Frequency => self.frequency@,
        }
    }

    /// The default session: raw fields empty, both results the textual
    /// zero, no error.
    pub open spec fn is_default(self) -> bool {
        &&& self.piston_diameter@ == Seq::<char>::empty()
        &&& self.rod_diameter@ == Seq::<char>::empty()
        &&& self.amplitude@ == Seq::<char>::empty()
        &&& self.frequency@ == Seq::<char>::empty()
        &&& self.main_result@ == "0"@
        &&& self.secondary_result@ == "0"@
        &&& self.last_error@ == " "@
    }

    /// Writes `text` into the chosen field when the validator accepts it;
    /// otherwise discards the keystroke silently and changes nothing.
    pub fn on_field_changed(&mut self, id: FieldId, text: String) -> (accepted: bool)
        ensures
            accepted == accepts(id.kind(), text@),
            accepted ==> final(self).spec_field(id) == text@,
            !accepted ==> *final(self) == *old(self),
            forall|other: FieldId|
                other != id ==> #[trigger] final(self).spec_field(other) == old(self).spec_field(
                    other,
                ),
            final(self).main_result == old(self).main_result,
            final(self).secondary_result == old(self).secondary_result,
            final(self).last_error == old(self).last_error,
            old(self).wf() ==> final(self).wf(),
    {
        let kind = match id {
            FieldId::Frequency => FieldKind::Decimal,
            _ => FieldKind::UnsignedInt,
        };
        let accepted = validate(kind, text.as_str());
        if accepted {
            match id {
                FieldId::PistonDiameter => self.piston_diameter = text,
                FieldId::RodDiameter => self.rod_diameter = text,
                FieldId::Amplitude => self.amplitude = text,
                FieldId::Frequency => self.frequency = text,
            }
        }
        accepted
    }

    /// Runs one calculation cycle over the current fields.
    ///
    /// On success the session is left unchanged and the result is handed
    /// back: the caller formats it, records it with [`record_success`],
    /// and then persists the session.  On failure the failing field's
    /// message becomes the error text and nothing else changes.
    ///
    /// [`record_success`]: Session::record_success
    pub fn on_compute(&mut self) -> (out: Result<CalculationResult, CalcError>)
        ensures
            match out {
                Ok(r) => *final(self) == *old(self) && fields_parse(
                    old(self).piston_diameter@,
                    old(self).rod_diameter@,
                    old(self).amplitude@,
                    old(self).frequency@,
                ) && r == spec_compute(
                    spec_si_of(
                        uint_value(old(self).piston_diameter@) as u32,
                        uint_value(old(self).rod_diameter@) as u32,
                        uint_value(old(self).amplitude@) as u32,
                        old(self).frequency@,
                    ),
                ),
                Err(e) => {
                    &&& final(self).last_error@ == e.spec_message()
                    &&& final(self).piston_diameter == old(self).piston_diameter
                    &&& final(self).rod_diameter == old(self).rod_diameter
                    &&& final(self).amplitude == old(self).amplitude
                    &&& final(self).frequency == old(self).frequency
                    &&& final(self).main_result == old(self).main_result
                    &&& final(self).secondary_result == old(self).secondary_result
                    &&& match e {
                        CalcError::PistonDiameter => !crate::unsigned::parses_as_u32(
                            old(self).piston_diameter@,
                        ),
                        CalcError::RodDiameter => crate::unsigned::parses_as_u32(
                            old(self).piston_diameter@,
                        ) && !crate::unsigned::parses_as_u32(old(self).rod_diameter@),
                        CalcError::Amplitude => crate::unsigned::parses_as_u32(
                            old(self).piston_diameter@,
                        ) && crate::unsigned::parses_as_u32(old(self).rod_diameter@)
                            && !crate::unsigned::parses_as_u32(old(self).amplitude@),
                        CalcError::Frequency => crate::unsigned::parses_as_u32(
                            old(self).piston_diameter@,
                        ) && crate::unsigned::parses_as_u32(old(self).rod_diameter@)
                            && crate::unsigned::parses_as_u32(old(self).amplitude@)
                            && !crate::decimal::is_decimal_literal(old(self).frequency@),
                    }
                },
            },
            old(self).wf() ==> final(self).wf(),
    {
        let out = try_calc_q(
            self.piston_diameter.as_str(),
            self.rod_diameter.as_str(),
            self.amplitude.as_str(),
            self.frequency.as_str(),
        );
        match out {
            Ok(r) => Ok(r),
            Err(e) => {
                self.last_error = e.message();
                Err(e)
            },
        }
    }

    /// Records a successful calculation: the formatted results replace the
    /// previous ones and the error text is cleared to the blank
    /// placeholder.  The caller then persists the session.
    pub fn record_success(&mut self, main_result: String, secondary_result: String)
        ensures
            final(self).main_result == main_result,
            final(self).secondary_result == secondary_result,
            final(self).last_error@ == " "@,
            final(self).piston_diameter == old(self).piston_diameter,
            final(self).rod_diameter == old(self).rod_diameter,
            final(self).amplitude == old(self).amplitude,
            final(self).frequency == old(self).frequency,
            old(self).wf() ==> final(self).wf(),
    {
        self.main_result = main_result;
        self.secondary_result = secondary_result;
        self.last_error = " ".to_owned();
    }

    /// Records a failed calculation: only the error text changes, and the
    /// persisted store is left alone.
    pub fn record_failure(&mut self, message: String)
        ensures
            final(self).last_error == message,
            final(self).piston_diameter == old(self).piston_diameter,
            final(self).rod_diameter == old(self).rod_diameter,
            final(self).amplitude == old(self).amplitude,
            final(self).frequency == old(self).frequency,
            final(self).main_result == old(self).main_result,
            final(self).secondary_result == old(self).secondary_result,
            old(self).wf() ==> final(self).wf(),
    {
        self.last_error = message;
    }

    /// The exact text to hand to the clipboard collaborator for the
    /// chosen result: the stored result string, with nothing added.
    pub fn export_text(&self, id: ResultId) -> (r: String)
        ensures
            r@ == match id {
                ResultId::Main => self.main_result@,
                ResultId::Secondary => self.secondary_result@,
            },
    {
        match id {
            ResultId::Main => self.main_result.clone(),
            ResultId::Secondary => self.secondary_result.clone(),
        }
    }

    /// Copies the six persisted fields out of the session.
    pub fn to_record(&self) -> (r: SessionRecord)
        ensures
            persists(*self, r),
    {
        SessionRecord {
            piston_diameter: self.piston_diameter.clone(),
            rod_diameter: self.rod_diameter.clone(),
            amplitude: self.amplitude.clone(),
            frequency: self.frequency.clone(),
            main_result: self.main_result.clone(),
            secondary_result: self.secondary_result.clone(),
        }
    }

    /// Restores a session from a persisted record, keeping each raw field
    /// only when the validator still accepts it.
    pub fn from_record(record: SessionRecord) -> (s: Session)
        ensures
            restores(record, s),
            s.wf(),
    {
        let piston_diameter = if validate(FieldKind::UnsignedInt, record.piston_diameter.as_str()) {
            record.piston_diameter
        } else {
            String::new()
        };
        let rod_diameter = if validate(FieldKind::UnsignedInt, record.rod_diameter.as_str()) {
            record.rod_diameter
        } else {
            String::new()
        };
        let amplitude = if validate(FieldKind::UnsignedInt, record.amplitude.as_str()) {
            record.amplitude
        } else {
            String::new()
        };
        let frequency = if validate(FieldKind::Decimal, record.frequency.as_str()) {
            record.frequency
        } else {
            String::new()
        };
        Session {
            piston_diameter,
            rod_diameter,
            amplitude,
            frequency,
            main_result: record.main_result,
            secondary_result: record.secondary_result,
            last_error: " ".to_owned(),
        }
    }

    /// Builds the startup session from what the configuration store
    /// returned: the restored record, or the default session when the
    /// store was missing, unreadable, or malformed.
    pub fn from_load(loaded: Option<SessionRecord>) -> (s: Session)
        ensures
            match loaded {
                Some(r) => restores(r, s),
                None => s.is_default(),
            },
            s.wf(),
    {
        match loaded {
            Some(record) => Session::from_record(record),
            None => Session::default(),
        }
    }
}

impl Default for Session {
    /// The default session: raw fields empty, both results the textual
    /// zero, no error.
    fn default() -> (s: Session)
        ensures
            s.is_default(),
            s.wf(),
    {
        Session {
            piston_diameter: String::new(),
            rod_diameter: String::new(),
            amplitude: String::new(),
            frequency: String::new(),
            main_result: "0".to_owned(),
            secondary_result: "0".to_owned(),
            last_error: " ".to_owned(),
        }
    }
}

/// Persisting a well-formed session and restoring it reproduces every
/// persisted field value; only the transient error text is re-blanked.
pub proof fn lemma_persist_round_trip(s: Session, r: SessionRecord, s2: Session)
    requires
        s.wf(),
        persists(s, r),
        restores(r, s2),
    ensures
        s2.piston_diameter@ == s.piston_diameter@,
        s2.rod_diameter@ == s.rod_diameter@,
        s2.amplitude@ == s.amplitude@,
        s2.frequency@ == s.frequency@,
        s2.main_result@ == s.main_result@,
        s2.secondary_result@ == s.secondary_result@,
        s2.last_error@ == " "@,
        s2.wf(),
{
}

} // verus!
