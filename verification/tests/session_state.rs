//! The session: field edits, the calculation cycle, persistence, export.

use q_calc::flow::CalcError;
use q_calc::session::{FieldId, ResultId, Session, SessionRecord};

fn session_with(piston: &str, rod: &str, amplitude: &str, frequency: &str) -> Session {
    let mut s = Session::default();
    assert!(s.on_field_changed(FieldId::PistonDiameter, piston.to_owned()) || piston.is_empty());
    assert!(s.on_field_changed(FieldId::RodDiameter, rod.to_owned()) || rod.is_empty());
    assert!(s.on_field_changed(FieldId::Amplitude, amplitude.to_owned()) || amplitude.is_empty());
    assert!(s.on_field_changed(FieldId::Frequency, frequency.to_owned()) || frequency.is_empty());
    s
}

#[test]
fn default_session_is_empty_with_zero_results() {
    let s = Session::default();
    assert_eq!(s.piston_diameter, "");
    assert_eq!(s.rod_diameter, "");
    assert_eq!(s.amplitude, "");
    assert_eq!(s.frequency, "");
    assert_eq!(s.main_result, "0");
    assert_eq!(s.secondary_result, "0");
    assert_eq!(s.last_error, " ");
}

#[test]
fn accepted_keystrokes_are_written() {
    let mut s = Session::default();
    assert!(s.on_field_changed(FieldId::PistonDiameter, "50".to_owned()));
    assert_eq!(s.piston_diameter, "50");
    assert!(s.on_field_changed(FieldId::Frequency, "-2.5e1".to_owned()));
    assert_eq!(s.frequency, "-2.5e1");
    // Clearing a field is always accepted.
    assert!(s.on_field_changed(FieldId::PistonDiameter, "".to_owned()));
    assert_eq!(s.piston_diameter, "");
}

#[test]
fn rejected_keystrokes_are_discarded_silently() {
    let mut s = Session::default();
    assert!(s.on_field_changed(FieldId::PistonDiameter, "50".to_owned()));
    assert!(!s.on_field_changed(FieldId::PistonDiameter, "50a".to_owned()));
    assert_eq!(s.piston_diameter, "50");
    assert!(!s.on_field_changed(FieldId::Amplitude, "-5".to_owned()));
    assert_eq!(s.amplitude, "");
    assert_eq!(s.last_error, " ");
}

#[test]
fn typing_an_exponent_into_the_frequency_field() {
    let mut s = Session::default();
    assert!(s.on_field_changed(FieldId::Frequency, "1".to_owned()));
    // "1e" does not parse yet, so the keystroke is dropped...
    assert!(!s.on_field_changed(FieldId::Frequency, "1e".to_owned()));
    assert_eq!(s.frequency, "1");
    // ...but the completed "1e5" is accepted.
    assert!(s.on_field_changed(FieldId::Frequency, "1e5".to_owned()));
    assert_eq!(s.frequency, "1e5");
}

#[test]
fn compute_with_an_empty_piston_field_reports_it() {
    let mut s = session_with("", "20", "5", "10");
    let out = s.on_compute();
    assert_eq!(out, Err(CalcError::PistonDiameter));
    assert_eq!(s.last_error, "Диаметр поршня: неверное значение");
    // The previous results survive a failed calculation.
    assert_eq!(s.main_result, "0");
    assert_eq!(s.secondary_result, "0");
}

#[test]
fn successful_compute_leaves_recording_to_the_caller() {
    let mut s = session_with("50", "20", "5", "10");
    let r = s.on_compute().unwrap();
    assert_eq!(s.main_result, "0");
    let main = f32::from_bits(r.q_litres_per_minute).to_string();
    let secondary = f32::from_bits(r.q_cubic_metres_per_second).to_string();
    s.record_success(main.clone(), secondary.clone());
    assert_eq!(s.main_result, main);
    assert_eq!(s.secondary_result, secondary);
    assert_eq!(s.last_error, " ");
    // The raw fields are untouched.
    assert_eq!(s.piston_diameter, "50");
    assert_eq!(s.frequency, "10");
}

#[test]
fn record_failure_touches_only_the_error_text() {
    let mut s = session_with("50", "20", "5", "10");
    s.record_success("31".to_owned(), "0.0005".to_owned());
    s.record_failure("no".to_owned());
    assert_eq!(s.last_error, "no");
    assert_eq!(s.main_result, "31");
    assert_eq!(s.secondary_result, "0.0005");
    assert_eq!(s.piston_diameter, "50");
}

#[test]
fn export_hands_back_the_result_text_unchanged() {
    let mut s = Session::default();
    s.record_success("31.08".to_owned(), "0.000518".to_owned());
    assert_eq!(s.export_text(ResultId::Main), "31.08");
    assert_eq!(s.export_text(ResultId::Secondary), "0.000518");
}

#[test]
fn persistence_round_trip_preserves_every_field() {
    let mut s = session_with("50", "20", "5", "-2.5");
    s.record_success("31.08".to_owned(), "0.000518".to_owned());
    let restored = Session::from_record(s.to_record());
    assert_eq!(restored.piston_diameter, s.piston_diameter);
    assert_eq!(restored.rod_diameter, s.rod_diameter);
    assert_eq!(restored.amplitude, s.amplitude);
    assert_eq!(restored.frequency, s.frequency);
    assert_eq!(restored.main_result, s.main_result);
    assert_eq!(restored.secondary_result, s.secondary_result);
    assert_eq!(restored.last_error, " ");
    // Persisting the restored session again changes nothing further.
    let twice = Session::from_record(restored.to_record());
    assert_eq!(twice.piston_diameter, restored.piston_diameter);
    assert_eq!(twice.frequency, restored.frequency);
    assert_eq!(twice.main_result, restored.main_result);
}

#[test]
fn a_tampered_record_degrades_to_cleared_fields() {
    let record = SessionRecord {
        piston_diameter: "abc".to_owned(),
        rod_diameter: "20".to_owned(),
        amplitude: "+5".to_owned(),
        frequency: "1e".to_owned(),
        main_result: "whatever".to_owned(),
        secondary_result: "0".to_owned(),
    };
    let s = Session::from_record(record);
    assert_eq!(s.piston_diameter, "");
    assert_eq!(s.rod_diameter, "20");
    assert_eq!(s.amplitude, "");
    assert_eq!(s.frequency, "");
    // Result strings carry no invariant and are kept as stored.
    assert_eq!(s.main_result, "whatever");
    assert_eq!(s.secondary_result, "0");
}

#[test]
fn a_missing_store_yields_the_default_session() {
    let s = Session::from_load(None);
    assert_eq!(s.piston_diameter, "");
    assert_eq!(s.main_result, "0");
    assert_eq!(s.last_error, " ");
    let loaded = Session::from_load(Some(Session::default().to_record()));
    assert_eq!(loaded.main_result, "0");
    assert_eq!(loaded.piston_diameter, "");
}
