//! Verified core of a hydraulic actuator flow-rate calculator.
//!
//! The library turns four operator-entered text fields (piston diameter,
//! rod diameter, signal amplitude, signal frequency) into a volumetric flow
//! rate, reported both in litres per minute and in cubic metres per second.
//! It provides:
//!
//! * per-keystroke field validation ([`validate::validate`]),
//! * conversion of the raw fields into SI quantities ([`flow::to_si`]),
//! * the flow computation itself ([`flow::compute`]), carried out in IEEE
//!   binary32 arithmetic on bit patterns,
//! * the long-lived session state with its persistence record
//!   ([`session::Session`]),
//! * selection of a result for clipboard export
//!   ([`session::Session::export_text`]).
//!
//! Reading and writing the configuration store, placing text on the system
//! clipboard, and rendering the session are left to the surrounding
//! application; every function here is a pure computation or an in-place
//! update of the session value it is given.

pub mod binary32;
pub mod chars;
pub mod decimal;
pub mod flow;
pub mod session;
pub mod unsigned;
pub mod validate;
