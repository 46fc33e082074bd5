//! Unit conversion and the flow computation.
//!
//! Four raw field strings are parsed, converted into SI base units, and fed
//! into the formula for the volumetric flow rate of an actuator:
//! `area = (pi/4) * (piston_m^2 - rod_m^2)` and
//! `Q = frequency_rad_s * amplitude_m * area`, reported both in cubic
//! metres per second and in litres per minute.  All quantities are IEEE
//! binary32 values handled as bit patterns; a negative working area (rod
//! wider than piston) is propagated, not rejected.

use vstd::prelude::*;

use crate::binary32::{
    b32_div, b32_mul, b32_of_decimal, b32_of_uint, b32_sub, decimal_to_bits, div_bits, mul_bits,
    sub_bits, uint_to_bits, FOUR_BITS, PI_BITS, SIXTY_THOUSAND_BITS, THOUSAND_BITS, TWO_BITS,
};
use crate::decimal::{check_decimal, is_decimal_literal};
use crate::unsigned::{parse_unsigned, parses_as_u32, uint_value};

verus! {

/// The four inputs in SI base units, as binary32 bit patterns.
#[derive(Clone, Copy, PartialEq, Eq, Structural, Debug)]
pub struct SiInputs {
    /// Piston diameter in metres.
    pub piston_m: u32,
    /// Rod diameter in metres.
    pub rod_m: u32,
    /// Signal amplitude in metres.
    pub amplitude_m: u32,
    /// Signal frequency in radians per second.
    pub frequency_rad_s: u32,
}

/// Both representations of the computed flow rate, as binary32 bit
/// patterns.  Immutable once produced.
#[derive(Clone, Copy, PartialEq, Eq, Structural, Debug)]
pub struct CalculationResult {
    /// The flow rate in litres per minute.
    pub q_litres_per_minute: u32,
    /// The flow rate in cubic metres per second.
    pub q_cubic_metres_per_second: u32,
}

/// Which field failed to parse when a calculation was requested.
#[derive(Clone, Copy, PartialEq, Eq, Structural, Debug)]
pub enum CalcError {
    PistonDiameter,
    RodDiameter,
    Amplitude,
    Frequency,
}

impl CalcError {
    /// The operator-facing message for this error.
    pub open spec fn spec_message(self) -> Seq<char> {
        match self {
            CalcError::PistonDiameter => "Диаметр поршня: неверное значение"@,
            CalcError::RodDiameter => "Диаметр штока: неверное значение"@,
            CalcError::Amplitude => "Амплитуда сигнала: неверное значение"@,
            CalcError::Frequency => "Частота сигнала: неверное значение"@,
        }
    }

    /// Renders the operator-facing message for this error.
    pub fn message(&self) -> (r: String)
        ensures
            r@ == self.spec_message(),
    {
        match self {
            CalcError::PistonDiameter => "Диаметр поршня: неверное значение".to_owned(),
            CalcError::RodDiameter => "Диаметр штока: неверное значение".to_owned(),
            CalcError::Amplitude => "Амплитуда сигнала: неверное значение".to_owned(),
            CalcError::Frequency => "Частота сигнала: неверное значение".to_owned(),
        }
    }
}

/// All four fields parse as their numeric kinds.
pub open spec fn fields_parse(
    piston: Seq<char>,
    rod: Seq<char>,
    amplitude: Seq<char>,
    frequency: Seq<char>,
) -> bool {
    parses_as_u32(piston) && parses_as_u32(rod) && parses_as_u32(amplitude)
        && is_decimal_literal(frequency)
}

/// The SI quantities obtained from parsed field values: millimetres become
/// metres, and the frequency in hertz becomes radians per second.
pub open spec fn spec_si_of(
    piston_mm: u32,
    rod_mm: u32,
    amplitude_mm: u32,
    frequency: Seq<char>,
) -> SiInputs {
    SiInputs {
        piston_m: b32_div(b32_of_uint(piston_mm), THOUSAND_BITS),
        rod_m: b32_div(b32_of_uint(rod_mm), THOUSAND_BITS),
        amplitude_m: b32_div(b32_of_uint(amplitude_mm), THOUSAND_BITS),
        frequency_rad_s: b32_mul(b32_mul(TWO_BITS, PI_BITS), b32_of_decimal(frequency)),
    }
}

/// The working area of the actuator: `(pi/4) * (piston_m^2 - rod_m^2)`.
pub open spec fn spec_area(si: SiInputs) -> u32 {
    b32_mul(
        b32_div(PI_BITS, FOUR_BITS),
        b32_sub(b32_mul(si.piston_m, si.piston_m), b32_mul(si.rod_m, si.rod_m)),
    )
}

/// The flow rate in SI units: `frequency_rad_s * amplitude_m * area`.
pub open spec fn spec_q_si(si: SiInputs) -> u32 {
    b32_mul(b32_mul(si.frequency_rad_s, si.amplitude_m), spec_area(si))
}

/// Both representations of the flow rate computed from `si`.
pub open spec fn spec_compute(si: SiInputs) -> CalculationResult {
    CalculationResult {
        q_litres_per_minute: b32_mul(spec_q_si(si), SIXTY_THOUSAND_BITS),
        q_cubic_metres_per_second: spec_q_si(si),
    }
}

/// Parses the four raw fields and converts them into SI base units.
///
/// Fields are examined in the order piston diameter, rod diameter,
/// amplitude, frequency, and the first one that fails to parse is
/// reported.
pub fn to_si(piston_mm: &str, rod_mm: &str, amplitude_mm: &str, frequency_hz: &str) -> (out:
    Result<SiInputs, CalcError>)
    ensures
        match out {
            Ok(si) => fields_parse(piston_mm@, rod_mm@, amplitude_mm@, frequency_hz@) && si
                == spec_si_of(
                uint_value(piston_mm@) as u32,
                uint_value(rod_mm@) as u32,
                uint_value(amplitude_mm@) as u32,
                frequency_hz@,
            ),
            Err(e) => match e {
                CalcError::PistonDiameter => !parses_as_u32(piston_mm@),
                CalcError::RodDiameter => parses_as_u32(piston_mm@) && !parses_as_u32(rod_mm@),
                CalcError::Amplitude => parses_as_u32(piston_mm@) && parses_as_u32(rod_mm@)
                    && !parses_as_u32(amplitude_mm@),
                CalcError::Frequency => parses_as_u32(piston_mm@) && parses_as_u32(rod_mm@)
                    && parses_as_u32(amplitude_mm@) && !is_decimal_literal(frequency_hz@),
            },
        },
{
    let piston = match parse_unsigned(piston_mm) {
        Some(v) => v,
        None => {
            return Err(CalcError::PistonDiameter);
        },
    };
    let rod = match parse_unsigned(rod_mm) {
        Some(v) => v,
        None => {
            return Err(CalcError::RodDiameter);
        },
    };
    let amplitude = match parse_unsigned(amplitude_mm) {
        Some(v) => v,
        None => {
            return Err(CalcError::Amplitude);
        },
    };
    if !check_decimal(frequency_hz) {
        return Err(CalcError::Frequency);
    }
    let f_bits = decimal_to_bits(frequency_hz);
    Ok(
        SiInputs {
            piston_m: div_bits(uint_to_bits(piston), THOUSAND_BITS),
            rod_m: div_bits(uint_to_bits(rod), THOUSAND_BITS),
            amplitude_m: div_bits(uint_to_bits(amplitude), THOUSAND_BITS),
            frequency_rad_s: mul_bits(mul_bits(TWO_BITS, PI_BITS), f_bits),
        },
    )
}

/// Computes both representations of the flow rate from SI inputs.
///
/// A pure, total function: it succeeds on every `SiInputs` value, and its
/// result is a function of the inputs alone.
pub fn compute(si: SiInputs) -> (r: CalculationResult)
    ensures
        r == spec_compute(si),
{
    let area = mul_bits(
        div_bits(PI_BITS, FOUR_BITS),
        sub_bits(mul_bits(si.piston_m, si.piston_m), mul_bits(si.rod_m, si.rod_m)),
    );
    let q_si = mul_bits(mul_bits(si.frequency_rad_s, si.amplitude_m), area);
    let q_lpm = mul_bits(q_si, SIXTY_THOUSAND_BITS);
    CalculationResult { q_litres_per_minute: q_lpm, q_cubic_metres_per_second: q_si }
}

/// Computing twice from equal SI inputs yields equal results: the outcome
/// is a function of the inputs alone, with no hidden state.
pub proof fn lemma_compute_deterministic(
    si: SiInputs,
    r1: CalculationResult,
    r2: CalculationResult,
)
    requires
        r1 == spec_compute(si),
        r2 == spec_compute(si),
    ensures
        r1 == r2,
{
}

/// The whole calculation: parse, convert to SI, compute.
pub fn try_calc_q(piston_mm: &str, rod_mm: &str, amplitude_mm: &str, frequency_hz: &str) -> (out:
    Result<CalculationResult, CalcError>)
    ensures
        match out {
            Ok(r) => fields_parse(piston_mm@, rod_mm@, amplitude_mm@, frequency_hz@) && r
                == spec_compute(
                spec_si_of(
                    uint_value(piston_mm@) as u32,
                    uint_value(rod_mm@) as u32,
                    uint_value(amplitude_mm@) as u32,
                    frequency_hz@,
                ),
            ),
            Err(e) => match e {
                CalcError::PistonDiameter => !parses_as_u32(piston_mm@),
                CalcError::RodDiameter => parses_as_u32(piston_mm@) && !parses_as_u32(rod_mm@),
                CalcError::Amplitude => parses_as_u32(piston_mm@) && parses_as_u32(rod_mm@)
                    && !parses_as_u32(amplitude_mm@),
                CalcError::Frequency => parses_as_u32(piston_mm@) && parses_as_u32(rod_mm@)
                    && parses_as_u32(amplitude_mm@) && !is_decimal_literal(frequency_hz@),
            },
        },
{
    match to_si(piston_mm, rod_mm, amplitude_mm, frequency_hz) {
        Ok(si) => Ok(compute(si)),
        Err(e) => Err(e),
    }
}

} // verus!
