//! Mismatches found when comparing attributes field by field. Floating-point
//! values are carried as their bit patterns (`f64::to_bits`).
use vstd::prelude::*;

verus! {

/// Expected and actual value of a mismatching field.
#[derive(Clone, Copy, Debug, PartialEq, Eq)]
#[allow(inconsistent_fields)]
pub enum Values {
    /// Two floating-point numbers, as bit patterns.
    F64 { expected: u64, actual: u64 },
    /// Two integers.
    U32 { expected: u32, actual: u32 },
    /// Two optional floating-point numbers, as bit patterns; exactly one is present.
    OptionF64 { expected: Option<u64>, actual: Option<u64> },
}

/// A field whose values differ.
#[derive(Clone, Copy, Debug, PartialEq, Eq)]
pub struct NotEq {
    pub field: &'static str,
    pub values: Values,
}

impl Values {
    pub fn new_f64(expected: u64, actual: u64) -> (r: Values)
        ensures
            r == (Values::F64 { expected, actual }),
    {
        Values::F64 { expected, actual }
    }

    pub fn new_option_f64(expected: Option<u64>, actual: Option<u64>) -> (r: Values)
        ensures
            r == (Values::OptionF64 { expected, actual }),
    {
        Values::OptionF64 { expected, actual }
    }

    pub fn new_u32(expected: u32, actual: u32) -> (r: Values)
        ensures
            r == (Values::U32 { expected, actual }),
    {
        Values::U32 { expected, actual }
    }
}

/// Compares an integer field: equal, or the mismatch with both values.
pub fn assert_eq_u32(actual: &u32, expected: u32, field: &'static str) -> (r: Result<(), NotEq>)
    ensures
        r is Ok <==> *actual == expected,
        r matches Err(e) ==> e.field == field && e.values == (Values::U32 {
            expected,
            actual: *actual,
        }),
{
    if *actual == expected {
        return Ok(());
    }
    Err(NotEq { field, values: Values::new_u32(expected, *actual) })
}

/// Compares an optional floating-point field, given as bit patterns; `close`
/// tells whether two present values are within tolerance of each other.
/// Both absent, or both present and close, is a match; one absent is an
/// optional mismatch; both present and apart is a plain mismatch.
pub fn assert_eq_option_f64(
    actual: Option<u64>,
    expected: Option<u64>,
    close: bool,
    field: &'static str,
) -> (r: Result<(), NotEq>)
    ensures
        r is Ok <==> (actual is None && expected is None) || (actual is Some && expected is Some
            && close),
        r matches Err(e) ==> e.field == field && e.values == (match (actual, expected) {
            (Some(a), Some(x)) => Values::F64 { expected: x, actual: a },
            _ => Values::OptionF64 { expected, actual },
        }),
{
    let values = match (actual, expected) {
        (None, None) => {
            return Ok(());
        },
        (None, Some(_)) => Values::new_option_f64(expected, None),
        (Some(_), None) => Values::new_option_f64(None, actual),
        (Some(a), Some(x)) => {
            if close {
                return Ok(());
            }
            Values::new_f64(x, a)
        },
    };
    Err(NotEq { field, values })
}

} // verus!
