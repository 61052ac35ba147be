//! Which formula extracts a unit quaternion from a rotation matrix.
//!
//! The trace formula is used when the trace is positive. Otherwise the formula
//! built on the largest diagonal entry is used, which avoids dividing by a
//! value near zero for rotations near 180 degrees. Ties between diagonal
//! entries go to the earlier axis (x before y before z). The arithmetic itself
//! is done in floating point by the caller; this module fixes the choice.
use vstd::prelude::*;

verus! {

/// The four extraction formulas.
#[derive(Debug, Clone, Copy, PartialEq, Eq, Structural)]
pub enum Extraction {
    /// `s = 2 sqrt(1 + trace)`, `w = s / 4`.
    Trace,
    /// `s = 2 sqrt(1 + r00 - r11 - r22)`, `x = s / 4`.
    DiagonalX,
    /// `s = 2 sqrt(1 + r11 - r00 - r22)`, `y = s / 4`.
    DiagonalY,
    /// `s = 2 sqrt(1 + r22 - r00 - r11)`, `z = s / 4`.
    DiagonalZ,
}

/// The formula chosen from the sign of the trace and the comparisons of the
/// diagonal entries `r00`, `r11`, `r22`.
pub open spec fn extraction_of(
    trace_positive: bool,
    x_ge_y: bool,
    x_ge_z: bool,
    y_ge_z: bool,
) -> Extraction {
    if trace_positive {
        Extraction::Trace
    } else if x_ge_y && x_ge_z {
        Extraction::DiagonalX
    } else if y_ge_z {
        Extraction::DiagonalY
    } else {
        Extraction::DiagonalZ
    }
}

/// Chooses the extraction formula.
///
/// `trace_positive` is `r00 + r11 + r22 > 0`; `x_ge_y` is `r00 >= r11`;
/// `x_ge_z` is `r00 >= r22`; `y_ge_z` is `r11 >= r22`.
pub fn select_extraction(trace_positive: bool, x_ge_y: bool, x_ge_z: bool, y_ge_z: bool) -> (r:
    Extraction)
    ensures
        r == extraction_of(trace_positive, x_ge_y, x_ge_z, y_ge_z),
{
    if trace_positive {
        Extraction::Trace
    } else if x_ge_y && x_ge_z {
        Extraction::DiagonalX
    } else if y_ge_z {
        Extraction::DiagonalY
    } else {
        Extraction::DiagonalZ
    }
}

/// Over any totally ordered diagonal, the trace formula is chosen exactly when
/// the trace is positive; otherwise the chosen axis holds a largest diagonal
/// entry, and it is strictly larger than the entry of every earlier axis.
pub proof fn lemma_extraction_picks_largest(trace: int, r00: int, r11: int, r22: int)
    ensures
        ({
            let e = extraction_of(trace > 0, r00 >= r11, r00 >= r22, r11 >= r22);
            &&& (e == Extraction::Trace <==> trace > 0)
            &&& e == Extraction::DiagonalX ==> r00 >= r11 && r00 >= r22
            &&& e == Extraction::DiagonalY ==> r11 > r00 && r11 >= r22
            &&& e == Extraction::DiagonalZ ==> r22 > r00 && r22 > r11
        }),
{
}

} // verus!
