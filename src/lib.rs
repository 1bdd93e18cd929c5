//! Centre-to-centre distance of two toothed pulleys joined by a timing belt, for a plain
//! (normal) or a crossed (contra) belt, and the reconciliation of a desired belt length
//! with the tooth counts belts are made in.
//!
//! Every distance is a whole number of nanometres (an inch is exactly 25 400 000 of them),
//! and pi is the rational `PI_NUM / PI_DEN`; results are rounded down to a nanometre.
use vstd::prelude::*;

pub mod arith;
pub mod contra;
pub mod normal;
pub mod teeth;
pub mod units;

verus! {

/// Why a calculation gave no distance.
#[derive(Clone, Copy, Debug, PartialEq, Eq)]
pub enum BeltError {
    /// The belt cannot span the two pulleys: the solver's discriminant is negative.
    Domain,
    /// An input outside the calculation's domain (a desired spacing of zero for a crossed belt).
    InvalidInput,
    /// A derived length exceeds `units::MAX_LENGTH`.
    OutOfRange,
}

/// The three candidate belts for one desired length: each a pair of the belt's tooth
/// count and the resulting centre-to-centre distance, or why there is none.
#[derive(Debug, PartialEq, Eq)]
pub struct BeltReport<C> {
    /// The tooth count rounded to the nearest multiple of five.
    pub rounded: Result<(u64, C), BeltError>,
    /// The tooth count of the longest belt no longer than the desired length.
    pub lower: Result<(u64, C), BeltError>,
    /// The tooth count of the shortest belt no shorter than the desired length.
    pub upper: Result<(u64, C), BeltError>,
}

} // verus!
