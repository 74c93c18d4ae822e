//! IEEE 754 double-precision arithmetic on raw bit patterns.
//!
//! Scalar values carry their floating-point payload as the 64-bit IEEE 754
//! encoding, so that the verified code never touches a native float. The
//! handful of operations the accumulators need (addition, division,
//! comparison, and conversion of a row count) are delegated to the
//! `rustc_apfloat` software implementation of IEEE 754, which computes the
//! same bit patterns as hardware double-precision arithmetic under the
//! default round-to-nearest-even mode. Each operation is a pure function of
//! its argument bits, so its result is given a name that contracts can
//! mention exactly.

use vstd::prelude::*;

use rustc_apfloat::Float;
use rustc_apfloat::Round;
use rustc_apfloat::ieee::Double;

verus! {

/// The bits of the IEEE 754 double-precision sum of two doubles given by
/// their bits, rounded to nearest, ties to even.
pub uninterp spec fn f64_add_bits(a: u64, b: u64) -> u64;

/// The bits of the IEEE 754 double-precision quotient of two doubles given
/// by their bits, rounded to nearest, ties to even.
pub uninterp spec fn f64_div_bits(a: u64, b: u64) -> u64;

/// The bits of the IEEE 754 double nearest to the given unsigned count,
/// ties to even: what `c as f64` yields for a non-negative count.
pub uninterp spec fn f64_of_count(c: u64) -> u64;

/// The IEEE 754 partial order on two doubles given by their bits:
/// `None` when either operand is a NaN, otherwise `Some(-1)`, `Some(0)` or
/// `Some(1)` for less, equal and greater.
pub uninterp spec fn f64_cmp_bits(a: u64, b: u64) -> Option<int>;

/// Relies on `rustc_apfloat::ieee::Double::add_r`: IEEE 754 double addition
/// of the two operand bit patterns, round to nearest, ties to even.
#[verifier::external_body]
pub(crate) fn add_f64_bits(a: u64, b: u64) -> (r: u64)
    ensures
        r == f64_add_bits(a, b),
{
    let x = Double::from_bits(a as u128);
    let y = Double::from_bits(b as u128);
    x.add_r(y, Round::NearestTiesToEven).value.to_bits() as u64
}

/// Relies on `rustc_apfloat::ieee::Double::div_r`: IEEE 754 double division
/// of the two operand bit patterns, round to nearest, ties to even.
#[verifier::external_body]
pub(crate) fn div_f64_bits(a: u64, b: u64) -> (r: u64)
    ensures
        r == f64_div_bits(a, b),
{
    let x = Double::from_bits(a as u128);
    let y = Double::from_bits(b as u128);
    x.div_r(y, Round::NearestTiesToEven).value.to_bits() as u64
}

/// Relies on `rustc_apfloat::ieee::Double::from_u128`: the IEEE 754 double
/// nearest to the given count, as an integer-to-double cast would produce.
#[verifier::external_body]
pub(crate) fn count_to_f64_bits(c: u64) -> (r: u64)
    ensures
        r == f64_of_count(c),
{
    Double::from_u128(c as u128).value.to_bits() as u64
}

/// Relies on `rustc_apfloat`'s `PartialOrd for IeeeFloat`: the IEEE 754
/// comparison of the two operand bit patterns, undefined only on NaN.
#[verifier::external_body]
pub(crate) fn cmp_f64_bits(a: u64, b: u64) -> (r: Option<i8>)
    ensures
        (r is Some) == (f64_cmp_bits(a, b) is Some),
        r is Some ==> f64_cmp_bits(a, b) == Some(r->0 as int) && -1 <= r->0 <= 1,
{
    let x = Double::from_bits(a as u128);
    let y = Double::from_bits(b as u128);
    match x.partial_cmp(&y) {
        None => None,
        Some(core::cmp::Ordering::Less) => Some(-1),
        Some(core::cmp::Ordering::Equal) => Some(0),
        Some(core::cmp::Ordering::Greater) => Some(1),
    }
}

} // verus!
