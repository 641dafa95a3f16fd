//! Comparisons of values that are only partially ordered.

use vstd::prelude::*;
use vstd::std_specs::cmp::PartialOrdSpec;
use std::cmp::Ordering;

verus! {

/// Compares and returns the minimum of two values.
///
/// Returns the first argument if the comparison determines them to be
/// equal, and the second if they cannot be compared.
pub fn partial_min<T>(a: T, b: T) -> (r: T) where T: PartialOrd
    ensures
        r == a || r == b,
        T::obeys_partial_cmp_spec() ==> r == match a.partial_cmp_spec(&b) {
            Some(Ordering::Less) | Some(Ordering::Equal) => a,
            Some(Ordering::Greater) | None => b,
        },
{
    match a.partial_cmp(&b) {
        Some(Ordering::Less) | Some(Ordering::Equal) => a,
        Some(Ordering::Greater) | None => b,
    }
}

/// Compares and returns the maximum of two values.
///
/// Returns the first argument if the comparison determines them to be
/// equal, and the second if they cannot be compared.
pub fn partial_max<T>(a: T, b: T) -> (r: T) where T: PartialOrd
    ensures
        r == a || r == b,
        T::obeys_partial_cmp_spec() ==> r == match a.partial_cmp_spec(&b) {
            Some(Ordering::Greater) | Some(Ordering::Equal) => a,
            Some(Ordering::Less) | None => b,
        },
{
    match a.partial_cmp(&b) {
        Some(Ordering::Greater) | Some(Ordering::Equal) => a,
        Some(Ordering::Less) | None => b,
    }
}

/// A number that may be "not a number": a value that compares with nothing,
/// itself included.
pub trait Float {
    /// Whether the value is not a number.
    spec fn is_nan_spec(self) -> bool;

    fn is_nan(self) -> (r: bool)
        ensures
            r == self.is_nan_spec(),
    ;
}

/// A comparison function for floating point numbers.
///
/// Values that are not numbers are ordered at the end, and are equal to
/// each other. The type's comparison must order every two values that are
/// numbers.
pub fn compare_floating<T>(a: &T, b: &T) -> (r: Ordering) where T: Float + Copy + PartialOrd
    requires
        T::obeys_partial_cmp_spec(),
        !a.is_nan_spec() && !b.is_nan_spec() ==> a.partial_cmp_spec(b) is Some,
    ensures
        r == if a.is_nan_spec() && b.is_nan_spec() {
            Ordering::Equal
        } else if a.is_nan_spec() {
            Ordering::Greater
        } else if b.is_nan_spec() {
            Ordering::Less
        } else {
            a.partial_cmp_spec(b).unwrap()
        },
{
    let a_nan = (*a).is_nan();
    let b_nan = (*b).is_nan();
    if a_nan && b_nan {
        Ordering::Equal
    } else if a_nan {
        Ordering::Greater
    } else if b_nan {
        Ordering::Less
    } else {
        a.partial_cmp(b).unwrap()
    }
}

} // verus!
