use vstd::prelude::*;

use vstd::std_specs::cmp::PartialOrdSpec;

use crate::error::SimError;

verus! {

/// `a` comes strictly before `b` in the order of `T`.
pub open spec fn precedes<T: PartialOrd>(a: T, b: T) -> bool {
    a.partial_cmp_spec(&b) == Some(core::cmp::Ordering::Less)
}

/// A value strictly inside `(lower, upper)`, such as a Hurst exponent inside
/// `(0, 1)`; anything else, an unordered value included, is an
/// `InvalidParameter`.
pub fn check_open_interval<T: PartialOrd>(x: &T, lower: &T, upper: &T) -> (r: Result<(), SimError>)
    ensures
        r is Err ==> r == Err::<(), SimError>(SimError::InvalidParameter),
        T::obeys_partial_cmp_spec() ==> (r is Ok <==> precedes(*lower, *x) && precedes(*x, *upper)),
{
    if lower.lt(x) && x.lt(upper) {
        Ok(())
    } else {
        Err(SimError::InvalidParameter)
    }
}

/// Two bounds given in strictly increasing order; otherwise an
/// `InvalidParameter`.
pub fn check_ordered<T: PartialOrd>(lower: &T, upper: &T) -> (r: Result<(), SimError>)
    ensures
        r is Err ==> r == Err::<(), SimError>(SimError::InvalidParameter),
        T::obeys_partial_cmp_spec() ==> (r is Ok <==> precedes(*lower, *upper)),
{
    if lower.lt(upper) {
        Ok(())
    } else {
        Err(SimError::InvalidParameter)
    }
}

} // verus!
