use vstd::prelude::*;

use crate::error::SimError;

verus! {

/// How the real part of one eigenvalue of the circulant embedding is judged.
#[derive(Clone, Copy, Debug, PartialEq, Eq, Structural)]
pub enum EigenvalueSign {
    /// Clearly negative: the embedding is not positive semidefinite.
    Negative,
    /// Negative only by rounding: treated as zero.
    NearZero,
    /// Not negative.
    NonNegative,
}

/// `out` is what the guard may give for the eigenvalue `x`: its root where it
/// is not negative, `zero` where it is negative only by rounding.
pub open spec fn guarded_root<T, C: Fn(T) -> EigenvalueSign, R: Fn(T) -> T>(
    classify: C,
    root: R,
    zero: T,
    x: T,
    out: T,
) -> bool {
    exists|s: EigenvalueSign|
        #[trigger] call_ensures(classify, (x,), s) && match s {
            EigenvalueSign::Negative => false,
            EigenvalueSign::NearZero => out == zero,
            EigenvalueSign::NonNegative => call_ensures(root, (x,), out),
        }
}

/// Takes the square roots of an eigenvalue spectrum, clipping values that
/// are negative only by rounding to `zero` before the root. A clearly
/// negative eigenvalue fails the whole spectrum with `NumericalDegeneracy`.
pub fn guarded_sqrt_spectrum<T: Copy, C: Fn(T) -> EigenvalueSign, R: Fn(T) -> T>(
    eigenvalues: &Vec<T>,
    zero: T,
    classify: C,
    root: R,
) -> (r: Result<Vec<T>, SimError>)
    requires
        forall|a: T| call_requires(classify, (a,)),
        forall|a: T| call_requires(root, (a,)),
    ensures
        r is Ok ==> {
            let s = r->Ok_0@;
            &&& s.len() == eigenvalues@.len()
            &&& forall|i: int|
                0 <= i < s.len() ==> guarded_root(classify, root, zero, eigenvalues@[i], #[trigger] s[i])
        },
        r is Err ==> r == Err::<Vec<T>, SimError>(SimError::NumericalDegeneracy) && exists|i: int|
            0 <= i < eigenvalues@.len() && call_ensures(
                classify,
                (#[trigger] eigenvalues@[i],),
                EigenvalueSign::Negative,
            ),
{
    let mut out: Vec<T> = Vec::new();
    let mut i: usize = 0;
    while i < eigenvalues.len()
        invariant
            forall|a: T| call_requires(classify, (a,)),
            forall|a: T| call_requires(root, (a,)),
            i <= eigenvalues@.len(),
            out@.len() == i,
            forall|k: int|
                0 <= k < i ==> guarded_root(classify, root, zero, eigenvalues@[k], #[trigger] out@[k]),
        decreases eigenvalues@.len() - i,
    {
        let x = eigenvalues[i];
        let s = classify(x);
        assert(call_ensures(classify, (x,), s));
        match s {
            EigenvalueSign::Negative => {
                return Err(SimError::NumericalDegeneracy);
            },
            EigenvalueSign::NearZero => {
                out.push(zero);
            },
            EigenvalueSign::NonNegative => {
                let y = root(x);
                out.push(y);
            },
        }
        i = i + 1;
    }
    Ok(out)
}

} // verus!
