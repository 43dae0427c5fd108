use vstd::prelude::*;

verus! {

/// Why a model could not be built or a draw could not be made.
#[derive(Clone, Copy, Debug, PartialEq, Eq, Structural)]
pub enum SimError {
    /// A parameter lies outside its allowed range (a Hurst exponent outside
    /// the open unit interval, a path length of zero, non-positive scales,
    /// bounds given in the wrong order).
    InvalidParameter,
    /// A call needs a value the model was built without (an ensemble width,
    /// a jump intensity).
    MissingConfiguration,
    /// The circulant embedding produced a clearly negative eigenvalue.
    NumericalDegeneracy,
    /// A worker of an ensemble draw stopped without handing back a path.
    EnsembleFailure,
}

} // verus!
