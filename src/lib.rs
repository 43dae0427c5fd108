use vstd::prelude::*;

pub mod ensemble;
pub mod error;
pub mod layout;
pub mod params;
pub mod quant;
pub mod recurrence;
pub mod spectrum;

verus! {

/// Which of the two noise-generation schemes a model uses.
#[derive(Clone, Copy, Debug, PartialEq, Eq, Structural)]
pub enum NoiseGenerationMethod {
    Cholesky,
    Fft,
}

} // verus!
