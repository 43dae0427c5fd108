use vstd::prelude::*;

verus! {

/// Option type.
#[derive(Clone, Copy, Debug, PartialEq, Eq, Structural)]
pub enum OptionType {
    Call,
    Put,
}

impl Default for OptionType {
    fn default() -> (r: OptionType)
        ensures
            r == OptionType::Call,
    {
        OptionType::Call
    }
}

} // verus!
