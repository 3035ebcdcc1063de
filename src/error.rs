use vstd::prelude::*;

verus! {

/// Why a model evaluation, a step or a run could not go on.
#[derive(Clone, Copy, Debug, PartialEq, Eq, Structural)]
pub enum SimError {
    /// A concentration lies outside the flux formula's domain (it is not positive).
    Domain,
    /// A value left the range that a fixed-point number can represent.
    Numerical,
    /// Malformed parameters or initial state, found before any stepping.
    Configuration,
}

} // verus!
