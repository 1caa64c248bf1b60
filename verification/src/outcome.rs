//! Outcomes as contracts speak of them: with bytes and texts as sequences.

use vstd::prelude::*;

verus! {

/// An outcome by the views of what it holds.
pub open spec fn viewed<T: View, E: View>(outcome: Result<T, E>) -> Result<T::V, E::V> {
    match outcome {
        Ok(value) => Ok(value@),
        Err(error) => Err(error@),
    }
}

/// An outcome with its error by its view: an error's text as a sequence of
/// characters.
pub open spec fn told<T, E: View>(outcome: Result<T, E>) -> Result<T, E::V> {
    match outcome {
        Ok(value) => Ok(value),
        Err(error) => Err(error@),
    }
}

} // verus!
