//! American-style exercise.

use vstd::prelude::*;

verus! {

/// Option exercise style.
#[derive(Debug, Clone, Copy, PartialEq, Eq, Structural)]
pub enum ExerciseStyle {
    /// Cannot exercise early.
    European,
    /// Can exercise early.
    American,
}

} // verus!
