//! Market option data structures for calibration.

use vstd::prelude::*;

verus! {

/// Call or put.
#[derive(Debug, Clone, Copy, PartialEq, Eq, Structural)]
pub enum OptionType {
    Call,
    Put,
}

} // verus!
