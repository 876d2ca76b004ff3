//! Trade vocabulary.

use vstd::prelude::*;

verus! {

#[derive(Debug, Clone, Copy, PartialEq, Eq, Structural)]
pub enum TradeType {
    Entry,
    Exit,
}

} // verus!
