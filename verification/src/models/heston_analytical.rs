//! Heston semi-analytical pricing: integration method and moneyness classes.

use crate::text::push_decimal;
use vstd::prelude::*;
use crate::text::dec;

verus! {

/// Integration method for Heston semi-analytical pricing.
///
/// Choose between the Carr-Madan damped Gauss-Lobatto quadrature and the
/// Gauss-Laguerre alternative with a configurable node count.
#[derive(Debug, Clone, Copy, PartialEq, Eq, Structural)]
pub enum IntegrationMethod {
    /// Carr-Madan damped Gauss-Lobatto quadrature (the default method).
    CarrMadan,
    /// Gauss-Laguerre quadrature with the specified number of nodes.
    GaussLaguerre { nodes: usize },
}

impl Default for IntegrationMethod {
    fn default() -> (r: Self)
        ensures
            r == IntegrationMethod::CarrMadan,
    {
        IntegrationMethod::CarrMadan
    }
}

/// Human-readable name of an integration method.
pub open spec fn integration_method_text(m: IntegrationMethod) -> Seq<char> {
    match m {
        IntegrationMethod::CarrMadan => "Carr-Madan (Gauss-Lobatto)"@,
        IntegrationMethod::GaussLaguerre { nodes } => "Gauss-Laguerre ("@ + dec(nodes as nat) + " nodes)"@,
    }
}

impl IntegrationMethod {
    /// Human-readable name, e.g. `"Gauss-Laguerre (64 nodes)"`.
    pub fn to_display_string(&self) -> (r: String)
        ensures
            r@ == integration_method_text(*self),
    {
        match *self {
            IntegrationMethod::CarrMadan => String::from_str("Carr-Madan (Gauss-Lobatto)"),
            IntegrationMethod::GaussLaguerre { nodes } => {
                let mut s = String::from_str("Gauss-Laguerre (");
                push_decimal(&mut s, nodes as u64);
                s.append(" nodes)");
                s
            },
        }
    }
}

/// Option moneyness class.
#[derive(Debug, PartialEq, Eq, Structural)]
pub enum Moneyness {
    ATM,
    OTM,
    ITM,
}

} // verus!
