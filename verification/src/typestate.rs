//! Markers that record in a builder's type whether a required parameter has
//! been given.

use vstd::prelude::*;

verus! {

/// A marker for the state of a required parameter.
pub trait ToAssign {
    /// Whether the parameter has been given.
    spec fn assigned() -> bool;
}

/// The parameter has been given.
#[derive(Debug, Clone, Copy)]
pub struct Yes;

/// The parameter has not been given.
#[derive(Debug, Clone, Copy)]
pub struct No;

impl ToAssign for Yes {
    open spec fn assigned() -> bool {
        true
    }
}

impl ToAssign for No {
    open spec fn assigned() -> bool {
        false
    }
}

} // verus!
