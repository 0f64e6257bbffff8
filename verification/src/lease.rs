//! Lease identifiers.

use vstd::prelude::*;

verus! {

/// The token of a lease held on a container, as the service handed it out.
#[derive(Debug, PartialEq, Eq)]
pub struct LeaseId {
    token: String,
}

impl View for LeaseId {
    type V = Seq<char>;

    closed spec fn view(&self) -> Seq<char> {
        self.token@
    }
}

impl Clone for LeaseId {
    fn clone(&self) -> (copy: Self)
        ensures
            copy@ == self@,
    {
        LeaseId { token: self.token.clone() }
    }
}

impl LeaseId {
    /// The lease identifier written as `token`.
    pub fn new(token: &str) -> (id: LeaseId)
        ensures
            id@ == token@,
    {
        LeaseId { token: String::from_str(token) }
    }

    /// The token's text.
    pub fn as_str(&self) -> (token: &str)
        ensures
            token@ == self@,
    {
        self.token.as_str()
    }
}

} // verus!
