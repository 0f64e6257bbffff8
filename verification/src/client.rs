//! The storage account that requests are made for.

use vstd::prelude::*;

verus! {

/// A handle on one storage account.
#[derive(Debug)]
pub struct Client {
    account: String,
}

/// What a [`Client`] stands for.
pub struct ClientView {
    pub account: Seq<char>,
}

impl View for Client {
    type V = ClientView;

    closed spec fn view(&self) -> ClientView {
        ClientView { account: self.account@ }
    }
}

impl Clone for Client {
    fn clone(&self) -> (copy: Self)
        ensures
            copy@ == self@,
    {
        Client { account: self.account.clone() }
    }
}

impl Client {
    /// A client for the account named `account`.
    pub fn new(account: &str) -> (client: Client)
        ensures
            client@.account == account@,
    {
        Client { account: String::from_str(account) }
    }

    /// The account's name.
    pub fn account(&self) -> (account: &str)
        ensures
            account@ == self@.account,
    {
        self.account.as_str()
    }
}

} // verus!
