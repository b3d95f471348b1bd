//! What the services know of their own connection.

use vstd::prelude::*;
use crate::text::{holds, texts};

verus! {

/// The settings the handlers read.
#[derive(Debug, PartialEq, Eq)]
pub struct Config {
    /// The nickname the services run under.
    pub nickname: String,
    /// Who may act as an owner of the services.
    pub owners: Vec<String>,
    /// The password for operator rights on the server.
    pub oper_pass: String,
}

impl Config {
    /// Whether `nick` is an owner of the services.
    pub fn is_owner(&self, nick: &str) -> (r: bool)
        ensures
            r == texts(self.owners@).contains(nick@),
    {
        holds(&self.owners, nick)
    }
}

} // verus!
