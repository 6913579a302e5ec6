use vstd::prelude::*;

verus! {

/// The single persistent record the contract owns. It is created once at
/// instantiation; afterwards only `cat_token_contract` ever changes, and
/// only at the owner's request.
#[derive(Debug, Clone, PartialEq)]
pub struct State {
    /// Identity with the exclusive right to reconfigure the downstream
    /// target. Set once at creation, never changed.
    pub owner: String,
    /// Identity of the downstream token contract that receives mint
    /// instructions.
    pub cat_token_contract: String,
    /// The instant from which pricing time is measured, in seconds. Set
    /// once at creation, never changed.
    pub genesis_timestamp: u64,
}

/// Outcome of the host's address validator on a raw identity string: the
/// canonical form of a well-formed identity, or the fact that the string
/// could not be canonicalized. The host performs the validation; this core
/// only decides what to do with its verdict.
#[derive(Debug, Clone, PartialEq)]
pub enum AddrCheck {
    Canonical(String),
    BadFormat,
}

/// Answer to a state query: the current record, if one exists.
#[derive(Debug, PartialEq)]
pub struct StateResponse {
    pub state: Option<State>,
}

impl State {
    /// True exactly when `sender` is the stored owner: the authorization
    /// predicate behind every configuration change.
    pub fn is_owner(&self, sender: &String) -> (r: bool)
        ensures
            r == (sender@ == self.owner@),
    {
        *sender == self.owner
    }
}

} // verus!
