use vstd::prelude::*;

use crate::error::ContractError;
use crate::state::{AddrCheck, State};

verus! {

/// Owner-gated reconfiguration of the downstream token target.
///
/// Authorization comes first: any sender other than the stored owner is
/// turned away with `Unauthorized` and the state stays as it was, whatever
/// target was supplied. For the owner, no supplied target is a successful
/// no-op, a target the host's validator rejected fails with
/// `InvalidIdentityFormat`, and a canonicalized target replaces
/// `cat_token_contract`; `owner` and `genesis_timestamp` never change.
pub fn update_config(state: &mut State, sender: &String, new_target: Option<AddrCheck>) -> (r:
    Result<(), ContractError>)
    ensures
        sender@ != old(state).owner@ ==> r == Err::<(), ContractError>(ContractError::Unauthorized)
            && *final(state) == *old(state),
        sender@ == old(state).owner@ && new_target is None ==> r == Ok::<(), ContractError>(())
            && *final(state) == *old(state),
        sender@ == old(state).owner@ && (new_target matches Some(AddrCheck::BadFormat)) ==> r
            == Err::<(), ContractError>(ContractError::InvalidIdentityFormat) && *final(state)
            == *old(state),
        sender@ == old(state).owner@ ==> (new_target matches Some(AddrCheck::Canonical(c)) ==> (r
            == Ok::<(), ContractError>(()) && final(state).owner == old(state).owner
            && final(state).genesis_timestamp == old(state).genesis_timestamp
            && final(state).cat_token_contract == c)),
{
    if !state.is_owner(sender) {
        return Err(ContractError::Unauthorized);
    }
    match new_target {
        None => Ok(()),
        Some(AddrCheck::BadFormat) => Err(ContractError::InvalidIdentityFormat),
        Some(AddrCheck::Canonical(canonical)) => {
            state.cat_token_contract = canonical;
            Ok(())
        },
    }
}

} // verus!
