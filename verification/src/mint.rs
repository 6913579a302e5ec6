use vstd::prelude::*;

use crate::error::ContractError;
use crate::payment::{spec_validate_payment, validate_payment, Coin};
use crate::state::State;

verus! {

/// The one downstream action this core ever authorizes: an instruction to
/// the token contract at `contract_addr` to credit `amount` units to
/// `recipient`. The core only describes the action; the host executes it.
#[derive(Debug, Clone, PartialEq)]
pub struct MintInstruction {
    pub contract_addr: String,
    pub recipient: String,
    pub amount: u128,
}

/// Handles a mint request end to end: validates the payment bag against
/// the price for `current_time`, and on success authorizes exactly one
/// unit of the downstream token for the requester.
///
/// Failure is total: every validation error is passed through unchanged
/// and no instruction is emitted. The state is only read, never written.
pub fn mint_cat(state: &State, sender: &String, funds: &Vec<Coin>, current_time: u64) -> (r:
    Result<MintInstruction, ContractError>)
    ensures
        r is Ok <==> spec_validate_payment(funds@, current_time, state.genesis_timestamp) is Ok,
        r matches Ok(ins) ==> ins.contract_addr@ == state.cat_token_contract@ && ins.recipient@
            == sender@ && ins.amount == 1,
        r matches Err(e) ==> Err::<(), ContractError>(e) == spec_validate_payment(
            funds@,
            current_time,
            state.genesis_timestamp,
        ),
{
    match validate_payment(funds, current_time, state.genesis_timestamp) {
        Ok(()) => Ok(
            MintInstruction {
                contract_addr: state.cat_token_contract.clone(),
                recipient: sender.clone(),
                amount: 1,
            },
        ),
        Err(e) => Err(e),
    }
}

} // verus!
