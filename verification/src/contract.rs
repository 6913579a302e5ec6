use vstd::prelude::*;

use crate::config::update_config;
use crate::error::ContractError;
use crate::mint::{mint_cat, MintInstruction};
use crate::payment::{spec_validate_payment, Coin};
use crate::state::{AddrCheck, State, StateResponse};

verus! {

/// A request to the contract: mint one token against the attached
/// payment, or change the downstream token target.
#[derive(Debug, PartialEq)]
pub enum ExecuteMsg {
    MintCat,
    UpdateConfig { cat_token_contract: Option<AddrCheck> },
}

/// What a successful request produced: the one authorized mint
/// instruction, or the fact that the configuration change went through.
#[derive(Debug, PartialEq)]
pub enum ExecuteOutcome {
    Minted(MintInstruction),
    ConfigUpdated,
}

/// A read-only question to the contract.
#[derive(Debug, PartialEq)]
pub enum QueryMsg {
    GetState,
}

/// Creates the single state record: the instantiating sender becomes the
/// owner, and the downstream target is taken from the host validator's
/// verdict on the supplied identity. A target that failed validation
/// fails the whole instantiation.
pub fn instantiate(owner: String, cat_token_contract: AddrCheck, genesis_timestamp: u64) -> (r:
    Result<State, ContractError>)
    ensures
        cat_token_contract matches AddrCheck::Canonical(c) ==> (r matches Ok(s) && s.owner == owner
            && s.cat_token_contract == c && s.genesis_timestamp == genesis_timestamp),
        cat_token_contract is BadFormat ==> r == Err::<State, ContractError>(
            ContractError::InvalidIdentityFormat,
        ),
{
    match cat_token_contract {
        AddrCheck::Canonical(canonical) => Ok(
            State { owner, cat_token_contract: canonical, genesis_timestamp },
        ),
        AddrCheck::BadFormat => Err(ContractError::InvalidIdentityFormat),
    }
}

/// Dispatches a request to the mint authority or the config admin.
///
/// A mint request never writes the state; its outcome is exactly the
/// outcome of `mint_cat`. A configuration request behaves exactly as
/// `update_config`: owner-gated, with `owner` and `genesis_timestamp`
/// untouched in every case.
pub fn execute(
    state: &mut State,
    sender: &String,
    funds: &Vec<Coin>,
    current_time: u64,
    msg: ExecuteMsg,
) -> (r: Result<ExecuteOutcome, ContractError>)
    ensures
        msg is MintCat ==> *final(state) == *old(state),
        msg is MintCat ==> ((r is Ok) <==> spec_validate_payment(
            funds@,
            current_time,
            old(state).genesis_timestamp,
        ) is Ok),
        msg is MintCat ==> (r matches Ok(out) ==> (out matches ExecuteOutcome::Minted(ins)
            && ins.contract_addr@ == old(state).cat_token_contract@ && ins.recipient@ == sender@
            && ins.amount == 1)),
        msg is MintCat ==> (r matches Err(e) ==> Err::<(), ContractError>(e)
            == spec_validate_payment(funds@, current_time, old(state).genesis_timestamp)),
        msg matches ExecuteMsg::UpdateConfig { cat_token_contract: t } ==> ((sender@
            != old(state).owner@ ==> r == Err::<ExecuteOutcome, ContractError>(
            ContractError::Unauthorized,
        ) && *final(state) == *old(state)) && (sender@ == old(state).owner@ && t is None ==> r
            == Ok::<ExecuteOutcome, ContractError>(ExecuteOutcome::ConfigUpdated)
            && *final(state) == *old(state)) && (sender@ == old(state).owner@
            && (t matches Some(AddrCheck::BadFormat)) ==> r == Err::<ExecuteOutcome, ContractError>(
            ContractError::InvalidIdentityFormat,
        ) && *final(state) == *old(state)) && (sender@ == old(state).owner@
            ==> (t matches Some(AddrCheck::Canonical(c)) ==> (r == Ok::<
            ExecuteOutcome,
            ContractError,
        >(ExecuteOutcome::ConfigUpdated) && final(state).owner == old(state).owner
            && final(state).genesis_timestamp == old(state).genesis_timestamp
            && final(state).cat_token_contract == c)))),
{
    match msg {
        ExecuteMsg::MintCat => {
            match mint_cat(state, sender, funds, current_time) {
                Ok(instruction) => Ok(ExecuteOutcome::Minted(instruction)),
                Err(e) => Err(e),
            }
        },
        ExecuteMsg::UpdateConfig { cat_token_contract } => {
            match update_config(state, sender, cat_token_contract) {
                Ok(()) => Ok(ExecuteOutcome::ConfigUpdated),
                Err(e) => Err(e),
            }
        },
    }
}

/// Answers a read-only query; no state is written.
pub fn query(state: &State, msg: QueryMsg) -> (r: StateResponse)
    ensures
        r.state == Some(*state),
{
    match msg {
        QueryMsg::GetState => query_state(state),
    }
}

/// Reads the current state record into a response, leaving it in place.
pub fn query_state(state: &State) -> (r: StateResponse)
    ensures
        r.state == Some(*state),
{
    StateResponse {
        state: Some(
            State {
                owner: state.owner.clone(),
                cat_token_contract: state.cat_token_contract.clone(),
                genesis_timestamp: state.genesis_timestamp,
            },
        ),
    }
}

} // verus!
