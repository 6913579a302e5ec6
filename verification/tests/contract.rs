use cat_mint::contract::{execute, instantiate, query, query_state, ExecuteMsg, ExecuteOutcome, QueryMsg};
use cat_mint::error::ContractError;
use cat_mint::mint::{mint_cat, MintInstruction};
use cat_mint::payment::{validate_payment, Coin};
use cat_mint::state::{AddrCheck, State, StateResponse};

// The host's block time in the reference environment, in seconds.
const ENV_TIME: u64 = 1_571_797_419;

fn fresh_state(genesis_timestamp: u64) -> State {
    instantiate(
        "creator".to_string(),
        AddrCheck::Canonical("cat_token_contract".to_string()),
        genesis_timestamp,
    )
    .unwrap()
}

fn uluna(amount: u128) -> Vec<Coin> {
    vec![Coin { denom: "uluna".to_string(), amount }]
}

#[test]
fn proper_initialization() {
    let state = fresh_state(ENV_TIME);
    assert_eq!(
        state,
        State {
            owner: "creator".to_string(),
            cat_token_contract: "cat_token_contract".to_string(),
            genesis_timestamp: ENV_TIME,
        }
    );
    // it worked, let's query the state
    assert_eq!(
        query(&state, QueryMsg::GetState),
        StateResponse { state: Some(state.clone()) }
    );
}

#[test]
fn test_mint_cat() {
    let mut state = fresh_state(ENV_TIME);
    // two completed weeks and a bit have passed since genesis
    state.genesis_timestamp = ENV_TIME - 1_814_200;

    let res = execute(
        &mut state,
        &"anyone".to_string(),
        &uluna(100_000_000),
        ENV_TIME,
        ExecuteMsg::MintCat,
    )
    .unwrap();
    let ExecuteOutcome::Minted(instruction) = res else {
        panic!("expected a mint instruction");
    };
    assert_eq!(
        instruction,
        MintInstruction {
            contract_addr: "cat_token_contract".to_string(),
            recipient: "anyone".to_string(),
            amount: 1,
        }
    );
}

#[test]
fn mint_at_genesis_for_one_whole_unit() {
    let state = fresh_state(ENV_TIME);
    let res = mint_cat(&state, &"anyone".to_string(), &uluna(1_000_000), ENV_TIME).unwrap();
    assert_eq!(res.contract_addr, "cat_token_contract");
    assert_eq!(res.recipient, "anyone");
    assert_eq!(res.amount, 1);
}

#[test]
fn mint_after_three_weeks_needs_a_thousand_whole_units() {
    let state = fresh_state(ENV_TIME);
    let t = ENV_TIME + 3 * 604_800;
    assert_eq!(
        cat_mint::pricing::required_payment_amount(t, ENV_TIME),
        Ok(1_000_000_000)
    );
    assert_eq!(
        mint_cat(&state, &"anyone".to_string(), &uluna(100_000_000), t),
        Err(ContractError::InsufficientFunds)
    );
    assert!(mint_cat(&state, &"anyone".to_string(), &uluna(1_000_000_000), t).is_ok());
}

#[test]
fn two_payment_entries_are_rejected_whatever_the_amounts() {
    let state = fresh_state(ENV_TIME);
    let funds = vec![
        Coin { denom: "uluna".to_string(), amount: u128::MAX },
        Coin { denom: "uusd".to_string(), amount: u128::MAX },
    ];
    assert_eq!(
        mint_cat(&state, &"anyone".to_string(), &funds, ENV_TIME),
        Err(ContractError::MultipleCurrenciesSent)
    );
}

#[test]
fn non_owner_cannot_reconfigure() {
    let mut state = fresh_state(ENV_TIME);
    let res = execute(
        &mut state,
        &"intruder".to_string(),
        &Vec::new(),
        ENV_TIME,
        ExecuteMsg::UpdateConfig {
            cat_token_contract: Some(AddrCheck::Canonical("new_target".to_string())),
        },
    );
    assert_eq!(res, Err(ContractError::Unauthorized));
    // a subsequent query confirms the original target
    let answer = query_state(&state);
    assert_eq!(
        answer.state.unwrap().cat_token_contract,
        "cat_token_contract".to_string()
    );
}

#[test]
fn owner_reconfiguration_without_target_is_a_no_op() {
    let mut state = fresh_state(ENV_TIME);
    let before = state.clone();
    let res = execute(
        &mut state,
        &"creator".to_string(),
        &Vec::new(),
        ENV_TIME,
        ExecuteMsg::UpdateConfig { cat_token_contract: None },
    );
    assert_eq!(res, Ok(ExecuteOutcome::ConfigUpdated));
    assert_eq!(state, before);
}

#[test]
fn owner_sets_a_new_target() {
    let mut state = fresh_state(ENV_TIME);
    let res = execute(
        &mut state,
        &"creator".to_string(),
        &Vec::new(),
        ENV_TIME,
        ExecuteMsg::UpdateConfig {
            cat_token_contract: Some(AddrCheck::Canonical("new_target".to_string())),
        },
    );
    assert_eq!(res, Ok(ExecuteOutcome::ConfigUpdated));
    assert_eq!(state.cat_token_contract, "new_target".to_string());
    assert_eq!(state.owner, "creator".to_string());
    assert_eq!(state.genesis_timestamp, ENV_TIME);
}

#[test]
fn owner_supplied_target_must_canonicalize() {
    let mut state = fresh_state(ENV_TIME);
    let before = state.clone();
    let res = execute(
        &mut state,
        &"creator".to_string(),
        &Vec::new(),
        ENV_TIME,
        ExecuteMsg::UpdateConfig { cat_token_contract: Some(AddrCheck::BadFormat) },
    );
    assert_eq!(res, Err(ContractError::InvalidIdentityFormat));
    assert_eq!(state, before);
}

#[test]
fn instantiation_rejects_a_malformed_target() {
    let res = instantiate("creator".to_string(), AddrCheck::BadFormat, ENV_TIME);
    assert_eq!(res, Err(ContractError::InvalidIdentityFormat));
}

#[test]
fn empty_payment_bag_is_rejected() {
    let state = fresh_state(ENV_TIME);
    assert_eq!(
        mint_cat(&state, &"anyone".to_string(), &Vec::new(), ENV_TIME),
        Err(ContractError::NoFundsSent)
    );
}

#[test]
fn wrong_currency_is_rejected() {
    let state = fresh_state(ENV_TIME);
    let funds = vec![Coin { denom: "uusd".to_string(), amount: u128::MAX }];
    assert_eq!(
        mint_cat(&state, &"anyone".to_string(), &funds, ENV_TIME),
        Err(ContractError::WrongCurrency)
    );
}

#[test]
fn one_unit_short_is_insufficient() {
    let state = fresh_state(ENV_TIME);
    assert_eq!(
        mint_cat(&state, &"anyone".to_string(), &uluna(999_999), ENV_TIME),
        Err(ContractError::InsufficientFunds)
    );
}

#[test]
fn price_overflow_is_reported_not_wrapped() {
    assert_eq!(
        cat_mint::pricing::required_payment_amount(u64::MAX, 0),
        Err(ContractError::ArithmeticOverflow)
    );
    let state = fresh_state(0);
    assert_eq!(
        mint_cat(&state, &"anyone".to_string(), &uluna(u128::MAX), u64::MAX),
        Err(ContractError::ArithmeticOverflow)
    );
}

#[test]
fn price_steps_by_a_factor_of_ten_each_week() {
    let g = ENV_TIME;
    assert_eq!(cat_mint::pricing::required_payment_amount(g, g), Ok(1_000_000));
    assert_eq!(
        cat_mint::pricing::required_payment_amount(g + 604_799, g),
        Ok(1_000_000)
    );
    assert_eq!(
        cat_mint::pricing::required_payment_amount(g + 604_800, g),
        Ok(10_000_000)
    );
    assert_eq!(
        cat_mint::pricing::required_payment_amount(g + 2 * 604_800, g),
        Ok(100_000_000)
    );
}

#[test]
fn price_never_decreases_over_time() {
    let g = ENV_TIME;
    let mut last: u128 = 0;
    for offset in [0u64, 1, 604_799, 604_800, 1_814_200, 1_814_400, 10_000_000] {
        let price = cat_mint::pricing::required_payment_amount(g + offset, g).unwrap();
        assert!(price >= last);
        last = price;
    }
}

#[test]
fn an_instant_before_genesis_counts_as_no_elapsed_time() {
    assert_eq!(
        cat_mint::pricing::required_payment_amount(ENV_TIME - 10_000_000, ENV_TIME),
        Ok(1_000_000)
    );
}

#[test]
fn multiplicity_is_checked_before_currency_and_amount() {
    // both entries malformed in other ways too: the earliest applicable
    // error, the multiplicity one, must win
    let funds = vec![
        Coin { denom: "uusd".to_string(), amount: 0 },
        Coin { denom: "earth".to_string(), amount: 0 },
    ];
    assert_eq!(
        validate_payment(&funds, ENV_TIME, ENV_TIME),
        Err(ContractError::MultipleCurrenciesSent)
    );
    assert_eq!(
        validate_payment(&Vec::new(), ENV_TIME, ENV_TIME),
        Err(ContractError::NoFundsSent)
    );
}
