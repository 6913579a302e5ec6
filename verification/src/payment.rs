use vstd::prelude::*;

use crate::error::ContractError;
use crate::pricing::{required_payment_amount, spec_required_amount};

verus! {

/// One payment entry: a currency identifier and an amount in that
/// currency's smallest unit.
#[derive(Debug, Clone, PartialEq)]
pub struct Coin {
    pub denom: String,
    pub amount: u128,
}

/// The one currency identifier accepted as payment.
pub open spec fn designated_denom() -> Seq<char> {
    "uluna"@
}

/// The validation verdict on a payment bag, checked in a fixed order:
/// an empty bag, then more than one entry, then a wrong currency, then an
/// unrepresentable price, then an insufficient amount; a bag that clears
/// every check is accepted.
pub open spec fn spec_validate_payment(
    funds: Seq<Coin>,
    current_time: u64,
    genesis_time: u64,
) -> Result<(), ContractError> {
    if funds.len() == 0 {
        Err(ContractError::NoFundsSent)
    } else if funds.len() > 1 {
        Err(ContractError::MultipleCurrenciesSent)
    } else if funds[0].denom@ != designated_denom() {
        Err(ContractError::WrongCurrency)
    } else if spec_required_amount(current_time, genesis_time) > u128::MAX {
        Err(ContractError::ArithmeticOverflow)
    } else if (funds[0].amount as nat) < spec_required_amount(current_time, genesis_time) {
        Err(ContractError::InsufficientFunds)
    } else {
        Ok(())
    }
}

/// Law: a payment bag that does not hold exactly one entry is rejected,
/// whatever currencies and amounts it holds.
pub proof fn lemma_single_currency_enforced(funds: Seq<Coin>, current_time: u64, genesis_time: u64)
    requires
        funds.len() != 1,
    ensures
        spec_validate_payment(funds, current_time, genesis_time) is Err,
{
}

/// Law: the emptiness and multiplicity checks come before the currency and
/// amount checks, so a malformed bag always reports the earliest
/// applicable error.
pub proof fn lemma_validation_order(funds: Seq<Coin>, current_time: u64, genesis_time: u64)
    ensures
        funds.len() == 0 ==> spec_validate_payment(funds, current_time, genesis_time) == Err::<
            (),
            ContractError,
        >(ContractError::NoFundsSent),
        funds.len() > 1 ==> spec_validate_payment(funds, current_time, genesis_time) == Err::<
            (),
            ContractError,
        >(ContractError::MultipleCurrenciesSent),
{
}

/// Decides whether `funds` satisfies the price for `current_time`:
/// exactly one entry, in the designated currency, whose amount reaches the
/// price computed from the elapsed time since `genesis_time`.
pub fn validate_payment(funds: &Vec<Coin>, current_time: u64, genesis_time: u64) -> (r: Result<
    (),
    ContractError,
>)
    ensures
        r == spec_validate_payment(funds@, current_time, genesis_time),
{
    if funds.len() == 0 {
        return Err(ContractError::NoFundsSent);
    }
    if funds.len() > 1 {
        return Err(ContractError::MultipleCurrenciesSent);
    }
    let designated: String = String::from_str("uluna");
    let sent = &funds[0];
    if !(sent.denom == designated) {
        return Err(ContractError::WrongCurrency);
    }
    let required = match required_payment_amount(current_time, genesis_time) {
        Ok(amount) => amount,
        Err(e) => {
            return Err(e);
        },
    };
    if sent.amount < required {
        return Err(ContractError::InsufficientFunds);
    }
    Ok(())
}

} // verus!
