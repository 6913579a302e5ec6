use vstd::prelude::*;

verus! {

/// Everything that can make a request fail. Each kind aborts the whole
/// request: no state is mutated and no instruction is emitted alongside an
/// error.
#[derive(Debug, PartialEq, Eq, Structural, Clone, Copy)]
pub enum ContractError {
    /// The caller of a configuration change is not the stored owner.
    Unauthorized,
    /// A mint request carried no payment entry at all.
    NoFundsSent,
    /// A mint request carried more than one payment entry.
    MultipleCurrenciesSent,
    /// The single payment entry is not in the designated currency.
    WrongCurrency,
    /// The payment amount is below the price for the current instant.
    InsufficientFunds,
    /// The price computation left the representable range.
    ArithmeticOverflow,
    /// A supplied identity string could not be canonicalized.
    InvalidIdentityFormat,
    /// The external store could not load or persist the state record.
    StorageFailure,
}

} // verus!
