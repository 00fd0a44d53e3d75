use vstd::prelude::*;

verus! {

/// GenesisState defines the precisebank module's genesis state.
#[derive(Clone, Debug, PartialEq, Eq, Default)]
pub struct GenesisState {
    /// balances is a list of all the balances in the precisebank module.
    pub balances: Vec<FractionalBalance>,
    /// remainder is an internal value of how much extra fractional digits are
    /// still backed by the reserve, but not assigned to any account.
    pub remainder: String,
}

/// FractionalBalance defines the fractional portion of an account balance
#[derive(Clone, Debug, PartialEq, Eq, Default)]
pub struct FractionalBalance {
    /// address is the address of the balance holder.
    pub address: String,
    /// amount indicates amount of only the fractional balance owned by the
    /// address. FractionalBalance currently only supports tracking 1 single asset,
    /// e.g. fractional balances of uatom.
    pub amount: String,
}

/// QueryRemainderRequest defines the request type for Query/Remainder method.
#[derive(Clone, Debug, PartialEq, Eq, Default)]
pub struct QueryRemainderRequest {}

/// QueryRemainderResponse defines the response type for Query/Remainder method.
#[derive(Clone, Debug, PartialEq, Eq, Default)]
pub struct QueryRemainderResponse {
    /// remainder is the amount backed by the reserve, but not yet owned by any
    /// account, i.e. not in circulation.
    pub remainder: Option<crate::evm::cosmos_base::Coin>,
}

/// QueryFractionalBalanceRequest defines the request type for
/// Query/FractionalBalance method.
#[derive(Clone, Debug, PartialEq, Eq, Default)]
pub struct QueryFractionalBalanceRequest {
    /// address is the account address to query  fractional balance for.
    pub address: String,
}

/// QueryFractionalBalanceResponse defines the response type for
/// Query/FractionalBalance method.
#[derive(Clone, Debug, PartialEq, Eq, Default)]
pub struct QueryFractionalBalanceResponse {
    /// fractional_balance is the fractional balance of the address.
    pub fractional_balance: Option<crate::evm::cosmos_base::Coin>,
}

} // verus!
