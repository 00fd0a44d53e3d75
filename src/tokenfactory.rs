use vstd::prelude::*;

use crate::evm::cosmos_base::Coin;

verus! {

/// QueryParamsResponse is the response type for the Query/Params RPC method.
#[derive(Clone, Debug, PartialEq, Eq, Default)]
pub struct QueryParamsResponse {
    pub params: Option<Params>,
}

/// Params defines the parameters for the tokenfactory module.
#[derive(Clone, Debug, PartialEq, Eq, Default)]
pub struct Params {
    pub denom_creation_fee: Vec<Coin>,
    pub denom_creation_gas_consume: u64,
}

} // verus!
