use vstd::prelude::*;

verus! {

/// EventFeeMarket is the event type for the feemarket module
#[derive(Clone, Debug, PartialEq, Eq, Default)]
pub struct EventFeeMarket {
    /// base_fee for EIP-1559 blocks
    pub base_fee: String,
}

/// EventBlockGas defines an Ethereum block gas event
#[derive(Clone, Debug, PartialEq, Eq, Default)]
pub struct EventBlockGas {
    /// height of the block
    pub height: String,
    /// amount of gas wanted by the block
    pub amount: String,
}

/// Params defines the EVM module parameters
#[derive(Clone, Debug, PartialEq, Eq, Default)]
pub struct Params {
    /// no_base_fee forces the EIP-1559 base fee to 0 (needed for 0 price calls)
    pub no_base_fee: bool,
    /// base_fee_change_denominator bounds the amount the base fee can change
    /// between blocks.
    pub base_fee_change_denominator: u32,
    /// elasticity_multiplier bounds the maximum gas limit an EIP-1559 block may
    /// have.
    pub elasticity_multiplier: u32,
    /// enable_height defines at which block height the base fee calculation is
    /// enabled.
    pub enable_height: i64,
    /// base_fee for EIP-1559 blocks.
    pub base_fee: String,
    /// min_gas_price defines the minimum gas price value for cosmos and eth
    /// transactions
    pub min_gas_price: String,
    /// min_gas_multiplier bounds the minimum gas used to be charged
    /// to senders based on gas limit
    pub min_gas_multiplier: String,
}

/// GenesisState defines the feemarket module's genesis state.
#[derive(Clone, Debug, PartialEq, Eq, Default)]
pub struct GenesisState {
    /// params defines all the parameters of the feemarket module.
    pub params: Option<Params>,
    /// block_gas is the amount of gas wanted on the last block before the upgrade.
    /// Zero by default.
    pub block_gas: u64,
}

/// QueryParamsRequest defines the request type for querying x/vm parameters.
#[derive(Clone, Debug, PartialEq, Eq, Default)]
pub struct QueryParamsRequest {}

/// QueryParamsResponse defines the response type for querying x/vm parameters.
#[derive(Clone, Debug, PartialEq, Eq, Default)]
pub struct QueryParamsResponse {
    /// params define the evm module parameters.
    pub params: Option<Params>,
}

/// QueryBaseFeeRequest defines the request type for querying the EIP1559 base
/// fee.
#[derive(Clone, Debug, PartialEq, Eq, Default)]
pub struct QueryBaseFeeRequest {}

/// QueryBaseFeeResponse returns the EIP1559 base fee.
#[derive(Clone, Debug, PartialEq, Eq, Default)]
pub struct QueryBaseFeeResponse {
    /// base_fee is the EIP1559 base fee
    pub base_fee: String,
}

/// QueryBlockGasRequest defines the request type for querying the EIP1559 base
/// fee.
#[derive(Clone, Debug, PartialEq, Eq, Default)]
pub struct QueryBlockGasRequest {}

/// QueryBlockGasResponse returns block gas used for a given height.
#[derive(Clone, Debug, PartialEq, Eq, Default)]
pub struct QueryBlockGasResponse {
    /// gas is the returned block gas
    pub gas: i64,
}

/// MsgUpdateParams defines a Msg for updating the x/feemarket module parameters.
#[derive(Clone, Debug, PartialEq, Eq, Default)]
pub struct MsgUpdateParams {
    /// authority is the address of the governance account.
    pub authority: String,
    /// params defines the x/feemarket parameters to update.
    /// NOTE: All parameters must be supplied.
    pub params: Option<Params>,
}

/// MsgUpdateParamsResponse defines the response structure for executing a
/// MsgUpdateParams message.
#[derive(Clone, Debug, PartialEq, Eq, Default)]
pub struct MsgUpdateParamsResponse {}

} // verus!
