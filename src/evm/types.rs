use vstd::prelude::*;

verus! {

/// ExtensionOptionDynamicFeeTx is an extension option that specifies the
/// maxPrioPrice for cosmos tx
#[derive(Clone, Debug, PartialEq, Eq, Default)]
pub struct ExtensionOptionDynamicFeeTx {
    /// max_priority_price is the same as `max_priority_fee_per_gas` in eip-1559
    /// spec
    pub max_priority_price: String,
}

/// TxResult is the value stored in eth tx indexer
#[derive(Clone, Debug, PartialEq, Eq, Default)]
pub struct TxResult {
    /// height of the blockchain
    pub height: i64,
    /// tx_index of the cosmos transaction
    pub tx_index: u32,
    /// msg_index in a batch transaction
    pub msg_index: u32,
    /// eth_tx_index is the index in the list of valid eth tx in the block,
    /// aka. the transaction list returned by eth_getBlock api.
    pub eth_tx_index: i32,
    /// failed is true if the eth transaction did not go succeed
    pub failed: bool,
    /// gas_used by the transaction. If it exceeds the block gas limit,
    /// it's set to gas limit, which is what's actually deducted by ante handler.
    pub gas_used: u64,
    /// cumulative_gas_used specifies the cumulated amount of gas used for all
    /// processed messages within the current batch transaction.
    pub cumulative_gas_used: u64,
}

/// ExtensionOptionsWeb3Tx is an extension option that specifies the typed chain
/// id, the fee payer as well as its signature data.
#[derive(Clone, Debug, PartialEq, Eq, Default)]
pub struct ExtensionOptionsWeb3Tx {
    /// typed_data_chain_id is used only in EIP712 Domain and should match
    /// Ethereum network ID in a Web3 provider (e.g. Metamask).
    pub typed_data_chain_id: u64,
    /// fee_payer is an account address for the fee payer. It will be validated
    /// during EIP712 signature checking.
    pub fee_payer: String,
    /// fee_payer_sig is a signature data from the fee paying account,
    /// allows to perform fee delegation when using EIP712 Domain.
    pub fee_payer_sig: Vec<u8>,
}

} // verus!
