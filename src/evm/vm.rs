use vstd::prelude::*;
use crate::bytes::str_eq;

verus! {

/// EventEthereumTx defines the event for an Ethereum transaction
#[derive(Clone, Debug, PartialEq, Eq, Default)]
pub struct EventEthereumTx {
    /// amount
    pub amount: String,
    /// eth_hash is the Ethereum hash of the transaction
    pub eth_hash: String,
    /// index of the transaction in the block
    pub index: String,
    /// gas_used is the amount of gas used by the transaction
    pub gas_used: String,
    /// hash is the CometBFT hash of the transaction
    pub hash: String,
    /// recipient of the transaction
    pub recipient: String,
    /// eth_tx_failed contains a VM error should it occur
    pub eth_tx_failed: String,
}

/// EventTxLog defines the event for an Ethereum transaction log
#[derive(Clone, Debug, PartialEq, Eq, Default)]
pub struct EventTxLog {
    /// tx_logs is an array of transaction logs
    pub tx_logs: Vec<String>,
}

/// EventMessage
#[derive(Clone, Debug, PartialEq, Eq, Default)]
pub struct EventMessage {
    /// module which emits the event
    pub module: String,
    /// sender of the message
    pub sender: String,
    /// tx_type is the type of the message
    pub tx_type: String,
}

/// EventBlockBloom defines an Ethereum block bloom filter event
#[derive(Clone, Debug, PartialEq, Eq, Default)]
pub struct EventBlockBloom {
    /// bloom is the bloom filter of the block
    pub bloom: String,
}

/// Params defines the EVM module parameters
#[derive(Clone, Debug, PartialEq, Eq, Default)]
pub struct Params {
    /// evm_denom represents the token denomination used to run the EVM state
    /// transitions.
    pub evm_denom: String,
    /// extra_eips defines the additional EIPs for the vm.Config
    pub extra_eips: Vec<i64>,
    /// allow_unprotected_txs defines if replay-protected (i.e non EIP155
    /// signed) transactions can be executed on the state machine.
    pub allow_unprotected_txs: bool,
    /// evm_channels is the list of channel identifiers from EVM compatible chains
    pub evm_channels: Vec<String>,
    /// access_control defines the permission policy of the EVM
    pub access_control: Option<AccessControl>,
    /// active_static_precompiles defines the slice of hex addresses of the
    /// precompiled contracts that are active
    pub active_static_precompiles: Vec<String>,
    pub history_serve_window: u64,
}

/// AccessControl defines the permission policy of the EVM
/// for creating and calling contracts
#[derive(Clone, Debug, PartialEq, Eq, Default)]
pub struct AccessControl {
    /// create defines the permission policy for creating contracts
    pub create: Option<AccessControlType>,
    /// call defines the permission policy for calling contracts
    pub call: Option<AccessControlType>,
}

/// AccessControlType defines the permission type for policies
#[derive(Clone, Debug, PartialEq, Eq, Default)]
pub struct AccessControlType {
    /// access_type defines which type of permission is required for the operation
    pub access_type: i32,
    /// access_control_list defines defines different things depending on the
    /// AccessType:
    /// - ACCESS_TYPE_PERMISSIONLESS: list of addresses that are blocked from
    /// performing the operation
    /// - ACCESS_TYPE_RESTRICTED: ignored
    /// - ACCESS_TYPE_PERMISSIONED: list of addresses that are allowed to perform
    /// the operation
    pub access_control_list: Vec<String>,
}

/// ChainConfig defines the Ethereum ChainConfig parameters using *sdk.Int values
/// instead of *big.Int.
#[derive(Clone, Debug, PartialEq, Eq, Default)]
pub struct ChainConfig {
    /// homestead_block switch (nil no fork, 0 = already homestead)
    pub homestead_block: String,
    /// dao_fork_block corresponds to TheDAO hard-fork switch block (nil no fork)
    pub dao_fork_block: String,
    /// dao_fork_support defines whether the nodes supports or opposes the DAO
    /// hard-fork
    pub dao_fork_support: bool,
    /// eip150_block: EIP150 implements the Gas price changes
    /// (<https://github.com/ethereum/EIPs/issues/150>) EIP150 HF block (nil no fork)
    pub eip150_block: String,
    /// eip155_block: EIP155Block HF block
    pub eip155_block: String,
    /// eip158_block: EIP158 HF block
    pub eip158_block: String,
    /// byzantium_block: Byzantium switch block (nil no fork, 0 = already on
    /// byzantium)
    pub byzantium_block: String,
    /// constantinople_block: Constantinople switch block (nil no fork, 0 = already
    /// activated)
    pub constantinople_block: String,
    /// petersburg_block: Petersburg switch block (nil same as Constantinople)
    pub petersburg_block: String,
    /// istanbul_block: Istanbul switch block (nil no fork, 0 = already on
    /// istanbul)
    pub istanbul_block: String,
    /// muir_glacier_block: Eip-2384 (bomb delay) switch block (nil no fork, 0 =
    /// already activated)
    pub muir_glacier_block: String,
    /// berlin_block: Berlin switch block (nil = no fork, 0 = already on berlin)
    pub berlin_block: String,
    /// london_block: London switch block (nil = no fork, 0 = already on london)
    pub london_block: String,
    /// arrow_glacier_block: Eip-4345 (bomb delay) switch block (nil = no fork, 0 =
    /// already activated)
    pub arrow_glacier_block: String,
    /// gray_glacier_block: EIP-5133 (bomb delay) switch block (nil = no fork, 0 =
    /// already activated)
    pub gray_glacier_block: String,
    /// merge_netsplit_block: Virtual fork after The Merge to use as a network
    /// splitter
    pub merge_netsplit_block: String,
    /// chain_id is the id of the chain (EIP-155)
    pub chain_id: u64,
    /// denom is the denomination used on the EVM
    pub denom: String,
    /// decimals is the real decimal precision of the denomination used on the EVM
    pub decimals: u64,
    /// shanghai_time: Shanghai switch time (nil = no fork, 0 = already on
    /// shanghai)
    pub shanghai_time: String,
    /// cancun_time: Cancun switch time (nil = no fork, 0 = already on cancun)
    pub cancun_time: String,
    /// prague_time: Prague switch time (nil = no fork, 0 = already on prague)
    pub prague_time: String,
    /// verkle_time: Verkle switch time (nil = no fork, 0 = already on verkle)
    pub verkle_time: String,
    /// osaka_time: Osaka switch time (nil = no fork, 0 = already on osaka)
    pub osaka_time: String,
}

/// State represents a single Storage key value pair item.
#[derive(Clone, Debug, PartialEq, Eq, Default)]
pub struct State {
    /// key is the stored key
    pub key: String,
    /// value is the stored value for the given key
    pub value: String,
}

/// TransactionLogs define the logs generated from a transaction execution
/// with a given hash. It it used for import/export data as transactions are not
/// persisted on blockchain state after an upgrade.
#[derive(Clone, Debug, PartialEq, Eq, Default)]
pub struct TransactionLogs {
    /// hash of the transaction
    pub hash: String,
    /// logs is an array of Logs for the given transaction hash
    pub logs: Vec<Log>,
}

/// Log represents an protobuf compatible Ethereum Log that defines a contract
/// log event. These events are generated by the LOG opcode and stored/indexed by
/// the node.
///
/// NOTE: address, topics and data are consensus fields. The rest of the fields
/// are derived, i.e. filled in by the nodes, but not secured by consensus.
#[derive(Clone, Debug, PartialEq, Eq, Default)]
pub struct Log {
    /// address of the contract that generated the event
    pub address: String,
    /// topics is a list of topics provided by the contract.
    pub topics: Vec<String>,
    /// data which is supplied by the contract, usually ABI-encoded
    pub data: Vec<u8>,
    /// block_number of the block in which the transaction was included
    pub block_number: u64,
    /// tx_hash is the transaction hash
    pub tx_hash: String,
    /// tx_index of the transaction in the block
    pub tx_index: u64,
    /// block_hash of the block in which the transaction was included
    pub block_hash: String,
    /// index of the log in the block
    pub index: u64,
    /// removed is true if this log was reverted due to a chain
    /// reorganisation. You must pay attention to this field if you receive logs
    /// through a filter query.
    pub removed: bool,
}

/// TxResult stores results of Tx execution.
#[derive(Clone, Debug, PartialEq, Eq, Default)]
pub struct TxResult {
    /// contract_address contains the ethereum address of the created contract (if
    /// any). If the state transition is an evm.Call, the contract address will be
    /// empty.
    pub contract_address: String,
    /// bloom represents the bloom filter bytes
    pub bloom: Vec<u8>,
    /// tx_logs contains the transaction hash and the proto-compatible ethereum
    /// logs.
    pub tx_logs: Option<TransactionLogs>,
    /// ret defines the bytes from the execution.
    pub ret: Vec<u8>,
    /// reverted flag is set to true when the call has been reverted
    pub reverted: bool,
    /// gas_used notes the amount of gas consumed while execution
    pub gas_used: u64,
}

/// AccessTuple is the element type of an access list.
#[derive(Clone, Debug, PartialEq, Eq, Default)]
pub struct AccessTuple {
    /// address is a hex formatted ethereum address
    pub address: String,
    /// storage_keys are hex formatted hashes of the storage keys
    pub storage_keys: Vec<String>,
}

/// TraceConfig holds extra parameters to trace functions.
#[derive(Clone, Debug, PartialEq, Eq, Default)]
pub struct TraceConfig {
    /// tracer is a custom javascript tracer
    pub tracer: String,
    /// timeout overrides the default timeout of 5 seconds for JavaScript-based
    /// tracing calls
    pub timeout: String,
    /// reexec defines the number of blocks the tracer is willing to go back
    pub reexec: u64,
    /// disable_stack switches stack capture
    pub disable_stack: bool,
    /// disable_storage switches storage capture
    pub disable_storage: bool,
    /// debug can be used to print output during capture end
    pub debug: bool,
    /// limit defines the maximum length of output, but zero means unlimited
    pub limit: i32,
    /// overrides can be used to execute a trace using future fork rules
    pub overrides: Option<ChainConfig>,
    /// enable_memory switches memory capture
    pub enable_memory: bool,
    /// enable_return_data switches the capture of return data
    pub enable_return_data: bool,
    /// tracer_json_config configures the tracer using a JSON string
    pub tracer_json_config: String,
}

/// Preinstall defines a contract that is preinstalled on-chain with a specific
/// contract address and bytecode
#[derive(Clone, Debug, PartialEq, Eq, Default)]
pub struct Preinstall {
    /// name of the preinstall contract
    pub name: String,
    /// address in hex format of the preinstall contract
    pub address: String,
    /// code in hex format for the preinstall contract
    pub code: String,
}

/// AccessType defines the types of permissions for the operations
#[derive(Clone, Copy, Debug, PartialEq, Eq, Hash, PartialOrd, Ord, Structural)]
pub enum AccessType {
    /// ACCESS_TYPE_PERMISSIONLESS does not restrict the operation to anyone
    Permissionless,
    /// ACCESS_TYPE_RESTRICTED restrict the operation to anyone
    Restricted,
    /// ACCESS_TYPE_PERMISSIONED only allows the operation for specific addresses
    Permissioned,
}

impl AccessType {
    /// The field name used for each variant in the ProtoBuf definition.
    pub open spec fn spec_str_name(self) -> Seq<char> {
        match self {
            AccessType::Permissionless => "ACCESS_TYPE_PERMISSIONLESS"@,
            AccessType::Restricted => "ACCESS_TYPE_RESTRICTED"@,
            AccessType::Permissioned => "ACCESS_TYPE_PERMISSIONED"@,
        }
    }

    /// String value of the enum field names used in the ProtoBuf definition.
    ///
    /// The values are not transformed in any way and thus are considered stable
    /// (if the ProtoBuf definition does not change) and safe for programmatic use.
    pub fn as_str_name(&self) -> (r: &'static str)
        ensures
            r@ == self.spec_str_name(),
    {
        match self {
            AccessType::Permissionless => "ACCESS_TYPE_PERMISSIONLESS",
            AccessType::Restricted => "ACCESS_TYPE_RESTRICTED",
            AccessType::Permissioned => "ACCESS_TYPE_PERMISSIONED",
        }
    }

    /// Creates an enum from field names used in the ProtoBuf definition.
    pub fn from_str_name(value: &str) -> (r: Option<Self>)
        ensures
            r matches Some(v) ==> v.spec_str_name() == value@,
            r is None ==> forall|v: AccessType| #[trigger] v.spec_str_name() != value@,
    {
        if str_eq(value, "ACCESS_TYPE_PERMISSIONLESS") {
            Some(AccessType::Permissionless)
        } else if str_eq(value, "ACCESS_TYPE_RESTRICTED") {
            Some(AccessType::Restricted)
        } else if str_eq(value, "ACCESS_TYPE_PERMISSIONED") {
            Some(AccessType::Permissioned)
        } else {
            None
        }
    }
}


/// GenesisState defines the evm module's genesis state.
#[derive(Clone, Debug, PartialEq, Eq, Default)]
pub struct GenesisState {
    /// accounts is an array containing the ethereum genesis accounts.
    pub accounts: Vec<GenesisAccount>,
    /// params defines all the parameters of the module.
    pub params: Option<Params>,
    /// preinstalls defines a set of predefined contracts
    pub preinstalls: Vec<Preinstall>,
}

/// GenesisAccount defines an account to be initialized in the genesis state.
/// Its main difference between with Geth's GenesisAccount is that it uses a
/// custom storage type and that it doesn't contain the private key field.
#[derive(Clone, Debug, PartialEq, Eq, Default)]
pub struct GenesisAccount {
    /// address defines an ethereum hex formated address of an account
    pub address: String,
    /// code defines the hex bytes of the account code.
    pub code: String,
    /// storage defines the set of state key values for the account.
    pub storage: Vec<State>,
}

/// MsgEthereumTx encapsulates an Ethereum transaction as an SDK message.
#[derive(Clone, Debug, PartialEq, Eq, Default)]
pub struct MsgEthereumTx {
    /// from is the bytes of ethereum signer address. This address value is checked
    /// against the address derived from the signature (V, R, S) using the
    /// secp256k1 elliptic curve
    pub from: Vec<u8>,
    /// raw is the raw ethereum transaction
    pub raw: Vec<u8>,
}

/// ExtensionOptionsEthereumTx is an extension option for ethereum transactions
#[derive(Clone, Debug, PartialEq, Eq, Default)]
pub struct ExtensionOptionsEthereumTx {}

/// MsgEthereumTxResponse defines the Msg/EthereumTx response type.
#[derive(Clone, Debug, PartialEq, Eq, Default)]
pub struct MsgEthereumTxResponse {
    /// hash of the ethereum transaction in hex format. This hash differs from the
    /// CometBFT sha256 hash of the transaction bytes. See
    /// <https://github.com/tendermint/tendermint/issues/6539> for reference
    pub hash: String,
    /// logs contains the transaction hash and the proto-compatible ethereum
    /// logs.
    pub logs: Vec<Log>,
    /// ret is the returned data from evm function (result or data supplied with
    /// revert opcode)
    pub ret: Vec<u8>,
    /// vm_error is the error returned by vm execution
    pub vm_error: String,
    /// gas_used specifies how much gas was consumed by the transaction
    pub gas_used: u64,
}

/// MsgUpdateParams defines a Msg for updating the x/vm module parameters.
#[derive(Clone, Debug, PartialEq, Eq, Default)]
pub struct MsgUpdateParams {
    /// authority is the address of the governance account.
    pub authority: String,
    /// params defines the x/vm parameters to update.
    /// NOTE: All parameters must be supplied.
    pub params: Option<Params>,
}

/// MsgUpdateParamsResponse defines the response structure for executing a
/// MsgUpdateParams message.
#[derive(Clone, Debug, PartialEq, Eq, Default)]
pub struct MsgUpdateParamsResponse {}

/// MsgRegisterPreinstalls defines a Msg for creating preinstalls in evm state.
#[derive(Clone, Debug, PartialEq, Eq, Default)]
pub struct MsgRegisterPreinstalls {
    /// authority is the address of the governance account.
    pub authority: String,
    /// preinstalls defines the preinstalls to create.
    pub preinstalls: Vec<Preinstall>,
}

/// MsgRegisterPreinstallsResponse defines the response structure for executing a
/// MsgRegisterPreinstalls message.
#[derive(Clone, Debug, PartialEq, Eq, Default)]
pub struct MsgRegisterPreinstallsResponse {}

/// QueryConfigRequest defines the request type for querying the config
#[derive(Clone, Debug, PartialEq, Eq, Default)]
pub struct QueryConfigRequest {}

/// QueryConfigResponse returns the EVM config.
#[derive(Clone, Debug, PartialEq, Eq, Default)]
pub struct QueryConfigResponse {
    /// config is the evm configuration
    pub config: Option<ChainConfig>,
}

/// QueryAccountRequest is the request type for the Query/Account RPC method.
#[derive(Clone, Debug, PartialEq, Eq, Default)]
pub struct QueryAccountRequest {
    /// address is the ethereum hex address to query the account for.
    pub address: String,
}

/// QueryAccountResponse is the response type for the Query/Account RPC method.
#[derive(Clone, Debug, PartialEq, Eq, Default)]
pub struct QueryAccountResponse {
    /// balance is the balance of the EVM denomination.
    pub balance: String,
    /// code_hash is the hex-formatted code bytes from the EOA.
    pub code_hash: String,
    /// nonce is the account's sequence number.
    pub nonce: u64,
}

/// QueryCosmosAccountRequest is the request type for the Query/CosmosAccount RPC
/// method.
#[derive(Clone, Debug, PartialEq, Eq, Default)]
pub struct QueryCosmosAccountRequest {
    /// address is the ethereum hex address to query the account for.
    pub address: String,
}

/// QueryCosmosAccountResponse is the response type for the Query/CosmosAccount
/// RPC method.
#[derive(Clone, Debug, PartialEq, Eq, Default)]
pub struct QueryCosmosAccountResponse {
    /// cosmos_address is the cosmos address of the account.
    pub cosmos_address: String,
    /// sequence is the account's sequence number.
    pub sequence: u64,
    /// account_number is the account number
    pub account_number: u64,
}

/// QueryValidatorAccountRequest is the request type for the
/// Query/ValidatorAccount RPC method.
#[derive(Clone, Debug, PartialEq, Eq, Default)]
pub struct QueryValidatorAccountRequest {
    /// cons_address is the validator cons address to query the account for.
    pub cons_address: String,
}

/// QueryValidatorAccountResponse is the response type for the
/// Query/ValidatorAccount RPC method.
#[derive(Clone, Debug, PartialEq, Eq, Default)]
pub struct QueryValidatorAccountResponse {
    /// account_address is the cosmos address of the account in bech32 format.
    pub account_address: String,
    /// sequence is the account's sequence number.
    pub sequence: u64,
    /// account_number is the account number
    pub account_number: u64,
}

/// QueryBalanceRequest is the request type for the Query/Balance RPC method.
#[derive(Clone, Debug, PartialEq, Eq, Default)]
pub struct QueryBalanceRequest {
    /// address is the ethereum hex address to query the balance for.
    pub address: String,
}

/// QueryBalanceResponse is the response type for the Query/Balance RPC method.
#[derive(Clone, Debug, PartialEq, Eq, Default)]
pub struct QueryBalanceResponse {
    /// balance is the balance of the EVM denomination.
    pub balance: String,
}

/// QueryStorageRequest is the request type for the Query/Storage RPC method.
#[derive(Clone, Debug, PartialEq, Eq, Default)]
pub struct QueryStorageRequest {
    /// address is the ethereum hex address to query the storage state for.
    pub address: String,
    /// key defines the key of the storage state
    pub key: String,
}

/// QueryStorageResponse is the response type for the Query/Storage RPC
/// method.
#[derive(Clone, Debug, PartialEq, Eq, Default)]
pub struct QueryStorageResponse {
    /// value defines the storage state value hash associated with the given key.
    pub value: String,
}

/// QueryCodeRequest is the request type for the Query/Code RPC method.
#[derive(Clone, Debug, PartialEq, Eq, Default)]
pub struct QueryCodeRequest {
    /// address is the ethereum hex address to query the code for.
    pub address: String,
}

/// QueryCodeResponse is the response type for the Query/Code RPC
/// method.
#[derive(Clone, Debug, PartialEq, Eq, Default)]
pub struct QueryCodeResponse {
    /// code represents the code bytes from an ethereum address.
    pub code: Vec<u8>,
}

/// QueryTxLogsRequest is the request type for the Query/TxLogs RPC method.
#[derive(Clone, Debug, PartialEq, Eq, Default)]
pub struct QueryTxLogsRequest {
    /// hash is the ethereum transaction hex hash to query the logs for.
    pub hash: String,
    /// pagination defines an optional pagination for the request.
    pub pagination: Option<crate::evm::cosmos_base::PageRequest>,
}

/// QueryTxLogsResponse is the response type for the Query/TxLogs RPC method.
#[derive(Clone, Debug, PartialEq, Eq, Default)]
pub struct QueryTxLogsResponse {
    /// logs represents the ethereum logs generated from the given transaction.
    pub logs: Vec<Log>,
    /// pagination defines the pagination in the response.
    pub pagination: Option<crate::evm::cosmos_base::PageResponse>,
}

/// QueryParamsRequest defines the request type for querying x/vm parameters.
#[derive(Clone, Debug, PartialEq, Eq, Default)]
pub struct QueryParamsRequest {}

/// QueryParamsResponse defines the response type for querying x/vm parameters.
#[derive(Clone, Debug, PartialEq, Eq, Default)]
pub struct QueryParamsResponse {
    /// params define the evm module parameters.
    pub params: Option<Params>,
}

/// EthCallRequest defines EthCall request
#[derive(Clone, Debug, PartialEq, Eq, Default)]
pub struct EthCallRequest {
    /// args uses the same json format as the json rpc api.
    pub args: Vec<u8>,
    /// gas_cap defines the default gas cap to be used
    pub gas_cap: u64,
    /// proposer_address of the requested block in hex format
    pub proposer_address: Vec<u8>,
    /// chain_id is the eip155 chain id parsed from the requested block header
    pub chain_id: i64,
}

/// EstimateGasResponse defines EstimateGas response
#[derive(Clone, Debug, PartialEq, Eq, Default)]
pub struct EstimateGasResponse {
    /// gas returns the estimated gas
    pub gas: u64,
    /// ret is the returned data from evm function (result or data supplied with
    /// revert opcode)
    pub ret: Vec<u8>,
    /// vm_error is the error returned by vm execution
    pub vm_error: String,
}

/// QueryTraceTxRequest defines TraceTx request
#[derive(Clone, Debug, PartialEq, Eq, Default)]
pub struct QueryTraceTxRequest {
    /// msg is the MsgEthereumTx for the requested transaction
    pub msg: Option<MsgEthereumTx>,
    /// trace_config holds extra parameters to trace functions.
    pub trace_config: Option<TraceConfig>,
    /// predecessors is an array of transactions included in the same block
    /// need to be replayed first to get correct context for tracing.
    pub predecessors: Vec<MsgEthereumTx>,
    /// block_number of requested transaction
    pub block_number: i64,
    /// block_hash of requested transaction
    pub block_hash: String,
    /// block_time of requested transaction
    pub block_time: Option<crate::evm::cosmos_base::Timestamp>,
    /// proposer_address is the proposer of the requested block
    pub proposer_address: Vec<u8>,
    /// chain_id is the eip155 chain id parsed from the requested block header
    pub chain_id: i64,
    /// block_max_gas of the block of the requested transaction
    pub block_max_gas: i64,
}

/// QueryTraceTxResponse defines TraceTx response
#[derive(Clone, Debug, PartialEq, Eq, Default)]
pub struct QueryTraceTxResponse {
    /// data is the response serialized in bytes
    pub data: Vec<u8>,
}

/// QueryTraceBlockRequest defines TraceTx request
#[derive(Clone, Debug, PartialEq, Eq, Default)]
pub struct QueryTraceBlockRequest {
    /// txs is an array of messages in the block
    pub txs: Vec<MsgEthereumTx>,
    /// trace_config holds extra parameters to trace functions.
    pub trace_config: Option<TraceConfig>,
    /// block_number of the traced block
    pub block_number: i64,
    /// block_hash (hex) of the traced block
    pub block_hash: String,
    /// block_time of the traced block
    pub block_time: Option<crate::evm::cosmos_base::Timestamp>,
    /// proposer_address is the address of the requested block
    pub proposer_address: Vec<u8>,
    /// chain_id is the eip155 chain id parsed from the requested block header
    pub chain_id: i64,
    /// block_max_gas of the traced block
    pub block_max_gas: i64,
}

/// QueryTraceBlockResponse defines TraceBlock response
#[derive(Clone, Debug, PartialEq, Eq, Default)]
pub struct QueryTraceBlockResponse {
    /// data is the response serialized in bytes
    pub data: Vec<u8>,
}

/// QueryBaseFeeRequest defines the request type for querying the EIP1559 base
/// fee.
#[derive(Clone, Debug, PartialEq, Eq, Default)]
pub struct QueryBaseFeeRequest {}

/// QueryBaseFeeResponse returns the EIP1559 base fee.
#[derive(Clone, Debug, PartialEq, Eq, Default)]
pub struct QueryBaseFeeResponse {
    /// base_fee is the EIP1559 base fee
    pub base_fee: String,
}

/// QueryGlobalMinGasPriceRequest defines the request type for querying the
/// GlobalMinGasPrice
#[derive(Clone, Debug, PartialEq, Eq, Default)]
pub struct QueryGlobalMinGasPriceRequest {}

/// QueryGlobalMinGasPriceResponse returns the GlobalMinGasPrice
#[derive(Clone, Debug, PartialEq, Eq, Default)]
pub struct QueryGlobalMinGasPriceResponse {
    /// min_gas_price is the feemarket's min_gas_price
    pub min_gas_price: String,
}

} // verus!
