use vstd::prelude::*;
use crate::bytes::str_eq;

verus! {

/// TokenPair defines an instance that records a pairing consisting of a native
/// Cosmos Coin and an ERC20 token address.
#[derive(Clone, Debug, PartialEq, Eq, Default)]
pub struct TokenPair {
    /// erc20_address is the hex address of ERC20 contract token
    pub erc20_address: String,
    /// denom defines the cosmos base denomination to be mapped to
    pub denom: String,
    /// enabled defines the token mapping enable status
    pub enabled: bool,
    /// contract_owner is the an ENUM specifying the type of ERC20 owner (0
    /// invalid, 1 ModuleAccount, 2 external address)
    pub contract_owner: i32,
}

/// Allowance is a token allowance only for erc20 precompile
#[derive(Clone, Debug, PartialEq, Eq, Default)]
pub struct Allowance {
    /// erc20_address is the hex address of ERC20 contract
    pub erc20_address: String,
    /// owner is the hex address of the owner account
    pub owner: String,
    /// spender is the hex address that is allowed to spend the allowance
    pub spender: String,
    /// value specifies the maximum amount of tokens that can be spent
    /// by this token allowance and will be updated as tokens are spent.
    pub value: String,
}

/// Deprecated: RegisterCoinProposal is a gov Content type to register a token
/// pair for a native Cosmos coin. We're keeping it to remove the existing
/// proposals from store. After that, remove this message.
///
/// NOTE: Keep this message for backwards compatibility on proposals query
#[derive(Clone, Debug, PartialEq, Eq, Default)]
pub struct RegisterCoinProposal {
    /// title of the proposal
    pub title: String,
    /// description of the proposal
    pub description: String,
    /// metadata slice of the native Cosmos coins
    pub metadata: Vec<crate::evm::cosmos_base::Metadata>,
}

/// Deprecated: ProposalMetadata is used to parse a slice of denom metadata and
/// generate the RegisterCoinProposal content. We're keeping it to remove the
/// existing proposals from store. After that, remove this message.
#[derive(Clone, Debug, PartialEq, Eq, Default)]
pub struct ProposalMetadata {
    /// metadata slice of the native Cosmos coins
    pub metadata: Vec<crate::evm::cosmos_base::Metadata>,
}

/// Deprecated: RegisterERC20Proposal is a gov Content type to register a token
/// pair for an ERC20 token.
///
/// NOTE: Keep this message for backwards compatibility on proposals query
#[derive(Clone, Debug, PartialEq, Eq, Default)]
pub struct RegisterErc20Proposal {
    /// title of the proposal
    pub title: String,
    /// description of the proposal
    pub description: String,
    /// erc20addresses is a slice of  ERC20 token contract addresses
    pub erc20addresses: Vec<String>,
}

/// Deprecated: ToggleTokenConversionProposal is a gov Content type to toggle the
/// conversion of a token pair.
///
/// NOTE: Keep this message for backwards compatibility on proposals query
#[derive(Clone, Debug, PartialEq, Eq, Default)]
pub struct ToggleTokenConversionProposal {
    /// title of the proposal
    pub title: String,
    /// description of the proposal
    pub description: String,
    /// token identifier can be either the hex contract address of the ERC20 or the
    /// Cosmos base denomination
    pub token: String,
}

/// Owner enumerates the ownership of a ERC20 contract.
#[derive(Clone, Copy, Debug, PartialEq, Eq, Hash, PartialOrd, Ord, Structural)]
pub enum Owner {
    /// OWNER_UNSPECIFIED defines an invalid/undefined owner.
    Unspecified,
    /// OWNER_MODULE - erc20 is owned by the erc20 module account.
    Module,
    /// OWNER_EXTERNAL - erc20 is owned by an external account.
    External,
}

impl Owner {
    /// The field name used for each variant in the ProtoBuf definition.
    pub open spec fn spec_str_name(self) -> Seq<char> {
        match self {
            Owner::Unspecified => "OWNER_UNSPECIFIED"@,
            Owner::Module => "OWNER_MODULE"@,
            Owner::External => "OWNER_EXTERNAL"@,
        }
    }

    /// String value of the enum field names used in the ProtoBuf definition.
    ///
    /// The values are not transformed in any way and thus are considered stable
    /// (if the ProtoBuf definition does not change) and safe for programmatic use.
    pub fn as_str_name(&self) -> (r: &'static str)
        ensures
            r@ == self.spec_str_name(),
    {
        match self {
            Owner::Unspecified => "OWNER_UNSPECIFIED",
            Owner::Module => "OWNER_MODULE",
            Owner::External => "OWNER_EXTERNAL",
        }
    }

    /// Creates an enum from field names used in the ProtoBuf definition.
    pub fn from_str_name(value: &str) -> (r: Option<Self>)
        ensures
            r matches Some(v) ==> v.spec_str_name() == value@,
            r is None ==> forall|v: Owner| #[trigger] v.spec_str_name() != value@,
    {
        if str_eq(value, "OWNER_UNSPECIFIED") {
            Some(Owner::Unspecified)
        } else if str_eq(value, "OWNER_MODULE") {
            Some(Owner::Module)
        } else if str_eq(value, "OWNER_EXTERNAL") {
            Some(Owner::External)
        } else {
            None
        }
    }
}


/// EventRegisterPair is an event emitted when a coin is registered.
#[derive(Clone, Debug, PartialEq, Eq, Default)]
pub struct EventRegisterPair {
    /// denom is the coin's denomination.
    pub denom: String,
    /// erc20_address is the ERC20 contract address.
    pub erc20_address: String,
}

/// EventToggleTokenConversion is an event emitted when a coin's token conversion
/// is toggled.
#[derive(Clone, Debug, PartialEq, Eq, Default)]
pub struct EventToggleTokenConversion {
    /// denom is the coin's denomination.
    pub denom: String,
    /// erc20_address is the ERC20 contract address.
    pub erc20_address: String,
}

/// EventConvertCoin is an event emitted when a coin is converted.
#[derive(Clone, Debug, PartialEq, Eq, Default)]
pub struct EventConvertCoin {
    /// sender is the sender's address.
    pub sender: String,
    /// receiver is the receiver's address.
    pub receiver: String,
    /// amount is the amount of coins to be converted.
    pub amount: String,
    /// denom is the coin's denomination.
    pub denom: String,
    /// erc20_address is the ERC20 contract address.
    pub erc20_address: String,
}

/// EventConvertERC20 is an event emitted when an ERC20 is converted.
#[derive(Clone, Debug, PartialEq, Eq, Default)]
pub struct EventConvertErc20 {
    /// sender is the sender's address.
    pub sender: String,
    /// receiver is the receiver's address.
    pub receiver: String,
    /// amount is the amount of coins to be converted.
    pub amount: String,
    /// denom is the coin's denomination.
    pub denom: String,
    /// contract_address of an ERC20 token contract, that is registered in a token
    /// pair
    pub contract_address: String,
}

/// GenesisState defines the module's genesis state.
#[derive(Clone, Debug, PartialEq, Eq, Default)]
pub struct GenesisState {
    /// params are the erc20 module parameters at genesis
    pub params: Option<Params>,
    /// token_pairs is a slice of the registered token pairs at genesis
    pub token_pairs: Vec<TokenPair>,
    /// allowances is a slice of the registered allowances at genesis
    pub allowances: Vec<Allowance>,
    /// native_precompiles is a slice of registered native precompiles at genesis
    pub native_precompiles: Vec<String>,
    /// dynamic_precompiles is a slice of registered dynamic precompiles at genesis
    pub dynamic_precompiles: Vec<String>,
}

/// Params defines the erc20 module params
#[derive(Clone, Debug, PartialEq, Eq, Default)]
pub struct Params {
    /// enable_erc20 is the parameter to enable the conversion of Cosmos coins <-->
    /// ERC20 tokens.
    pub enable_erc20: bool,
    /// permissionless_registration is the parameter that allows ERC20s to be
    /// permissionlessly registered to be converted to bank tokens and vice versa
    pub permissionless_registration: bool,
}

/// QueryTokenPairsRequest is the request type for the Query/TokenPairs RPC
/// method.
#[derive(Clone, Debug, PartialEq, Eq, Default)]
pub struct QueryTokenPairsRequest {
    /// pagination defines an optional pagination for the request.
    pub pagination: Option<crate::evm::cosmos_base::PageRequest>,
}

/// QueryTokenPairsResponse is the response type for the Query/TokenPairs RPC
/// method.
#[derive(Clone, Debug, PartialEq, Eq, Default)]
pub struct QueryTokenPairsResponse {
    /// token_pairs is a slice of registered token pairs for the erc20 module
    pub token_pairs: Vec<TokenPair>,
    /// pagination defines the pagination in the response.
    pub pagination: Option<crate::evm::cosmos_base::PageResponse>,
}

/// QueryTokenPairRequest is the request type for the Query/TokenPair RPC method.
#[derive(Clone, Debug, PartialEq, Eq, Default)]
pub struct QueryTokenPairRequest {
    /// token identifier can be either the hex contract address of the ERC20 or the
    /// Cosmos base denomination
    pub token: String,
}

/// QueryTokenPairResponse is the response type for the Query/TokenPair RPC
/// method.
#[derive(Clone, Debug, PartialEq, Eq, Default)]
pub struct QueryTokenPairResponse {
    /// token_pairs returns the info about a registered token pair for the erc20
    /// module
    pub token_pair: Option<TokenPair>,
}

/// QueryParamsRequest is the request type for the Query/Params RPC method.
#[derive(Clone, Debug, PartialEq, Eq, Default)]
pub struct QueryParamsRequest {}

/// QueryParamsResponse is the response type for the Query/Params RPC
/// method.
#[derive(Clone, Debug, PartialEq, Eq, Default)]
pub struct QueryParamsResponse {
    /// params are the erc20 module parameters
    pub params: Option<Params>,
}

/// MsgConvertERC20 defines a Msg to convert a ERC20 token to a native Cosmos
/// coin.
#[derive(Clone, Debug, PartialEq, Eq, Default)]
pub struct MsgConvertErc20 {
    /// contract_address of an ERC20 token contract, that is registered in a token
    /// pair
    pub contract_address: String,
    /// amount of ERC20 tokens to convert
    pub amount: String,
    /// receiver is the bech32 address to receive native Cosmos coins
    pub receiver: String,
    /// sender is the hex address from the owner of the given ERC20 tokens
    pub sender: String,
}

/// MsgConvertERC20Response returns no fields
#[derive(Clone, Debug, PartialEq, Eq, Default)]
pub struct MsgConvertErc20Response {}

/// MsgConvertCoin defines a Msg to convert a native Cosmos coin to a ERC20 token
#[derive(Clone, Debug, PartialEq, Eq, Default)]
pub struct MsgConvertCoin {
    /// coin is a Cosmos coin whose denomination is registered in a token pair. The
    /// coin amount defines the amount of coins to convert.
    pub coin: Option<crate::evm::cosmos_base::Coin>,
    /// receiver is the hex address to receive ERC20 token
    pub receiver: String,
    /// sender is the cosmos bech32 address from the owner of the given Cosmos
    /// coins
    pub sender: String,
}

/// MsgConvertCoinResponse returns no fields
#[derive(Clone, Debug, PartialEq, Eq, Default)]
pub struct MsgConvertCoinResponse {}

/// MsgUpdateParams is the Msg/UpdateParams request type for Erc20 parameters.
/// Since: cosmos-sdk 0.47
#[derive(Clone, Debug, PartialEq, Eq, Default)]
pub struct MsgUpdateParams {
    /// authority is the address of the governance account.
    pub authority: String,
    /// params defines the x/vm parameters to update.
    /// NOTE: All parameters must be supplied.
    pub params: Option<Params>,
}

/// MsgUpdateParamsResponse defines the response structure for executing a
/// MsgUpdateParams message.
/// Since: cosmos-sdk 0.47
#[derive(Clone, Debug, PartialEq, Eq, Default)]
pub struct MsgUpdateParamsResponse {}

/// MsgRegisterERC20 is the Msg/RegisterERC20 request type for registering
/// an Erc20 contract token pair.
#[derive(Clone, Debug, PartialEq, Eq, Default)]
pub struct MsgRegisterErc20 {
    /// signer is the address registering the erc20 pairs
    pub signer: String,
    /// erc20addresses is a slice of ERC20 token contract hex addresses
    pub erc20addresses: Vec<String>,
}

/// MsgRegisterERC20Response defines the response structure for executing a
/// MsgRegisterERC20 message.
#[derive(Clone, Debug, PartialEq, Eq, Default)]
pub struct MsgRegisterErc20Response {}

/// MsgToggleConversion is the Msg/MsgToggleConversion request type for toggling
/// an Erc20 contract conversion capability.
#[derive(Clone, Debug, PartialEq, Eq, Default)]
pub struct MsgToggleConversion {
    /// authority is the address of the governance account.
    pub authority: String,
    /// token identifier can be either the hex contract address of the ERC20 or the
    /// Cosmos base denomination
    pub token: String,
}

/// MsgToggleConversionResponse defines the response structure for executing a
/// ToggleConversion message.
#[derive(Clone, Debug, PartialEq, Eq, Default)]
pub struct MsgToggleConversionResponse {}

} // verus!
