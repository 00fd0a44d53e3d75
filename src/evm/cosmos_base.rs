use vstd::prelude::*;

verus! {

/// Coin defines a token with a denomination and an amount, the amount being
/// written as a decimal integer.
#[derive(Clone, Debug, PartialEq, Eq, Default)]
pub struct Coin {
    pub denom: String,
    pub amount: String,
}

/// PageRequest is to be embedded in gRPC request messages for efficient
/// pagination.
#[derive(Clone, Debug, PartialEq, Eq, Default)]
pub struct PageRequest {
    /// key is a value returned in PageResponse.next_key to begin
    /// querying the next page most efficiently.
    pub key: Vec<u8>,
    /// offset is a numeric offset that can be used when key is unavailable.
    pub offset: u64,
    /// limit is the total number of results to be returned in the result page.
    pub limit: u64,
    /// count_total is set to true to indicate that the result set should include
    /// a count of the total number of items available for pagination.
    pub count_total: bool,
    /// reverse is set to true if results are to be returned in the descending order.
    pub reverse: bool,
}

/// PageResponse is to be embedded in gRPC response messages where the
/// corresponding request message has used PageRequest.
#[derive(Clone, Debug, PartialEq, Eq, Default)]
pub struct PageResponse {
    /// next_key is the key to be passed to PageRequest.key to query the next
    /// page most efficiently. It will be empty if there are no more results.
    pub next_key: Vec<u8>,
    /// total is total number of results available if PageRequest.count_total
    /// was set, its value is undefined otherwise
    pub total: u64,
}

/// DenomUnit represents a struct that describes a given denomination unit of
/// the basic token.
#[derive(Clone, Debug, PartialEq, Eq, Default)]
pub struct DenomUnit {
    /// denom represents the string name of the given denom unit (e.g uatom).
    pub denom: String,
    /// exponent represents power of 10 exponent that one must raise the base_denom
    /// to in order to equal the given DenomUnit's denom.
    pub exponent: u32,
    /// aliases is a list of string aliases for the given denom
    pub aliases: Vec<String>,
}

/// Metadata represents a struct that describes a basic token.
#[derive(Clone, Debug, PartialEq, Eq, Default)]
pub struct Metadata {
    pub description: String,
    /// denom_units represents the list of DenomUnit's for a given coin
    pub denom_units: Vec<DenomUnit>,
    /// base represents the base denom (should be the DenomUnit with exponent = 0).
    pub base: String,
    /// display indicates the suggested denom that should be displayed in clients.
    pub display: String,
    /// name defines the name of the token (eg: Cosmos Atom)
    pub name: String,
    /// symbol is the token symbol usually shown on exchanges (eg: ATOM).
    pub symbol: String,
    /// URI to a document (on or off-chain) that contains additional information.
    pub uri: String,
    /// URIHash is a sha256 hash of a document pointed by URI.
    pub uri_hash: String,
}

/// A point in time, as seconds and nanoseconds since the Unix epoch.
#[derive(Clone, Copy, Debug, PartialEq, Eq, Default)]
pub struct Timestamp {
    pub seconds: i64,
    pub nanos: i32,
}

} // verus!
