use vstd::prelude::*;

use crate::decimal::{Decimal, OverflowError};

verus! {

/// Every way an operation of the claimdrop engine can fail.
#[derive(Clone, Debug, PartialEq, Eq)]
pub enum ContractError {
    SemVer(String),
    OverflowError(OverflowError),
    InvalidDistributionPercentage { expected: Decimal, actual: Decimal },
    ZeroDistributionPercentage,
    InvalidCampaignParam { param: String, reason: String },
    ExceededMaxClaimAmount,
    CampaignError { reason: String },
    InvalidDistributionTimes { start_time: u64, end_time: u64 },
    InvalidStartDistributionTime { start_time: u64, campaign_start_time: u64 },
    InvalidEndDistributionTime { end_time: u64, campaign_end_time: u64 },
    NothingToClaim,
    NoAllocationFound { address: String },
    AllocationAlreadyExists { address: String },
    AddressBlacklisted,
    InvalidClaimAmount { reason: String },
    InvalidInput { reason: String },
    BatchSizeLimitExceeded { actual: usize, max: usize },
}

impl ContractError {
    /// An `InvalidCampaignParam` error that names the parameter `param`.
    pub open spec fn is_param_error(self, param: Seq<char>) -> bool {
        self matches ContractError::InvalidCampaignParam { param: p, .. } && p@ == param
    }

    /// An `InvalidCampaignParam` error that names the parameter `param` and
    /// gives `reason`.
    pub open spec fn is_param_error_with(self, param: Seq<char>, reason: Seq<char>) -> bool {
        self matches ContractError::InvalidCampaignParam { param: p, reason: q } && p@ == param && q@ == reason
    }

    /// A `CampaignError`, whatever its reason.
    pub open spec fn is_campaign_error(self) -> bool {
        self matches ContractError::CampaignError { .. }
    }
}

/// An `InvalidCampaignParam` error for `param`, giving `reason`.
pub fn invalid_param(param: &str, reason: &str) -> (e: ContractError)
    ensures
        e.is_param_error(param@),
        e matches ContractError::InvalidCampaignParam { reason: r, .. } && r@ == reason@,
{
    ContractError::InvalidCampaignParam { param: param.to_owned(), reason: reason.to_owned() }
}

/// A `CampaignError` giving `reason`.
pub fn campaign_error(reason: &str) -> (e: ContractError)
    ensures
        e matches ContractError::CampaignError { reason: r } && r@ == reason@,
{
    ContractError::CampaignError { reason: reason.to_owned() }
}

impl From<OverflowError> for ContractError {
    fn from(e: OverflowError) -> (r: ContractError)
        ensures
            r == ContractError::OverflowError(e),
    {
        ContractError::OverflowError(e)
    }
}

impl vstd::std_specs::convert::FromSpecImpl<OverflowError> for ContractError {
    open spec fn obeys_from_spec() -> bool {
        true
    }

    open spec fn from_spec(e: OverflowError) -> ContractError {
        ContractError::OverflowError(e)
    }
}

} // verus!
