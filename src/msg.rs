use vstd::prelude::*;

use vstd::string::StrSliceExecFns;
use crate::decimal::{Decimal, DECIMAL_FRACTIONAL};
use crate::error::{invalid_param, ContractError};

verus! {

/// The longest campaign name or type, in characters.
pub const MAX_NAME_LENGTH: usize = 200;

/// The longest campaign description, in characters.
pub const MAX_DESCRIPTION_LENGTH: usize = 2000;

/// The most distribution schedules a campaign may have.
pub const MAX_DISTRIBUTION_TYPES: usize = 2;

/// An amount of one asset.
#[derive(Clone, Debug, PartialEq, Eq)]
pub struct Coin {
    pub denom: String,
    pub amount: u128,
}

pub struct InstantiateMsg {
    /// Owner of the contract. If not set, it is the sender of the Instantiate message.
    pub owner: Option<String>,
}

pub enum ExecuteMsg {
    /// Manages campaigns based on the action, defined by [CampaignAction].
    ManageCampaign { action: CampaignAction },
    /// Claims rewards from a campaign
    Claim {
        /// The receiver address of the claimed rewards. If not set, the sender of the message will be the receiver.
        receiver: Option<String>,
        /// The amount to claim. If not set, all available tokens will be claimed.
        amount: Option<u128>,
    },
    /// Adds a batch of addresses and their allocations. This can only be done before the campaign has started.
    AddAllocations {
        /// Vector of (address, amount) pairs
        allocations: Vec<(String, u128)>,
    },
    /// Replaces an address in the allocation list. This can only be done before the campaign has started.
    ReplaceAddress {
        /// The old address to replace
        old_address: String,
        /// The new address to use
        new_address: String,
    },
    /// Removes an address in the allocation list. This can only be done before the campaign has started.
    RemoveAddress {
        /// The address to remove
        address: String,
    },
    /// Blacklists or unblacklists an address. This can be done at any time.
    BlacklistAddress {
        /// The address to blacklist/unblacklist
        address: String,
        /// Whether to blacklist or unblacklist
        blacklist: bool,
    },
}

pub enum QueryMsg {
    /// Get the airdrop campaign
    Campaign {},
    /// Get the rewards for a specific campaign and receiver address.
    Rewards {
        /// The address to get the rewards for.
        receiver: String,
    },
    /// Get the total amount of tokens claimed on the campaign.
    Claimed {
        /// If provided, it will return the tokens claimed by the specified address.
        address: Option<String>,
        /// The address to start querying from. Used for paginating results.
        start_from: Option<String>,
        /// The maximum number of items to return. If not set, the default value is used.
        limit: Option<u16>,
    },
    /// Get the allocation for an address
    Allocations {
        /// The address to get the allocation for, if provided
        address: Option<String>,
        /// The address to start querying from. Used for paginating results.
        start_after: Option<String>,
        /// The maximum number of items to return. If not set, the default value is used.
        limit: Option<u16>,
    },
    /// Check if an address is blacklisted
    IsBlacklisted {
        /// The address to check
        address: String,
    },
    /// Get the contract's ownership
    Ownership {},
}

pub struct MigrateMsg {}

pub type CampaignResponse = Campaign;

/// Response to the Rewards query.
#[derive(Clone, Debug, PartialEq, Eq)]
pub struct RewardsResponse {
    /// The tokens that have been claimed by the address.
    pub claimed: Vec<Coin>,
    /// The total amount of tokens that is pending to be claimed by the address.
    pub pending: Vec<Coin>,
    /// The tokens that are available to be claimed by the address.
    pub available_to_claim: Vec<Coin>,
}

/// Response to the Claimed query.
#[derive(Clone, Debug, PartialEq, Eq)]
pub struct ClaimedResponse {
    /// Contains a vector with a tuple with (address, coin) that have been claimed
    pub claimed: Vec<(String, Coin)>,
}

/// Response to the Allocation query.
#[derive(Clone, Debug, PartialEq, Eq)]
pub struct AllocationsResponse {
    /// A vector with a tuple with (address, amount) that have been allocated.
    pub allocations: Vec<(String, u128)>,
}

/// Response to the Blacklist query.
#[derive(Clone, Copy, Debug, PartialEq, Eq)]
pub struct BlacklistResponse {
    /// Whether the address is blacklisted
    pub is_blacklisted: bool,
}

/// The campaign action that can be executed with the [ExecuteMsg::ManageCampaign] message.
pub enum CampaignAction {
    /// Creates a new campaign
    CreateCampaign {
        /// The parameters to create a campaign with
        params: Box<CampaignParams>,
    },
    /// Closes the campaign
    CloseCampaign {},
}

/// One way of releasing a share of each allocation over time.
#[derive(Clone, Copy, Debug, PartialEq, Eq, Structural)]
pub enum DistributionType {
    /// The distribution is done in a linear vesting schedule
    LinearVesting {
        /// The percentage of the total reward to be distributed with a linear vesting schedule
        percentage: Decimal,
        /// The unix timestamp when this distribution type starts, in seconds
        start_time: u64,
        /// The unix timestamp when this distribution type ends, in seconds
        end_time: u64,
        /// The duration of the cliff, in seconds
        cliff_duration: Option<u64>,
    },
    /// The distribution is done in a single lump sum, i.e. no vesting period
    LumpSum {
        percentage: Decimal,
        /// The unix timestamp when this distribution type starts, in seconds
        start_time: u64,
    },
}

/// The first rule of a distribution schedule that it breaks, in the order
/// in which they are checked.
#[derive(Clone, Copy, Debug, PartialEq, Eq, Structural)]
pub enum DistributionFault {
    ZeroPercentage,
    StartsBeforeCampaign,
    EndsNotAfterStart,
    EndsAfterCampaign,
    ZeroCliff,
    CliffTooLong,
}

impl DistributionType {
    pub open spec fn spec_percentage(self) -> Decimal {
        match self {
            DistributionType::LinearVesting { percentage, .. } => percentage,
            DistributionType::LumpSum { percentage, .. } => percentage,
        }
    }

    pub open spec fn spec_start_time(self) -> u64 {
        match self {
            DistributionType::LinearVesting { start_time, .. } => start_time,
            DistributionType::LumpSum { start_time, .. } => start_time,
        }
    }

    /// The first rule the schedule breaks inside a campaign running from
    /// `campaign_start` to `campaign_end`, if any.
    pub open spec fn fault(self, campaign_start: u64, campaign_end: u64) -> Option<DistributionFault> {
        if self.spec_percentage().atomics == 0 {
            Some(DistributionFault::ZeroPercentage)
        } else if self.spec_start_time() < campaign_start {
            Some(DistributionFault::StartsBeforeCampaign)
        } else {
            match self {
                DistributionType::LinearVesting { start_time, end_time, cliff_duration, .. } => {
                    if end_time <= start_time {
                        Some(DistributionFault::EndsNotAfterStart)
                    } else if end_time > campaign_end {
                        Some(DistributionFault::EndsAfterCampaign)
                    } else {
                        match cliff_duration {
                            Some(c) => if c == 0 {
                                Some(DistributionFault::ZeroCliff)
                            } else if c >= end_time - start_time {
                                Some(DistributionFault::CliffTooLong)
                            } else {
                                None
                            },
                            None => None,
                        }
                    }
                },
                DistributionType::LumpSum { .. } => None,
            }
        }
    }

    /// Whether `e` is the error that reports `fault` of this schedule.
    pub open spec fn reports(self, e: ContractError, fault: DistributionFault, campaign_start: u64, campaign_end: u64) -> bool {
        match fault {
            DistributionFault::ZeroPercentage => e == ContractError::ZeroDistributionPercentage,
            DistributionFault::StartsBeforeCampaign => e == (ContractError::InvalidStartDistributionTime {
                start_time: self.spec_start_time(),
                campaign_start_time: campaign_start,
            }),
            DistributionFault::EndsNotAfterStart => self matches DistributionType::LinearVesting { end_time, .. } && e == (ContractError::InvalidDistributionTimes {
                start_time: self.spec_start_time(),
                end_time: end_time,
            }),
            DistributionFault::EndsAfterCampaign => self matches DistributionType::LinearVesting { end_time, .. } && e == (ContractError::InvalidEndDistributionTime {
                end_time: end_time,
                campaign_end_time: campaign_end,
            }),
            DistributionFault::ZeroCliff => e.is_param_error_with("cliff_duration"@, "cannot be zero"@),
            DistributionFault::CliffTooLong => e.is_param_error_with(
                "cliff_duration"@,
                "cannot be greater or equal than the distribution duration"@,
            ),
        }
    }

    /// The share of each allocation that this schedule releases.
    pub fn percentage(&self) -> (r: Decimal)
        ensures
            r == self.spec_percentage(),
    {
        match self {
            DistributionType::LinearVesting { percentage, .. } => *percentage,
            DistributionType::LumpSum { percentage, .. } => *percentage,
        }
    }

    /// Whether the schedule has started at `current_time` (seconds).
    pub fn has_started(&self, current_time: u64) -> (r: bool)
        ensures
            r == (current_time >= self.spec_start_time()),
    {
        let start_time = match self {
            DistributionType::LinearVesting { start_time, .. } => *start_time,
            DistributionType::LumpSum { start_time, .. } => *start_time,
        };
        current_time >= start_time
    }

    /// Checks the schedule's own rules, in order, inside a campaign running
    /// from `campaign_start` to `campaign_end`.
    fn check(&self, campaign_start: u64, campaign_end: u64) -> (r: Result<(), ContractError>)
        ensures
            self.fault(campaign_start, campaign_end) is None ==> r is Ok,
            self.fault(campaign_start, campaign_end) matches Some(f) ==> r is Err
                && self.reports(r->Err_0, f, campaign_start, campaign_end),
    {
        let percentage = self.percentage();
        if percentage.is_zero() {
            return Err(ContractError::ZeroDistributionPercentage);
        }
        let start_time = match self {
            DistributionType::LinearVesting { start_time, .. } => *start_time,
            DistributionType::LumpSum { start_time, .. } => *start_time,
        };
        if start_time < campaign_start {
            return Err(ContractError::InvalidStartDistributionTime {
                start_time,
                campaign_start_time: campaign_start,
            });
        }
        match self {
            DistributionType::LinearVesting { end_time, cliff_duration, .. } => {
                let end_time = *end_time;
                if end_time <= start_time {
                    return Err(ContractError::InvalidDistributionTimes { start_time, end_time });
                }
                if end_time > campaign_end {
                    return Err(ContractError::InvalidEndDistributionTime {
                        end_time,
                        campaign_end_time: campaign_end,
                    });
                }
                match cliff_duration {
                    Some(c) => {
                        if *c == 0 {
                            return Err(invalid_param("cliff_duration", "cannot be zero"));
                        }
                        if *c >= end_time - start_time {
                            return Err(
                                invalid_param(
                                    "cliff_duration",
                                    "cannot be greater or equal than the distribution duration",
                                ),
                            );
                        }
                        Ok(())
                    },
                    None => Ok(()),
                }
            },
            DistributionType::LumpSum { .. } => Ok(()),
        }
    }
}

/// The sum of the schedules' percentages, in atomic units.
pub open spec fn percentage_sum(ds: Seq<DistributionType>) -> int
    decreases ds.len(),
{
    if ds.len() == 0 {
        0
    } else {
        percentage_sum(ds.drop_last()) + ds.last().spec_percentage().value()
    }
}

/// A schedule list that a campaign from `start` to `end` accepts: one or two
/// schedules, each within its rules, whose percentages sum to exactly 100%.
pub open spec fn valid_distribution(ds: Seq<DistributionType>, start: u64, end: u64) -> bool {
    &&& 1 <= ds.len() <= MAX_DISTRIBUTION_TYPES
    &&& forall|i: int| 0 <= i < ds.len() ==> (#[trigger] ds[i]).fault(start, end) is None
    &&& percentage_sum(ds) == DECIMAL_FRACTIONAL
}

/// Represents the parameters to create a campaign with.
#[derive(Clone, Debug, PartialEq, Eq)]
pub struct CampaignParams {
    /// The campaign name
    pub name: String,
    /// The campaign description
    pub description: String,
    /// Campaign type. Value used by front ends.
    pub ty: String,
    /// The denom to be distributed as reward by the campaign
    pub reward_denom: String,
    /// The total amount of the reward asset that is intended to be allocated to the campaign
    pub total_reward: Coin,
    /// The ways the reward is distributed, which are defined by the [DistributionType].
    /// The sum of the percentages must be 100.
    pub distribution_type: Vec<DistributionType>,
    /// The campaign start time (unix timestamp), in seconds
    pub start_time: u64,
    /// The campaign end timestamp (unix timestamp), in seconds
    pub end_time: u64,
}

impl CampaignParams {
    pub open spec fn name_description_ok(self) -> bool {
        &&& self.name@.len() > 0
        &&& self.name@.len() <= MAX_NAME_LENGTH
        &&& self.description@.len() > 0
        &&& self.description@.len() <= MAX_DESCRIPTION_LENGTH
    }

    pub open spec fn type_ok(self) -> bool {
        self.ty@.len() > 0 && self.ty@.len() <= MAX_NAME_LENGTH
    }

    pub open spec fn times_ok(self, current_time: u64) -> bool {
        self.start_time < self.end_time && self.start_time >= current_time
    }

    pub open spec fn distribution_ok(self) -> bool {
        valid_distribution(self.distribution_type@, self.start_time, self.end_time)
    }

    pub open spec fn rewards_ok(self) -> bool {
        self.total_reward.amount > 0 && self.total_reward.denom@ == self.reward_denom@
    }

    /// Parameters that a campaign created at `current_time` accepts.
    pub open spec fn is_valid(self, current_time: u64) -> bool {
        &&& self.name_description_ok()
        &&& self.type_ok()
        &&& self.times_ok(current_time)
        &&& self.distribution_ok()
        &&& self.rewards_ok()
    }

    /// What `validate_campaign_distribution` reports: a wrong number of
    /// schedules first, then the first rule broken by the first schedule that
    /// breaks one, then a sum of percentages other than 100%.
    pub open spec fn distribution_outcome(self, r: Result<(), ContractError>) -> bool {
        &&& (!(1 <= self.distribution_type@.len() <= MAX_DISTRIBUTION_TYPES) ==> r is Err
                && r->Err_0.is_param_error_with(
                "distribution_type"@,
                "invalid number of distribution types, should be at least 1, maximum 2"@,
            ))
        &&& (1 <= self.distribution_type@.len() <= MAX_DISTRIBUTION_TYPES ==> forall|i: int|
                #![trigger self.distribution_type@[i]]
                0 <= i < self.distribution_type@.len() && self.distribution_type@[i].fault(
                    self.start_time,
                    self.end_time,
                ) is Some && (forall|j: int|
                    0 <= j < i ==> (#[trigger] self.distribution_type@[j]).fault(
                        self.start_time,
                        self.end_time,
                    ) is None) ==> r is Err && self.distribution_type@[i].reports(
                    r->Err_0,
                    self.distribution_type@[i].fault(self.start_time, self.end_time)->Some_0,
                    self.start_time,
                    self.end_time,
                ))
        &&& (({
            let ds = self.distribution_type@;
            &&& 1 <= ds.len() <= MAX_DISTRIBUTION_TYPES
            &&& forall|i: int| 0 <= i < ds.len() ==> (#[trigger] ds[i]).fault(self.start_time, self.end_time) is None
            &&& percentage_sum(ds) != DECIMAL_FRACTIONAL
        }) ==> r is Err && if percentage_sum(self.distribution_type@) > u128::MAX {
            r->Err_0 is OverflowError
        } else {
            r->Err_0 == (ContractError::InvalidDistributionPercentage {
                expected: Decimal { atomics: DECIMAL_FRACTIONAL },
                actual: Decimal { atomics: percentage_sum(self.distribution_type@) as u128 },
            })
        })
    }

    /// Validates the campaign name and description
    pub fn validate_campaign_name_description(&self) -> (r: Result<(), ContractError>)
        ensures
            r is Ok <==> self.name_description_ok(),
            self.name@.len() == 0 ==> r is Err && r->Err_0.is_param_error_with("name"@, "cannot be empty"@),
            self.name@.len() > MAX_NAME_LENGTH ==> r is Err && r->Err_0.is_param_error_with(
                "name"@,
                "cannot be longer than 200 characters"@,
            ),
            1 <= self.name@.len() <= MAX_NAME_LENGTH && self.description@.len() == 0 ==> r is Err
                && r->Err_0.is_param_error_with("description"@, "cannot be empty"@),
            1 <= self.name@.len() <= MAX_NAME_LENGTH && self.description@.len() > MAX_DESCRIPTION_LENGTH ==> r is Err
                && r->Err_0.is_param_error_with("description"@, "cannot be longer than 2000 characters"@),
    {
        if self.name.as_str().is_empty() {
            return Err(invalid_param("name", "cannot be empty"));
        }
        if self.name.as_str().unicode_len() > MAX_NAME_LENGTH {
            return Err(invalid_param("name", "cannot be longer than 200 characters"));
        }
        if self.description.as_str().is_empty() {
            return Err(invalid_param("description", "cannot be empty"));
        }
        if self.description.as_str().unicode_len() > MAX_DESCRIPTION_LENGTH {
            return Err(invalid_param("description", "cannot be longer than 2000 characters"));
        }
        Ok(())
    }

    /// Validates the campaign type
    pub fn validate_campaign_type(&self) -> (r: Result<(), ContractError>)
        ensures
            r is Ok <==> self.type_ok(),
            self.ty@.len() == 0 ==> r is Err && r->Err_0.is_param_error_with("type"@, "cannot be empty"@),
            self.ty@.len() > MAX_NAME_LENGTH ==> r is Err && r->Err_0.is_param_error_with(
                "type"@,
                "cannot be longer than 200 characters"@,
            ),
    {
        if self.ty.as_str().is_empty() {
            return Err(invalid_param("type", "cannot be empty"));
        }
        if self.ty.as_str().unicode_len() > MAX_NAME_LENGTH {
            return Err(invalid_param("type", "cannot be longer than 200 characters"));
        }
        Ok(())
    }

    /// Validates the start and end times of a campaign
    pub fn validate_campaign_times(&self, current_time: u64) -> (r: Result<(), ContractError>)
        ensures
            r is Ok <==> self.times_ok(current_time),
            self.start_time >= self.end_time ==> r is Err && r->Err_0.is_param_error_with(
                "start_time"@,
                "cannot be greater or equal than end_time"@,
            ),
            self.start_time < self.end_time && self.start_time < current_time ==> r is Err
                && r->Err_0.is_param_error_with("start_time"@, "cannot be less than the current time"@),
    {
        if self.start_time >= self.end_time {
            return Err(invalid_param("start_time", "cannot be greater or equal than end_time"));
        }
        if self.start_time < current_time {
            return Err(invalid_param("start_time", "cannot be less than the current time"));
        }
        Ok(())
    }

    /// Ensures the distribution type parameters are correct: one or two
    /// schedules, each within its rules (checked in list order), whose
    /// percentages sum to exactly 100%.
    pub fn validate_campaign_distribution(&self) -> (r: Result<(), ContractError>)
        ensures
            r is Ok <==> self.distribution_ok(),
            self.distribution_outcome(r),
    {
        let n = self.distribution_type.len();
        if n == 0 || n > MAX_DISTRIBUTION_TYPES {
            return Err(
                invalid_param(
                    "distribution_type",
                    "invalid number of distribution types, should be at least 1, maximum 2",
                ),
            );
        }
        let mut i: usize = 0;
        while i < n
            invariant
                n == self.distribution_type@.len(),
                1 <= n <= MAX_DISTRIBUTION_TYPES,
                i <= n,
                forall|j: int| 0 <= j < i ==> (#[trigger] self.distribution_type@[j]).fault(
                    self.start_time,
                    self.end_time,
                ) is None,
            decreases n - i,
        {
            let r = self.distribution_type[i].check(self.start_time, self.end_time);
            if r.is_err() {
                return r;
            }
            i = i + 1;
        }
        let mut total = Decimal::zero();
        let mut k: usize = 0;
        while k < n
            invariant
                n == self.distribution_type@.len(),
                k <= n,
                1 <= n <= MAX_DISTRIBUTION_TYPES,
                forall|j: int| 0 <= j < n ==> (#[trigger] self.distribution_type@[j]).fault(
                    self.start_time,
                    self.end_time,
                ) is None,
                total.value() == percentage_sum(self.distribution_type@.subrange(0, k as int)),
            decreases n - k,
        {
            proof {
                let ds = self.distribution_type@;
                assert(ds.subrange(0, k + 1).drop_last() =~= ds.subrange(0, k as int));
            }
            total = match total.checked_add(self.distribution_type[k].percentage()) {
                Ok(t) => t,
                Err(e) => {
                    proof {
                        lemma_percentage_sum_prefix_bound(self.distribution_type@, k as int + 1);
                    }
                    return Err(ContractError::from(e));
                },
            };
            k = k + 1;
        }
        assert(self.distribution_type@.subrange(0, n as int) =~= self.distribution_type@);
        if total.atomics != DECIMAL_FRACTIONAL {
            return Err(ContractError::InvalidDistributionPercentage {
                expected: Decimal::one(),
                actual: total,
            });
        }
        Ok(())
    }

    /// Validates the total reward amount and denom
    pub fn validate_rewards(&self) -> (r: Result<(), ContractError>)
        ensures
            r is Ok <==> self.rewards_ok(),
            self.total_reward.amount == 0 ==> r is Err && r->Err_0.is_param_error_with(
                "total_reward"@,
                "cannot be zero"@,
            ),
            self.total_reward.amount > 0 && !self.rewards_ok() ==> r is Err && r->Err_0.is_param_error_with(
                "reward_denom"@,
                "reward denom mismatch"@,
            ),
    {
        if self.total_reward.amount == 0 {
            return Err(invalid_param("total_reward", "cannot be zero"));
        }
        if self.total_reward.denom != self.reward_denom {
            return Err(invalid_param("reward_denom", "reward denom mismatch"));
        }
        Ok(())
    }
}

/// The sum over a prefix never exceeds the sum over the whole list.
pub proof fn lemma_percentage_sum_prefix_bound(ds: Seq<DistributionType>, k: int)
    requires
        0 <= k <= ds.len(),
    ensures
        percentage_sum(ds.subrange(0, k)) <= percentage_sum(ds),
    decreases ds.len(),
{
    if k < ds.len() {
        assert(ds.drop_last().subrange(0, k) =~= ds.subrange(0, k));
        lemma_percentage_sum_prefix_bound(ds.drop_last(), k);
    } else {
        assert(ds.subrange(0, k) =~= ds);
    }
}

/// Represents a campaign.
#[derive(Clone, Debug, PartialEq, Eq)]
pub struct Campaign {
    /// The campaign name
    pub name: String,
    /// The campaign description
    pub description: String,
    /// Campaign type. Value used by front ends.
    pub ty: String,
    /// The denom to be distributed as reward by the campaign
    pub reward_denom: String,
    /// The total amount of the reward asset that is intended to be allocated to the campaign
    pub total_reward: Coin,
    /// The amount of the reward asset that has been claimed
    pub claimed: Coin,
    /// The ways the reward is distributed, which are defined by the [DistributionType].
    /// The sum of the percentages must be 100.
    pub distribution_type: Vec<DistributionType>,
    /// The campaign start time (unix timestamp), in seconds
    pub start_time: u64,
    /// The campaign end time (unix timestamp), in seconds
    pub end_time: u64,
    /// The timestamp at which the campaign was closed, in seconds
    pub closed: Option<u64>,
}

impl Campaign {
    /// The campaign that `params` describe, freshly opened: nothing claimed,
    /// not closed.
    pub open spec fn spec_from_params(params: CampaignParams) -> Campaign {
        Campaign {
            name: params.name,
            description: params.description,
            ty: params.ty,
            reward_denom: params.reward_denom,
            total_reward: params.total_reward,
            claimed: Coin { denom: params.reward_denom, amount: 0 },
            distribution_type: params.distribution_type,
            start_time: params.start_time,
            end_time: params.end_time,
            closed: None,
        }
    }

    /// Creates a new campaign from the given parameters
    pub fn from_params(params: CampaignParams) -> (r: Campaign)
        ensures
            r == Campaign::spec_from_params(params),
    {
        let reward_denom = params.reward_denom.clone();
        Campaign {
            name: params.name,
            description: params.description,
            ty: params.ty,
            reward_denom: params.reward_denom,
            total_reward: params.total_reward,
            claimed: Coin { denom: reward_denom, amount: 0 },
            distribution_type: params.distribution_type,
            start_time: params.start_time,
            end_time: params.end_time,
            closed: None,
        }
    }

    /// Checks if the campaign has started
    pub fn has_started(&self, current_time: u64) -> (r: bool)
        ensures
            r == (current_time >= self.start_time),
    {
        current_time >= self.start_time
    }

    /// Checks if the campaign has ended
    pub fn has_ended(&self, current_time: u64) -> (r: bool)
        ensures
            r == (current_time >= self.end_time),
    {
        current_time >= self.end_time
    }
}

} // verus!
