use vstd::prelude::*;

use crate::bytes::str_eq;
use crate::decimal::DECIMAL_FRACTIONAL;
use crate::error::{campaign_error, ContractError};
use crate::ledger::{is_page, AddressMap};
use crate::msg::{
    percentage_sum, AllocationsResponse, BlacklistResponse, Campaign, CampaignParams, ClaimedResponse,
    Coin, DistributionType, RewardsResponse,
};
use crate::vesting::{available_amount, compute_claimable, vested_amount};

verus! {

/// The most allocations one `add_allocations` call may carry.
pub const MAX_ALLOCATION_BATCH_SIZE: usize = 3000;

/// The page size of the listing queries when the caller gives none.
pub const DEFAULT_PAGE_LIMIT: u16 = 100;

/// The largest page size of the listing queries, whatever the caller asks.
pub const MAX_PAGE_LIMIT: u16 = 5000;

/// What a successful claim pays out: `coin` goes from the campaign's funds
/// to `receiver`, on behalf of `payer`, whose allocation it comes from.
#[derive(Clone, Debug, PartialEq, Eq)]
pub struct ClaimPayout {
    pub payer: String,
    pub receiver: String,
    pub coin: Coin,
}

/// The persistent state of one claimdrop: the campaign, the allocation
/// ledger, what each address has claimed so far, and the blacklist.
///
/// Whether claims stay open once the campaign has been closed is a policy
/// chosen when the state is made (`claims_after_close`); closing always
/// stops changes to the allocations.
pub struct Claimdrop {
    campaign: Option<Campaign>,
    allocations: AddressMap,
    claims: AddressMap,
    blacklist: Vec<String>,
    claims_after_close: bool,
}

/// The page size that a caller's `limit` gives.
pub open spec fn page_limit(limit: Option<u16>) -> int {
    let l = match limit {
        Some(l) => l,
        None => DEFAULT_PAGE_LIMIT,
    };
    if l > MAX_PAGE_LIMIT {
        MAX_PAGE_LIMIT as int
    } else {
        l as int
    }
}

/// The map that a batch of allocations adds: later entries win.
pub open spec fn batch_map(batch: Seq<(String, u128)>) -> Map<Seq<char>, u128>
    decreases batch.len(),
{
    if batch.len() == 0 {
        Map::empty()
    } else {
        batch_map(batch.drop_last()).insert(batch.last().0@, batch.last().1)
    }
}

/// Entry `i` of the batch names an address that already has an allocation,
/// or that an earlier entry names.
pub open spec fn batch_conflict(existing: Map<Seq<char>, u128>, batch: Seq<(String, u128)>, i: int) -> bool {
    existing.contains_key(batch[i].0@) || exists|j: int| 0 <= j < i && (#[trigger] batch[j]).0@ == batch[i].0@
}

pub open spec fn opt_view(s: Option<&str>) -> Option<Seq<char>> {
    match s {
        Some(x) => Some(x@),
        None => None,
    }
}

pub open spec fn entries_view(v: Seq<(String, u128)>) -> Seq<(Seq<char>, u128)> {
    v.map_values(|e: (String, u128)| (e.0@, e.1))
}

impl Claimdrop {
    pub closed spec fn spec_campaign(&self) -> Option<Campaign> {
        self.campaign
    }

    /// Address to allocated amount.
    pub closed spec fn allocation_map(&self) -> Map<Seq<char>, u128> {
        self.allocations@
    }

    /// Address to amount claimed so far; an address that never claimed has
    /// no entry.
    pub closed spec fn claimed_map(&self) -> Map<Seq<char>, u128> {
        self.claims@
    }

    /// The sum of what all addresses have claimed.
    pub closed spec fn claimed_total(&self) -> int {
        self.claims.total()
    }

    pub closed spec fn allocation_entries(&self) -> Seq<(Seq<char>, u128)> {
        self.allocations.spec_entries()
    }

    pub closed spec fn claim_entries(&self) -> Seq<(Seq<char>, u128)> {
        self.claims.spec_entries()
    }

    pub closed spec fn blacklisted(&self) -> Set<Seq<char>> {
        self.blacklist@.map_values(|s: String| s@).to_set()
    }

    pub closed spec fn spec_claims_after_close(&self) -> bool {
        self.claims_after_close
    }

    /// What `addr` has claimed so far.
    pub open spec fn claimed_of(&self, addr: Seq<char>) -> u128 {
        if self.claimed_map().contains_key(addr) {
            self.claimed_map()[addr]
        } else {
            0
        }
    }

    /// Whether the allocation ledger may change at `now`: before the
    /// campaign starts, and never once it is closed.
    pub open spec fn allocations_open(&self, now: u64) -> bool {
        match self.spec_campaign() {
            None => true,
            Some(c) => now < c.start_time && c.closed is None,
        }
    }

    /// The state's invariant: no address has claimed more than its
    /// allocation, the campaign's `claimed` is the sum of all claims and
    /// stays within its total reward, and its schedules sum to 100%.
    pub closed spec fn wf(&self) -> bool {
        &&& self.allocations.wf()
        &&& self.claims.wf()
        &&& forall|a: Seq<char>| #[trigger] self.claims@.contains_key(a) ==> self.allocations@.contains_key(a)
            && self.claims@[a] <= self.allocations@[a]
        &&& forall|i: int, j: int| 0 <= i < j < self.blacklist@.len() ==> self.blacklist@[i]@ != self.blacklist@[j]@
        &&& match self.campaign {
            None => self.claims.total() == 0,
            Some(c) => {
                &&& percentage_sum(c.distribution_type@) == DECIMAL_FRACTIONAL
                &&& c.claimed.amount == self.claims.total()
                &&& c.claimed.amount <= c.total_reward.amount
            },
        }
    }

    /// The invariant, spelled out: for every address, what it claimed is at
    /// most its allocation; the campaign's `claimed` equals the sum of all
    /// claims and is at most the campaign's total reward.
    pub proof fn lemma_claims_within_bounds(&self, addr: Seq<char>)
        requires
            self.wf(),
        ensures
            self.claimed_map().contains_key(addr) ==> self.allocation_map().contains_key(addr)
                && self.claimed_map()[addr] <= self.allocation_map()[addr],
            self.claimed_of(addr) <= self.claimed_total(),
            self.claimed_total() >= 0,
            self.spec_campaign() matches Some(c) ==> c.claimed.amount == self.claimed_total()
                && self.claimed_total() <= c.total_reward.amount,
            self.spec_campaign() is None ==> self.claimed_total() == 0,
    {
        self.claims.lemma_total_bounds(addr);
    }

    /// A state with no campaign, no allocations, no claims and an empty
    /// blacklist.
    pub fn new(claims_after_close: bool) -> (r: Claimdrop)
        ensures
            r.wf(),
            r.spec_campaign() is None,
            r.allocation_map() == Map::<Seq<char>, u128>::empty(),
            r.claimed_map() == Map::<Seq<char>, u128>::empty(),
            r.blacklisted() == Set::<Seq<char>>::empty(),
            r.spec_claims_after_close() == claims_after_close,
    {
        let r = Claimdrop {
            campaign: None,
            allocations: AddressMap::new(),
            claims: AddressMap::new(),
            blacklist: Vec::new(),
            claims_after_close,
        };
        assert(r.blacklisted() =~= Set::<Seq<char>>::empty());
        r
    }
    /// The two states hold the same campaign, allocations and claims.
    pub open spec fn same_ledgers(&self, other: &Claimdrop) -> bool {
        &&& self.spec_campaign() == other.spec_campaign()
        &&& self.allocation_map() == other.allocation_map()
        &&& self.claimed_map() == other.claimed_map()
        &&& self.claimed_total() == other.claimed_total()
        &&& self.allocation_entries() == other.allocation_entries()
        &&& self.claim_entries() == other.claim_entries()
        &&& self.spec_claims_after_close() == other.spec_claims_after_close()
    }

    /// Opens the campaign that `params` describe, at `now`. Fails, changing
    /// nothing, if a campaign exists already (`CampaignError`) or if the
    /// parameters break a rule: name and description, type, times,
    /// distribution and rewards are checked in that order.
    pub fn create_campaign(&mut self, params: CampaignParams, now: u64) -> (r: Result<(), ContractError>)
        requires
            old(self).wf(),
        ensures
            final(self).wf(),
            r is Ok <==> old(self).spec_campaign() is None && params.is_valid(now),
            r is Ok ==> final(self).spec_campaign() == Some(Campaign::spec_from_params(params)),
            r is Ok ==> final(self).allocation_map() == old(self).allocation_map()
                && final(self).claimed_map() == old(self).claimed_map()
                && final(self).blacklisted() == old(self).blacklisted(),
            r is Err ==> *final(self) == *old(self),
            old(self).spec_campaign() is Some ==> r is Err && r->Err_0.is_campaign_error(),
            old(self).spec_campaign() is None ==> if !params.name_description_ok() {
                r is Err && (r->Err_0.is_param_error("name"@) || r->Err_0.is_param_error("description"@))
            } else if !params.type_ok() {
                r is Err && r->Err_0.is_param_error("type"@)
            } else if !params.times_ok(now) {
                r is Err && r->Err_0.is_param_error("start_time"@)
            } else if !params.distribution_ok() {
                r is Err && params.distribution_outcome(r)
            } else if !params.rewards_ok() {
                r is Err && (r->Err_0.is_param_error("total_reward"@) || r->Err_0.is_param_error("reward_denom"@))
            } else {
                r is Ok
            },
    {
        if self.campaign.is_some() {
            return Err(campaign_error("there is already a campaign"));
        }
        params.validate_campaign_name_description()?;
        params.validate_campaign_type()?;
        params.validate_campaign_times(now)?;
        params.validate_campaign_distribution()?;
        params.validate_rewards()?;
        self.campaign = Some(Campaign::from_params(params));
        Ok(())
    }

    /// Closes the campaign at `now`. Fails, changing nothing, with a
    /// `CampaignError` when there is no campaign or it is closed already.
    pub fn close_campaign(&mut self, now: u64) -> (r: Result<(), ContractError>)
        requires
            old(self).wf(),
        ensures
            final(self).wf(),
            r is Ok <==> (old(self).spec_campaign() matches Some(c) && c.closed is None),
            r is Ok ==> final(self).spec_campaign() == Some(
                Campaign { closed: Some(now), ..old(self).spec_campaign()->Some_0 },
            ),
            r is Ok ==> final(self).allocation_map() == old(self).allocation_map()
                && final(self).claimed_map() == old(self).claimed_map()
                && final(self).claimed_total() == old(self).claimed_total()
                && final(self).blacklisted() == old(self).blacklisted(),
            r is Err ==> *final(self) == *old(self) && r->Err_0.is_campaign_error(),
    {
        match &mut self.campaign {
            None => Err(campaign_error("there is no campaign")),
            Some(c) => {
                if c.closed.is_some() {
                    return Err(campaign_error("the campaign is closed already"));
                }
                c.closed = Some(now);
                Ok(())
            },
        }
    }

    /// Where `address` stands in the blacklist, if it is there.
    fn blacklist_index(&self, address: &str) -> (r: Option<usize>)
        requires
            self.wf(),
        ensures
            r matches Some(i) ==> i < self.blacklist@.len() && self.blacklist@[i as int]@ == address@,
            r is None <==> !self.blacklisted().contains(address@),
    {
        let mut i: usize = 0;
        while i < self.blacklist.len()
            invariant
                i <= self.blacklist@.len(),
                forall|j: int| 0 <= j < i ==> self.blacklist@[j]@ != address@,
            decreases self.blacklist@.len() - i,
        {
            if str_eq(self.blacklist[i].as_str(), address) {
                proof {
                    let v = self.blacklist@.map_values(|s: String| s@);
                    assert(v[i as int] == address@);
                    assert(v.contains(address@));
                }
                return Some(i);
            }
            i = i + 1;
        }
        proof {
            let v = self.blacklist@.map_values(|s: String| s@);
            if v.to_set().contains(address@) {
                let j = choose|j: int| 0 <= j < v.len() && v[j] == address@;
                assert(self.blacklist@[j]@ == address@);
            }
        }
        None
    }

    /// Whether `address` is blacklisted.
    pub fn is_blacklisted(&self, address: &str) -> (r: BlacklistResponse)
        requires
            self.wf(),
        ensures
            r.is_blacklisted == self.blacklisted().contains(address@),
    {
        BlacklistResponse { is_blacklisted: self.blacklist_index(address).is_some() }
    }

    /// Puts `address` on the blacklist (`blacklist` true) or takes it off.
    /// Allowed at any time; setting the flag it already has changes nothing.
    pub fn blacklist_address(&mut self, address: String, blacklist: bool)
        requires
            old(self).wf(),
        ensures
            final(self).wf(),
            final(self).same_ledgers(old(self)),
            final(self).blacklisted() == (if blacklist {
                old(self).blacklisted().insert(address@)
            } else {
                old(self).blacklisted().remove(address@)
            }),
    {
        let ghost before = self.blacklist@;
        let found = self.blacklist_index(address.as_str());
        match found {
            Some(i) => {
                if !blacklist {
                    self.blacklist.remove(i);
                    proof {
                        assert forall|a: int, b: int| 0 <= a < b < self.blacklist@.len() implies self.blacklist@[a]@ != self.blacklist@[b]@ by {
                            let a0 = if a < i { a } else { a + 1 };
                            let b0 = if b < i { b } else { b + 1 };
                            assert(self.blacklist@[a] == before[a0] && self.blacklist@[b] == before[b0]);
                        }
                        let v0 = before.map_values(|s: String| s@);
                        let v1 = self.blacklist@.map_values(|s: String| s@);
                        assert(self.blacklist@ =~= before.remove(i as int));
                        assert forall|x: Seq<char>| v1.to_set().contains(x) <==> v0.to_set().remove(address@).contains(x) by {
                            if v1.to_set().contains(x) {
                                let j = choose|j: int| 0 <= j < v1.len() && v1[j] == x;
                                let j0 = if j < i { j } else { j + 1 };
                                assert(v0[j0] == x);
                            }
                            if v0.to_set().remove(address@).contains(x) {
                                let j = choose|j: int| 0 <= j < v0.len() && v0[j] == x;
                                assert(j != i);
                                if j < i {
                                    assert(v1[j] == x);
                                } else {
                                    assert(v1[j - 1] == x);
                                }
                            }
                        }
                        assert(v1.to_set() =~= v0.to_set().remove(address@));
                    }
                } else {
                    proof {
                        assert(self.blacklisted() =~= self.blacklisted().insert(address@));
                    }
                }
            },
            None => {
                if blacklist {
                    self.blacklist.push(address);
                    proof {
                        assert forall|a: int, b: int| 0 <= a < b < self.blacklist@.len() implies self.blacklist@[a]@ != self.blacklist@[b]@ by {
                            if b == before.len() {
                                let v0 = before.map_values(|s: String| s@);
                                assert(v0[a] == before[a]@);
                                assert(v0.contains(before[a]@));
                            } else {
                                assert(self.blacklist@[a] == before[a] && self.blacklist@[b] == before[b]);
                            }
                        }
                        let v0 = before.map_values(|s: String| s@);
                        let v1 = self.blacklist@.map_values(|s: String| s@);
                        assert(v1 =~= v0.push(address@));
                        assert forall|x: Seq<char>| v1.to_set().contains(x) <==> v0.to_set().insert(address@).contains(x) by {
                            if v1.to_set().contains(x) {
                                let j = choose|j: int| 0 <= j < v1.len() && v1[j] == x;
                                if j < v0.len() {
                                    assert(v0[j] == x);
                                }
                            }
                            if v0.to_set().contains(x) {
                                let j = choose|j: int| 0 <= j < v0.len() && v0[j] == x;
                                assert(v1[j] == x);
                            }
                            if x == address@ {
                                assert(v1[v0.len() as int] == x);
                            }
                        }
                        assert(v1.to_set() =~= v0.to_set().insert(address@));
                    }
                } else {
                    proof {
                        assert(self.blacklisted() =~= self.blacklisted().remove(address@));
                    }
                }
            },
        }
    }

    /// The campaign, as it stands.
    pub fn campaign(&self) -> (r: Result<&Campaign, ContractError>)
        requires
            self.wf(),
        ensures
            self.spec_campaign() matches Some(c) ==> r matches Ok(x) && *x == c,
            self.spec_campaign() is None ==> r is Err && r->Err_0.is_campaign_error(),
    {
        match &self.campaign {
            Some(c) => Ok(c),
            None => Err(campaign_error("there is no campaign")),
        }
    }
}

impl Claimdrop {
    /// What `addr` was allocated (nothing when it has no allocation).
    pub open spec fn allocation_of(&self, addr: Seq<char>) -> u128 {
        if self.allocation_map().contains_key(addr) {
            self.allocation_map()[addr]
        } else {
            0
        }
    }

    /// What `addr` may withdraw at `now` from the campaign `c`.
    pub open spec fn available_of(&self, c: Campaign, addr: Seq<char>, now: u64) -> int {
        available_amount(c.distribution_type@, self.allocation_of(addr), self.claimed_of(addr), now)
    }

    /// Whether the campaign refuses claims by its lifecycle: there is none,
    /// or it is closed and the policy stops claims on closing.
    pub open spec fn claims_refused(&self) -> bool {
        match self.spec_campaign() {
            None => true,
            Some(c) => c.closed is Some && !self.spec_claims_after_close(),
        }
    }

    /// What `claim` does on the state `pre`, for `sender`, paying to
    /// `receiver`: `r` is its result and `post` the state after it.
    pub open spec fn claim_post(
        pre: Claimdrop,
        post: Claimdrop,
        sender: Seq<char>,
        receiver: Seq<char>,
        amount: Option<u128>,
        now: u64,
        r: Result<ClaimPayout, ContractError>,
    ) -> bool {
        &&& (r is Err ==> post == pre)
        &&& (pre.claims_refused() ==> r is Err && r->Err_0.is_campaign_error())
        &&& (!pre.claims_refused() ==> ({
                let c = pre.spec_campaign()->Some_0;
                let avail = pre.available_of(c, sender, now);
                let paid: int = match amount {
                    Some(a) => a as int,
                    None => avail,
                };
                if pre.blacklisted().contains(sender) {
                    r == Err::<ClaimPayout, ContractError>(ContractError::AddressBlacklisted)
                } else if !pre.allocation_map().contains_key(sender) {
                    r matches Err(ContractError::NoAllocationFound { address }) && address@ == sender
                } else if amount matches Some(a) && a > avail {
                    r == Err::<ClaimPayout, ContractError>(ContractError::ExceededMaxClaimAmount)
                } else if paid == 0 {
                    r == Err::<ClaimPayout, ContractError>(ContractError::NothingToClaim)
                } else if c.claimed.amount + paid > c.total_reward.amount {
                    r is Err && r->Err_0.is_campaign_error()
                } else {
                    &&& r matches Ok(p) && p.payer@ == sender && p.coin.amount == paid
                        && p.coin.denom@ == c.reward_denom@ && p.receiver@ == receiver
                    &&& post.claimed_map() == pre.claimed_map().insert(
                        sender,
                        (pre.claimed_of(sender) + paid) as u128,
                    )
                    &&& post.spec_campaign() == Some(
                        Campaign { claimed: Coin { amount: (c.claimed.amount + paid) as u128, ..c.claimed }, ..c },
                    )
                    &&& post.allocation_map() == pre.allocation_map()
                    &&& post.blacklisted() == pre.blacklisted()
                    &&& post.spec_claims_after_close() == pre.spec_claims_after_close()
                }
            }))
    }

    /// Pays `sender` what it asks of its vested allocation at `now`: all of
    /// what is available when `amount` is not given. The payout goes to
    /// `receiver`, or to `sender` when there is none. Checked in this
    /// order, each failure changing nothing: the campaign accepts claims
    /// (`CampaignError`), `sender` is not blacklisted (`AddressBlacklisted`),
    /// it has an allocation (`NoAllocationFound`), `amount` is at most what is
    /// available (`ExceededMaxClaimAmount`), the payout is not zero
    /// (`NothingToClaim`), and the campaign's funds cover it
    /// (`CampaignError`). On success the address's claimed amount and the
    /// campaign's `claimed` both grow by the payout.
    pub fn claim(&mut self, sender: &str, receiver: Option<String>, amount: Option<u128>, now: u64) -> (r: Result<ClaimPayout, ContractError>)
        requires
            old(self).wf(),
        ensures
            final(self).wf(),
            Claimdrop::claim_post(
                *old(self),
                *final(self),
                sender@,
                match receiver {
                    Some(x) => x@,
                    None => sender@,
                },
                amount,
                now,
                r,
            ),
    {
        let c = match &self.campaign {
            None => {
                return Err(campaign_error("there is no campaign"));
            },
            Some(c) => c,
        };
        if c.closed.is_some() && !self.claims_after_close {
            return Err(campaign_error("the campaign is closed"));
        }
        if self.blacklist_index(sender).is_some() {
            return Err(ContractError::AddressBlacklisted);
        }
        let allocation = match self.allocations.get(sender) {
            None => {
                return Err(ContractError::NoAllocationFound { address: sender.to_owned() });
            },
            Some(a) => a,
        };
        let claimed = match self.claims.get(sender) {
            None => 0,
            Some(x) => x,
        };
        proof {
            self.claims.lemma_total_bounds(sender@);
        }
        let (_, available) = compute_claimable(c, allocation, claimed, now);
        let paid = match amount {
            Some(a) => {
                if a > available {
                    return Err(ContractError::ExceededMaxClaimAmount);
                }
                a
            },
            None => available,
        };
        if paid == 0 {
            return Err(ContractError::NothingToClaim);
        }
        if paid > c.total_reward.amount - c.claimed.amount {
            return Err(campaign_error("the campaign's funds do not cover the claim"));
        }
        let denom = c.reward_denom.clone();
        let new_total = c.claimed.amount + paid;
        let ghost old_self = *self;
        self.claims.set(sender.to_owned(), claimed + paid);
        if let Some(cm) = &mut self.campaign {
            cm.claimed.amount = new_total;
        }
        proof {
            assert forall|a: Seq<char>| #[trigger] self.claims@.contains_key(a) implies self.allocations@.contains_key(a)
                && self.claims@[a] <= self.allocations@[a] by {
                if a != sender@ {
                    assert(old_self.claims@.contains_key(a));
                }
            }
        }
        let to = match receiver {
            Some(x) => x,
            None => sender.to_owned(),
        };
        Ok(ClaimPayout { payer: sender.to_owned(), receiver: to, coin: Coin { denom, amount: paid } })
    }

    /// What `address` has claimed, what is still locked, and what the
    /// schedules make available to it at `now` (whether or not a closed
    /// campaign still pays claims), each as one coin of the reward denom.
    /// Changes nothing; fails with `CampaignError` when there is no campaign.
    pub fn rewards(&self, address: &str, now: u64) -> (r: Result<RewardsResponse, ContractError>)
        requires
            self.wf(),
        ensures
            self.spec_campaign() is None ==> r is Err && r->Err_0.is_campaign_error(),
            self.spec_campaign() is Some ==> (r matches Ok(x) && self.rewards_answer(address@, now, x)),
    {
        let c = match &self.campaign {
            None => {
                return Err(campaign_error("there is no campaign"));
            },
            Some(c) => c,
        };
        let allocation = match self.allocations.get(address) {
            None => 0,
            Some(a) => a,
        };
        let claimed = match self.claims.get(address) {
            None => 0,
            Some(x) => x,
        };
        let (pending, available) = compute_claimable(c, allocation, claimed, now);
        let mut claimed_coins: Vec<Coin> = Vec::new();
        claimed_coins.push(Coin { denom: c.reward_denom.clone(), amount: claimed });
        let mut pending_coins: Vec<Coin> = Vec::new();
        pending_coins.push(Coin { denom: c.reward_denom.clone(), amount: pending });
        let mut available_coins: Vec<Coin> = Vec::new();
        available_coins.push(Coin { denom: c.reward_denom.clone(), amount: available });
        Ok(RewardsResponse { claimed: claimed_coins, pending: pending_coins, available_to_claim: available_coins })
    }

    /// What addresses have claimed: for `address` alone when it is given
    /// (nothing if it never claimed), else one page of all claims in
    /// ascending address order, after `start_from`. Empty when there is no
    /// campaign.
    pub fn claimed(&self, address: Option<&str>, start_from: Option<&str>, limit: Option<u16>) -> (r: ClaimedResponse)
        requires
            self.wf(),
        ensures
            self.spec_campaign() is None ==> r.claimed@.len() == 0,
            self.spec_campaign() matches Some(c) ==> {
                &&& forall|i: int| 0 <= i < r.claimed@.len() ==> (#[trigger] r.claimed@[i]).1.denom@ == c.reward_denom@
                &&& address matches Some(a) ==> (if self.claimed_map().contains_key(a@) {
                    r.claimed@.len() == 1 && r.claimed@[0].0@ == a@ && r.claimed@[0].1.amount == self.claimed_map()[a@]
                } else {
                    r.claimed@.len() == 0
                })
                &&& address is None ==> is_page(
                    self.claim_entries(),
                    opt_view(start_from),
                    page_limit(limit),
                    r.claimed@.map_values(|e: (String, Coin)| (e.0@, e.1.amount)),
                )
            },
    {
        let mut out: Vec<(String, Coin)> = Vec::new();
        let c = match &self.campaign {
            None => {
                return ClaimedResponse { claimed: out };
            },
            Some(c) => c,
        };
        match address {
            Some(a) => {
                if let Some(x) = self.claims.get(a) {
                    out.push((a.to_owned(), Coin { denom: c.reward_denom.clone(), amount: x }));
                }
            },
            None => {
                let page = self.claims.page(start_from, effective_limit(limit));
                let mut i: usize = 0;
                while i < page.len()
                    invariant
                        i <= page@.len(),
                        out@.len() == i,
                        forall|j: int| 0 <= j < i ==> (#[trigger] out@[j]).0@ == page@[j].0@ && out@[j].1.amount == page@[j].1
                            && out@[j].1.denom@ == c.reward_denom@,
                    decreases page@.len() - i,
                {
                    out.push((page[i].0.clone(), Coin { denom: c.reward_denom.clone(), amount: page[i].1 }));
                    i = i + 1;
                }
                assert(out@.map_values(|e: (String, Coin)| (e.0@, e.1.amount)) =~= page@.map_values(|e: (String, u128)| (e.0@, e.1)));
            },
        }
        ClaimedResponse { claimed: out }
    }

    /// The allocations: for `address` alone when it is given (nothing if it
    /// has none), else one page of all allocations in ascending address
    /// order, after `start_after`.
    pub fn allocations(&self, address: Option<&str>, start_after: Option<&str>, limit: Option<u16>) -> (r: AllocationsResponse)
        requires
            self.wf(),
        ensures
            address matches Some(a) ==> (if self.allocation_map().contains_key(a@) {
                r.allocations@.len() == 1 && r.allocations@[0].0@ == a@ && r.allocations@[0].1 == self.allocation_map()[a@]
            } else {
                r.allocations@.len() == 0
            }),
            address is None ==> is_page(self.allocation_entries(), opt_view(start_after), page_limit(limit), entries_view(r.allocations@)),
    {
        match address {
            Some(a) => {
                let mut out: Vec<(String, u128)> = Vec::new();
                if let Some(x) = self.allocations.get(a) {
                    out.push((a.to_owned(), x));
                }
                AllocationsResponse { allocations: out }
            },
            None => AllocationsResponse { allocations: self.allocations.page(start_after, effective_limit(limit)) },
        }
    }
}

/// The page size for a caller's `limit`: the default when there is none,
/// never above the maximum.
pub fn effective_limit(limit: Option<u16>) -> (r: usize)
    ensures
        r == page_limit(limit),
{
    let l = match limit {
        Some(l) => l,
        None => DEFAULT_PAGE_LIMIT,
    };
    if l > MAX_PAGE_LIMIT {
        MAX_PAGE_LIMIT as usize
    } else {
        l as usize
    }
}

impl Claimdrop {
    /// Adds a batch of `(address, amount)` allocations, all or nothing.
    /// Checked in this order, each failure changing nothing: the ledger is
    /// open at `now` (`CampaignError`), the batch holds at most
    /// `MAX_ALLOCATION_BATCH_SIZE` entries (`BatchSizeLimitExceeded`), and no
    /// entry names an address that has an allocation already or that an
    /// earlier entry names (`AllocationAlreadyExists`).
    pub fn add_allocations(&mut self, allocations: Vec<(String, u128)>, now: u64) -> (r: Result<(), ContractError>)
        requires
            old(self).wf(),
        ensures
            final(self).wf(),
            r is Err ==> *final(self) == *old(self),
            !old(self).allocations_open(now) ==> r is Err && r->Err_0.is_campaign_error(),
            old(self).allocations_open(now) ==> {
                let batch = allocations@;
                if batch.len() > MAX_ALLOCATION_BATCH_SIZE {
                    r == Err::<(), ContractError>(ContractError::BatchSizeLimitExceeded {
                        actual: batch.len() as usize,
                        max: MAX_ALLOCATION_BATCH_SIZE,
                    })
                } else if exists|i: int| 0 <= i < batch.len() && batch_conflict(old(self).allocation_map(), batch, i) {
                    r matches Err(ContractError::AllocationAlreadyExists { address }) && exists|i: int|
                        0 <= i < batch.len() && batch_conflict(old(self).allocation_map(), batch, i)
                            && (#[trigger] batch[i]).0@ == address@
                } else {
                    &&& r is Ok
                    &&& final(self).allocation_map() == old(self).allocation_map().union_prefer_right(batch_map(batch))
                    &&& final(self).claimed_map() == old(self).claimed_map()
                    &&& final(self).claimed_total() == old(self).claimed_total()
                    &&& final(self).spec_campaign() == old(self).spec_campaign()
                    &&& final(self).blacklisted() == old(self).blacklisted()
                }
            },
    {
        if let Some(c) = &self.campaign {
            if c.closed.is_some() {
                return Err(campaign_error("the campaign is closed"));
            }
            if c.has_started(now) {
                return Err(campaign_error("the campaign has already started"));
            }
        }
        let n = allocations.len();
        if n > MAX_ALLOCATION_BATCH_SIZE {
            return Err(ContractError::BatchSizeLimitExceeded { actual: n, max: MAX_ALLOCATION_BATCH_SIZE });
        }
        let ghost batch = allocations@;
        let ghost existing = self.allocations@;
        let mut i: usize = 0;
        while i < n
            invariant
                n == batch.len(),
                batch == allocations@,
                existing == self.allocations@,
                self.wf(),
                *self == *old(self),
                old(self).allocations_open(now),
                n <= MAX_ALLOCATION_BATCH_SIZE,
                i <= n,
                forall|k: int| 0 <= k < i ==> !batch_conflict(existing, batch, k),
            decreases n - i,
        {
            if self.allocations.get(allocations[i].0.as_str()).is_some() {
                assert(batch_conflict(existing, batch, i as int));
                return Err(ContractError::AllocationAlreadyExists { address: allocations[i].0.clone() });
            }
            let mut j: usize = 0;
            while j < i
                invariant
                    n == batch.len(),
                    batch == allocations@,
                    j <= i < n,
                    existing == self.allocations@,
                    self.wf(),
                    *self == *old(self),
                    old(self).allocations_open(now),
                    n <= MAX_ALLOCATION_BATCH_SIZE,
                    forall|k: int| 0 <= k < i ==> !batch_conflict(existing, batch, k),
                    forall|k: int| 0 <= k < j ==> (#[trigger] batch[k]).0@ != batch[i as int].0@,
                decreases i - j,
            {
                if str_eq(allocations[j].0.as_str(), allocations[i].0.as_str()) {
                    assert(batch_conflict(existing, batch, i as int));
                    return Err(ContractError::AllocationAlreadyExists { address: allocations[i].0.clone() });
                }
                j = j + 1;
            }
            i = i + 1;
        }
        let ghost old_self = *self;
        let mut i: usize = 0;
        while i < n
            invariant
                n == batch.len(),
                batch == allocations@,
                existing == old_self.allocations@,
                old_self.wf(),
                self.allocations.wf(),
                self.claims == old_self.claims,
                self.campaign == old_self.campaign,
                self.blacklist == old_self.blacklist,
                self.claims_after_close == old_self.claims_after_close,
                i <= n,
                forall|k: int| 0 <= k < n ==> !batch_conflict(existing, batch, k),
                self.allocations@ == existing.union_prefer_right(batch_map(batch.subrange(0, i as int))),
            decreases n - i,
        {
            proof {
                assert(batch.subrange(0, i + 1).drop_last() =~= batch.subrange(0, i as int));
                assert(batch.subrange(0, i + 1).last() == batch[i as int]);
                let m = batch_map(batch.subrange(0, i as int));
                assert(existing.union_prefer_right(m.insert(batch[i as int].0@, batch[i as int].1)) =~= existing.union_prefer_right(m).insert(batch[i as int].0@, batch[i as int].1));
            }
            self.allocations.set(allocations[i].0.clone(), allocations[i].1);
            i = i + 1;
        }
        proof {
            assert(batch.subrange(0, n as int) =~= batch);
            assert forall|a: Seq<char>| #[trigger] self.claims@.contains_key(a) implies self.allocations@.contains_key(a)
                && self.claims@[a] <= self.allocations@[a] by {
                assert(existing.contains_key(a));
                if batch_map(batch).contains_key(a) {
                    lemma_batch_map_key(batch, a);
                    let k = choose|k: int| 0 <= k < batch.len() && (#[trigger] batch[k]).0@ == a;
                    assert(batch_conflict(existing, batch, k));
                }
            }
        }
        Ok(())
    }

    /// Moves the allocation of `old_address`, with what it has claimed, to
    /// `new_address`. Checked in this order, each failure changing nothing:
    /// the ledger is open at `now` (`CampaignError`), `old_address` has an
    /// allocation (`NoAllocationFound`), and `new_address` has none
    /// (`AllocationAlreadyExists`).
    pub fn replace_address(&mut self, old_address: &str, new_address: String, now: u64) -> (r: Result<(), ContractError>)
        requires
            old(self).wf(),
        ensures
            final(self).wf(),
            r is Err ==> *final(self) == *old(self),
            !old(self).allocations_open(now) ==> r is Err && r->Err_0.is_campaign_error(),
            old(self).allocations_open(now) ==> {
                let m = old(self).allocation_map();
                if !m.contains_key(old_address@) {
                    r matches Err(ContractError::NoAllocationFound { address }) && address@ == old_address@
                } else if m.contains_key(new_address@) {
                    r matches Err(ContractError::AllocationAlreadyExists { address }) && address@ == new_address@
                } else {
                    &&& r is Ok
                    &&& final(self).allocation_map() == m.remove(old_address@).insert(new_address@, m[old_address@])
                    &&& final(self).claimed_map() == (if old(self).claimed_map().contains_key(old_address@) {
                        old(self).claimed_map().remove(old_address@).insert(
                            new_address@,
                            old(self).claimed_map()[old_address@],
                        )
                    } else {
                        old(self).claimed_map()
                    })
                    &&& final(self).claimed_total() == old(self).claimed_total()
                    &&& final(self).spec_campaign() == old(self).spec_campaign()
                    &&& final(self).blacklisted() == old(self).blacklisted()
                }
            },
    {
        if let Some(c) = &self.campaign {
            if c.closed.is_some() {
                return Err(campaign_error("the campaign is closed"));
            }
            if c.has_started(now) {
                return Err(campaign_error("the campaign has already started"));
            }
        }
        let amount = match self.allocations.get(old_address) {
            None => {
                return Err(ContractError::NoAllocationFound { address: old_address.to_owned() });
            },
            Some(a) => a,
        };
        if self.allocations.get(new_address.as_str()).is_some() {
            return Err(ContractError::AllocationAlreadyExists { address: new_address });
        }
        let ghost old_self = *self;
        proof {
            if self.claims@.contains_key(new_address@) {
                assert(self.allocations@.contains_key(new_address@));
            }
        }
        self.allocations.remove(old_address);
        self.allocations.set(new_address.clone(), amount);
        let moved = self.claims.remove(old_address);
        if let Some(x) = moved {
            self.claims.set(new_address, x);
        }
        proof {
            assert forall|a: Seq<char>| #[trigger] self.claims@.contains_key(a) implies self.allocations@.contains_key(a)
                && self.claims@[a] <= self.allocations@[a] by {
                if a != new_address@ {
                    assert(old_self.claims@.contains_key(a));
                } else {
                    assert(old_self.claims@.contains_key(old_address@));
                }
            }
        }
        Ok(())
    }

    /// Removes the allocation of `address`, with its claim record; the
    /// campaign's `claimed` drops by what the address had claimed. Checked
    /// in this order, each failure changing nothing: the ledger is open at
    /// `now` (`CampaignError`), and `address` has an allocation
    /// (`NoAllocationFound`).
    pub fn remove_address(&mut self, address: &str, now: u64) -> (r: Result<(), ContractError>)
        requires
            old(self).wf(),
        ensures
            final(self).wf(),
            r is Err ==> *final(self) == *old(self),
            !old(self).allocations_open(now) ==> r is Err && r->Err_0.is_campaign_error(),
            old(self).allocations_open(now) ==> {
                if !old(self).allocation_map().contains_key(address@) {
                    r matches Err(ContractError::NoAllocationFound { address: a }) && a@ == address@
                } else {
                    &&& r is Ok
                    &&& final(self).allocation_map() == old(self).allocation_map().remove(address@)
                    &&& final(self).claimed_map() == old(self).claimed_map().remove(address@)
                    &&& final(self).claimed_total() == old(self).claimed_total() - old(self).claimed_of(address@)
                    &&& final(self).blacklisted() == old(self).blacklisted()
                    &&& match old(self).spec_campaign() {
                        None => final(self).spec_campaign() is None,
                        Some(c) => final(self).spec_campaign() == Some(
                            Campaign {
                                claimed: Coin {
                                    amount: (c.claimed.amount - old(self).claimed_of(address@)) as u128,
                                    ..c.claimed
                                },
                                ..c
                            },
                        ),
                    }
                }
            },
    {
        if let Some(c) = &self.campaign {
            if c.closed.is_some() {
                return Err(campaign_error("the campaign is closed"));
            }
            if c.has_started(now) {
                return Err(campaign_error("the campaign has already started"));
            }
        }
        if self.allocations.get(address).is_none() {
            return Err(ContractError::NoAllocationFound { address: address.to_owned() });
        }
        let ghost old_self = *self;
        proof {
            self.claims.lemma_total_bounds(address@);
        }
        self.allocations.remove(address);
        let removed = match self.claims.remove(address) {
            None => 0,
            Some(x) => x,
        };
        if let Some(c) = &mut self.campaign {
            c.claimed.amount = c.claimed.amount - removed;
        }
        proof {
            assert forall|a: Seq<char>| #[trigger] self.claims@.contains_key(a) implies self.allocations@.contains_key(a)
                && self.claims@[a] <= self.allocations@[a] by {
                assert(old_self.claims@.contains_key(a));
            }
        }
        Ok(())
    }
}

/// Every key of a batch's map is the address of one of its entries.
proof fn lemma_batch_map_key(batch: Seq<(String, u128)>, a: Seq<char>)
    requires
        batch_map(batch).contains_key(a),
    ensures
        exists|k: int| 0 <= k < batch.len() && (#[trigger] batch[k]).0@ == a,
    decreases batch.len(),
{
    if batch.last().0@ != a {
        lemma_batch_map_key(batch.drop_last(), a);
        let k = choose|k: int| 0 <= k < batch.drop_last().len() && (#[trigger] batch.drop_last()[k]).0@ == a;
        assert(batch[k] == batch.drop_last()[k]);
    } else {
        assert(batch[batch.len() - 1].0@ == a);
    }
}

impl Claimdrop {
    /// `x` is the rewards answer for `addr` at `now`: what it claimed, what
    /// is still locked and what it may withdraw, in the reward denom.
    pub open spec fn rewards_answer(&self, addr: Seq<char>, now: u64, x: RewardsResponse) -> bool {
        let c = self.spec_campaign()->Some_0;
        let alloc = self.allocation_of(addr);
        &&& x.claimed@.len() == 1 && x.pending@.len() == 1 && x.available_to_claim@.len() == 1
        &&& x.claimed@[0].amount == self.claimed_of(addr)
        &&& x.pending@[0].amount == alloc - vested_amount(c.distribution_type@, alloc, now)
        &&& x.available_to_claim@[0].amount == self.available_of(c, addr, now)
        &&& x.claimed@[0].denom@ == c.reward_denom@
        &&& x.pending@[0].denom@ == c.reward_denom@
        &&& x.available_to_claim@[0].denom@ == c.reward_denom@
    }

    /// Every campaign the state holds has schedules whose percentages sum
    /// to exactly 100%; creation accepts no other total.
    pub proof fn lemma_percentages_sum_to_whole(&self, params: CampaignParams, now: u64)
        requires
            self.wf(),
        ensures
            self.spec_campaign() matches Some(c) ==> percentage_sum(c.distribution_type@) == DECIMAL_FRACTIONAL,
            params.is_valid(now) ==> percentage_sum(params.distribution_type@) == DECIMAL_FRACTIONAL,
    {
    }

    /// Two rewards queries for one address at one timestamp on one state
    /// give the same amounts.
    pub proof fn lemma_rewards_repeatable(&self, addr: Seq<char>, now: u64, x: RewardsResponse, y: RewardsResponse)
        requires
            self.wf(),
            self.spec_campaign() is Some,
            self.rewards_answer(addr, now, x),
            self.rewards_answer(addr, now, y),
        ensures
            x.claimed@[0].amount == y.claimed@[0].amount,
            x.pending@[0].amount == y.pending@[0].amount,
            x.available_to_claim@[0].amount == y.available_to_claim@[0].amount,
    {
    }

    /// With no claim in between, what an address may withdraw never
    /// shrinks from one timestamp to a later one.
    pub proof fn lemma_available_never_decreases(&self, addr: Seq<char>, t1: u64, t2: u64)
        requires
            self.wf(),
            self.spec_campaign() is Some,
            t1 <= t2,
        ensures
            self.available_of(self.spec_campaign()->Some_0, addr, t1) <= self.available_of(
                self.spec_campaign()->Some_0,
                addr,
                t2,
            ),
    {
        let c = self.spec_campaign()->Some_0;
        crate::vesting::lemma_available_monotone(
            c.distribution_type@,
            self.allocation_of(addr),
            self.claimed_of(addr),
            t1,
            t2,
        );
    }
}

/// Two failures of the same kind: equal, or both for a missing allocation of
/// the same address, or both campaign errors.
pub open spec fn same_failure(e1: ContractError, e2: ContractError) -> bool {
    ||| e1 == e2
    ||| (e1 matches ContractError::NoAllocationFound { address: a } && e2 matches ContractError::NoAllocationFound {
        address: b,
    } && a@ == b@)
    ||| (e1.is_campaign_error() && e2.is_campaign_error())
}

impl Claimdrop {
    /// Blacklisting an address stops its claims whatever has vested: a claim
    /// from it fails and changes nothing, with `AddressBlacklisted` whenever
    /// the campaign accepts claims. Taking it off the blacklist again gives
    /// back the claims it had before it was put on: the same success with
    /// the same payout and the same new ledgers, or a failure of the same
    /// kind.
    pub proof fn lemma_blacklist_gates_claims(
        s0: Claimdrop,
        s1: Claimdrop,
        s2: Claimdrop,
        x: Seq<char>,
        receiver: Seq<char>,
        amount: Option<u128>,
        now: u64,
        r0: Result<ClaimPayout, ContractError>,
        f0: Claimdrop,
        r1: Result<ClaimPayout, ContractError>,
        f1: Claimdrop,
        r2: Result<ClaimPayout, ContractError>,
        f2: Claimdrop,
    )
        requires
            !s0.blacklisted().contains(x),
            s1.same_ledgers(&s0),
            s1.blacklisted() == s0.blacklisted().insert(x),
            s2.same_ledgers(&s1),
            s2.blacklisted() == s1.blacklisted().remove(x),
            Claimdrop::claim_post(s0, f0, x, receiver, amount, now, r0),
            Claimdrop::claim_post(s1, f1, x, receiver, amount, now, r1),
            Claimdrop::claim_post(s2, f2, x, receiver, amount, now, r2),
        ensures
            r1 is Err,
            f1 == s1,
            !s1.claims_refused() ==> r1 == Err::<ClaimPayout, ContractError>(ContractError::AddressBlacklisted),
            r2 is Ok <==> r0 is Ok,
            r2 is Ok ==> r2->Ok_0.coin.amount == r0->Ok_0.coin.amount && f2.claimed_map() == f0.claimed_map()
                && f2.spec_campaign() == f0.spec_campaign() && f2.allocation_map() == f0.allocation_map(),
            r2 is Err ==> same_failure(r2->Err_0, r0->Err_0),
    {
        assert(s2.blacklisted() =~= s0.blacklisted());
    }
}

} // verus!
