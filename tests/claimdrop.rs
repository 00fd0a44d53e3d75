use mantra_claimdrop::contract::{Claimdrop, MAX_ALLOCATION_BATCH_SIZE};
use mantra_claimdrop::decimal::Decimal;
use mantra_claimdrop::error::ContractError;
use mantra_claimdrop::msg::{CampaignParams, Coin, DistributionType};

const T: u64 = 1_000_000;

fn params(distribution_type: Vec<DistributionType>) -> CampaignParams {
    CampaignParams {
        name: "Airdrop".to_string(),
        description: "A campaign".to_string(),
        ty: "airdrop".to_string(),
        reward_denom: "uom".to_string(),
        total_reward: Coin { denom: "uom".to_string(), amount: 100_000 },
        distribution_type,
        start_time: T,
        end_time: T + 2000,
    }
}

fn lump_sum() -> Vec<DistributionType> {
    vec![DistributionType::LumpSum { percentage: Decimal::percent(100), start_time: T }]
}

fn linear_with_cliff() -> Vec<DistributionType> {
    vec![DistributionType::LinearVesting {
        percentage: Decimal::percent(100),
        start_time: T,
        end_time: T + 1000,
        cliff_duration: Some(100),
    }]
}

fn state_with(distribution_type: Vec<DistributionType>, allocations: Vec<(String, u128)>) -> Claimdrop {
    let mut state = Claimdrop::new(false);
    state.add_allocations(allocations, T - 10).unwrap();
    state.create_campaign(params(distribution_type), T - 10).unwrap();
    state
}

fn available(state: &Claimdrop, addr: &str, now: u64) -> u128 {
    state.rewards(addr, now).unwrap().available_to_claim[0].amount
}

#[test]
fn lump_sum_releases_everything_at_start() {
    let state = state_with(lump_sum(), vec![("x".to_string(), 1000)]);
    assert_eq!(available(&state, "x", T - 1), 0);
    assert_eq!(available(&state, "x", T), 1000);
}

#[test]
fn linear_vesting_with_cliff() {
    let state = state_with(linear_with_cliff(), vec![("x".to_string(), 1000)]);
    assert_eq!(available(&state, "x", T + 50), 0);
    assert_eq!(available(&state, "x", T + 99), 0);
    assert_eq!(available(&state, "x", T + 100), 100);
    assert_eq!(available(&state, "x", T + 500), 500);
    assert_eq!(available(&state, "x", T + 1000), 1000);
    let r = state.rewards("x", T + 500).unwrap();
    assert_eq!(r.pending[0].amount, 500);
    assert_eq!(r.claimed[0].amount, 0);
    assert_eq!(r.pending[0].denom, "uom");
}

#[test]
fn second_claim_has_nothing_left() {
    let mut state = state_with(linear_with_cliff(), vec![("x".to_string(), 1000)]);
    let payout = state.claim("x", None, None, T + 1000).unwrap();
    assert_eq!(payout.coin, Coin { denom: "uom".to_string(), amount: 1000 });
    assert_eq!(payout.receiver, "x");
    assert_eq!(payout.payer, "x");
    let err = state.claim("x", None, None, T + 1001).unwrap_err();
    assert_eq!(err, ContractError::NothingToClaim);
    assert_eq!(state.campaign().unwrap().claimed.amount, 1000);
}

#[test]
fn oversized_batch_is_refused_whole() {
    let mut state = Claimdrop::new(false);
    let batch: Vec<(String, u128)> = (0..MAX_ALLOCATION_BATCH_SIZE + 1).map(|i| (format!("addr{}", i), 10)).collect();
    let err = state.add_allocations(batch, 0).unwrap_err();
    assert_eq!(
        err,
        ContractError::BatchSizeLimitExceeded { actual: MAX_ALLOCATION_BATCH_SIZE + 1, max: MAX_ALLOCATION_BATCH_SIZE }
    );
    assert!(state.allocations(None, None, None).allocations.is_empty());
}

#[test]
fn blacklist_blocks_and_unblocks_claims() {
    let mut state = state_with(lump_sum(), vec![("x".to_string(), 1000)]);
    state.blacklist_address("x".to_string(), true);
    assert!(state.is_blacklisted("x").is_blacklisted);
    assert_eq!(state.claim("x", None, None, T + 5).unwrap_err(), ContractError::AddressBlacklisted);
    state.blacklist_address("x".to_string(), true);
    state.blacklist_address("x".to_string(), false);
    assert!(!state.is_blacklisted("x").is_blacklisted);
    assert_eq!(state.claim("x", None, None, T + 5).unwrap().coin.amount, 1000);
}
