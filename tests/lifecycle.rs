use mantra_claimdrop::contract::{effective_limit, Claimdrop, DEFAULT_PAGE_LIMIT, MAX_PAGE_LIMIT};
use mantra_claimdrop::decimal::{mul_floor, Decimal, OverflowError, OverflowOperation, DECIMAL_FRACTIONAL};
use mantra_claimdrop::error::ContractError;
use mantra_claimdrop::evm::erc20::Owner;
use mantra_claimdrop::evm::vm::AccessType;
use mantra_claimdrop::msg::{Campaign, CampaignParams, Coin, DistributionType};
use mantra_claimdrop::vesting::{compute_claimable, total_vested_fraction, vested_fraction};

const T: u64 = 5_000;

fn params(distribution_type: Vec<DistributionType>) -> CampaignParams {
    CampaignParams {
        name: "Airdrop".to_string(),
        description: "A campaign".to_string(),
        ty: "airdrop".to_string(),
        reward_denom: "uom".to_string(),
        total_reward: Coin { denom: "uom".to_string(), amount: 10_000 },
        distribution_type,
        start_time: T,
        end_time: T + 2000,
    }
}

fn lump(pct: u64, start: u64) -> DistributionType {
    DistributionType::LumpSum { percentage: Decimal::percent(pct), start_time: start }
}

fn linear(pct: u64, start: u64, end: u64, cliff: Option<u64>) -> DistributionType {
    DistributionType::LinearVesting { percentage: Decimal::percent(pct), start_time: start, end_time: end, cliff_duration: cliff }
}

fn param_of(e: ContractError) -> String {
    match e {
        ContractError::InvalidCampaignParam { param, .. } => param,
        other => panic!("unexpected error {:?}", other),
    }
}

fn campaign_of(p: CampaignParams) -> Campaign {
    Campaign::from_params(p)
}

#[test]
fn creation_checks_in_order() {
    let mut s = Claimdrop::new(false);
    let mut p = params(vec![lump(100, T)]);
    p.name = String::new();
    assert_eq!(param_of(s.create_campaign(p, 0).unwrap_err()), "name");
    let mut p = params(vec![lump(100, T)]);
    p.name = "n".repeat(201);
    assert_eq!(param_of(s.create_campaign(p, 0).unwrap_err()), "name");
    let mut p = params(vec![lump(100, T)]);
    p.name = "n".repeat(200);
    p.description = "d".repeat(2001);
    assert_eq!(param_of(s.create_campaign(p, 0).unwrap_err()), "description");
    let mut p = params(vec![lump(100, T)]);
    p.ty = String::new();
    assert_eq!(param_of(s.create_campaign(p, 0).unwrap_err()), "type");
    let mut p = params(vec![lump(100, T)]);
    p.end_time = T;
    assert_eq!(param_of(s.create_campaign(p, 0).unwrap_err()), "start_time");
    assert_eq!(param_of(s.create_campaign(params(vec![lump(100, T)]), T + 1).unwrap_err()), "start_time");
    assert_eq!(param_of(s.create_campaign(params(vec![]), 0).unwrap_err()), "distribution_type");
    assert_eq!(
        param_of(s.create_campaign(params(vec![lump(30, T), lump(30, T), lump(40, T)]), 0).unwrap_err()),
        "distribution_type"
    );
    let mut p = params(vec![lump(100, T)]);
    p.total_reward.amount = 0;
    assert_eq!(param_of(s.create_campaign(p, 0).unwrap_err()), "total_reward");
    let mut p = params(vec![lump(100, T)]);
    p.total_reward.denom = "uatom".to_string();
    assert_eq!(param_of(s.create_campaign(p, 0).unwrap_err()), "reward_denom");
    assert!(s.campaign().is_err());
    s.create_campaign(params(vec![lump(100, T)]), T).unwrap();
    assert!(matches!(s.create_campaign(params(vec![lump(100, T)]), 0), Err(ContractError::CampaignError { .. })));
}

#[test]
fn distribution_rules() {
    let p = |ds| params(ds).validate_campaign_distribution();
    assert_eq!(p(vec![lump(0, T), lump(100, T)]), Err(ContractError::ZeroDistributionPercentage));
    assert_eq!(
        p(vec![lump(100, T - 1)]),
        Err(ContractError::InvalidStartDistributionTime { start_time: T - 1, campaign_start_time: T })
    );
    assert_eq!(
        p(vec![linear(100, T + 10, T + 10, None)]),
        Err(ContractError::InvalidDistributionTimes { start_time: T + 10, end_time: T + 10 })
    );
    assert_eq!(
        p(vec![linear(100, T, T + 2001, None)]),
        Err(ContractError::InvalidEndDistributionTime { end_time: T + 2001, campaign_end_time: T + 2000 })
    );
    assert_eq!(param_of(p(vec![linear(100, T, T + 100, Some(0))]).unwrap_err()), "cliff_duration");
    assert_eq!(param_of(p(vec![linear(100, T, T + 100, Some(100))]).unwrap_err()), "cliff_duration");
    assert_eq!(p(vec![linear(100, T, T + 100, Some(99))]), Ok(()));
    assert_eq!(
        p(vec![lump(50, T), lump(40, T)]),
        Err(ContractError::InvalidDistributionPercentage { expected: Decimal::percent(100), actual: Decimal::percent(90) })
    );
    assert_eq!(
        p(vec![
            DistributionType::LumpSum { percentage: Decimal::raw(u128::MAX), start_time: T },
            lump(1, T)
        ]),
        Err(ContractError::OverflowError(OverflowError { operation: OverflowOperation::Add }))
    );
    assert_eq!(p(vec![lump(40, T), linear(60, T, T + 2000, None)]), Ok(()));
    // the first broken schedule is reported
    assert_eq!(p(vec![lump(100, T - 1), lump(0, T)]), Err(ContractError::InvalidStartDistributionTime {
        start_time: T - 1,
        campaign_start_time: T,
    }));
}

#[test]
fn two_schedules_vest_together() {
    let c = campaign_of(params(vec![lump(40, T), linear(60, T, T + 1000, None)]));
    assert_eq!(compute_claimable(&c, 1000, 0, T - 1), (1000, 0));
    assert_eq!(compute_claimable(&c, 1000, 0, T), (600, 400));
    assert_eq!(compute_claimable(&c, 1000, 0, T + 500), (300, 700));
    assert_eq!(compute_claimable(&c, 1000, 100, T + 500), (300, 600));
    assert_eq!(compute_claimable(&c, 1000, 900, T + 500), (300, 0));
    assert_eq!(compute_claimable(&c, 1000, 0, T + 5000), (0, 1000));
    assert_eq!(total_vested_fraction(&c.distribution_type, T + 250), Decimal::raw(550_000_000_000_000_000));
}

#[test]
fn vesting_rounds_down() {
    let d = linear(100, 0, 3, None);
    assert_eq!(vested_fraction(&d, 1), Decimal::raw(333_333_333_333_333_333));
    let c = campaign_of(params(vec![linear(100, T, T + 3, None)]));
    assert_eq!(compute_claimable(&c, 10, 0, T + 1), (7, 3));
    assert_eq!(mul_floor(u128::MAX, Decimal::one()), u128::MAX);
    assert_eq!(mul_floor(u128::MAX, Decimal::percent(50)), u128::MAX / 2);
    assert_eq!(mul_floor(7, Decimal::percent(50)), 3);
    assert_eq!(Decimal::one().atomics, DECIMAL_FRACTIONAL);
}

#[test]
fn claim_errors_and_partial_claims() {
    let mut s = Claimdrop::new(false);
    assert!(matches!(s.claim("x", None, None, T), Err(ContractError::CampaignError { .. })));
    s.add_allocations(vec![("x".to_string(), 1000), ("y".to_string(), 500)], 0).unwrap();
    s.create_campaign(params(vec![linear(100, T, T + 1000, None)]), 0).unwrap();
    assert_eq!(s.claim("z", None, None, T + 10).unwrap_err(), ContractError::NoAllocationFound { address: "z".to_string() });
    assert_eq!(s.claim("x", None, None, T - 1).unwrap_err(), ContractError::NothingToClaim);
    assert_eq!(s.claim("x", None, Some(101), T + 100).unwrap_err(), ContractError::ExceededMaxClaimAmount);
    assert_eq!(s.claim("x", None, Some(0), T + 100).unwrap_err(), ContractError::NothingToClaim);
    let p = s.claim("x", Some("r".to_string()), Some(60), T + 100).unwrap();
    assert_eq!(p.receiver, "r");
    assert_eq!(p.coin.amount, 60);
    assert_eq!(s.rewards("x", T + 100).unwrap().available_to_claim[0].amount, 40);
    assert_eq!(s.claim("x", None, None, T + 100).unwrap().coin.amount, 40);
    assert_eq!(s.rewards("x", T + 100).unwrap().claimed[0].amount, 100);
    assert_eq!(s.campaign().unwrap().claimed.amount, 100);
    let claimed = s.claimed(None, None, None).claimed;
    assert_eq!(claimed, vec![("x".to_string(), Coin { denom: "uom".to_string(), amount: 100 })]);
    assert_eq!(s.claimed(Some("y"), None, None).claimed, vec![]);
    assert_eq!(s.claimed(Some("x"), None, None).claimed.len(), 1);
    // allocations are frozen once the campaign has started
    assert!(matches!(s.add_allocations(vec![("w".to_string(), 1)], T), Err(ContractError::CampaignError { .. })));
    assert!(matches!(s.remove_address("y", T + 1), Err(ContractError::CampaignError { .. })));
    assert!(matches!(s.replace_address("y", "w".to_string(), T + 1), Err(ContractError::CampaignError { .. })));
}

#[test]
fn closing_stops_claims_unless_allowed() {
    for allow in [false, true] {
        let mut s = Claimdrop::new(allow);
        s.add_allocations(vec![("x".to_string(), 1000)], 0).unwrap();
        s.create_campaign(params(vec![lump(100, T)]), 0).unwrap();
        s.close_campaign(T + 1).unwrap();
        assert_eq!(s.campaign().unwrap().closed, Some(T + 1));
        assert!(matches!(s.close_campaign(T + 2), Err(ContractError::CampaignError { .. })));
        let r = s.claim("x", None, None, T + 3);
        if allow {
            assert_eq!(r.unwrap().coin.amount, 1000);
        } else {
            assert!(matches!(r, Err(ContractError::CampaignError { .. })));
        }
    }
    let mut s = Claimdrop::new(false);
    assert!(matches!(s.close_campaign(0), Err(ContractError::CampaignError { .. })));
}

#[test]
fn claims_never_exceed_total_reward() {
    let mut s = Claimdrop::new(false);
    s.add_allocations(vec![("x".to_string(), 8000), ("y".to_string(), 8000)], 0).unwrap();
    s.create_campaign(params(vec![lump(100, T)]), 0).unwrap();
    assert_eq!(s.claim("x", None, None, T).unwrap().coin.amount, 8000);
    assert!(matches!(s.claim("y", None, None, T), Err(ContractError::CampaignError { .. })));
    assert_eq!(s.claim("y", None, Some(2000), T).unwrap().coin.amount, 2000);
    assert_eq!(s.campaign().unwrap().claimed.amount, 10_000);
}

#[test]
fn allocation_ledger_edits() {
    let mut s = Claimdrop::new(false);
    s.add_allocations(vec![("b".to_string(), 2), ("a".to_string(), 1), ("c".to_string(), 3)], 0).unwrap();
    assert_eq!(
        s.add_allocations(vec![("d".to_string(), 4), ("a".to_string(), 9)], 0).unwrap_err(),
        ContractError::AllocationAlreadyExists { address: "a".to_string() }
    );
    assert_eq!(
        s.add_allocations(vec![("e".to_string(), 4), ("e".to_string(), 9)], 0).unwrap_err(),
        ContractError::AllocationAlreadyExists { address: "e".to_string() }
    );
    assert_eq!(s.allocations(Some("d"), None, None).allocations, vec![]);
    assert_eq!(s.allocations(Some("e"), None, None).allocations, vec![]);
    let all = s.allocations(None, None, None).allocations;
    assert_eq!(all, vec![("a".to_string(), 1), ("b".to_string(), 2), ("c".to_string(), 3)]);
    assert_eq!(s.allocations(None, Some("a"), Some(1)).allocations, vec![("b".to_string(), 2)]);
    assert_eq!(s.allocations(None, Some("aa"), None).allocations, vec![("b".to_string(), 2), ("c".to_string(), 3)]);
    assert_eq!(s.allocations(None, Some("c"), None).allocations, vec![]);
    assert_eq!(s.allocations(None, None, Some(0)).allocations, vec![]);

    assert_eq!(s.replace_address("z", "y".to_string(), 0).unwrap_err(), ContractError::NoAllocationFound { address: "z".to_string() });
    assert_eq!(
        s.replace_address("a", "b".to_string(), 0).unwrap_err(),
        ContractError::AllocationAlreadyExists { address: "b".to_string() }
    );
    s.replace_address("a", "z".to_string(), 0).unwrap();
    assert_eq!(s.allocations(None, None, None).allocations, vec![
        ("b".to_string(), 2),
        ("c".to_string(), 3),
        ("z".to_string(), 1)
    ]);
    assert_eq!(s.remove_address("a", 0).unwrap_err(), ContractError::NoAllocationFound { address: "a".to_string() });
    s.remove_address("b", 0).unwrap();
    assert_eq!(s.allocations(None, None, None).allocations, vec![("c".to_string(), 3), ("z".to_string(), 1)]);
    s.create_campaign(params(vec![lump(100, T)]), 0).unwrap();
    s.remove_address("c", T - 1).unwrap();
    assert_eq!(s.allocations(None, None, None).allocations, vec![("z".to_string(), 1)]);
}

#[test]
fn pages_are_capped() {
    assert_eq!(effective_limit(None), DEFAULT_PAGE_LIMIT as usize);
    assert_eq!(effective_limit(Some(7)), 7);
    assert_eq!(effective_limit(Some(u16::MAX)), MAX_PAGE_LIMIT as usize);
    let mut s = Claimdrop::new(false);
    let batch: Vec<(String, u128)> = (0..150).map(|i| (format!("addr{:03}", i), i as u128)).collect();
    s.add_allocations(batch, 0).unwrap();
    let page = s.allocations(None, None, None).allocations;
    assert_eq!(page.len(), 100);
    assert_eq!(page[0].0, "addr000");
    let next = s.allocations(None, Some(&page[99].0), None).allocations;
    assert_eq!(next.len(), 50);
    assert_eq!(next[0].0, "addr100");
}

#[test]
fn rewards_are_repeatable_and_grow() {
    let mut s = Claimdrop::new(false);
    assert!(matches!(s.rewards("x", 0), Err(ContractError::CampaignError { .. })));
    s.add_allocations(vec![("x".to_string(), 1000)], 0).unwrap();
    s.create_campaign(params(vec![linear(100, T, T + 1000, None)]), 0).unwrap();
    assert_eq!(s.rewards("x", T + 300), s.rewards("x", T + 300));
    let mut last = 0;
    for t in (T..T + 1100).step_by(37) {
        let a = s.rewards("x", t).unwrap().available_to_claim[0].amount;
        assert!(a >= last);
        last = a;
    }
    let r = s.rewards("nobody", T + 500).unwrap();
    assert_eq!(r.pending[0].amount, 0);
    assert_eq!(r.available_to_claim[0].amount, 0);
}

#[test]
fn schedule_boundaries() {
    let l = lump(25, 100);
    assert_eq!(vested_fraction(&l, 99), Decimal::zero());
    assert_eq!(vested_fraction(&l, 100), Decimal::percent(25));
    assert!(!l.has_started(99));
    assert!(l.has_started(100));
    let c = linear(100, 100, 1100, Some(100));
    assert_eq!(vested_fraction(&c, 199), Decimal::zero());
    assert_eq!(vested_fraction(&c, 200), Decimal::percent(10));
    assert_eq!(vested_fraction(&c, 1100), Decimal::percent(100));
    assert_eq!(vested_fraction(&c, u64::MAX), Decimal::percent(100));
    let camp = campaign_of(params(vec![lump(100, T)]));
    assert!(!camp.has_started(T - 1));
    assert!(camp.has_started(T));
    assert!(!camp.has_ended(T + 1999));
    assert!(camp.has_ended(T + 2000));
    assert_eq!(camp.claimed, Coin { denom: "uom".to_string(), amount: 0 });
    assert_eq!(camp.closed, None);
}

#[test]
fn decimal_add_overflows_loudly() {
    assert_eq!(Decimal::percent(30).checked_add(Decimal::percent(70)), Ok(Decimal::percent(100)));
    assert_eq!(
        Decimal::raw(u128::MAX).checked_add(Decimal::raw(1)),
        Err(OverflowError { operation: OverflowOperation::Add })
    );
    assert!(Decimal::zero().is_zero());
    assert_eq!(ContractError::from(OverflowError { operation: OverflowOperation::Add }), ContractError::OverflowError(OverflowError { operation: OverflowOperation::Add }));
}

#[test]
fn protobuf_enum_names() {
    assert_eq!(Owner::Module.as_str_name(), "OWNER_MODULE");
    assert_eq!(Owner::from_str_name("OWNER_EXTERNAL"), Some(Owner::External));
    assert_eq!(Owner::from_str_name("OWNER_UNSPECIFIED"), Some(Owner::Unspecified));
    assert_eq!(Owner::from_str_name("owner_module"), None);
    assert_eq!(AccessType::Permissioned.as_str_name(), "ACCESS_TYPE_PERMISSIONED");
    assert_eq!(AccessType::from_str_name("ACCESS_TYPE_RESTRICTED"), Some(AccessType::Restricted));
    assert_eq!(AccessType::from_str_name(""), None);
    for a in [AccessType::Permissionless, AccessType::Restricted, AccessType::Permissioned] {
        assert_eq!(AccessType::from_str_name(a.as_str_name()), Some(a));
    }
}

fn reason_of(e: ContractError) -> (String, String) {
    match e {
        ContractError::InvalidCampaignParam { param, reason } => (param, reason),
        other => panic!("unexpected error {:?}", other),
    }
}

#[test]
fn lengths_count_characters() {
    let mut p = params(vec![lump(100, T)]);
    p.name = "é".repeat(101);
    p.description = "d".to_string();
    assert_eq!(p.validate_campaign_name_description(), Ok(()));
    p.name = "é".repeat(200);
    p.description = "ü".repeat(2000);
    assert_eq!(p.validate_campaign_name_description(), Ok(()));
    p.name = "a".repeat(201);
    assert_eq!(
        reason_of(p.validate_campaign_name_description().unwrap_err()),
        ("name".to_string(), "cannot be longer than 200 characters".to_string())
    );
    p.name = "a".to_string();
    p.description = "ü".repeat(2001);
    assert_eq!(
        reason_of(p.validate_campaign_name_description().unwrap_err()),
        ("description".to_string(), "cannot be longer than 2000 characters".to_string())
    );
    p.ty = "ß".repeat(200);
    assert_eq!(p.validate_campaign_type(), Ok(()));
    p.ty = "ß".repeat(201);
    assert_eq!(
        reason_of(p.validate_campaign_type().unwrap_err()),
        ("type".to_string(), "cannot be longer than 200 characters".to_string())
    );
}

#[test]
fn errors_give_their_reasons() {
    let mut p = params(vec![linear(100, 1000, 2000, Some(1000))]);
    p.start_time = 1000;
    p.end_time = 2000;
    assert_eq!(
        reason_of(p.validate_campaign_distribution().unwrap_err()),
        ("cliff_duration".to_string(), "cannot be greater or equal than the distribution duration".to_string())
    );
    let mut p = params(vec![lump(100, T)]);
    p.total_reward.amount = 0;
    assert_eq!(reason_of(p.validate_rewards().unwrap_err()), ("total_reward".to_string(), "cannot be zero".to_string()));
    p.total_reward = Coin { denom: "uatom".to_string(), amount: 5 };
    assert_eq!(
        reason_of(p.validate_rewards().unwrap_err()),
        ("reward_denom".to_string(), "reward denom mismatch".to_string())
    );
    let p = params(vec![lump(100, T)]);
    assert_eq!(
        reason_of(p.validate_campaign_times(T + 1).unwrap_err()),
        ("start_time".to_string(), "cannot be less than the current time".to_string())
    );
}

#[test]
fn blacklisting_without_campaign_still_fails() {
    let mut s = Claimdrop::new(false);
    s.add_allocations(vec![("x".to_string(), 10)], 0).unwrap();
    s.blacklist_address("x".to_string(), true);
    assert!(s.claim("x", None, None, T).is_err());
}
