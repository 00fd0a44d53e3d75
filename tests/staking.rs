use cosmwasm_std::testing::{mock_env, MockApi};
use mantra_claimdrop::staking::{decimal_string, seed_from_digest};
use sha2::Digest;
use mantra_claimdrop::staking::{
    get_validators, delegate, total_staking_rewards, select_pseudorandom_validators, split_delegation, check_validators_size,
    Delegation, DelegationStrategy, StakingError, MIN_VALIDATORS,
};

fn validator_list(api: &MockApi, count: usize) -> Vec<String> {
    (1..=count).map(|i| api.addr_make(&format!("validator{}", i)).to_string()).collect()
}

fn block() -> (u64, u64) {
    let env = mock_env();
    (env.block.height, env.block.time.nanos())
}

#[test]
fn test_get_pseudorandom_validators() {
    let api = MockApi::default();
    let active = validator_list(&api, 5);
    let (mut height, nanos) = block();
    let alice = api.addr_make("alice").to_string();
    let bob = api.addr_make("bob").to_string();

    let validators_1_alice =
        get_validators(&active, height, nanos, &alice, DelegationStrategy::Pseudorandom(Some(4))).unwrap();
    let validators_1_bob =
        get_validators(&active, height, nanos, &bob, DelegationStrategy::Pseudorandom(Some(4))).unwrap();
    assert_ne!(validators_1_alice, validators_1_bob);

    height += 1000;

    let validators_2 = get_validators(&active, height, nanos, &alice, DelegationStrategy::Pseudorandom(None)).unwrap();
    assert_eq!(validators_1_alice.len(), 4);
    assert_eq!(validators_2.len(), 4);
    assert_ne!(validators_1_alice, validators_2);

    let err = get_validators(&active, height, nanos, &alice, DelegationStrategy::Pseudorandom(Some(10))).unwrap_err();
    match err {
        StakingError::NotEnoughValidators { min_validators, provided_validators } => {
            assert_eq!(min_validators, 10);
            assert_eq!(provided_validators, 5);
        }
        _ => panic!("Expected NotEnoughValidators error"),
    }

    let err = get_validators(&active, height, nanos, &alice, DelegationStrategy::Pseudorandom(Some(MIN_VALIDATORS - 1)))
        .unwrap_err();
    match err {
        StakingError::NotEnoughValidators { min_validators, provided_validators } => {
            assert_eq!(min_validators, MIN_VALIDATORS);
            assert_eq!(provided_validators, MIN_VALIDATORS - 1);
        }
        _ => panic!("Expected NotEnoughValidators error"),
    }
}

#[test]
fn test_get_pseudorandom_many_validators() {
    let api = MockApi::default();
    let active = validator_list(&api, 100);
    let (height, nanos) = block();
    let sender = api.addr_make("sender").to_string();

    let validators = get_validators(&active, height, nanos, &sender, DelegationStrategy::Pseudorandom(Some(100))).unwrap();
    assert_eq!(validators.len(), 100);

    let err = get_validators(&active, height, nanos, &sender, DelegationStrategy::Pseudorandom(Some(105))).unwrap_err();
    match err {
        StakingError::NotEnoughValidators { min_validators, provided_validators } => {
            assert_eq!(min_validators, 105);
            assert_eq!(provided_validators, 100);
        }
        _ => panic!("Expected NotEnoughValidators error"),
    }
}

#[test]
fn test_get_topn_validators() {
    let api = MockApi::default();
    let active = validator_list(&api, 5);
    let (height, nanos) = block();
    let sender = api.addr_make("sender").to_string();

    let validators_1 = get_validators(&active, height, nanos, &sender, DelegationStrategy::TopN(4)).unwrap();
    let validators_2 = get_validators(&active, height, nanos, &sender, DelegationStrategy::TopN(5)).unwrap();
    assert_eq!(validators_1, active.iter().take(4).cloned().collect::<Vec<String>>());
    assert_eq!(validators_2, active.iter().take(5).cloned().collect::<Vec<String>>());

    let err = get_validators(&active, height, nanos, &sender, DelegationStrategy::TopN(MIN_VALIDATORS - 1)).unwrap_err();
    match err {
        StakingError::NotEnoughValidators { min_validators, provided_validators } => {
            assert_eq!(min_validators, MIN_VALIDATORS);
            assert_eq!(provided_validators, MIN_VALIDATORS - 1);
        }
        _ => panic!("Expected NotEnoughValidators error"),
    }

    let err = get_validators(&active, height, nanos, &sender, DelegationStrategy::TopN(10)).unwrap_err();
    match err {
        StakingError::NotEnoughValidators { min_validators, provided_validators } => {
            assert_eq!(min_validators, 10);
            assert_eq!(provided_validators, 5);
        }
        _ => panic!("Expected NotEnoughValidators error"),
    }
}

#[test]
fn test_get_bottomn_validators() {
    let api = MockApi::default();
    let active = validator_list(&api, 5);
    let (height, nanos) = block();
    let sender = api.addr_make("sender").to_string();

    let validators_1 = get_validators(&active, height, nanos, &sender, DelegationStrategy::BottomN(4)).unwrap();
    let validators_2 = get_validators(&active, height, nanos, &sender, DelegationStrategy::BottomN(5)).unwrap();
    assert_eq!(validators_1, active.iter().rev().take(4).cloned().collect::<Vec<String>>());
    assert_eq!(validators_2, active.iter().rev().take(5).cloned().collect::<Vec<String>>());

    let err = get_validators(&active, height, nanos, &sender, DelegationStrategy::BottomN(MIN_VALIDATORS - 1)).unwrap_err();
    match err {
        StakingError::NotEnoughValidators { min_validators, provided_validators } => {
            assert_eq!(min_validators, MIN_VALIDATORS);
            assert_eq!(provided_validators, MIN_VALIDATORS - 1);
        }
        _ => panic!("Expected NotEnoughValidators error"),
    }

    let err = get_validators(&active, height, nanos, &sender, DelegationStrategy::BottomN(10)).unwrap_err();
    match err {
        StakingError::NotEnoughValidators { min_validators, provided_validators } => {
            assert_eq!(min_validators, 10);
            assert_eq!(provided_validators, 5);
        }
        _ => panic!("Expected NotEnoughValidators error"),
    }
}

#[test]
fn test_get_custom_validators() {
    let api = MockApi::default();
    let active = validator_list(&api, 5);
    let (height, nanos) = block();
    let sender = api.addr_make("sender").to_string();

    let validators_1 = get_validators(
        &active,
        height,
        nanos,
        &sender,
        DelegationStrategy::Custom(active.iter().take(4).cloned().collect::<Vec<String>>()),
    )
    .unwrap();
    let validators_2 = get_validators(
        &active,
        height,
        nanos,
        &sender,
        DelegationStrategy::Custom(active.iter().take(5).cloned().collect::<Vec<String>>()),
    )
    .unwrap();
    assert_eq!(validators_1, active.iter().take(4).cloned().collect::<Vec<String>>());
    assert_eq!(validators_2, active.iter().take(5).cloned().collect::<Vec<String>>());

    let err = get_validators(
        &active,
        height,
        nanos,
        &sender,
        DelegationStrategy::Custom(vec!["validator1".to_string(), "validator2".to_string()]),
    )
    .unwrap_err();
    match err {
        StakingError::NotEnoughValidators { .. } => {}
        _ => panic!("Expected NotEnoughValidators error"),
    }
}

#[test]
fn test_delegate() {
    let api = MockApi::default();
    let active = validator_list(&api, 5);
    let (height, nanos) = block();
    let sender = api.addr_make("sender").to_string();

    let plan = delegate(1000, "uom", "uom", &active, height, nanos, &sender, DelegationStrategy::TopN(4)).unwrap();
    let expected: Vec<Delegation> = (1..=4)
        .map(|i| Delegation { validator: api.addr_make(&format!("validator{}", i)).to_string(), amount: 250 })
        .collect();
    assert_eq!(plan, expected);

    let plan = delegate(125, "uom", "uom", &active, height, nanos, &sender, DelegationStrategy::TopN(4)).unwrap();
    assert_eq!(
        plan,
        vec![
            Delegation { validator: api.addr_make("validator1").to_string(), amount: 31 },
            Delegation { validator: api.addr_make("validator2").to_string(), amount: 31 },
            Delegation { validator: api.addr_make("validator3").to_string(), amount: 31 },
            // amount + dust
            Delegation { validator: api.addr_make("validator4").to_string(), amount: 32 },
        ]
    );
}

#[test]
fn test_claim_staking_rewards() {
    let err = total_staking_rewards(false, &vec![], 0).unwrap_err();
    match err {
        StakingError::NothingToClaim => {}
        _ => panic!("Expected NothingToClaim error"),
    }
    let rewards = vec![vec![1u128], vec![1], vec![1], vec![1]];
    assert_eq!(total_staking_rewards(true, &rewards, 4), Ok(4));
}

#[test]
fn delegate_checks_amount_and_denom_first() {
    let active = vec!["a".to_string(), "b".to_string()];
    assert_eq!(delegate(0, "uom", "uom", &active, 1, 1, "s", DelegationStrategy::TopN(2)), Err(StakingError::ZeroAmount));
    assert_eq!(
        delegate(10, "uatom", "uom", &active, 1, 1, "s", DelegationStrategy::TopN(2)),
        Err(StakingError::InvalidDenom { expected: "uom".to_string(), provided: "uatom".to_string() })
    );
    assert_eq!(delegate(10, "uom", "uom", &active, 1, 1, "s", DelegationStrategy::TopN(0)), Err(StakingError::DivideByZero));
}

#[test]
fn split_gives_nothing_when_share_is_zero() {
    let vs = vec!["a".to_string(), "b".to_string(), "c".to_string()];
    assert_eq!(split_delegation(2, &vs), Ok(vec![]));
    assert_eq!(split_delegation(7, &vs).unwrap().iter().map(|d| d.amount).collect::<Vec<u128>>(), vec![2, 2, 3]);
    assert_eq!(split_delegation(7, &vec![]), Err(StakingError::DivideByZero));
}

#[test]
fn size_check_edges() {
    assert_eq!(check_validators_size(3, 3), Ok(()));
    assert_eq!(check_validators_size(3, 0), Ok(()));
    assert_eq!(check_validators_size(4, 4), Ok(()));
    assert_eq!(
        check_validators_size(4, 5),
        Err(StakingError::NotEnoughValidators { min_validators: 5, provided_validators: 4 })
    );
}

#[test]
fn pseudorandom_selection_is_a_permutation_prefix() {
    let active: Vec<String> = (0..10).map(|i| format!("v{}", i)).collect();
    let a = select_pseudorandom_validators(42, 10, &active);
    let b = select_pseudorandom_validators(42, 10, &active);
    assert_eq!(a, b);
    let mut sorted = a.clone();
    sorted.sort();
    let mut expected = active.clone();
    expected.sort();
    assert_eq!(sorted, expected);
    assert_ne!(a, active);
    assert_eq!(select_pseudorandom_validators(42, 3, &active), a[..3].to_vec());
    assert_eq!(select_pseudorandom_validators(7, 20, &active).len(), 10);
}

#[test]
fn pseudorandom_selection_follows_the_generator() {
    // One step from seed 1: state 1 ^ (1 << 25) ^ ((1 ^ (1 << 25)) >> 27) = 33554433,
    // output 33554433 * 0x2545F4914F6CDD1D (mod 2^64); position 1 swaps with output % 2.
    let state: u64 = 1 ^ (1 << 25);
    let state = state ^ (state >> 27);
    let out = state.wrapping_mul(0x2545F4914F6CDD1D);
    let active = vec!["a".to_string(), "b".to_string()];
    let expected = if out % 2 == 0 { vec!["b".to_string(), "a".to_string()] } else { active.clone() };
    assert_eq!(select_pseudorandom_validators(1, 2, &active), expected);
}

#[test]
fn pseudorandom_seed_comes_from_block_and_sender() {
    let active: Vec<String> = (1..=6).map(|i| format!("validator{}", i)).collect();
    let text = format!("{}{}{}", 12_345u64, 1_571_797_419_879_305_533u64, "alice");
    let digest = sha2::Sha256::digest(text.as_bytes()).to_vec();
    let seed = seed_from_digest(&digest);
    assert_eq!(seed, u64::from_le_bytes(digest[0..8].try_into().unwrap()));
    let expected = select_pseudorandom_validators(seed, 5, &active);
    let got = get_validators(&active, 12_345, 1_571_797_419_879_305_533, "alice", DelegationStrategy::Pseudorandom(Some(5)))
        .unwrap();
    assert_eq!(got, expected);
}

#[test]
fn staking_rewards_overflow_and_mismatch() {
    let rewards = vec![vec![u128::MAX], vec![1u128]];
    assert!(matches!(total_staking_rewards(true, &rewards, 2), Err(StakingError::OverflowError(_))));
    assert_eq!(total_staking_rewards(true, &rewards, 3), Err(StakingError::NothingToClaim));
    assert_eq!(total_staking_rewards(true, &vec![vec![2u128, 3], vec![], vec![5]], 3), Ok(10));
}

#[test]
fn decimal_text_of_numbers() {
    assert_eq!(decimal_string(0), "0");
    assert_eq!(decimal_string(7), "7");
    assert_eq!(decimal_string(10), "10");
    assert_eq!(decimal_string(12_345), "12345");
    assert_eq!(decimal_string(u64::MAX), u64::MAX.to_string());
}
