use vstd::prelude::*;
use vstd::string::StringExecFns;

use crate::bytes::{key_bytes, str_eq};
use crate::decimal::{OverflowError, OverflowOperation};

verus! {

/// The fewest validators a delegation is spread over, where the chain has
/// that many.
pub const MIN_VALIDATORS: usize = 4;

/// Multiplier of the xorshift generator's output.
pub const XORSHIFT_MULTIPLIER: u64 = 0x2545F4914F6CDD1D;

/// Delegation strategies for selecting validators.
#[derive(Clone, Debug, PartialEq, Eq)]
pub enum DelegationStrategy {
    /// Selects n validators pseudorandomly.
    Pseudorandom(Option<usize>),
    /// Selects the top n validators.
    TopN(usize),
    /// Selects the bottom n validators.
    BottomN(usize),
    /// Allows custom selection of validators.
    Custom(Vec<String>),
}

/// Every way a staking computation can fail.
#[derive(Clone, Debug, PartialEq, Eq)]
pub enum StakingError {
    OverflowError(OverflowError),
    NotEnoughValidators { min_validators: usize, provided_validators: usize },
    NothingToClaim,
    ZeroAmount,
    DivideByZero,
    InvalidDenom { expected: String, provided: String },
}

/// One delegation of a plan: `amount` goes to `validator`.
#[derive(Clone, Debug, PartialEq, Eq)]
pub struct Delegation {
    pub validator: String,
    pub amount: u128,
}

/// The decimal digits of `n`, without leading zeros.
pub open spec fn decimal_digits(n: u64) -> Seq<char>
    decreases n,
{
    let d = ((n % 10) as u8 + 48) as char;
    if n < 10 {
        seq![d]
    } else {
        decimal_digits(n / 10).push(d)
    }
}

/// What SHA-256 gives for `data`.
pub uninterp spec fn sha256_of(data: Seq<u8>) -> Seq<u8>;

/// The one-character text of the decimal digit `d`.
fn digit_str(d: u64) -> (r: &'static str)
    requires
        d < 10,
    ensures
        r@ == seq![((d as u8) + 48) as char],
{
    proof {
        reveal_strlit("0");
        reveal_strlit("1");
        reveal_strlit("2");
        reveal_strlit("3");
        reveal_strlit("4");
        reveal_strlit("5");
        reveal_strlit("6");
        reveal_strlit("7");
        reveal_strlit("8");
        reveal_strlit("9");
    }
    if d == 0 {
        "0"
    } else if d == 1 {
        "1"
    } else if d == 2 {
        "2"
    } else if d == 3 {
        "3"
    } else if d == 4 {
        "4"
    } else if d == 5 {
        "5"
    } else if d == 6 {
        "6"
    } else if d == 7 {
        "7"
    } else if d == 8 {
        "8"
    } else {
        "9"
    }
}

/// The decimal text of `n`, without sign or leading zeros.
pub fn decimal_string(n: u64) -> (r: String)
    ensures
        r@ == decimal_digits(n),
    decreases n,
{
    if n < 10 {
        String::from_str(digit_str(n))
    } else {
        let mut s = decimal_string(n / 10);
        s.append(digit_str(n % 10));
        assert(s@ =~= decimal_digits(n));
        s
    }
}

/// Relies on `sha2::Sha256::digest`: the 32-byte SHA-256 digest of `data`.
#[verifier::external_body]
fn sha256(data: &[u8]) -> (r: Vec<u8>)
    ensures
        r@ == sha256_of(data@),
        r@.len() == 32,
{
    <sha2::Sha256 as sha2::Digest>::digest(data).to_vec()
}

/// The number whose little-endian bytes are the first `k` of `b`.
pub open spec fn le_value(b: Seq<u8>, k: int) -> int
    decreases k,
{
    if k <= 0 {
        0
    } else {
        le_value(b, k - 1) + b[k - 1] as int * pow256(k - 1)
    }
}

pub open spec fn pow256(k: int) -> int
    decreases k,
{
    if k <= 0 {
        1
    } else {
        256 * pow256(k - 1)
    }
}

/// The text the pseudorandom seed is drawn from: block height, block time
/// in nanoseconds and sender, one after the other.
pub open spec fn seed_text(height: u64, time_nanos: u64, sender: Seq<char>) -> Seq<char> {
    decimal_digits(height) + decimal_digits(time_nanos) + sender
}

/// The generator's state after one step from `s`.
pub open spec fn xorshift_step(s: u64) -> u64 {
    let a = s ^ (s >> 12u64);
    let b = a ^ (a << 25u64);
    b ^ (b >> 27u64)
}

/// The generator's output for the state `s` it has just reached.
pub open spec fn xorshift_output(s: u64) -> u64 {
    s.wrapping_mul(XORSHIFT_MULTIPLIER)
}

/// Fisher-Yates from position `i` down to 1: each step advances the
/// generator and swaps position `i` with one drawn from `0..=i`.
pub open spec fn shuffle(idx: Seq<usize>, i: int, seed: u64) -> Seq<usize>
    decreases i,
{
    if i < 1 || i >= idx.len() {
        idx
    } else {
        let s = xorshift_step(seed);
        let j = (xorshift_output(s) % ((i + 1) as u64)) as int;
        shuffle(idx.update(i, idx[j]).update(j, idx[i]), i - 1, s)
    }
}

/// The first `n` validators of the active set shuffled with `seed`.
pub open spec fn pseudorandom_selection(active: Seq<Seq<char>>, n: int, seed: u64) -> Seq<Seq<char>> {
    let perm = shuffle(Seq::new(active.len(), |k: int| k as usize), active.len() - 1, seed);
    let take = if n < active.len() { n } else { active.len() as int };
    Seq::new(take as nat, |k: int| active[perm[k] as int])
}

pub open spec fn views(v: Seq<String>) -> Seq<Seq<char>> {
    v.map_values(|s: String| s@)
}

/// Checks that `n` validators can be asked for out of `validators_n`: no
/// more than there are, and at least `MIN_VALIDATORS` where there are that
/// many.
pub fn check_validators_size(validators_n: usize, n: usize) -> (r: Result<(), StakingError>)
    ensures
        n > validators_n ==> r == Err::<(), StakingError>(
            StakingError::NotEnoughValidators { min_validators: n, provided_validators: validators_n },
        ),
        n <= validators_n && validators_n >= MIN_VALIDATORS && n < MIN_VALIDATORS ==> r == Err::<(), StakingError>(
            StakingError::NotEnoughValidators { min_validators: MIN_VALIDATORS, provided_validators: n },
        ),
        n <= validators_n && (validators_n < MIN_VALIDATORS || n >= MIN_VALIDATORS) ==> r is Ok,
{
    if n > validators_n {
        return Err(StakingError::NotEnoughValidators { min_validators: n, provided_validators: validators_n });
    }
    if validators_n >= MIN_VALIDATORS && n < MIN_VALIDATORS {
        return Err(StakingError::NotEnoughValidators { min_validators: MIN_VALIDATORS, provided_validators: n });
    }
    Ok(())
}

/// The seed a digest gives: its first eight bytes, little-endian.
pub fn seed_from_digest(digest: &[u8]) -> (r: u64)
    requires
        digest@.len() >= 8,
    ensures
        r as int == le_value(digest@, 8),
{
    let mut s: u64 = 0;
    let mut k: usize = 8;
    proof {
        lemma_pow256_pos(8);
        lemma_le_value_bound(digest@, 8);
    }
    while k > 0
        invariant
            k <= 8,
            digest@.len() >= 8,
            s as int * pow256(k as int) + le_value(digest@, k as int) == le_value(digest@, 8),
            s as int * pow256(k as int) < pow256(8),
        decreases k,
    {
        let b = digest[k - 1];
        proof {
            let p = pow256(k - 1);
            assert(pow256(k as int) == 256 * p);
            assert(s as int * pow256(k as int) == (s as int * 256) * p) by (nonlinear_arith)
                requires
                    pow256(k as int) == 256 * p,
            ;
            assert((s as int * 256 + b as int) * p == s as int * 256 * p + b as int * p) by (nonlinear_arith);
            lemma_pow256_pos(k - 1);
            lemma_le_value_bound(digest@, k - 1);
            lemma_le_value_bound(digest@, 8);
            assert(s as int * 256 * p + b as int * p + le_value(digest@, k - 1) == le_value(digest@, 8));
            assert(s as int * 256 + b as int <= u64::MAX) by (nonlinear_arith)
                requires
                    s as int * 256 * p < pow256(8),
                    p >= 1,
                    p <= pow256(7),
                    pow256(8) == 256 * pow256(7),
                    pow256(7) == 72057594037927936,
                    b < 256,
            ;
            assert((s as int * 256 + b as int) * p < pow256(8)) by (nonlinear_arith)
                requires
                    s as int * 256 * p + b as int * p + le_value(digest@, k - 1) == le_value(digest@, 8),
                    le_value(digest@, k - 1) >= 0,
                    le_value(digest@, 8) < pow256(8),
            ;
        }
        s = s * 256 + b as u64;
        k = k - 1;
    }
    s
}

proof fn lemma_pow256_pos(k: int)
    ensures
        pow256(k) >= 1,
        0 <= k <= 7 ==> pow256(k) <= pow256(7),
        pow256(7) == 72057594037927936,
        pow256(8) == 256 * pow256(7),
    decreases k,
{
    reveal_with_fuel(pow256, 9);
    if k > 0 {
        lemma_pow256_pos(k - 1);
    }
}

proof fn lemma_le_value_bound(b: Seq<u8>, k: int)
    requires
        0 <= k <= b.len(),
    ensures
        0 <= le_value(b, k) < pow256(k),
    decreases k,
{
    if k > 0 {
        lemma_le_value_bound(b, k - 1);
        lemma_pow256_pos(k - 1);
        let p = pow256(k - 1);
        let x = b[k - 1] as int;
        assert(le_value(b, k - 1) + x * p < 256 * p) by (nonlinear_arith)
            requires
                le_value(b, k - 1) < p,
                0 <= x <= 255,
                p >= 1,
        ;
    }
}

/// Selects `num_validators` of `active_validators` by shuffling their
/// places with a xorshift generator started from `seed` (Fisher-Yates,
/// from the last place down), then taking the first ones.
pub fn select_pseudorandom_validators(seed: u64, num_validators: usize, active_validators: &Vec<String>) -> (r: Vec<String>)
    ensures
        views(r@) == pseudorandom_selection(views(active_validators@), num_validators as int, seed),
{
    let len = active_validators.len();
    let mut indices: Vec<usize> = Vec::new();
    let mut k: usize = 0;
    while k < len
        invariant
            k <= len,
            len == active_validators@.len(),
            indices@ == Seq::new(k as nat, |x: int| x as usize),
        decreases len - k,
    {
        indices.push(k);
        k = k + 1;
        assert(indices@ =~= Seq::new(k as nat, |x: int| x as usize));
    }
    let ghost start = indices@;
    let mut state = seed;
    if len > 1 {
        let mut i: usize = len - 1;
        while i > 0
            invariant
                i < len,
                indices@.len() == len,
                len == active_validators@.len(),
                shuffle(indices@, i as int, state) == shuffle(start, len - 1, seed),
                forall|x: int| 0 <= x < len ==> #[trigger] indices@[x] < len,
            decreases i,
        {
            state = state ^ (state >> 12u64);
            state = state ^ (state << 25u64);
            state = state ^ (state >> 27u64);
            let out = state.wrapping_mul(XORSHIFT_MULTIPLIER);
            let j = (out % ((i + 1) as u64)) as usize;
            let a = indices[i];
            let b = indices[j];
            indices.set(i, b);
            indices.set(j, a);
            i = i - 1;
        }
    }
    let take = if num_validators < len {
        num_validators
    } else {
        len
    };
    let ghost perm = shuffle(start, len - 1, seed);
    assert(indices@ == perm);
    let mut out: Vec<String> = Vec::new();
    let mut m: usize = 0;
    while m < take
        invariant
            take <= len,
            len == active_validators@.len(),
            indices@.len() == len,
            indices@ == perm,
            forall|x: int| 0 <= x < len ==> #[trigger] indices@[x] < len,
            m <= take,
            out@.len() == m,
            forall|x: int| 0 <= x < m ==> (#[trigger] out@[x])@ == active_validators@[perm[x] as int]@,
        decreases take - m,
    {
        out.push(active_validators[indices[m]].clone());
        m = m + 1;
    }
    assert(views(out@) =~= pseudorandom_selection(views(active_validators@), num_validators as int, seed));
    out
}

/// The seed that a block height, a block time (nanoseconds) and a sender
/// give: the first eight bytes, little-endian, of the SHA-256 digest of
/// their text.
pub open spec fn block_seed(height: u64, time_nanos: u64, sender: Seq<char>) -> u64 {
    le_value(sha256_of(key_bytes(seed_text(height, time_nanos, sender))), 8) as u64
}

/// The last `n` entries of `s`, last first.
pub open spec fn bottom_n(s: Seq<Seq<char>>, n: int) -> Seq<Seq<char>> {
    let take = if n < s.len() { n } else { s.len() as int };
    Seq::new(take as nat, |k: int| s[s.len() - 1 - k])
}

/// The result of checking that `n` of `validators_n` validators may be
/// asked for, as `check_validators_size` gives it.
pub open spec fn size_check(validators_n: usize, n: usize) -> Result<(), StakingError> {
    if n > validators_n {
        Err(StakingError::NotEnoughValidators { min_validators: n, provided_validators: validators_n })
    } else if validators_n >= MIN_VALIDATORS && n < MIN_VALIDATORS {
        Err(StakingError::NotEnoughValidators { min_validators: MIN_VALIDATORS, provided_validators: n })
    } else {
        Ok(())
    }
}

/// The validators that `strategy` picks out of the active set `active`, or
/// why it cannot.
pub open spec fn selection(
    active: Seq<Seq<char>>,
    block_height: u64,
    block_time_nanos: u64,
    sender: Seq<char>,
    strategy: DelegationStrategy,
) -> Result<Seq<Seq<char>>, StakingError> {
    let len = active.len() as usize;
    match strategy {
        DelegationStrategy::Pseudorandom(n) => {
            let n = match n {
                Some(n) => n,
                None => MIN_VALIDATORS,
            };
            match size_check(len, n) {
                Err(e) => Err(e),
                Ok(_) => Ok(pseudorandom_selection(active, n as int, block_seed(block_height, block_time_nanos, sender))),
            }
        },
        DelegationStrategy::TopN(n) => match size_check(len, n) {
            Err(e) => Err(e),
            Ok(_) => Ok(active.take(n as int)),
        },
        DelegationStrategy::BottomN(n) => match size_check(len, n) {
            Err(e) => Err(e),
            Ok(_) => Ok(bottom_n(active, n as int)),
        },
        DelegationStrategy::Custom(vs) => match size_check(len, vs@.len() as usize) {
            Err(e) => Err(e),
            Ok(_) => Ok(views(vs@)),
        },
    }
}

/// The validators that a delegation strategy picks out of the active set:
/// pseudorandomly (seeded by the block and the sender, `MIN_VALIDATORS` of
/// them when no number is given), the first `n`, the last `n` (last
/// first), or the given list. Fails with `NotEnoughValidators` when the
/// active set cannot supply that many.
pub fn get_validators(
    active_validators: &Vec<String>,
    block_height: u64,
    block_time_nanos: u64,
    sender: &str,
    delegation_strategy: DelegationStrategy,
) -> (r: Result<Vec<String>, StakingError>)
    ensures
        match selection(views(active_validators@), block_height, block_time_nanos, sender@, delegation_strategy) {
            Err(e) => r == Err::<Vec<String>, StakingError>(e),
            Ok(vs) => r matches Ok(v) && views(v@) == vs,
        },
{
    let len = active_validators.len();
    match delegation_strategy {
        DelegationStrategy::Pseudorandom(n) => {
            let n = match n {
                Some(n) => n,
                None => MIN_VALIDATORS,
            };
            check_validators_size(len, n)?;
            let text = decimal_string(block_height).concat(decimal_string(block_time_nanos).as_str()).concat(sender);
            let digest = sha256(text.as_str().as_bytes());
            let seed = seed_from_digest(digest.as_slice());
            Ok(select_pseudorandom_validators(seed, n, active_validators))
        },
        DelegationStrategy::TopN(n) => {
            check_validators_size(len, n)?;
            let mut out: Vec<String> = Vec::new();
            let mut k: usize = 0;
            while k < n && k < len
                invariant
                    len == active_validators@.len(),
                    k <= n,
                    k <= len,
                    out@.len() == k,
                    forall|x: int| 0 <= x < k ==> (#[trigger] out@[x])@ == active_validators@[x]@,
                decreases len - k,
            {
                out.push(active_validators[k].clone());
                k = k + 1;
            }
            assert(views(out@) =~= views(active_validators@).take(n as int));
            Ok(out)
        },
        DelegationStrategy::BottomN(n) => {
            check_validators_size(len, n)?;
            let mut out: Vec<String> = Vec::new();
            let mut k: usize = 0;
            while k < n && k < len
                invariant
                    len == active_validators@.len(),
                    k <= n,
                    k <= len,
                    out@.len() == k,
                    forall|x: int| 0 <= x < k ==> (#[trigger] out@[x])@ == active_validators@[len - 1 - x]@,
                decreases len - k,
            {
                out.push(active_validators[len - 1 - k].clone());
                k = k + 1;
            }
            assert(views(out@) =~= bottom_n(views(active_validators@), n as int));
            Ok(out)
        },
        DelegationStrategy::Custom(validators) => {
            check_validators_size(len, validators.len())?;
            Ok(validators)
        },
    }
}

/// The amount each validator gets when `amount` is spread over `n` of them,
/// the last one also taking the dust.
pub open spec fn share_of(amount: u128, n: int, i: int) -> int {
    let per = amount as int / n;
    if i == n - 1 {
        amount as int - per * (n - 1)
    } else {
        per
    }
}

/// `plan` spreads `amount` evenly over `vs`, in their order, the last one
/// also taking what the even split leaves; it is empty when the even share
/// is zero.
pub open spec fn is_split(amount: u128, vs: Seq<Seq<char>>, plan: Seq<Delegation>) -> bool {
    let n = vs.len() as int;
    &&& plan.len() == (if amount as int / n > 0 { n } else { 0 })
    &&& forall|i: int| 0 <= i < plan.len() ==> (#[trigger] plan[i]).validator@ == vs[i] && plan[i].amount == share_of(amount, n, i)
}

/// Plans the delegation of `amount` of `denom`: checked in this order, a
/// zero amount (`ZeroAmount`), a denom other than the bonded one
/// (`InvalidDenom`), the validator selection (`get_validators`'s errors),
/// and an empty selection (`DivideByZero`). The amount is split evenly over
/// the selected validators, in their order, the last one also taking what
/// the even split leaves; nothing is delegated when the even share is zero.
pub fn delegate(
    amount: u128,
    denom: &str,
    bonded_denom: &str,
    active_validators: &Vec<String>,
    block_height: u64,
    block_time_nanos: u64,
    sender: &str,
    delegation_strategy: DelegationStrategy,
) -> (r: Result<Vec<Delegation>, StakingError>)
    ensures
        amount == 0 ==> r == Err::<Vec<Delegation>, StakingError>(StakingError::ZeroAmount),
        amount > 0 && denom@ != bonded_denom@ ==> (r matches Err(StakingError::InvalidDenom { expected, provided })
            && expected@ == bonded_denom@ && provided@ == denom@),
        amount > 0 && denom@ == bonded_denom@ ==> match selection(
            views(active_validators@),
            block_height,
            block_time_nanos,
            sender@,
            delegation_strategy,
        ) {
            Err(e) => r == Err::<Vec<Delegation>, StakingError>(e),
            Ok(vs) => if vs.len() == 0 {
                r == Err::<Vec<Delegation>, StakingError>(StakingError::DivideByZero)
            } else {
                r matches Ok(plan) && is_split(amount, vs, plan@)
            },
        },
{
    if amount == 0 {
        return Err(StakingError::ZeroAmount);
    }
    if !str_eq(denom, bonded_denom) {
        return Err(StakingError::InvalidDenom { expected: bonded_denom.to_owned(), provided: denom.to_owned() });
    }
    let validators = get_validators(active_validators, block_height, block_time_nanos, sender, delegation_strategy)?;
    let plan = split_delegation(amount, &validators)?;
    Ok(plan)
}

/// Spreads `amount` evenly over `validators`, in their order, the last one
/// also taking what the even split leaves; nothing when the even share is
/// zero. Fails with `DivideByZero` when there are no validators.
pub fn split_delegation(amount: u128, validators: &Vec<String>) -> (r: Result<Vec<Delegation>, StakingError>)
    ensures
        validators@.len() == 0 ==> r == Err::<Vec<Delegation>, StakingError>(StakingError::DivideByZero),
        validators@.len() > 0 ==> (r matches Ok(plan) && is_split(amount, views(validators@), plan@)),
{
    let n = validators.len();
    if n == 0 {
        return Err(StakingError::DivideByZero);
    }
    let per = amount / (n as u128);
    proof {
        assert(per * n <= amount) by (nonlinear_arith)
            requires
                per == amount as int / n as int,
                n > 0,
        ;
        assert(per * (n - 1) <= per * n) by (nonlinear_arith)
            requires
                per >= 0,
                n > 0,
        ;
    }
    let dust = amount - per * (n as u128);
    let mut plan: Vec<Delegation> = Vec::new();
    if per > 0 {
        let mut i: usize = 0;
        while i < n
            invariant
                n == validators@.len(),
                n > 0,
                per == amount as int / n as int,
                per > 0,
                dust == amount - per * n,
                per * n <= amount,
                i <= n,
                plan@.len() == i,
                forall|k: int| 0 <= k < i ==> (#[trigger] plan@[k]).validator@ == validators@[k]@ && plan@[k].amount
                    == share_of(amount, n as int, k),
            decreases n - i,
        {
            let share = if i == n - 1 {
                proof {
                    assert(per + dust == amount - per * (n - 1)) by (nonlinear_arith)
                        requires
                            dust == amount - per * n,
                    ;
                }
                per + dust
            } else {
                per
            };
            plan.push(Delegation { validator: validators[i].clone(), amount: share });
            i = i + 1;
        }
    }
    Ok(plan)
}

/// The sum of all amounts of all lists.
pub open spec fn nested_sum(rewards: Seq<Vec<u128>>) -> int
    decreases rewards.len(),
{
    if rewards.len() == 0 {
        0
    } else {
        nested_sum(rewards.drop_last()) + list_sum(rewards.last()@)
    }
}

pub open spec fn list_sum(s: Seq<u128>) -> int
    decreases s.len(),
{
    if s.len() == 0 {
        0
    } else {
        list_sum(s.drop_last()) + s.last()
    }
}

proof fn lemma_list_sum_prefix(s: Seq<u128>, k: int)
    requires
        0 <= k <= s.len(),
    ensures
        0 <= list_sum(s.subrange(0, k)) <= list_sum(s),
    decreases s.len(),
{
    if k < s.len() {
        assert(s.drop_last().subrange(0, k) =~= s.subrange(0, k));
        lemma_list_sum_prefix(s.drop_last(), k);
    } else {
        assert(s.subrange(0, k) =~= s);
        lemma_list_sum_nonneg(s);
    }
}

proof fn lemma_list_sum_nonneg(s: Seq<u128>)
    ensures
        list_sum(s) >= 0,
    decreases s.len(),
{
    if s.len() > 0 {
        lemma_list_sum_nonneg(s.drop_last());
    }
}

proof fn lemma_nested_sum_prefix(s: Seq<Vec<u128>>, k: int)
    requires
        0 <= k <= s.len(),
    ensures
        0 <= nested_sum(s.subrange(0, k)) <= nested_sum(s),
    decreases s.len(),
{
    if k < s.len() {
        assert(s.drop_last().subrange(0, k) =~= s.subrange(0, k));
        lemma_nested_sum_prefix(s.drop_last(), k);
        lemma_list_sum_nonneg(s.last()@);
    } else {
        assert(s.subrange(0, k) =~= s);
        if s.len() > 0 {
            lemma_nested_sum_prefix(s.drop_last(), s.len() - 1);
            assert(s.drop_last().subrange(0, s.len() - 1) =~= s.drop_last());
            lemma_list_sum_nonneg(s.last()@);
        }
    }
}

/// Totals the staking rewards, one list of whole amounts per validator.
/// Nothing can be claimed (`NothingToClaim`) when the chain reports no
/// positive total, or when the rewards do not cover exactly the
/// `delegation_count` delegations; a total beyond the range is an
/// `OverflowError`.
pub fn total_staking_rewards(total_is_positive: bool, rewards: &Vec<Vec<u128>>, delegation_count: usize) -> (r: Result<u128, StakingError>)
    ensures
        !total_is_positive ==> r == Err::<u128, StakingError>(StakingError::NothingToClaim),
        total_is_positive && rewards@.len() != delegation_count ==> r == Err::<u128, StakingError>(StakingError::NothingToClaim),
        total_is_positive && rewards@.len() == delegation_count ==> if nested_sum(rewards@) <= u128::MAX {
            r == Ok::<u128, StakingError>(nested_sum(rewards@) as u128)
        } else {
            r is Err && r->Err_0 is OverflowError
        },
{
    if !total_is_positive {
        return Err(StakingError::NothingToClaim);
    }
    if rewards.len() != delegation_count {
        return Err(StakingError::NothingToClaim);
    }
    let mut total: u128 = 0;
    let mut i: usize = 0;
    while i < rewards.len()
        invariant
            total_is_positive,
            rewards@.len() == delegation_count,
            i <= rewards@.len(),
            total == nested_sum(rewards@.subrange(0, i as int)),
        decreases rewards@.len() - i,
    {
        let list = &rewards[i];
        let mut k: usize = 0;
        let ghost base = total as int;
        while k < list.len()
            invariant
                total_is_positive,
                rewards@.len() == delegation_count,
                i < rewards@.len(),
                list == rewards@[i as int],
                k <= list@.len(),
                base == nested_sum(rewards@.subrange(0, i as int)),
                total == base + list_sum(list@.subrange(0, k as int)),
            decreases list@.len() - k,
        {
            proof {
                assert(list@.subrange(0, k + 1).drop_last() =~= list@.subrange(0, k as int));
            }
            match total.checked_add(list[k]) {
                Some(t) => {
                    total = t;
                },
                None => {
                    proof {
                        lemma_list_sum_prefix(list@, k + 1);
                        assert(rewards@.subrange(0, i + 1).drop_last() =~= rewards@.subrange(0, i as int));
                        lemma_nested_sum_prefix(rewards@, i + 1);
                    }
                    return Err(StakingError::OverflowError(OverflowError { operation: OverflowOperation::Add }));
                },
            }
            k = k + 1;
        }
        proof {
            assert(list@.subrange(0, list@.len() as int) =~= list@);
            assert(rewards@.subrange(0, i + 1).drop_last() =~= rewards@.subrange(0, i as int));
        }
        i = i + 1;
    }
    assert(rewards@.subrange(0, i as int) =~= rewards@);
    Ok(total)
}

} // verus!
