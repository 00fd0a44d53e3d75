use vstd::prelude::*;

use crate::decimal::{mul_floor, mul_floor_spec, Decimal, DECIMAL_FRACTIONAL};
use crate::msg::{percentage_sum, Campaign, DistributionType};

verus! {

/// The part of its percentage that a schedule has released at `now`, in
/// atomic units of a `Decimal`.
pub open spec fn spec_vested_fraction(d: DistributionType, now: u64) -> int {
    match d {
        DistributionType::LumpSum { percentage, start_time } => {
            if now < start_time {
                0
            } else {
                percentage.value()
            }
        },
        DistributionType::LinearVesting { percentage, start_time, end_time, cliff_duration } => {
            if now < start_time {
                0
            } else if cliff_duration matches Some(c) && now - start_time < c {
                0
            } else if now >= end_time {
                percentage.value()
            } else {
                (percentage.value() * (now - start_time)) / (end_time - start_time)
            }
        },
    }
}

/// The sum of what every schedule of the list has released at `now`.
pub open spec fn vested_sum(ds: Seq<DistributionType>, now: u64) -> int
    decreases ds.len(),
{
    if ds.len() == 0 {
        0
    } else {
        vested_sum(ds.drop_last(), now) + spec_vested_fraction(ds.last(), now)
    }
}

/// The part of `allocation` that the schedules have released at `now`,
/// rounded down.
pub open spec fn vested_amount(ds: Seq<DistributionType>, allocation: u128, now: u64) -> int {
    mul_floor_spec(allocation as int, vested_sum(ds, now))
}

/// What may still be withdrawn of an allocation of which `claimed` has been
/// paid: the vested amount less what was paid, never below zero.
pub open spec fn available_amount(ds: Seq<DistributionType>, allocation: u128, claimed: u128, now: u64) -> int {
    let v = vested_amount(ds, allocation, now);
    if v > claimed {
        v - claimed
    } else {
        0
    }
}

/// Evaluates one schedule at `now`: the part of its percentage released so far.
pub fn vested_fraction(d: &DistributionType, now: u64) -> (r: Decimal)
    requires
        d.spec_percentage().atomics <= DECIMAL_FRACTIONAL,
    ensures
        r.value() == spec_vested_fraction(*d, now),
        r.atomics <= d.spec_percentage().atomics,
{
    proof {
        lemma_vested_fraction_bounded(*d, now);
    }
    match d {
        DistributionType::LumpSum { percentage, start_time } => {
            if now < *start_time {
                Decimal::zero()
            } else {
                *percentage
            }
        },
        DistributionType::LinearVesting { percentage, start_time, end_time, cliff_duration } => {
            if now < *start_time {
                return Decimal::zero();
            }
            let elapsed = now - *start_time;
            if let Some(c) = cliff_duration {
                if elapsed < *c {
                    return Decimal::zero();
                }
            }
            if now >= *end_time {
                return *percentage;
            }
            let duration = *end_time - *start_time;
            assert(percentage.atomics * elapsed <= DECIMAL_FRACTIONAL * u64::MAX) by (nonlinear_arith)
                requires
                    percentage.atomics <= DECIMAL_FRACTIONAL,
                    elapsed <= u64::MAX,
            ;
            Decimal::raw(percentage.atomics * (elapsed as u128) / (duration as u128))
        },
    }
}

/// A schedule never releases less than nothing, nor more than its percentage.
pub proof fn lemma_vested_fraction_bounded(d: DistributionType, now: u64)
    ensures
        0 <= spec_vested_fraction(d, now) <= d.spec_percentage().value(),
{
    if let DistributionType::LinearVesting { percentage, start_time, end_time, cliff_duration } = d {
        if now >= start_time && now < end_time {
            let p = percentage.value();
            let e = now - start_time;
            let dur = end_time - start_time;
            assert(0 <= p * e <= p * dur) by (nonlinear_arith)
                requires
                    p >= 0,
                    0 <= e <= dur,
            ;
            vstd::arithmetic::div_mod::lemma_div_is_ordered(p * e, p * dur, dur);
            vstd::arithmetic::div_mod::lemma_div_multiples_vanish(p, dur);
            assert(p * dur == dur * p) by (nonlinear_arith);
            vstd::arithmetic::div_mod::lemma_div_pos_is_pos(p * e, dur);
        }
    }
}

/// What a schedule has released never shrinks as time goes on, and never
/// exceeds the schedule's percentage.
pub proof fn lemma_vested_fraction_monotone(d: DistributionType, t1: u64, t2: u64)
    requires
        t1 <= t2,
    ensures
        0 <= spec_vested_fraction(d, t1) <= spec_vested_fraction(d, t2) <= d.spec_percentage().value(),
{
    lemma_vested_fraction_bounded(d, t1);
    lemma_vested_fraction_bounded(d, t2);
    if let DistributionType::LinearVesting { percentage, start_time, end_time, cliff_duration } = d {
        if t1 >= start_time && t2 < end_time && !(cliff_duration matches Some(c) && t1 - start_time < c) {
            let p = percentage.value();
            let dur = end_time - start_time;
            assert(p * (t1 - start_time) <= p * (t2 - start_time)) by (nonlinear_arith)
                requires
                    p >= 0,
                    t1 <= t2,
            ;
            vstd::arithmetic::div_mod::lemma_div_is_ordered(p * (t1 - start_time), p * (t2 - start_time), dur);
        }
    }
}

/// A lump sum releases nothing before its start and its whole percentage
/// from its start on.
pub proof fn lemma_lump_sum_boundary(d: DistributionType)
    requires
        d is LumpSum,
        d.spec_start_time() > 0,
    ensures
        spec_vested_fraction(d, (d.spec_start_time() - 1) as u64) == 0,
        spec_vested_fraction(d, d.spec_start_time()) == d.spec_percentage().value(),
{
}

/// A linear schedule with a cliff releases nothing before the cliff has
/// passed, and from then on the linear share of the time elapsed since its
/// start.
pub proof fn lemma_cliff_boundary(d: DistributionType, now: u64)
    requires
        d matches DistributionType::LinearVesting { cliff_duration: Some(c), .. },
        now < d->LinearVesting_end_time,
    ensures
        ({
            let start = d.spec_start_time();
            let end = d->LinearVesting_end_time;
            let c = d->LinearVesting_cliff_duration->Some_0;
            let p = d.spec_percentage().value();
            &&& now < start + c ==> spec_vested_fraction(d, now) == 0
            &&& now >= start + c ==> spec_vested_fraction(d, now) == (p * (now - start)) / (end - start)
        }),
{
}

/// Each schedule's percentage is at most the list's sum.
proof fn lemma_percentage_le_sum(ds: Seq<DistributionType>, i: int)
    requires
        0 <= i < ds.len(),
    ensures
        ds[i].spec_percentage().value() <= percentage_sum(ds),
    decreases ds.len(),
{
    lemma_percentage_sum_nonneg(ds.drop_last());
    if i < ds.len() - 1 {
        lemma_percentage_le_sum(ds.drop_last(), i);
    }
}

proof fn lemma_percentage_sum_nonneg(ds: Seq<DistributionType>)
    ensures
        percentage_sum(ds) >= 0,
    decreases ds.len(),
{
    if ds.len() > 0 {
        lemma_percentage_sum_nonneg(ds.drop_last());
    }
}

/// What a schedule list has released never shrinks as time goes on, and
/// never exceeds the sum of its percentages.
pub proof fn lemma_vested_sum_monotone(ds: Seq<DistributionType>, t1: u64, t2: u64)
    requires
        t1 <= t2,
    ensures
        0 <= vested_sum(ds, t1) <= vested_sum(ds, t2) <= percentage_sum(ds),
    decreases ds.len(),
{
    if ds.len() > 0 {
        lemma_vested_sum_monotone(ds.drop_last(), t1, t2);
        lemma_vested_fraction_monotone(ds.last(), t1, t2);
    }
}

/// Sums what every schedule of the campaign has released at `now`.
pub fn total_vested_fraction(ds: &Vec<DistributionType>, now: u64) -> (r: Decimal)
    requires
        percentage_sum(ds@) <= DECIMAL_FRACTIONAL,
    ensures
        r.value() == vested_sum(ds@, now),
        r.atomics <= DECIMAL_FRACTIONAL,
{
    let mut total = Decimal::zero();
    let mut i: usize = 0;
    while i < ds.len()
        invariant
            i <= ds@.len(),
            percentage_sum(ds@) <= DECIMAL_FRACTIONAL,
            total.value() == vested_sum(ds@.subrange(0, i as int), now),
            vested_sum(ds@.subrange(0, i as int), now) <= percentage_sum(ds@.subrange(0, i as int)),
        decreases ds@.len() - i,
    {
        proof {
            let pre = ds@.subrange(0, i + 1);
            assert(pre.drop_last() =~= ds@.subrange(0, i as int));
            crate::msg::lemma_percentage_sum_prefix_bound(ds@, i + 1);
            lemma_percentage_le_sum(ds@, i as int);
            lemma_vested_fraction_bounded(ds@[i as int], now);
            lemma_percentage_sum_nonneg(ds@.subrange(0, i as int));
        }
        let f = vested_fraction(&ds[i], now);
        total = Decimal::raw(total.atomics + f.atomics);
        i = i + 1;
    }
    assert(ds@.subrange(0, i as int) =~= ds@);
    proof {
        lemma_vested_sum_monotone(ds@, now, now);
    }
    total
}

/// Splits an allocation at `now` into what is still locked (`pending`) and
/// what may be withdrawn (`available`): the vested amount is
/// `floor(allocation * vested / 100%)`, `pending` is the allocation less the
/// vested amount, and `available` is the vested amount less what was already
/// claimed, never below zero.
pub fn compute_claimable(campaign: &Campaign, allocation: u128, claimed: u128, now: u64) -> (r: (u128, u128))
    requires
        percentage_sum(campaign.distribution_type@) <= DECIMAL_FRACTIONAL,
    ensures
        r.0 == allocation - vested_amount(campaign.distribution_type@, allocation, now),
        r.1 == available_amount(campaign.distribution_type@, allocation, claimed, now),
        vested_amount(campaign.distribution_type@, allocation, now) <= allocation,
{
    let vested_fraction = total_vested_fraction(&campaign.distribution_type, now);
    let vested = mul_floor(allocation, vested_fraction);
    let pending = allocation - vested;
    let available = if vested > claimed {
        vested - claimed
    } else {
        0
    };
    (pending, available)
}

/// With nothing claimed in between, what an address may withdraw never
/// shrinks as time goes on.
pub proof fn lemma_available_monotone(ds: Seq<DistributionType>, allocation: u128, claimed: u128, t1: u64, t2: u64)
    requires
        t1 <= t2,
        percentage_sum(ds) <= DECIMAL_FRACTIONAL,
    ensures
        available_amount(ds, allocation, claimed, t1) <= available_amount(ds, allocation, claimed, t2),
        vested_amount(ds, allocation, t1) <= vested_amount(ds, allocation, t2),
{
    lemma_vested_sum_monotone(ds, t1, t2);
    let a = allocation as int;
    let v1 = vested_sum(ds, t1);
    let v2 = vested_sum(ds, t2);
    assert(a * v1 <= a * v2) by (nonlinear_arith)
        requires
            a >= 0,
            v1 <= v2,
    ;
    vstd::arithmetic::div_mod::lemma_div_is_ordered(a * v1, a * v2, DECIMAL_FRACTIONAL as int);
}

} // verus!
