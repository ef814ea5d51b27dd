//! Position-token attributes and their merge rules.
//!
//! A staking position is a semi-fungible token whose attributes are an
//! immutable snapshot: every state-changing operation burns the presented
//! token and mints a fresh one. Two positions merge into one whose
//! reward-per-share is the stake-weighted, ceiling-rounded average of the
//! merged snapshots.

use vstd::prelude::*;

verus! {

/// The immutable attribute snapshot attached to a farm-position token.
#[derive(Clone, Copy, Debug, PartialEq, Eq, Structural)]
pub struct StakingFarmTokenAttributes {
    /// The reward-per-share accumulator of the owner's class at mint time.
    pub reward_per_share: u128,
    /// The cumulative reward folded back into the principal so far.
    pub compounded_reward: u128,
    /// The current principal of the position.
    pub current_farm_amount: u128,
}

/// The attributes of a time-locked unbonding receipt. It carries the burned
/// position's attributes so that a cancellation can reconstitute it.
#[derive(Clone, Copy, Debug, PartialEq, Eq, Structural)]
pub struct UnbondSftAttributes {
    /// First epoch at which the underlying funds may be released.
    pub unlock_epoch: u64,
    /// The attributes of the position burned at unstake time, scaled to the
    /// unstaked amount and with its reward-per-share snapshot refreshed.
    pub original_attributes: StakingFarmTokenAttributes,
}

/// A farm-position payment presented to or produced by an operation: the
/// host chain attests that the attributes belong to the token nonce.
#[derive(Clone, Copy, Debug, PartialEq, Eq, Structural)]
pub struct FarmTokenPayment {
    pub token_identifier: u64,
    pub token_nonce: u64,
    pub amount: u128,
    pub attributes: StakingFarmTokenAttributes,
}

/// An unbond-token payment, analogous to `FarmTokenPayment`.
#[derive(Clone, Copy, Debug, PartialEq, Eq, Structural)]
pub struct UnbondTokenPayment {
    pub token_identifier: u64,
    pub token_nonce: u64,
    pub amount: u128,
    pub attributes: UnbondSftAttributes,
}

/// Ceiling division of non-negative integers.
pub open spec fn ceil_div(a: int, b: int) -> int
    recommends
        b >= 1,
{
    (a + b - 1) / b
}

/// Sum of the principals of a sequence of snapshots.
pub open spec fn sum_amounts(s: Seq<StakingFarmTokenAttributes>) -> int
    decreases s.len(),
{
    if s.len() == 0 {
        0
    } else {
        sum_amounts(s.drop_last()) + s.last().current_farm_amount
    }
}

/// Sum of the compounded rewards of a sequence of snapshots.
pub open spec fn sum_compounded(s: Seq<StakingFarmTokenAttributes>) -> int
    decreases s.len(),
{
    if s.len() == 0 {
        0
    } else {
        sum_compounded(s.drop_last()) + s.last().compounded_reward
    }
}

/// Stake-weighted sum of the reward-per-share snapshots.
pub open spec fn weighted_rps_sum(s: Seq<StakingFarmTokenAttributes>) -> int
    decreases s.len(),
{
    if s.len() == 0 {
        0
    } else {
        weighted_rps_sum(s.drop_last()) + s.last().reward_per_share
            * s.last().current_farm_amount
    }
}

/// The merged snapshot of a sequence of position parts: principals and
/// compounded rewards add up, and the reward-per-share is the stake-weighted
/// average of the parts, rounded up.
pub open spec fn spec_merged_attributes(s: Seq<StakingFarmTokenAttributes>) -> StakingFarmTokenAttributes {
    StakingFarmTokenAttributes {
        reward_per_share: ceil_div(weighted_rps_sum(s), sum_amounts(s)) as u128,
        compounded_reward: sum_compounded(s) as u128,
        current_farm_amount: sum_amounts(s) as u128,
    }
}

/// The arithmetic room the merge needs: every partial sum fits in the
/// machine word.
pub open spec fn merge_fits(s: Seq<StakingFarmTokenAttributes>) -> bool {
    &&& sum_amounts(s) >= 1
    &&& sum_amounts(s) <= u128::MAX
    &&& sum_compounded(s) <= u128::MAX
    &&& weighted_rps_sum(s) + sum_amounts(s) <= u128::MAX
    &&& forall|i: int|
        0 <= i < s.len() ==> (#[trigger] s[i]).reward_per_share * s[i].current_farm_amount
            <= u128::MAX
}

/// A single part always merges: its sums are the part's own fields.
pub proof fn lemma_merge_fits_singleton(part: StakingFarmTokenAttributes)
    requires
        part.current_farm_amount >= 1,
        part.reward_per_share * part.current_farm_amount + part.current_farm_amount <= u128::MAX,
    ensures
        merge_fits(seq![part]),
        sum_amounts(seq![part]) == part.current_farm_amount,
        sum_compounded(seq![part]) == part.compounded_reward,
        weighted_rps_sum(seq![part]) == part.reward_per_share * part.current_farm_amount,
        spec_merged_attributes(seq![part]) == (StakingFarmTokenAttributes {
            reward_per_share: (ceil_div(
                part.reward_per_share * part.current_farm_amount,
                part.current_farm_amount as int,
            )) as u128,
            compounded_reward: part.compounded_reward,
            current_farm_amount: part.current_farm_amount,
        }),
{
    let s = seq![part];
    assert(s.drop_last() =~= Seq::<StakingFarmTokenAttributes>::empty());
    assert(sum_amounts(s.drop_last()) == 0);
    assert(sum_compounded(s.drop_last()) == 0);
    assert(weighted_rps_sum(s.drop_last()) == 0);
    assert(part.reward_per_share * part.current_farm_amount >= 0) by (nonlinear_arith);
}

/// Sums over a one-element prefix split off the head.
pub proof fn lemma_merge_sums_cons(a: StakingFarmTokenAttributes, s: Seq<StakingFarmTokenAttributes>)
    ensures
        sum_amounts(seq![a] + s) == a.current_farm_amount + sum_amounts(s),
        sum_compounded(seq![a] + s) == a.compounded_reward + sum_compounded(s),
        weighted_rps_sum(seq![a] + s) == a.reward_per_share * a.current_farm_amount
            + weighted_rps_sum(s),
    decreases s.len(),
{
    if s.len() == 0 {
        let whole = seq![a] + s;
        assert(whole =~= seq![a]);
        assert(whole.len() == 1 && whole.last() == a);
        assert(whole.drop_last() =~= Seq::<StakingFarmTokenAttributes>::empty());
        assert(sum_amounts(whole.drop_last()) == 0);
        assert(sum_compounded(whole.drop_last()) == 0);
        assert(weighted_rps_sum(whole.drop_last()) == 0);
    } else {
        let whole = seq![a] + s;
        assert(whole.len() == 1 + s.len());
        assert(whole.drop_last() =~= seq![a] + s.drop_last());
        assert(whole.last() == s.last());
        lemma_merge_sums_cons(a, s.drop_last());
        assert(sum_amounts(whole) == sum_amounts(whole.drop_last())
            + whole.last().current_farm_amount);
        assert(sum_amounts(s) == sum_amounts(s.drop_last()) + s.last().current_farm_amount);
        assert(sum_compounded(whole) == sum_compounded(whole.drop_last())
            + whole.last().compounded_reward);
        assert(sum_compounded(s) == sum_compounded(s.drop_last()) + s.last().compounded_reward);
        assert(weighted_rps_sum(whole) == weighted_rps_sum(whole.drop_last())
            + whole.last().reward_per_share * whole.last().current_farm_amount);
        assert(weighted_rps_sum(s) == weighted_rps_sum(s.drop_last()) + s.last().reward_per_share
            * s.last().current_farm_amount);
    }
}

/// Partial sums are bounded by the full sums.
proof fn lemma_merge_prefix_sums(s: Seq<StakingFarmTokenAttributes>, i: int)
    requires
        0 <= i <= s.len(),
        forall|k: int| 0 <= k < s.len() ==> (#[trigger] s[k]).current_farm_amount >= 0,
    ensures
        sum_amounts(s.take(i)) <= sum_amounts(s),
        sum_compounded(s.take(i)) <= sum_compounded(s),
        weighted_rps_sum(s.take(i)) <= weighted_rps_sum(s),
        sum_amounts(s.take(i)) >= 0,
        sum_compounded(s.take(i)) >= 0,
        weighted_rps_sum(s.take(i)) >= 0,
    decreases s.len() - i,
{
    if i == s.len() {
        assert(s.take(i) == s);
        lemma_merge_sums_nonneg(s);
    } else {
        lemma_merge_prefix_sums(s, i + 1);
        lemma_merge_sums_nonneg(s.take(i));
        assert(s.take(i + 1).drop_last() == s.take(i));
        assert(s.take(i + 1).last() == s[i]);
    }
}

proof fn lemma_merge_sums_nonneg(s: Seq<StakingFarmTokenAttributes>)
    ensures
        sum_amounts(s) >= 0,
        sum_compounded(s) >= 0,
        weighted_rps_sum(s) >= 0,
    decreases s.len(),
{
    if s.len() > 0 {
        lemma_merge_sums_nonneg(s.drop_last());
    }
}

/// Merges a list of position parts into one snapshot. Preserves the total
/// principal and compounded reward exactly, and gives the merged position the
/// stake-weighted, ceiling-rounded average of the parts' reward-per-share
/// snapshots.
pub fn merge_attributes(parts: &Vec<StakingFarmTokenAttributes>) -> (r: StakingFarmTokenAttributes)
    requires
        merge_fits(parts@),
    ensures
        r == spec_merged_attributes(parts@),
        r.current_farm_amount == sum_amounts(parts@),
        r.compounded_reward == sum_compounded(parts@),
{
    let n = parts.len();
    let mut total: u128 = 0;
    let mut compounded: u128 = 0;
    let mut weighted: u128 = 0;
    let mut i: usize = 0;
    proof {
        assert(parts@.take(0) =~= Seq::<StakingFarmTokenAttributes>::empty());
    }
    while i < n
        invariant
            0 <= i <= n,
            n == parts@.len(),
            merge_fits(parts@),
            total == sum_amounts(parts@.take(i as int)),
            compounded == sum_compounded(parts@.take(i as int)),
            weighted == weighted_rps_sum(parts@.take(i as int)),
        decreases n - i,
    {
        let p = parts[i];
        proof {
            lemma_merge_prefix_sums(parts@, i + 1);
            assert(parts@.take(i + 1).drop_last() == parts@.take(i as int));
            assert(parts@.take(i + 1).last() == parts@[i as int]);
        }
        total = total + p.current_farm_amount;
        compounded = compounded + p.compounded_reward;
        weighted = weighted + p.reward_per_share * p.current_farm_amount;
        i += 1;
    }
    proof {
        assert(parts@.take(n as int) == parts@);
    }
    let rps = (weighted + (total - 1)) / total;
    StakingFarmTokenAttributes {
        reward_per_share: rps,
        compounded_reward: compounded,
        current_farm_amount: total,
    }
}

/// The part of a snapshot that an `amount`-sized slice of the position
/// carries: the compounded reward scales down proportionally (rounded down)
/// and the principal becomes the slice itself.
pub open spec fn spec_scaled_attributes(
    attrs: StakingFarmTokenAttributes,
    amount: u128,
) -> StakingFarmTokenAttributes {
    StakingFarmTokenAttributes {
        reward_per_share: attrs.reward_per_share,
        compounded_reward: (attrs.compounded_reward * amount
            / (attrs.current_farm_amount as int)) as u128,
        current_farm_amount: amount,
    }
}

/// Scales a snapshot to the presented slice of the position.
pub fn scale_attributes(attrs: &StakingFarmTokenAttributes, amount: u128) -> (r: StakingFarmTokenAttributes)
    requires
        attrs.current_farm_amount >= 1,
        amount <= attrs.current_farm_amount,
        attrs.compounded_reward * amount <= u128::MAX,
    ensures
        r == spec_scaled_attributes(*attrs, amount),
        r.compounded_reward <= attrs.compounded_reward,
        attrs.compounded_reward <= attrs.current_farm_amount ==> r.compounded_reward <= amount,
{
    let scaled_compounded = attrs.compounded_reward * amount / attrs.current_farm_amount;
    proof {
        lemma_scale_bounds(
            attrs.compounded_reward as int,
            amount as int,
            attrs.current_farm_amount as int,
        );
    }
    StakingFarmTokenAttributes {
        reward_per_share: attrs.reward_per_share,
        compounded_reward: scaled_compounded,
        current_farm_amount: amount,
    }
}

/// A proportional slice rounds down below both factors: `c * a / f <= c`
/// when `a <= f`, and `c * a / f <= a` when additionally `c <= f`.
pub proof fn lemma_scale_bounds(c: int, a: int, f: int)
    requires
        f >= 1,
        0 <= a <= f,
        c >= 0,
    ensures
        c * a / f <= c,
        c <= f ==> c * a / f <= a,
{
    vstd::arithmetic::mul::lemma_mul_inequality(a, f, c);
    assert(a * c == c * a) by (nonlinear_arith);
    assert(f * c == c * f) by (nonlinear_arith);
    vstd::arithmetic::div_mod::lemma_div_is_ordered(c * a, c * f, f);
    vstd::arithmetic::div_mod::lemma_div_by_multiple(c, f);
    assert(c * f == f * c) by (nonlinear_arith);
    if c <= f {
        vstd::arithmetic::mul::lemma_mul_inequality(c, f, a);
        assert(c * a == a * c && f * a == a * f) by (nonlinear_arith);
        vstd::arithmetic::div_mod::lemma_div_is_ordered(c * a, a * f, f);
        vstd::arithmetic::div_mod::lemma_div_by_multiple(a, f);
    }
}

} // verus!
