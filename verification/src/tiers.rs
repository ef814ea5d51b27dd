//! Reward tiers and the tier lookup.
//!
//! A tier table is an ordered list owned by the shared configuration
//! registry; a lookup scans it linearly and returns the first tier whose
//! inclusive `[min_stake, max_stake]` range contains the staked amount.

use vstd::prelude::*;
use crate::errors::GuildError;

verus! {

/// The reward-percentage denominator: an APR of `MAX_PERCENT` is 100%.
pub const MAX_PERCENT: u64 = 10_000;

/// Blocks produced in one year, at one block every six seconds.
pub const BLOCKS_IN_YEAR: u64 = 31_536_000 / 6;

#[derive(Clone, Copy, Debug, PartialEq, Eq, Structural)]
pub struct RewardTier {
    pub min_stake: u128,
    pub max_stake: u128,
    pub apr: u64,
}

/// Inclusive-range containment: a stake equal to either bound matches.
pub open spec fn tier_matches(tier: RewardTier, amount: u128) -> bool {
    tier.min_stake <= amount && amount <= tier.max_stake
}

/// Whether some tier of the table contains the amount.
pub open spec fn some_tier_matches(tiers: Seq<RewardTier>, amount: u128) -> bool {
    exists|i: int| 0 <= i < tiers.len() && tier_matches(#[trigger] tiers[i], amount)
}

/// The index of the first tier of the table that contains the amount.
pub open spec fn first_matching_tier(tiers: Seq<RewardTier>, amount: u128) -> int
    decreases tiers.len(),
{
    if tiers.len() == 0 {
        0
    } else if tier_matches(tiers[0], amount) {
        0
    } else {
        1 + first_matching_tier(tiers.drop_first(), amount)
    }
}

/// The first tier of the table whose inclusive range contains the amount;
/// `TierNotFound` exactly when no tier does. A missing tier aborts the whole
/// transaction: tier tables must be fully populated before positions exist.
pub fn find_tier_common(tiers: &Vec<RewardTier>, base_farming_amount: u128) -> (r: Result<
    RewardTier,
    GuildError,
>)
    ensures
        r is Ok <==> some_tier_matches(tiers@, base_farming_amount),
        r matches Ok(t) ==> {
            let j = first_matching_tier(tiers@, base_farming_amount);
            &&& 0 <= j < tiers@.len()
            &&& t == tiers@[j]
            &&& tier_matches(t, base_farming_amount)
            &&& forall|i: int| 0 <= i < j ==> !tier_matches(#[trigger] tiers@[i], base_farming_amount)
        },
        r is Err ==> r == Result::<RewardTier, GuildError>::Err(GuildError::TierNotFound),
{
    let n = tiers.len();
    let mut i: usize = 0;
    while i < n
        invariant
            0 <= i <= n,
            n == tiers@.len(),
            forall|k: int| 0 <= k < i ==> !tier_matches(#[trigger] tiers@[k], base_farming_amount),
        decreases n - i,
    {
        let tier = tiers[i];
        if tier.min_stake <= base_farming_amount && base_farming_amount <= tier.max_stake {
            proof {
                lemma_first_matching_tier_of_prefix(tiers@, base_farming_amount, i as int);
            }
            return Ok(tier);
        }
        i += 1;
    }
    Err(GuildError::TierNotFound)
}

/// If every tier before `j` misses the amount and tier `j` contains it, then
/// `j` is the first matching index.
proof fn lemma_first_matching_tier_of_prefix(tiers: Seq<RewardTier>, amount: u128, j: int)
    requires
        0 <= j < tiers.len(),
        tier_matches(tiers[j], amount),
        forall|k: int| 0 <= k < j ==> !tier_matches(#[trigger] tiers[k], amount),
    ensures
        first_matching_tier(tiers, amount) == j,
    decreases j,
{
    if j == 0 {
    } else {
        assert(!tier_matches(tiers[0], amount));
        assert(tiers.drop_first()[j - 1] == tiers[j]);
        assert(forall|k: int|
            0 <= k < j - 1 ==> #[trigger] tiers.drop_first()[k] == tiers[k + 1]);
        lemma_first_matching_tier_of_prefix(tiers.drop_first(), amount, j - 1);
    }
}

/// Boundary inclusiveness of the lookup: for a stake exactly equal to the
/// `min_stake` or the `max_stake` of a non-degenerate tier of the table, the
/// lookup succeeds, and whatever tier it returns contains that stake
/// inclusively.
pub proof fn lemma_tier_lookup_boundary_inclusive(tiers: Seq<RewardTier>, i: int)
    requires
        0 <= i < tiers.len(),
        tiers[i].min_stake <= tiers[i].max_stake,
    ensures
        some_tier_matches(tiers, tiers[i].min_stake),
        some_tier_matches(tiers, tiers[i].max_stake),
        tier_matches(tiers[first_matching_tier(tiers, tiers[i].min_stake)], tiers[i].min_stake),
        tier_matches(tiers[first_matching_tier(tiers, tiers[i].max_stake)], tiers[i].max_stake),
        0 <= first_matching_tier(tiers, tiers[i].min_stake) < tiers.len(),
        0 <= first_matching_tier(tiers, tiers[i].max_stake) < tiers.len(),
    {
        assert(tier_matches(tiers[i], tiers[i].min_stake));
        assert(tier_matches(tiers[i], tiers[i].max_stake));
        lemma_first_matching_tier_matches(tiers, tiers[i].min_stake);
        lemma_first_matching_tier_matches(tiers, tiers[i].max_stake);
    }

/// When some tier matches, the first-matching index is in range and its tier
/// matches.
pub proof fn lemma_first_matching_tier_matches(tiers: Seq<RewardTier>, amount: u128)
    requires
        some_tier_matches(tiers, amount),
    ensures
        0 <= first_matching_tier(tiers, amount) < tiers.len(),
        tier_matches(tiers[first_matching_tier(tiers, amount)], amount),
    decreases tiers.len(),
{
    if tiers.len() > 0 {
        if tier_matches(tiers[0], amount) {
        } else {
            let sub = tiers.drop_first();
            let w = choose|i: int| 0 <= i < tiers.len() && tier_matches(#[trigger] tiers[i], amount);
            assert(sub[w - 1] == tiers[w]);
            assert(some_tier_matches(sub, amount));
            lemma_first_matching_tier_matches(sub, amount);
            assert(tiers[1 + first_matching_tier(sub, amount)]
                == sub[first_matching_tier(sub, amount)]);
        }
    }
}

/// Replaces the APR of every tier of the table whose `max_stake` equals the
/// given bound; the tier bounds themselves are immutable once published.
pub fn set_tier_apr(tiers: &mut Vec<RewardTier>, max_stake: u128, new_apr: u64)
    ensures
        final(tiers)@.len() == old(tiers)@.len(),
        forall|i: int|
            0 <= i < old(tiers)@.len() ==> #[trigger] final(tiers)@[i] == if old(
                tiers,
            )@[i].max_stake == max_stake {
                RewardTier { apr: new_apr, ..old(tiers)@[i] }
            } else {
                old(tiers)@[i]
            },
{
    let n = tiers.len();
    let mut i: usize = 0;
    while i < n
        invariant
            0 <= i <= n,
            n == tiers@.len(),
            tiers@.len() == old(tiers)@.len(),
            forall|k: int|
                i <= k < n ==> #[trigger] tiers@[k] == old(tiers)@[k],
            forall|k: int|
                0 <= k < i ==> #[trigger] tiers@[k] == if old(tiers)@[k].max_stake == max_stake {
                    RewardTier { apr: new_apr, ..old(tiers)@[k] }
                } else {
                    old(tiers)@[k]
                },
        decreases n - i,
    {
        if tiers[i].max_stake == max_stake {
            let t = tiers[i];
            tiers.set(i, RewardTier { apr: new_apr, ..t });
        }
        i += 1;
    }
}

} // verus!
