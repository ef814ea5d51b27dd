//! Claiming staking rewards.
//!
//! A claim runs one emission round, computes the reward owed to the
//! presented position from the growth of its class accumulator since the
//! position's snapshot, pays it from the reward reserve, and mints a
//! replacement position token with a refreshed snapshot. A whitelisted
//! migration path may at the same time replace the position's principal by a
//! new value, adjusting the ledger by the difference.

use vstd::prelude::*;
use crate::config::GuildConfig;
use crate::errors::GuildError;
use crate::guild::Guild;
use crate::rewards::{
    generate_fits, mint_tier_error, spec_calculate_rewards, spec_generated, FarmStakingWrapper,
    StorageCache,
};
use crate::stake_farm::valid_farm_payments;
use crate::token_attributes::{
    merge_fits, scale_attributes, spec_merged_attributes, spec_scaled_attributes,
    FarmTokenPayment, StakingFarmTokenAttributes,
};
use crate::total_tokens::TotalTokens;

verus! {

/// The presented position tokens, each scaled to its presented amount.
pub open spec fn spec_claim_parts(payments: Seq<FarmTokenPayment>) -> Seq<
    StakingFarmTokenAttributes,
> {
    payments.map(|i: int, p: FarmTokenPayment| spec_scaled_attributes(p.attributes, p.amount))
}

/// The one position a claim works on: the presented tokens merged.
pub open spec fn spec_claim_merged(payments: Seq<FarmTokenPayment>) -> StakingFarmTokenAttributes {
    spec_merged_attributes(spec_claim_parts(payments))
}

/// The reward a claim pays: the merged position size times the growth of the
/// caller's class accumulator over the merged snapshot, after the emission
/// round of this call.
pub open spec fn spec_claim_reward(
    g: Guild,
    cfg: GuildConfig,
    block: u64,
    received: u128,
    caller: u64,
    payments: Seq<FarmTokenPayment>,
) -> int {
    let gen = spec_generated(g, cfg, block, received);
    let merged = spec_claim_merged(payments);
    spec_calculate_rewards(
        merged.current_farm_amount,
        gen.rps_of(caller),
        merged.reward_per_share,
        g.division_safety_constant,
    )
}

/// A single presented token satisfies the claim's merge obligation as soon
/// as its amounts are positive and its weighting fits the machine word.
pub proof fn lemma_claim_parts_single(p: FarmTokenPayment)
    requires
        1 <= p.attributes.current_farm_amount,
        1 <= p.amount,
        p.attributes.compounded_reward * p.amount <= u128::MAX,
        p.attributes.reward_per_share * p.amount + p.amount <= u128::MAX,
    ensures
        merge_fits(spec_claim_parts(seq![p])),
        spec_claim_merged(seq![p]).current_farm_amount == p.amount,
        spec_claim_merged(seq![p]).reward_per_share == p.attributes.reward_per_share,
{
    let scaled = spec_scaled_attributes(p.attributes, p.amount);
    assert(scaled.compounded_reward <= u128::MAX) by {
        vstd::arithmetic::div_mod::lemma_div_nonincreasing(
            p.attributes.compounded_reward * p.amount,
            p.attributes.current_farm_amount as int,
        );
        assert(p.attributes.compounded_reward * p.amount >= 0) by (nonlinear_arith);
    }
    assert(spec_claim_parts(seq![p]) =~= seq![scaled]);
    crate::token_attributes::lemma_merge_fits_singleton(scaled);
    assert(spec_claim_merged(seq![p]).reward_per_share == (crate::token_attributes::ceil_div(
        p.attributes.reward_per_share * p.amount,
        p.amount as int,
    )) as u128);
    vstd::arithmetic::div_mod::lemma_div_by_multiple(
        p.attributes.reward_per_share as int,
        p.amount as int,
    );
    assert((p.attributes.reward_per_share * p.amount + p.amount - 1) / (p.amount as int)
        == p.attributes.reward_per_share) by {
        vstd::arithmetic::div_mod::lemma_fundamental_div_mod_converse(
            p.attributes.reward_per_share * p.amount + p.amount - 1,
            p.amount as int,
            p.attributes.reward_per_share as int,
            p.amount - 1,
        );
    }
}

/// The arithmetic and validity room a claim needs.
pub open spec fn claim_fits(
    g: Guild,
    cfg: GuildConfig,
    block: u64,
    received: u128,
    caller: u64,
    payments: Seq<FarmTokenPayment>,
    opt_new_farming_amount: Option<u128>,
) -> bool {
    let gen = spec_generated(g, cfg, block, received);
    let merged = spec_claim_merged(payments);
    let sum = merged.current_farm_amount;
    &&& merge_fits(spec_claim_parts(payments))
    &&& (gen.rps_of(caller) > merged.reward_per_share ==> sum * (gen.rps_of(caller)
        - merged.reward_per_share) <= u128::MAX)
    &&& spec_claim_reward(g, cfg, block, received, caller, payments) <= gen.reward_reserve
    &&& (opt_new_farming_amount matches Some(new_amount) ==> {
        &&& sum <= gen.farm_token_supply
        &&& gen.farm_token_supply - sum + new_amount <= u128::MAX
        &&& (new_amount > sum ==> {
            &&& g.staked_total() + (new_amount - sum) <= u128::MAX
            &&& g.spec_tokens_of(caller).spec_total() + (new_amount - sum) <= u128::MAX
        })
        &&& (new_amount < sum ==> {
            &&& sum - new_amount <= g.spec_tokens_of(caller).base
            &&& sum - new_amount <= g.total_base_staked_tokens
        })
    })
}

/// Claims the rewards of the presented position tokens for
/// `original_caller` and mints the replacement position token. The reward is
/// exactly the merged position size times the accumulator growth since the
/// merged snapshot, scaled down by the division safety constant; the
/// replacement snapshot is the live accumulator, so claiming twice in one
/// block pays nothing the second time. With a new farming amount (the
/// whitelisted migration path) the principal is rewritten and the ledger
/// adjusted by the difference. Any failure leaves the guild unchanged.
pub fn claim_rewards_common(
    g: &mut Guild,
    cfg: &GuildConfig,
    current_block_nonce: u64,
    current_epoch: u64,
    original_caller: u64,
    payments: &Vec<FarmTokenPayment>,
    opt_new_farming_amount: Option<u128>,
    received_rewards: u128,
) -> (r: Result<(FarmTokenPayment, u128), GuildError>)
    requires
        old(g).wf(),
        cfg.wf(),
        generate_fits(*old(g), current_block_nonce, received_rewards),
        valid_farm_payments(*old(g), payments@),
        payments@.len() >= 1,
        old(g).next_farm_token_nonce < u64::MAX,
        claim_fits(
            *old(g),
            *cfg,
            current_block_nonce,
            received_rewards,
            original_caller,
            payments@,
            opt_new_farming_amount,
        ),
    ensures
        final(g).wf(),
        r is Err <==> old(g).first_week_start_epoch > current_epoch || mint_tier_error(
            *old(g),
            *cfg,
            current_block_nonce,
        ),
        r is Err ==> *final(g) == *old(g),
        old(g).first_week_start_epoch > current_epoch ==> r == Result::<
            (FarmTokenPayment, u128),
            GuildError,
        >::Err(GuildError::CannotClaimYet),
        r is Err && old(g).first_week_start_epoch <= current_epoch ==> r == Result::<
            (FarmTokenPayment, u128),
            GuildError,
        >::Err(GuildError::TierNotFound),
        r matches Ok((token, reward)) ==> {
            let gen = spec_generated(*old(g), *cfg, current_block_nonce, received_rewards);
            let merged = spec_claim_merged(payments@);
            let sum = merged.current_farm_amount;
            let final_amount = if opt_new_farming_amount is Some {
                opt_new_farming_amount.unwrap()
            } else {
                sum
            };
            &&& reward == spec_claim_reward(
                *old(g),
                *cfg,
                current_block_nonce,
                received_rewards,
                original_caller,
                payments@,
            )
            &&& token == (FarmTokenPayment {
                token_identifier: old(g).farm_token_id,
                token_nonce: old(g).next_farm_token_nonce,
                amount: final_amount,
                attributes: StakingFarmTokenAttributes {
                    reward_per_share: gen.rps_of(original_caller),
                    compounded_reward: merged.compounded_reward,
                    current_farm_amount: final_amount,
                },
            })
            &&& final(g).spec_tokens_of(original_caller) == (TotalTokens {
                base: (old(g).spec_tokens_of(original_caller).base + final_amount - sum) as u128,
                compounded: old(g).spec_tokens_of(original_caller).compounded,
            })
            &&& (forall|u: u64|
                u != original_caller ==> final(g).spec_tokens_of(u) == old(g).spec_tokens_of(u))
            &&& *final(g) == (Guild {
                farm_token_supply: (gen.farm_token_supply + final_amount - sum) as u128,
                total_base_staked_tokens: (gen.total_base_staked_tokens + final_amount
                    - sum) as u128,
                reward_reserve: (gen.reward_reserve - reward) as u128,
                next_farm_token_nonce: (old(g).next_farm_token_nonce + 1) as u64,
                last_reward_block_nonce: gen.last_reward_block_nonce,
                accumulated_rewards: gen.accumulated_rewards,
                reward_capacity: gen.reward_capacity,
                guild_master_rps: gen.guild_master_rps,
                user_rps: gen.user_rps,
                guild_master_tokens: final(g).guild_master_tokens,
                user_tokens: final(g).user_tokens,
                ..*old(g)
            })
        },
        final(g).guild_master_rps >= old(g).guild_master_rps,
        final(g).user_rps >= old(g).user_rps,
        old(g).tokens_balanced() && r is Ok ==> final(g).tokens_balanced(),
{
    if g.first_week_start_epoch > current_epoch {
        return Err(GuildError::CannotClaimYet);
    }

    let mut storage_cache = StorageCache::new(g);
    match FarmStakingWrapper::generate_aggregated_rewards(
        g,
        cfg,
        &mut storage_cache,
        current_block_nonce,
        received_rewards,
    ) {
        Ok(()) => {},
        Err(e) => {
            return Err(e);
        },
    }

    // Merge the presented tokens into one virtual position.
    let ghost spec_parts = spec_claim_parts(payments@);
    let mut parts: Vec<StakingFarmTokenAttributes> = Vec::new();
    let n = payments.len();
    let mut i: usize = 0;
    #[verifier::loop_isolation(false)]
    while i < n
        invariant
            0 <= i <= n,
            parts@.len() == i,
            forall|k: int| 0 <= k < i ==> #[trigger] parts@[k] == spec_parts[k],
        decreases n - i,
    {
        let p = payments[i];
        let scaled = scale_attributes(&p.attributes, p.amount);
        parts.push(scaled);
        i += 1;
    }
    proof {
        assert(parts@ =~= spec_parts);
    }
    let merged = crate::token_attributes::merge_attributes(&parts);

    proof {
        let gen = spec_generated(*old(g), *cfg, current_block_nonce, received_rewards);
        assert(merged == spec_claim_merged(payments@));
        let srps: u128 = if original_caller == g.guild_master {
            storage_cache.guild_master_rps
        } else {
            storage_cache.user_rps
        };
        assert(srps == gen.rps_of(original_caller));
        if srps > merged.reward_per_share {
            assert(merged.current_farm_amount * (srps - merged.reward_per_share) <= u128::MAX);
        } else {
            assert(merged.current_farm_amount * (srps - merged.reward_per_share) <= 0)
                by (nonlinear_arith)
                requires
                    merged.current_farm_amount >= 0,
                    srps - merged.reward_per_share <= 0,
            ;
        }
    }
    let reward = FarmStakingWrapper::calculate_rewards(
        g,
        original_caller,
        merged.current_farm_amount,
        &merged,
        &storage_cache,
    );
    storage_cache.reward_reserve = storage_cache.reward_reserve - reward;

    let current_rps = storage_cache.get_rps_by_user(g, original_caller);
    let mut virtual_attributes = FarmStakingWrapper::create_claim_rewards_initial_attributes(
        merged,
        current_rps,
    );
    let mut token_amount = merged.current_farm_amount;

    if let Some(new_amount) = opt_new_farming_amount {
        if new_amount != token_amount {
            if new_amount > token_amount {
                let diff = new_amount - token_amount;
                g.total_base_staked_tokens = g.total_base_staked_tokens + diff;
                g.add_tokens(original_caller, &TotalTokens::new_base(diff));
            } else {
                let diff = token_amount - new_amount;
                g.remove_total_base_staked_tokens(diff);
                g.remove_tokens(original_caller, &TotalTokens::new_base(diff));
            }
        }
        storage_cache.farm_token_supply = storage_cache.farm_token_supply - token_amount
            + new_amount;
        virtual_attributes = StakingFarmTokenAttributes {
            current_farm_amount: new_amount,
            ..virtual_attributes
        };
        token_amount = new_amount;
    }

    storage_cache.flush(g);
    let token_nonce = g.next_farm_token_nonce;
    g.next_farm_token_nonce = g.next_farm_token_nonce + 1;
    Ok(
        (
            FarmTokenPayment {
                token_identifier: g.farm_token_id,
                token_nonce,
                amount: token_amount,
                attributes: virtual_attributes,
            },
            reward,
        ),
    )
}

/// The ordinary claim endpoint: no principal rewrite.
pub fn claim_rewards(
    g: &mut Guild,
    cfg: &GuildConfig,
    current_block_nonce: u64,
    current_epoch: u64,
    original_caller: u64,
    payments: &Vec<FarmTokenPayment>,
    received_rewards: u128,
) -> (r: Result<(FarmTokenPayment, u128), GuildError>)
    requires
        old(g).wf(),
        cfg.wf(),
        generate_fits(*old(g), current_block_nonce, received_rewards),
        valid_farm_payments(*old(g), payments@),
        payments@.len() >= 1,
        old(g).next_farm_token_nonce < u64::MAX,
        claim_fits(
            *old(g),
            *cfg,
            current_block_nonce,
            received_rewards,
            original_caller,
            payments@,
            Option::<u128>::None,
        ),
    ensures
        final(g).wf(),
        r is Err <==> old(g).first_week_start_epoch > current_epoch || mint_tier_error(
            *old(g),
            *cfg,
            current_block_nonce,
        ),
        r is Err ==> *final(g) == *old(g),
        r matches Ok((token, reward)) ==> reward == spec_claim_reward(
            *old(g),
            *cfg,
            current_block_nonce,
            received_rewards,
            original_caller,
            payments@,
        ) && token.attributes.reward_per_share == spec_generated(
            *old(g),
            *cfg,
            current_block_nonce,
            received_rewards,
        ).rps_of(original_caller) && token.amount == spec_claim_merged(
            payments@,
        ).current_farm_amount,
        final(g).guild_master_rps >= old(g).guild_master_rps,
        final(g).user_rps >= old(g).user_rps,
        old(g).tokens_balanced() && r is Ok ==> final(g).tokens_balanced(),
{
    claim_rewards_common(
        g,
        cfg,
        current_block_nonce,
        current_epoch,
        original_caller,
        payments,
        None,
        received_rewards,
    )
}

/// The migration claim: a whitelisted contract replaces the position's
/// principal by a new farming amount while claiming. The whitelist check
/// itself is the host's cross-cutting gate.
pub fn claim_rewards_with_new_value(
    g: &mut Guild,
    cfg: &GuildConfig,
    current_block_nonce: u64,
    current_epoch: u64,
    new_farming_amount: u128,
    original_caller: u64,
    payments: &Vec<FarmTokenPayment>,
    received_rewards: u128,
) -> (r: Result<(FarmTokenPayment, u128), GuildError>)
    requires
        old(g).wf(),
        cfg.wf(),
        generate_fits(*old(g), current_block_nonce, received_rewards),
        valid_farm_payments(*old(g), payments@),
        payments@.len() >= 1,
        old(g).next_farm_token_nonce < u64::MAX,
        claim_fits(
            *old(g),
            *cfg,
            current_block_nonce,
            received_rewards,
            original_caller,
            payments@,
            Some(new_farming_amount),
        ),
    ensures
        final(g).wf(),
        r is Err <==> old(g).first_week_start_epoch > current_epoch || mint_tier_error(
            *old(g),
            *cfg,
            current_block_nonce,
        ),
        r is Err ==> *final(g) == *old(g),
        r matches Ok((token, reward)) ==> token.amount == new_farming_amount
            && token.attributes.current_farm_amount == new_farming_amount && reward
            == spec_claim_reward(
            *old(g),
            *cfg,
            current_block_nonce,
            received_rewards,
            original_caller,
            payments@,
        ),
        final(g).guild_master_rps >= old(g).guild_master_rps,
        final(g).user_rps >= old(g).user_rps,
        old(g).tokens_balanced() && r is Ok ==> final(g).tokens_balanced(),
{
    claim_rewards_common(
        g,
        cfg,
        current_block_nonce,
        current_epoch,
        original_caller,
        payments,
        Some(new_farming_amount),
        received_rewards,
    )
}

} // verus!
