//! The rest of the position lifecycle: compounding, unstaking, unbonding,
//! cancelling an unbond, and closing a guild.
//!
//! An unstake moves the principal into a time-locked unbond token; the
//! receipt carries the burned position's snapshot so that a cancellation can
//! reconstitute the position and restore the ledger exactly. Unbonding
//! releases the funds once the tier-resolved delay has elapsed.

use vstd::arithmetic::div_mod::{lemma_div_by_multiple, lemma_div_is_ordered};
use vstd::prelude::*;
use crate::config::GuildConfig;
use crate::errors::GuildError;
use crate::factory::{swap_remove_value, Factory};
use crate::guild::Guild;
use crate::rewards::{
    generate_fits, mint_tier_error, spec_calculate_rewards, spec_generated, FarmStakingWrapper,
    StorageCache,
};
use crate::token_attributes::{
    lemma_scale_bounds, spec_scaled_attributes, FarmTokenPayment, StakingFarmTokenAttributes,
    UnbondSftAttributes, UnbondTokenPayment,
};
use crate::total_tokens::TotalTokens;

verus! {

/// Validity of one presented position token.
pub open spec fn valid_farm_payment(g: Guild, p: FarmTokenPayment) -> bool {
    &&& p.token_identifier == g.farm_token_id
    &&& 1 <= p.attributes.current_farm_amount
    &&& 1 <= p.amount <= p.attributes.current_farm_amount
    &&& p.attributes.compounded_reward * p.amount <= u128::MAX
}

/// The reward owed to a single presented position after this call's
/// emission round.
pub open spec fn spec_position_reward(
    g: Guild,
    cfg: GuildConfig,
    block: u64,
    received: u128,
    caller: u64,
    p: FarmTokenPayment,
) -> int {
    spec_calculate_rewards(
        p.amount,
        spec_generated(g, cfg, block, received).rps_of(caller),
        p.attributes.reward_per_share,
        g.division_safety_constant,
    )
}

/// Shared arithmetic room of the single-position reward operations.
pub open spec fn position_reward_fits(
    g: Guild,
    cfg: GuildConfig,
    block: u64,
    received: u128,
    caller: u64,
    p: FarmTokenPayment,
) -> bool {
    let gen = spec_generated(g, cfg, block, received);
    &&& (gen.rps_of(caller) > p.attributes.reward_per_share ==> p.amount * (gen.rps_of(caller)
        - p.attributes.reward_per_share) <= u128::MAX)
    &&& spec_position_reward(g, cfg, block, received, caller, p) <= gen.reward_reserve
}

/// Compounds the pending reward of the presented position: the reward is
/// claimed from the reserve and folded into both the position's principal
/// and the ledger's compounded totals, and the replacement token carries
/// principal plus reward. The farm token supply and the registered totals
/// grow by the same reward, so the position balances stay equal to the
/// registered totals.
pub fn compound_rewards(
    g: &mut Guild,
    cfg: &GuildConfig,
    current_block_nonce: u64,
    original_caller: u64,
    payment: &FarmTokenPayment,
    received_rewards: u128,
) -> (r: Result<FarmTokenPayment, GuildError>)
    requires
        old(g).wf(),
        cfg.wf(),
        generate_fits(*old(g), current_block_nonce, received_rewards),
        valid_farm_payment(*old(g), *payment),
        old(g).next_farm_token_nonce < u64::MAX,
        position_reward_fits(
            *old(g),
            *cfg,
            current_block_nonce,
            received_rewards,
            original_caller,
            *payment,
        ),
        payment.attributes.compounded_reward + spec_position_reward(
            *old(g),
            *cfg,
            current_block_nonce,
            received_rewards,
            original_caller,
            *payment,
        ) <= u128::MAX,
        payment.amount + spec_position_reward(
            *old(g),
            *cfg,
            current_block_nonce,
            received_rewards,
            original_caller,
            *payment,
        ) <= u128::MAX,
        old(g).farm_token_supply + spec_position_reward(
            *old(g),
            *cfg,
            current_block_nonce,
            received_rewards,
            original_caller,
            *payment,
        ) <= u128::MAX,
        old(g).staked_total() + spec_position_reward(
            *old(g),
            *cfg,
            current_block_nonce,
            received_rewards,
            original_caller,
            *payment,
        ) <= u128::MAX,
        old(g).spec_tokens_of(original_caller).spec_total() + spec_position_reward(
            *old(g),
            *cfg,
            current_block_nonce,
            received_rewards,
            original_caller,
            *payment,
        ) <= u128::MAX,
    ensures
        final(g).wf(),
        r is Err <==> mint_tier_error(*old(g), *cfg, current_block_nonce),
        r is Err ==> *final(g) == *old(g) && r == Result::<FarmTokenPayment, GuildError>::Err(
            GuildError::TierNotFound,
        ),
        r matches Ok(token) ==> {
            let gen = spec_generated(*old(g), *cfg, current_block_nonce, received_rewards);
            let scaled = spec_scaled_attributes(payment.attributes, payment.amount);
            let reward = spec_position_reward(
                *old(g),
                *cfg,
                current_block_nonce,
                received_rewards,
                original_caller,
                *payment,
            );
            &&& token == (FarmTokenPayment {
                token_identifier: old(g).farm_token_id,
                token_nonce: old(g).next_farm_token_nonce,
                amount: (payment.amount + reward) as u128,
                attributes: StakingFarmTokenAttributes {
                    reward_per_share: gen.rps_of(original_caller),
                    compounded_reward: (scaled.compounded_reward + reward) as u128,
                    current_farm_amount: (payment.amount + reward) as u128,
                },
            })
            &&& final(g).spec_tokens_of(original_caller) == (TotalTokens {
                base: old(g).spec_tokens_of(original_caller).base,
                compounded: (old(g).spec_tokens_of(original_caller).compounded + reward) as u128,
            })
            &&& (forall|u: u64|
                u != original_caller ==> final(g).spec_tokens_of(u) == old(g).spec_tokens_of(u))
            &&& *final(g) == (Guild {
                farm_token_supply: (gen.farm_token_supply + reward) as u128,
                total_compounded_tokens: (gen.total_compounded_tokens + reward) as u128,
                reward_reserve: (gen.reward_reserve - reward) as u128,
                next_farm_token_nonce: (old(g).next_farm_token_nonce + 1) as u64,
                last_reward_block_nonce: gen.last_reward_block_nonce,
                accumulated_rewards: gen.accumulated_rewards,
                reward_capacity: gen.reward_capacity,
                guild_master_rps: gen.guild_master_rps,
                user_rps: gen.user_rps,
                guild_master_tokens: final(g).guild_master_tokens,
                user_tokens: final(g).user_tokens,
                ..*old(g)
            })
        },
        final(g).guild_master_rps >= old(g).guild_master_rps,
        final(g).user_rps >= old(g).user_rps,
        old(g).tokens_balanced() && r is Ok ==> final(g).tokens_balanced(),
{
    let mut storage_cache = StorageCache::new(g);
    match FarmStakingWrapper::generate_aggregated_rewards(
        g,
        cfg,
        &mut storage_cache,
        current_block_nonce,
        received_rewards,
    ) {
        Ok(()) => {},
        Err(e) => {
            return Err(e);
        },
    }

    let scaled = crate::token_attributes::scale_attributes(&payment.attributes, payment.amount);
    proof {
        let gen = spec_generated(*old(g), *cfg, current_block_nonce, received_rewards);
        let srps: u128 = if original_caller == g.guild_master {
            storage_cache.guild_master_rps
        } else {
            storage_cache.user_rps
        };
        assert(srps == gen.rps_of(original_caller));
        if srps <= scaled.reward_per_share {
            assert(payment.amount * (srps - scaled.reward_per_share) <= 0) by (nonlinear_arith)
                requires
                    payment.amount >= 0,
                    srps - scaled.reward_per_share <= 0,
            ;
        }
    }
    let reward = FarmStakingWrapper::calculate_rewards(
        g,
        original_caller,
        payment.amount,
        &scaled,
        &storage_cache,
    );
    storage_cache.reward_reserve = storage_cache.reward_reserve - reward;

    let current_rps = storage_cache.get_rps_by_user(g, original_caller);
    let new_attributes = FarmStakingWrapper::create_compound_rewards_initial_attributes(
        scaled,
        current_rps,
        reward,
    );

    g.add_tokens(original_caller, &TotalTokens::new_compounded(reward));
    g.total_compounded_tokens = g.total_compounded_tokens + reward;
    storage_cache.farm_token_supply = storage_cache.farm_token_supply + reward;
    storage_cache.flush(g);

    let token_nonce = g.next_farm_token_nonce;
    g.next_farm_token_nonce = g.next_farm_token_nonce + 1;
    Ok(
        FarmTokenPayment {
            token_identifier: g.farm_token_id,
            token_nonce,
            amount: payment.amount + reward,
            attributes: new_attributes,
        },
    )
}

/// The compounded share of an unstaked amount: proportional to the actor's
/// registered compounded-to-total ratio, rounded down. The base share is the
/// rest; subtracting both exactly empties the record when the whole stake
/// leaves.
pub open spec fn spec_unstake_comp_part(t: TotalTokens, amount: u128) -> int {
    if t.spec_total() == 0 {
        0
    } else {
        t.compounded * amount / t.spec_total()
    }
}

/// The proportional split stays inside both fields: the compounded part is
/// at most the compounded stake and at most the amount, and the rest is at
/// most the base stake.
pub proof fn lemma_unstake_split(c: int, b: int, a: int)
    requires
        0 <= c,
        0 <= b,
        1 <= b + c,
        0 <= a <= b + c,
    ensures
        0 <= c * a / (b + c) <= c,
        c * a / (b + c) <= a,
        a - c * a / (b + c) <= b,
{
    let t = b + c;
    lemma_scale_bounds(c, a, t);
    if a + c - t > 0 {
        assert((a + c - t) * t <= c * a) by (nonlinear_arith)
            requires 0 <= a <= t && 0 <= c <= t && 0 < t,
        ;
        lemma_div_is_ordered((a + c - t) * t, c * a, t);
        lemma_div_by_multiple(a + c - t, t);
    } else {
        vstd::arithmetic::div_mod::lemma_div_pos_is_pos(c * a, t);
        assert(c * a >= 0) by (nonlinear_arith)
            requires c >= 0 && a >= 0,
        ;
    }
}

/// Unstakes part or all of a position: pays its pending reward, removes the
/// amount from the ledger — split between base and compounded stake in
/// proportion to the actor's record — and issues a time-locked unbond token
/// that carries the burned snapshot for a later cancellation. The remaining
/// stake must stay above the actor's minimum (or reach exactly zero, for an
/// ordinary user).
pub fn unstake_farm(
    g: &mut Guild,
    cfg: &GuildConfig,
    current_block_nonce: u64,
    current_epoch: u64,
    original_caller: u64,
    payment: &FarmTokenPayment,
    received_rewards: u128,
) -> (r: Result<(UnbondTokenPayment, u128), GuildError>)
    requires
        old(g).wf(),
        cfg.wf(),
        generate_fits(*old(g), current_block_nonce, received_rewards),
        valid_farm_payment(*old(g), *payment),
        old(g).next_unbond_token_nonce < u64::MAX,
        position_reward_fits(
            *old(g),
            *cfg,
            current_block_nonce,
            received_rewards,
            original_caller,
            *payment,
        ),
        old(g).spec_tokens_of(original_caller).fits(),
        payment.amount <= old(g).spec_tokens_of(original_caller).spec_total(),
        old(g).spec_tokens_of(original_caller).compounded * payment.amount <= u128::MAX,
        old(g).spec_tokens_of(original_caller).base <= old(g).total_base_staked_tokens,
        old(g).spec_tokens_of(original_caller).compounded <= old(g).total_compounded_tokens,
        payment.amount <= old(g).farm_token_supply,
        current_epoch + (if original_caller == old(g).guild_master {
            cfg.min_unbond_epochs_guild_master
        } else {
            cfg.min_unbond_epochs_user
        }) <= u64::MAX,
    ensures
        final(g).wf(),
        ({
            let t = old(g).spec_tokens_of(original_caller);
            let remaining = t.spec_total() - payment.amount;
            let min_ok = (original_caller != old(g).guild_master && remaining == 0) || remaining
                >= old(g).spec_min_stake_for_user(*cfg, original_caller);
            &&& r is Err <==> mint_tier_error(*old(g), *cfg, current_block_nonce) || !min_ok
            &&& r is Err ==> *final(g) == *old(g)
            &&& mint_tier_error(*old(g), *cfg, current_block_nonce) ==> r == Result::<
                (UnbondTokenPayment, u128),
                GuildError,
            >::Err(GuildError::TierNotFound)
            &&& !mint_tier_error(*old(g), *cfg, current_block_nonce) && !min_ok ==> r == Result::<
                (UnbondTokenPayment, u128),
                GuildError,
            >::Err(GuildError::BelowMinimumStake)
        }),
        r matches Ok((unbond_token, reward)) ==> {
            let gen = spec_generated(*old(g), *cfg, current_block_nonce, received_rewards);
            let t = old(g).spec_tokens_of(original_caller);
            let comp_part = spec_unstake_comp_part(t, payment.amount);
            let base_part = payment.amount - comp_part;
            &&& reward == spec_position_reward(
                *old(g),
                *cfg,
                current_block_nonce,
                received_rewards,
                original_caller,
                *payment,
            )
            &&& unbond_token == (UnbondTokenPayment {
                token_identifier: old(g).unbond_token_id,
                token_nonce: old(g).next_unbond_token_nonce,
                amount: payment.amount,
                attributes: UnbondSftAttributes {
                    unlock_epoch: (current_epoch + (if original_caller == old(g).guild_master {
                        cfg.min_unbond_epochs_guild_master
                    } else {
                        cfg.min_unbond_epochs_user
                    })) as u64,
                    original_attributes: StakingFarmTokenAttributes {
                        reward_per_share: gen.rps_of(original_caller),
                        compounded_reward: comp_part as u128,
                        current_farm_amount: payment.amount,
                    },
                },
            })
            &&& final(g).spec_tokens_of(original_caller) == (TotalTokens {
                base: (t.base - base_part) as u128,
                compounded: (t.compounded - comp_part) as u128,
            })
            &&& (forall|u: u64|
                u != original_caller ==> final(g).spec_tokens_of(u) == old(g).spec_tokens_of(u))
            &&& *final(g) == (Guild {
                farm_token_supply: (gen.farm_token_supply - payment.amount) as u128,
                total_base_staked_tokens: (gen.total_base_staked_tokens - base_part) as u128,
                total_compounded_tokens: (gen.total_compounded_tokens - comp_part) as u128,
                reward_reserve: (gen.reward_reserve - reward) as u128,
                next_unbond_token_nonce: (old(g).next_unbond_token_nonce + 1) as u64,
                last_reward_block_nonce: gen.last_reward_block_nonce,
                accumulated_rewards: gen.accumulated_rewards,
                reward_capacity: gen.reward_capacity,
                guild_master_rps: gen.guild_master_rps,
                user_rps: gen.user_rps,
                guild_master_tokens: final(g).guild_master_tokens,
                user_tokens: final(g).user_tokens,
                ..*old(g)
            })
        },
        final(g).guild_master_rps >= old(g).guild_master_rps,
        final(g).user_rps >= old(g).user_rps,
        old(g).tokens_balanced() && r is Ok ==> final(g).tokens_balanced(),
{
    let saved_nonce = g.last_reward_block_nonce;
    let saved_accumulated = g.accumulated_rewards;
    let saved_capacity = g.reward_capacity;
    let mut storage_cache = StorageCache::new(g);
    match FarmStakingWrapper::generate_aggregated_rewards(
        g,
        cfg,
        &mut storage_cache,
        current_block_nonce,
        received_rewards,
    ) {
        Ok(()) => {},
        Err(e) => {
            return Err(e);
        },
    }

    // The remaining stake must stay above the minimum; a violation aborts
    // the whole call, including the emission round above.
    let t = g.get_user_staked_tokens(original_caller);
    let remaining = t.total() - payment.amount;
    let min_stake = g.get_min_stake_for_user(cfg, original_caller);
    let min_ok = (original_caller != g.guild_master && remaining == 0) || remaining >= min_stake;
    if !min_ok {
        g.last_reward_block_nonce = saved_nonce;
        g.accumulated_rewards = saved_accumulated;
        g.reward_capacity = saved_capacity;
        assert(*g == *old(g));
        return Err(GuildError::BelowMinimumStake);
    }

    let scaled = crate::token_attributes::scale_attributes(&payment.attributes, payment.amount);
    proof {
        let gen = spec_generated(*old(g), *cfg, current_block_nonce, received_rewards);
        let srps: u128 = if original_caller == g.guild_master {
            storage_cache.guild_master_rps
        } else {
            storage_cache.user_rps
        };
        assert(srps == gen.rps_of(original_caller));
        if srps <= scaled.reward_per_share {
            assert(payment.amount * (srps - scaled.reward_per_share) <= 0) by (nonlinear_arith)
                requires
                    payment.amount >= 0,
                    srps - scaled.reward_per_share <= 0,
            ;
        }
    }
    let reward = FarmStakingWrapper::calculate_rewards(
        g,
        original_caller,
        payment.amount,
        &scaled,
        &storage_cache,
    );
    storage_cache.reward_reserve = storage_cache.reward_reserve - reward;

    // Split the unstaked amount between base and compounded stake in
    // proportion to the actor's record.
    proof {
        lemma_unstake_split(t.compounded as int, t.base as int, payment.amount as int);
    }
    let comp_part: u128 = if t.base + t.compounded == 0 {
        0
    } else {
        t.compounded * payment.amount / (t.base + t.compounded)
    };
    let base_part = payment.amount - comp_part;
    g.remove_tokens(original_caller, &TotalTokens::new(base_part, comp_part));
    g.remove_total_base_staked_tokens(base_part);
    g.total_compounded_tokens = g.total_compounded_tokens - comp_part;
    storage_cache.farm_token_supply = storage_cache.farm_token_supply - payment.amount;

    let current_rps = storage_cache.get_rps_by_user(g, original_caller);
    let min_unbond_epochs = if original_caller == g.guild_master {
        cfg.get_min_unbond_epochs_guild_master()
    } else {
        cfg.get_min_unbond_epochs_user()
    };
    storage_cache.flush(g);

    let token_nonce = g.next_unbond_token_nonce;
    g.next_unbond_token_nonce = g.next_unbond_token_nonce + 1;
    Ok(
        (
            UnbondTokenPayment {
                token_identifier: g.unbond_token_id,
                token_nonce,
                amount: payment.amount,
                attributes: UnbondSftAttributes {
                    unlock_epoch: current_epoch + min_unbond_epochs,
                    original_attributes: StakingFarmTokenAttributes {
                        reward_per_share: current_rps,
                        compounded_reward: comp_part,
                        current_farm_amount: payment.amount,
                    },
                },
            },
            reward,
        ),
    )
}

/// Releases the funds behind an unbond token once the tier-resolved delay
/// has elapsed; before that the call fails and nothing changes. The guild's
/// ledger itself does not move: the unstake already removed the stake.
pub fn unbond_farm(g: &Guild, current_epoch: u64, payment: &UnbondTokenPayment) -> (r: Result<
    u128,
    GuildError,
>)
    requires
        payment.token_identifier == g.unbond_token_id,
    ensures
        r is Ok <==> current_epoch >= payment.attributes.unlock_epoch,
        r matches Ok(a) ==> a == payment.amount,
        r is Err ==> r == Result::<u128, GuildError>::Err(GuildError::MinUnbondEpochsNotPassed),
{
    if current_epoch >= payment.attributes.unlock_epoch {
        Ok(payment.amount)
    } else {
        Err(GuildError::MinUnbondEpochsNotPassed)
    }
}

/// Cancels an unbonding position before (or after) its delay: burns the
/// unbond token, re-mints a farm-position token with the original token
/// identifier and the pre-unstake principal, and restores the ledger totals
/// removed at unstake time, split exactly as they were removed.
pub fn cancel_unbond(
    g: &mut Guild,
    cfg: &GuildConfig,
    original_caller: u64,
    payment: &UnbondTokenPayment,
) -> (r: Result<FarmTokenPayment, GuildError>)
    requires
        old(g).wf(),
        payment.token_identifier == old(g).unbond_token_id,
        payment.amount == payment.attributes.original_attributes.current_farm_amount,
        payment.attributes.original_attributes.compounded_reward <= payment.amount,
        old(g).staked_total() + payment.amount <= u128::MAX,
        old(g).farm_token_supply + payment.amount <= u128::MAX,
        old(g).spec_tokens_of(original_caller).spec_total() + payment.amount <= u128::MAX,
        old(g).next_farm_token_nonce < u64::MAX,
    ensures
        final(g).wf(),
        ({
            let orig = payment.attributes.original_attributes;
            let comp_part = orig.compounded_reward;
            let base_part = (payment.amount - comp_part) as u128;
            &&& r is Ok <==> old(g).total_base_staked_tokens + base_part
                <= cfg.max_staked_tokens
            &&& r is Err ==> *final(g) == *old(g) && r == Result::<
                FarmTokenPayment,
                GuildError,
            >::Err(GuildError::StakeCapExceeded)
            &&& r matches Ok(token) ==> {
                &&& token == (FarmTokenPayment {
                    token_identifier: old(g).farm_token_id,
                    token_nonce: old(g).next_farm_token_nonce,
                    amount: payment.amount,
                    attributes: orig,
                })
                &&& final(g).spec_tokens_of(original_caller) == (TotalTokens {
                    base: (old(g).spec_tokens_of(original_caller).base + base_part) as u128,
                    compounded: (old(g).spec_tokens_of(original_caller).compounded
                        + comp_part) as u128,
                })
                &&& (forall|u: u64|
                    u != original_caller ==> final(g).spec_tokens_of(u) == old(g).spec_tokens_of(
                        u,
                    ))
                &&& *final(g) == (Guild {
                    farm_token_supply: (old(g).farm_token_supply + payment.amount) as u128,
                    total_base_staked_tokens: (old(g).total_base_staked_tokens
                        + base_part) as u128,
                    total_compounded_tokens: (old(g).total_compounded_tokens
                        + comp_part) as u128,
                    next_farm_token_nonce: (old(g).next_farm_token_nonce + 1) as u64,
                    guild_master_tokens: final(g).guild_master_tokens,
                    user_tokens: final(g).user_tokens,
                    ..*old(g)
                })
            }
        }),
        old(g).tokens_balanced() && r is Ok ==> final(g).tokens_balanced(),
{
    let orig = payment.attributes.original_attributes;
    let comp_part = orig.compounded_reward;
    let base_part = payment.amount - comp_part;
    match g.add_total_base_staked_tokens(cfg, base_part) {
        Ok(()) => {},
        Err(e) => {
            return Err(e);
        },
    }
    g.total_compounded_tokens = g.total_compounded_tokens + comp_part;
    g.add_tokens(original_caller, &TotalTokens::new(base_part, comp_part));
    g.farm_token_supply = g.farm_token_supply + payment.amount;

    let token_nonce = g.next_farm_token_nonce;
    g.next_farm_token_nonce = g.next_farm_token_nonce + 1;
    Ok(
        FarmTokenPayment {
            token_identifier: g.farm_token_id,
            token_nonce,
            amount: payment.amount,
            attributes: orig,
        },
    )
}

/// Closes a guild: only its master may, and only while the factory still
/// knows the guild and its master. The guild stops admitting stakes and
/// producing rewards, leaves the factory's active set, and its identity
/// mappings are cleared through the factory's shared removal tail; no other
/// guild's registration moves.
pub fn close_guild(g: &mut Guild, f: &mut Factory, caller: u64, own_sc_address: u64) -> (r: Result<
    (),
    GuildError,
>)
    requires
        old(f).wf(),
    ensures
        final(f).wf(),
        r is Err ==> *final(g) == *old(g) && *final(f) == *old(f),
        ({
            let gid = old(f).guild_ids.spec_id_of(own_sc_address) as u64;
            let uid = old(f).user_ids.spec_id_of(old(g).guild_master) as u64;
            let known = old(f).deployed_guilds@.contains(gid) && gid != 0;
            let master_known = uid != 0 && old(f).guild_sc_for_user@.contains_key(uid);
            &&& r is Ok <==> caller == old(g).guild_master && known && master_known
            &&& caller != old(g).guild_master ==> r == Result::<(), GuildError>::Err(
                GuildError::NotOwner,
            )
            &&& caller == old(g).guild_master && !known ==> r == Result::<(), GuildError>::Err(
                GuildError::UnknownGuild,
            )
            &&& caller == old(g).guild_master && known && !master_known ==> r == Result::<
                (),
                GuildError,
            >::Err(GuildError::UnknownGuildMaster)
            &&& r matches Ok(()) ==> {
                &&& *final(g) == (Guild { guild_closing: true, ..*old(g) })
                &&& final(f).guild_ids.slots@ == old(f).guild_ids.slots@.update(gid - 1, 0u64)
                &&& final(f).user_ids.slots@ == old(f).user_ids.slots@.update(uid - 1, 0u64)
                &&& (forall|y: u64|
                    #[trigger] final(f).deployed_guilds@.contains(y) <==> (old(
                        f,
                    ).deployed_guilds@.contains(y) && y != gid))
                &&& (forall|y: u64|
                    #[trigger] final(f).active_guilds@.contains(y) <==> (old(
                        f,
                    ).active_guilds@.contains(y) && y != gid))
                &&& final(f).guild_sc_for_user@ == old(f).guild_sc_for_user@.remove(uid)
                &&& final(f).guild_master_for_guild@ == old(f).guild_master_for_guild@.remove(gid)
                &&& *final(f) == (Factory {
                    deployed_guilds: final(f).deployed_guilds,
                    active_guilds: final(f).active_guilds,
                    guild_sc_for_user: final(f).guild_sc_for_user,
                    guild_master_for_guild: final(f).guild_master_for_guild,
                    user_ids: final(f).user_ids,
                    guild_ids: final(f).guild_ids,
                    ..*old(f)
                })
            }
        }),
{
    if caller != g.guild_master {
        return Err(GuildError::NotOwner);
    }
    let guild_id = f.guild_ids.get_id(own_sc_address);
    match f.remove_guild_common(own_sc_address, g.guild_master) {
        Ok(()) => {},
        Err(e) => {
            return Err(e);
        },
    }
    let ghost active_before = f.active_guilds@;
    let ghost table_len = f.guild_ids.slots@.len();
    let _ = swap_remove_value(&mut f.active_guilds, guild_id);
    proof {
        // The remaining active ids were active before, so they stay within
        // the id table.
        assert forall|i: int|
            0 <= i < f.active_guilds@.len() implies 1 <= #[trigger] f.active_guilds@[i]
            <= f.guild_ids.slots@.len() by {
            assert(f.active_guilds@.contains(f.active_guilds@[i]));
            assert(active_before.contains(f.active_guilds@[i]));
            let k = choose|k: int|
                0 <= k < active_before.len() && active_before[k] == f.active_guilds@[i];
        }
    }
    g.guild_closing = true;
    Ok(())
}

} // verus!
