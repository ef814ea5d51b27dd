//! Entering a staking position.
//!
//! A stake runs one emission round, mints a fresh position token at the live
//! reward-per-share of the caller's class — merged with any previously held
//! position tokens the caller presents — and registers the new principal in
//! the ledger. The guild master must stake before any user; a master's first
//! stake needs room under the factory's active-guild cap.

use vstd::prelude::*;
use crate::config::GuildConfig;
use crate::errors::GuildError;
use crate::factory::{vec_contains, Factory};
use crate::guild::Guild;
use crate::rewards::{
    generate_fits, mint_tier_error, spec_generated, FarmStakingWrapper, StorageCache,
};
use crate::token_attributes::{
    merge_fits, scale_attributes, spec_merged_attributes, spec_scaled_attributes, sum_amounts,
    FarmTokenPayment, StakingFarmTokenAttributes,
};
use crate::total_tokens::TotalTokens;

verus! {

/// The caller named in an operation: the transaction sender, unless the
/// factory relays on behalf of an original caller (the migration path).
/// Nobody else may name another caller.
pub fn get_orig_caller_from_opt(
    caller: u64,
    opt_original_caller: Option<u64>,
    factory_sc_address: u64,
) -> (r: Result<u64, GuildError>)
    ensures
        r is Ok <==> (opt_original_caller is None || caller == factory_sc_address),
        opt_original_caller is None ==> r == Result::<u64, GuildError>::Ok(caller),
        opt_original_caller matches Some(oc) ==> (caller == factory_sc_address ==> r == Result::<
            u64,
            GuildError,
        >::Ok(oc)),
        r is Err ==> r == Result::<u64, GuildError>::Err(GuildError::MayNotUseOriginalCallerArg),
{
    match opt_original_caller {
        Some(original_caller) => {
            if caller == factory_sc_address {
                Ok(original_caller)
            } else {
                Err(GuildError::MayNotUseOriginalCallerArg)
            }
        },
        None => Ok(caller),
    }
}

/// The factory-side admission answer for a master's stake: the guild must be
/// registered, and either already active or there must be room under the cap.
pub open spec fn spec_master_can_stake_err(f: Factory, own_sc_address: u64) -> Option<GuildError> {
    if !f.guild_ids.spec_contains(own_sc_address) {
        Some(GuildError::UnknownGuild)
    } else {
        let gid = f.guild_ids.spec_id_of(own_sc_address) as u64;
        if f.active_guilds@.contains(gid) || f.active_guilds@.len() < f.max_active_guilds {
            None
        } else {
            Some(GuildError::ActiveGuildLimitReached)
        }
    }
}

/// Reads the factory's active set: a master's first stake is what activates
/// a guild, so it is admitted only while an active slot is free (or the
/// guild already holds one).
pub fn require_guild_master_can_stake(f: &Factory, own_sc_address: u64) -> (r: Result<
    (),
    GuildError,
>)
    requires
        f.wf(),
    ensures
        r is Ok <==> spec_master_can_stake_err(*f, own_sc_address) is None,
        r is Err ==> r == Result::<(), GuildError>::Err(
            spec_master_can_stake_err(*f, own_sc_address).unwrap(),
        ),
{
    let guild_id = match f.guild_ids.get_id_non_zero(own_sc_address) {
        Ok(id) => id,
        Err(e) => {
            return Err(e);
        },
    };
    if !vec_contains(&f.active_guilds, guild_id) {
        let max_guilds = f.max_active_guilds;
        if f.active_guilds.len() >= max_guilds {
            return Err(GuildError::ActiveGuildLimitReached);
        }
    }
    Ok(())
}

/// Validity of presented position tokens: they belong to this guild's farm
/// token, carry a nonzero principal, and scaling them stays in the machine
/// word.
pub open spec fn valid_farm_payments(g: Guild, payments: Seq<FarmTokenPayment>) -> bool {
    forall|i: int|
        0 <= i < payments.len() ==> {
            let p = #[trigger] payments[i];
            &&& p.token_identifier == g.farm_token_id
            &&& 1 <= p.attributes.current_farm_amount
            &&& 1 <= p.amount <= p.attributes.current_farm_amount
            &&& p.attributes.compounded_reward * p.amount <= u128::MAX
        }
}

/// The position parts a stake merges: a fresh part for the newly staked
/// amount at the live accumulator, then each presented token scaled to its
/// presented amount.
pub open spec fn spec_stake_parts(
    current_rps: u128,
    payment_amount: u128,
    additional: Seq<FarmTokenPayment>,
) -> Seq<StakingFarmTokenAttributes> {
    seq![
        StakingFarmTokenAttributes {
            reward_per_share: current_rps,
            compounded_reward: 0u128,
            current_farm_amount: payment_amount,
        },
    ] + additional.map(|i: int, p: FarmTokenPayment| spec_scaled_attributes(p.attributes, p.amount))
}

/// A stake without merged-in tokens satisfies the merge obligation as soon
/// as the staked amount is positive and its weighting fits the machine word.
pub proof fn lemma_stake_parts_no_merge(
    current_rps: u128,
    payment_amount: u128,
    additional: Seq<FarmTokenPayment>,
)
    requires
        additional.len() == 0,
        payment_amount >= 1,
        current_rps * payment_amount + payment_amount <= u128::MAX,
    ensures
        merge_fits(spec_stake_parts(current_rps, payment_amount, additional)),
{
    let part = StakingFarmTokenAttributes {
        reward_per_share: current_rps,
        compounded_reward: 0u128,
        current_farm_amount: payment_amount,
    };
    assert(spec_stake_parts(current_rps, payment_amount, additional) =~= seq![part]);
    crate::token_attributes::lemma_merge_fits_singleton(part);
}

/// The first error a stake hits, in the order the checks run; `None` when
/// the stake succeeds.
pub open spec fn spec_stake_error(
    g: Guild,
    cfg: GuildConfig,
    f: Factory,
    own_sc_address: u64,
    original_caller: u64,
    payment_amount: u128,
    block: u64,
) -> Option<GuildError> {
    if g.guild_closing {
        Some(GuildError::GuildClosing)
    } else if g.paused {
        Some(GuildError::GloballyPaused)
    } else if !g.unbond_token_issued {
        Some(GuildError::UnbondTokenNotIssued)
    } else if original_caller != g.guild_master && g.guild_master_tokens.base == 0
        && g.guild_master_tokens.compounded == 0 {
        Some(GuildError::GuildMasterMustStakeFirst)
    } else if original_caller == g.guild_master && spec_master_can_stake_err(
        f,
        own_sc_address,
    ) is Some {
        spec_master_can_stake_err(f, own_sc_address)
    } else if mint_tier_error(g, cfg, block) {
        Some(GuildError::TierNotFound)
    } else if g.total_base_staked_tokens + payment_amount > cfg.max_staked_tokens {
        Some(GuildError::StakeCapExceeded)
    } else if !{
        let total_after = g.spec_tokens_of(original_caller).spec_total() + payment_amount;
        ||| (original_caller != g.guild_master && total_after == 0)
        ||| total_after >= g.spec_min_stake_for_user(cfg, original_caller)
    } {
        Some(GuildError::BelowMinimumStake)
    } else {
        None
    }
}

/// Stakes `payment_amount` fresh farming tokens for `original_caller`,
/// merging in any presented position tokens, and mints the replacement
/// position token. The ledger's base-stake counter grows by exactly the
/// fresh amount, the farm token supply likewise, so the position balances
/// stay equal to the registered totals; both reward-per-share accumulators
/// only grow. Any failure leaves the guild unchanged.
pub fn stake_farm_common(
    g: &mut Guild,
    cfg: &GuildConfig,
    f: &Factory,
    own_sc_address: u64,
    original_caller: u64,
    payment_amount: u128,
    additional_farm_tokens: &Vec<FarmTokenPayment>,
    current_block_nonce: u64,
    received_rewards: u128,
) -> (r: Result<FarmTokenPayment, GuildError>)
    requires
        old(g).wf(),
        cfg.wf(),
        f.wf(),
        generate_fits(*old(g), current_block_nonce, received_rewards),
        valid_farm_payments(*old(g), additional_farm_tokens@),
        old(g).total_base_staked_tokens + old(g).total_compounded_tokens + payment_amount
            <= u128::MAX,
        old(g).spec_tokens_of(original_caller).spec_total() + payment_amount <= u128::MAX,
        old(g).farm_token_supply + payment_amount <= u128::MAX,
        old(g).next_farm_token_nonce < u64::MAX,
        merge_fits(
            spec_stake_parts(
                spec_generated(
                    *old(g),
                    *cfg,
                    current_block_nonce,
                    received_rewards,
                ).rps_of(original_caller),
                payment_amount,
                additional_farm_tokens@,
            ),
        ),
    ensures
        final(g).wf(),
        r is Err <==> spec_stake_error(
            *old(g),
            *cfg,
            *f,
            own_sc_address,
            original_caller,
            payment_amount,
            current_block_nonce,
        ) is Some,
        r is Err ==> *final(g) == *old(g) && r == Result::<FarmTokenPayment, GuildError>::Err(
            spec_stake_error(
                *old(g),
                *cfg,
                *f,
                own_sc_address,
                original_caller,
                payment_amount,
                current_block_nonce,
            ).unwrap(),
        ),
        r matches Ok(token) ==> {
            let gen = spec_generated(*old(g), *cfg, current_block_nonce, received_rewards);
            let parts = spec_stake_parts(
                gen.rps_of(original_caller),
                payment_amount,
                additional_farm_tokens@,
            );
            let merged = spec_merged_attributes(parts);
            &&& token == (FarmTokenPayment {
                token_identifier: old(g).farm_token_id,
                token_nonce: old(g).next_farm_token_nonce,
                amount: merged.current_farm_amount,
                attributes: merged,
            })
            &&& merged.current_farm_amount == payment_amount + sum_amounts(
                additional_farm_tokens@.map(
                    |i: int, p: FarmTokenPayment| spec_scaled_attributes(p.attributes, p.amount),
                ),
            )
            &&& final(g).spec_tokens_of(original_caller) == (TotalTokens {
                base: (old(g).spec_tokens_of(original_caller).base + payment_amount) as u128,
                compounded: old(g).spec_tokens_of(original_caller).compounded,
            })
            &&& (forall|u: u64|
                u != original_caller ==> final(g).spec_tokens_of(u) == old(g).spec_tokens_of(u))
            &&& *final(g) == (Guild {
                farm_token_supply: (gen.farm_token_supply + payment_amount) as u128,
                total_base_staked_tokens: (gen.total_base_staked_tokens + payment_amount) as u128,
                next_farm_token_nonce: (old(g).next_farm_token_nonce + 1) as u64,
                last_reward_block_nonce: gen.last_reward_block_nonce,
                accumulated_rewards: gen.accumulated_rewards,
                reward_capacity: gen.reward_capacity,
                reward_reserve: gen.reward_reserve,
                guild_master_rps: gen.guild_master_rps,
                user_rps: gen.user_rps,
                guild_master_tokens: final(g).guild_master_tokens,
                user_tokens: final(g).user_tokens,
                ..*old(g)
            })
        },
        final(g).guild_master_rps >= old(g).guild_master_rps,
        final(g).user_rps >= old(g).user_rps,
        old(g).tokens_balanced() && r is Ok ==> final(g).tokens_balanced(),
{
    if g.guild_closing {
        return Err(GuildError::GuildClosing);
    }
    if g.paused {
        return Err(GuildError::GloballyPaused);
    }
    if !g.unbond_token_issued {
        return Err(GuildError::UnbondTokenNotIssued);
    }
    if original_caller != g.guild_master {
        if g.guild_master_tokens.is_default() {
            return Err(GuildError::GuildMasterMustStakeFirst);
        }
    } else {
        match require_guild_master_can_stake(f, own_sc_address) {
            Ok(()) => {},
            Err(e) => {
                return Err(e);
            },
        }
    }

    let saved_nonce = g.last_reward_block_nonce;
    let saved_accumulated = g.accumulated_rewards;
    let saved_capacity = g.reward_capacity;
    let mut storage_cache = StorageCache::new(g);
    match FarmStakingWrapper::generate_aggregated_rewards(
        g,
        cfg,
        &mut storage_cache,
        current_block_nonce,
        received_rewards,
    ) {
        Ok(()) => {},
        Err(e) => {
            return Err(e);
        },
    }

    // Global staking cap, then the caller's minimum stake; a violation
    // aborts the whole call, including the emission round above.
    if g.total_base_staked_tokens + payment_amount > cfg.max_staked_tokens {
        g.last_reward_block_nonce = saved_nonce;
        g.accumulated_rewards = saved_accumulated;
        g.reward_capacity = saved_capacity;
        assert(*g == *old(g));
        return Err(GuildError::StakeCapExceeded);
    }
    let staked_tokens = g.get_user_staked_tokens(original_caller);
    let total_after = staked_tokens.total() + payment_amount;
    let min_stake = g.get_min_stake_for_user(cfg, original_caller);
    let min_ok = (original_caller != g.guild_master && total_after == 0) || total_after
        >= min_stake;
    if !min_ok {
        g.last_reward_block_nonce = saved_nonce;
        g.accumulated_rewards = saved_accumulated;
        g.reward_capacity = saved_capacity;
        assert(*g == *old(g));
        return Err(GuildError::BelowMinimumStake);
    }

    // Build the merged position: the fresh part at the live accumulator,
    // then the presented tokens scaled to their presented amounts.
    let current_rps = storage_cache.get_rps_by_user(g, original_caller);
    let ghost spec_parts = spec_stake_parts(
        current_rps,
        payment_amount,
        additional_farm_tokens@,
    );
    let mut parts: Vec<StakingFarmTokenAttributes> = Vec::new();
    parts.push(
        FarmStakingWrapper::create_enter_farm_initial_attributes(payment_amount, current_rps),
    );
    let n = additional_farm_tokens.len();
    let mut i: usize = 0;
    #[verifier::loop_isolation(false)]
    while i < n
        invariant
            0 <= i <= n,
            parts@.len() == i + 1,
            parts@[0] == spec_parts[0],
            forall|k: int| 1 <= k <= i ==> #[trigger] parts@[k] == spec_parts[k],
        decreases n - i,
    {
        let p = additional_farm_tokens[i];
        let scaled = scale_attributes(&p.attributes, p.amount);
        parts.push(scaled);
        i += 1;
    }
    proof {
        assert(parts@ =~= spec_parts);
        crate::token_attributes::lemma_merge_sums_cons(
            spec_parts[0],
            additional_farm_tokens@.map(
                |k: int, p: FarmTokenPayment| spec_scaled_attributes(p.attributes, p.amount),
            ),
        );
        assert(spec_parts =~= seq![spec_parts[0]] + additional_farm_tokens@.map(
            |k: int, p: FarmTokenPayment| spec_scaled_attributes(p.attributes, p.amount),
        ));
    }
    let merged = crate::token_attributes::merge_attributes(&parts);

    g.add_tokens(original_caller, &TotalTokens::new_base(payment_amount));
    g.total_base_staked_tokens = g.total_base_staked_tokens + payment_amount;
    storage_cache.farm_token_supply = storage_cache.farm_token_supply + payment_amount;
    storage_cache.flush(g);

    let token_nonce = g.next_farm_token_nonce;
    g.next_farm_token_nonce = g.next_farm_token_nonce + 1;
    Ok(
        FarmTokenPayment {
            token_identifier: g.farm_token_id,
            token_nonce,
            amount: merged.current_farm_amount,
            attributes: merged,
        },
    )
}

/// The caller an endpoint call acts for, before any check.
pub open spec fn spec_resolved_caller(caller: u64, opt_original_caller: Option<u64>) -> u64 {
    if opt_original_caller is Some {
        opt_original_caller.unwrap()
    } else {
        caller
    }
}

/// The staking endpoint: resolves the original caller, then stakes.
pub fn stake_farm_endpoint(
    g: &mut Guild,
    cfg: &GuildConfig,
    f: &Factory,
    own_sc_address: u64,
    caller: u64,
    opt_original_caller: Option<u64>,
    factory_sc_address: u64,
    payment_amount: u128,
    additional_farm_tokens: &Vec<FarmTokenPayment>,
    current_block_nonce: u64,
    received_rewards: u128,
) -> (r: Result<FarmTokenPayment, GuildError>)
    requires
        old(g).wf(),
        cfg.wf(),
        f.wf(),
        generate_fits(*old(g), current_block_nonce, received_rewards),
        valid_farm_payments(*old(g), additional_farm_tokens@),
        old(g).total_base_staked_tokens + old(g).total_compounded_tokens + payment_amount
            <= u128::MAX,
        old(g).spec_tokens_of(
            spec_resolved_caller(caller, opt_original_caller),
        ).spec_total() + payment_amount <= u128::MAX,
        old(g).farm_token_supply + payment_amount <= u128::MAX,
        old(g).next_farm_token_nonce < u64::MAX,
        merge_fits(
            spec_stake_parts(
                spec_generated(*old(g), *cfg, current_block_nonce, received_rewards).rps_of(
                    spec_resolved_caller(caller, opt_original_caller),
                ),
                payment_amount,
                additional_farm_tokens@,
            ),
        ),
    ensures
        final(g).wf(),
        opt_original_caller is Some && caller != factory_sc_address ==> r == Result::<
            FarmTokenPayment,
            GuildError,
        >::Err(GuildError::MayNotUseOriginalCallerArg) && *final(g) == *old(g),
        opt_original_caller is None || caller == factory_sc_address ==> {
            let resolved = spec_resolved_caller(caller, opt_original_caller);
            &&& (r is Err <==> spec_stake_error(
                *old(g),
                *cfg,
                *f,
                own_sc_address,
                resolved,
                payment_amount,
                current_block_nonce,
            ) is Some)
            &&& (r is Err ==> *final(g) == *old(g))
            &&& (r matches Ok(token) ==> token.token_identifier == old(g).farm_token_id
                && token.token_nonce == old(g).next_farm_token_nonce)
        },
        final(g).guild_master_rps >= old(g).guild_master_rps,
        final(g).user_rps >= old(g).user_rps,
        old(g).tokens_balanced() && r is Ok ==> final(g).tokens_balanced(),
{
    let original_caller = match get_orig_caller_from_opt(
        caller,
        opt_original_caller,
        factory_sc_address,
    ) {
        Ok(oc) => oc,
        Err(e) => {
            return Err(e);
        },
    };
    stake_farm_common(
        g,
        cfg,
        f,
        own_sc_address,
        original_caller,
        payment_amount,
        additional_farm_tokens,
        current_block_nonce,
        received_rewards,
    )
}

} // verus!
