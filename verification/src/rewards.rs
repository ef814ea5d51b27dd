//! The per-guild reward accrual engine.
//!
//! Reward emission is driven by block height. Each reward-affecting call
//! computes an unbounded emission proportional to the elapsed blocks and the
//! per-block rate, splits it between the guild master and the users in
//! proportion to the master's share of the total stake, caps each class
//! independently by its tier-resolved APR bound, and folds the result into
//! two reward-per-share accumulators. Emission silently stalls when the
//! remaining reward capacity cannot cover it; that is a deliberate
//! soft-degradation, not an error.

use vstd::arithmetic::div_mod::{
    lemma_div_by_multiple, lemma_div_is_ordered, lemma_div_nonincreasing, lemma_div_pos_is_pos,
};
use vstd::arithmetic::mul::lemma_mul_inequality;
use vstd::prelude::*;
use crate::config::{GuildConfig, MAX_TIER_APR};
use crate::errors::GuildError;
use crate::guild::{find_guild_master_tier, find_user_tier, Guild};
use crate::tiers::{first_matching_tier, some_tier_matches, RewardTier, BLOCKS_IN_YEAR, MAX_PERCENT};
use crate::token_attributes::StakingFarmTokenAttributes;

verus! {

/// One emission round's rewards, split by actor class.
#[derive(Clone, Copy, Debug, PartialEq, Eq, Structural)]
pub struct TotalRewards {
    pub guild_master: u128,
    pub users: u128,
}

impl TotalRewards {
    pub open spec fn spec_total(self) -> int {
        self.guild_master + self.users
    }

    pub fn zero() -> (r: TotalRewards)
        ensures
            r == (TotalRewards { guild_master: 0u128, users: 0u128 }),
    {
        TotalRewards { guild_master: 0, users: 0 }
    }

    pub fn total(&self) -> (r: u128)
        requires
            self.guild_master + self.users <= u128::MAX,
        ensures
            r == self.spec_total(),
    {
        self.guild_master + self.users
    }
}

/// The per-call working set of a state-changing operation: loaded from the
/// guild's storage at the start of a call and flushed back at the end.
pub struct StorageCache {
    pub farm_token_supply: u128,
    pub reward_reserve: u128,
    pub division_safety_constant: u128,
    pub guild_master_rps: u128,
    pub user_rps: u128,
}

impl StorageCache {
    /// The fields the cache must mirror at load time.
    pub open spec fn loaded_from(self, g: Guild) -> bool {
        &&& self.farm_token_supply == g.farm_token_supply
        &&& self.reward_reserve == g.reward_reserve
        &&& self.division_safety_constant == g.division_safety_constant
        &&& self.guild_master_rps == g.guild_master_rps
        &&& self.user_rps == g.user_rps
    }

    pub fn new(g: &Guild) -> (c: StorageCache)
        ensures
            c.loaded_from(*g),
    {
        StorageCache {
            farm_token_supply: g.farm_token_supply,
            reward_reserve: g.reward_reserve,
            division_safety_constant: g.division_safety_constant,
            guild_master_rps: g.guild_master_rps,
            user_rps: g.user_rps,
        }
    }

    /// Writes the working set back to persistent storage.
    pub fn flush(&self, g: &mut Guild)
        ensures
            *final(g) == (Guild {
                farm_token_supply: self.farm_token_supply,
                reward_reserve: self.reward_reserve,
                guild_master_rps: self.guild_master_rps,
                user_rps: self.user_rps,
                ..*old(g)
            }),
    {
        g.farm_token_supply = self.farm_token_supply;
        g.reward_reserve = self.reward_reserve;
        g.guild_master_rps = self.guild_master_rps;
        g.user_rps = self.user_rps;
    }

    /// The accumulator that applies to an actor's class.
    pub fn get_rps_by_user(&self, g: &Guild, caller: u64) -> (r: u128)
        ensures
            r == if caller == g.guild_master {
                self.guild_master_rps
            } else {
                self.user_rps
            },
    {
        if caller == g.guild_master {
            self.guild_master_rps
        } else {
            self.user_rps
        }
    }
}

/// Blocks elapsed since the last emission.
pub open spec fn spec_block_diff(g: Guild, block: u64) -> int {
    block - g.last_reward_block_nonce
}

/// The emission before any cap: per-block rate times elapsed blocks.
pub open spec fn spec_unbounded_rewards(g: Guild, block: u64) -> int {
    g.per_block_reward_amount * spec_block_diff(g, block)
}

/// Whether this call emits at all: blocks have elapsed, the guild is not
/// closing, the rate is nonzero, and the guild master has registered stake
/// (the guard against a zero split denominator).
pub open spec fn accrual_active(g: Guild, block: u64) -> bool {
    &&& block > g.last_reward_block_nonce
    &&& !g.guild_closing
    &&& spec_unbounded_rewards(g, block) != 0
    &&& !(g.guild_master_tokens.base == 0 && g.guild_master_tokens.compounded == 0)
}

/// The block nonce recorded after an emission round.
pub open spec fn spec_new_nonce(g: Guild, block: u64) -> u64 {
    if block > g.last_reward_block_nonce && !g.guild_closing {
        block
    } else {
        g.last_reward_block_nonce
    }
}

/// The guild master's proportional share of the unbounded emission.
pub open spec fn spec_gm_split(g: Guild, block: u64) -> int {
    g.master_total() * spec_unbounded_rewards(g, block) / g.staked_total()
}

/// The users' proportional share: the remainder of the unbounded emission.
pub open spec fn spec_users_split(g: Guild, block: u64) -> int {
    spec_unbounded_rewards(g, block) - spec_gm_split(g, block)
}

/// The per-block APR ceiling of a class: annual percentage of the class's
/// stake, spread over the blocks of a year.
pub open spec fn spec_apr_bound_per_block(stake: int, apr: u64) -> int {
    stake * apr / (MAX_PERCENT as int) / (BLOCKS_IN_YEAR as int)
}

/// The tier that applies to the guild master's current stake.
pub open spec fn spec_gm_tier(g: Guild, cfg: GuildConfig) -> RewardTier {
    cfg.guild_master_tiers@[first_matching_tier(
        cfg.guild_master_tiers@,
        g.master_total() as u128,
    )]
}

/// The tier that applies to the users' current aggregate stake.
pub open spec fn spec_users_tier(g: Guild, cfg: GuildConfig) -> RewardTier {
    cfg.user_tiers@[first_matching_tier(cfg.user_tiers@, g.users_stake() as u128)]
}

/// Per-block APR bound of the guild master class.
pub open spec fn spec_gm_apr_bound_pb(g: Guild, cfg: GuildConfig) -> int {
    spec_apr_bound_per_block(g.master_total(), spec_gm_tier(g, cfg).apr)
}

/// Per-block APR bound of the users class; zero stake bounds to zero.
pub open spec fn spec_users_apr_bound_pb(g: Guild, cfg: GuildConfig) -> int {
    if g.users_stake() == 0 {
        0
    } else {
        spec_apr_bound_per_block(g.users_stake(), spec_users_tier(g, cfg).apr)
    }
}

/// An active emission round fails exactly when a needed tier is missing.
pub open spec fn mint_tier_error(g: Guild, cfg: GuildConfig, block: u64) -> bool {
    accrual_active(g, block) && {
        ||| !some_tier_matches(cfg.guild_master_tiers@, g.master_total() as u128)
        ||| (g.users_stake() != 0 && !some_tier_matches(cfg.user_tiers@, g.users_stake() as u128))
    }
}

/// The emitted guild-master reward: the smaller of the proportional share
/// and the APR bound over the elapsed blocks.
pub open spec fn spec_emission_gm(g: Guild, cfg: GuildConfig, block: u64) -> int {
    vstd::math::min(
        spec_gm_split(g, block),
        spec_gm_apr_bound_pb(g, cfg) * spec_block_diff(g, block),
    )
}

/// The emitted users reward, capped the same way.
pub open spec fn spec_emission_users(g: Guild, cfg: GuildConfig, block: u64) -> int {
    vstd::math::min(
        spec_users_split(g, block),
        spec_users_apr_bound_pb(g, cfg) * spec_block_diff(g, block),
    )
}

/// Total emission of the round; zero when accrual is inactive.
pub open spec fn spec_total_emission(g: Guild, cfg: GuildConfig, block: u64) -> int {
    if accrual_active(g, block) {
        spec_emission_gm(g, cfg, block) + spec_emission_users(g, cfg, block)
    } else {
        0
    }
}

/// The arithmetic room an emission round needs in the machine word.
pub open spec fn mint_fits(g: Guild, block: u64) -> bool {
    &&& (block > g.last_reward_block_nonce ==> {
        let diff = spec_block_diff(g, block);
        &&& g.per_block_reward_amount * diff <= u128::MAX
        &&& g.master_total() * (g.per_block_reward_amount * diff) <= u128::MAX
        &&& g.staked_total() * (MAX_TIER_APR as int) <= u128::MAX
        &&& g.staked_total() * diff <= u128::MAX
    })
    // While emission is live, the registered totals cover the master's
    // stake: the split denominator is positive and the master's share
    // cannot exceed the whole.
    &&& (accrual_active(g, block) ==> g.master_total() <= g.staked_total())
}

/// A proportional share never exceeds the whole: `m * u / t <= u` for
/// `0 <= m <= t`, `t >= 1`.
pub proof fn lemma_proportional_le(m: int, u: int, t: int)
    requires
        0 <= m <= t,
        1 <= t,
        0 <= u,
    ensures
        0 <= m * u / t <= u,
{
    lemma_mul_inequality(m, t, u);
    assert(m * u == u * m && t * u == u * t) by (nonlinear_arith);
    lemma_div_is_ordered(m * u, u * t, t);
    lemma_div_by_multiple(u, t);
    lemma_div_pos_is_pos(m * u, t);
    assert(m * u >= 0) by (nonlinear_arith)
        requires m >= 0 && u >= 0,
    ;
}

/// The per-block APR bound of a class never exceeds the class's stake.
pub proof fn lemma_apr_bound_le_stake(stake: int, apr: u64)
    requires
        0 <= stake,
        apr <= MAX_TIER_APR,
    ensures
        0 <= spec_apr_bound_per_block(stake, apr) <= stake,
{
    let p = MAX_PERCENT as int;
    let y = BLOCKS_IN_YEAR as int;
    lemma_mul_inequality(apr as int, MAX_TIER_APR as int, stake);
    assert(stake * apr == (apr as int) * stake) by (nonlinear_arith);
    assert(stake * (MAX_TIER_APR as int) == (MAX_TIER_APR as int) * stake) by (nonlinear_arith);
    lemma_div_is_ordered(stake * apr, stake * (MAX_TIER_APR as int), p);
    assert(stake * (MAX_TIER_APR as int) == (stake * 100) * p);
    lemma_div_by_multiple(stake * 100, p);
    lemma_div_pos_is_pos(stake * apr, p);
    let d1 = stake * apr / p;
    lemma_div_is_ordered(d1, stake * 100, y);
    lemma_div_pos_is_pos(d1, y);
    lemma_mul_inequality(100, y, stake);
    assert(stake * 100 == 100 * stake && stake * y == y * stake) by (nonlinear_arith);
    lemma_div_is_ordered(stake * 100, stake * y, y);
    lemma_div_by_multiple(stake, y);
}

/// The reward-accounting engine of a staking guild; its entry points take
/// the guild's state and the call's working set explicitly.
pub struct FarmStakingWrapper;

impl FarmStakingWrapper {
    /// One emission round. Emits zero when no blocks elapsed, when the guild
    /// is closing, when the rate is zero or when the guild master has no
    /// registered stake. Otherwise it splits the unbounded emission between
    /// master and users in proportion to the master's share of the total
    /// stake, and caps each class independently by its APR bound over the
    /// elapsed blocks: the final emission per class is the smaller of the
    /// proportional share and the APR bound, so it never exceeds the APR
    /// bound. Advances the last-emission block nonce; fails only when a
    /// needed tier is missing, leaving the state unchanged.
    pub fn mint_per_block_rewards(g: &mut Guild, cfg: &GuildConfig, current_block_nonce: u64) -> (r:
        Result<TotalRewards, GuildError>)
        requires
            old(g).wf(),
            cfg.wf(),
            mint_fits(*old(g), current_block_nonce),
        ensures
            final(g).wf(),
            r is Err <==> mint_tier_error(*old(g), *cfg, current_block_nonce),
            r is Err ==> *final(g) == *old(g) && r == Result::<TotalRewards, GuildError>::Err(
                GuildError::TierNotFound,
            ),
            r is Ok ==> *final(g) == (Guild {
                last_reward_block_nonce: spec_new_nonce(*old(g), current_block_nonce),
                ..*old(g)
            }),
            r matches Ok(tr) ==> {
                &&& !accrual_active(*old(g), current_block_nonce) ==> tr == (TotalRewards {
                    guild_master: 0u128,
                    users: 0u128,
                })
                &&& accrual_active(*old(g), current_block_nonce) ==> {
                    &&& tr.guild_master == spec_emission_gm(*old(g), *cfg, current_block_nonce)
                    &&& tr.users == spec_emission_users(*old(g), *cfg, current_block_nonce)
                    &&& tr.guild_master <= spec_gm_apr_bound_pb(*old(g), *cfg) * spec_block_diff(
                        *old(g),
                        current_block_nonce,
                    )
                    &&& tr.users <= spec_users_apr_bound_pb(*old(g), *cfg) * spec_block_diff(
                        *old(g),
                        current_block_nonce,
                    )
                }
                &&& tr.spec_total() == spec_total_emission(*old(g), *cfg, current_block_nonce)
                &&& tr.spec_total() <= u128::MAX
            },
    {
        let ghost g0 = *g;
        if current_block_nonce <= g.last_reward_block_nonce || g.guild_closing {
            assert(!accrual_active(g0, current_block_nonce));
            return Ok(TotalRewards::zero());
        }
        let block_nonce_diff = current_block_nonce - g.last_reward_block_nonce;
        let extra_rewards_unbounded = g.per_block_reward_amount * (block_nonce_diff as u128);
        if extra_rewards_unbounded == 0 {
            g.last_reward_block_nonce = current_block_nonce;
            assert(!accrual_active(g0, current_block_nonce));
            return Ok(TotalRewards::zero());
        }
        if g.guild_master_tokens.is_default() {
            g.last_reward_block_nonce = current_block_nonce;
            assert(!accrual_active(g0, current_block_nonce));
            return Ok(TotalRewards::zero());
        }
        assert(accrual_active(g0, current_block_nonce));

        let guild_master_total = g.guild_master_tokens.total();
        let total_tokens = g.total_base_staked_tokens + g.total_compounded_tokens;
        assert(guild_master_total >= 1 && total_tokens >= 1);
        let guild_master_rewards = guild_master_total * extra_rewards_unbounded / total_tokens;
        proof {
            lemma_proportional_le(
                guild_master_total as int,
                extra_rewards_unbounded as int,
                total_tokens as int,
            );
        }
        let user_rewards = extra_rewards_unbounded - guild_master_rewards;
        let users_stake = total_tokens - guild_master_total;

        // APR bounds per class, per block, from the tier tables.
        let gm_tier = match find_guild_master_tier(cfg, guild_master_total) {
            Ok(t) => t,
            Err(e) => {
                return Err(e);
            },
        };
        proof {
            crate::tiers::lemma_first_matching_tier_matches(
                cfg.guild_master_tiers@,
                guild_master_total,
            );
            assert(gm_tier.apr <= MAX_TIER_APR);
            lemma_mul_inequality(
                g0.master_total(),
                g0.staked_total(),
                gm_tier.apr as int,
            );
            lemma_mul_inequality(gm_tier.apr as int, MAX_TIER_APR as int, g0.staked_total());
            assert(g0.master_total() * (gm_tier.apr as int) <= u128::MAX) by (nonlinear_arith)
                requires
                    0 <= g0.master_total() <= g0.staked_total(),
                    0 <= gm_tier.apr <= MAX_TIER_APR,
                    g0.staked_total() * (MAX_TIER_APR as int) <= u128::MAX,
            ;
        }
        let gm_bound_pb = guild_master_total * (gm_tier.apr as u128) / (MAX_PERCENT as u128)
            / (BLOCKS_IN_YEAR as u128);
        proof {
            lemma_apr_bound_le_stake(g0.master_total(), gm_tier.apr);
            lemma_mul_inequality(
                gm_bound_pb as int,
                g0.staked_total(),
                block_nonce_diff as int,
            );
            assert(gm_bound_pb * (block_nonce_diff as int) <= u128::MAX);
        }
        let gm_bound = gm_bound_pb * (block_nonce_diff as u128);

        let users_bound: u128 = if users_stake == 0 {
            0
        } else {
            let users_tier = match find_user_tier(cfg, users_stake) {
                Ok(t) => t,
                Err(e) => {
                    return Err(e);
                },
            };
            proof {
                crate::tiers::lemma_first_matching_tier_matches(cfg.user_tiers@, users_stake);
                assert(users_tier.apr <= MAX_TIER_APR);
                assert((users_stake as int) * (users_tier.apr as int) <= u128::MAX)
                    by (nonlinear_arith)
                    requires
                        0 <= users_stake as int <= g0.staked_total(),
                        0 <= users_tier.apr <= MAX_TIER_APR,
                        g0.staked_total() * (MAX_TIER_APR as int) <= u128::MAX,
                ;
            }
            let users_bound_pb = users_stake * (users_tier.apr as u128) / (MAX_PERCENT as u128)
                / (BLOCKS_IN_YEAR as u128);
            proof {
                lemma_apr_bound_le_stake(users_stake as int, users_tier.apr);
                lemma_mul_inequality(
                    users_bound_pb as int,
                    g0.staked_total(),
                    block_nonce_diff as int,
                );
            }
            users_bound_pb * (block_nonce_diff as u128)
        };

        g.last_reward_block_nonce = current_block_nonce;
        let tr = TotalRewards {
            guild_master: if guild_master_rewards <= gm_bound {
                guild_master_rewards
            } else {
                gm_bound
            },
            users: if user_rewards <= users_bound {
                user_rewards
            } else {
                users_bound
            },
        };
        Ok(tr)
    }
}

/// The reward a position is owed: the position size times the growth of its
/// class accumulator since the snapshot, scaled back down by the division
/// safety constant. Never negative: a snapshot at or ahead of the live value
/// earns zero.
pub open spec fn spec_calculate_rewards(
    farm_token_amount: u128,
    storage_rps: u128,
    token_rps: u128,
    division_safety_constant: u128,
) -> int {
    if storage_rps <= token_rps {
        0
    } else {
        farm_token_amount * (storage_rps - token_rps) / (division_safety_constant as int)
    }
}

impl FarmStakingWrapper {
    /// Computes the reward owed to a position of the given size and
    /// snapshot, against the live accumulator of the caller's class.
    pub fn calculate_rewards(
        g: &Guild,
        caller: u64,
        farm_token_amount: u128,
        token_attributes: &StakingFarmTokenAttributes,
        storage_cache: &StorageCache,
    ) -> (r: u128)
        requires
            storage_cache.division_safety_constant >= 1,
            farm_token_amount * (if caller == g.guild_master {
                storage_cache.guild_master_rps
            } else {
                storage_cache.user_rps
            } - token_attributes.reward_per_share) <= u128::MAX,
        ensures
            r == spec_calculate_rewards(
                farm_token_amount,
                if caller == g.guild_master {
                    storage_cache.guild_master_rps
                } else {
                    storage_cache.user_rps
                },
                token_attributes.reward_per_share,
                storage_cache.division_safety_constant,
            ),
            (if caller == g.guild_master {
                storage_cache.guild_master_rps
            } else {
                storage_cache.user_rps
            }) > token_attributes.reward_per_share ==> r <= farm_token_amount * (if caller
                == g.guild_master {
                storage_cache.guild_master_rps
            } else {
                storage_cache.user_rps
            } - token_attributes.reward_per_share),
    {
        let storage_rps = storage_cache.get_rps_by_user(g, caller);
        let token_rps = token_attributes.reward_per_share;
        if storage_rps <= token_rps {
            proof {
                if storage_rps > token_rps {
                } else {
                    assert(spec_calculate_rewards(
                        farm_token_amount,
                        storage_rps,
                        token_rps,
                        storage_cache.division_safety_constant,
                    ) == 0);
                }
            }
            return 0;
        }
        let rps_diff = storage_rps - token_rps;
        let r = farm_token_amount * rps_diff / storage_cache.division_safety_constant;
        proof {
            lemma_div_nonincreasing(
                farm_token_amount * rps_diff,
                storage_cache.division_safety_constant as int,
            );
            assert(farm_token_amount * rps_diff >= 0) by (nonlinear_arith);
        }
        r
    }

    /// The snapshot of a freshly entered position: the live accumulator,
    /// no compounded reward, the staked amount as principal.
    pub fn create_enter_farm_initial_attributes(
        farming_token_amount: u128,
        current_reward_per_share: u128,
    ) -> (r: StakingFarmTokenAttributes)
        ensures
            r == (StakingFarmTokenAttributes {
                reward_per_share: current_reward_per_share,
                compounded_reward: 0u128,
                current_farm_amount: farming_token_amount,
            }),
    {
        StakingFarmTokenAttributes {
            reward_per_share: current_reward_per_share,
            compounded_reward: 0,
            current_farm_amount: farming_token_amount,
        }
    }

    /// The replacement snapshot after a claim: the accumulator refreshes,
    /// the compounded reward and the principal carry over.
    pub fn create_claim_rewards_initial_attributes(
        first_token_attributes: StakingFarmTokenAttributes,
        current_reward_per_share: u128,
    ) -> (r: StakingFarmTokenAttributes)
        ensures
            r == (StakingFarmTokenAttributes {
                reward_per_share: current_reward_per_share,
                compounded_reward: first_token_attributes.compounded_reward,
                current_farm_amount: first_token_attributes.current_farm_amount,
            }),
    {
        StakingFarmTokenAttributes {
            reward_per_share: current_reward_per_share,
            compounded_reward: first_token_attributes.compounded_reward,
            current_farm_amount: first_token_attributes.current_farm_amount,
        }
    }

    /// The replacement snapshot after a compound: the claimed reward folds
    /// into both the compounded counter and the principal.
    pub fn create_compound_rewards_initial_attributes(
        first_token_attributes: StakingFarmTokenAttributes,
        current_reward_per_share: u128,
        reward: u128,
    ) -> (r: StakingFarmTokenAttributes)
        requires
            first_token_attributes.compounded_reward + reward <= u128::MAX,
            first_token_attributes.current_farm_amount + reward <= u128::MAX,
        ensures
            r == (StakingFarmTokenAttributes {
                reward_per_share: current_reward_per_share,
                compounded_reward: (first_token_attributes.compounded_reward + reward) as u128,
                current_farm_amount: (first_token_attributes.current_farm_amount + reward) as u128,
            }),
    {
        StakingFarmTokenAttributes {
            reward_per_share: current_reward_per_share,
            compounded_reward: first_token_attributes.compounded_reward + reward,
            current_farm_amount: first_token_attributes.current_farm_amount + reward,
        }
    }
}

} // verus!

verus! {

/// Rewards still mintable before the round: capacity minus what was already
/// emitted, after the optional top-up that an insufficient round requests
/// from the external funding source.
pub open spec fn spec_topped_capacity(g: Guild, cfg: GuildConfig, block: u64, received: u128) -> int {
    if spec_total_emission(g, cfg, block) > g.reward_capacity - g.accumulated_rewards {
        g.reward_capacity + received
    } else {
        g.reward_capacity as int
    }
}

/// Whether the round stalls: even after the top-up, the emission does not
/// fit the remaining capacity, so reward accrual silently does not advance.
pub open spec fn spec_stalled(g: Guild, cfg: GuildConfig, block: u64, received: u128) -> bool {
    spec_total_emission(g, cfg, block) > spec_topped_capacity(g, cfg, block, received)
        - g.accumulated_rewards
}

/// The growth of one class accumulator: the class reward scaled up by the
/// division safety constant and spread over the farm token supply, rounded
/// down. A zero supply leaves the accumulator untouched.
///
/// The denominator is deliberately the whole farm token supply — both
/// classes' positions — even though master and user stakes are tracked
/// separately. That is a known modeling tension, kept exactly as is:
/// spreading each class's reward over only its own stake would change
/// every historical reward output.
pub open spec fn spec_rps_increase(emission: int, dsc: u128, supply: u128) -> int {
    if supply == 0 {
        0
    } else {
        emission * dsc / (supply as int)
    }
}

/// Guild-master emission of the round, zero when accrual is inactive.
pub open spec fn spec_active_emission_gm(g: Guild, cfg: GuildConfig, block: u64) -> int {
    if accrual_active(g, block) {
        spec_emission_gm(g, cfg, block)
    } else {
        0
    }
}

/// Users emission of the round, zero when accrual is inactive.
pub open spec fn spec_active_emission_users(g: Guild, cfg: GuildConfig, block: u64) -> int {
    if accrual_active(g, block) {
        spec_emission_users(g, cfg, block)
    } else {
        0
    }
}

/// The guild state after one emission round, with the working set flushed
/// back: the one function every state-changing operation starts from.
pub open spec fn spec_generated(g: Guild, cfg: GuildConfig, block: u64, received: u128) -> Guild {
    let total = spec_total_emission(g, cfg, block);
    let cap = spec_topped_capacity(g, cfg, block, received);
    if spec_stalled(g, cfg, block, received) {
        Guild {
            last_reward_block_nonce: spec_new_nonce(g, block),
            reward_capacity: cap as u128,
            ..g
        }
    } else {
        Guild {
            last_reward_block_nonce: spec_new_nonce(g, block),
            reward_capacity: cap as u128,
            accumulated_rewards: (g.accumulated_rewards + total) as u128,
            reward_reserve: (g.reward_reserve + total) as u128,
            guild_master_rps: (g.guild_master_rps + spec_rps_increase(
                spec_active_emission_gm(g, cfg, block),
                g.division_safety_constant,
                g.farm_token_supply,
            )) as u128,
            user_rps: (g.user_rps + spec_rps_increase(
                spec_active_emission_users(g, cfg, block),
                g.division_safety_constant,
                g.farm_token_supply,
            )) as u128,
            ..g
        }
    }
}

/// The arithmetic room one emission round needs.
pub open spec fn generate_fits(g: Guild, block: u64, received: u128) -> bool {
    &&& mint_fits(g, block)
    &&& g.reward_capacity + received <= u128::MAX
    &&& (accrual_active(g, block) ==> {
        let u = spec_unbounded_rewards(g, block);
        &&& u * g.division_safety_constant <= u128::MAX
        &&& g.reward_reserve + u <= u128::MAX
        &&& g.guild_master_rps + u * g.division_safety_constant <= u128::MAX
        &&& g.user_rps + u * g.division_safety_constant <= u128::MAX
    })
}

impl FarmStakingWrapper {
    /// One full emission round against the call's working set. Computes the
    /// split-and-capped emission, requests a top-up from the external funding
    /// source when the remaining capacity is short (`received_rewards` is
    /// what that call returned), and — unless the round stalls — accounts
    /// the emission and advances the two reward-per-share accumulators.
    /// Both accumulators are monotonically non-decreasing across calls.
    pub fn generate_aggregated_rewards(
        g: &mut Guild,
        cfg: &GuildConfig,
        storage_cache: &mut StorageCache,
        current_block_nonce: u64,
        received_rewards: u128,
    ) -> (r: Result<(), GuildError>)
        requires
            old(g).wf(),
            cfg.wf(),
            old(storage_cache).loaded_from(*old(g)),
            generate_fits(*old(g), current_block_nonce, received_rewards),
        ensures
            final(g).wf(),
            r is Err <==> mint_tier_error(*old(g), *cfg, current_block_nonce),
            r is Err ==> *final(g) == *old(g) && *final(storage_cache) == *old(storage_cache)
                && r == Result::<(), GuildError>::Err(GuildError::TierNotFound),
            r is Ok ==> {
                let gen = spec_generated(*old(g), *cfg, current_block_nonce, received_rewards);
                &&& *final(g) == (Guild {
                    last_reward_block_nonce: gen.last_reward_block_nonce,
                    accumulated_rewards: gen.accumulated_rewards,
                    reward_capacity: gen.reward_capacity,
                    ..*old(g)
                })
                &&& *final(storage_cache) == (StorageCache {
                    reward_reserve: gen.reward_reserve,
                    guild_master_rps: gen.guild_master_rps,
                    user_rps: gen.user_rps,
                    ..*old(storage_cache)
                })
            },
            final(storage_cache).guild_master_rps >= old(storage_cache).guild_master_rps,
            final(storage_cache).user_rps >= old(storage_cache).user_rps,
            final(g).accumulated_rewards >= old(g).accumulated_rewards,
    {
        let ghost g0 = *g;
        let accumulated_rewards = g.accumulated_rewards;
        let reward_capacity = g.reward_capacity;
        let mut remaining_rewards = reward_capacity - accumulated_rewards;
        let split_rewards = match Self::mint_per_block_rewards(g, cfg, current_block_nonce) {
            Ok(s) => s,
            Err(e) => {
                return Err(e);
            },
        };
        proof {
            if accrual_active(g0, current_block_nonce) {
                assert(split_rewards.guild_master <= spec_gm_split(g0, current_block_nonce));
                assert(split_rewards.users <= spec_users_split(g0, current_block_nonce));
                assert(split_rewards.spec_total() <= spec_unbounded_rewards(
                    g0,
                    current_block_nonce,
                ));
            }
        }
        let total_reward = split_rewards.total();
        assert(total_reward == spec_total_emission(g0, *cfg, current_block_nonce));
        if total_reward > remaining_rewards {
            // The external funding call already transferred `received_rewards`.
            g.reward_capacity = reward_capacity + received_rewards;
            remaining_rewards = remaining_rewards + received_rewards;
        }
        assert(remaining_rewards == spec_topped_capacity(
            g0,
            *cfg,
            current_block_nonce,
            received_rewards,
        ) - g0.accumulated_rewards);
        if total_reward > remaining_rewards {
            return Ok(());
        }
        storage_cache.reward_reserve = storage_cache.reward_reserve + total_reward;
        g.accumulated_rewards = accumulated_rewards + total_reward;
        if storage_cache.farm_token_supply == 0 {
            return Ok(());
        }
        let ghost u = spec_unbounded_rewards(g0, current_block_nonce);
        proof {
            if accrual_active(g0, current_block_nonce) {
                lemma_mul_inequality(
                    split_rewards.guild_master as int,
                    u,
                    g0.division_safety_constant as int,
                );
                lemma_mul_inequality(
                    split_rewards.users as int,
                    u,
                    g0.division_safety_constant as int,
                );
            }
        }
        let increase_guild_master = split_rewards.guild_master
            * storage_cache.division_safety_constant / storage_cache.farm_token_supply;
        let increase_users = split_rewards.users * storage_cache.division_safety_constant
            / storage_cache.farm_token_supply;
        proof {
            lemma_div_nonincreasing(
                split_rewards.guild_master * storage_cache.division_safety_constant,
                storage_cache.farm_token_supply as int,
            );
            lemma_div_nonincreasing(
                split_rewards.users * storage_cache.division_safety_constant,
                storage_cache.farm_token_supply as int,
            );
            lemma_div_pos_is_pos(
                split_rewards.guild_master * storage_cache.division_safety_constant,
                storage_cache.farm_token_supply as int,
            );
            lemma_div_pos_is_pos(
                split_rewards.users * storage_cache.division_safety_constant,
                storage_cache.farm_token_supply as int,
            );
            assert(split_rewards.guild_master * storage_cache.division_safety_constant >= 0)
                by (nonlinear_arith);
            assert(split_rewards.users * storage_cache.division_safety_constant >= 0)
                by (nonlinear_arith);
        }
        storage_cache.guild_master_rps = storage_cache.guild_master_rps + increase_guild_master;
        storage_cache.user_rps = storage_cache.user_rps + increase_users;
        Ok(())
    }

    /// Marks the beginning of reward production for a freshly activated
    /// guild: emission counts blocks only from here on.
    pub fn start_produce_rewards(g: &mut Guild, current_block_nonce: u64)
        ensures
            *final(g) == (Guild {
                last_reward_block_nonce: current_block_nonce,
                ..*old(g)
            }),
    {
        g.last_reward_block_nonce = current_block_nonce;
    }

    /// Withdraws unemitted reward capacity. Runs one emission round first so
    /// that already-earned rewards stay covered: the withdrawal must leave at
    /// least the accumulated rewards in capacity, else nothing changes.
    pub fn withdraw_rewards(
        g: &mut Guild,
        cfg: &GuildConfig,
        current_block_nonce: u64,
        withdraw_amount: u128,
    ) -> (r: Result<(), GuildError>)
        requires
            old(g).wf(),
            cfg.wf(),
            generate_fits(*old(g), current_block_nonce, 0),
        ensures
            final(g).wf(),
            ({
                let gen = spec_generated(*old(g), *cfg, current_block_nonce, 0);
                &&& r is Ok <==> !mint_tier_error(*old(g), *cfg, current_block_nonce)
                    && withdraw_amount + gen.accumulated_rewards <= gen.reward_capacity
                &&& r matches Ok(()) ==> *final(g) == (Guild {
                    reward_capacity: (gen.reward_capacity - withdraw_amount) as u128,
                    ..gen
                })
                &&& r is Err ==> *final(g) == *old(g)
                &&& r is Err ==> (mint_tier_error(*old(g), *cfg, current_block_nonce) ==> r
                    == Result::<(), GuildError>::Err(GuildError::TierNotFound))
                &&& r is Err ==> (!mint_tier_error(*old(g), *cfg, current_block_nonce) ==> r
                    == Result::<(), GuildError>::Err(GuildError::WithdrawAmountTooHigh))
            }),
    {
        let saved_nonce = g.last_reward_block_nonce;
        let saved_accumulated = g.accumulated_rewards;
        let saved_capacity = g.reward_capacity;
        let mut storage_cache = StorageCache::new(g);
        match Self::generate_aggregated_rewards(g, cfg, &mut storage_cache, current_block_nonce, 0) {
            Ok(()) => {},
            Err(e) => {
                return Err(e);
            },
        }
        if withdraw_amount <= g.reward_capacity - g.accumulated_rewards {
            storage_cache.flush(g);
            g.reward_capacity = g.reward_capacity - withdraw_amount;
            Ok(())
        } else {
            // The whole call aborts: undo the emission round.
            g.last_reward_block_nonce = saved_nonce;
            g.accumulated_rewards = saved_accumulated;
            g.reward_capacity = saved_capacity;
            Err(GuildError::WithdrawAmountTooHigh)
        }
    }
}

/// No double accrual around a claim: a claim refreshes the position's
/// reward-per-share snapshot to the live class accumulator and records the
/// current block as emitted. An unstake in the same block then finds an
/// inactive emission round (the state does not move) and a zero owed reward,
/// so a stake, claim, unstake round trip returns the principal plus exactly
/// the reward the claim reported.
pub proof fn lemma_claim_then_unstake_no_double_accrual(
    g: Guild,
    cfg: GuildConfig,
    block: u64,
    caller: u64,
    amount: u128,
    attrs: StakingFarmTokenAttributes,
    received: u128,
)
    requires
        g.accumulated_rewards <= g.reward_capacity,
        g.last_reward_block_nonce == block,
        attrs.reward_per_share == g.rps_of(caller),
    ensures
        !accrual_active(g, block),
        spec_generated(g, cfg, block, received) == g,
        spec_calculate_rewards(
            amount,
            g.rps_of(caller),
            attrs.reward_per_share,
            g.division_safety_constant,
        ) == 0,
{
    assert(spec_total_emission(g, cfg, block) == 0);
    assert(!spec_stalled(g, cfg, block, received));
    assert(spec_generated(g, cfg, block, received) == g);
}

} // verus!
