//! The persistent state of one guild and its token ledger.
//!
//! The ledger tracks the aggregate base and compounded stake of the guild
//! master and of every user, the two reward-per-share accumulators, the farm
//! token supply and the reward reserve. All amounts are plain unsigned
//! integers; an arithmetic underflow would be a fatal fault and is ruled out
//! by preconditions.

use std::collections::HashMap;
use vstd::prelude::*;
use crate::config::GuildConfig;
use crate::errors::GuildError;
use crate::tiers::{find_tier_common, first_matching_tier, some_tier_matches, RewardTier};
use crate::total_tokens::TotalTokens;

verus! {

broadcast use vstd::std_specs::hash::group_hash_axioms;

pub struct Guild {
    /// Address of the guild master, fixed at deployment.
    pub guild_master: u64,
    pub farm_token_id: u64,
    pub unbond_token_id: u64,
    /// Fixed scaling factor keeping reward-per-share arithmetic precise
    /// under integer division.
    pub division_safety_constant: u128,
    pub per_block_reward_amount: u128,
    pub last_reward_block_nonce: u64,
    /// Rewards emitted since genesis; never exceeds the capacity.
    pub accumulated_rewards: u128,
    /// Total rewards this guild may ever emit.
    pub reward_capacity: u128,
    /// Emitted but not yet paid-out rewards.
    pub reward_reserve: u128,
    pub guild_master_rps: u128,
    pub user_rps: u128,
    /// Sum of all outstanding farm-position token balances.
    pub farm_token_supply: u128,
    pub total_base_staked_tokens: u128,
    pub total_compounded_tokens: u128,
    pub guild_master_tokens: TotalTokens,
    pub user_tokens: HashMap<u64, TotalTokens>,
    /// Boosted rewards carried per user until claimed.
    pub accumulated_rewards_per_user: HashMap<u64, u128>,
    /// Whether a user permits third parties to claim boosted rewards on
    /// their behalf.
    pub allow_external_claim: HashMap<u64, bool>,
    pub first_week_start_epoch: u64,
    pub guild_closing: bool,
    pub paused: bool,
    pub unbond_token_issued: bool,
    pub next_farm_token_nonce: u64,
    pub next_unbond_token_nonce: u64,
}

impl Guild {
    /// Total stake registered in the ledger, base plus compounded.
    pub open spec fn staked_total(self) -> int {
        self.total_base_staked_tokens + self.total_compounded_tokens
    }

    /// The guild master's registered stake.
    pub open spec fn master_total(self) -> int {
        self.guild_master_tokens.spec_total()
    }

    /// The ordinary users' registered stake.
    pub open spec fn users_stake(self) -> int {
        self.staked_total() - self.master_total()
    }

    /// The ledger record of an actor; an absent record reads as all-zero,
    /// exactly as the host storage does.
    pub open spec fn spec_tokens_of(self, user: u64) -> TotalTokens {
        if user == self.guild_master {
            self.guild_master_tokens
        } else if self.user_tokens@.contains_key(user) {
            self.user_tokens@[user]
        } else {
            TotalTokens { base: 0, compounded: 0 }
        }
    }

    /// The reward-per-share accumulator of an actor's class.
    pub open spec fn rps_of(self, user: u64) -> u128 {
        if user == self.guild_master {
            self.guild_master_rps
        } else {
            self.user_rps
        }
    }

    /// The central conservation property of the ledger: the sum of all
    /// outstanding position balances equals the registered base plus
    /// compounded totals. Every position-lifecycle operation preserves it.
    pub open spec fn tokens_balanced(self) -> bool {
        self.farm_token_supply == self.staked_total()
    }

    /// Well-formedness of a guild state.
    pub open spec fn wf(self) -> bool {
        &&& self.division_safety_constant >= 1
        &&& self.accumulated_rewards <= self.reward_capacity
        &&& self.guild_master_tokens.fits()
        &&& self.staked_total() <= u128::MAX
        &&& forall|u: u64|
            self.user_tokens@.contains_key(u) ==> (#[trigger] self.user_tokens@[u]).fits()
    }

    /// A freshly deployed guild: empty ledger, zero accumulators, not
    /// closing, not yet activated.
    pub fn new(
        guild_master: u64,
        farm_token_id: u64,
        unbond_token_id: u64,
        division_safety_constant: u128,
        per_block_reward_amount: u128,
    ) -> (g: Guild)
        requires
            division_safety_constant >= 1,
        ensures
            g.wf(),
            g.tokens_balanced(),
            g.guild_master == guild_master,
            g.farm_token_id == farm_token_id,
            g.unbond_token_id == unbond_token_id,
            g.division_safety_constant == division_safety_constant,
            g.per_block_reward_amount == per_block_reward_amount,
            g.last_reward_block_nonce == 0,
            g.accumulated_rewards == 0,
            g.reward_capacity == 0,
            g.reward_reserve == 0,
            g.guild_master_rps == 0,
            g.user_rps == 0,
            g.farm_token_supply == 0,
            g.total_base_staked_tokens == 0,
            g.total_compounded_tokens == 0,
            g.guild_master_tokens == (TotalTokens { base: 0u128, compounded: 0u128 }),
            g.user_tokens@ == Map::<u64, TotalTokens>::empty(),
            g.accumulated_rewards_per_user@ == Map::<u64, u128>::empty(),
            g.allow_external_claim@ == Map::<u64, bool>::empty(),
            g.first_week_start_epoch == 0,
            !g.guild_closing,
            !g.paused,
            !g.unbond_token_issued,
            g.next_farm_token_nonce == 1,
            g.next_unbond_token_nonce == 1,
    {
        Guild {
            guild_master,
            farm_token_id,
            unbond_token_id,
            division_safety_constant,
            per_block_reward_amount,
            last_reward_block_nonce: 0,
            accumulated_rewards: 0,
            reward_capacity: 0,
            reward_reserve: 0,
            guild_master_rps: 0,
            user_rps: 0,
            farm_token_supply: 0,
            total_base_staked_tokens: 0,
            total_compounded_tokens: 0,
            guild_master_tokens: TotalTokens::default(),
            user_tokens: HashMap::new(),
            accumulated_rewards_per_user: HashMap::new(),
            allow_external_claim: HashMap::new(),
            first_week_start_epoch: 0,
            guild_closing: false,
            paused: false,
            unbond_token_issued: false,
            next_farm_token_nonce: 1,
            next_unbond_token_nonce: 1,
        }
    }

    /// The ledger record of the given actor, master or user.
    pub fn get_user_staked_tokens(&self, user: u64) -> (r: TotalTokens)
        ensures
            r == self.spec_tokens_of(user),
    {
        if user != self.guild_master {
            match self.user_tokens.get(&user) {
                Some(t) => *t,
                None => TotalTokens::default(),
            }
        } else {
            if !self.guild_master_tokens.is_default() {
                self.guild_master_tokens
            } else {
                TotalTokens::default()
            }
        }
    }

    /// Raises the guild-wide base-stake counter, enforcing the global
    /// staking cap of the configuration registry. On failure nothing
    /// changes: the whole enclosing operation aborts.
    pub fn add_total_base_staked_tokens(&mut self, cfg: &GuildConfig, amount: u128) -> (r: Result<
        (),
        GuildError,
    >)
        requires
            old(self).total_base_staked_tokens + amount <= u128::MAX,
        ensures
            r is Ok <==> old(self).total_base_staked_tokens + amount <= cfg.max_staked_tokens,
            r matches Ok(()) ==> *final(self) == (Guild {
                total_base_staked_tokens: (old(self).total_base_staked_tokens + amount) as u128,
                ..*old(self)
            }),
            r is Err ==> *final(self) == *old(self) && r == Result::<(), GuildError>::Err(
                GuildError::StakeCapExceeded,
            ),
    {
        let new_total = self.total_base_staked_tokens + amount;
        if new_total <= cfg.max_staked_tokens {
            self.total_base_staked_tokens = new_total;
            Ok(())
        } else {
            Err(GuildError::StakeCapExceeded)
        }
    }

    /// Lowers the guild-wide base-stake counter; an underflow would be a
    /// fatal fault, so callers never remove more than is registered.
    pub fn remove_total_base_staked_tokens(&mut self, amount: u128)
        requires
            amount <= old(self).total_base_staked_tokens,
        ensures
            *final(self) == (Guild {
                total_base_staked_tokens: (old(self).total_base_staked_tokens - amount) as u128,
                ..*old(self)
            }),
    {
        self.total_base_staked_tokens = self.total_base_staked_tokens - amount;
    }

    /// Routes an addition to the master's or the calling user's record,
    /// creating the record on first use.
    pub fn add_tokens(&mut self, caller: u64, tokens: &TotalTokens)
        requires
            old(self).spec_tokens_of(caller).base + tokens.base <= u128::MAX,
            old(self).spec_tokens_of(caller).compounded + tokens.compounded <= u128::MAX,
        ensures
            final(self).spec_tokens_of(caller) == (TotalTokens {
                base: (old(self).spec_tokens_of(caller).base + tokens.base) as u128,
                compounded: (old(self).spec_tokens_of(caller).compounded
                    + tokens.compounded) as u128,
            }),
            forall|u: u64|
                u != caller ==> final(self).spec_tokens_of(u) == old(self).spec_tokens_of(u),
            caller == old(self).guild_master ==> *final(self) == (Guild {
                guild_master_tokens: final(self).guild_master_tokens,
                ..*old(self)
            }),
            caller != old(self).guild_master ==> *final(self) == (Guild {
                user_tokens: final(self).user_tokens,
                ..*old(self)
            }) && final(self).user_tokens@ == old(self).user_tokens@.insert(
                caller,
                final(self).spec_tokens_of(caller),
            ),
    {
        if caller != self.guild_master {
            let mut current = match self.user_tokens.get(&caller) {
                Some(t) => *t,
                None => TotalTokens::default(),
            };
            add_tokens_common(&mut current, tokens);
            self.user_tokens.insert(caller, current);
        } else {
            let mut current = self.guild_master_tokens;
            add_tokens_common(&mut current, tokens);
            self.guild_master_tokens = current;
        }
    }

    /// Routes a removal to the master's or the calling user's record.
    pub fn remove_tokens(&mut self, caller: u64, tokens: &TotalTokens)
        requires
            tokens.base <= old(self).spec_tokens_of(caller).base,
            tokens.compounded <= old(self).spec_tokens_of(caller).compounded,
        ensures
            final(self).spec_tokens_of(caller) == (TotalTokens {
                base: (old(self).spec_tokens_of(caller).base - tokens.base) as u128,
                compounded: (old(self).spec_tokens_of(caller).compounded
                    - tokens.compounded) as u128,
            }),
            forall|u: u64|
                u != caller ==> final(self).spec_tokens_of(u) == old(self).spec_tokens_of(u),
            caller == old(self).guild_master ==> *final(self) == (Guild {
                guild_master_tokens: final(self).guild_master_tokens,
                ..*old(self)
            }),
            caller != old(self).guild_master ==> *final(self) == (Guild {
                user_tokens: final(self).user_tokens,
                ..*old(self)
            }) && final(self).user_tokens@ == old(self).user_tokens@.insert(
                caller,
                final(self).spec_tokens_of(caller),
            ),
    {
        if caller != self.guild_master {
            let mut current = match self.user_tokens.get(&caller) {
                Some(t) => *t,
                None => TotalTokens::default(),
            };
            remove_tokens_common(&mut current, tokens);
            self.user_tokens.insert(caller, current);
        } else {
            let mut current = self.guild_master_tokens;
            remove_tokens_common(&mut current, tokens);
            self.guild_master_tokens = current;
        }
    }

    /// Total stake of an actor, base plus compounded.
    pub fn get_total_stake_for_user(&self, user: u64) -> (r: u128)
        requires
            self.spec_tokens_of(user).fits(),
        ensures
            r == self.spec_tokens_of(user).spec_total(),
    {
        let total_tokens = self.get_user_staked_tokens(user);
        total_tokens.total()
    }

    /// After any stake-decreasing operation: the actor's remaining total
    /// stake must either be zero (permitted only for ordinary users) or at
    /// least the tier-resolved minimum for their role.
    pub fn require_over_min_stake(&self, cfg: &GuildConfig, user: u64) -> (r: Result<
        (),
        GuildError,
    >)
        requires
            self.spec_tokens_of(user).fits(),
        ensures
            r is Ok <==> {
                let total = self.spec_tokens_of(user).spec_total();
                ||| (user != self.guild_master && total == 0)
                ||| total >= self.spec_min_stake_for_user(*cfg, user)
            },
            r is Err ==> r == Result::<(), GuildError>::Err(GuildError::BelowMinimumStake),
    {
        let total_stake = self.get_total_stake_for_user(user);
        if user != self.guild_master && total_stake == 0 {
            return Ok(());
        }
        let min_stake = self.get_min_stake_for_user(cfg, user);
        if total_stake >= min_stake {
            Ok(())
        } else {
            Err(GuildError::BelowMinimumStake)
        }
    }

    /// The tier table that applies to an actor's role.
    pub open spec fn spec_tier_table(self, cfg: GuildConfig, user: u64) -> Seq<RewardTier> {
        if user == self.guild_master {
            cfg.guild_master_tiers@
        } else {
            cfg.user_tiers@
        }
    }

    /// The minimum stake that applies to an actor's role.
    pub open spec fn spec_min_stake_for_user(self, cfg: GuildConfig, user: u64) -> u128 {
        if user == self.guild_master {
            cfg.min_stake_guild_master
        } else {
            cfg.min_stake_user
        }
    }

    pub fn get_min_stake_for_user(&self, cfg: &GuildConfig, user: u64) -> (r: u128)
        ensures
            r == self.spec_min_stake_for_user(*cfg, user),
    {
        if user != self.guild_master {
            cfg.get_min_stake_user()
        } else {
            cfg.get_min_stake_guild_master()
        }
    }

    /// Resolves the reward tier of an actor: dispatches to the master or the
    /// user table by role, then returns the first tier whose inclusive range
    /// contains the staked amount.
    pub fn find_any_user_tier(&self, cfg: &GuildConfig, user: u64, base_farming_amount: u128) -> (r:
        Result<RewardTier, GuildError>)
        ensures
            r is Ok <==> some_tier_matches(self.spec_tier_table(*cfg, user), base_farming_amount),
            r matches Ok(t) ==> t == self.spec_tier_table(*cfg, user)[first_matching_tier(
                self.spec_tier_table(*cfg, user),
                base_farming_amount,
            )],
            r is Err ==> r == Result::<RewardTier, GuildError>::Err(GuildError::TierNotFound),
    {
        if user != self.guild_master {
            find_user_tier(cfg, base_farming_amount)
        } else {
            find_guild_master_tier(cfg, base_farming_amount)
        }
    }
}

/// Adds both fields of a record in place.
pub fn add_tokens_common(total_tokens: &mut TotalTokens, tokens: &TotalTokens)
    requires
        old(total_tokens).base + tokens.base <= u128::MAX,
        old(total_tokens).compounded + tokens.compounded <= u128::MAX,
    ensures
        *final(total_tokens) == (TotalTokens {
            base: (old(total_tokens).base + tokens.base) as u128,
            compounded: (old(total_tokens).compounded + tokens.compounded) as u128,
        }),
{
    total_tokens.base = total_tokens.base + tokens.base;
    total_tokens.compounded = total_tokens.compounded + tokens.compounded;
}

/// Subtracts both fields of a record in place.
pub fn remove_tokens_common(total_tokens: &mut TotalTokens, tokens: &TotalTokens)
    requires
        tokens.base <= old(total_tokens).base,
        tokens.compounded <= old(total_tokens).compounded,
    ensures
        *final(total_tokens) == (TotalTokens {
            base: (old(total_tokens).base - tokens.base) as u128,
            compounded: (old(total_tokens).compounded - tokens.compounded) as u128,
        }),
{
    total_tokens.base = total_tokens.base - tokens.base;
    total_tokens.compounded = total_tokens.compounded - tokens.compounded;
}

/// First guild-master tier containing the amount.
pub fn find_guild_master_tier(cfg: &GuildConfig, base_farming_amount: u128) -> (r: Result<
    RewardTier,
    GuildError,
>)
    ensures
        r is Ok <==> some_tier_matches(cfg.guild_master_tiers@, base_farming_amount),
        r matches Ok(t) ==> t == cfg.guild_master_tiers@[first_matching_tier(
            cfg.guild_master_tiers@,
            base_farming_amount,
        )],
        r is Err ==> r == Result::<RewardTier, GuildError>::Err(GuildError::TierNotFound),
{
    find_tier_common(&cfg.guild_master_tiers, base_farming_amount)
}

/// First user tier containing the amount.
pub fn find_user_tier(cfg: &GuildConfig, base_farming_amount: u128) -> (r: Result<
    RewardTier,
    GuildError,
>)
    ensures
        r is Ok <==> some_tier_matches(cfg.user_tiers@, base_farming_amount),
        r matches Ok(t) ==> t == cfg.user_tiers@[first_matching_tier(
            cfg.user_tiers@,
            base_farming_amount,
        )],
        r is Err ==> r == Result::<RewardTier, GuildError>::Err(GuildError::TierNotFound),
{
    find_tier_common(&cfg.user_tiers, base_farming_amount)
}

} // verus!
