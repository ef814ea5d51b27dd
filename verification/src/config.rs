//! The guild's read-only view of the shared configuration registry.
//!
//! The registry owns the tier tables and the scalar limits; every guild
//! reads them remotely and never writes them. The view is a consistent
//! snapshot as of the current block.

use vstd::prelude::*;
use crate::tiers::{RewardTier, MAX_PERCENT};

verus! {

/// The largest APR a published tier may carry, in `MAX_PERCENT` units
/// (one hundred times the full percentage scale). Published tiers stay
/// far below it; it gives reward arithmetic its headroom.
pub const MAX_TIER_APR: u64 = 100 * 10_000;

#[derive(Debug)]
pub struct GuildConfig {
    pub guild_master_tiers: Vec<RewardTier>,
    pub user_tiers: Vec<RewardTier>,
    pub max_staked_tokens: u128,
    pub min_unbond_epochs_user: u64,
    pub min_unbond_epochs_guild_master: u64,
    pub min_stake_user: u128,
    pub min_stake_guild_master: u128,
}

impl GuildConfig {
    /// Validity of a published configuration: every tier's APR is on the
    /// percentage scale.
    pub open spec fn wf(self) -> bool {
        &&& forall|i: int|
            0 <= i < self.guild_master_tiers@.len() ==> (#[trigger] self.guild_master_tiers@[i]).apr
                <= MAX_TIER_APR
        &&& forall|i: int|
            0 <= i < self.user_tiers@.len() ==> (#[trigger] self.user_tiers@[i]).apr
                <= MAX_TIER_APR
    }

    pub fn get_max_staked_tokens(&self) -> (r: u128)
        ensures
            r == self.max_staked_tokens,
    {
        self.max_staked_tokens
    }

    pub fn get_min_unbond_epochs_user(&self) -> (r: u64)
        ensures
            r == self.min_unbond_epochs_user,
    {
        self.min_unbond_epochs_user
    }

    pub fn get_min_unbond_epochs_guild_master(&self) -> (r: u64)
        ensures
            r == self.min_unbond_epochs_guild_master,
    {
        self.min_unbond_epochs_guild_master
    }

    pub fn get_min_stake_user(&self) -> (r: u128)
        ensures
            r == self.min_stake_user,
    {
        self.min_stake_user
    }

    pub fn get_min_stake_guild_master(&self) -> (r: u128)
        ensures
            r == self.min_stake_guild_master,
    {
        self.min_stake_guild_master
    }

    /// Setup completeness as the factory checks it: both tier tables are
    /// published and non-empty.
    pub fn is_setup_complete(&self) -> (r: bool)
        ensures
            r == (self.guild_master_tiers@.len() > 0 && self.user_tiers@.len() > 0),
    {
        self.guild_master_tiers.len() > 0 && self.user_tiers.len() > 0
    }
}

} // verus!
