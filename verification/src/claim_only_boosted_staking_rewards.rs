//! Claiming boosted rewards alone, without touching a position.
//!
//! The size of the boosted reward itself comes from the energy-weighted
//! weekly bookkeeping, an external collaborator; this module takes that
//! computed amount, adds whatever was carried for the user, gates the claim
//! by the reward-start epoch and by the user's delegated-claim permission,
//! and pays from the reward reserve.

use vstd::prelude::*;
use crate::errors::GuildError;
use crate::guild::Guild;

verus! {

broadcast use vstd::std_specs::hash::group_hash_axioms;

/// Pays one computed boosted reward from the reserve. `reward` is what the
/// external weekly-rewards computation determined for the caller; whatever
/// its value, the reserve shrinks by exactly that amount and the same amount
/// is returned.
pub fn claim_only_boosted_payment(g: &mut Guild, caller: u64, reward: u128) -> (r: u128)
    requires
        reward <= old(g).reward_reserve,
    ensures
        r == reward,
        *final(g) == (Guild {
            reward_reserve: (old(g).reward_reserve - reward) as u128,
            ..*old(g)
        }),
{
    if reward > 0 {
        g.reward_reserve = g.reward_reserve - reward;
    }
    reward
}

/// The boosted reward carried for a user, read without clearing.
pub open spec fn spec_accumulated_boosted(g: Guild, user: u64) -> u128 {
    if g.accumulated_rewards_per_user@.contains_key(user) {
        g.accumulated_rewards_per_user@[user]
    } else {
        0
    }
}

/// Whether a user permits others to claim their boosted rewards.
pub open spec fn spec_allows_external_claim(g: Guild, user: u64) -> bool {
    g.allow_external_claim@.contains_key(user) && g.allow_external_claim@[user]
}

/// Claims the boosted rewards of `user` (the caller, unless a delegate
/// claims on a permitting user's behalf): the carried amount is taken and
/// paid together with the externally computed current boosted reward. Before
/// the reward-start epoch nothing can be claimed; a delegate needs the
/// user's standing permission.
pub fn claim_boosted_rewards(
    g: &mut Guild,
    current_epoch: u64,
    caller: u64,
    opt_user: Option<u64>,
    boosted_reward: u128,
) -> (r: Result<u128, GuildError>)
    requires
        ({
            let user = if opt_user is Some {
                opt_user.unwrap()
            } else {
                caller
            };
            &&& boosted_reward <= old(g).reward_reserve
            &&& spec_accumulated_boosted(*old(g), user) + boosted_reward <= u128::MAX
        }),
    ensures
        ({
            let user = if opt_user is Some {
                opt_user.unwrap()
            } else {
                caller
            };
            &&& r is Ok <==> old(g).first_week_start_epoch <= current_epoch && (user == caller
                || spec_allows_external_claim(*old(g), user))
            &&& old(g).first_week_start_epoch > current_epoch ==> r == Result::<
                u128,
                GuildError,
            >::Err(GuildError::CannotClaimYet)
            &&& old(g).first_week_start_epoch <= current_epoch && !(user == caller
                || spec_allows_external_claim(*old(g), user)) ==> r == Result::<
                u128,
                GuildError,
            >::Err(GuildError::CannotClaimForAddress)
            &&& r is Err ==> *final(g) == *old(g)
            &&& r matches Ok(paid) ==> {
                &&& paid == spec_accumulated_boosted(*old(g), user) + boosted_reward
                &&& *final(g) == (Guild {
                    reward_reserve: (old(g).reward_reserve - boosted_reward) as u128,
                    accumulated_rewards_per_user: final(g).accumulated_rewards_per_user,
                    ..*old(g)
                })
                &&& final(g).accumulated_rewards_per_user@ == old(
                    g,
                ).accumulated_rewards_per_user@.remove(user)
            }
        }),
{
    if g.first_week_start_epoch > current_epoch {
        return Err(GuildError::CannotClaimYet);
    }
    let user = match opt_user {
        Some(u) => u,
        None => caller,
    };
    if user != caller {
        let allowed = match g.allow_external_claim.get(&user) {
            Some(b) => *b,
            None => false,
        };
        if !allowed {
            return Err(GuildError::CannotClaimForAddress);
        }
    }
    let accumulated_boosted_rewards = match g.accumulated_rewards_per_user.remove(&user) {
        Some(v) => v,
        None => 0,
    };
    let paid = claim_only_boosted_payment(g, user, boosted_reward);
    Ok(accumulated_boosted_rewards + paid)
}

} // verus!
