//! A multi-tenant staking ledger organized into independent guilds.
//!
//! A factory deploys guild instances; each guild accrues block-based rewards
//! and distributes them between a single guild master and ordinary stakers,
//! bounded per actor class by tier-based APR caps. The crate models the
//! on-chain state of a guild and of the factory as plain values and verifies
//! the reward-accounting and position-lifecycle rules over them; token
//! transfers, contract deployment and storage transport are the host
//! platform's concern and stay outside.

pub mod claim_only_boosted_staking_rewards;
pub mod claim_stake_farm_rewards;
pub mod config;
pub mod errors;
pub mod factory;
pub mod guild;
pub mod rewards;
pub mod stake_farm;
pub mod tiers;
pub mod token_attributes;
pub mod token_display;
pub mod total_tokens;
pub mod user_actions;
