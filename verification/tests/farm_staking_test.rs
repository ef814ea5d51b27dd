use guild_sc::claim_stake_farm_rewards::claim_rewards;
use guild_sc::config::GuildConfig;
use guild_sc::errors::GuildError;
use guild_sc::factory::Factory;
use guild_sc::guild::Guild;
use guild_sc::rewards::FarmStakingWrapper;
use guild_sc::stake_farm::stake_farm_common;
use guild_sc::tiers::{RewardTier, BLOCKS_IN_YEAR, MAX_PERCENT};
use guild_sc::token_attributes::FarmTokenPayment;
use guild_sc::user_actions::{cancel_unbond, unbond_farm, unstake_farm};

const FARM_TOKEN_ID: u64 = 2;
const UNBOND_TOKEN_ID: u64 = 3;
const DIVISION_SAFETY_CONSTANT: u128 = 1_000_000_000_000;
const PER_BLOCK_REWARD_AMOUNT: u128 = 5_000;
const TOTAL_REWARDS_AMOUNT: u128 = 1_000_000_000_000;
const MAX_APR: u128 = 2_500;
const MIN_UNBOND_EPOCHS: u64 = 5;
const USER_TOTAL_RIDE_TOKENS: u128 = 5_000_000_000;

const FACTORY_OWNER: u64 = 5;
const CONFIG_SC_ADDRESS: u64 = 50;
const SOURCE_ADDRESS: u64 = 60;
const MASTER: u64 = 10;
const USER: u64 = 11;
const GUILD_ADDR: u64 = 200;

fn make_config() -> GuildConfig {
    let tier = RewardTier {
        min_stake: 1,
        max_stake: 1_000_000_000_000_000_000,
        apr: MAX_APR as u64,
    };
    GuildConfig {
        guild_master_tiers: vec![tier],
        user_tiers: vec![tier],
        max_staked_tokens: 1_000_000_000_000_000_000,
        min_unbond_epochs_user: MIN_UNBOND_EPOCHS,
        min_unbond_epochs_guild_master: MIN_UNBOND_EPOCHS,
        min_stake_user: 1,
        min_stake_guild_master: 1,
    }
}

fn make_factory(cfg: &GuildConfig) -> Factory {
    let mut f = Factory::new(FACTORY_OWNER);
    f.config_sc_address = CONFIG_SC_ADDRESS;
    f.guild_sc_source_address = SOURCE_ADDRESS;
    f.max_active_guilds = 2;
    f.deploy_guild(cfg, MASTER, GUILD_ADDR).unwrap();
    f.resume_guild_endpoint(cfg, GUILD_ADDR, true).unwrap();
    f
}

/// The guild as its own test harness builds it: the master seeds the farm
/// with a single staked token through the ordinary staking flow.
fn setup() -> (Guild, GuildConfig, Factory) {
    let cfg = make_config();
    let f = make_factory(&cfg);
    let mut g = Guild::new(
        MASTER,
        FARM_TOKEN_ID,
        UNBOND_TOKEN_ID,
        DIVISION_SAFETY_CONSTANT,
        PER_BLOCK_REWARD_AMOUNT,
    );
    g.reward_capacity = TOTAL_REWARDS_AMOUNT;
    g.unbond_token_issued = true;
    let seed = stake_farm_common(&mut g, &cfg, &f, GUILD_ADDR, MASTER, 1, &Vec::new(), 0, 0)
        .unwrap();
    assert_eq!(seed.token_nonce, 1);
    (g, cfg, f)
}

fn stake(
    g: &mut Guild,
    cfg: &GuildConfig,
    f: &Factory,
    amount: u128,
    prev_tokens: &[FarmTokenPayment],
    block: u64,
) -> FarmTokenPayment {
    stake_farm_common(g, cfg, f, GUILD_ADDR, USER, amount, &prev_tokens.to_vec(), block, 0)
        .unwrap()
}

fn check_farm_token_supply(g: &Guild, expected: u128) {
    assert_eq!(g.farm_token_supply, expected);
}

#[test]
fn test_farm_setup() {
    let _ = setup();
}

#[test]
fn farm_staking_test_test_enter_farm() {
    let (mut g, cfg, f) = setup();

    let farm_in_amount = 100_000_000;
    let expected_farm_token_nonce = 2;
    let token = stake(&mut g, &cfg, &f, farm_in_amount, &[], 0);
    assert_eq!(token.token_nonce, expected_farm_token_nonce);
    assert_eq!(token.amount, farm_in_amount);
    assert_eq!(token.attributes.reward_per_share, 0);
    assert_eq!(token.attributes.compounded_reward, 0);
    check_farm_token_supply(&g, farm_in_amount + 1);
}

#[test]
fn farm_staking_test_test_unstake_farm() {
    let (mut g, cfg, f) = setup();

    let farm_in_amount = 100_000_000;
    let expected_farm_token_nonce = 2;
    let token = stake(&mut g, &cfg, &f, farm_in_amount, &[], 0);
    assert_eq!(token.token_nonce, expected_farm_token_nonce);
    check_farm_token_supply(&g, farm_in_amount + 1);

    let current_block = 10;
    let current_epoch = 5;

    let block_diff = current_block as u128;
    let expected_rewards_unbounded = block_diff * PER_BLOCK_REWARD_AMOUNT;
    let expected_rewards_max_apr = farm_in_amount * MAX_APR / (MAX_PERCENT as u128)
        / (BLOCKS_IN_YEAR as u128) * block_diff - 1;
    let expected_rewards = expected_rewards_unbounded.min(expected_rewards_max_apr);
    assert_eq!(expected_rewards, 39);

    let expected_ride_token_balance = USER_TOTAL_RIDE_TOKENS - farm_in_amount + expected_rewards;
    let (unbond_token, reward) =
        unstake_farm(&mut g, &cfg, current_block, current_epoch, USER, &token, 0).unwrap();
    assert_eq!(reward, expected_rewards);
    assert_eq!(unbond_token.token_nonce, 1);
    assert_eq!(unbond_token.amount, farm_in_amount);
    let user_balance = USER_TOTAL_RIDE_TOKENS - farm_in_amount + reward;
    assert_eq!(user_balance, expected_ride_token_balance);
    check_farm_token_supply(&g, 1);
}

#[test]
fn farm_staking_test_test_claim_rewards() {
    let (mut g, cfg, f) = setup();

    let farm_in_amount = 100_000_000;
    let expected_farm_token_nonce = 2;
    let token = stake(&mut g, &cfg, &f, farm_in_amount, &[], 0);
    assert_eq!(token.token_nonce, expected_farm_token_nonce);
    check_farm_token_supply(&g, farm_in_amount + 1);

    let expected_reward_token_out = 39;
    let expected_farming_token_balance =
        USER_TOTAL_RIDE_TOKENS - farm_in_amount + expected_reward_token_out;
    let expected_reward_per_share = 399_999;
    let (new_token, reward) =
        claim_rewards(&mut g, &cfg, 10, 5, USER, &vec![token], 0).unwrap();
    assert_eq!(reward, expected_reward_token_out);
    assert_eq!(new_token.token_nonce, expected_farm_token_nonce + 1);
    assert_eq!(new_token.amount, farm_in_amount);
    assert_eq!(new_token.attributes.reward_per_share, expected_reward_per_share);
    let user_balance = USER_TOTAL_RIDE_TOKENS - farm_in_amount + reward;
    assert_eq!(user_balance, expected_farming_token_balance);
    check_farm_token_supply(&g, farm_in_amount + 1);
}

fn steps_enter_farm_twice() -> (Guild, GuildConfig, Factory, FarmTokenPayment) {
    let (mut g, cfg, f) = setup();

    let farm_in_amount = 100_000_000;
    let expected_farm_token_nonce = 2;
    let first = stake(&mut g, &cfg, &f, farm_in_amount, &[], 0);
    assert_eq!(first.token_nonce, expected_farm_token_nonce);
    check_farm_token_supply(&g, farm_in_amount + 1);

    let second_farm_in_amount = 200_000_000;
    let total_amount = farm_in_amount + second_farm_in_amount + 1;
    let first_reward_share = 0;
    let second_reward_share = 399_999;
    let expected_reward_per_share = (first_reward_share * farm_in_amount
        + second_reward_share * second_farm_in_amount
        + total_amount
        - 1)
        / total_amount;

    let merged = stake(&mut g, &cfg, &f, second_farm_in_amount, &[first], 10);
    assert_eq!(merged.token_nonce, expected_farm_token_nonce + 1);
    assert_eq!(merged.attributes.reward_per_share, expected_reward_per_share);
    check_farm_token_supply(&g, total_amount);

    (g, cfg, f, merged)
}

#[test]
fn farm_staking_test_test_enter_farm_twice() {
    let _ = steps_enter_farm_twice();
}

#[test]
fn farm_staking_test_test_exit_farm_after_enter_twice() {
    let (mut g, cfg, _f, merged) = steps_enter_farm_twice();
    let farm_in_amount = 100_000_000;
    let second_farm_in_amount = 200_000_000;

    // Unstake the first stake's worth out of the merged position.
    let part = FarmTokenPayment {
        amount: farm_in_amount,
        ..merged
    };
    let expected_rewards = 83;
    let expected_ride_token_balance =
        USER_TOTAL_RIDE_TOKENS - farm_in_amount - second_farm_in_amount + expected_rewards;
    let (unbond_token, reward) = unstake_farm(&mut g, &cfg, 25, 8, USER, &part, 0).unwrap();
    assert_eq!(reward, expected_rewards);
    assert_eq!(unbond_token.token_nonce, 1);
    assert_eq!(unbond_token.amount, farm_in_amount);
    let user_balance =
        USER_TOTAL_RIDE_TOKENS - farm_in_amount - second_farm_in_amount + reward;
    assert_eq!(user_balance, expected_ride_token_balance);
    check_farm_token_supply(&g, second_farm_in_amount + 1);
}

#[test]
fn farm_staking_test_test_unbond() {
    let (mut g, cfg, f) = setup();

    let farm_in_amount = 100_000_000;
    let token = stake(&mut g, &cfg, &f, farm_in_amount, &[], 0);
    check_farm_token_supply(&g, farm_in_amount + 1);

    let current_block = 10;
    let current_epoch = 5;
    let block_diff = current_block as u128;
    let expected_rewards_unbounded = block_diff * PER_BLOCK_REWARD_AMOUNT;
    let expected_rewards_max_apr = farm_in_amount * MAX_APR / (MAX_PERCENT as u128)
        / (BLOCKS_IN_YEAR as u128) * block_diff - 1;
    let expected_rewards = expected_rewards_unbounded.min(expected_rewards_max_apr);
    assert_eq!(expected_rewards, 39);

    let (unbond_token, reward) =
        unstake_farm(&mut g, &cfg, current_block, current_epoch, USER, &token, 0).unwrap();
    assert_eq!(reward, expected_rewards);
    check_farm_token_supply(&g, 1);

    let unbond_epoch = current_epoch + MIN_UNBOND_EPOCHS;
    let released = unbond_farm(&g, unbond_epoch, &unbond_token).unwrap();
    assert_eq!(released, farm_in_amount);
    let final_balance = USER_TOTAL_RIDE_TOKENS + expected_rewards;
    assert_eq!(
        USER_TOTAL_RIDE_TOKENS - farm_in_amount + reward + released,
        final_balance
    );
}

#[test]
fn test_withdraw_rewards() {
    let (mut g, cfg, _f) = setup();

    let initial_rewards_capacity = 1_000_000_000_000u128;
    assert_eq!(g.reward_capacity, initial_rewards_capacity);

    let withdraw_amount = TOTAL_REWARDS_AMOUNT;
    FarmStakingWrapper::withdraw_rewards(&mut g, &cfg, 0, withdraw_amount).unwrap();

    let final_rewards_capacity = 0u128;
    assert_eq!(g.reward_capacity, final_rewards_capacity);
}

#[test]
fn test_withdraw_after_produced_rewards() {
    let (mut g, cfg, f) = setup();

    let initial_rewards_capacity = 1_000_000_000_000u128;
    assert_eq!(g.reward_capacity, initial_rewards_capacity);

    let farm_in_amount = 100_000_000;
    let _token = stake(&mut g, &cfg, &f, farm_in_amount, &[], 0);
    check_farm_token_supply(&g, farm_in_amount + 1);

    let withdraw_amount = TOTAL_REWARDS_AMOUNT;
    let err = FarmStakingWrapper::withdraw_rewards(&mut g, &cfg, 10, withdraw_amount)
        .unwrap_err();
    assert_eq!(err, GuildError::WithdrawAmountTooHigh);

    let expected_reward_token_out = 40;
    let withdraw_amount = TOTAL_REWARDS_AMOUNT - expected_reward_token_out;
    FarmStakingWrapper::withdraw_rewards(&mut g, &cfg, 10, withdraw_amount).unwrap();

    // Only the user's rewards will remain.
    let final_rewards_capacity = expected_reward_token_out;
    assert_eq!(g.reward_capacity, final_rewards_capacity);
}

#[test]
fn farm_staking_test_cancel_unbond_test() {
    let (mut g, cfg, f) = setup();

    let farm_in_amount = 100_000_000;
    let token = stake(&mut g, &cfg, &f, farm_in_amount, &[], 0);
    check_farm_token_supply(&g, farm_in_amount + 1);

    let current_block = 10;
    let current_epoch = 5;
    let block_diff = current_block as u128;
    let expected_rewards_unbounded = block_diff * PER_BLOCK_REWARD_AMOUNT;
    let expected_rewards_max_apr = farm_in_amount * MAX_APR / (MAX_PERCENT as u128)
        / (BLOCKS_IN_YEAR as u128) * block_diff - 1;
    let expected_rewards = expected_rewards_unbounded.min(expected_rewards_max_apr);
    assert_eq!(expected_rewards, 39);

    let (unbond_token, reward) =
        unstake_farm(&mut g, &cfg, current_block, current_epoch, USER, &token, 0).unwrap();
    assert_eq!(reward, expected_rewards);
    check_farm_token_supply(&g, 1);

    let original_farm_token = cancel_unbond(&mut g, &cfg, USER, &unbond_token).unwrap();
    assert_eq!(original_farm_token.token_identifier, FARM_TOKEN_ID);
    assert_eq!(original_farm_token.amount, farm_in_amount);
}
