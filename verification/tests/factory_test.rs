use guild_sc::claim_stake_farm_rewards::claim_rewards;
use guild_sc::config::GuildConfig;
use guild_sc::errors::GuildError;
use guild_sc::factory::Factory;
use guild_sc::guild::Guild;
use guild_sc::rewards::{FarmStakingWrapper, StorageCache};
use guild_sc::stake_farm::{stake_farm_common, stake_farm_endpoint};
use guild_sc::tiers::{set_tier_apr, RewardTier, BLOCKS_IN_YEAR, MAX_PERCENT};
use guild_sc::token_attributes::{FarmTokenPayment, StakingFarmTokenAttributes};
use guild_sc::token_display::build_token_display_name;
use guild_sc::total_tokens::TotalTokens;
use guild_sc::user_actions::{cancel_unbond, close_guild, compound_rewards, unbond_farm, unstake_farm};

const FARM_TOKEN_ID: u64 = 2;
const UNBOND_TOKEN_ID: u64 = 3;
const OTHER_FARM_TOKEN_ID: u64 = 4;
const OTHER_UNBOND_TOKEN_ID: u64 = 5;
const DIVISION_SAFETY_CONSTANT: u128 = 1_000_000_000_000;
const PER_BLOCK_REWARD_AMOUNT: u128 = 5_000;
const TOTAL_REWARDS_AMOUNT: u128 = 1_000_000_000_000;
const MAX_APR: u128 = 2_500;
const MIN_UNBOND_EPOCHS: u64 = 5;
const USER_TOTAL_RIDE_TOKENS: u128 = 5_000_000_000;

const FACTORY_OWNER: u64 = 5;
const FACTORY_ADDR: u64 = 100;
const CONFIG_SC_ADDRESS: u64 = 50;
const SOURCE_ADDRESS: u64 = 60;
const FIRST_OWNER: u64 = 10;
const SECOND_OWNER: u64 = 20;
const USER: u64 = 11;
const FIRST_GUILD_ADDR: u64 = 201;
const SECOND_GUILD_ADDR: u64 = 202;

fn make_config() -> GuildConfig {
    let tier = RewardTier {
        min_stake: 1,
        max_stake: 1_000_000_000_000_000_000,
        apr: MAX_APR as u64,
    };
    GuildConfig {
        guild_master_tiers: vec![tier],
        user_tiers: vec![tier],
        max_staked_tokens: 1_000_000_000_000_000_000,
        min_unbond_epochs_user: MIN_UNBOND_EPOCHS,
        min_unbond_epochs_guild_master: MIN_UNBOND_EPOCHS,
        min_stake_user: 1,
        min_stake_guild_master: 1,
    }
}

fn make_guild(master: u64, farm_token: u64, unbond_token: u64) -> Guild {
    let mut g = Guild::new(
        master,
        farm_token,
        unbond_token,
        DIVISION_SAFETY_CONSTANT,
        PER_BLOCK_REWARD_AMOUNT,
    );
    g.reward_capacity = TOTAL_REWARDS_AMOUNT;
    g.unbond_token_issued = true;
    // The harness seeds the master's record with a single token minted
    // outside the supply and totals tracking.
    g.guild_master_tokens = TotalTokens::new_base(1);
    g.next_farm_token_nonce = 2;
    g
}

/// Two guilds deployed and active, masters seeded, the active-guild cap at
/// two.
fn setup() -> (Guild, Guild, GuildConfig, Factory) {
    let cfg = make_config();
    let mut f = Factory::new(FACTORY_OWNER);
    f.config_sc_address = CONFIG_SC_ADDRESS;
    f.guild_sc_source_address = SOURCE_ADDRESS;
    f.max_active_guilds = 2;
    f.deploy_guild(&cfg, FIRST_OWNER, FIRST_GUILD_ADDR).unwrap();
    f.resume_guild_endpoint(&cfg, FIRST_GUILD_ADDR, true).unwrap();
    f.deploy_guild(&cfg, SECOND_OWNER, SECOND_GUILD_ADDR).unwrap();
    f.resume_guild_endpoint(&cfg, SECOND_GUILD_ADDR, true).unwrap();
    let g1 = make_guild(FIRST_OWNER, FARM_TOKEN_ID, UNBOND_TOKEN_ID);
    let g2 = make_guild(SECOND_OWNER, OTHER_FARM_TOKEN_ID, OTHER_UNBOND_TOKEN_ID);
    (g1, g2, cfg, f)
}

fn stake(
    g: &mut Guild,
    cfg: &GuildConfig,
    f: &Factory,
    guild_addr: u64,
    user: u64,
    amount: u128,
    prev_tokens: &[FarmTokenPayment],
    block: u64,
) -> FarmTokenPayment {
    stake_farm_common(g, cfg, f, guild_addr, user, amount, &prev_tokens.to_vec(), block, 0)
        .unwrap()
}

/// The harness counts the master's seed token on top of the tracked supply.
fn check_farm_token_supply(g: &Guild, expected: u128) {
    assert_eq!(g.farm_token_supply + 1, expected);
}

#[test]
fn all_setup_test() {
    let _ = setup();
}

#[test]
fn close_guild_test() {
    let (mut g1, _g2, cfg, mut f) = setup();

    let farm_in_amount = 50_000_000;
    let token = stake(&mut g1, &cfg, &f, FIRST_GUILD_ADDR, USER, farm_in_amount, &[], 0);
    assert_eq!(token.token_nonce, 2);
    assert_eq!(token.amount, farm_in_amount);

    close_guild(&mut g1, &mut f, FIRST_OWNER, FIRST_GUILD_ADDR).unwrap();

    let err = stake_farm_common(
        &mut g1,
        &cfg,
        &f,
        FIRST_GUILD_ADDR,
        USER,
        farm_in_amount,
        &Vec::new(),
        0,
        0,
    )
    .unwrap_err();
    assert_eq!(err.message(), "Guild closing");
}

#[test]
fn migrate_to_other_guild_test() {
    let (mut g1, mut g2, cfg, mut f) = setup();

    let farm_in_amount = 100_000_000;
    let token = stake(&mut g1, &cfg, &f, FIRST_GUILD_ADDR, USER, farm_in_amount, &[], 0);
    assert_eq!(token.token_nonce, 2);

    close_guild(&mut g1, &mut f, FIRST_OWNER, FIRST_GUILD_ADDR).unwrap();

    // The closing guild relays the user's stake into the other guild
    // through the factory.
    let migrated = stake_farm_endpoint(
        &mut g2,
        &cfg,
        &f,
        SECOND_GUILD_ADDR,
        FACTORY_ADDR,
        Some(USER),
        FACTORY_ADDR,
        farm_in_amount,
        &Vec::new(),
        0,
        0,
    )
    .unwrap();
    assert_eq!(migrated.token_identifier, OTHER_FARM_TOKEN_ID);
    assert_eq!(migrated.token_nonce, 2);
    assert_eq!(migrated.amount, farm_in_amount);

    let expected_reward_token_out = 40;
    let (_new_token, reward) =
        claim_rewards(&mut g2, &cfg, 10, 8, USER, &vec![migrated], 0).unwrap();
    assert_eq!(reward, expected_reward_token_out);
}

#[test]
fn factory_test_test_enter_farm() {
    let (mut g1, _g2, cfg, f) = setup();

    let farm_in_amount = 100_000_000;
    let expected_farm_token_nonce = 2;
    let token = stake(&mut g1, &cfg, &f, FIRST_GUILD_ADDR, USER, farm_in_amount, &[], 0);
    assert_eq!(token.token_nonce, expected_farm_token_nonce);
    check_farm_token_supply(&g1, farm_in_amount + 1);
}

#[test]
fn factory_test_test_unstake_farm() {
    let (mut g1, _g2, cfg, f) = setup();

    let farm_in_amount = 100_000_000;
    let token = stake(&mut g1, &cfg, &f, FIRST_GUILD_ADDR, USER, farm_in_amount, &[], 0);
    check_farm_token_supply(&g1, farm_in_amount + 1);

    let current_block = 10;
    let current_epoch = 5;
    let block_diff = current_block as u128;
    let expected_rewards_unbounded = block_diff * PER_BLOCK_REWARD_AMOUNT;
    let expected_rewards_max_apr = farm_in_amount * MAX_APR / (MAX_PERCENT as u128)
        / (BLOCKS_IN_YEAR as u128) * block_diff;
    let expected_rewards = expected_rewards_unbounded.min(expected_rewards_max_apr);
    assert_eq!(expected_rewards, 40);

    let expected_ride_token_balance = USER_TOTAL_RIDE_TOKENS - farm_in_amount + expected_rewards;
    let (unbond_token, reward) =
        unstake_farm(&mut g1, &cfg, current_block, current_epoch, USER, &token, 0).unwrap();
    assert_eq!(reward, expected_rewards);
    assert_eq!(unbond_token.token_nonce, 1);
    assert_eq!(unbond_token.amount, farm_in_amount);
    assert_eq!(
        USER_TOTAL_RIDE_TOKENS - farm_in_amount + reward,
        expected_ride_token_balance
    );
    check_farm_token_supply(&g1, 1);
}

#[test]
fn factory_test_test_claim_rewards() {
    let (mut g1, _g2, cfg, f) = setup();

    let farm_in_amount = 100_000_000;
    let expected_farm_token_nonce = 2;
    let token = stake(&mut g1, &cfg, &f, FIRST_GUILD_ADDR, USER, farm_in_amount, &[], 0);
    check_farm_token_supply(&g1, farm_in_amount + 1);

    let expected_reward_token_out = 40;
    let expected_farming_token_balance =
        USER_TOTAL_RIDE_TOKENS - farm_in_amount + expected_reward_token_out;
    let expected_reward_per_share = 400_000;
    let (new_token, reward) =
        claim_rewards(&mut g1, &cfg, 10, 5, USER, &vec![token], 0).unwrap();
    assert_eq!(reward, expected_reward_token_out);
    assert_eq!(new_token.token_nonce, expected_farm_token_nonce + 1);
    assert_eq!(new_token.attributes.reward_per_share, expected_reward_per_share);
    assert_eq!(
        USER_TOTAL_RIDE_TOKENS - farm_in_amount + reward,
        expected_farming_token_balance
    );
    check_farm_token_supply(&g1, farm_in_amount + 1);
}

#[test]
fn compound_rewards_test() {
    let (mut g1, _g2, cfg, f) = setup();

    let farm_in_amount = 100_000_000;
    let expected_farm_token_nonce = 2;
    let token = stake(&mut g1, &cfg, &f, FIRST_GUILD_ADDR, USER, farm_in_amount, &[], 0);
    check_farm_token_supply(&g1, farm_in_amount + 1);

    let expected_reward_token_out = 40;
    let expected_reward_per_share = 400_000;

    let compounded = compound_rewards(&mut g1, &cfg, 10, USER, &token, 0).unwrap();

    let expected_attributes = StakingFarmTokenAttributes {
        reward_per_share: expected_reward_per_share,
        compounded_reward: expected_reward_token_out,
        current_farm_amount: farm_in_amount + expected_reward_token_out,
    };
    assert_eq!(compounded.token_nonce, expected_farm_token_nonce + 1);
    assert_eq!(compounded.amount, farm_in_amount + expected_reward_token_out);
    assert_eq!(compounded.attributes, expected_attributes);
    check_farm_token_supply(&g1, farm_in_amount + expected_reward_token_out + 1);

    // Unstake the full amount.
    let (unbond_token, _reward) =
        unstake_farm(&mut g1, &cfg, 10, 5, USER, &compounded, 0).unwrap();
    assert_eq!(unbond_token.amount, farm_in_amount + expected_reward_token_out);
    check_farm_token_supply(&g1, 1);
}

#[test]
fn compound_rewards_guild_master_test() {
    // The master's own position goes through the ordinary staking flow, so
    // their seed token counts into the farm token supply here.
    let cfg = make_config();
    let mut f = Factory::new(FACTORY_OWNER);
    f.config_sc_address = CONFIG_SC_ADDRESS;
    f.guild_sc_source_address = SOURCE_ADDRESS;
    f.max_active_guilds = 2;
    f.deploy_guild(&cfg, FIRST_OWNER, FIRST_GUILD_ADDR).unwrap();
    f.resume_guild_endpoint(&cfg, FIRST_GUILD_ADDR, true).unwrap();
    let mut g1 = Guild::new(
        FIRST_OWNER,
        FARM_TOKEN_ID,
        UNBOND_TOKEN_ID,
        DIVISION_SAFETY_CONSTANT,
        PER_BLOCK_REWARD_AMOUNT,
    );
    g1.reward_capacity = TOTAL_REWARDS_AMOUNT;
    g1.unbond_token_issued = true;
    let seed = stake_farm_common(
        &mut g1,
        &cfg,
        &f,
        FIRST_GUILD_ADDR,
        FIRST_OWNER,
        1,
        &Vec::new(),
        0,
        0,
    )
    .unwrap();
    assert_eq!(seed.token_nonce, 1);

    let farm_in_amount = 100_000_000;
    let expected_farm_token_nonce = 2;
    let token = stake(&mut g1, &cfg, &f, FIRST_GUILD_ADDR, FIRST_OWNER, farm_in_amount, &[], 0);
    assert_eq!(token.token_nonce, expected_farm_token_nonce);
    assert_eq!(g1.farm_token_supply, farm_in_amount + 1);

    let expected_reward_token_out = 39;
    let expected_reward_per_share = 399_999;

    let compounded = compound_rewards(&mut g1, &cfg, 10, FIRST_OWNER, &token, 0).unwrap();

    let expected_attributes = StakingFarmTokenAttributes {
        reward_per_share: expected_reward_per_share,
        compounded_reward: expected_reward_token_out,
        current_farm_amount: farm_in_amount + expected_reward_token_out,
    };
    assert_eq!(compounded.token_nonce, expected_farm_token_nonce + 1);
    assert_eq!(compounded.amount, farm_in_amount + expected_reward_token_out);
    assert_eq!(compounded.attributes, expected_attributes);
    assert_eq!(
        g1.farm_token_supply,
        farm_in_amount + expected_reward_token_out + 1
    );
}

#[test]
fn claim_rewards_multi_test() {
    let (mut g1, _g2, cfg, f) = setup();

    let farm_in_amount = 100_000_000;
    let expected_farm_token_nonce = 2;
    let first = stake(&mut g1, &cfg, &f, FIRST_GUILD_ADDR, USER, farm_in_amount, &[], 0);
    let second = stake(&mut g1, &cfg, &f, FIRST_GUILD_ADDR, USER, farm_in_amount, &[], 0);
    assert_eq!(first.token_nonce, expected_farm_token_nonce);
    assert_eq!(second.token_nonce, expected_farm_token_nonce + 1);
    check_farm_token_supply(&g1, farm_in_amount + farm_in_amount + 1);

    let expected_reward_token_out = 40;
    let expected_farming_token_balance = USER_TOTAL_RIDE_TOKENS - farm_in_amount - farm_in_amount
        + expected_reward_token_out * 2
        + 10;

    let (new_token, reward) =
        claim_rewards(&mut g1, &cfg, 10, 5, USER, &vec![first, second], 0).unwrap();
    assert_eq!(new_token.token_nonce, expected_farm_token_nonce + 2);
    assert_eq!(new_token.amount, farm_in_amount + farm_in_amount);
    assert_eq!(
        USER_TOTAL_RIDE_TOKENS - farm_in_amount - farm_in_amount + reward,
        expected_farming_token_balance
    );
    check_farm_token_supply(&g1, farm_in_amount + farm_in_amount + 1);
}

fn factory_steps_enter_farm_twice() -> (Guild, GuildConfig, Factory, FarmTokenPayment) {
    let (mut g1, _g2, cfg, f) = setup();

    let farm_in_amount = 100_000_000;
    let expected_farm_token_nonce = 2;
    let first = stake(&mut g1, &cfg, &f, FIRST_GUILD_ADDR, USER, farm_in_amount, &[], 0);
    assert_eq!(first.token_nonce, expected_farm_token_nonce);
    check_farm_token_supply(&g1, farm_in_amount + 1);

    let second_farm_in_amount = 200_000_000;
    let total_amount = farm_in_amount + second_farm_in_amount + 1;
    let first_reward_share = 0;
    let second_reward_share = 400_000;
    let expected_reward_per_share = (first_reward_share * farm_in_amount
        + second_reward_share * second_farm_in_amount
        + total_amount
        - 1)
        / total_amount;

    let merged = stake(
        &mut g1,
        &cfg,
        &f,
        FIRST_GUILD_ADDR,
        USER,
        second_farm_in_amount,
        &[first],
        10,
    );
    assert_eq!(merged.token_nonce, expected_farm_token_nonce + 1);
    assert_eq!(merged.attributes.reward_per_share, expected_reward_per_share);
    check_farm_token_supply(&g1, total_amount);

    (g1, cfg, f, merged)
}

#[test]
fn factory_test_test_enter_farm_twice() {
    let _ = factory_steps_enter_farm_twice();
}

#[test]
fn factory_test_test_exit_farm_after_enter_twice() {
    let (mut g1, cfg, _f, merged) = factory_steps_enter_farm_twice();
    let farm_in_amount = 100_000_000;
    let second_farm_in_amount = 200_000_000;

    let part = FarmTokenPayment {
        amount: farm_in_amount,
        ..merged
    };
    let expected_rewards = 83;
    let expected_ride_token_balance =
        USER_TOTAL_RIDE_TOKENS - farm_in_amount - second_farm_in_amount + expected_rewards;
    let (unbond_token, reward) = unstake_farm(&mut g1, &cfg, 25, 8, USER, &part, 0).unwrap();
    assert_eq!(reward, expected_rewards);
    assert_eq!(unbond_token.token_nonce, 1);
    assert_eq!(unbond_token.amount, farm_in_amount);
    assert_eq!(
        USER_TOTAL_RIDE_TOKENS - farm_in_amount - second_farm_in_amount + reward,
        expected_ride_token_balance
    );
    check_farm_token_supply(&g1, second_farm_in_amount + 1);
}

#[test]
fn factory_test_test_unbond() {
    let (mut g1, _g2, cfg, f) = setup();

    let farm_in_amount = 100_000_000;
    let token = stake(&mut g1, &cfg, &f, FIRST_GUILD_ADDR, USER, farm_in_amount, &[], 0);
    check_farm_token_supply(&g1, farm_in_amount + 1);

    let current_block = 10;
    let current_epoch = 5;
    let block_diff = current_block as u128;
    let expected_rewards_unbounded = block_diff * PER_BLOCK_REWARD_AMOUNT;
    let expected_rewards_max_apr = farm_in_amount * MAX_APR / (MAX_PERCENT as u128)
        / (BLOCKS_IN_YEAR as u128) * block_diff;
    let expected_rewards = expected_rewards_unbounded.min(expected_rewards_max_apr);
    assert_eq!(expected_rewards, 40);

    let (unbond_token, reward) =
        unstake_farm(&mut g1, &cfg, current_block, current_epoch, USER, &token, 0).unwrap();
    assert_eq!(reward, expected_rewards);
    check_farm_token_supply(&g1, 1);

    let released = unbond_farm(&g1, current_epoch + MIN_UNBOND_EPOCHS, &unbond_token).unwrap();
    assert_eq!(released, farm_in_amount);
    assert_eq!(
        USER_TOTAL_RIDE_TOKENS - farm_in_amount + reward + released,
        USER_TOTAL_RIDE_TOKENS + expected_rewards
    );
}

#[test]
fn factory_test_cancel_unbond_test() {
    let (mut g1, _g2, cfg, f) = setup();

    let farm_in_amount = 100_000_000;
    let token = stake(&mut g1, &cfg, &f, FIRST_GUILD_ADDR, USER, farm_in_amount, &[], 0);
    check_farm_token_supply(&g1, farm_in_amount + 1);

    let current_block = 10;
    let current_epoch = 5;
    let block_diff = current_block as u128;
    let expected_rewards_unbounded = block_diff * PER_BLOCK_REWARD_AMOUNT;
    let expected_rewards_max_apr = farm_in_amount * MAX_APR / (MAX_PERCENT as u128)
        / (BLOCKS_IN_YEAR as u128) * block_diff;
    let expected_rewards = expected_rewards_unbounded.min(expected_rewards_max_apr);
    assert_eq!(expected_rewards, 40);

    let (unbond_token, reward) =
        unstake_farm(&mut g1, &cfg, current_block, current_epoch, USER, &token, 0).unwrap();
    assert_eq!(reward, expected_rewards);
    check_farm_token_supply(&g1, 1);

    let original_farm_token =
        cancel_unbond(&mut g1, &cfg, USER, &unbond_token).unwrap();
    assert_eq!(original_farm_token.token_identifier, FARM_TOKEN_ID);
}

#[test]
fn close_guild_test_2() {
    let (mut g1, _g2, cfg, mut f) = setup();

    let farm_in_amount = 100_000_000;
    let token = stake(&mut g1, &cfg, &f, FIRST_GUILD_ADDR, USER, farm_in_amount, &[], 0);
    assert_eq!(token.token_nonce, 2);
    check_farm_token_supply(&g1, farm_in_amount + 1);

    close_guild(&mut g1, &mut f, FIRST_OWNER, FIRST_GUILD_ADDR).unwrap();
    assert!(g1.guild_closing);
}

#[test]
fn id_to_human_readable_test() {
    let prefix = b"FARM".to_vec();

    let id_str = build_token_display_name(&prefix, 12345);
    assert_eq!(id_str, b"FARM12345".to_vec());

    let id_str = build_token_display_name(&prefix, 0);
    assert_eq!(id_str, b"FARM0".to_vec());

    let id_str = build_token_display_name(&prefix, 1);
    assert_eq!(id_str, b"FARM1".to_vec());

    let id_str = build_token_display_name(&prefix, 10);
    assert_eq!(id_str, b"FARM10".to_vec());
}

#[test]
fn set_apr_test() {
    let mut cfg = make_config();
    cfg.user_tiers = vec![RewardTier {
        min_stake: 1,
        max_stake: MAX_PERCENT as u128,
        apr: MAX_APR as u64,
    }];

    set_tier_apr(&mut cfg.user_tiers, MAX_PERCENT as u128, 5_000);
    assert_eq!(cfg.user_tiers[0].apr, 5_000);
}

#[test]
fn calculate_rewards_test() {
    let (mut g1, _g2, cfg, f) = setup();

    let farm_in_amount = 100_000_000;
    let expected_farm_token_nonce = 2;
    let token = stake(&mut g1, &cfg, &f, FIRST_GUILD_ADDR, USER, farm_in_amount, &[], 0);
    check_farm_token_supply(&g1, farm_in_amount + 1);

    let expected_reward_token_out = 40;

    // The view runs one virtual emission round before measuring.
    let mut cache = StorageCache::new(&g1);
    FarmStakingWrapper::generate_aggregated_rewards(&mut g1, &cfg, &mut cache, 10, 0).unwrap();
    let token_attributes = StakingFarmTokenAttributes {
        reward_per_share: 0,
        compounded_reward: 0,
        current_farm_amount: farm_in_amount,
    };
    let calculated_reward = FarmStakingWrapper::calculate_rewards(
        &g1,
        USER,
        farm_in_amount,
        &token_attributes,
        &cache,
    );
    assert_eq!(calculated_reward, expected_reward_token_out);
    cache.flush(&mut g1);

    let expected_farming_token_balance =
        USER_TOTAL_RIDE_TOKENS - farm_in_amount + expected_reward_token_out;
    let expected_reward_per_share = 400_000;
    let (new_token, reward) =
        claim_rewards(&mut g1, &cfg, 10, 5, USER, &vec![token], 0).unwrap();
    assert_eq!(reward, expected_reward_token_out);
    assert_eq!(new_token.token_nonce, expected_farm_token_nonce + 1);
    assert_eq!(new_token.attributes.reward_per_share, expected_reward_per_share);
    assert_eq!(
        USER_TOTAL_RIDE_TOKENS - farm_in_amount + reward,
        expected_farming_token_balance
    );
    check_farm_token_supply(&g1, farm_in_amount + 1);

    let mut cache = StorageCache::new(&g1);
    FarmStakingWrapper::generate_aggregated_rewards(&mut g1, &cfg, &mut cache, 20, 0).unwrap();
    let token_attributes = StakingFarmTokenAttributes {
        reward_per_share: expected_reward_per_share,
        compounded_reward: 0,
        current_farm_amount: farm_in_amount,
    };
    let _ = FarmStakingWrapper::calculate_rewards(
        &g1,
        USER,
        farm_in_amount,
        &token_attributes,
        &cache,
    );

    // The guild master's side of the same measurement.
    let token_attributes = StakingFarmTokenAttributes {
        reward_per_share: 0,
        compounded_reward: 0,
        current_farm_amount: 1,
    };
    let _ = FarmStakingWrapper::calculate_rewards(&g1, FIRST_OWNER, 1, &token_attributes, &cache);
    cache.flush(&mut g1);
}

#[test]
fn try_manipulate_staked_amounts_test() {
    let (mut g1, _g2, cfg, f) = setup();

    let farm_in_amount = 100_000_000;
    let expected_farm_token_nonce = 2;
    let token = stake(&mut g1, &cfg, &f, FIRST_GUILD_ADDR, USER, farm_in_amount, &[], 0);
    check_farm_token_supply(&g1, farm_in_amount + 1);

    let expected_reward_token_out = 40;
    let expected_reward_per_share = 400_000;

    let compounded = compound_rewards(&mut g1, &cfg, 10, USER, &token, 0).unwrap();

    let expected_attributes = StakingFarmTokenAttributes {
        reward_per_share: expected_reward_per_share,
        compounded_reward: expected_reward_token_out,
        current_farm_amount: farm_in_amount + expected_reward_token_out,
    };
    assert_eq!(compounded.token_nonce, expected_farm_token_nonce + 1);
    assert_eq!(compounded.attributes, expected_attributes);
    check_farm_token_supply(&g1, farm_in_amount + expected_reward_token_out + 1);

    let (unbond_token, _reward) =
        unstake_farm(&mut g1, &cfg, 20, 10, USER, &compounded, 0).unwrap();
    assert_eq!(unbond_token.amount, farm_in_amount + expected_reward_token_out);

    let _ = cancel_unbond(&mut g1, &cfg, USER, &unbond_token).unwrap();
    let user_tokens = g1.get_user_staked_tokens(USER);
    assert_eq!(
        user_tokens.total(),
        farm_in_amount + expected_reward_token_out
    );
}

#[test]
fn token_splitting_test() {
    let (mut g1, _g2, cfg, f) = setup();

    let farm_in_amount = 100_000_000;
    let expected_farm_token_nonce = 2;
    let token = stake(&mut g1, &cfg, &f, FIRST_GUILD_ADDR, USER, farm_in_amount, &[], 0);
    check_farm_token_supply(&g1, farm_in_amount + 1);

    let expected_reward_token_out = 40;
    let expected_reward_per_share = 400_000;

    let compounded = compound_rewards(&mut g1, &cfg, 10, USER, &token, 0).unwrap();

    let expected_attributes = StakingFarmTokenAttributes {
        reward_per_share: expected_reward_per_share,
        compounded_reward: expected_reward_token_out,
        current_farm_amount: farm_in_amount + expected_reward_token_out,
    };
    assert_eq!(compounded.token_nonce, expected_farm_token_nonce + 1);
    assert_eq!(compounded.attributes, expected_attributes);
    check_farm_token_supply(&g1, farm_in_amount + expected_reward_token_out + 1);

    let total_user_tokens = farm_in_amount + expected_reward_token_out;
    let first_part = FarmTokenPayment {
        amount: total_user_tokens / 3,
        ..compounded
    };
    let (first_unbond, _reward) =
        unstake_farm(&mut g1, &cfg, 10, 5, USER, &first_part, 0).unwrap();
    assert_eq!(first_unbond.amount, total_user_tokens / 3);

    // Unstake the rest of the tokens.
    let second_part = FarmTokenPayment {
        amount: total_user_tokens - total_user_tokens / 3,
        ..compounded
    };
    let (second_unbond, _reward) =
        unstake_farm(&mut g1, &cfg, 10, 5, USER, &second_part, 0).unwrap();
    assert_eq!(second_unbond.amount, total_user_tokens - total_user_tokens / 3);

    assert!(g1.get_user_staked_tokens(USER).is_default());
    assert_eq!(g1.total_base_staked_tokens, 0);
}

#[test]
fn try_activate_too_many_guilds_test() {
    let (mut g1, _g2, cfg, mut f) = setup();

    const THIRD_OWNER: u64 = 30;
    const THIRD_GUILD_ADDR: u64 = 203;
    let guild_address = f.deploy_guild(&cfg, THIRD_OWNER, THIRD_GUILD_ADDR).unwrap();
    assert_eq!(guild_address, THIRD_GUILD_ADDR);

    let mut g3 = Guild::new(
        THIRD_OWNER,
        FARM_TOKEN_ID,
        UNBOND_TOKEN_ID,
        DIVISION_SAFETY_CONSTANT,
        PER_BLOCK_REWARD_AMOUNT,
    );
    g3.reward_capacity = TOTAL_REWARDS_AMOUNT;
    g3.unbond_token_issued = true;

    // Both active slots are taken: the third master cannot stake yet.
    let err = stake_farm_common(
        &mut g3,
        &cfg,
        &f,
        THIRD_GUILD_ADDR,
        THIRD_OWNER,
        1,
        &Vec::new(),
        0,
        0,
    )
    .unwrap_err();
    assert_eq!(err.message(), "May not start another guild at this point");

    close_guild(&mut g1, &mut f, FIRST_OWNER, FIRST_GUILD_ADDR).unwrap();

    let seed = stake_farm_common(
        &mut g3,
        &cfg,
        &f,
        THIRD_GUILD_ADDR,
        THIRD_OWNER,
        1,
        &Vec::new(),
        0,
        0,
    )
    .unwrap();
    assert_eq!(seed.amount, 1);
}

#[test]
fn calculate_rewards_only_guild_master_test() {
    // A guild without any seeded stake: only the master ever enters.
    let cfg = make_config();
    let mut f = Factory::new(FACTORY_OWNER);
    f.config_sc_address = CONFIG_SC_ADDRESS;
    f.guild_sc_source_address = SOURCE_ADDRESS;
    f.max_active_guilds = 2;
    f.deploy_guild(&cfg, FIRST_OWNER, FIRST_GUILD_ADDR).unwrap();
    f.resume_guild_endpoint(&cfg, FIRST_GUILD_ADDR, true).unwrap();
    let mut g1 = Guild::new(
        FIRST_OWNER,
        FARM_TOKEN_ID,
        UNBOND_TOKEN_ID,
        DIVISION_SAFETY_CONSTANT,
        PER_BLOCK_REWARD_AMOUNT,
    );
    g1.reward_capacity = TOTAL_REWARDS_AMOUNT;
    g1.unbond_token_issued = true;

    let farm_in_amount = 200_000_000u128;
    let token = stake_farm_common(
        &mut g1,
        &cfg,
        &f,
        FIRST_GUILD_ADDR,
        FIRST_OWNER,
        farm_in_amount,
        &Vec::new(),
        0,
        0,
    )
    .unwrap();
    assert_eq!(token.amount, farm_in_amount);

    let mut cache = StorageCache::new(&g1);
    FarmStakingWrapper::generate_aggregated_rewards(&mut g1, &cfg, &mut cache, 100, 0).unwrap();
    let rewards = FarmStakingWrapper::calculate_rewards(
        &g1,
        FIRST_OWNER,
        farm_in_amount,
        &StakingFarmTokenAttributes {
            reward_per_share: 0,
            compounded_reward: 0,
            current_farm_amount: farm_in_amount,
        },
        &cache,
    );
    assert_eq!(rewards, 900);
}
