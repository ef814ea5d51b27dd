//! The error taxonomy of the guild system.
//!
//! Every failure aborts the whole operation; no state change of a failed call
//! is kept. Setup and consistency errors indicate misconfiguration, the
//! business-rule errors are caller-correctable.

use vstd::prelude::*;

verus! {

#[derive(Clone, Copy, Debug, PartialEq, Eq, Structural)]
pub enum GuildError {
    // Setup / consistency errors.
    UnknownGuild,
    UnknownGuildMaster,
    InvalidSetup,
    ConfigNotComplete,
    TierNotFound,
    // Business-rule violations.
    AlreadyHaveGuild,
    GuildAlreadyActive,
    ActiveGuildLimitReached,
    GuildClosing,
    BelowMinimumStake,
    StakeCapExceeded,
    WithdrawAmountTooHigh,
    CannotClaimYet,
    CannotClaimForAddress,
    MayNotUseOriginalCallerArg,
    GuildMasterMustStakeFirst,
    GloballyPaused,
    UnbondTokenNotIssued,
    MinUnbondEpochsNotPassed,
    MaxActiveGuildsBelowCurrent,
    // Authorization failure of owner-only endpoints.
    NotOwner,
}

impl GuildError {
    /// The user-facing message of each error, as the host platform reports it.
    pub fn message(&self) -> &'static str {
        match self {
            GuildError::UnknownGuild => "Unknown guild",
            GuildError::UnknownGuildMaster => "Unknown guild master",
            GuildError::InvalidSetup => "Invalid setup",
            GuildError::ConfigNotComplete => "Config setup not complete",
            GuildError::TierNotFound => "Tier not found",
            GuildError::AlreadyHaveGuild => "Already have a guild deployed",
            GuildError::GuildAlreadyActive => "Guild already active",
            GuildError::ActiveGuildLimitReached => "May not start another guild at this point",
            GuildError::GuildClosing => "Guild closing",
            GuildError::BelowMinimumStake => "Not enough stake",
            GuildError::StakeCapExceeded => "May not stake more in this guild",
            GuildError::WithdrawAmountTooHigh => "Withdraw amount too high",
            GuildError::CannotClaimYet => "Cannot claim rewards yet",
            GuildError::CannotClaimForAddress => "Cannot claim rewards for this address",
            GuildError::MayNotUseOriginalCallerArg => "May not use original caller arg",
            GuildError::GuildMasterMustStakeFirst => "Guild master must stake first",
            GuildError::GloballyPaused => "Global pause mode on",
            GuildError::UnbondTokenNotIssued => "Unbond token not issued",
            GuildError::MinUnbondEpochsNotPassed => "Min unbond epochs not passed",
            GuildError::MaxActiveGuildsBelowCurrent => {
                "May not set active guilds number below current active guilds"
            },
            GuildError::NotOwner => "Endpoint can only be called by owner",
        }
    }
}

} // verus!
