//! Why an operation is refused. Every refusal leaves the state as it was.

use vstd::prelude::*;

verus! {

pub const ERROR_PAUSED: &'static str = "Paused";

pub const ERROR_NOT_PAUSED: &'static str = "Not paused";

pub const ERROR_NOT_ADMIN: &'static str = "Only admin allowed";

pub const ERROR_WRONG_TIMEFRAME: &'static str = "Wrong timeframe";

pub const ERROR_WRONG_START_TS: &'static str = "Wrong start timestamp";

pub const ERROR_WRONG_REWARD_VALUES: &'static str = "Wrong reward values";

pub const ERROR_FARM_ALREADY_CREATED: &'static str = "Farm already created";

pub const ERROR_ALREADY_STARTED: &'static str = "Already started";

pub const ERROR_ALREADY_ENDED: &'static str = "Already ended";

pub const ERROR_INVALID_REWARD_TOKEN: &'static str = "Invalid reward token";

pub const ERROR_ZERO_AMOUNT: &'static str = "Zero amount";

pub const ERROR_INSUFFICIENT_RESERVE: &'static str = "Insufficient reserve";

pub const ERROR_WRONG_ISSUANCE_AMOUNT: &'static str = "Wrong token issuance amount";

pub const ERROR_NO_REWARDS_APPLICABLE: &'static str = "No rewards applicable";

pub const ERROR_NOT_ENOUGH_REWARDS: &'static str = "Not enough rewards";

pub const ERROR_INVALID_SHARE_TOKEN: &'static str = "Invalid share token";

pub const ERROR_ONLY_ONE_STAKING_TRANSFER_ALLOWED: &'static str =
    "Only one staking transfer allowed";

pub const ERROR_STAKED_TOKEN_MISSING: &'static str = "Staked token transfer missing";

pub const ERROR_UNSTAKE_AMOUNT_EXCEEDS: &'static str = "Unstake amount exceeds stake";

pub const ERROR_INVALID_TOKEN_ID: &'static str = "Invalid token ID";

pub const ERROR_TOKEN_ID_ALREADY_SET: &'static str = "Token ID already set";

pub const ERROR_ATTRIBUTES_TOO_SHORT: &'static str =
    "error decoding ESDT attributes: input too short";

pub const ERROR_ATTRIBUTES_TOO_LONG: &'static str =
    "error decoding ESDT attributes: input too long";

/// The reason of a refusal.
#[derive(Clone, Copy, Debug, PartialEq, Eq, Structural)]
pub enum Error {
    /// The farm is paused.
    Paused,
    /// The farm is not paused.
    NotPaused,
    /// The caller is no admin.
    NotAdmin,
    /// The start is not before the end, or the new end is not in the future.
    WrongTimeframe,
    /// The start is not in the future.
    WrongStartTs,
    /// The product of the two reward rates is zero.
    WrongRewardValues,
    /// The farm exists or its share token is being issued.
    FarmAlreadyCreated,
    /// The start has passed.
    AlreadyStarted,
    /// The end has passed.
    AlreadyEnded,
    /// The asset is not the farm's reward asset.
    InvalidRewardToken,
    /// The amount is zero.
    ZeroAmount,
    /// The reserve holds less than the amount asked for.
    InsufficientReserve,
    /// The fee attached to the creation is not the issuance cost.
    WrongIssuanceAmount,
    /// The positions have earned nothing.
    NoRewardsApplicable,
    /// The reserve holds less than the positions have earned.
    NotEnoughRewards,
    /// A transfer is neither the staked asset nor a share token.
    InvalidShareToken,
    /// A second transfer of the staked asset.
    OnlyOneStakingTransferAllowed,
    /// No transfer of the staked asset.
    StakedTokenMissing,
    /// More is to be unstaked than the positions hold.
    UnstakeAmountExceeds,
    /// The farm has no share token yet.
    InvalidTokenId,
    /// The farm has its share token already.
    TokenIdAlreadySet,
    /// The attributes of a share token are shorter than eight bytes.
    AttributesTooShort,
    /// The attributes of a share token are longer than eight bytes.
    AttributesTooLong,
}

impl Error {
    /// The message of each refusal.
    pub open spec fn message_text(self) -> &'static str {
        match self {
            Error::Paused => "Paused",
            Error::NotPaused => "Not paused",
            Error::NotAdmin => "Only admin allowed",
            Error::WrongTimeframe => "Wrong timeframe",
            Error::WrongStartTs => "Wrong start timestamp",
            Error::WrongRewardValues => "Wrong reward values",
            Error::FarmAlreadyCreated => "Farm already created",
            Error::AlreadyStarted => "Already started",
            Error::AlreadyEnded => "Already ended",
            Error::InvalidRewardToken => "Invalid reward token",
            Error::ZeroAmount => "Zero amount",
            Error::InsufficientReserve => "Insufficient reserve",
            Error::WrongIssuanceAmount => "Wrong token issuance amount",
            Error::NoRewardsApplicable => "No rewards applicable",
            Error::NotEnoughRewards => "Not enough rewards",
            Error::InvalidShareToken => "Invalid share token",
            Error::OnlyOneStakingTransferAllowed => "Only one staking transfer allowed",
            Error::StakedTokenMissing => "Staked token transfer missing",
            Error::UnstakeAmountExceeds => "Unstake amount exceeds stake",
            Error::InvalidTokenId => "Invalid token ID",
            Error::TokenIdAlreadySet => "Token ID already set",
            Error::AttributesTooShort => "error decoding ESDT attributes: input too short",
            Error::AttributesTooLong => "error decoding ESDT attributes: input too long",
        }
    }

    /// The message that the refusal is reported with.
    pub fn message(&self) -> (text: &'static str)
        ensures
            text@ == self.message_text()@,
    {
        match self {
            Error::Paused => ERROR_PAUSED,
            Error::NotPaused => ERROR_NOT_PAUSED,
            Error::NotAdmin => ERROR_NOT_ADMIN,
            Error::WrongTimeframe => ERROR_WRONG_TIMEFRAME,
            Error::WrongStartTs => ERROR_WRONG_START_TS,
            Error::WrongRewardValues => ERROR_WRONG_REWARD_VALUES,
            Error::FarmAlreadyCreated => ERROR_FARM_ALREADY_CREATED,
            Error::AlreadyStarted => ERROR_ALREADY_STARTED,
            Error::AlreadyEnded => ERROR_ALREADY_ENDED,
            Error::InvalidRewardToken => ERROR_INVALID_REWARD_TOKEN,
            Error::ZeroAmount => ERROR_ZERO_AMOUNT,
            Error::InsufficientReserve => ERROR_INSUFFICIENT_RESERVE,
            Error::WrongIssuanceAmount => ERROR_WRONG_ISSUANCE_AMOUNT,
            Error::NoRewardsApplicable => ERROR_NO_REWARDS_APPLICABLE,
            Error::NotEnoughRewards => ERROR_NOT_ENOUGH_REWARDS,
            Error::InvalidShareToken => ERROR_INVALID_SHARE_TOKEN,
            Error::OnlyOneStakingTransferAllowed => ERROR_ONLY_ONE_STAKING_TRANSFER_ALLOWED,
            Error::StakedTokenMissing => ERROR_STAKED_TOKEN_MISSING,
            Error::UnstakeAmountExceeds => ERROR_UNSTAKE_AMOUNT_EXCEEDS,
            Error::InvalidTokenId => ERROR_INVALID_TOKEN_ID,
            Error::TokenIdAlreadySet => ERROR_TOKEN_ID_ALREADY_SET,
            Error::AttributesTooShort => ERROR_ATTRIBUTES_TOO_SHORT,
            Error::AttributesTooLong => ERROR_ATTRIBUTES_TOO_LONG,
        }
    }
}

} // verus!
