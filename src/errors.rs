//! Error kinds of the two account families.
use vstd::prelude::*;

verus! {

/// Failures of stream operations.
#[derive(Clone, Copy, Debug, PartialEq, Eq, Structural)]
pub enum StreamVaultError {
    InsufficientFunds,
    StreamExpired,
    StreamNotStarted,
    Unauthorized,
    StreamPaused,
    AlreadyPaused,
    NotPaused,
    InvalidTimeRange,
    InvalidAmount,
    StreamAlreadyExists,
    NoFundsAvailable,
    InvalidMint,
    MathOverflow,
    StreamNotEnded,
    RemainingFunds,
    InvalidStreamStatus,
    StreamNotFunded,
    StreamAlreadyStarted,
    StreamAlreadyFunded,
    UnsupportedMint,
    BelowMinimumWithdrawal,
    OnlyEmployerCanPauseResume,
    MaxPauseResumeExceeded,
    StreamAutoClosedDueToExcessivePause,
    FrozenTokenAccount,
    InvalidTokenDecimals,
    InvalidNetworkMint,
    DustAmount,
    ConcurrentOperation,
    InvalidTimestamp,
    PDACollision,
    InsufficientTokenBalance,
    InvalidStreamDuration,
}

/// Failures of escrow operations.
#[derive(Clone, Copy, Debug, PartialEq, Eq, Structural)]
pub enum VaultError {
    UnauthorizedProgram,
    InvalidStatus,
    ArithmeticOverflow,
    VaultExpired,
    UnsupportedSchedule,
    IncompatibleVersion,
    InsufficientFunds,
    Unauthorized,
    InvalidAmount,
    InvalidTimeRange,
    AlreadyFunded,
    NotFunded,
    ProgramPaused,
    MilestoneNotFound,
    MilestoneAlreadyCompleted,
    InvalidMilestoneConfig,
}

impl StreamVaultError {
    /// The message shown to a caller.
    pub fn message(&self) -> &'static str {
        match self {
            StreamVaultError::InsufficientFunds => "Insufficient funds in escrow",
            StreamVaultError::StreamExpired => "Stream has expired",
            StreamVaultError::StreamNotStarted => "Stream has not started yet",
            StreamVaultError::Unauthorized => "Unauthorized access",
            StreamVaultError::StreamPaused => "Stream is currently paused",
            StreamVaultError::AlreadyPaused => "Stream is already paused",
            StreamVaultError::NotPaused => "Stream is not paused",
            StreamVaultError::InvalidTimeRange => "Invalid time range",
            StreamVaultError::InvalidAmount => "Invalid amount",
            StreamVaultError::StreamAlreadyExists => "Stream already exists",
            StreamVaultError::NoFundsAvailable => "No funds available for withdrawal",
            StreamVaultError::InvalidMint => "Invalid mint",
            StreamVaultError::MathOverflow => "Math overflow",
            StreamVaultError::StreamNotEnded => "Stream not ended",
            StreamVaultError::RemainingFunds => "Stream has remaining funds",
            StreamVaultError::InvalidStreamStatus => "Invalid stream status",
            StreamVaultError::StreamNotFunded => "Stream not fully funded",
            StreamVaultError::StreamAlreadyStarted => "Stream already started",
            StreamVaultError::StreamAlreadyFunded => "Stream is already fully funded",
            StreamVaultError::UnsupportedMint => "Unsupported token mint",
            StreamVaultError::BelowMinimumWithdrawal => "Amount below minimum withdrawal threshold",
            StreamVaultError::OnlyEmployerCanPauseResume => "Only employer can pause/resume sprint",
            StreamVaultError::MaxPauseResumeExceeded => "Maximum pause/resume count exceeded",
            StreamVaultError::StreamAutoClosedDueToExcessivePause => "Stream auto-closed due to excessive pause duration",
            StreamVaultError::FrozenTokenAccount => "Token account is frozen",
            StreamVaultError::InvalidTokenDecimals => "Invalid token decimals",
            StreamVaultError::InvalidNetworkMint => "Invalid mint for current network",
            StreamVaultError::DustAmount => "Operation would leave dust amount",
            StreamVaultError::ConcurrentOperation => "Concurrent operation detected",
            StreamVaultError::InvalidTimestamp => "Invalid timestamp - possible clock drift",
            StreamVaultError::PDACollision => "PDA collision detected",
            StreamVaultError::InsufficientTokenBalance => "Insufficient token balance",
            StreamVaultError::InvalidStreamDuration => "Invalid stream duration - must be one of the predefined durations",
        }
    }
}

impl VaultError {
    /// The message shown to a caller.
    pub fn message(&self) -> &'static str {
        match self {
            VaultError::UnauthorizedProgram => "Unauthorized program attempting to access vault",
            VaultError::InvalidStatus => "Invalid vault status for this operation",
            VaultError::ArithmeticOverflow => "Arithmetic overflow",
            VaultError::VaultExpired => "Vault has expired",
            VaultError::UnsupportedSchedule => "Unsupported release schedule",
            VaultError::IncompatibleVersion => "Incompatible version",
            VaultError::InsufficientFunds => "Insufficient funds in vault",
            VaultError::Unauthorized => "Unauthorized access",
            VaultError::InvalidAmount => "Invalid amount",
            VaultError::InvalidTimeRange => "Invalid time range",
            VaultError::AlreadyFunded => "Vault already funded",
            VaultError::NotFunded => "Vault not funded",
            VaultError::ProgramPaused => "Program is paused",
            VaultError::MilestoneNotFound => "Milestone not found",
            VaultError::MilestoneAlreadyCompleted => "Milestone already completed",
            VaultError::InvalidMilestoneConfig => "Invalid milestone configuration",
        }
    }
}

} // verus!
