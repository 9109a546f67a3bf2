//! The error taxonomy shared by every operation.
//!
//! Each rejected action aborts with one of these kinds and leaves the state
//! it was handed untouched.

use vstd::prelude::*;

verus! {

/// Every way an action can be rejected.  Each kind is stable and carries a
/// human-readable message through [`ChainDepthError::message`].
#[derive(Clone, Copy, Debug, PartialEq, Eq, Structural)]
pub enum ChainDepthError {
    // Movement errors
    NotAdjacent,
    WallNotOpen,
    OutOfBounds,
    // Job errors
    InvalidDirection,
    NotRubble,
    AlreadyJoined,
    JobFull,
    NotHelper,
    JobNotReady,
    NoActiveJob,
    JobAlreadyCompleted,
    JobNotCompleted,
    TooManyActiveJobs,
    InventoryFull,
    InvalidItemId,
    InvalidItemAmount,
    InsufficientItemAmount,
    // Loot errors
    NoChest,
    AlreadyLooted,
    MaxLootersReached,
    TreasuryInsufficientFunds,
    NotInRoom,
    NoBoss,
    BossAlreadyDefeated,
    BossNotDefeated,
    AlreadyFightingBoss,
    NotBossFighter,
    InvalidCenterType,
    DisplayNameTooLong,
    // Session errors
    InvalidSessionExpiry,
    InvalidSessionAllowlist,
    SessionExpired,
    SessionInactive,
    SessionInstructionNotAllowed,
    SessionSpendCapExceeded,
    // Season errors
    SeasonNotEnded,
    Unauthorized,
    // Token errors
    InsufficientBalance,
    TransferFailed,
    // Math errors
    Overflow,
}

impl ChainDepthError {
    /// The human-readable message carried by this error kind.
    pub fn message(&self) -> &'static str {
        match self {
            ChainDepthError::NotAdjacent => "Invalid move: target room is not adjacent",
            ChainDepthError::WallNotOpen => "Invalid move: wall is not open",
            ChainDepthError::OutOfBounds => "Invalid move: coordinates out of bounds",
            ChainDepthError::InvalidDirection => "Invalid direction: must be 0-3 (N/S/E/W)",
            ChainDepthError::NotRubble => "Wall is not rubble: cannot start job",
            ChainDepthError::AlreadyJoined => "Already joined this job",
            ChainDepthError::JobFull => "Job is full: maximum helpers reached",
            ChainDepthError::NotHelper => "Not a helper on this job",
            ChainDepthError::JobNotReady => "Job not ready: progress insufficient",
            ChainDepthError::NoActiveJob => "No active job at this location",
            ChainDepthError::JobAlreadyCompleted => "Job has already been completed",
            ChainDepthError::JobNotCompleted => "Job has not been completed yet",
            ChainDepthError::TooManyActiveJobs => "Too many active jobs: abandon one first",
            ChainDepthError::InventoryFull => "Inventory is full",
            ChainDepthError::InvalidItemId => "Invalid item id",
            ChainDepthError::InvalidItemAmount => "Invalid item amount",
            ChainDepthError::InsufficientItemAmount => "Not enough items",
            ChainDepthError::NoChest => "Room has no chest",
            ChainDepthError::AlreadyLooted => "Already looted this chest",
            ChainDepthError::MaxLootersReached => "Maximum looters reached for this room",
            ChainDepthError::TreasuryInsufficientFunds => {
                "Treasury has insufficient funds to reimburse room rent"
            },
            ChainDepthError::NotInRoom => "Player not in this room",
            ChainDepthError::NoBoss => "No boss in this room center",
            ChainDepthError::BossAlreadyDefeated => "Boss is already defeated",
            ChainDepthError::BossNotDefeated => "Boss has not been defeated yet",
            ChainDepthError::AlreadyFightingBoss => "Player is already fighting this boss",
            ChainDepthError::NotBossFighter => "Player is not a fighter for this boss",
            ChainDepthError::InvalidCenterType => "Invalid center type",
            ChainDepthError::DisplayNameTooLong => "Display name is too long",
            ChainDepthError::InvalidSessionExpiry => "Invalid session expiry values",
            ChainDepthError::InvalidSessionAllowlist => {
                "Session instruction allowlist cannot be empty"
            },
            ChainDepthError::SessionExpired => "Session has expired",
            ChainDepthError::SessionInactive => "Session is inactive",
            ChainDepthError::SessionInstructionNotAllowed => {
                "Instruction is not allowed by session policy"
            },
            ChainDepthError::SessionSpendCapExceeded => "Session spend cap exceeded",
            ChainDepthError::SeasonNotEnded => "Season has not ended yet",
            ChainDepthError::Unauthorized => "Unauthorized: action requires the primary signer",
            ChainDepthError::InsufficientBalance => "Insufficient balance for stake",
            ChainDepthError::TransferFailed => "Token transfer failed",
            ChainDepthError::Overflow => "Arithmetic overflow",
        }
    }
}

} // verus!
