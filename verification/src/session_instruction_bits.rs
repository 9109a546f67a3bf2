//! Bit of the session allowlist mask that each delegable instruction
//! occupies.

use vstd::prelude::*;

verus! {

/// Allowlist bit for moving the player.
pub const MOVE_PLAYER: u32 = 0x01;

/// Allowlist bit for joining a wall-clearing job.
pub const JOIN_JOB: u32 = 0x02;

/// Allowlist bit for completing a wall-clearing job.
pub const COMPLETE_JOB: u32 = 0x04;

/// Allowlist bit for abandoning a wall-clearing job.
pub const ABANDON_JOB: u32 = 0x08;

/// Allowlist bit for looting a chest.
pub const LOOT_CHEST: u32 = 0x10;

/// Allowlist bit for looting a defeated boss.
pub const LOOT_BOSS: u32 = 0x20;

/// Allowlist bit for joining a boss fight.
pub const JOIN_BOSS_FIGHT: u32 = 0x40;

/// Allowlist bit for leaving a boss fight.
pub const LEAVE_BOSS_FIGHT: u32 = 0x80;

/// Allowlist bit for creating or updating the player profile.
pub const CREATE_PLAYER_PROFILE: u32 = 0x100;

} // verus!
