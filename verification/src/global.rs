//! The per-season global record and the grid's fixed parameters.

use vstd::prelude::*;

use crate::keys::AccountId;

verus! {

/// Smallest coordinate of the playable grid.
pub const MIN_COORD: i8 = 0;

/// Largest coordinate of the playable grid.
pub const MAX_COORD: i8 = 10;

/// X coordinate of the start room every new player spawns in.
pub const START_X: i8 = 5;

/// Y coordinate of the start room every new player spawns in.
pub const START_Y: i8 = 5;

/// How many time slots a season lasts (about a week at 400 ms per slot).
pub const SEASON_DURATION_SLOTS: u64 = 1_512_000;

/// The one-per-season global record: the season's seed, the deepest depth
/// any player has reached, the treasury handles and the season-wide count
/// of completed jobs that drives the bonus decay.
#[derive(Clone, Copy, Debug, PartialEq, Eq, Structural)]
pub struct GlobalAccount {
    /// Seed every room of the season is generated from.
    pub season_seed: u64,
    /// Deepest depth reached so far this season.
    pub depth: u32,
    /// Mint of the staking token.
    pub skr_mint: AccountId,
    /// Token account holding the season's bonus prize pool.
    pub prize_pool: AccountId,
    /// Wallet allowed to run administrative actions.
    pub admin: AccountId,
    /// Slot at which the season ends.
    pub end_slot: u64,
    /// Jobs completed season-wide; the bonus per helper decays as it grows.
    pub jobs_completed: u64,
}

} // verus!
