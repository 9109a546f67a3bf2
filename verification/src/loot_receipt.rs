//! One-time-use receipts proving a player already claimed a room's loot.

use vstd::prelude::*;

use crate::keys::AccountId;

verus! {

/// One receipt per (season, room, player).  Its existence in the store is
/// the proof that this player already looted this room's center.
#[derive(Clone, Copy, Debug, PartialEq, Eq, Structural)]
pub struct LootReceipt {
    /// Player the receipt belongs to.
    pub player: AccountId,
    /// Season the receipt belongs to.
    pub season_seed: u64,
    /// Coordinates of the looted room.
    pub room_x: i8,
    pub room_y: i8,
}

} // verus!
