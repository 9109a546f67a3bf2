//! Domain events handed to external consumers (indexers, clients) after a
//! successful operation.

use vstd::prelude::*;

use crate::keys::AccountId;

verus! {

/// A season's world came up.
#[derive(Clone, Copy, Debug, PartialEq, Eq, Structural)]
pub struct WorldInitialized {
    pub season_seed: u64,
    pub admin: AccountId,
    pub skr_mint: AccountId,
    pub end_slot: u64,
}

/// A player moved between rooms.
#[derive(Clone, Copy, Debug, PartialEq, Eq, Structural)]
pub struct PlayerMoved {
    pub player: AccountId,
    pub from_x: i8,
    pub from_y: i8,
    pub to_x: i8,
    pub to_y: i8,
}

/// A player joined a wall-clearing job.
#[derive(Clone, Copy, Debug, PartialEq, Eq, Structural)]
pub struct JobJoined {
    pub room_x: i8,
    pub room_y: i8,
    pub direction: u8,
    pub player: AccountId,
    pub helper_count: u32,
    pub stake_amount: u64,
}

/// A wall-clearing job completed and its wall opened.
#[derive(Clone, Copy, Debug, PartialEq, Eq, Structural)]
pub struct JobCompleted {
    pub room_x: i8,
    pub room_y: i8,
    pub direction: u8,
    pub new_depth: u32,
    pub helpers_count: u32,
    pub reward_per_helper: u64,
}

/// A player looted a chest.
#[derive(Clone, Copy, Debug, PartialEq, Eq, Structural)]
pub struct ChestLooted {
    pub room_x: i8,
    pub room_y: i8,
    pub player: AccountId,
    pub item_type: u8,
    pub item_amount: u8,
}

/// A player looted a defeated boss.
#[derive(Clone, Copy, Debug, PartialEq, Eq, Structural)]
pub struct BossLooted {
    pub room_x: i8,
    pub room_y: i8,
    pub player: AccountId,
    pub item_type: u8,
    pub item_amount: u8,
}

} // verus!
