//! The three broad families loot falls into.

use vstd::prelude::*;

verus! {

/// Ores and other valuables, dropped in small piles.
pub const ORE: u8 = 0;

/// Tools and weapons, dropped one at a time with a durability.
pub const TOOL: u8 = 1;

/// Consumable buffs.
pub const BUFF: u8 = 2;

} // verus!
