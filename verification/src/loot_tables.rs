//! Deterministic loot rolls: a hash of time and identity, mapped through
//! weighted tables into an item, an amount and a durability.

use vstd::prelude::*;

use crate::item_ids;
use crate::item_types;
use crate::keys::AccountId;

verus! {

/// The loot hash for a chest: the slot, mixed with the four words of the
/// looter's key.
pub open spec fn chest_loot_hash_spec(slot: u64, player: AccountId) -> u64 {
    let h0 = slot;
    let h1 = h0.wrapping_mul(31).wrapping_add(player.w0);
    let h2 = h1.wrapping_mul(31).wrapping_add(player.w1);
    let h3 = h2.wrapping_mul(31).wrapping_add(player.w2);
    h3.wrapping_mul(31).wrapping_add(player.w3)
}

/// Mixes the slot and the looter's key into the chest loot hash.
pub fn generate_loot_hash(slot: u64, player: &AccountId) -> (h: u64)
    ensures
        h == chest_loot_hash_spec(slot, *player),
{
    let mut hash = slot;
    hash = hash.wrapping_mul(31).wrapping_add(player.w0);
    hash = hash.wrapping_mul(31).wrapping_add(player.w1);
    hash = hash.wrapping_mul(31).wrapping_add(player.w2);
    hash = hash.wrapping_mul(31).wrapping_add(player.w3);
    hash
}

/// The loot hash for a boss: the slot mixed with the boss variant, then
/// with the four words of the looter's key.
pub open spec fn boss_loot_hash_spec(slot: u64, player: AccountId, boss_id: u16) -> u64 {
    let h0 = slot.wrapping_mul(31).wrapping_add(boss_id as u64);
    let h1 = h0.wrapping_mul(31).wrapping_add(player.w0);
    let h2 = h1.wrapping_mul(31).wrapping_add(player.w1);
    let h3 = h2.wrapping_mul(31).wrapping_add(player.w2);
    h3.wrapping_mul(31).wrapping_add(player.w3)
}

/// Mixes the slot, the looter's key and the boss variant into the boss
/// loot hash.
pub fn generate_boss_loot_hash(slot: u64, player: &AccountId, boss_id: u16) -> (h: u64)
    ensures
        h == boss_loot_hash_spec(slot, *player, boss_id),
{
    let mut hash = slot.wrapping_mul(31).wrapping_add(boss_id as u64);
    hash = hash.wrapping_mul(31).wrapping_add(player.w0);
    hash = hash.wrapping_mul(31).wrapping_add(player.w1);
    hash = hash.wrapping_mul(31).wrapping_add(player.w2);
    hash = hash.wrapping_mul(31).wrapping_add(player.w3);
    hash
}

/// The byte of the hash that sizes a drop.
pub open spec fn amount_roll_spec(hash: u64) -> u8 {
    ((hash >> 32) % 256) as u8
}

/// What a chest drops for a given hash: ore sixty percent of the time
/// (one to five), a tool a quarter of the time (always one), a buff
/// otherwise (one to three).
pub open spec fn chest_loot_spec(hash: u64) -> (u8, u8) {
    let type_roll = hash % 100;
    let amount_roll = amount_roll_spec(hash);
    if type_roll < 60 {
        (item_types::ORE, (amount_roll % 5 + 1) as u8)
    } else if type_roll < 85 {
        (item_types::TOOL, 1u8)
    } else {
        (item_types::BUFF, (amount_roll % 3 + 1) as u8)
    }
}

/// Rolls a chest drop's family and amount from the loot hash.
pub fn calculate_loot(hash: u64) -> (r: (u8, u8))
    ensures
        r == chest_loot_spec(hash),
{
    let type_roll = hash % 100;
    let item_type: u8 = if type_roll < 60 {
        item_types::ORE
    } else if type_roll < 85 {
        item_types::TOOL
    } else {
        item_types::BUFF
    };

    let amount_hash: u8 = ((hash >> 32) % 256) as u8;
    let item_amount: u8 = if item_type == item_types::ORE {
        amount_hash % 5 + 1
    } else if item_type == item_types::TOOL {
        1
    } else {
        amount_hash % 3 + 1
    };

    (item_type, item_amount)
}

/// What a boss drops for a given hash: ore thirty-five percent of the
/// time (three to ten), a tool forty percent (always one), a buff
/// otherwise (two to six).
pub open spec fn boss_loot_spec(hash: u64) -> (u8, u8) {
    let type_roll = hash % 100;
    let amount_roll = amount_roll_spec(hash);
    if type_roll < 35 {
        (item_types::ORE, (amount_roll % 8 + 3) as u8)
    } else if type_roll < 75 {
        (item_types::TOOL, 1u8)
    } else {
        (item_types::BUFF, (amount_roll % 5 + 2) as u8)
    }
}

/// Rolls a boss drop's family and amount from the loot hash.
pub fn calculate_boss_loot(hash: u64) -> (r: (u8, u8))
    ensures
        r == boss_loot_spec(hash),
{
    let type_roll = hash % 100;
    let item_type: u8 = if type_roll < 35 {
        item_types::ORE
    } else if type_roll < 75 {
        item_types::TOOL
    } else {
        item_types::BUFF
    };

    let amount_hash: u8 = ((hash >> 32) % 256) as u8;
    let item_amount: u8 = if item_type == item_types::ORE {
        amount_hash % 8 + 3
    } else if item_type == item_types::TOOL {
        1
    } else {
        amount_hash % 5 + 2
    };

    (item_type, item_amount)
}

/// The sixteen bits of the hash that pick a concrete item out of its
/// family's table.
pub open spec fn picker_spec(hash: u64) -> u64 {
    (hash >> 16) % 0x1_0000
}

/// The concrete item a chest drop resolves to: common tools, common and
/// mid-tier valuables (silver and gold coins twice as likely), or one of
/// the two buffs.
pub open spec fn chest_item_id_spec(item_type: u8, hash: u64) -> u16 {
    let picker = picker_spec(hash);
    if item_type == item_types::TOOL {
        let slot = picker % 7;
        if slot == 0 {
            item_ids::BRONZE_PICKAXE
        } else if slot == 1 {
            item_ids::IRON_PICKAXE
        } else if slot == 2 {
            item_ids::BRONZE_SWORD
        } else if slot == 3 {
            item_ids::IRON_SWORD
        } else if slot == 4 {
            item_ids::WOODEN_PIPE
        } else if slot == 5 {
            item_ids::IRON_SCIMITAR
        } else {
            item_ids::WOODEN_TANKARD
        }
    } else if item_type == item_types::ORE {
        let slot = picker % 14;
        if slot == 0 || slot == 1 {
            item_ids::SILVER_COIN
        } else if slot == 2 || slot == 3 {
            item_ids::GOLD_COIN
        } else if slot == 4 {
            item_ids::GOLD_BAR
        } else if slot == 5 {
            item_ids::RUBY
        } else if slot == 6 {
            item_ids::SAPPHIRE
        } else if slot == 7 {
            item_ids::EMERALD
        } else if slot == 8 {
            item_ids::GOBLIN_TOOTH
        } else if slot == 9 {
            item_ids::DUSTY_TOME
        } else if slot == 10 {
            item_ids::SKELETON_KEY
        } else if slot == 11 {
            item_ids::RUSTED_COMPASS
        } else if slot == 12 {
            item_ids::DWARF_BEARD_RING
        } else {
            item_ids::ENCHANTED_SCROLL
        }
    } else if item_type == item_types::BUFF {
        if picker % 2 == 0 {
            item_ids::MINOR_BUFF
        } else {
            item_ids::MAJOR_BUFF
        }
    } else {
        item_ids::SILVER_COIN
    }
}

/// Resolves a chest drop's family to a concrete item id.
pub fn map_chest_item_type_to_item_id(item_type: u8, hash: u64) -> (r: u16)
    ensures
        r == chest_item_id_spec(item_type, hash),
{
    let picker: u64 = (hash >> 16) % 0x1_0000;
    if item_type == item_types::TOOL {
        match picker % 7 {
            0 => item_ids::BRONZE_PICKAXE,
            1 => item_ids::IRON_PICKAXE,
            2 => item_ids::BRONZE_SWORD,
            3 => item_ids::IRON_SWORD,
            4 => item_ids::WOODEN_PIPE,
            5 => item_ids::IRON_SCIMITAR,
            _ => item_ids::WOODEN_TANKARD,
        }
    } else if item_type == item_types::ORE {
        match picker % 14 {
            0 | 1 => item_ids::SILVER_COIN,
            2 | 3 => item_ids::GOLD_COIN,
            4 => item_ids::GOLD_BAR,
            5 => item_ids::RUBY,
            6 => item_ids::SAPPHIRE,
            7 => item_ids::EMERALD,
            8 => item_ids::GOBLIN_TOOTH,
            9 => item_ids::DUSTY_TOME,
            10 => item_ids::SKELETON_KEY,
            11 => item_ids::RUSTED_COMPASS,
            12 => item_ids::DWARF_BEARD_RING,
            _ => item_ids::ENCHANTED_SCROLL,
        }
    } else if item_type == item_types::BUFF {
        match picker % 2 {
            0 => item_ids::MINOR_BUFF,
            _ => item_ids::MAJOR_BUFF,
        }
    } else {
        item_ids::SILVER_COIN
    }
}

/// The concrete item a boss drop resolves to: rarer tools and valuables
/// than a chest gives (gold bars and major buffs twice as likely).
pub open spec fn boss_item_id_spec(item_type: u8, hash: u64) -> u16 {
    let picker = picker_spec(hash);
    if item_type == item_types::TOOL {
        let slot = picker % 9;
        if slot == 0 {
            item_ids::IRON_PICKAXE
        } else if slot == 1 {
            item_ids::IRON_SWORD
        } else if slot == 2 {
            item_ids::DIAMOND_SWORD
        } else if slot == 3 {
            item_ids::NOKIA_3310
        } else if slot == 4 {
            item_ids::IRON_SCIMITAR
        } else if slot == 5 {
            item_ids::BRONZE_SWORD
        } else if slot == 6 {
            item_ids::BRONZE_PICKAXE
        } else if slot == 7 {
            item_ids::WOODEN_PIPE
        } else {
            item_ids::WOODEN_TANKARD
        }
    } else if item_type == item_types::ORE {
        let slot = picker % 16;
        if slot == 0 {
            item_ids::GOLD_COIN
        } else if slot == 1 || slot == 2 {
            item_ids::GOLD_BAR
        } else if slot == 3 {
            item_ids::DIAMOND
        } else if slot == 4 {
            item_ids::RUBY
        } else if slot == 5 {
            item_ids::SAPPHIRE
        } else if slot == 6 {
            item_ids::EMERALD
        } else if slot == 7 {
            item_ids::ANCIENT_CROWN
        } else if slot == 8 {
            item_ids::DRAGON_SCALE
        } else if slot == 9 {
            item_ids::CURSED_AMULET
        } else if slot == 10 {
            item_ids::GOLDEN_CHALICE
        } else if slot == 11 {
            item_ids::MYSTIC_ORB
        } else if slot == 12 {
            item_ids::PHOENIX_FEATHER
        } else if slot == 13 {
            item_ids::VOID_SHARD
        } else if slot == 14 {
            item_ids::SKELETON_KEY
        } else {
            item_ids::ENCHANTED_SCROLL
        }
    } else if item_type == item_types::BUFF {
        let slot = picker % 3;
        if slot == 0 {
            item_ids::MINOR_BUFF
        } else {
            item_ids::MAJOR_BUFF
        }
    } else {
        item_ids::GOLD_COIN
    }
}

/// Resolves a boss drop's family to a concrete item id.
pub fn map_boss_item_type_to_item_id(item_type: u8, hash: u64) -> (r: u16)
    ensures
        r == boss_item_id_spec(item_type, hash),
{
    let picker: u64 = (hash >> 16) % 0x1_0000;
    if item_type == item_types::TOOL {
        match picker % 9 {
            0 => item_ids::IRON_PICKAXE,
            1 => item_ids::IRON_SWORD,
            2 => item_ids::DIAMOND_SWORD,
            3 => item_ids::NOKIA_3310,
            4 => item_ids::IRON_SCIMITAR,
            5 => item_ids::BRONZE_SWORD,
            6 => item_ids::BRONZE_PICKAXE,
            7 => item_ids::WOODEN_PIPE,
            _ => item_ids::WOODEN_TANKARD,
        }
    } else if item_type == item_types::ORE {
        match picker % 16 {
            0 => item_ids::GOLD_COIN,
            1 | 2 => item_ids::GOLD_BAR,
            3 => item_ids::DIAMOND,
            4 => item_ids::RUBY,
            5 => item_ids::SAPPHIRE,
            6 => item_ids::EMERALD,
            7 => item_ids::ANCIENT_CROWN,
            8 => item_ids::DRAGON_SCALE,
            9 => item_ids::CURSED_AMULET,
            10 => item_ids::GOLDEN_CHALICE,
            11 => item_ids::MYSTIC_ORB,
            12 => item_ids::PHOENIX_FEATHER,
            13 => item_ids::VOID_SHARD,
            14 => item_ids::SKELETON_KEY,
            _ => item_ids::ENCHANTED_SCROLL,
        }
    } else if item_type == item_types::BUFF {
        match picker % 3 {
            0 => item_ids::MINOR_BUFF,
            _ => item_ids::MAJOR_BUFF,
        }
    } else {
        item_ids::GOLD_COIN
    }
}

/// Durability a dropped item starts with: zero for anything but a tool,
/// and a figure per tool tier.
pub open spec fn item_durability_spec(item_type: u8, item_id: u16) -> u16 {
    if item_type == item_types::TOOL {
        if item_id == item_ids::BRONZE_PICKAXE || item_id == item_ids::BRONZE_SWORD {
            80u16
        } else if item_id == item_ids::IRON_PICKAXE || item_id == item_ids::IRON_SWORD || item_id
            == item_ids::IRON_SCIMITAR {
            120u16
        } else if item_id == item_ids::DIAMOND_SWORD {
            200u16
        } else if item_id == item_ids::NOKIA_3310 {
            9999u16
        } else if item_id == item_ids::WOODEN_PIPE || item_id == item_ids::WOODEN_TANKARD {
            60u16
        } else {
            100u16
        }
    } else {
        0u16
    }
}

/// Durability a dropped item starts with.
pub fn item_durability(item_type: u8, item_id: u16) -> (r: u16)
    ensures
        r == item_durability_spec(item_type, item_id),
{
    if item_type == item_types::TOOL {
        match item_id {
            item_ids::BRONZE_PICKAXE | item_ids::BRONZE_SWORD => 80,
            item_ids::IRON_PICKAXE | item_ids::IRON_SWORD | item_ids::IRON_SCIMITAR => 120,
            item_ids::DIAMOND_SWORD => 200,
            item_ids::NOKIA_3310 => 9999,
            item_ids::WOODEN_PIPE | item_ids::WOODEN_TANKARD => 60,
            _ => 100,
        }
    } else {
        0
    }
}

} // verus!
