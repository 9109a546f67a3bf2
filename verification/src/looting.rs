//! Looting chests and defeated bosses: one-shot, receipt-guarded rewards.
//!
//! A room's center can be looted once per player, by a bounded number of
//! players.  The drop is a deterministic function of the slot, the
//! looter's key and (for a boss) the boss variant.

use vstd::prelude::*;

use crate::errors::ChainDepthError;
use crate::events::{BossLooted, ChestLooted};
use crate::global::GlobalAccount;
use crate::inventory::{add_item_decision_spec, add_item_result_spec, InventoryAccount};
use crate::keys::AccountId;
use crate::loot_receipt::LootReceipt;
use crate::loot_tables;
use crate::player::{PlayerAccount, RoomPresence, ACTIVITY_IDLE};
use crate::room::{RoomAccount, CENTER_BOSS, CENTER_CHEST, MAX_LOOTERS};
use crate::session::{authorize_check, authorize_decision_spec, SessionAuthority};
use crate::session_instruction_bits;
use crate::boss::{boss_defeated_at_spec, boss_hp_at_spec, BossFightAccount};

verus! {

/// The chest drop for a given slot and looter: family and amount from the
/// loot hash, then the concrete item and its durability.
pub open spec fn chest_drop_spec(now_slot: u64, player: AccountId) -> (u8, u8, u16, u16) {
    let hash = loot_tables::chest_loot_hash_spec(now_slot, player);
    let roll = loot_tables::chest_loot_spec(hash);
    let item_id = loot_tables::chest_item_id_spec(roll.0, hash);
    (roll.0, roll.1, item_id, loot_tables::item_durability_spec(roll.0, item_id))
}

/// The boss drop for a given slot, looter and boss variant.
pub open spec fn boss_drop_spec(now_slot: u64, player: AccountId, boss_id: u16) -> (
    u8,
    u8,
    u16,
    u16,
) {
    let hash = loot_tables::boss_loot_hash_spec(now_slot, player, boss_id);
    let roll = loot_tables::boss_loot_spec(hash);
    let item_id = loot_tables::boss_item_id_spec(roll.0, hash);
    (roll.0, roll.1, item_id, loot_tables::item_durability_spec(roll.0, item_id))
}

/// What [`loot_chest`] decides, in the order the checks run.  The last
/// step is whether the inventory can take the drop.
pub open spec fn loot_chest_decision_spec(
    room: RoomAccount,
    player_account: PlayerAccount,
    inventory: InventoryAccount,
    session: Option<SessionAuthority>,
    authority: AccountId,
    player: AccountId,
    now_slot: u64,
) -> Result<(), ChainDepthError> {
    let auth = authorize_decision_spec(
        authority,
        player,
        session,
        session_instruction_bits::LOOT_CHEST,
        0,
        now_slot,
    );
    let drop = chest_drop_spec(now_slot, player);
    if auth is Err {
        auth
    } else if room.center_type != CENTER_CHEST {
        Err(ChainDepthError::NoChest)
    } else if !player_account.is_at_room_spec(room.x, room.y) {
        Err(ChainDepthError::NotInRoom)
    } else if room.has_looted_spec(player) {
        Err(ChainDepthError::AlreadyLooted)
    } else if room.looted_by@.len() >= MAX_LOOTERS {
        Err(ChainDepthError::MaxLootersReached)
    } else if player_account.chests_looted == u32::MAX {
        Err(ChainDepthError::Overflow)
    } else {
        add_item_decision_spec(inventory.items@, drop.2, drop.1 as u32, drop.3)
    }
}

/// The state a successful loot leaves behind, shared by chest and boss:
/// the looter joins the room's looted set, their counter advances, and
/// the drop lands in their inventory (a never-written inventory is
/// claimed for the looter first).
pub open spec fn loot_applied_spec(
    room: RoomAccount,
    new_room: RoomAccount,
    player_account: PlayerAccount,
    new_player_account: PlayerAccount,
    inventory: InventoryAccount,
    new_inventory: InventoryAccount,
    player: AccountId,
    item_id: u16,
    item_amount: u8,
    durability: u16,
) -> bool {
    &&& new_room.looted_by@ == room.looted_by@.push(player)
    &&& new_room.looted_count == room.looted_count + 1
    &&& new_player_account == (PlayerAccount {
        chests_looted: (player_account.chests_looted + 1) as u32,
        ..player_account
    })
    &&& new_inventory.owner == (if inventory.owner.is_zeroed_spec() {
        player
    } else {
        inventory.owner
    })
    &&& new_inventory.items@ == add_item_result_spec(
        inventory.items@,
        item_id,
        item_amount as u32,
        durability,
    )
}

/// Loots the chest in the room the player stands in.  Each player can
/// loot a chest once, the chest serves a bounded number of players, and
/// the drop is rolled from the slot and the looter's key.  A rejected
/// loot (including one the inventory cannot take) changes nothing.
pub fn loot_chest(
    room: &mut RoomAccount,
    player_account: &mut PlayerAccount,
    inventory: &mut InventoryAccount,
    session: &mut Option<SessionAuthority>,
    global: &GlobalAccount,
    authority: AccountId,
    player: AccountId,
    now_slot: u64,
) -> (r: Result<(LootReceipt, ChestLooted), ChainDepthError>)
    requires
        old(room).wf(),
        old(inventory).wf(),
        old(inventory).owner.is_zeroed_spec() ==> old(inventory).items@ == Seq::<
            crate::inventory::InventoryItem,
        >::empty(),
        old(room).season_seed == global.season_seed,
    ensures
        r matches Err(e) ==> Err::<(), ChainDepthError>(e) == loot_chest_decision_spec(
            *old(room),
            *old(player_account),
            *old(inventory),
            *old(session),
            authority,
            player,
            now_slot,
        ),
        r is Ok ==> loot_chest_decision_spec(
            *old(room),
            *old(player_account),
            *old(inventory),
            *old(session),
            authority,
            player,
            now_slot,
        ) is Ok,
        *final(session) == *old(session),
        r is Err ==> *final(room) == *old(room) && *final(player_account) == *old(player_account)
            && *final(inventory) == *old(inventory),
        r matches Ok((receipt, event)) ==> {
            let drop = chest_drop_spec(now_slot, player);
            &&& loot_applied_spec(
                *old(room),
                *final(room),
                *old(player_account),
                *final(player_account),
                *old(inventory),
                *final(inventory),
                player,
                drop.2,
                drop.1,
                drop.3,
            )
            &&& *final(room) == (RoomAccount {
                looted_by: final(room).looted_by,
                looted_count: final(room).looted_count,
                ..*old(room)
            })
            &&& receipt == (LootReceipt {
                player,
                season_seed: global.season_seed,
                room_x: old(room).x,
                room_y: old(room).y,
            })
            &&& event == (ChestLooted {
                room_x: old(room).x,
                room_y: old(room).y,
                player,
                item_type: drop.0,
                item_amount: drop.1,
            })
            &&& final(room).wf()
            &&& final(inventory).wf()
        },
{
    if let Err(e) = authorize_check(
        authority,
        player,
        session,
        session_instruction_bits::LOOT_CHEST,
        0,
        now_slot,
    ) {
        return Err(e);
    }
    if room.center_type != CENTER_CHEST {
        return Err(ChainDepthError::NoChest);
    }
    if !player_account.is_at_room(room.x, room.y) {
        return Err(ChainDepthError::NotInRoom);
    }
    if room.has_looted(&player) {
        return Err(ChainDepthError::AlreadyLooted);
    }
    if room.looted_by.len() >= MAX_LOOTERS {
        return Err(ChainDepthError::MaxLootersReached);
    }
    if player_account.chests_looted == u32::MAX {
        return Err(ChainDepthError::Overflow);
    }

    // Roll the drop and try to bank it; a full or overflowing inventory
    // rejects the whole loot.
    let loot_hash = loot_tables::generate_loot_hash(now_slot, &player);
    let (item_type, item_amount) = loot_tables::calculate_loot(loot_hash);
    let item_id = loot_tables::map_chest_item_type_to_item_id(item_type, loot_hash);
    let durability = loot_tables::item_durability(item_type, item_id);
    if let Err(e) = inventory.add_item(item_id, item_amount as u32, durability) {
        return Err(e);
    }
    if inventory.owner.is_zeroed() {
        inventory.owner = player;
    }

    // The drop is banked: record the looter.
    room.looted_by.push(player);
    room.looted_count = room.looted_count + 1;
    player_account.chests_looted = player_account.chests_looted + 1;

    let receipt = LootReceipt {
        player,
        season_seed: global.season_seed,
        room_x: room.x,
        room_y: room.y,
    };
    let event = ChestLooted {
        room_x: room.x,
        room_y: room.y,
        player,
        item_type,
        item_amount,
    };
    Ok((receipt, event))
}

/// What [`loot_boss`] decides, in the order the checks run.  The boss's
/// health is settled at the current slot before the defeat gate.
pub open spec fn loot_boss_decision_spec(
    room: RoomAccount,
    player_account: PlayerAccount,
    inventory: InventoryAccount,
    fight: BossFightAccount,
    session: Option<SessionAuthority>,
    authority: AccountId,
    player: AccountId,
    now_slot: u64,
) -> Result<(), ChainDepthError> {
    let auth = authorize_decision_spec(
        authority,
        player,
        session,
        session_instruction_bits::LOOT_BOSS,
        0,
        now_slot,
    );
    let drop = boss_drop_spec(now_slot, player, room.center_id);
    if auth is Err {
        auth
    } else if room.center_type != CENTER_BOSS {
        Err(ChainDepthError::NoBoss)
    } else if fight.player != player || fight.room_x != room.x || fight.room_y != room.y {
        Err(ChainDepthError::NotBossFighter)
    } else if !boss_defeated_at_spec(room, now_slot) {
        Err(ChainDepthError::BossNotDefeated)
    } else if !player_account.is_at_room_spec(room.x, room.y) {
        Err(ChainDepthError::NotInRoom)
    } else if room.has_looted_spec(player) {
        Err(ChainDepthError::AlreadyLooted)
    } else if room.looted_by@.len() >= MAX_LOOTERS {
        Err(ChainDepthError::MaxLootersReached)
    } else if player_account.chests_looted == u32::MAX {
        Err(ChainDepthError::Overflow)
    } else {
        add_item_decision_spec(inventory.items@, drop.2, drop.1 as u32, drop.3)
    }
}

/// Loots this room's defeated boss.  The caller must have fought it (a
/// fight record for this room and player), stand in the room, and not
/// have looted it before; the boss's health is settled at the current
/// slot first, so a boss whose health ran out is lootable even if nothing
/// touched it since.  A rejected loot changes nothing.
pub fn loot_boss(
    room: &mut RoomAccount,
    player_account: &mut PlayerAccount,
    inventory: &mut InventoryAccount,
    presence: &mut RoomPresence,
    fight: &BossFightAccount,
    session: &mut Option<SessionAuthority>,
    global: &GlobalAccount,
    authority: AccountId,
    player: AccountId,
    now_slot: u64,
) -> (r: Result<(LootReceipt, BossLooted), ChainDepthError>)
    requires
        old(room).wf(),
        old(inventory).wf(),
        old(inventory).owner.is_zeroed_spec() ==> old(inventory).items@ == Seq::<
            crate::inventory::InventoryItem,
        >::empty(),
        old(room).season_seed == global.season_seed,
    ensures
        r matches Err(e) ==> Err::<(), ChainDepthError>(e) == loot_boss_decision_spec(
            *old(room),
            *old(player_account),
            *old(inventory),
            *fight,
            *old(session),
            authority,
            player,
            now_slot,
        ),
        r is Ok ==> loot_boss_decision_spec(
            *old(room),
            *old(player_account),
            *old(inventory),
            *fight,
            *old(session),
            authority,
            player,
            now_slot,
        ) is Ok,
        *final(session) == *old(session),
        r is Err ==> *final(room) == *old(room) && *final(player_account) == *old(player_account)
            && *final(inventory) == *old(inventory) && *final(presence) == *old(presence),
        r matches Ok((receipt, event)) ==> {
            let drop = boss_drop_spec(now_slot, player, old(room).center_id);
            &&& loot_applied_spec(
                *old(room),
                *final(room),
                *old(player_account),
                *final(player_account),
                *old(inventory),
                *final(inventory),
                player,
                drop.2,
                drop.1,
                drop.3,
            )
            // The boss's health is settled: zero, defeated, as of now.
            &&& *final(room) == (RoomAccount {
                looted_by: final(room).looted_by,
                looted_count: final(room).looted_count,
                boss_current_hp: boss_hp_at_spec(*old(room), now_slot),
                boss_last_update_slot: now_slot,
                boss_defeated: true,
                ..*old(room)
            })
            &&& *final(presence) == (RoomPresence {
                activity: ACTIVITY_IDLE,
                activity_direction: 0,
                ..*old(presence)
            })
            &&& receipt == (LootReceipt {
                player,
                season_seed: global.season_seed,
                room_x: old(room).x,
                room_y: old(room).y,
            })
            &&& event == (BossLooted {
                room_x: old(room).x,
                room_y: old(room).y,
                player,
                item_type: drop.0,
                item_amount: drop.1,
            })
            &&& final(room).wf()
            &&& final(inventory).wf()
        },
{
    if let Err(e) = authorize_check(
        authority,
        player,
        session,
        session_instruction_bits::LOOT_BOSS,
        0,
        now_slot,
    ) {
        return Err(e);
    }
    if room.center_type != CENTER_BOSS {
        return Err(ChainDepthError::NoBoss);
    }
    if fight.player != player || fight.room_x != room.x || fight.room_y != room.y {
        return Err(ChainDepthError::NotBossFighter);
    }
    let hp_now = crate::boss::query_boss_hp(room, now_slot);
    if !(room.boss_defeated || hp_now == 0) {
        return Err(ChainDepthError::BossNotDefeated);
    }
    if !player_account.is_at_room(room.x, room.y) {
        return Err(ChainDepthError::NotInRoom);
    }
    if room.has_looted(&player) {
        return Err(ChainDepthError::AlreadyLooted);
    }
    if room.looted_by.len() >= MAX_LOOTERS {
        return Err(ChainDepthError::MaxLootersReached);
    }
    if player_account.chests_looted == u32::MAX {
        return Err(ChainDepthError::Overflow);
    }

    // Roll the drop and try to bank it; a full or overflowing inventory
    // rejects the whole loot.
    let loot_hash = loot_tables::generate_boss_loot_hash(now_slot, &player, room.center_id);
    let (item_type, item_amount) = loot_tables::calculate_boss_loot(loot_hash);
    let item_id = loot_tables::map_boss_item_type_to_item_id(item_type, loot_hash);
    let durability = loot_tables::item_durability(item_type, item_id);
    if let Err(e) = inventory.add_item(item_id, item_amount as u32, durability) {
        return Err(e);
    }
    if inventory.owner.is_zeroed() {
        inventory.owner = player;
    }

    // The drop is banked: settle the boss and record the looter.
    room.boss_current_hp = hp_now;
    room.boss_last_update_slot = now_slot;
    room.boss_defeated = true;
    room.looted_by.push(player);
    room.looted_count = room.looted_count + 1;
    player_account.chests_looted = player_account.chests_looted + 1;
    presence.set_idle();

    let receipt = LootReceipt {
        player,
        season_seed: global.season_seed,
        room_x: room.x,
        room_y: room.y,
    };
    let event = BossLooted {
        room_x: room.x,
        room_y: room.y,
        player,
        item_type,
        item_amount,
    };
    Ok((receipt, event))
}

/// Looting the same center twice is rejected: once a loot has recorded a
/// player in a room's looted set, a second attempt by the same player on
/// that room fails with `AlreadyLooted` — for a chest and for a boss
/// alike — as long as the request itself is authorized and its earlier
/// gates pass.
pub proof fn lemma_reloot_rejected(
    room0: RoomAccount,
    room1: RoomAccount,
    player_account: PlayerAccount,
    inventory: InventoryAccount,
    fight: BossFightAccount,
    session: Option<SessionAuthority>,
    authority: AccountId,
    player: AccountId,
    now_slot: u64,
)
    requires
        room1.looted_by@ == room0.looted_by@.push(player),
        room1.x == room0.x && room1.y == room0.y,
    ensures
        room1.has_looted_spec(player),
        room1.center_type == CENTER_CHEST && authorize_decision_spec(
            authority,
            player,
            session,
            session_instruction_bits::LOOT_CHEST,
            0,
            now_slot,
        ) is Ok && player_account.is_at_room_spec(room1.x, room1.y)
            ==> loot_chest_decision_spec(
            room1,
            player_account,
            inventory,
            session,
            authority,
            player,
            now_slot,
        ) == Err::<(), ChainDepthError>(ChainDepthError::AlreadyLooted),
        room1.center_type == CENTER_BOSS && authorize_decision_spec(
            authority,
            player,
            session,
            session_instruction_bits::LOOT_BOSS,
            0,
            now_slot,
        ) is Ok && fight.player == player && fight.room_x == room1.x && fight.room_y == room1.y
            && boss_defeated_at_spec(room1, now_slot) && player_account.is_at_room_spec(
            room1.x,
            room1.y,
        ) ==> loot_boss_decision_spec(
            room1,
            player_account,
            inventory,
            fight,
            session,
            authority,
            player,
            now_slot,
        ) == Err::<(), ChainDepthError>(ChainDepthError::AlreadyLooted),
{
    assert(room1.looted_by@[room0.looted_by@.len() as int] == player);
    assert(room1.has_looted_spec(player));
}

} // verus!
