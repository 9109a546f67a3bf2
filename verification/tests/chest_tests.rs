use chaindepth::errors::ChainDepthError;
use chaindepth::global::GlobalAccount;
use chaindepth::inventory::InventoryAccount;
use chaindepth::item_ids;
use chaindepth::item_types;
use chaindepth::keys::AccountId;
use chaindepth::looting::loot_chest;
use chaindepth::player::PlayerAccount;
use chaindepth::room::{RoomAccount, CENTER_CHEST, CENTER_EMPTY, MAX_LOOTERS, WALL_RUBBLE};
use chaindepth::session::SessionAuthority;

fn key(n: u64) -> AccountId {
    AccountId::new(n, 0, 0, 0)
}

fn global(seed: u64) -> GlobalAccount {
    GlobalAccount {
        season_seed: seed,
        depth: 0,
        skr_mint: key(900),
        prize_pool: key(901),
        admin: key(902),
        end_slot: 1_000_000,
        jobs_completed: 0,
    }
}

fn chest_room(x: i8, y: i8, seed: u64) -> RoomAccount {
    RoomAccount {
        x,
        y,
        season_seed: seed,
        walls: [WALL_RUBBLE; 4],
        helper_counts: [0; 4],
        progress: [0; 4],
        start_slot: [0; 4],
        base_slots: [300; 4],
        total_staked: [0; 4],
        job_completed: [false; 4],
        bonus_per_helper: [0; 4],
        has_chest: true,
        center_type: CENTER_CHEST,
        center_id: 1,
        boss_max_hp: 0,
        boss_current_hp: 0,
        boss_last_update_slot: 0,
        boss_total_dps: 0,
        boss_fighter_count: 0,
        boss_defeated: false,
        looted_by: Vec::new(),
        looted_count: 0,
        created_by: key(902),
        created_slot: 0,
    }
}

fn player_at(player: AccountId, x: i8, y: i8, seed: u64) -> PlayerAccount {
    PlayerAccount {
        owner: player,
        current_room_x: x,
        current_room_y: y,
        active_jobs: Vec::new(),
        jobs_completed: 0,
        chests_looted: 0,
        equipped_item_id: 0,
        season_seed: seed,
    }
}

#[test]
fn looting_a_chest_rolls_a_deterministic_drop() {
    let p = key(0);
    let g = global(7);
    let mut room = chest_room(4, 5, 7);
    let mut pa = player_at(p, 4, 5, 7);
    let mut inv = InventoryAccount::new(p);
    let mut s: Option<SessionAuthority> = None;

    // With an all-zero key the loot hash at slot 1 is 31^4 = 923521:
    // type roll 21 is ore, the amount byte is 0 so one piece, and the
    // picker lands on the first valuable.
    let (receipt, event) = loot_chest(&mut room, &mut pa, &mut inv, &mut s, &g, p, p, 1).unwrap();
    assert_eq!(event.item_type, item_types::ORE);
    assert_eq!(event.item_amount, 1);
    assert_eq!(inv.items.len(), 1);
    assert_eq!(inv.items[0].item_id, item_ids::SILVER_COIN);
    assert_eq!(inv.items[0].amount, 1);
    assert_eq!(receipt.player, p);
    assert_eq!((receipt.room_x, receipt.room_y), (4, 5));
    assert_eq!(receipt.season_seed, 7);
    assert_eq!(room.looted_count, 1);
    assert_eq!(pa.chests_looted, 1);
}

#[test]
fn looting_a_chest_twice_fails_with_already_looted() {
    let p = key(1);
    let g = global(7);
    let mut room = chest_room(4, 5, 7);
    let mut pa = player_at(p, 4, 5, 7);
    let mut inv = InventoryAccount::new(p);
    let mut s: Option<SessionAuthority> = None;

    loot_chest(&mut room, &mut pa, &mut inv, &mut s, &g, p, p, 1).unwrap();
    assert_eq!(
        loot_chest(&mut room, &mut pa, &mut inv, &mut s, &g, p, p, 2).unwrap_err(),
        ChainDepthError::AlreadyLooted
    );
    assert_eq!(room.looted_count, 1);
    assert_eq!(pa.chests_looted, 1);
    assert_eq!(inv.items.len(), 1);
}

#[test]
fn chest_looting_gates_on_center_and_presence() {
    let p = key(1);
    let g = global(7);
    let mut s: Option<SessionAuthority> = None;
    let mut inv = InventoryAccount::new(p);

    let mut empty = chest_room(4, 5, 7);
    empty.center_type = CENTER_EMPTY;
    empty.has_chest = false;
    let mut pa = player_at(p, 4, 5, 7);
    assert_eq!(
        loot_chest(&mut empty, &mut pa, &mut inv, &mut s, &g, p, p, 1).unwrap_err(),
        ChainDepthError::NoChest
    );

    let mut room = chest_room(4, 5, 7);
    let mut away = player_at(p, 5, 5, 7);
    assert_eq!(
        loot_chest(&mut room, &mut away, &mut inv, &mut s, &g, p, p, 1).unwrap_err(),
        ChainDepthError::NotInRoom
    );
    assert!(inv.items.is_empty());
}

#[test]
fn a_chest_serves_at_most_the_looter_cap() {
    let g = global(7);
    let mut room = chest_room(4, 5, 7);
    let mut s: Option<SessionAuthority> = None;

    for n in 0..MAX_LOOTERS as u64 {
        let p = key(n + 1);
        let mut pa = player_at(p, 4, 5, 7);
        let mut inv = InventoryAccount::new(p);
        loot_chest(&mut room, &mut pa, &mut inv, &mut s, &g, p, p, n + 1).unwrap();
    }
    let p = key(777);
    let mut pa = player_at(p, 4, 5, 7);
    let mut inv = InventoryAccount::new(p);
    assert_eq!(
        loot_chest(&mut room, &mut pa, &mut inv, &mut s, &g, p, p, 50).unwrap_err(),
        ChainDepthError::MaxLootersReached
    );
    assert_eq!(room.looted_count as usize, MAX_LOOTERS);
}

#[test]
fn a_loot_the_inventory_cannot_take_changes_nothing() {
    let p = key(0);
    let g = global(7);
    let mut room = chest_room(4, 5, 7);
    let mut pa = player_at(p, 4, 5, 7);
    // Fill every slot with stacks the drop cannot merge into.
    let mut inv = InventoryAccount::new(p);
    for n in 0..64u16 {
        inv.add_item(1000 + n, 1, 0).unwrap();
    }
    let mut s: Option<SessionAuthority> = None;

    assert_eq!(
        loot_chest(&mut room, &mut pa, &mut inv, &mut s, &g, p, p, 1).unwrap_err(),
        ChainDepthError::InventoryFull
    );
    // The whole loot rolled back: no looter recorded, no counter moved.
    assert_eq!(room.looted_count, 0);
    assert_eq!(pa.chests_looted, 0);
    assert_eq!(inv.items.len(), 64);
}
