use chaindepth::boss::{join_boss_fight, leave_boss_fight, query_boss_hp, update_boss_hp, BossFightAccount};
use chaindepth::errors::ChainDepthError;
use chaindepth::global::GlobalAccount;
use chaindepth::inventory::InventoryAccount;
use chaindepth::keys::AccountId;
use chaindepth::looting::loot_boss;
use chaindepth::player::{PlayerAccount, RoomPresence};
use chaindepth::room::{RoomAccount, CENTER_BOSS, CENTER_EMPTY, MAX_LOOTERS, WALL_RUBBLE};
use chaindepth::session::SessionAuthority;

fn key(n: u64) -> AccountId {
    AccountId::new(n, 0, 0, 0)
}

fn global(seed: u64) -> GlobalAccount {
    GlobalAccount {
        season_seed: seed,
        depth: 0,
        skr_mint: key(900),
        prize_pool: key(901),
        admin: key(902),
        end_slot: 1_000_000,
        jobs_completed: 0,
    }
}

fn boss_room(x: i8, y: i8, seed: u64, max_hp: u64) -> RoomAccount {
    RoomAccount {
        x,
        y,
        season_seed: seed,
        walls: [WALL_RUBBLE; 4],
        helper_counts: [0; 4],
        progress: [0; 4],
        start_slot: [0; 4],
        base_slots: [300; 4],
        total_staked: [0; 4],
        job_completed: [false; 4],
        bonus_per_helper: [0; 4],
        has_chest: false,
        center_type: CENTER_BOSS,
        center_id: 2,
        boss_max_hp: max_hp,
        boss_current_hp: max_hp,
        boss_last_update_slot: 0,
        boss_total_dps: 0,
        boss_fighter_count: 0,
        boss_defeated: false,
        looted_by: Vec::new(),
        looted_count: 0,
        created_by: key(902),
        created_slot: 0,
    }
}

fn player_at(player: AccountId, x: i8, y: i8, seed: u64) -> PlayerAccount {
    PlayerAccount {
        owner: player,
        current_room_x: x,
        current_room_y: y,
        active_jobs: Vec::new(),
        jobs_completed: 0,
        chests_looted: 0,
        equipped_item_id: 0,
        season_seed: seed,
    }
}

fn presence_at(player: AccountId, x: i8, y: i8, seed: u64) -> RoomPresence {
    RoomPresence {
        player,
        season_seed: seed,
        room_x: x,
        room_y: y,
        skin_id: 0,
        equipped_item_id: 0,
        activity: 0,
        activity_direction: 0,
        is_current: true,
    }
}

#[test]
fn boss_hp_drains_by_dps_times_elapsed_time() {
    let p = key(1);
    let mut room = boss_room(5, 5, 7, 1000);
    let pa = player_at(p, 5, 5, 7);
    let mut s: Option<SessionAuthority> = None;

    // One fighter with 50 damage per slot joins at slot 0.
    let fight = join_boss_fight(&mut room, &pa, false, &mut s, p, p, 50, 0).unwrap();
    assert_eq!(fight.dps, 50);
    assert_eq!(room.boss_total_dps, 50);
    assert_eq!(room.boss_fighter_count, 1);

    // At slot 10, half the health is gone; nothing else touched the room.
    assert_eq!(query_boss_hp(&room, 10), 500);
    assert!(!room.boss_defeated);

    // At slot 20 the health reaches zero and the boss is defeated.
    assert_eq!(query_boss_hp(&room, 20), 0);
    update_boss_hp(&mut room, 20);
    assert_eq!(room.boss_current_hp, 0);
    assert!(room.boss_defeated);

    // Defeat is terminal: later queries stay at zero.
    assert_eq!(query_boss_hp(&room, 1000), 0);
}

#[test]
fn joining_gates_on_center_presence_and_liveness() {
    let p = key(1);
    let mut s: Option<SessionAuthority> = None;

    let mut empty = boss_room(5, 5, 7, 0);
    empty.center_type = CENTER_EMPTY;
    assert_eq!(
        join_boss_fight(&mut empty, &player_at(p, 5, 5, 7), false, &mut s, p, p, 50, 0)
            .unwrap_err(),
        ChainDepthError::NoBoss
    );

    let mut room = boss_room(5, 5, 7, 1000);
    assert_eq!(
        join_boss_fight(&mut room, &player_at(p, 4, 5, 7), false, &mut s, p, p, 50, 0)
            .unwrap_err(),
        ChainDepthError::NotInRoom
    );
    assert_eq!(
        join_boss_fight(&mut room, &player_at(p, 5, 5, 7), true, &mut s, p, p, 50, 0)
            .unwrap_err(),
        ChainDepthError::AlreadyFightingBoss
    );

    // Once its health would read zero, the boss cannot be joined.
    join_boss_fight(&mut room, &player_at(p, 5, 5, 7), false, &mut s, p, p, 100, 0).unwrap();
    assert_eq!(
        join_boss_fight(&mut room, &player_at(key(2), 5, 5, 7), false, &mut s, key(2), key(2), 5, 10)
            .unwrap_err(),
        ChainDepthError::BossAlreadyDefeated
    );
}

#[test]
fn a_damage_rate_that_would_overflow_is_rejected() {
    let p = key(1);
    let mut room = boss_room(5, 5, 7, 1000);
    room.boss_total_dps = 5;
    let pa = player_at(p, 5, 5, 7);
    let mut s: Option<SessionAuthority> = None;
    assert_eq!(
        join_boss_fight(&mut room, &pa, false, &mut s, p, p, u64::MAX, 0).unwrap_err(),
        ChainDepthError::Overflow
    );
    assert_eq!(room.boss_total_dps, 5);
}

#[test]
fn leaving_settles_health_then_sheds_the_fighter() {
    let p = key(1);
    let mut room = boss_room(5, 5, 7, 1000);
    let pa = player_at(p, 5, 5, 7);
    let mut s: Option<SessionAuthority> = None;

    let fight = join_boss_fight(&mut room, &pa, false, &mut s, p, p, 50, 0).unwrap();
    leave_boss_fight(&mut room, &fight, &mut s, p, p, 4).unwrap();
    // 4 slots at 50 damage already landed.
    assert_eq!(room.boss_current_hp, 800);
    assert_eq!(room.boss_total_dps, 0);
    assert_eq!(room.boss_fighter_count, 0);
    assert!(!room.boss_defeated);

    // With no fighters the health holds steady.
    assert_eq!(query_boss_hp(&room, 1000), 800);
}

#[test]
fn leaving_needs_a_matching_fight_record() {
    let p = key(1);
    let mut room = boss_room(5, 5, 7, 1000);
    let pa = player_at(p, 5, 5, 7);
    let mut s: Option<SessionAuthority> = None;
    let fight = join_boss_fight(&mut room, &pa, false, &mut s, p, p, 50, 0).unwrap();

    let stranger = key(2);
    assert_eq!(
        leave_boss_fight(&mut room, &fight, &mut s, stranger, stranger, 4).unwrap_err(),
        ChainDepthError::NotBossFighter
    );
    let elsewhere = BossFightAccount { room_x: 9, ..fight };
    assert_eq!(
        leave_boss_fight(&mut room, &elsewhere, &mut s, p, p, 4).unwrap_err(),
        ChainDepthError::NotBossFighter
    );
}

#[test]
fn looting_needs_the_boss_defeated() {
    let p = key(1);
    let g = global(7);
    let mut room = boss_room(5, 5, 7, 1000);
    let mut pa = player_at(p, 5, 5, 7);
    let mut inv = InventoryAccount { owner: p, items: Vec::new() };
    let mut presence = presence_at(p, 5, 5, 7);
    let mut s: Option<SessionAuthority> = None;

    let fight = join_boss_fight(&mut room, &pa, false, &mut s, p, p, 50, 0).unwrap();
    // At slot 10 the boss still stands.
    assert_eq!(
        loot_boss(&mut room, &mut pa, &mut inv, &mut presence, &fight, &mut s, &g, p, p, 10)
            .unwrap_err(),
        ChainDepthError::BossNotDefeated
    );
    assert!(inv.items.is_empty());
}

#[test]
fn looting_settles_health_even_if_nothing_touched_the_boss() {
    let p = key(1);
    let g = global(7);
    let mut room = boss_room(5, 5, 7, 1000);
    let mut pa = player_at(p, 5, 5, 7);
    let mut inv = InventoryAccount { owner: p, items: Vec::new() };
    let mut presence = presence_at(p, 5, 5, 7);
    let mut s: Option<SessionAuthority> = None;

    let fight = join_boss_fight(&mut room, &pa, false, &mut s, p, p, 50, 0).unwrap();
    // The defeat flag is still clear, but 20 slots of damage have run out
    // the health: looting settles it and goes through.
    assert!(!room.boss_defeated);
    let (receipt, event) =
        loot_boss(&mut room, &mut pa, &mut inv, &mut presence, &fight, &mut s, &g, p, p, 20)
            .unwrap();
    assert!(room.boss_defeated);
    assert_eq!(room.boss_current_hp, 0);
    assert_eq!(receipt.player, p);
    assert_eq!(receipt.room_x, 5);
    assert_eq!(event.player, p);
    assert_eq!(room.looted_count, 1);
    assert_eq!(pa.chests_looted, 1);
    assert_eq!(inv.items.len(), 1);
    assert!(inv.items[0].amount > 0);
}

#[test]
fn looting_twice_fails_with_already_looted() {
    let p = key(1);
    let g = global(7);
    let mut room = boss_room(5, 5, 7, 1000);
    let mut pa = player_at(p, 5, 5, 7);
    let mut inv = InventoryAccount { owner: p, items: Vec::new() };
    let mut presence = presence_at(p, 5, 5, 7);
    let mut s: Option<SessionAuthority> = None;

    let fight = join_boss_fight(&mut room, &pa, false, &mut s, p, p, 100, 0).unwrap();
    loot_boss(&mut room, &mut pa, &mut inv, &mut presence, &fight, &mut s, &g, p, p, 10).unwrap();
    assert_eq!(
        loot_boss(&mut room, &mut pa, &mut inv, &mut presence, &fight, &mut s, &g, p, p, 11)
            .unwrap_err(),
        ChainDepthError::AlreadyLooted
    );
    // The rejected loot changed nothing.
    assert_eq!(room.looted_count, 1);
    assert_eq!(pa.chests_looted, 1);
    assert_eq!(inv.items.len(), 1);
}

#[test]
fn the_looter_set_has_a_hard_capacity() {
    let g = global(7);
    let mut room = boss_room(5, 5, 7, 100);
    let mut s: Option<SessionAuthority> = None;

    // Defeat the boss quickly with one strong fighter.
    let p0 = key(1000);
    let fighter = player_at(p0, 5, 5, 7);
    join_boss_fight(&mut room, &fighter, false, &mut s, p0, p0, 100, 0).unwrap();
    update_boss_hp(&mut room, 1);
    assert!(room.boss_defeated);

    // The first MAX_LOOTERS players each loot once and succeed.
    for n in 0..MAX_LOOTERS as u64 {
        let p = key(n + 1);
        let mut pa = player_at(p, 5, 5, 7);
        let mut inv = InventoryAccount { owner: p, items: Vec::new() };
        let mut presence = presence_at(p, 5, 5, 7);
        let fight = BossFightAccount { player: p, room_x: 5, room_y: 5, dps: 1, joined_slot: 0 };
        loot_boss(&mut room, &mut pa, &mut inv, &mut presence, &fight, &mut s, &g, p, p, 2 + n)
            .unwrap();
        assert_eq!(inv.items.len(), 1);
    }
    assert_eq!(room.looted_count as usize, MAX_LOOTERS);

    // One more player is turned away by the capacity, not by a receipt.
    let p = key(5000);
    let mut pa = player_at(p, 5, 5, 7);
    let mut inv = InventoryAccount { owner: p, items: Vec::new() };
    let mut presence = presence_at(p, 5, 5, 7);
    let fight = BossFightAccount { player: p, room_x: 5, room_y: 5, dps: 1, joined_slot: 0 };
    assert_eq!(
        loot_boss(&mut room, &mut pa, &mut inv, &mut presence, &fight, &mut s, &g, p, p, 99)
            .unwrap_err(),
        ChainDepthError::MaxLootersReached
    );
    assert!(inv.items.is_empty());
}
