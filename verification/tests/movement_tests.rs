use chaindepth::errors::ChainDepthError;
use chaindepth::global::{GlobalAccount, SEASON_DURATION_SLOTS, START_X, START_Y};
use chaindepth::init::{ensure_start_room, init_global};
use chaindepth::inventory::InventoryAccount;
use chaindepth::item_ids;
use chaindepth::keys::AccountId;
use chaindepth::movement::{init_player_handler, move_player};
use chaindepth::player::{PlayerAccount, PlayerProfile, RoomPresence, ACTIVITY_IDLE};
use chaindepth::profile::create_player_profile;
use chaindepth::room::{new_start_room, RoomAccount, CENTER_EMPTY, WALL_OPEN, WALL_RUBBLE, WALL_SOLID};
use chaindepth::session::SessionAuthority;

fn key(n: u64) -> AccountId {
    AccountId::new(n, 0, 0, 0)
}

fn global(seed: u64) -> GlobalAccount {
    GlobalAccount {
        season_seed: seed,
        depth: 0,
        skr_mint: key(900),
        prize_pool: key(901),
        admin: key(902),
        end_slot: 1_000_000,
        jobs_completed: 0,
    }
}

fn open_room(x: i8, y: i8, seed: u64) -> RoomAccount {
    RoomAccount {
        x,
        y,
        season_seed: seed,
        walls: [WALL_OPEN; 4],
        helper_counts: [0; 4],
        progress: [0; 4],
        start_slot: [0; 4],
        base_slots: [300; 4],
        total_staked: [0; 4],
        job_completed: [false; 4],
        bonus_per_helper: [0; 4],
        has_chest: false,
        center_type: CENTER_EMPTY,
        center_id: 0,
        boss_max_hp: 0,
        boss_current_hp: 0,
        boss_last_update_slot: 0,
        boss_total_dps: 0,
        boss_fighter_count: 0,
        boss_defeated: false,
        looted_by: Vec::new(),
        looted_count: 0,
        created_by: key(902),
        created_slot: 0,
    }
}

fn player_at(player: AccountId, x: i8, y: i8, seed: u64) -> PlayerAccount {
    PlayerAccount {
        owner: player,
        current_room_x: x,
        current_room_y: y,
        active_jobs: Vec::new(),
        jobs_completed: 0,
        chests_looted: 0,
        equipped_item_id: 0,
        season_seed: seed,
    }
}

fn profile_of(player: AccountId) -> PlayerProfile {
    PlayerProfile {
        owner: player,
        skin_id: 4,
        display_name: String::new(),
        starter_pickaxe_granted: true,
    }
}

#[test]
fn init_global_builds_the_season_and_its_start_room() {
    let admin = key(11);
    let (g, start, event, pool_transfer) = init_global(admin, key(12), key(13), 5_000, 42, 100);
    assert_eq!(g.season_seed, 42);
    assert_eq!(g.depth, 0);
    assert_eq!(g.jobs_completed, 0);
    assert_eq!(g.admin, admin);
    assert_eq!(g.end_slot, 100 + SEASON_DURATION_SLOTS);
    assert_eq!(start.x, START_X);
    assert_eq!(start.y, START_Y);
    assert_eq!(start.season_seed, 42);
    assert_eq!(start.center_type, CENTER_EMPTY);
    assert_eq!(start.walls, RoomAccount::generate_start_walls(42));
    assert_eq!(event.season_seed, 42);
    assert_eq!(event.end_slot, g.end_slot);
    assert_eq!(pool_transfer, 5_000);
}

#[test]
fn ensure_start_room_is_admin_only_and_idempotent() {
    let g = global(42);
    assert_eq!(
        ensure_start_room(&g, None, key(1), 50).unwrap_err(),
        ChainDepthError::Unauthorized
    );

    // Absent: built fresh.
    let (room, rebuilt) = ensure_start_room(&g, None, key(902), 50).unwrap();
    assert!(rebuilt);
    assert_eq!(room.season_seed, 42);

    // Present and current: handed back untouched.
    let (same, rebuilt) = ensure_start_room(&g, Some(room.clone()), key(902), 60).unwrap();
    assert!(!rebuilt);
    assert_eq!(same.created_slot, room.created_slot);

    // Stale from an earlier season: rebuilt for this one.
    let stale = new_start_room(41, 0, key(902));
    let (fresh, rebuilt) = ensure_start_room(&g, Some(stale), key(902), 70).unwrap();
    assert!(rebuilt);
    assert_eq!(fresh.season_seed, 42);
    assert_eq!(fresh.created_slot, 70);
}

#[test]
fn init_player_spawns_at_the_start_room() {
    let g = global(42);
    let p = key(1);
    let (pa, profile, presence, event) = init_player_handler(&g, p);
    assert_eq!(pa.owner, p);
    assert_eq!((pa.current_room_x, pa.current_room_y), (START_X, START_Y));
    assert!(pa.active_jobs.is_empty());
    assert_eq!(pa.season_seed, 42);
    assert_eq!(profile.owner, p);
    assert!(!profile.starter_pickaxe_granted);
    assert_eq!(presence.player, p);
    assert_eq!((presence.room_x, presence.room_y), (START_X, START_Y));
    assert!(presence.is_current);
    assert_eq!((event.to_x, event.to_y), (START_X, START_Y));
}

#[test]
fn moving_into_a_new_room_materializes_it_with_the_way_back_open() {
    let p = key(1);
    let mut g = global(42);
    let mut pa = player_at(p, 5, 5, 42);
    let mut profile = profile_of(p);
    let current = open_room(5, 5, 42);
    let mut s: Option<SessionAuthority> = None;

    let outcome = move_player(
        &mut g, &mut pa, &mut profile, &current, None, None, &mut s, p, p, 5, 6, 77,
    )
    .unwrap();
    assert!(outcome.created_room);
    assert_eq!((outcome.target_room.x, outcome.target_room.y), (5, 6));
    // Crossed north: the new room's south wall faces back and is open.
    assert_eq!(outcome.target_room.walls[1], WALL_OPEN);
    assert_eq!(outcome.target_room.created_slot, 77);
    assert_eq!((pa.current_room_x, pa.current_room_y), (5, 6));
    assert_eq!(g.depth, 1);
    assert_eq!(outcome.target_presence.player, p);
    assert_eq!((outcome.target_presence.room_x, outcome.target_presence.room_y), (5, 6));
    assert!(outcome.target_presence.is_current);
    assert_eq!(outcome.target_presence.activity, ACTIVITY_IDLE);
    assert_eq!((outcome.event.from_x, outcome.event.from_y), (5, 5));
    assert_eq!((outcome.event.to_x, outcome.event.to_y), (5, 6));

    // The same crossing generates the same room.
    let mut g2 = global(42);
    let mut pa2 = player_at(key(2), 5, 5, 42);
    let mut profile2 = profile_of(key(2));
    let again = move_player(
        &mut g2, &mut pa2, &mut profile2, &current, None, None, &mut s, key(2), key(2), 5, 6, 77,
    )
    .unwrap();
    assert_eq!(again.target_room.walls, outcome.target_room.walls);
    assert_eq!(again.target_room.center_type, outcome.target_room.center_type);
    assert_eq!(again.target_room.center_id, outcome.target_room.center_id);
}

#[test]
fn moving_into_a_known_room_only_opens_the_facing_wall() {
    let p = key(1);
    let mut g = global(42);
    let mut pa = player_at(p, 5, 5, 42);
    let mut profile = profile_of(p);
    let current = open_room(5, 5, 42);
    let mut target = open_room(6, 5, 42);
    target.walls = [WALL_SOLID, WALL_SOLID, WALL_SOLID, WALL_RUBBLE];
    let mut s: Option<SessionAuthority> = None;

    let outcome = move_player(
        &mut g, &mut pa, &mut profile, &current, Some(target), None, &mut s, p, p, 6, 5, 80,
    )
    .unwrap();
    assert!(!outcome.created_room);
    // Crossed east: the west wall of the neighbor opens; the rest stay.
    assert_eq!(outcome.target_room.walls, [WALL_SOLID, WALL_SOLID, WALL_SOLID, WALL_OPEN]);
}

#[test]
fn movement_rejects_bad_targets_in_order() {
    let p = key(1);
    let mut g = global(42);
    let mut profile = profile_of(p);
    let mut s: Option<SessionAuthority> = None;

    // Outside the grid.
    let mut pa = player_at(p, 0, 5, 42);
    let current = open_room(0, 5, 42);
    assert_eq!(
        move_player(&mut g, &mut pa, &mut profile, &current, None, None, &mut s, p, p, -1, 5, 1)
            .unwrap_err(),
        ChainDepthError::OutOfBounds
    );

    // A diagonal or a two-step jump is not adjacent.
    let mut pa = player_at(p, 5, 5, 42);
    let current = open_room(5, 5, 42);
    assert_eq!(
        move_player(&mut g, &mut pa, &mut profile, &current, None, None, &mut s, p, p, 6, 6, 1)
            .unwrap_err(),
        ChainDepthError::NotAdjacent
    );
    assert_eq!(
        move_player(&mut g, &mut pa, &mut profile, &current, None, None, &mut s, p, p, 7, 5, 1)
            .unwrap_err(),
        ChainDepthError::NotAdjacent
    );
    assert_eq!(
        move_player(&mut g, &mut pa, &mut profile, &current, None, None, &mut s, p, p, 5, 5, 1)
            .unwrap_err(),
        ChainDepthError::NotAdjacent
    );

    // A wall in the way.
    let mut walled = open_room(5, 5, 42);
    walled.walls[0] = WALL_RUBBLE;
    assert_eq!(
        move_player(&mut g, &mut pa, &mut profile, &walled, None, None, &mut s, p, p, 5, 6, 1)
            .unwrap_err(),
        ChainDepthError::WallNotOpen
    );
    // Nothing moved.
    assert_eq!((pa.current_room_x, pa.current_room_y), (5, 5));
    assert_eq!(g.depth, 0);
}

#[test]
fn a_first_move_spawns_the_player_at_the_start() {
    let p = key(1);
    let mut g = global(42);
    // A never-written record: the owner key is all zero.
    let mut pa = player_at(AccountId::zeroed(), 0, 0, 0);
    let mut profile = PlayerProfile {
        owner: AccountId::zeroed(),
        skin_id: 0,
        display_name: String::new(),
        starter_pickaxe_granted: false,
    };
    let current = open_room(START_X, START_Y, 42);
    let mut s: Option<SessionAuthority> = None;

    let outcome = move_player(
        &mut g, &mut pa, &mut profile, &current, None, None, &mut s, p, p, 5, 4, 9,
    )
    .unwrap();
    assert_eq!(pa.owner, p);
    assert_eq!(pa.season_seed, 42);
    assert_eq!((pa.current_room_x, pa.current_room_y), (5, 4));
    assert_eq!(profile.owner, p);
    assert_eq!((outcome.event.from_x, outcome.event.from_y), (START_X, START_Y));
}

#[test]
fn movement_obeys_the_session_allowlist() {
    let p = key(1);
    let delegate = key(2);
    let mut g = global(42);
    let mut pa = player_at(p, 5, 5, 42);
    let mut profile = profile_of(p);
    let current = open_room(5, 5, 42);

    // A session without the movement bit rejects the move for the
    // delegate, before any topology check runs.
    let mut s = Some(
        SessionAuthority::new(p, delegate, 0, 1000, chaindepth::session_instruction_bits::JOIN_JOB, 0)
            .unwrap(),
    );
    assert_eq!(
        move_player(
            &mut g, &mut pa, &mut profile, &current, None, None, &mut s, delegate, p, 5, 6, 9,
        )
        .unwrap_err(),
        ChainDepthError::SessionInstructionNotAllowed
    );

    // With the bit present the delegate moves the player.
    let mut s = Some(
        SessionAuthority::new(p, delegate, 0, 1000, chaindepth::session_instruction_bits::MOVE_PLAYER, 0)
            .unwrap(),
    );
    move_player(&mut g, &mut pa, &mut profile, &current, None, None, &mut s, delegate, p, 5, 6, 9)
        .unwrap();
    assert_eq!((pa.current_room_x, pa.current_room_y), (5, 6));
}

#[test]
fn every_generated_wall_code_is_valid() {
    for hash in 0..1000u64 {
        for entrance in 0u8..4 {
            for wall in chaindepth::world::generate_walls(hash, entrance) {
                assert!(wall == WALL_SOLID || wall == WALL_RUBBLE || wall == WALL_OPEN);
            }
        }
    }
}

#[test]
fn profile_creation_grants_the_starter_pickaxe_once() {
    let p = key(1);
    let mut profile = PlayerProfile {
        owner: AccountId::zeroed(),
        skin_id: 0,
        display_name: String::new(),
        starter_pickaxe_granted: false,
    };
    let mut inv = InventoryAccount::new(AccountId::zeroed());
    let mut pa = player_at(p, 5, 5, 42);
    let mut presence = RoomPresence {
        player: p,
        season_seed: 42,
        room_x: 5,
        room_y: 5,
        skin_id: 0,
        equipped_item_id: 0,
        activity: 0,
        activity_direction: 0,
        is_current: true,
    };
    let mut s: Option<SessionAuthority> = None;

    create_player_profile(
        &mut profile, &mut inv, &mut pa, &mut presence, &mut s, p, p, 7,
        String::from("Torchbearer"), 10,
    )
    .unwrap();
    assert_eq!(profile.owner, p);
    assert_eq!(profile.skin_id, 7);
    assert_eq!(profile.display_name, "Torchbearer");
    assert!(profile.starter_pickaxe_granted);
    assert_eq!(inv.owner, p);
    assert_eq!(inv.items.len(), 1);
    assert_eq!(inv.items[0].item_id, item_ids::BRONZE_PICKAXE);
    assert_eq!(inv.items[0].durability, 80);
    assert_eq!(pa.equipped_item_id, item_ids::BRONZE_PICKAXE);
    assert_eq!(presence.skin_id, 7);
    assert_eq!(presence.equipped_item_id, item_ids::BRONZE_PICKAXE);

    // A second call updates cosmetics but grants nothing more.
    create_player_profile(
        &mut profile, &mut inv, &mut pa, &mut presence, &mut s, p, p, 9,
        String::from("Deeper"), 11,
    )
    .unwrap();
    assert_eq!(profile.skin_id, 9);
    assert_eq!(inv.items.len(), 1);
    assert_eq!(inv.items[0].amount, 1);
}

#[test]
fn profile_creation_rejects_names_over_the_byte_limit() {
    let p = key(1);
    let mut profile = profile_of(p);
    let mut inv = InventoryAccount::new(p);
    let mut pa = player_at(p, 5, 5, 42);
    let mut presence = RoomPresence {
        player: p,
        season_seed: 42,
        room_x: 5,
        room_y: 5,
        skin_id: 0,
        equipped_item_id: 0,
        activity: 0,
        activity_direction: 0,
        is_current: true,
    };
    let mut s: Option<SessionAuthority> = None;

    assert_eq!(
        create_player_profile(
            &mut profile, &mut inv, &mut pa, &mut presence, &mut s, p, p, 1,
            String::from("abcdefghijklmnopqrstuvwxy"), 10,
        )
        .unwrap_err(),
        ChainDepthError::DisplayNameTooLong
    );
    // Exactly at the limit is fine.
    create_player_profile(
        &mut profile, &mut inv, &mut pa, &mut presence, &mut s, p, p, 1,
        String::from("abcdefghijklmnopqrstuvwx"), 10,
    )
    .unwrap();
}
