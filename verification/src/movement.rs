//! Moving between rooms, and the explicit first-spawn path.
//!
//! A move is one cardinal step to a coordinate inside the grid, through an
//! open wall.  Crossing into a coordinate nobody reached before this
//! season materializes its room on the way in, with the wall facing back
//! forced open — so the two sides of every crossed edge agree.

use vstd::prelude::*;

use crate::errors::ChainDepthError;
use crate::events::PlayerMoved;
use crate::global::{GlobalAccount, MAX_COORD, MIN_COORD, START_X, START_Y};
use crate::keys::AccountId;
use crate::player::{
    upsert_presence, PlayerAccount, PlayerProfile, RoomPresence, ACTIVITY_IDLE, DEFAULT_SKIN_ID,
};
use crate::room::{RoomAccount, WALL_OPEN};
use crate::session::{authorize_check, authorize_decision_spec, SessionAuthority};
use crate::session_instruction_bits;
use crate::world;

verus! {

/// Where the player moves from: a never-written record spawns at the
/// start room first.
pub open spec fn move_origin_spec(player_account: PlayerAccount) -> (i8, i8) {
    if player_account.owner.is_zeroed_spec() {
        (START_X, START_Y)
    } else {
        (player_account.current_room_x, player_account.current_room_y)
    }
}

/// The direction of a one-step move, derived from the coordinate delta:
/// north if y grows, south if it shrinks, east if x grows, west
/// otherwise.
pub open spec fn move_direction_spec(from_x: i8, from_y: i8, new_x: i8, new_y: i8) -> u8 {
    if new_y > from_y {
        crate::room::DIRECTION_NORTH
    } else if new_y < from_y {
        crate::room::DIRECTION_SOUTH
    } else if new_x > from_x {
        crate::room::DIRECTION_EAST
    } else {
        crate::room::DIRECTION_WEST
    }
}

/// What [`move_player`] decides, in the order the checks run: the session
/// policy, the grid bounds, adjacency, and the wall in the way.
pub open spec fn move_player_decision_spec(
    player_account: PlayerAccount,
    current_room: RoomAccount,
    session: Option<SessionAuthority>,
    authority: AccountId,
    player: AccountId,
    new_x: i8,
    new_y: i8,
    now_slot: u64,
) -> Result<(), ChainDepthError> {
    let auth = authorize_decision_spec(
        authority,
        player,
        session,
        session_instruction_bits::MOVE_PLAYER,
        0,
        now_slot,
    );
    let origin = move_origin_spec(player_account);
    let dx = if new_x >= origin.0 {
        new_x - origin.0
    } else {
        origin.0 - new_x
    };
    let dy = if new_y >= origin.1 {
        new_y - origin.1
    } else {
        origin.1 - new_y
    };
    let direction = move_direction_spec(origin.0, origin.1, new_x, new_y);
    if auth is Err {
        auth
    } else if !(MIN_COORD <= new_x <= MAX_COORD && MIN_COORD <= new_y <= MAX_COORD) {
        Err(ChainDepthError::OutOfBounds)
    } else if !((dx == 1 && dy == 0) || (dx == 0 && dy == 1)) {
        Err(ChainDepthError::NotAdjacent)
    } else if current_room.walls[direction as int] != WALL_OPEN {
        Err(ChainDepthError::WallNotOpen)
    } else {
        Ok(())
    }
}

/// Everything a successful move hands back to persist: the room moved
/// into (freshly materialized or with its facing wall confirmed open),
/// whether it was fresh (its creation rent is then owed back to the
/// signer), the presence marker for the new room, and the event.  The
/// presence marker of the old room is simply discarded by the store.
#[derive(Clone, Debug)]
pub struct MoveOutcome {
    /// The room moved into.
    pub target_room: RoomAccount,
    /// Whether this move materialized the room.
    pub created_room: bool,
    /// The player's presence marker in the new room.
    pub target_presence: RoomPresence,
    /// The move event.
    pub event: PlayerMoved,
}

/// Moves the player one cardinal step, through an open wall, inside the
/// grid.  A first-ever action also spawns the player's record and profile
/// at the start room.  Crossing into a never-visited coordinate
/// materializes that room with its wall facing back forced open, so after
/// any successful crossing both sides of the crossed edge are open.  A
/// rejected move changes nothing.
#[verifier::rlimit(60)]
pub fn move_player(
    global: &mut GlobalAccount,
    player_account: &mut PlayerAccount,
    profile: &mut PlayerProfile,
    current_room: &RoomAccount,
    target_room: Option<RoomAccount>,
    target_presence: Option<RoomPresence>,
    session: &mut Option<SessionAuthority>,
    authority: AccountId,
    player: AccountId,
    new_x: i8,
    new_y: i8,
    now_slot: u64,
) -> (r: Result<MoveOutcome, ChainDepthError>)
    requires
        old(player_account).wf(),
        !player.is_zeroed_spec(),
        !old(player_account).owner.is_zeroed_spec() ==> {
            &&& MIN_COORD <= old(player_account).current_room_x <= MAX_COORD
            &&& MIN_COORD <= old(player_account).current_room_y <= MAX_COORD
        },
        (current_room.x, current_room.y) == move_origin_spec(*old(player_account)),
        current_room.season_seed == old(global).season_seed,
        target_room matches Some(t) ==> t.wf() && t.x == new_x && t.y == new_y
            && t.season_seed == old(global).season_seed,
        target_presence matches Some(p) ==> p.player == player,
    ensures
        r matches Err(e) ==> Err::<(), ChainDepthError>(e) == move_player_decision_spec(
            *old(player_account),
            *current_room,
            *old(session),
            authority,
            player,
            new_x,
            new_y,
            now_slot,
        ),
        r is Ok ==> move_player_decision_spec(
            *old(player_account),
            *current_room,
            *old(session),
            authority,
            player,
            new_x,
            new_y,
            now_slot,
        ) is Ok,
        *final(session) == *old(session),
        r is Err ==> *final(global) == *old(global) && *final(player_account) == *old(
            player_account,
        ) && *final(profile) == *old(profile),
        r matches Ok(outcome) ==> {
            let origin = move_origin_spec(*old(player_account));
            let direction = move_direction_spec(origin.0, origin.1, new_x, new_y);
            let opposite = RoomAccount::opposite_direction_spec(direction);
            let fresh_player = old(player_account).owner.is_zeroed_spec();
            let fresh_profile = old(profile).owner.is_zeroed_spec();
            let new_depth = world::depth_spec(new_x, new_y);
            // Both sides of the crossed edge are open.
            &&& current_room.walls[direction as int] == WALL_OPEN
            &&& outcome.target_room.walls[opposite as int] == WALL_OPEN
            // The room moved into: the stored one, its facing wall opened,
            // or a fresh one generated on the way in.
            &&& outcome.created_room == (target_room is None)
            &&& (match target_room {
                Some(t) => outcome.target_room.walls@ == t.walls@.update(
                    opposite as int,
                    WALL_OPEN,
                ) && outcome.target_room == (RoomAccount {
                    walls: outcome.target_room.walls,
                    ..t
                }),
                None => crate::room::is_generated_room(
                    outcome.target_room,
                    old(global).season_seed,
                    new_x,
                    new_y,
                    opposite,
                    RoomAccount::base_slots_spec(new_depth),
                    now_slot,
                    player,
                ),
            })
            // The player stands in the new room (spawned first if fresh).
            &&& final(player_account).owner == (if fresh_player {
                player
            } else {
                old(player_account).owner
            })
            &&& final(player_account).current_room_x == new_x
            &&& final(player_account).current_room_y == new_y
            &&& final(player_account).active_jobs@ == (if fresh_player {
                Seq::<crate::player::ActiveJob>::empty()
            } else {
                old(player_account).active_jobs@
            })
            &&& final(player_account).jobs_completed == (if fresh_player {
                0u32
            } else {
                old(player_account).jobs_completed
            })
            &&& final(player_account).chests_looted == (if fresh_player {
                0u32
            } else {
                old(player_account).chests_looted
            })
            &&& final(player_account).equipped_item_id == (if fresh_player {
                0u16
            } else {
                old(player_account).equipped_item_id
            })
            &&& final(player_account).season_seed == (if fresh_player {
                old(global).season_seed
            } else {
                old(player_account).season_seed
            })
            // The profile exists afterwards, defaulted if never written.
            &&& final(profile).owner == (if fresh_profile {
                player
            } else {
                old(profile).owner
            })
            &&& final(profile).skin_id == (if fresh_profile {
                DEFAULT_SKIN_ID
            } else {
                old(profile).skin_id
            })
            &&& final(profile).display_name@ == (if fresh_profile {
                Seq::<char>::empty()
            } else {
                old(profile).display_name@
            })
            &&& final(profile).starter_pickaxe_granted == (if fresh_profile {
                false
            } else {
                old(profile).starter_pickaxe_granted
            })
            // The season's frontier advances if this room is deeper.
            &&& *final(global) == (GlobalAccount {
                depth: if new_depth > old(global).depth {
                    new_depth
                } else {
                    old(global).depth
                },
                ..*old(global)
            })
            // The presence marker stands in the new room, idle, current.
            &&& outcome.target_presence == (match target_presence {
                Some(p) => RoomPresence {
                    skin_id: final(profile).skin_id,
                    equipped_item_id: final(player_account).equipped_item_id,
                    activity: ACTIVITY_IDLE,
                    activity_direction: 0,
                    is_current: true,
                    ..p
                },
                None => RoomPresence {
                    player,
                    season_seed: old(global).season_seed,
                    room_x: new_x,
                    room_y: new_y,
                    skin_id: final(profile).skin_id,
                    equipped_item_id: final(player_account).equipped_item_id,
                    activity: ACTIVITY_IDLE,
                    activity_direction: 0,
                    is_current: true,
                },
            })
            &&& outcome.event == (PlayerMoved {
                player,
                from_x: origin.0,
                from_y: origin.1,
                to_x: new_x,
                to_y: new_y,
            })
            &&& outcome.target_room.wf()
            &&& final(player_account).wf()
        },
{
    if let Err(e) = authorize_check(
        authority,
        player,
        session,
        session_instruction_bits::MOVE_PLAYER,
        0,
        now_slot,
    ) {
        return Err(e);
    }
    if !(MIN_COORD <= new_x && new_x <= MAX_COORD && MIN_COORD <= new_y && new_y <= MAX_COORD) {
        return Err(ChainDepthError::OutOfBounds);
    }

    let fresh_player = player_account.owner.is_zeroed();
    let from_x: i8 = if fresh_player {
        START_X
    } else {
        player_account.current_room_x
    };
    let from_y: i8 = if fresh_player {
        START_Y
    } else {
        player_account.current_room_y
    };

    // One cardinal step and nothing else.
    let dx32: i32 = new_x as i32 - from_x as i32;
    let dx: i32 = if dx32 < 0 {
        -dx32
    } else {
        dx32
    };
    let dy32: i32 = new_y as i32 - from_y as i32;
    let dy: i32 = if dy32 < 0 {
        -dy32
    } else {
        dy32
    };
    if !((dx == 1 && dy == 0) || (dx == 0 && dy == 1)) {
        return Err(ChainDepthError::NotAdjacent);
    }

    let direction: u8 = if new_y > from_y {
        crate::room::DIRECTION_NORTH
    } else if new_y < from_y {
        crate::room::DIRECTION_SOUTH
    } else if new_x > from_x {
        crate::room::DIRECTION_EAST
    } else {
        crate::room::DIRECTION_WEST
    };

    // The wall out of the current room must already be open.
    if current_room.walls[direction as usize] != WALL_OPEN {
        return Err(ChainDepthError::WallNotOpen);
    }

    // Every check passed: spawn the player and profile if fresh.
    if profile.owner.is_zeroed() {
        profile.owner = player;
        profile.skin_id = DEFAULT_SKIN_ID;
        profile.display_name = String::new();
        profile.starter_pickaxe_granted = false;
    }
    if fresh_player {
        player_account.owner = player;
        player_account.current_room_x = START_X;
        player_account.current_room_y = START_Y;
        player_account.active_jobs = Vec::new();
        player_account.jobs_completed = 0;
        player_account.chests_looted = 0;
        player_account.equipped_item_id = 0;
        player_account.season_seed = global.season_seed;
    }

    // Enter the target room, materializing it on first visit; either way
    // the wall facing back opens.
    let opposite_direction = RoomAccount::opposite_direction(direction);
    let created_room = target_room.is_none();
    let mut target = match target_room {
        Some(t) => t,
        None => crate::room::new_room(
            global.season_seed,
            new_x,
            new_y,
            opposite_direction,
            RoomAccount::calculate_base_slots(world::calculate_depth(new_x, new_y)),
            now_slot,
            player,
        ),
    };
    target.open_wall(opposite_direction);

    // The season's frontier follows the deepest visited room.
    let room_depth = world::calculate_depth(new_x, new_y);
    if room_depth > global.depth {
        global.depth = room_depth;
    }

    // The player now stands in the new room.
    player_account.current_room_x = new_x;
    player_account.current_room_y = new_y;

    let mut presence = match target_presence {
        Some(p) => p,
        None => RoomPresence {
            player: AccountId::zeroed(),
            season_seed: 0,
            room_x: 0,
            room_y: 0,
            skin_id: 0,
            equipped_item_id: 0,
            activity: ACTIVITY_IDLE,
            activity_direction: 0,
            is_current: false,
        },
    };
    upsert_presence(
        &mut presence,
        player,
        global.season_seed,
        new_x,
        new_y,
        profile.skin_id,
        player_account.equipped_item_id,
    );
    presence.is_current = true;
    presence.set_idle();

    let event = PlayerMoved { player, from_x, from_y, to_x: new_x, to_y: new_y };
    Ok(MoveOutcome { target_room: target, created_room, target_presence: presence, event })
}

/// Spawns a new player explicitly: a fresh gameplay record and profile at
/// the start room, with a presence marker there.
pub fn init_player_handler(global: &GlobalAccount, player: AccountId) -> (r: (
    PlayerAccount,
    PlayerProfile,
    RoomPresence,
    PlayerMoved,
))
    ensures
        ({
            let (player_account, profile, presence, event) = r;
            &&& player_account.owner == player
            &&& player_account.current_room_x == START_X
            &&& player_account.current_room_y == START_Y
            &&& player_account.active_jobs@ == Seq::<crate::player::ActiveJob>::empty()
            &&& player_account.jobs_completed == 0
            &&& player_account.chests_looted == 0
            &&& player_account.equipped_item_id == 0
            &&& player_account.season_seed == global.season_seed
            &&& player_account.wf()
            &&& profile.owner == player
            &&& profile.skin_id == DEFAULT_SKIN_ID
            &&& profile.display_name@ == Seq::<char>::empty()
            &&& !profile.starter_pickaxe_granted
            &&& presence == (RoomPresence {
                player,
                season_seed: global.season_seed,
                room_x: START_X,
                room_y: START_Y,
                skin_id: DEFAULT_SKIN_ID,
                equipped_item_id: 0,
                activity: ACTIVITY_IDLE,
                activity_direction: 0,
                is_current: true,
            })
            &&& event == (PlayerMoved {
                player,
                from_x: 0,
                from_y: 0,
                to_x: START_X,
                to_y: START_Y,
            })
        }),
{
    let player_account = crate::player::fresh_player_account(player, global.season_seed);
    let profile = crate::player::fresh_profile(player);
    let presence = RoomPresence {
        player,
        season_seed: global.season_seed,
        room_x: START_X,
        room_y: START_Y,
        skin_id: profile.skin_id,
        equipped_item_id: 0,
        activity: ACTIVITY_IDLE,
        activity_direction: 0,
        is_current: true,
    };
    let event = PlayerMoved { player, from_x: 0, from_y: 0, to_x: START_X, to_y: START_Y };
    (player_account, profile, presence, event)
}

} // verus!
