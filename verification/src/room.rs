//! The per-coordinate room entity: wall states, one job slot per cardinal
//! direction, the center content and the boss sub-state.

use vstd::prelude::*;

use crate::keys::AccountId;
use crate::world;

verus! {

/// Cap on a boss's hit points whatever its depth and variant.
pub const MAX_BOSS_HP: u64 = 100_000;

/// Direction index: north.
pub const DIRECTION_NORTH: u8 = 0;

/// Direction index: south.
pub const DIRECTION_SOUTH: u8 = 1;

/// Direction index: east.
pub const DIRECTION_EAST: u8 = 2;

/// Direction index: west.
pub const DIRECTION_WEST: u8 = 3;

/// Wall state: impassable.
pub const WALL_SOLID: u8 = 0;

/// Wall state: clearable through a cooperative job.
pub const WALL_RUBBLE: u8 = 1;

/// Wall state: passable.
pub const WALL_OPEN: u8 = 2;

/// Center state: nothing in the room.
pub const CENTER_EMPTY: u8 = 0;

/// Center state: a lootable chest.
pub const CENTER_CHEST: u8 = 1;

/// Center state: a boss encounter.
pub const CENTER_BOSS: u8 = 2;

/// How many distinct players may loot one room's center.
pub const MAX_LOOTERS: usize = 10;

/// One room of the season's grid, keyed by its coordinates.
#[derive(Clone, Debug)]
pub struct RoomAccount {
    /// Room coordinates.
    pub x: i8,
    pub y: i8,
    /// Season this room belongs to.  The store hands back a record with
    /// seed zero for a coordinate that was never written.
    pub season_seed: u64,
    /// Wall states indexed north, south, east, west.
    pub walls: [u8; 4],
    /// Active helpers per directional job.
    pub helper_counts: [u32; 4],
    /// Progress towards completion per direction, in slots.
    pub progress: [u64; 4],
    /// Slot each directional job started at.
    pub start_slot: [u64; 4],
    /// Slots of elapsed time each directional job needs to complete.
    pub base_slots: [u64; 4],
    /// Stake held in escrow per direction.
    pub total_staked: [u64; 4],
    /// Whether each directional job has completed.
    pub job_completed: [bool; 4],
    /// Bonus granted to each helper once the job completed.
    pub bonus_per_helper: [u64; 4],
    /// Whether the center holds a chest.
    pub has_chest: bool,
    /// What the center holds (empty, chest or boss).
    pub center_type: u8,
    /// Variant selector for the center content.
    pub center_id: u16,
    /// Boss hit points when fresh (zero if the center has no boss).
    pub boss_max_hp: u64,
    /// Boss hit points remaining as of `boss_last_update_slot`.
    pub boss_current_hp: u64,
    /// Slot of the latest boss bookkeeping.
    pub boss_last_update_slot: u64,
    /// Summed damage per second of the fighters currently joined.
    pub boss_total_dps: u64,
    /// How many fighters are currently joined.
    pub boss_fighter_count: u32,
    /// Whether the boss has been defeated (terminal within the season).
    pub boss_defeated: bool,
    /// Players who have already looted this room's center.
    pub looted_by: Vec<AccountId>,
    /// How many players have looted this room's center.
    pub looted_count: u32,
    /// Wallet that first materialized this room.
    pub created_by: AccountId,
    /// Slot this room was materialized at.
    pub created_slot: u64,
}

/// Escrow handle for the stake held by one (room, direction) job.
#[derive(Clone, Copy, Debug, PartialEq, Eq, Structural)]
pub struct EscrowAccount {
    /// Key of the room whose job this escrow serves.
    pub room: AccountId,
    /// Direction of the job within the room.
    pub direction: u8,
}

/// Stake each player transfers into escrow when joining a job.
pub const STAKE_AMOUNT: u64 = 10_000_000;

/// Base figure the completion bonus is carved from.
pub const MIN_BOOST_TIP: u64 = 1_000_000;

/// Slots a depth-zero job needs (about two minutes at 400 ms per slot).
pub const BASE_SLOTS_DEPTH_0: u64 = 300;

/// Progress granted per boost tip, in slots.
pub const BOOST_PROGRESS: u64 = 30;

/// Percentage of the stake refunded when a helper abandons a job.
pub const ABANDON_REFUND_PERCENT: u64 = 80;

/// Hit points of a depth-zero boss before multipliers.
pub const BOSS_BASE_HP: u64 = 300;

impl RoomAccount {
    /// Well-formedness of a materialized room: wall and center codes are in
    /// range, the looter set is within capacity and mirrored by its count,
    /// the boss never exceeds its own maximum, and each direction's escrow
    /// holds exactly one stake per registered helper.
    pub open spec fn wf(&self) -> bool {
        &&& forall|d: int|
            0 <= d < 4 ==> #[trigger] self.walls[d] == WALL_SOLID || self.walls[d] == WALL_RUBBLE
                || self.walls[d] == WALL_OPEN
        &&& (self.center_type == CENTER_EMPTY || self.center_type == CENTER_CHEST
            || self.center_type == CENTER_BOSS)
        &&& self.looted_by@.len() <= MAX_LOOTERS
        &&& self.looted_count == self.looted_by@.len()
        &&& self.boss_current_hp <= self.boss_max_hp
        &&& self.boss_max_hp <= MAX_BOSS_HP
        &&& forall|d: int|
            0 <= d < 4 ==> #[trigger] self.total_staked[d] == self.helper_counts[d]
                * STAKE_AMOUNT
    }

    /// Whether this player has already looted this room's center.
    pub open spec fn has_looted_spec(&self, player: AccountId) -> bool {
        self.looted_by@.contains(player)
    }

    /// Whether this player has already looted this room's center.
    pub fn has_looted(&self, player: &AccountId) -> (r: bool)
        ensures
            r == self.has_looted_spec(*player),
    {
        let mut i: usize = 0;
        while i < self.looted_by.len()
            invariant
                i <= self.looted_by@.len(),
                forall|j: int| 0 <= j < i ==> self.looted_by@[j] != *player,
            decreases self.looted_by@.len() - i,
        {
            if self.looted_by[i] == *player {
                return true;
            }
            i = i + 1;
        }
        false
    }

    /// The direction opposite to the one given; other values are handed
    /// back unchanged.
    pub open spec fn opposite_direction_spec(direction: u8) -> u8 {
        if direction == DIRECTION_NORTH {
            DIRECTION_SOUTH
        } else if direction == DIRECTION_SOUTH {
            DIRECTION_NORTH
        } else if direction == DIRECTION_EAST {
            DIRECTION_WEST
        } else if direction == DIRECTION_WEST {
            DIRECTION_EAST
        } else {
            direction
        }
    }

    /// The direction opposite to the one given.
    pub fn opposite_direction(direction: u8) -> (r: u8)
        ensures
            r == Self::opposite_direction_spec(direction),
    {
        match direction {
            DIRECTION_NORTH => DIRECTION_SOUTH,
            DIRECTION_SOUTH => DIRECTION_NORTH,
            DIRECTION_EAST => DIRECTION_WEST,
            DIRECTION_WEST => DIRECTION_EAST,
            _ => direction,
        }
    }

    /// The coordinates one step in the given direction; an invalid
    /// direction leaves the coordinates unchanged.
    pub open spec fn adjacent_coords_spec(x: i8, y: i8, direction: u8) -> (i8, i8) {
        if direction == DIRECTION_NORTH {
            (x, (y + 1) as i8)
        } else if direction == DIRECTION_SOUTH {
            (x, (y - 1) as i8)
        } else if direction == DIRECTION_EAST {
            ((x + 1) as i8, y)
        } else if direction == DIRECTION_WEST {
            ((x - 1) as i8, y)
        } else {
            (x, y)
        }
    }

    /// The coordinates of the neighboring room in the given direction.
    pub fn adjacent_coords(x: i8, y: i8, direction: u8) -> (r: (i8, i8))
        requires
            direction == DIRECTION_NORTH ==> y < i8::MAX,
            direction == DIRECTION_SOUTH ==> y > i8::MIN,
            direction == DIRECTION_EAST ==> x < i8::MAX,
            direction == DIRECTION_WEST ==> x > i8::MIN,
        ensures
            r == Self::adjacent_coords_spec(x, y, direction),
    {
        match direction {
            DIRECTION_NORTH => (x, y + 1),
            DIRECTION_SOUTH => (x, y - 1),
            DIRECTION_EAST => (x + 1, y),
            DIRECTION_WEST => (x - 1, y),
            _ => (x, y),
        }
    }

    /// Slots a job needs at the given depth: the base requirement grows by
    /// ten percent of the base every ten depth levels.
    pub open spec fn base_slots_spec(depth: u32) -> u64 {
        (BASE_SLOTS_DEPTH_0 * (depth as u64 / 10 + 1)) as u64
    }

    /// Slots of elapsed time a job at the given depth needs to complete.
    pub fn calculate_base_slots(depth: u32) -> (r: u64)
        ensures
            r == Self::base_slots_spec(depth),
    {
        BASE_SLOTS_DEPTH_0 * ((depth / 10) as u64 + 1)
    }

    /// Whether the byte names one of the four cardinal directions.
    pub fn is_valid_direction(direction: u8) -> (r: bool)
        ensures
            r == (direction < 4),
    {
        direction <= DIRECTION_WEST
    }

    /// Whether the wall in the given direction is rubble (clearable).
    pub fn is_rubble(&self, direction: u8) -> (r: bool)
        requires
            direction < 4,
        ensures
            r == (self.walls[direction as int] == WALL_RUBBLE),
    {
        self.walls[direction as usize] == WALL_RUBBLE
    }

    /// Whether the wall in the given direction is open (passable).
    pub fn is_open(&self, direction: u8) -> (r: bool)
        requires
            direction < 4,
        ensures
            r == (self.walls[direction as int] == WALL_OPEN),
    {
        self.walls[direction as usize] == WALL_OPEN
    }

    /// Whether the byte names a known center state.
    pub fn is_valid_center_type(center_type: u8) -> (r: bool)
        ensures
            r == (center_type == CENTER_EMPTY || center_type == CENTER_CHEST || center_type
                == CENTER_BOSS),
    {
        center_type == CENTER_EMPTY || center_type == CENTER_CHEST || center_type == CENTER_BOSS
    }

    /// A boss's hit points: the base grows with depth (one step every four
    /// levels) and with the variant (one step per variant), capped at
    /// [`MAX_BOSS_HP`].
    pub open spec fn boss_hp_spec(depth: u32, boss_id: u16) -> u64 {
        let hp = BOSS_BASE_HP * (1 + depth as u64 / 4) * (1 + boss_id as u64 % 5);
        if hp <= MAX_BOSS_HP {
            hp as u64
        } else {
            MAX_BOSS_HP
        }
    }

    /// Hit points of a fresh boss at the given depth and variant.
    pub fn boss_hp_for_depth(depth: u32, boss_id: u16) -> (r: u64)
        ensures
            r == Self::boss_hp_spec(depth, boss_id),
            r <= MAX_BOSS_HP,
    {
        let depth_multiplier: u64 = 1 + (depth / 4) as u64;
        let id_multiplier: u64 = 1 + (boss_id % 5) as u64;
        proof {
            assert(depth_multiplier <= 0x4000_0001);
            assert(id_multiplier <= 5);
            assert(BOSS_BASE_HP * depth_multiplier <= BOSS_BASE_HP * 0x4000_0001) by (nonlinear_arith)
                requires
                    depth_multiplier <= 0x4000_0001,
            ;
            assert(BOSS_BASE_HP * depth_multiplier * id_multiplier <= BOSS_BASE_HP * 0x4000_0001
                * 5) by (nonlinear_arith)
                requires
                    BOSS_BASE_HP * depth_multiplier <= BOSS_BASE_HP * 0x4000_0001,
                    id_multiplier <= 5,
            ;
        }
        let hp = BOSS_BASE_HP * depth_multiplier * id_multiplier;
        if hp <= MAX_BOSS_HP {
            hp
        } else {
            MAX_BOSS_HP
        }
    }

    /// Opens the wall in one direction; every other wall and every other
    /// field keeps its value.
    pub fn open_wall(&mut self, direction: u8)
        requires
            direction < 4,
        ensures
            final(self).walls@ == old(self).walls@.update(direction as int, WALL_OPEN),
            *final(self) == (RoomAccount { walls: final(self).walls, ..*old(self) }),
    {
        self.walls[direction as usize] = WALL_OPEN;
    }

    /// The wall in one direction of the season's start room: open or rubble
    /// depending on the parity of a per-direction hash of the seed.
    pub open spec fn start_wall_spec(season_seed: u64, direction: int) -> u8 {
        if season_seed.wrapping_mul(31).wrapping_add(direction as u64) % 2 == 0 {
            WALL_OPEN
        } else {
            WALL_RUBBLE
        }
    }

    /// Derives the start room's walls from the season seed alone: each is
    /// open or rubble, never solid, so the season always opens outward.
    pub fn generate_start_walls(season_seed: u64) -> (walls: [u8; 4])
        ensures
            forall|d: int| 0 <= d < 4 ==> #[trigger] walls[d] == Self::start_wall_spec(season_seed, d),
    {
        let mut walls: [u8; 4] = [WALL_RUBBLE, WALL_RUBBLE, WALL_RUBBLE, WALL_RUBBLE];
        let mut direction: usize = 0;
        while direction < 4
            invariant
                direction <= 4,
                forall|d: int|
                    0 <= d < direction ==> walls[d] == Self::start_wall_spec(season_seed, d),
            decreases 4 - direction,
        {
            let direction_hash = season_seed.wrapping_mul(31).wrapping_add(direction as u64);
            if direction_hash % 2 == 0 {
                walls[direction] = WALL_OPEN;
            } else {
                walls[direction] = WALL_RUBBLE;
            }
            direction = direction + 1;
        }
        walls
    }
}

/// Pins every field of a room just materialized by the world generator
/// for this seed and coordinate, entered from `entrance_direction`.
pub open spec fn is_generated_room(
    room: RoomAccount,
    season_seed: u64,
    x: i8,
    y: i8,
    entrance_direction: u8,
    base_slots: u64,
    now_slot: u64,
    created_by: AccountId,
) -> bool {
    let hash = world::room_hash_spec(season_seed, x, y);
    let depth = world::depth_spec(x, y);
    let center = world::room_center_spec(season_seed, x, y, depth);
    &&& room.x == x
    &&& room.y == y
    &&& room.season_seed == season_seed
    &&& forall|d: int|
        0 <= d < 4 ==> #[trigger] room.walls[d] == world::generated_wall_spec(hash, entrance_direction, d)
    &&& forall|d: int| 0 <= d < 4 ==> #[trigger] room.helper_counts[d] == 0u32
    &&& forall|d: int| 0 <= d < 4 ==> #[trigger] room.progress[d] == 0u64
    &&& forall|d: int| 0 <= d < 4 ==> #[trigger] room.start_slot[d] == 0u64
    &&& forall|d: int| 0 <= d < 4 ==> #[trigger] room.base_slots[d] == base_slots
    &&& forall|d: int| 0 <= d < 4 ==> #[trigger] room.total_staked[d] == 0u64
    &&& forall|d: int| 0 <= d < 4 ==> #[trigger] room.job_completed[d] == false
    &&& forall|d: int| 0 <= d < 4 ==> #[trigger] room.bonus_per_helper[d] == 0u64
    &&& room.has_chest == (center.0 == CENTER_CHEST)
    &&& room.center_type == center.0
    &&& room.center_id == center.1
    &&& room.boss_max_hp == (if center.0 == CENTER_BOSS {
        RoomAccount::boss_hp_spec(depth, center.1)
    } else {
        0u64
    })
    &&& room.boss_current_hp == room.boss_max_hp
    &&& room.boss_last_update_slot == now_slot
    &&& room.boss_total_dps == 0
    &&& room.boss_fighter_count == 0
    &&& room.boss_defeated == false
    &&& room.looted_by@ == Seq::<AccountId>::empty()
    &&& room.looted_count == 0
    &&& room.created_by == created_by
    &&& room.created_slot == now_slot
}

/// Materializes the room at a coordinate from the season seed, entered
/// from `entrance_direction`: walls and center come from the world
/// generator, every job slot starts idle with the given base requirement,
/// and a boss center starts at full health.
pub fn new_room(
    season_seed: u64,
    x: i8,
    y: i8,
    entrance_direction: u8,
    base_slots: u64,
    now_slot: u64,
    created_by: AccountId,
) -> (room: RoomAccount)
    ensures
        is_generated_room(room, season_seed, x, y, entrance_direction, base_slots, now_slot, created_by),
        room.wf(),
{
    let room_hash = world::generate_room_hash(season_seed, x, y);
    let depth = world::calculate_depth(x, y);
    let (center_type, center_id) = world::generate_room_center(season_seed, x, y, depth);
    let boss_max_hp = if center_type == CENTER_BOSS {
        RoomAccount::boss_hp_for_depth(depth, center_id)
    } else {
        0
    };

    RoomAccount {
        x,
        y,
        season_seed,
        walls: world::generate_walls(room_hash, entrance_direction),
        helper_counts: [0, 0, 0, 0],
        progress: [0, 0, 0, 0],
        start_slot: [0, 0, 0, 0],
        base_slots: [base_slots, base_slots, base_slots, base_slots],
        total_staked: [0, 0, 0, 0],
        job_completed: [false, false, false, false],
        bonus_per_helper: [0, 0, 0, 0],
        has_chest: center_type == CENTER_CHEST,
        center_type,
        center_id,
        boss_max_hp,
        boss_current_hp: boss_max_hp,
        boss_last_update_slot: now_slot,
        boss_total_dps: 0,
        boss_fighter_count: 0,
        boss_defeated: false,
        looted_by: Vec::new(),
        looted_count: 0,
        created_by,
        created_slot: now_slot,
    }
}

/// Every freshly materialized room is reachable from where it was
/// entered: its wall facing the entrance direction is open.  Together
/// with the crossing operations opening the wall on the side they leave,
/// the two sides of a crossed edge always agree.
pub proof fn lemma_generated_room_entrance_open(
    room: RoomAccount,
    season_seed: u64,
    x: i8,
    y: i8,
    entrance_direction: u8,
    base_slots: u64,
    now_slot: u64,
    created_by: AccountId,
)
    requires
        entrance_direction < 4,
        is_generated_room(
            room,
            season_seed,
            x,
            y,
            entrance_direction,
            base_slots,
            now_slot,
            created_by,
        ),
    ensures
        room.walls[entrance_direction as int] == WALL_OPEN,
{
}

/// Pins every field of a season's start room.
pub open spec fn is_start_room(
    room: RoomAccount,
    season_seed: u64,
    now_slot: u64,
    created_by: AccountId,
) -> bool {
    &&& room.x == crate::global::START_X
    &&& room.y == crate::global::START_Y
    &&& room.season_seed == season_seed
    &&& forall|d: int|
        0 <= d < 4 ==> #[trigger] room.walls[d] == RoomAccount::start_wall_spec(season_seed, d)
    &&& forall|d: int| 0 <= d < 4 ==> #[trigger] room.helper_counts[d] == 0u32
    &&& forall|d: int| 0 <= d < 4 ==> #[trigger] room.progress[d] == 0u64
    &&& forall|d: int| 0 <= d < 4 ==> #[trigger] room.start_slot[d] == 0u64
    &&& forall|d: int| 0 <= d < 4 ==> #[trigger] room.base_slots[d] == RoomAccount::base_slots_spec(0)
    &&& forall|d: int| 0 <= d < 4 ==> #[trigger] room.total_staked[d] == 0u64
    &&& forall|d: int| 0 <= d < 4 ==> #[trigger] room.job_completed[d] == false
    &&& forall|d: int| 0 <= d < 4 ==> #[trigger] room.bonus_per_helper[d] == 0u64
    &&& room.has_chest == false
    &&& room.center_type == CENTER_EMPTY
    &&& room.center_id == 0
    &&& room.boss_max_hp == 0
    &&& room.boss_current_hp == 0
    &&& room.boss_last_update_slot == now_slot
    &&& room.boss_total_dps == 0
    &&& room.boss_fighter_count == 0
    &&& room.boss_defeated == false
    &&& room.looted_by@ == Seq::<AccountId>::empty()
    &&& room.looted_count == 0
    &&& room.created_by == created_by
    &&& room.created_slot == now_slot
}

/// Builds the season's start room: an empty center and walls that are
/// open or rubble by the seed's parity rolls, never solid.
pub fn new_start_room(season_seed: u64, now_slot: u64, created_by: AccountId) -> (room:
    RoomAccount)
    ensures
        is_start_room(room, season_seed, now_slot, created_by),
        room.wf(),
{
    RoomAccount {
        x: crate::global::START_X,
        y: crate::global::START_Y,
        season_seed,
        walls: RoomAccount::generate_start_walls(season_seed),
        helper_counts: [0, 0, 0, 0],
        progress: [0, 0, 0, 0],
        start_slot: [0, 0, 0, 0],
        base_slots: {
            let base = RoomAccount::calculate_base_slots(0);
            [base, base, base, base]
        },
        total_staked: [0, 0, 0, 0],
        job_completed: [false, false, false, false],
        bonus_per_helper: [0, 0, 0, 0],
        has_chest: false,
        center_type: CENTER_EMPTY,
        center_id: 0,
        boss_max_hp: 0,
        boss_current_hp: 0,
        boss_last_update_slot: now_slot,
        boss_total_dps: 0,
        boss_fighter_count: 0,
        boss_defeated: false,
        looted_by: Vec::new(),
        looted_count: 0,
        created_by,
        created_slot: now_slot,
    }
}

} // verus!
