//! The deterministic world generator.
//!
//! Pure functions from (season seed, coordinates) to wall layout and room
//! center content.  They use fixed-width wraparound arithmetic so that every
//! party derives bit-for-bit the same topology for one season; within a
//! season the same inputs always give the same room.

use vstd::prelude::*;

use crate::global::{START_X, START_Y};
use crate::room::{CENTER_BOSS, CENTER_CHEST, CENTER_EMPTY, WALL_OPEN, WALL_RUBBLE, WALL_SOLID};

verus! {

/// A coordinate as the 64-bit word the mixing function consumes: the value
/// of the signed byte reinterpreted in two's complement (sign-extended).
pub open spec fn coord_word_spec(c: i8) -> u64 {
    if c >= 0 {
        c as u64
    } else {
        (c + 0x1_0000_0000_0000_0000) as u64
    }
}

/// Sign-extends a coordinate into the 64-bit word the mixing function
/// consumes.
pub fn coord_word(c: i8) -> (w: u64)
    ensures
        w == coord_word_spec(c),
{
    if c >= 0 {
        c as u64
    } else {
        let mag: u64 = (-(c as i64)) as u64;
        u64::MAX - mag + 1
    }
}

/// The polynomial room hash: `(seed * 31 + x) * 31 + y`, with wraparound.
pub open spec fn room_hash_spec(seed: u64, x: i8, y: i8) -> u64 {
    let h = seed.wrapping_mul(31).wrapping_add(coord_word_spec(x));
    h.wrapping_mul(31).wrapping_add(coord_word_spec(y))
}

/// Mixes a season seed and coordinates into the room's hash.  Overflow
/// wraps by design; the function is pure, so one season's topology is the
/// same for every caller.
pub fn generate_room_hash(seed: u64, x: i8, y: i8) -> (h: u64)
    ensures
        h == room_hash_spec(seed, x, y),
{
    let mut hash = seed;
    hash = hash.wrapping_mul(31).wrapping_add(coord_word(x));
    hash = hash.wrapping_mul(31).wrapping_add(coord_word(y));
    hash
}

/// The 8-bit slice of the hash that decides one wall, reduced mod 10.
pub open spec fn wall_roll_spec(hash: u64, direction: int) -> u64 {
    (hash >> ((direction * 8) as u64)) % 10
}

/// The wall a fresh room gets in one direction: the entrance is forced
/// open; each other wall rolls rubble (0-5), solid (6-8) or open (9).
pub open spec fn generated_wall_spec(hash: u64, entrance_direction: u8, direction: int) -> u8 {
    if direction == entrance_direction as int {
        WALL_OPEN
    } else {
        let roll = wall_roll_spec(hash, direction);
        if roll < 6 {
            WALL_RUBBLE
        } else if roll < 9 {
            WALL_SOLID
        } else {
            WALL_OPEN
        }
    }
}

/// Derives the four walls of a fresh room from its hash.  The wall facing
/// the entrance direction is always open, so every new room is reachable
/// from where it was entered.
pub fn generate_walls(hash: u64, entrance_direction: u8) -> (walls: [u8; 4])
    ensures
        forall|d: int| 0 <= d < 4 ==> #[trigger] walls[d] == generated_wall_spec(hash, entrance_direction, d),
{
    let mut walls: [u8; 4] = [WALL_SOLID, WALL_SOLID, WALL_SOLID, WALL_SOLID];
    let mut direction: usize = 0;
    while direction < 4
        invariant
            direction <= 4,
            forall|d: int|
                0 <= d < direction ==> walls[d] == generated_wall_spec(
                    hash,
                    entrance_direction,
                    d,
                ),
        decreases 4 - direction,
    {
        if direction == entrance_direction as usize {
            walls[direction] = WALL_OPEN;
        } else {
            let shift: u64 = (direction as u64) * 8;
            let wall_roll: u64 = (hash >> shift) % 10;
            walls[direction] = if wall_roll < 6 {
                WALL_RUBBLE
            } else if wall_roll < 9 {
                WALL_SOLID
            } else {
                WALL_OPEN
            };
        }
        direction = direction + 1;
    }
    walls
}

/// Chebyshev distance of a coordinate pair from the start room.
pub open spec fn depth_spec(x: i8, y: i8) -> u32 {
    let dx = if x >= START_X {
        x - START_X
    } else {
        START_X - x
    };
    let dy = if y >= START_Y {
        y - START_Y
    } else {
        START_Y - y
    };
    (if dx >= dy {
        dx
    } else {
        dy
    }) as u32
}

/// Depth of a room: the Chebyshev distance from the start coordinate.
/// Difficulty and boss strength scale with it.
pub fn calculate_depth(x: i8, y: i8) -> (depth: u32)
    ensures
        depth == depth_spec(x, y),
{
    let dx32: i32 = (x as i32) - (START_X as i32);
    let dx: i32 = if dx32 < 0 {
        -dx32
    } else {
        dx32
    };
    let dy32: i32 = (y as i32) - (START_Y as i32);
    let dy: i32 = if dy32 < 0 {
        -dy32
    } else {
        dy32
    };
    if dx >= dy {
        dx as u32
    } else {
        dy as u32
    }
}

/// The depth-one coordinate that is forced to hold a chest, picked by the
/// season seed so every season has at least one early chest whatever the
/// per-room rolls say.
pub open spec fn forced_chest_coords_spec(season_seed: u64) -> (i8, i8) {
    let forced_direction = season_seed % 4;
    if forced_direction == 0 {
        (START_X, (START_Y + 1) as i8)
    } else if forced_direction == 1 {
        (START_X, (START_Y - 1) as i8)
    } else if forced_direction == 2 {
        ((START_X + 1) as i8, START_Y)
    } else {
        ((START_X - 1) as i8, START_Y)
    }
}

/// Whether a coordinate pair is the season's guaranteed depth-one chest.
pub fn is_forced_depth_one_chest(season_seed: u64, room_x: i8, room_y: i8) -> (r: bool)
    ensures
        r == ((room_x, room_y) == forced_chest_coords_spec(season_seed)),
{
    let forced_direction = (season_seed % 4) as u8;
    let expected: (i8, i8) = match forced_direction {
        0 => (START_X, START_Y + 1),
        1 => (START_X, START_Y - 1),
        2 => (START_X + 1, START_Y),
        _ => (START_X - 1, START_Y),
    };
    room_x == expected.0 && room_y == expected.1
}

/// The center a fresh room gets: its kind (empty, chest or boss) and the
/// variant selector.
pub open spec fn room_center_spec(season_seed: u64, room_x: i8, room_y: i8, depth: u32) -> (
    u8,
    u16,
) {
    let room_hash = room_hash_spec(season_seed, room_x, room_y);
    if depth == 1 {
        if (room_x, room_y) == forced_chest_coords_spec(season_seed) || room_hash % 100 < 50 {
            (CENTER_CHEST, 1u16)
        } else {
            (CENTER_EMPTY, 0u16)
        }
    } else if depth >= 2 && room_hash % 100 < 50 {
        (CENTER_BOSS, (room_hash % 4 + 1) as u16)
    } else {
        (CENTER_EMPTY, 0u16)
    }
}

/// Decides what sits in the center of a fresh room.  Depth-zero rooms are
/// always empty; depth one gives a chest half the time, and always at the
/// season's forced coordinate; depth two and beyond gives a boss (with one
/// of four variants) half the time.
pub fn generate_room_center(season_seed: u64, room_x: i8, room_y: i8, depth: u32) -> (r: (u8, u16))
    ensures
        r == room_center_spec(season_seed, room_x, room_y, depth),
{
    let room_hash = generate_room_hash(season_seed, room_x, room_y);

    if depth == 1 {
        if is_forced_depth_one_chest(season_seed, room_x, room_y) || room_hash % 100 < 50 {
            return (CENTER_CHEST, 1);
        }
        return (CENTER_EMPTY, 0);
    }

    if depth >= 2 && room_hash % 100 < 50 {
        let boss_id = (room_hash % 4 + 1) as u16;
        return (CENTER_BOSS, boss_id);
    }

    (CENTER_EMPTY, 0)
}

/// Generation is deterministic: any two wall layouts derived for the same
/// hash and entrance are identical, and any two centers derived for the
/// same seed, coordinates and depth are identical.  Together with the
/// contracts of [`generate_walls`] and [`generate_room_center`], repeated
/// invocation on the same season inputs always reproduces the same room.
pub proof fn lemma_generation_deterministic(
    walls1: [u8; 4],
    walls2: [u8; 4],
    hash: u64,
    entrance_direction: u8,
    center1: (u8, u16),
    center2: (u8, u16),
    season_seed: u64,
    x: i8,
    y: i8,
    depth: u32,
)
    requires
        forall|d: int| 0 <= d < 4 ==> walls1[d] == generated_wall_spec(hash, entrance_direction, d),
        forall|d: int| 0 <= d < 4 ==> walls2[d] == generated_wall_spec(hash, entrance_direction, d),
        center1 == room_center_spec(season_seed, x, y, depth),
        center2 == room_center_spec(season_seed, x, y, depth),
    ensures
        walls1 == walls2,
        center1 == center2,
{
    assert(walls1 =~= walls2);
}

} // verus!
