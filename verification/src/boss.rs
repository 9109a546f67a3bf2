//! The boss encounter engine.
//!
//! A boss's health is not decremented per hit: it is a function of elapsed
//! time and the standing sum of the joined fighters' damage per second.
//! Any action that touches the boss first settles its health at the
//! current slot; health reaching zero marks the boss defeated, terminally
//! for the season.

use vstd::prelude::*;

use crate::errors::ChainDepthError;
use crate::keys::AccountId;
use crate::player::PlayerAccount;
use crate::room::{RoomAccount, CENTER_BOSS};
use crate::session::{
    authorize_check, authorize_decision_spec, SessionAuthority,
};
use crate::session_instruction_bits;

verus! {

/// One record per (room, player) proving the player joined this boss
/// fight, and with what damage per second.
#[derive(Clone, Copy, Debug, PartialEq, Eq, Structural)]
pub struct BossFightAccount {
    /// The fighting player.
    pub player: AccountId,
    /// Coordinates of the boss's room.
    pub room_x: i8,
    pub room_y: i8,
    /// Damage per slot this fighter contributes while joined.
    pub dps: u64,
    /// Slot the fighter joined at.
    pub joined_slot: u64,
}

/// The boss's health at a given slot: the health on record, minus the
/// standing damage rate times the slots elapsed since the record was
/// written, floored at zero.
pub open spec fn boss_hp_at_spec(room: RoomAccount, now_slot: u64) -> u64 {
    let elapsed = if now_slot >= room.boss_last_update_slot {
        now_slot - room.boss_last_update_slot
    } else {
        0
    };
    let damage = room.boss_total_dps * elapsed;
    if damage >= room.boss_current_hp {
        0u64
    } else {
        (room.boss_current_hp - damage) as u64
    }
}

/// Whether the boss counts as defeated once its health is settled at a
/// given slot.
pub open spec fn boss_defeated_at_spec(room: RoomAccount, now_slot: u64) -> bool {
    room.boss_defeated || boss_hp_at_spec(room, now_slot) == 0
}

/// The boss's health at the given slot, without touching the room.
pub fn query_boss_hp(room: &RoomAccount, now_slot: u64) -> (hp: u64)
    ensures
        hp == boss_hp_at_spec(*room, now_slot),
{
    let elapsed: u64 = if now_slot >= room.boss_last_update_slot {
        now_slot - room.boss_last_update_slot
    } else {
        0
    };
    proof {
        assert(room.boss_total_dps as int * elapsed as int <= u64::MAX as int * u64::MAX as int)
            by (nonlinear_arith)
            requires
                room.boss_total_dps <= u64::MAX,
                elapsed <= u64::MAX,
        ;
    }
    let damage: u128 = (room.boss_total_dps as u128) * (elapsed as u128);
    if damage >= room.boss_current_hp as u128 {
        0
    } else {
        room.boss_current_hp - (damage as u64)
    }
}

/// A room with its boss's health settled at `now_slot`: the health and
/// defeat flag take their values at that slot, the bookkeeping slot moves
/// to it, and nothing else changes.
pub open spec fn boss_settled_spec(room: RoomAccount, new_room: RoomAccount, now_slot: u64) -> bool {
    &&& new_room == (RoomAccount {
        boss_current_hp: boss_hp_at_spec(room, now_slot),
        boss_last_update_slot: now_slot,
        boss_defeated: boss_defeated_at_spec(room, now_slot),
        ..room
    })
}

/// Settles the boss's health at the current slot: health drains by the
/// standing damage rate times the elapsed slots, and reaching zero marks
/// the boss defeated for good.
pub fn update_boss_hp(room: &mut RoomAccount, now_slot: u64)
    requires
        old(room).wf(),
    ensures
        boss_settled_spec(*old(room), *final(room), now_slot),
        final(room).wf(),
{
    let hp_now = query_boss_hp(room, now_slot);
    room.boss_current_hp = hp_now;
    room.boss_last_update_slot = now_slot;
    if hp_now == 0 {
        room.boss_defeated = true;
    }
}

/// A boss's health only ever falls as time passes: between two slots at
/// or after its last bookkeeping, the health read at the later slot never
/// exceeds the health read at the earlier one, and a boss read as dead
/// stays dead.
pub proof fn lemma_boss_hp_monotonic(room: RoomAccount, earlier_slot: u64, later_slot: u64)
    requires
        room.boss_last_update_slot <= earlier_slot <= later_slot,
    ensures
        boss_hp_at_spec(room, later_slot) <= boss_hp_at_spec(room, earlier_slot),
        boss_defeated_at_spec(room, earlier_slot) ==> boss_defeated_at_spec(room, later_slot),
{
    let elapsed_earlier = earlier_slot - room.boss_last_update_slot;
    let elapsed_later = later_slot - room.boss_last_update_slot;
    vstd::arithmetic::mul::lemma_mul_inequality(
        elapsed_earlier,
        elapsed_later,
        room.boss_total_dps as int,
    );
    vstd::arithmetic::mul::lemma_mul_is_commutative(elapsed_earlier, room.boss_total_dps as int);
    vstd::arithmetic::mul::lemma_mul_is_commutative(elapsed_later, room.boss_total_dps as int);
    assert(room.boss_total_dps as int * elapsed_earlier <= room.boss_total_dps as int
        * elapsed_later);
}

/// What [`join_boss_fight`] decides, in the order the checks run.
/// `already_fighting` is whether the store holds a fight record for this
/// (room, player) pair.
pub open spec fn join_boss_fight_decision_spec(
    room: RoomAccount,
    player_account: PlayerAccount,
    already_fighting: bool,
    session: Option<SessionAuthority>,
    authority: AccountId,
    player: AccountId,
    dps: u64,
    now_slot: u64,
) -> Result<(), ChainDepthError> {
    let auth = authorize_decision_spec(
        authority,
        player,
        session,
        session_instruction_bits::JOIN_BOSS_FIGHT,
        0,
        now_slot,
    );
    if auth is Err {
        auth
    } else if room.center_type != CENTER_BOSS {
        Err(ChainDepthError::NoBoss)
    } else if boss_defeated_at_spec(room, now_slot) {
        Err(ChainDepthError::BossAlreadyDefeated)
    } else if !player_account.is_at_room_spec(room.x, room.y) {
        Err(ChainDepthError::NotInRoom)
    } else if already_fighting {
        Err(ChainDepthError::AlreadyFightingBoss)
    } else if room.boss_total_dps > u64::MAX - dps {
        Err(ChainDepthError::Overflow)
    } else if room.boss_fighter_count == u32::MAX {
        Err(ChainDepthError::Overflow)
    } else {
        Ok(())
    }
}

/// Joins the caller to the fight against this room's boss: the fighter's
/// damage per second adds to the standing rate from this slot on.  The
/// room must hold a boss that is still alive, the player must stand in
/// the room and must not be fighting it already.
pub fn join_boss_fight(
    room: &mut RoomAccount,
    player_account: &PlayerAccount,
    already_fighting: bool,
    session: &mut Option<SessionAuthority>,
    authority: AccountId,
    player: AccountId,
    dps: u64,
    now_slot: u64,
) -> (r: Result<BossFightAccount, ChainDepthError>)
    requires
        old(room).wf(),
    ensures
        r matches Err(e) ==> Err::<(), ChainDepthError>(e) == join_boss_fight_decision_spec(
            *old(room),
            *player_account,
            already_fighting,
            *old(session),
            authority,
            player,
            dps,
            now_slot,
        ),
        r is Ok ==> join_boss_fight_decision_spec(
            *old(room),
            *player_account,
            already_fighting,
            *old(session),
            authority,
            player,
            dps,
            now_slot,
        ) is Ok,
        *final(session) == *old(session),
        r is Err ==> *final(room) == *old(room),
        r matches Ok(fight) ==> {
            &&& *final(room) == (RoomAccount {
                boss_current_hp: boss_hp_at_spec(*old(room), now_slot),
                boss_last_update_slot: now_slot,
                boss_total_dps: (old(room).boss_total_dps + dps) as u64,
                boss_fighter_count: (old(room).boss_fighter_count + 1) as u32,
                ..*old(room)
            })
            &&& fight == (BossFightAccount {
                player,
                room_x: old(room).x,
                room_y: old(room).y,
                dps,
                joined_slot: now_slot,
            })
            &&& final(room).wf()
        },
{
    if let Err(e) = authorize_check(
        authority,
        player,
        session,
        session_instruction_bits::JOIN_BOSS_FIGHT,
        0,
        now_slot,
    ) {
        return Err(e);
    }
    if room.center_type != CENTER_BOSS {
        return Err(ChainDepthError::NoBoss);
    }
    let hp_now = query_boss_hp(room, now_slot);
    if room.boss_defeated || hp_now == 0 {
        return Err(ChainDepthError::BossAlreadyDefeated);
    }
    if !player_account.is_at_room(room.x, room.y) {
        return Err(ChainDepthError::NotInRoom);
    }
    if already_fighting {
        return Err(ChainDepthError::AlreadyFightingBoss);
    }
    if room.boss_total_dps > u64::MAX - dps {
        return Err(ChainDepthError::Overflow);
    }
    if room.boss_fighter_count == u32::MAX {
        return Err(ChainDepthError::Overflow);
    }

    // Every check passed: settle the health and register the fighter.
    room.boss_current_hp = hp_now;
    room.boss_last_update_slot = now_slot;
    room.boss_total_dps = room.boss_total_dps + dps;
    room.boss_fighter_count = room.boss_fighter_count + 1;

    Ok(
        BossFightAccount {
            player,
            room_x: room.x,
            room_y: room.y,
            dps,
            joined_slot: now_slot,
        },
    )
}

/// What [`leave_boss_fight`] decides, in the order the checks run.
pub open spec fn leave_boss_fight_decision_spec(
    room: RoomAccount,
    fight: BossFightAccount,
    session: Option<SessionAuthority>,
    authority: AccountId,
    player: AccountId,
    now_slot: u64,
) -> Result<(), ChainDepthError> {
    let auth = authorize_decision_spec(
        authority,
        player,
        session,
        session_instruction_bits::LEAVE_BOSS_FIGHT,
        0,
        now_slot,
    );
    if auth is Err {
        auth
    } else if room.center_type != CENTER_BOSS {
        Err(ChainDepthError::NoBoss)
    } else if fight.player != player || fight.room_x != room.x || fight.room_y != room.y {
        Err(ChainDepthError::NotBossFighter)
    } else if fight.dps > room.boss_total_dps || room.boss_fighter_count == 0 {
        Err(ChainDepthError::Overflow)
    } else {
        Ok(())
    }
}

/// Removes the caller from the fight against this room's boss: the
/// health is settled at the current slot first (so the fighter's damage
/// up to now still counts), then their rate leaves the standing sum.
/// Leaving works whether or not the boss fell in the meantime.
pub fn leave_boss_fight(
    room: &mut RoomAccount,
    fight: &BossFightAccount,
    session: &mut Option<SessionAuthority>,
    authority: AccountId,
    player: AccountId,
    now_slot: u64,
) -> (r: Result<(), ChainDepthError>)
    requires
        old(room).wf(),
    ensures
        r == leave_boss_fight_decision_spec(
            *old(room),
            *fight,
            *old(session),
            authority,
            player,
            now_slot,
        ),
        *final(session) == *old(session),
        r is Err ==> *final(room) == *old(room),
        r is Ok ==> *final(room) == (RoomAccount {
            boss_current_hp: boss_hp_at_spec(*old(room), now_slot),
            boss_last_update_slot: now_slot,
            boss_defeated: boss_defeated_at_spec(*old(room), now_slot),
            boss_total_dps: (old(room).boss_total_dps - fight.dps) as u64,
            boss_fighter_count: (old(room).boss_fighter_count - 1) as u32,
            ..*old(room)
        }),
        r is Ok ==> final(room).wf(),
{
    if let Err(e) = authorize_check(
        authority,
        player,
        session,
        session_instruction_bits::LEAVE_BOSS_FIGHT,
        0,
        now_slot,
    ) {
        return Err(e);
    }
    if room.center_type != CENTER_BOSS {
        return Err(ChainDepthError::NoBoss);
    }
    if fight.player != player || fight.room_x != room.x || fight.room_y != room.y {
        return Err(ChainDepthError::NotBossFighter);
    }
    if fight.dps > room.boss_total_dps || room.boss_fighter_count == 0 {
        return Err(ChainDepthError::Overflow);
    }

    // Every check passed: settle the health, then shed the fighter.
    update_boss_hp(room, now_slot);
    room.boss_total_dps = room.boss_total_dps - fight.dps;
    room.boss_fighter_count = room.boss_fighter_count - 1;
    Ok(())
}

} // verus!
