//! Season bootstrap: the global record, the prize pool and the start
//! room.

use vstd::prelude::*;

use crate::errors::ChainDepthError;
use crate::events::WorldInitialized;
use crate::global::{GlobalAccount, SEASON_DURATION_SLOTS};
use crate::keys::AccountId;
use crate::room::{is_start_room, new_start_room, RoomAccount};

verus! {

/// Brings a season up: the global record with the given seed, an empty
/// prize pool funded with the given amount (owed from the admin's token
/// account), and the start room.  The season ends a fixed number of slots
/// from now.
pub fn init_global(
    admin: AccountId,
    skr_mint: AccountId,
    prize_pool: AccountId,
    initial_prize_pool_amount: u64,
    season_seed: u64,
    now_slot: u64,
) -> (r: (GlobalAccount, RoomAccount, WorldInitialized, u64))
    requires
        now_slot + SEASON_DURATION_SLOTS <= u64::MAX,
    ensures
        ({
            let (global, start_room, event, pool_transfer) = r;
            &&& global == (GlobalAccount {
                season_seed,
                depth: 0,
                skr_mint,
                prize_pool,
                admin,
                end_slot: (now_slot + SEASON_DURATION_SLOTS) as u64,
                jobs_completed: 0,
            })
            &&& is_start_room(start_room, season_seed, now_slot, admin)
            &&& start_room.wf()
            &&& event == (WorldInitialized {
                season_seed,
                admin,
                skr_mint,
                end_slot: global.end_slot,
            })
            &&& pool_transfer == initial_prize_pool_amount
        }),
{
    let global = GlobalAccount {
        season_seed,
        depth: 0,
        skr_mint,
        prize_pool,
        admin,
        end_slot: now_slot + SEASON_DURATION_SLOTS,
        jobs_completed: 0,
    };
    let start_room = new_start_room(season_seed, now_slot, admin);
    let event = WorldInitialized { season_seed, admin, skr_mint, end_slot: global.end_slot };
    (global, start_room, event, initial_prize_pool_amount)
}

/// Whether a stored start room already belongs to this season: the seeds
/// match and someone's key is on record as its creator.
pub open spec fn start_room_current_spec(room: RoomAccount, global: GlobalAccount) -> bool {
    room.season_seed == global.season_seed && !room.created_by.is_zeroed_spec()
}

/// Makes sure the season's start room exists: an admin-only repair path.
/// A start room already initialized for this season is handed back
/// untouched (the flag is false); anything else — absent, stale from an
/// earlier season, or never finished — is rebuilt from the season seed
/// (the flag is true).
pub fn ensure_start_room(
    global: &GlobalAccount,
    start_room: Option<RoomAccount>,
    authority: AccountId,
    now_slot: u64,
) -> (r: Result<(RoomAccount, bool), ChainDepthError>)
    ensures
        authority != global.admin <==> r == Err::<(RoomAccount, bool), ChainDepthError>(
            ChainDepthError::Unauthorized,
        ),
        r matches Ok((room, rebuilt)) ==> match start_room {
            Some(existing) => {
                if start_room_current_spec(existing, *global) {
                    room == existing && !rebuilt
                } else {
                    is_start_room(room, global.season_seed, now_slot, authority) && rebuilt
                }
            },
            None => is_start_room(room, global.season_seed, now_slot, authority) && rebuilt,
        },
        r matches Ok((room, _)) ==> room.wf() || (start_room matches Some(e) && room == e),
{
    if authority != global.admin {
        return Err(ChainDepthError::Unauthorized);
    }
    match start_room {
        Some(existing) => {
            if existing.season_seed == global.season_seed && !existing.created_by.is_zeroed() {
                Ok((existing, false))
            } else {
                Ok((new_start_room(global.season_seed, now_slot, authority), true))
            }
        },
        None => Ok((new_start_room(global.season_seed, now_slot, authority), true)),
    }
}

} // verus!
