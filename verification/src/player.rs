//! Per-wallet gameplay state: position, active job memberships, cumulative
//! counters, the cosmetic profile and the per-room presence marker.

use vstd::prelude::*;

use crate::errors::ChainDepthError;
use crate::global::{START_X, START_Y};
use crate::keys::AccountId;

verus! {

/// Cap on concurrent job memberships per player.
pub const MAX_ACTIVE_JOBS: usize = 3;

/// One active job membership: the room's coordinates and the direction of
/// the wall being cleared.
#[derive(Clone, Copy, Debug, PartialEq, Eq, Structural)]
pub struct ActiveJob {
    pub x: i8,
    pub y: i8,
    pub direction: u8,
}

/// One gameplay record per wallet.
#[derive(Clone, Debug)]
pub struct PlayerAccount {
    /// Wallet this record belongs to; the store hands back the all-zero
    /// key for a record that was never written.
    pub owner: AccountId,
    /// Coordinates of the room the player is in.
    pub current_room_x: i8,
    pub current_room_y: i8,
    /// Jobs the player is currently a helper on.
    pub active_jobs: Vec<ActiveJob>,
    /// Jobs the player has completed over the season.
    pub jobs_completed: u32,
    /// Chests and bosses the player has looted over the season.
    pub chests_looted: u32,
    /// Item the player has equipped (zero for none).
    pub equipped_item_id: u16,
    /// Season this record belongs to.
    pub season_seed: u64,
}

impl PlayerAccount {
    /// Well-formedness: the membership list is within its cap.
    pub open spec fn wf(&self) -> bool {
        self.active_jobs@.len() <= MAX_ACTIVE_JOBS
    }

    /// Whether the player is a helper on the job at these coordinates and
    /// direction.
    pub open spec fn has_active_job_spec(&self, x: i8, y: i8, direction: u8) -> bool {
        self.active_jobs@.contains(ActiveJob { x, y, direction })
    }

    /// Whether the player is a helper on the job at these coordinates and
    /// direction.
    pub fn has_active_job(&self, x: i8, y: i8, direction: u8) -> (r: bool)
        ensures
            r == self.has_active_job_spec(x, y, direction),
    {
        let target = ActiveJob { x, y, direction };
        let mut i: usize = 0;
        while i < self.active_jobs.len()
            invariant
                i <= self.active_jobs@.len(),
                target == (ActiveJob { x, y, direction }),
                forall|j: int| 0 <= j < i ==> self.active_jobs@[j] != target,
            decreases self.active_jobs@.len() - i,
        {
            if self.active_jobs[i] == target {
                return true;
            }
            i = i + 1;
        }
        false
    }

    /// Whether the player currently stands in the room at these
    /// coordinates.
    pub open spec fn is_at_room_spec(&self, x: i8, y: i8) -> bool {
        self.current_room_x == x && self.current_room_y == y
    }

    /// Whether the player currently stands in the room at these
    /// coordinates.
    pub fn is_at_room(&self, x: i8, y: i8) -> (r: bool)
        ensures
            r == self.is_at_room_spec(x, y),
    {
        self.current_room_x == x && self.current_room_y == y
    }

    /// Records a new job membership, refusing once the player already
    /// holds the maximum number of concurrent jobs.
    pub fn add_job(&mut self, x: i8, y: i8, direction: u8) -> (r: Result<(), ChainDepthError>)
        ensures
            old(self).active_jobs@.len() >= MAX_ACTIVE_JOBS ==> r == Err::<(), ChainDepthError>(
                ChainDepthError::TooManyActiveJobs,
            ) && *final(self) == *old(self),
            old(self).active_jobs@.len() < MAX_ACTIVE_JOBS ==> r == Ok::<(), ChainDepthError>(())
                && *final(self) == (PlayerAccount {
                active_jobs: final(self).active_jobs,
                ..*old(self)
            }) && final(self).active_jobs@ == old(self).active_jobs@.push(
                ActiveJob { x, y, direction },
            ),
    {
        if self.active_jobs.len() >= MAX_ACTIVE_JOBS {
            return Err(ChainDepthError::TooManyActiveJobs);
        }
        self.active_jobs.push(ActiveJob { x, y, direction });
        Ok(())
    }

    /// Drops the membership for this room and direction, if any; every
    /// other membership keeps its place.
    pub fn remove_job(&mut self, x: i8, y: i8, direction: u8)
        ensures
            *final(self) == (PlayerAccount { active_jobs: final(self).active_jobs, ..*old(self) }),
            final(self).active_jobs@ == old(self).active_jobs@.filter(
                |job: ActiveJob| job != (ActiveJob { x, y, direction }),
            ),
            final(self).active_jobs@.len() <= old(self).active_jobs@.len(),
            !final(self).has_active_job_spec(x, y, direction),
    {
        let target = ActiveJob { x, y, direction };
        let mut kept: Vec<ActiveJob> = Vec::new();
        let mut i: usize = 0;
        proof {
            assert(self.active_jobs@.take(0int) =~= Seq::<ActiveJob>::empty());
            assert(Seq::<ActiveJob>::empty().filter(|job: ActiveJob| job != target)
                =~= Seq::<ActiveJob>::empty());
        }
        while i < self.active_jobs.len()
            invariant
                i <= self.active_jobs@.len(),
                target == (ActiveJob { x, y, direction }),
                kept@ == self.active_jobs@.take(i as int).filter(
                    |job: ActiveJob| job != target,
                ),
                kept@.len() <= i,
            decreases self.active_jobs@.len() - i,
        {
            let job = self.active_jobs[i];
            proof {
                assert(self.active_jobs@.take(i + 1int).drop_last() =~= self.active_jobs@.take(
                    i as int,
                ));
                reveal_with_fuel(Seq::filter, 2);
            }
            if job != target {
                kept.push(job);
            }
            i = i + 1;
        }
        proof {
            assert(self.active_jobs@.take(self.active_jobs@.len() as int)
                =~= self.active_jobs@);
        }
        self.active_jobs = kept;
        proof {
            lemma_filter_excludes(old(self).active_jobs@, target);
        }
    }
}

/// A filtered membership list never contains the membership it filtered
/// out.
proof fn lemma_filter_excludes(jobs: Seq<ActiveJob>, target: ActiveJob)
    ensures
        !jobs.filter(|job: ActiveJob| job != target).contains(target),
{
    let filtered = jobs.filter(|job: ActiveJob| job != target);
    assert forall|k: int| 0 <= k < filtered.len() implies filtered[k] != target by {
        jobs.lemma_filter_pred(|job: ActiveJob| job != target, k);
    }
}

/// Default skin a fresh profile starts with.
pub const DEFAULT_SKIN_ID: u16 = 0;

/// Cosmetic profile of a wallet.
#[derive(Debug)]
pub struct PlayerProfile {
    /// Wallet this profile belongs to; all-zero when never written.
    pub owner: AccountId,
    /// Skin the player wears.
    pub skin_id: u16,
    /// Display name shown to other players.
    pub display_name: String,
    /// Whether the one-time starter pickaxe was already granted.
    pub starter_pickaxe_granted: bool,
}

/// Presence activity: standing idle.
pub const ACTIVITY_IDLE: u8 = 0;

/// Presence activity: working on a directional job.
pub const ACTIVITY_DOOR_JOB: u8 = 1;

/// One marker per (room, player): which room the player is shown in and
/// what they are doing there.
#[derive(Clone, Copy, Debug, PartialEq, Eq, Structural)]
pub struct RoomPresence {
    /// Player this marker belongs to; all-zero when never written.
    pub player: AccountId,
    /// Season this marker belongs to.
    pub season_seed: u64,
    /// Coordinates of the room the marker sits in.
    pub room_x: i8,
    pub room_y: i8,
    /// Skin shown for the player.
    pub skin_id: u16,
    /// Item shown in the player's hands (zero for none).
    pub equipped_item_id: u16,
    /// What the player is doing in the room.
    pub activity: u8,
    /// Direction of the job being worked, meaningful only while the
    /// activity is a door job.
    pub activity_direction: u8,
    /// Whether this marker is the player's current room.
    pub is_current: bool,
}

impl RoomPresence {
    /// Marks the player as standing idle.
    pub fn set_idle(&mut self)
        ensures
            *final(self) == (RoomPresence {
                activity: ACTIVITY_IDLE,
                activity_direction: 0,
                ..*old(self)
            }),
    {
        self.activity = ACTIVITY_IDLE;
        self.activity_direction = 0;
    }

    /// Marks the player as working the directional job at this door.
    pub fn set_door_job(&mut self, direction: u8)
        ensures
            *final(self) == (RoomPresence {
                activity: ACTIVITY_DOOR_JOB,
                activity_direction: direction,
                ..*old(self)
            }),
    {
        self.activity = ACTIVITY_DOOR_JOB;
        self.activity_direction = direction;
    }
}

/// Fills a presence marker: a never-written marker takes the player's
/// identity and room; either way the cosmetics are refreshed.
pub fn upsert_presence(
    presence: &mut RoomPresence,
    player: AccountId,
    season_seed: u64,
    room_x: i8,
    room_y: i8,
    skin_id: u16,
    equipped_item_id: u16,
)
    ensures
        *final(presence) == (RoomPresence {
            player: if old(presence).player.is_zeroed_spec() {
                player
            } else {
                old(presence).player
            },
            season_seed: if old(presence).player.is_zeroed_spec() {
                season_seed
            } else {
                old(presence).season_seed
            },
            room_x: if old(presence).player.is_zeroed_spec() {
                room_x
            } else {
                old(presence).room_x
            },
            room_y: if old(presence).player.is_zeroed_spec() {
                room_y
            } else {
                old(presence).room_y
            },
            skin_id,
            equipped_item_id,
            ..*old(presence)
        }),
{
    if presence.player.is_zeroed() {
        presence.player = player;
        presence.season_seed = season_seed;
        presence.room_x = room_x;
        presence.room_y = room_y;
    }
    presence.skin_id = skin_id;
    presence.equipped_item_id = equipped_item_id;
}

/// A fresh gameplay record: the player spawns in the start room with no
/// jobs, no counters and nothing equipped.
pub fn fresh_player_account(owner: AccountId, season_seed: u64) -> (r: PlayerAccount)
    ensures
        r.owner == owner,
        r.current_room_x == START_X,
        r.current_room_y == START_Y,
        r.active_jobs@ == Seq::<ActiveJob>::empty(),
        r.jobs_completed == 0,
        r.chests_looted == 0,
        r.equipped_item_id == 0,
        r.season_seed == season_seed,
        r.wf(),
{
    PlayerAccount {
        owner,
        current_room_x: START_X,
        current_room_y: START_Y,
        active_jobs: Vec::new(),
        jobs_completed: 0,
        chests_looted: 0,
        equipped_item_id: 0,
        season_seed,
    }
}

/// A fresh cosmetic profile with the default skin, an empty name and the
/// starter grant still owed.
pub fn fresh_profile(owner: AccountId) -> (r: PlayerProfile)
    ensures
        r.owner == owner,
        r.skin_id == DEFAULT_SKIN_ID,
        r.display_name@ == Seq::<char>::empty(),
        !r.starter_pickaxe_granted,
{
    PlayerProfile {
        owner,
        skin_id: DEFAULT_SKIN_ID,
        display_name: String::new(),
        starter_pickaxe_granted: false,
    }
}

} // verus!
