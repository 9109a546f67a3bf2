//! The cooperative job engine: joining a wall-clearing job, completing it
//! once enough time has passed, and abandoning it for a partial refund.
//!
//! A job lives on one (room, direction) pair while that wall is rubble.
//! The first join starts the clock; progress is elapsed time, independent
//! of how many helpers joined — helpers only split the completion bonus
//! and each pays the same fixed stake.

use vstd::prelude::*;

use crate::errors::ChainDepthError;
use crate::events::JobJoined;
use crate::global::GlobalAccount;
use crate::keys::AccountId;
use crate::player::{PlayerAccount, RoomPresence, ACTIVITY_DOOR_JOB, MAX_ACTIVE_JOBS};
use crate::room::{RoomAccount, MIN_BOOST_TIP, STAKE_AMOUNT, WALL_RUBBLE};
use crate::session::{
    authorize_check, authorize_debit_spec, authorize_decision_spec, authorize_player_action,
    SessionAuthority,
};
use crate::session_instruction_bits;

verus! {

/// Proof of one player's participation and stake in one job attempt.
/// Created on join, immutable afterwards; the store closes it when the
/// stake is paid back out.
#[derive(Clone, Copy, Debug, PartialEq, Eq, Structural)]
pub struct HelperStake {
    /// The staking player.
    pub player: AccountId,
    /// Coordinates of the room the job lives on.
    pub room_x: i8,
    pub room_y: i8,
    /// Direction of the wall being cleared.
    pub direction: u8,
    /// What the player staked.
    pub amount: u64,
    /// Slot the player joined at.
    pub joined_slot: u64,
}

/// Slots elapsed since a job started (zero if the clock reads earlier
/// than the start, which a monotonic clock never does).
pub open spec fn job_elapsed_spec(start_slot: u64, now_slot: u64) -> u64 {
    if now_slot >= start_slot {
        (now_slot - start_slot) as u64
    } else {
        0
    }
}

/// A job's progress at evaluation time: elapsed time since its start, or
/// the progress already on record if that is further (progress never
/// moves backwards).
pub open spec fn job_progress_spec(room: RoomAccount, direction: int, now_slot: u64) -> u64 {
    let elapsed = job_elapsed_spec(room.start_slot[direction], now_slot);
    if room.progress[direction] >= elapsed {
        room.progress[direction]
    } else {
        elapsed
    }
}

/// The bonus each helper is owed before the prize pool caps it: the base
/// tip, decayed by one step for every hundred jobs the season completed,
/// split evenly among the helpers.
pub open spec fn bonus_spec(jobs_completed: u64, helper_count: u64) -> u64 {
    (MIN_BOOST_TIP as int / (1 + jobs_completed as int / 100) / helper_count as int) as u64
}

/// Desired bonus per helper for a season with this many completed jobs
/// and a job with this many helpers.
pub fn calculate_bonus(jobs_completed: u64, helper_count: u64) -> (r: u64)
    requires
        helper_count > 0,
    ensures
        r == bonus_spec(jobs_completed, helper_count),
{
    MIN_BOOST_TIP / (1 + jobs_completed / 100) / helper_count
}

/// Whether this presence marker is the player's marker for this room and
/// season.
pub open spec fn presence_matches_spec(
    presence: RoomPresence,
    player: AccountId,
    room: RoomAccount,
    season_seed: u64,
) -> bool {
    &&& presence.player == player
    &&& presence.room_x == room.x
    &&& presence.room_y == room.y
    &&& presence.season_seed == season_seed
}

/// What [`join_job`] decides, in the order the checks run: the session
/// policy first, then the direction, the wall, the caller's memberships,
/// the job's phase, the counters' headroom and the caller's presence in
/// the room.
pub open spec fn join_job_decision_spec(
    room: RoomAccount,
    player_account: PlayerAccount,
    presence: RoomPresence,
    session: Option<SessionAuthority>,
    global: GlobalAccount,
    authority: AccountId,
    player: AccountId,
    direction: u8,
    now_slot: u64,
) -> Result<(), ChainDepthError> {
    let auth = authorize_decision_spec(
        authority,
        player,
        session,
        session_instruction_bits::JOIN_JOB,
        STAKE_AMOUNT,
        now_slot,
    );
    if auth is Err {
        auth
    } else if direction >= 4 {
        Err(ChainDepthError::InvalidDirection)
    } else if room.walls[direction as int] != WALL_RUBBLE {
        Err(ChainDepthError::NotRubble)
    } else if player_account.has_active_job_spec(room.x, room.y, direction) {
        Err(ChainDepthError::AlreadyJoined)
    } else if room.job_completed[direction as int] {
        Err(ChainDepthError::JobAlreadyCompleted)
    } else if room.helper_counts[direction as int] == u32::MAX {
        Err(ChainDepthError::Overflow)
    } else if room.total_staked[direction as int] > u64::MAX - STAKE_AMOUNT {
        Err(ChainDepthError::Overflow)
    } else if player_account.active_jobs@.len() >= MAX_ACTIVE_JOBS {
        Err(ChainDepthError::TooManyActiveJobs)
    } else if !presence_matches_spec(presence, player, room, global.season_seed) {
        Err(ChainDepthError::NotInRoom)
    } else {
        Ok(())
    }
}

/// The room after a successful join: a first helper starts the clock and
/// resets the slot's meters; every join registers one more helper and one
/// more stake.  Nothing else of the room moves.
pub open spec fn join_applied_room_spec(
    room: RoomAccount,
    new_room: RoomAccount,
    global: GlobalAccount,
    direction: u8,
    now_slot: u64,
) -> bool {
    let d = direction as int;
    let fresh = room.helper_counts[d] == 0;
    &&& new_room == (RoomAccount {
        helper_counts: new_room.helper_counts,
        progress: new_room.progress,
        start_slot: new_room.start_slot,
        base_slots: new_room.base_slots,
        total_staked: new_room.total_staked,
        bonus_per_helper: new_room.bonus_per_helper,
        ..room
    })
    &&& new_room.helper_counts@ == room.helper_counts@.update(
        d,
        (room.helper_counts[d] + 1) as u32,
    )
    &&& new_room.total_staked@ == room.total_staked@.update(
        d,
        (room.total_staked[d] + STAKE_AMOUNT) as u64,
    )
    &&& new_room.progress@ == (if fresh {
        room.progress@.update(d, 0u64)
    } else {
        room.progress@
    })
    &&& new_room.start_slot@ == (if fresh {
        room.start_slot@.update(d, now_slot)
    } else {
        room.start_slot@
    })
    &&& new_room.base_slots@ == (if fresh {
        room.base_slots@.update(d, RoomAccount::base_slots_spec(global.depth))
    } else {
        room.base_slots@
    })
    &&& new_room.bonus_per_helper@ == (if fresh {
        room.bonus_per_helper@.update(d, 0u64)
    } else {
        room.bonus_per_helper@
    })
}

/// Joins the caller to the wall-clearing job on one direction of the room
/// the player stands in.  The wall must be rubble and the job still open;
/// the player must not have joined it already and must have a membership
/// slot free; the fixed stake is owed into the job's escrow on success.
///
/// A rejected join changes nothing; a successful one registers the helper
/// on the room and the player, marks the presence as working the door,
/// debits a delegated session by the stake, and reports the stake record
/// and event to persist.
pub fn join_job(
    room: &mut RoomAccount,
    player_account: &mut PlayerAccount,
    presence: &mut RoomPresence,
    session: &mut Option<SessionAuthority>,
    global: &GlobalAccount,
    authority: AccountId,
    player: AccountId,
    direction: u8,
    now_slot: u64,
) -> (r: Result<(HelperStake, JobJoined), ChainDepthError>)
    requires
        old(room).wf(),
        old(player_account).wf(),
        old(player_account).is_at_room_spec(old(room).x, old(room).y),
        old(room).season_seed == global.season_seed,
    ensures
        r matches Err(e) ==> Err::<(), ChainDepthError>(e) == join_job_decision_spec(
            *old(room),
            *old(player_account),
            *old(presence),
            *old(session),
            *global,
            authority,
            player,
            direction,
            now_slot,
        ),
        r is Ok ==> join_job_decision_spec(
            *old(room),
            *old(player_account),
            *old(presence),
            *old(session),
            *global,
            authority,
            player,
            direction,
            now_slot,
        ) is Ok,
        r is Err ==> *final(room) == *old(room) && *final(player_account) == *old(player_account)
            && *final(presence) == *old(presence) && *final(session) == *old(session),
        r matches Ok((stake, event)) ==> {
            &&& join_applied_room_spec(*old(room), *final(room), *global, direction, now_slot)
            &&& final(player_account).active_jobs@ == old(player_account).active_jobs@.push(
                crate::player::ActiveJob { x: old(room).x, y: old(room).y, direction },
            )
            &&& *final(player_account) == (PlayerAccount {
                active_jobs: final(player_account).active_jobs,
                ..*old(player_account)
            })
            &&& *final(presence) == (RoomPresence {
                activity: ACTIVITY_DOOR_JOB,
                activity_direction: direction,
                ..*old(presence)
            })
            &&& *final(session) == authorize_debit_spec(
                authority,
                player,
                *old(session),
                session_instruction_bits::JOIN_JOB,
                STAKE_AMOUNT,
                now_slot,
            )
            &&& stake == (HelperStake {
                player,
                room_x: old(room).x,
                room_y: old(room).y,
                direction,
                amount: STAKE_AMOUNT,
                joined_slot: now_slot,
            })
            &&& event == (JobJoined {
                room_x: old(room).x,
                room_y: old(room).y,
                direction,
                player,
                helper_count: (old(room).helper_counts[direction as int] + 1) as u32,
                stake_amount: STAKE_AMOUNT,
            })
            &&& final(room).wf()
            &&& final(player_account).wf()
        },
{
    if let Err(e) = authorize_check(
        authority,
        player,
        session,
        session_instruction_bits::JOIN_JOB,
        STAKE_AMOUNT,
        now_slot,
    ) {
        return Err(e);
    }
    if !RoomAccount::is_valid_direction(direction) {
        return Err(ChainDepthError::InvalidDirection);
    }
    let direction_index = direction as usize;
    if !room.is_rubble(direction) {
        return Err(ChainDepthError::NotRubble);
    }
    if player_account.has_active_job(room.x, room.y, direction) {
        return Err(ChainDepthError::AlreadyJoined);
    }
    if room.job_completed[direction_index] {
        return Err(ChainDepthError::JobAlreadyCompleted);
    }
    if room.helper_counts[direction_index] == u32::MAX {
        return Err(ChainDepthError::Overflow);
    }
    if room.total_staked[direction_index] > u64::MAX - STAKE_AMOUNT {
        return Err(ChainDepthError::Overflow);
    }
    if player_account.active_jobs.len() >= MAX_ACTIVE_JOBS {
        return Err(ChainDepthError::TooManyActiveJobs);
    }
    let presence_ok = presence.player == player && presence.room_x == room.x && presence.room_y
        == room.y && presence.season_seed == global.season_seed;
    if !presence_ok {
        return Err(ChainDepthError::NotInRoom);
    }

    // Every check passed: apply the whole join.
    if room.helper_counts[direction_index] == 0 {
        room.start_slot[direction_index] = now_slot;
        room.base_slots[direction_index] = RoomAccount::calculate_base_slots(global.depth);
        room.progress[direction_index] = 0;
        room.bonus_per_helper[direction_index] = 0;
    }
    room.helper_counts[direction_index] = room.helper_counts[direction_index] + 1;
    room.total_staked[direction_index] = room.total_staked[direction_index] + STAKE_AMOUNT;

    if let Err(e) = player_account.add_job(room.x, room.y, direction) {
        return Err(e);
    }
    presence.set_door_job(direction);
    if let Err(e) = authorize_player_action(
        authority,
        player,
        session,
        session_instruction_bits::JOIN_JOB,
        STAKE_AMOUNT,
        now_slot,
    ) {
        return Err(e);
    }

    let helper_stake = HelperStake {
        player,
        room_x: room.x,
        room_y: room.y,
        direction,
        amount: STAKE_AMOUNT,
        joined_slot: now_slot,
    };
    let event = JobJoined {
        room_x: room.x,
        room_y: room.y,
        direction,
        player,
        helper_count: room.helper_counts[direction_index],
        stake_amount: STAKE_AMOUNT,
    };
    Ok((helper_stake, event))
}

/// However many helpers split it, a job's total desired bonus never
/// exceeds the base tip, so the pool transfer and each helper's reward
/// stay far below any counter's range.
proof fn lemma_bonus_total_bounded(jobs_completed: u64, helper_count: u64)
    requires
        helper_count > 0,
    ensures
        bonus_spec(jobs_completed, helper_count) * helper_count <= MIN_BOOST_TIP,
{
    let k = 1 + jobs_completed as int / 100;
    vstd::arithmetic::div_mod::lemma_div_pos_is_pos(jobs_completed as int, 100);
    assert(k >= 1);
    let tip_share = MIN_BOOST_TIP as int / k;
    vstd::arithmetic::div_mod::lemma_div_basics_5(MIN_BOOST_TIP as int, k);
    vstd::arithmetic::div_mod::lemma_div_pos_is_pos(MIN_BOOST_TIP as int, k);
    vstd::arithmetic::div_mod::lemma_div_pos_is_pos(tip_share, helper_count as int);
    vstd::arithmetic::div_mod::lemma_div_basics_5(tip_share, helper_count as int);
    vstd::arithmetic::div_mod::lemma_fundamental_div_mod(tip_share, helper_count as int);
    vstd::arithmetic::div_mod::lemma_mod_bound(tip_share, helper_count as int);
    assert(helper_count as int * (tip_share / helper_count as int) <= tip_share);
    assert(bonus_spec(jobs_completed, helper_count) == tip_share / (helper_count as int));
}

/// Everything a successful completion hands back to the caller to
/// persist: the opened (or freshly materialized) neighbor, whether it was
/// fresh, the bonus to move from the prize pool into the job's escrow,
/// the bonus each helper may claim, and the event.
#[derive(Clone, Debug)]
pub struct CompleteJobOutcome {
    /// The neighbor behind the cleared wall, with its facing wall open.
    pub adjacent_room: RoomAccount,
    /// Whether the neighbor was materialized by this completion.
    pub created_adjacent: bool,
    /// Amount owed from the prize pool into the job's escrow.
    pub bonus_transfer: u64,
    /// Bonus each helper may claim on top of the returned stake.
    pub bonus_per_helper: u64,
    /// The completion event.
    pub event: crate::events::JobCompleted,
}

/// What [`complete_job`] decides, in the order the checks run.
pub open spec fn complete_job_decision_spec(
    room: RoomAccount,
    player_account: PlayerAccount,
    session: Option<SessionAuthority>,
    global: GlobalAccount,
    authority: AccountId,
    player: AccountId,
    direction: u8,
    now_slot: u64,
) -> Result<(), ChainDepthError> {
    let auth = authorize_decision_spec(
        authority,
        player,
        session,
        session_instruction_bits::COMPLETE_JOB,
        0,
        now_slot,
    );
    if auth is Err {
        auth
    } else if direction >= 4 {
        Err(ChainDepthError::InvalidDirection)
    } else if room.walls[direction as int] != WALL_RUBBLE {
        Err(ChainDepthError::NotRubble)
    } else if room.helper_counts[direction as int] == 0 {
        Err(ChainDepthError::NoActiveJob)
    } else if room.job_completed[direction as int] {
        Err(ChainDepthError::JobAlreadyCompleted)
    } else if job_progress_spec(room, direction as int, now_slot)
        < room.base_slots[direction as int] {
        Err(ChainDepthError::JobNotReady)
    } else if !player_account.has_active_job_spec(room.x, room.y, direction) {
        Err(ChainDepthError::NotHelper)
    } else if global.jobs_completed == u64::MAX {
        Err(ChainDepthError::Overflow)
    } else {
        Ok(())
    }
}

/// The bonus moved from the prize pool for this completion: each helper's
/// decayed share times the helper count, capped by what the pool holds.
pub open spec fn bonus_transfer_spec(
    jobs_completed_after: u64,
    helper_count: u64,
    prize_pool_balance: u64,
) -> u64 {
    let desired = bonus_spec(jobs_completed_after, helper_count) * helper_count;
    if desired <= prize_pool_balance {
        desired as u64
    } else {
        prize_pool_balance
    }
}

/// The bonus accounting adds up: what a completion moves out of the prize
/// pool never exceeds the pool or the helpers' summed desired shares, each
/// helper's final share times the helper count never exceeds what moved,
/// and the undistributed remainder of the even split is smaller than the
/// helper count (the deliberate rounding loss).
pub proof fn lemma_bonus_distribution(
    jobs_completed_after: u64,
    helper_count: u64,
    prize_pool_balance: u64,
)
    requires
        helper_count > 0,
    ensures
        ({
            let bonus_total = bonus_transfer_spec(
                jobs_completed_after,
                helper_count,
                prize_pool_balance,
            );
            let per_helper = bonus_total as int / helper_count as int;
            &&& bonus_total <= prize_pool_balance
            &&& bonus_total <= bonus_spec(jobs_completed_after, helper_count) * helper_count
            &&& per_helper * helper_count <= bonus_total
            &&& bonus_total - per_helper * helper_count < helper_count
        }),
{
    lemma_bonus_total_bounded(jobs_completed_after, helper_count);
    let bonus_total = bonus_transfer_spec(jobs_completed_after, helper_count, prize_pool_balance);
    vstd::arithmetic::div_mod::lemma_fundamental_div_mod(bonus_total as int, helper_count as int);
    vstd::arithmetic::div_mod::lemma_mod_bound(bonus_total as int, helper_count as int);
}

/// Completes the job on one direction of a room: the wall opens, the
/// neighbor behind it is materialized if this is its first visit (and its
/// facing wall opened either way), the season's depth and completion
/// count advance, and the capped bonus is split evenly among the helpers
/// (any indivisible remainder stays in the pool's escrow).
///
/// The caller must be a registered helper and the job's elapsed time must
/// have reached its base requirement.  A rejected completion changes
/// nothing.
pub fn complete_job(
    global: &mut GlobalAccount,
    room: &mut RoomAccount,
    adjacent_room: Option<RoomAccount>,
    player_account: &PlayerAccount,
    session: &mut Option<SessionAuthority>,
    authority: AccountId,
    player: AccountId,
    direction: u8,
    prize_pool_balance: u64,
    now_slot: u64,
) -> (r: Result<CompleteJobOutcome, ChainDepthError>)
    requires
        old(room).wf(),
        player_account.wf(),
        old(room).season_seed == old(global).season_seed,
        crate::global::MIN_COORD <= old(room).x <= crate::global::MAX_COORD,
        crate::global::MIN_COORD <= old(room).y <= crate::global::MAX_COORD,
        old(global).depth < u32::MAX,
        adjacent_room matches Some(a) ==> a.wf() && (a.x, a.y)
            == RoomAccount::adjacent_coords_spec(old(room).x, old(room).y, direction),
    ensures
        r matches Err(e) ==> Err::<(), ChainDepthError>(e) == complete_job_decision_spec(
            *old(room),
            *player_account,
            *old(session),
            *old(global),
            authority,
            player,
            direction,
            now_slot,
        ),
        r is Ok ==> complete_job_decision_spec(
            *old(room),
            *player_account,
            *old(session),
            *old(global),
            authority,
            player,
            direction,
            now_slot,
        ) is Ok,
        *final(session) == *old(session),
        r is Err ==> *final(room) == *old(room) && *final(global) == *old(global),
        r matches Ok(outcome) ==> {
            let d = direction as int;
            let hc = old(room).helper_counts[d] as u64;
            let jobs_after = (old(global).jobs_completed + 1) as u64;
            let bonus_total = bonus_transfer_spec(jobs_after, hc, prize_pool_balance);
            let opposite = RoomAccount::opposite_direction_spec(direction) as int;
            let coords = RoomAccount::adjacent_coords_spec(old(room).x, old(room).y, direction);
            let new_depth = crate::world::depth_spec(coords.0, coords.1);
            // The cleared wall and the neighbor's facing wall are both open.
            &&& final(room).walls@ == old(room).walls@.update(d, crate::room::WALL_OPEN)
            &&& outcome.adjacent_room.walls[opposite] == crate::room::WALL_OPEN
            // The job is completed and its helpers' bonus is on record.
            &&& final(room).job_completed@ == old(room).job_completed@.update(d, true)
            &&& final(room).bonus_per_helper@ == old(room).bonus_per_helper@.update(
                d,
                (bonus_total as int / hc as int) as u64,
            )
            &&& *final(room) == (RoomAccount {
                walls: final(room).walls,
                job_completed: final(room).job_completed,
                bonus_per_helper: final(room).bonus_per_helper,
                ..*old(room)
            })
            // The neighbor is the stored one opened, or freshly generated.
            &&& outcome.created_adjacent == (adjacent_room is None)
            &&& (match adjacent_room {
                Some(a) => outcome.adjacent_room.walls@ == a.walls@.update(
                    opposite,
                    crate::room::WALL_OPEN,
                ) && outcome.adjacent_room == (RoomAccount {
                    walls: outcome.adjacent_room.walls,
                    ..a
                }),
                None => crate::room::is_generated_room(
                    outcome.adjacent_room,
                    old(global).season_seed,
                    coords.0,
                    coords.1,
                    RoomAccount::opposite_direction_spec(direction),
                    RoomAccount::base_slots_spec((old(global).depth + 1) as u32),
                    now_slot,
                    player,
                ),
            })
            // The season advances.
            &&& final(global).jobs_completed == jobs_after
            &&& final(global).depth == (if new_depth > old(global).depth {
                new_depth
            } else {
                old(global).depth
            })
            &&& *final(global) == (GlobalAccount {
                jobs_completed: final(global).jobs_completed,
                depth: final(global).depth,
                ..*old(global)
            })
            // The pool pays out the capped bonus, split evenly.
            &&& outcome.bonus_transfer == bonus_total
            &&& outcome.bonus_per_helper == bonus_total as int / hc as int
            &&& outcome.event == (crate::events::JobCompleted {
                room_x: old(room).x,
                room_y: old(room).y,
                direction,
                new_depth: final(global).depth,
                helpers_count: old(room).helper_counts[d],
                reward_per_helper: (STAKE_AMOUNT + bonus_total as int / hc as int) as u64,
            })
            &&& final(room).wf()
            &&& outcome.adjacent_room.wf()
        },
{
    if let Err(e) = authorize_check(
        authority,
        player,
        session,
        session_instruction_bits::COMPLETE_JOB,
        0,
        now_slot,
    ) {
        return Err(e);
    }
    if !RoomAccount::is_valid_direction(direction) {
        return Err(ChainDepthError::InvalidDirection);
    }
    let dir_idx = direction as usize;
    if !room.is_rubble(direction) {
        return Err(ChainDepthError::NotRubble);
    }
    if room.helper_counts[dir_idx] == 0 {
        return Err(ChainDepthError::NoActiveJob);
    }
    if room.job_completed[dir_idx] {
        return Err(ChainDepthError::JobAlreadyCompleted);
    }
    let start = room.start_slot[dir_idx];
    let elapsed: u64 = if now_slot >= start {
        now_slot - start
    } else {
        0
    };
    let progress_now: u64 = if room.progress[dir_idx] >= elapsed {
        room.progress[dir_idx]
    } else {
        elapsed
    };
    if progress_now < room.base_slots[dir_idx] {
        return Err(ChainDepthError::JobNotReady);
    }
    if !player_account.has_active_job(room.x, room.y, direction) {
        return Err(ChainDepthError::NotHelper);
    }
    if global.jobs_completed == u64::MAX {
        return Err(ChainDepthError::Overflow);
    }

    // Every check passed: open the wall and complete the job.
    let helper_count: u64 = room.helper_counts[dir_idx] as u64;
    room.open_wall(direction);
    room.job_completed[dir_idx] = true;

    // Open (or materialize) the neighbor behind the cleared wall.
    let opposite_dir = RoomAccount::opposite_direction(direction);
    let (adjacent_x, adjacent_y) = RoomAccount::adjacent_coords(room.x, room.y, direction);
    let created_adjacent = adjacent_room.is_none();
    let mut adjacent = match adjacent_room {
        Some(a) => a,
        None => crate::room::new_room(
            global.season_seed,
            adjacent_x,
            adjacent_y,
            opposite_dir,
            RoomAccount::calculate_base_slots(global.depth + 1),
            now_slot,
            player,
        ),
    };
    adjacent.open_wall(opposite_dir);

    // Advance the season's frontier and completion count.
    let new_depth = crate::world::calculate_depth(adjacent_x, adjacent_y);
    if new_depth > global.depth {
        global.depth = new_depth;
    }
    global.jobs_completed = global.jobs_completed + 1;

    // Split the capped bonus evenly among the helpers.
    let base_bonus_per_helper = calculate_bonus(global.jobs_completed, helper_count);
    proof {
        lemma_bonus_total_bounded(global.jobs_completed, helper_count);
    }
    let desired_bonus_total = base_bonus_per_helper * helper_count;
    let bonus_total = if desired_bonus_total <= prize_pool_balance {
        desired_bonus_total
    } else {
        prize_pool_balance
    };
    proof {
        vstd::arithmetic::div_mod::lemma_div_basics_5(bonus_total as int, helper_count as int);
    }
    let bonus_per_helper = bonus_total / helper_count;
    room.bonus_per_helper[dir_idx] = bonus_per_helper;

    let event = crate::events::JobCompleted {
        room_x: room.x,
        room_y: room.y,
        direction,
        new_depth: global.depth,
        helpers_count: room.helper_counts[dir_idx],
        reward_per_helper: STAKE_AMOUNT + bonus_per_helper,
    };
    Ok(
        CompleteJobOutcome {
            adjacent_room: adjacent,
            created_adjacent,
            bonus_transfer: bonus_total,
            bonus_per_helper,
            event,
        },
    )
}

/// Joining the same job twice is rejected: once a join has registered a
/// player on a (room, direction), a second join request by the same
/// player on that room and direction — however much later, and whatever
/// else that job's meters say — fails with `AlreadyJoined`, as long as the
/// request itself is authorized.
pub proof fn lemma_rejoin_rejected(
    room0: RoomAccount,
    room1: RoomAccount,
    player0: PlayerAccount,
    player1: PlayerAccount,
    presence: RoomPresence,
    session: Option<SessionAuthority>,
    global: GlobalAccount,
    authority: AccountId,
    player: AccountId,
    direction: u8,
    join_slot: u64,
    now_slot: u64,
)
    requires
        direction < 4,
        room0.walls[direction as int] == WALL_RUBBLE,
        join_applied_room_spec(room0, room1, global, direction, join_slot),
        player1.active_jobs@ == player0.active_jobs@.push(
            crate::player::ActiveJob { x: room0.x, y: room0.y, direction },
        ),
        authorize_decision_spec(
            authority,
            player,
            session,
            session_instruction_bits::JOIN_JOB,
            STAKE_AMOUNT,
            now_slot,
        ) is Ok,
    ensures
        join_job_decision_spec(
            room1,
            player1,
            presence,
            session,
            global,
            authority,
            player,
            direction,
            now_slot,
        ) == Err::<(), ChainDepthError>(ChainDepthError::AlreadyJoined),
{
    let job = crate::player::ActiveJob { x: room0.x, y: room0.y, direction };
    assert(player1.active_jobs@[player0.active_jobs@.len() as int] == job);
    assert(player1.has_active_job_spec(room1.x, room1.y, direction));
}

/// What [`abandon_job`] decides, in the order the checks run.
pub open spec fn abandon_job_decision_spec(
    room: RoomAccount,
    player_account: PlayerAccount,
    session: Option<SessionAuthority>,
    authority: AccountId,
    player: AccountId,
    direction: u8,
    now_slot: u64,
) -> Result<(), ChainDepthError> {
    let auth = authorize_decision_spec(
        authority,
        player,
        session,
        session_instruction_bits::ABANDON_JOB,
        0,
        now_slot,
    );
    if auth is Err {
        auth
    } else if direction >= 4 {
        Err(ChainDepthError::InvalidDirection)
    } else if room.helper_counts[direction as int] == 0 {
        Err(ChainDepthError::NoActiveJob)
    } else if room.job_completed[direction as int] {
        Err(ChainDepthError::JobAlreadyCompleted)
    } else if !player_account.has_active_job_spec(room.x, room.y, direction) {
        Err(ChainDepthError::NotHelper)
    } else {
        Ok(())
    }
}

/// What an abandoning helper gets back and what they forfeit.
#[derive(Clone, Copy, Debug, PartialEq, Eq, Structural)]
pub struct AbandonOutcome {
    /// Escrow owed back to the player.
    pub refund: u64,
    /// Escrow the player forfeits for leaving early.
    pub forfeit: u64,
}

/// Drops the caller's membership in a not-yet-completed job.  The helper
/// reclaims the refund share of their stake and forfeits the rest; the
/// job sheds the helper and their stake, and once its last helper leaves
/// its meters reset so the slot is as joinable as a fresh one.
pub fn abandon_job(
    room: &mut RoomAccount,
    player_account: &mut PlayerAccount,
    session: &mut Option<SessionAuthority>,
    authority: AccountId,
    player: AccountId,
    direction: u8,
    now_slot: u64,
) -> (r: Result<AbandonOutcome, ChainDepthError>)
    requires
        old(room).wf(),
        old(player_account).wf(),
    ensures
        r matches Err(e) ==> Err::<(), ChainDepthError>(e) == abandon_job_decision_spec(
            *old(room),
            *old(player_account),
            *old(session),
            authority,
            player,
            direction,
            now_slot,
        ),
        r is Ok ==> abandon_job_decision_spec(
            *old(room),
            *old(player_account),
            *old(session),
            authority,
            player,
            direction,
            now_slot,
        ) is Ok,
        *final(session) == *old(session),
        r is Err ==> *final(room) == *old(room) && *final(player_account) == *old(
            player_account,
        ),
        r matches Ok(outcome) ==> {
            let d = direction as int;
            let last_helper = old(room).helper_counts[d] == 1;
            &&& outcome.refund == STAKE_AMOUNT * crate::room::ABANDON_REFUND_PERCENT as int / 100
            &&& outcome.forfeit == STAKE_AMOUNT - outcome.refund
            &&& final(room).helper_counts@ == old(room).helper_counts@.update(
                d,
                (old(room).helper_counts[d] - 1) as u32,
            )
            &&& final(room).total_staked@ == old(room).total_staked@.update(
                d,
                (old(room).total_staked[d] - STAKE_AMOUNT) as u64,
            )
            &&& final(room).progress@ == (if last_helper {
                old(room).progress@.update(d, 0u64)
            } else {
                old(room).progress@
            })
            &&& final(room).start_slot@ == (if last_helper {
                old(room).start_slot@.update(d, 0u64)
            } else {
                old(room).start_slot@
            })
            &&& final(room).bonus_per_helper@ == (if last_helper {
                old(room).bonus_per_helper@.update(d, 0u64)
            } else {
                old(room).bonus_per_helper@
            })
            &&& *final(room) == (RoomAccount {
                helper_counts: final(room).helper_counts,
                total_staked: final(room).total_staked,
                progress: final(room).progress,
                start_slot: final(room).start_slot,
                bonus_per_helper: final(room).bonus_per_helper,
                ..*old(room)
            })
            &&& final(player_account).active_jobs@ == old(player_account).active_jobs@.filter(
                |job: crate::player::ActiveJob| job != (crate::player::ActiveJob {
                    x: old(room).x,
                    y: old(room).y,
                    direction,
                }),
            )
            &&& *final(player_account) == (PlayerAccount {
                active_jobs: final(player_account).active_jobs,
                ..*old(player_account)
            })
            &&& !final(player_account).has_active_job_spec(old(room).x, old(room).y, direction)
            &&& final(room).wf()
            &&& final(player_account).wf()
        },
{
    if let Err(e) = authorize_check(
        authority,
        player,
        session,
        session_instruction_bits::ABANDON_JOB,
        0,
        now_slot,
    ) {
        return Err(e);
    }
    if !RoomAccount::is_valid_direction(direction) {
        return Err(ChainDepthError::InvalidDirection);
    }
    let dir_idx = direction as usize;
    if room.helper_counts[dir_idx] == 0 {
        return Err(ChainDepthError::NoActiveJob);
    }
    if room.job_completed[dir_idx] {
        return Err(ChainDepthError::JobAlreadyCompleted);
    }
    if !player_account.has_active_job(room.x, room.y, direction) {
        return Err(ChainDepthError::NotHelper);
    }

    // Every check passed: shed the helper and their stake.
    proof {
        assert(room.total_staked[dir_idx as int] == room.helper_counts[dir_idx as int]
            * STAKE_AMOUNT);
        assert(room.helper_counts[dir_idx as int] >= 1);
    }
    room.helper_counts[dir_idx] = room.helper_counts[dir_idx] - 1;
    room.total_staked[dir_idx] = room.total_staked[dir_idx] - STAKE_AMOUNT;
    if room.helper_counts[dir_idx] == 0 {
        room.progress[dir_idx] = 0;
        room.start_slot[dir_idx] = 0;
        room.bonus_per_helper[dir_idx] = 0;
    }
    player_account.remove_job(room.x, room.y, direction);

    let refund = STAKE_AMOUNT * crate::room::ABANDON_REFUND_PERCENT / 100;
    let forfeit = STAKE_AMOUNT - refund;
    Ok(AbandonOutcome { refund, forfeit })
}

} // verus!
