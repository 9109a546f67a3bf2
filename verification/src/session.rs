//! The delegated session-authorization policy.
//!
//! A player's primary key may delegate gameplay to a secondary key under a
//! capability record: an instruction allowlist, a validity window and a
//! cumulative spend cap.  Every mutating operation consults
//! [`authorize_player_action`] before touching any other state.

use vstd::prelude::*;

use crate::errors::ChainDepthError;
use crate::keys::AccountId;

verus! {

/// One delegation record per (player, delegate key) pair.
#[derive(Clone, Copy, Debug, PartialEq, Eq, Structural)]
pub struct SessionAuthority {
    /// Player whose authority is delegated.
    pub player: AccountId,
    /// Secondary key allowed to act for the player.
    pub delegate: AccountId,
    /// First slot at which the session is valid.
    pub start_slot: u64,
    /// First slot at which the session is no longer valid.
    pub end_slot: u64,
    /// Bitmask of the instructions the delegate may run.
    pub allowed_instructions: u32,
    /// Cumulative spend the delegate may still authorize.
    pub remaining_spend_cap: u64,
    /// Whether the session is active (a revoked session stays stored but
    /// authorizes nothing).
    pub is_active: bool,
}

/// What [`authorize_player_action`] decides for a given signer, player,
/// session record and request, at a given slot.  The rules run in order:
/// the primary key needs no session; otherwise a matching, current, active
/// session must allow the instruction and cover the spend.
pub open spec fn authorize_decision_spec(
    authority: AccountId,
    player: AccountId,
    session: Option<SessionAuthority>,
    instruction_bit: u32,
    spend_amount: u64,
    now_slot: u64,
) -> Result<(), ChainDepthError> {
    if authority == player {
        Ok(())
    } else {
        match session {
            None => Err(ChainDepthError::Unauthorized),
            Some(s) => {
                if s.player != player || s.delegate != authority {
                    Err(ChainDepthError::Unauthorized)
                } else if !(s.start_slot <= now_slot && now_slot < s.end_slot) {
                    Err(ChainDepthError::SessionExpired)
                } else if !s.is_active {
                    Err(ChainDepthError::SessionInactive)
                } else if s.allowed_instructions & instruction_bit == 0 {
                    Err(ChainDepthError::SessionInstructionNotAllowed)
                } else if s.remaining_spend_cap < spend_amount {
                    Err(ChainDepthError::SessionSpendCapExceeded)
                } else {
                    Ok(())
                }
            },
        }
    }
}

/// The session record after a decision: an authorized spend through a
/// session debits its cap; everything else leaves the record unchanged.
pub open spec fn authorize_debit_spec(
    authority: AccountId,
    player: AccountId,
    session: Option<SessionAuthority>,
    instruction_bit: u32,
    spend_amount: u64,
    now_slot: u64,
) -> Option<SessionAuthority> {
    if authority != player && authorize_decision_spec(
        authority,
        player,
        session,
        instruction_bit,
        spend_amount,
        now_slot,
    ) is Ok {
        match session {
            Some(s) => Some(
                SessionAuthority {
                    remaining_spend_cap: (s.remaining_spend_cap - spend_amount) as u64,
                    ..s
                },
            ),
            None => None,
        }
    } else {
        session
    }
}

/// Decides whether `authority` may run the instruction for `player` and, on
/// an authorized delegated spend, debits the session's remaining cap.
///
/// The primary key authorizes unconditionally and touches no session.  A
/// delegate needs a session record that names it, is within its validity
/// window, is active, allows the instruction and still covers the spend;
/// the checks run in that order and the first failure decides the error.
pub fn authorize_player_action(
    authority: AccountId,
    player: AccountId,
    session: &mut Option<SessionAuthority>,
    instruction_bit: u32,
    spend_amount: u64,
    now_slot: u64,
) -> (r: Result<(), ChainDepthError>)
    ensures
        r == authorize_decision_spec(
            authority,
            player,
            *old(session),
            instruction_bit,
            spend_amount,
            now_slot,
        ),
        *final(session) == authorize_debit_spec(
            authority,
            player,
            *old(session),
            instruction_bit,
            spend_amount,
            now_slot,
        ),
        r is Err ==> *final(session) == *old(session),
{
    if authority == player {
        return Ok(());
    }
    match session {
        None => Err(ChainDepthError::Unauthorized),
        Some(s) => {
            if s.player != player || s.delegate != authority {
                Err(ChainDepthError::Unauthorized)
            } else if !(s.start_slot <= now_slot && now_slot < s.end_slot) {
                Err(ChainDepthError::SessionExpired)
            } else if !s.is_active {
                Err(ChainDepthError::SessionInactive)
            } else if s.allowed_instructions & instruction_bit == 0 {
                Err(ChainDepthError::SessionInstructionNotAllowed)
            } else if s.remaining_spend_cap < spend_amount {
                Err(ChainDepthError::SessionSpendCapExceeded)
            } else {
                s.remaining_spend_cap = s.remaining_spend_cap - spend_amount;
                Ok(())
            }
        },
    }
}

/// Decides like [`authorize_player_action`] but debits nothing.  An
/// operation checks its authorization first, runs every other check, and
/// debits through [`authorize_player_action`] only once the whole action
/// is sure to go through, so a rejected action leaves the session's cap
/// untouched.
pub fn authorize_check(
    authority: AccountId,
    player: AccountId,
    session: &Option<SessionAuthority>,
    instruction_bit: u32,
    spend_amount: u64,
    now_slot: u64,
) -> (r: Result<(), ChainDepthError>)
    ensures
        r == authorize_decision_spec(
            authority,
            player,
            *session,
            instruction_bit,
            spend_amount,
            now_slot,
        ),
{
    if authority == player {
        return Ok(());
    }
    match session {
        None => Err(ChainDepthError::Unauthorized),
        Some(s) => {
            if s.player != player || s.delegate != authority {
                Err(ChainDepthError::Unauthorized)
            } else if !(s.start_slot <= now_slot && now_slot < s.end_slot) {
                Err(ChainDepthError::SessionExpired)
            } else if !s.is_active {
                Err(ChainDepthError::SessionInactive)
            } else if s.allowed_instructions & instruction_bit == 0 {
                Err(ChainDepthError::SessionInstructionNotAllowed)
            } else if s.remaining_spend_cap < spend_amount {
                Err(ChainDepthError::SessionSpendCapExceeded)
            } else {
                Ok(())
            }
        },
    }
}

impl SessionAuthority {
    /// Creates a delegation record.  The expiry window must not be
    /// inverted or empty and the allowlist must name at least one
    /// instruction; a fresh session is active.
    pub fn new(
        player: AccountId,
        delegate: AccountId,
        start_slot: u64,
        end_slot: u64,
        allowed_instructions: u32,
        spend_cap: u64,
    ) -> (r: Result<SessionAuthority, ChainDepthError>)
        ensures
            r == (if start_slot >= end_slot {
                Err::<SessionAuthority, ChainDepthError>(ChainDepthError::InvalidSessionExpiry)
            } else if allowed_instructions == 0 {
                Err::<SessionAuthority, ChainDepthError>(ChainDepthError::InvalidSessionAllowlist)
            } else {
                Ok::<SessionAuthority, ChainDepthError>(
                    SessionAuthority {
                        player,
                        delegate,
                        start_slot,
                        end_slot,
                        allowed_instructions,
                        remaining_spend_cap: spend_cap,
                        is_active: true,
                    },
                )
            }),
    {
        if start_slot >= end_slot {
            return Err(ChainDepthError::InvalidSessionExpiry);
        }
        if allowed_instructions == 0 {
            return Err(ChainDepthError::InvalidSessionAllowlist);
        }
        Ok(
            SessionAuthority {
                player,
                delegate,
                start_slot,
                end_slot,
                allowed_instructions,
                remaining_spend_cap: spend_cap,
                is_active: true,
            },
        )
    }

    /// Deactivates the session.  An inactive session authorizes nothing
    /// but stays stored.
    pub fn revoke(&mut self)
        ensures
            *final(self) == (SessionAuthority { is_active: false, ..*old(self) }),
    {
        self.is_active = false;
    }
}

/// The primary key always bypasses session checks: whatever session record
/// is or is not stored, and whatever it allows, a request signed by the
/// player itself is authorized and no session is consulted or debited.
pub proof fn lemma_primary_signer_bypasses_sessions(
    player: AccountId,
    session: Option<SessionAuthority>,
    instruction_bit: u32,
    spend_amount: u64,
    now_slot: u64,
)
    ensures
        authorize_decision_spec(player, player, session, instruction_bit, spend_amount, now_slot)
            is Ok,
        authorize_debit_spec(player, player, session, instruction_bit, spend_amount, now_slot)
            == session,
{
}

/// An authorized action never increases a session's spend cap, and a
/// delegated spend of zero debits nothing: delegation only ever narrows
/// what the delegate can still spend.
pub proof fn lemma_spend_cap_monotonic(
    authority: AccountId,
    player: AccountId,
    session: Option<SessionAuthority>,
    instruction_bit: u32,
    spend_amount: u64,
    now_slot: u64,
)
    ensures
        match (
            session,
            authorize_debit_spec(
                authority,
                player,
                session,
                instruction_bit,
                spend_amount,
                now_slot,
            ),
        ) {
            (Some(before), Some(after)) => after.remaining_spend_cap
                <= before.remaining_spend_cap,
            (None, after) => after is None,
            (Some(_), None) => false,
        },
        spend_amount == 0 ==> authorize_debit_spec(
            authority,
            player,
            session,
            instruction_bit,
            spend_amount,
            now_slot,
        ) == session,
{
}

} // verus!
