use chaindepth::errors::ChainDepthError;
use chaindepth::keys::AccountId;
use chaindepth::session::{authorize_player_action, SessionAuthority};
use chaindepth::session_instruction_bits as bits;

fn key(n: u64) -> AccountId {
    AccountId::new(n, 0, 0, 0)
}

fn session(player: AccountId, delegate: AccountId, allowlist: u32, cap: u64) -> SessionAuthority {
    SessionAuthority::new(player, delegate, 10, 100, allowlist, cap).unwrap()
}

#[test]
fn primary_signer_bypasses_everything() {
    let player = key(1);
    let mut none: Option<SessionAuthority> = None;
    assert!(authorize_player_action(player, player, &mut none, bits::JOIN_JOB, 5, 50).is_ok());

    // Even a session that would reject everything is ignored, and not
    // debited, when the primary key signs.
    let mut some = Some(session(player, key(2), bits::MOVE_PLAYER, 0));
    assert!(authorize_player_action(player, player, &mut some, bits::JOIN_JOB, 5, 999).is_ok());
    assert_eq!(some.unwrap().remaining_spend_cap, 0);
}

#[test]
fn delegate_without_a_session_is_unauthorized() {
    let mut none: Option<SessionAuthority> = None;
    assert_eq!(
        authorize_player_action(key(2), key(1), &mut none, bits::MOVE_PLAYER, 0, 50),
        Err(ChainDepthError::Unauthorized)
    );
}

#[test]
fn session_for_another_pair_is_unauthorized() {
    let mut s = Some(session(key(1), key(2), bits::MOVE_PLAYER, 0));
    assert_eq!(
        authorize_player_action(key(3), key(1), &mut s, bits::MOVE_PLAYER, 0, 50),
        Err(ChainDepthError::Unauthorized)
    );
}

#[test]
fn session_outside_its_window_is_expired() {
    let mut s = Some(session(key(1), key(2), bits::MOVE_PLAYER, 0));
    assert_eq!(
        authorize_player_action(key(2), key(1), &mut s, bits::MOVE_PLAYER, 0, 9),
        Err(ChainDepthError::SessionExpired)
    );
    assert_eq!(
        authorize_player_action(key(2), key(1), &mut s, bits::MOVE_PLAYER, 0, 100),
        Err(ChainDepthError::SessionExpired)
    );
    // The end is exclusive, the start inclusive.
    assert!(authorize_player_action(key(2), key(1), &mut s, bits::MOVE_PLAYER, 0, 10).is_ok());
    assert!(authorize_player_action(key(2), key(1), &mut s, bits::MOVE_PLAYER, 0, 99).is_ok());
}

#[test]
fn revoked_session_is_inactive() {
    let mut record = session(key(1), key(2), bits::MOVE_PLAYER, 0);
    record.revoke();
    let mut s = Some(record);
    assert_eq!(
        authorize_player_action(key(2), key(1), &mut s, bits::MOVE_PLAYER, 0, 50),
        Err(ChainDepthError::SessionInactive)
    );
}

#[test]
fn missing_allowlist_bit_is_rejected() {
    // Everything else about the session is valid; only the JOIN_JOB bit
    // is missing from the allowlist.
    let mut s = Some(session(key(1), key(2), bits::MOVE_PLAYER | bits::LOOT_CHEST, 1_000_000));
    assert_eq!(
        authorize_player_action(key(2), key(1), &mut s, bits::JOIN_JOB, 0, 50),
        Err(ChainDepthError::SessionInstructionNotAllowed)
    );
}

#[test]
fn spend_over_the_cap_is_rejected() {
    let mut s = Some(session(key(1), key(2), bits::JOIN_JOB, 9));
    assert_eq!(
        authorize_player_action(key(2), key(1), &mut s, bits::JOIN_JOB, 10, 50),
        Err(ChainDepthError::SessionSpendCapExceeded)
    );
    // The failed attempt debited nothing.
    assert_eq!(s.unwrap().remaining_spend_cap, 9);
}

#[test]
fn authorized_spend_debits_the_cap() {
    let mut s = Some(session(key(1), key(2), bits::JOIN_JOB, 25));
    assert!(authorize_player_action(key(2), key(1), &mut s, bits::JOIN_JOB, 10, 50).is_ok());
    assert_eq!(s.as_ref().unwrap().remaining_spend_cap, 15);
    // A zero-cost action does not debit.
    assert!(authorize_player_action(key(2), key(1), &mut s, bits::JOIN_JOB, 0, 50).is_ok());
    assert_eq!(s.unwrap().remaining_spend_cap, 15);
}

#[test]
fn session_creation_validates_window_and_allowlist() {
    assert_eq!(
        SessionAuthority::new(key(1), key(2), 100, 100, bits::MOVE_PLAYER, 0).unwrap_err(),
        ChainDepthError::InvalidSessionExpiry
    );
    assert_eq!(
        SessionAuthority::new(key(1), key(2), 100, 10, bits::MOVE_PLAYER, 0).unwrap_err(),
        ChainDepthError::InvalidSessionExpiry
    );
    assert_eq!(
        SessionAuthority::new(key(1), key(2), 10, 100, 0, 0).unwrap_err(),
        ChainDepthError::InvalidSessionAllowlist
    );
    let s = SessionAuthority::new(key(1), key(2), 10, 100, bits::LOOT_BOSS, 7).unwrap();
    assert!(s.is_active);
    assert_eq!(s.remaining_spend_cap, 7);
    assert_eq!(s.player, key(1));
    assert_eq!(s.delegate, key(2));
}

#[test]
fn error_kinds_carry_messages() {
    assert_eq!(ChainDepthError::SessionExpired.message(), "Session has expired");
    assert_eq!(
        ChainDepthError::SessionSpendCapExceeded.message(),
        "Session spend cap exceeded"
    );
    assert_eq!(ChainDepthError::Overflow.message(), "Arithmetic overflow");
}
