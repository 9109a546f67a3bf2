//! Creating or updating a player's cosmetic profile, with the one-time
//! starter pickaxe grant.

use vstd::prelude::*;

use crate::errors::ChainDepthError;
use crate::inventory::{add_item_decision_spec, add_item_result_spec, InventoryAccount};
use crate::item_ids;
use crate::keys::AccountId;
use crate::player::{PlayerAccount, PlayerProfile, RoomPresence, DEFAULT_SKIN_ID};
use crate::session::{authorize_check, authorize_decision_spec, SessionAuthority};
use crate::session_instruction_bits;

verus! {

/// Longest display name accepted, in encoded bytes.
pub const MAX_DISPLAY_NAME_BYTES: usize = 24;

/// Durability the starter pickaxe is granted with.
pub const STARTER_PICKAXE_DURABILITY: u16 = 80;

/// Whether the one-time starter grant is still owed: a never-written
/// profile owes it, a written one only while its flag is clear.
pub open spec fn starter_grant_owed_spec(profile: PlayerProfile) -> bool {
    profile.owner.is_zeroed_spec() || !profile.starter_pickaxe_granted
}

/// What [`create_player_profile`] decides, in the order the checks run:
/// the session policy, the name length, and — only when the starter grant
/// is still owed — whether the inventory can take the pickaxe.
pub open spec fn create_player_profile_decision_spec(
    profile: PlayerProfile,
    inventory: InventoryAccount,
    session: Option<SessionAuthority>,
    authority: AccountId,
    player: AccountId,
    display_name: Seq<char>,
    now_slot: u64,
) -> Result<(), ChainDepthError> {
    let auth = authorize_decision_spec(
        authority,
        player,
        session,
        session_instruction_bits::CREATE_PLAYER_PROFILE,
        0,
        now_slot,
    );
    if auth is Err {
        auth
    } else if vstd::utf8::encode_utf8(display_name).len() > MAX_DISPLAY_NAME_BYTES {
        Err(ChainDepthError::DisplayNameTooLong)
    } else if starter_grant_owed_spec(profile) {
        add_item_decision_spec(
            inventory.items@,
            item_ids::BRONZE_PICKAXE,
            1,
            STARTER_PICKAXE_DURABILITY,
        )
    } else {
        Ok(())
    }
}

/// Creates or updates the player's cosmetic profile: the skin and display
/// name are set, and the first such call also grants the starter pickaxe
/// into the inventory (equipping it if nothing is equipped).  A rejected
/// call — a name over the byte limit, or an inventory that cannot take
/// the grant — changes nothing.
pub fn create_player_profile(
    profile: &mut PlayerProfile,
    inventory: &mut InventoryAccount,
    player_account: &mut PlayerAccount,
    presence: &mut RoomPresence,
    session: &mut Option<SessionAuthority>,
    authority: AccountId,
    player: AccountId,
    skin_id: u16,
    display_name: String,
    now_slot: u64,
) -> (r: Result<(), ChainDepthError>)
    requires
        old(inventory).wf(),
        old(inventory).owner.is_zeroed_spec() ==> old(inventory).items@ == Seq::<
            crate::inventory::InventoryItem,
        >::empty(),
    ensures
        r == create_player_profile_decision_spec(
            *old(profile),
            *old(inventory),
            *old(session),
            authority,
            player,
            display_name@,
            now_slot,
        ),
        *final(session) == *old(session),
        r is Err ==> *final(profile) == *old(profile) && *final(inventory) == *old(inventory)
            && *final(player_account) == *old(player_account) && *final(presence) == *old(
            presence,
        ),
        r is Ok ==> {
            let fresh_profile = old(profile).owner.is_zeroed_spec();
            let granting = starter_grant_owed_spec(*old(profile));
            let equipping = granting && old(player_account).equipped_item_id == 0;
            &&& final(profile).owner == (if fresh_profile {
                player
            } else {
                old(profile).owner
            })
            &&& final(profile).skin_id == skin_id
            &&& final(profile).display_name@ == display_name@
            &&& final(profile).starter_pickaxe_granted
            &&& final(inventory).owner == (if old(inventory).owner.is_zeroed_spec() {
                player
            } else {
                old(inventory).owner
            })
            &&& final(inventory).items@ == (if granting {
                add_item_result_spec(
                    old(inventory).items@,
                    item_ids::BRONZE_PICKAXE,
                    1,
                    STARTER_PICKAXE_DURABILITY,
                )
            } else {
                old(inventory).items@
            })
            &&& *final(player_account) == (PlayerAccount {
                equipped_item_id: if equipping {
                    item_ids::BRONZE_PICKAXE
                } else {
                    old(player_account).equipped_item_id
                },
                ..*old(player_account)
            })
            &&& *final(presence) == (RoomPresence {
                skin_id,
                equipped_item_id: final(player_account).equipped_item_id,
                ..*old(presence)
            })
            &&& final(inventory).wf()
        },
{
    if let Err(e) = authorize_check(
        authority,
        player,
        session,
        session_instruction_bits::CREATE_PLAYER_PROFILE,
        0,
        now_slot,
    ) {
        return Err(e);
    }
    if display_name.as_str().as_bytes().len() > MAX_DISPLAY_NAME_BYTES {
        return Err(ChainDepthError::DisplayNameTooLong);
    }

    // Grant the starter pickaxe first: it is the one step that can still
    // fail, and a failed grant must leave everything untouched.
    let granting = profile.owner.is_zeroed() || !profile.starter_pickaxe_granted;
    if granting {
        if let Err(e) = inventory.add_item(
            item_ids::BRONZE_PICKAXE,
            1,
            STARTER_PICKAXE_DURABILITY,
        ) {
            return Err(e);
        }
        if player_account.equipped_item_id == 0 {
            player_account.equipped_item_id = item_ids::BRONZE_PICKAXE;
        }
    }
    if inventory.owner.is_zeroed() {
        inventory.owner = player;
    }
    if profile.owner.is_zeroed() {
        profile.owner = player;
    }
    profile.skin_id = skin_id;
    profile.display_name = display_name;
    profile.starter_pickaxe_granted = true;

    presence.skin_id = profile.skin_id;
    presence.equipped_item_id = player_account.equipped_item_id;
    Ok(())
}

} // verus!
