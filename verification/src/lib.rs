//! Core logic of a persistent, procedurally generated dungeon economy.
//!
//! Players explore a grid of rooms, cooperatively clear rubble walls by
//! staking value into time-gated jobs, fight room-bound bosses whose health
//! drains as accumulated damage-per-second over elapsed time, and loot
//! one-shot rewards.  Every action on behalf of a player may be delegated to
//! a session key that is checked against an allowlist, an expiry window and
//! a spend cap.
//!
//! The crate holds only the deterministic rules: world generation, room
//! topology, the job and boss state machines, inventories, loot tables and
//! the session authorization policy.  Persistence, token transfers and the
//! clock are the caller's collaborators; every entry point takes the state
//! it touches as plain values and says in its contract exactly how it
//! changes them.

pub mod boss;
pub mod errors;
pub mod events;
pub mod global;
pub mod init;
pub mod inventory;
pub mod item_ids;
pub mod item_types;
pub mod jobs;
pub mod keys;
pub mod loot_receipt;
pub mod loot_tables;
pub mod looting;
pub mod movement;
pub mod player;
pub mod profile;
pub mod room;
pub mod session;
pub mod session_instruction_bits;
pub mod world;

pub use errors::ChainDepthError;
pub use keys::AccountId;
