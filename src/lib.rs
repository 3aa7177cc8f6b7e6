//! Attendance badges for events and per-user reputation, kept in records at
//! program-derived addresses and changed only through checked transitions.

pub mod address;
pub mod ledger;
pub mod lemmas;
pub mod state;
pub mod table;

pub use address::{derive_event_address, derive_profile_address, Address};
pub use ledger::{check_mint_badge, close_event, create_event, mint_badge, update_reputation, Ledger};
pub use state::{
    CloseEvent, CreateEvent, ErrorCode, Event, IssuanceError, MintBadge, MintOrder, UpdateReputation,
    UserProfile, BASE_XP, MAX_ATTENDED_EVENTS, MAX_EVENT_ID_LEN, MAX_EVENT_NAME_LEN, MAX_METADATA_URI_LEN,
};
