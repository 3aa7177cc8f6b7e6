//! The records of the program, the accounts an instruction names, and its errors.
use crate::address::Address;
use vstd::prelude::*;

verus! {

/// Most bytes of an event identifier.
pub const MAX_EVENT_ID_LEN: usize = 32;

/// Most bytes of an event name.
pub const MAX_EVENT_NAME_LEN: usize = 100;

/// Most bytes of an event's metadata URI.
pub const MAX_METADATA_URI_LEN: usize = 200;

/// Most entries in a profile's attendance history.
pub const MAX_ATTENDED_EVENTS: usize = 50;

/// Reputation awarded for each badge.
pub const BASE_XP: u32 = 10;

/// The UTF-8 bytes of a string.
pub open spec fn utf8(s: Seq<char>) -> Seq<u8> {
    vstd::utf8::encode_utf8(s)
}

/// An event: one per organizer and event identifier.
#[derive(Debug)]
pub struct Event {
    pub organizer: Address,
    pub event_id: String,
    pub event_name: String,
    pub event_date: i64,
    pub max_attendees: u32,
    pub current_attendees: u32,
    pub metadata_uri: String,
    pub is_active: bool,
    pub bump: u8,
}

/// An event, with its strings as character sequences.
pub struct EventView {
    pub organizer: Address,
    pub event_id: Seq<char>,
    pub event_name: Seq<char>,
    pub event_date: i64,
    pub max_attendees: u32,
    pub current_attendees: u32,
    pub metadata_uri: Seq<char>,
    pub is_active: bool,
    pub bump: u8,
}

impl View for Event {
    type V = EventView;

    open spec fn view(&self) -> EventView {
        EventView {
            organizer: self.organizer,
            event_id: self.event_id@,
            event_name: self.event_name@,
            event_date: self.event_date,
            max_attendees: self.max_attendees,
            current_attendees: self.current_attendees,
            metadata_uri: self.metadata_uri@,
            is_active: self.is_active,
            bump: self.bump,
        }
    }
}

impl EventView {
    /// Occupancy within capacity, strings within their limits.
    pub open spec fn wf(&self) -> bool {
        &&& self.current_attendees <= self.max_attendees
        &&& utf8(self.event_id).len() <= MAX_EVENT_ID_LEN
        &&& utf8(self.event_name).len() <= MAX_EVENT_NAME_LEN
        &&& utf8(self.metadata_uri).len() <= MAX_METADATA_URI_LEN
    }
}

/// What one user has earned: badges, reputation and the events attended.
#[derive(Debug)]
pub struct UserProfile {
    pub user: Address,
    pub total_badges: u32,
    pub reputation_score: u32,
    pub attended_events: Vec<Address>,
}

/// A user profile, with its history as a sequence.
pub struct UserProfileView {
    pub user: Address,
    pub total_badges: u32,
    pub reputation_score: u32,
    pub attended_events: Seq<Address>,
}

impl View for UserProfile {
    type V = UserProfileView;

    open spec fn view(&self) -> UserProfileView {
        UserProfileView {
            user: self.user,
            total_badges: self.total_badges,
            reputation_score: self.reputation_score,
            attended_events: self.attended_events@,
        }
    }
}

impl UserProfileView {
    /// The profile of `user` before any attendance.
    pub open spec fn fresh(user: Address) -> UserProfileView {
        UserProfileView { user, total_badges: 0, reputation_score: 0, attended_events: seq![] }
    }

    /// The attendance history within its cap.
    pub open spec fn wf(&self) -> bool {
        self.attended_events.len() <= MAX_ATTENDED_EVENTS
    }
}

impl UserProfile {
    /// The profile of `user` before any attendance.
    pub fn new(user: Address) -> (r: UserProfile)
        ensures
            r@ == UserProfileView::fresh(user),
    {
        UserProfile { user, total_badges: 0, reputation_score: 0, attended_events: Vec::new() }
    }
}

/// Why an instruction failed; a failed instruction changes nothing.
/// `AlreadyAttended` is reserved: no instruction refuses a second badge of
/// the same event for the same attendee.
#[derive(Clone, Copy, Debug, PartialEq, Eq, Structural)]
pub enum ErrorCode {
    EventInactive,
    EventFull,
    AlreadyAttended,
    AlreadyExists,
    NotFound,
    RecordTooLarge,
    Unauthorized,
    IssuanceFailed,
    AttendanceHistoryFull,
    CounterOverflow,
    AddressUnavailable,
}

/// Why the token program refused to mint a badge.
#[derive(Clone, Copy, Debug, PartialEq, Eq, Structural)]
pub enum IssuanceError {
    AuthorityInvalid,
    HoldingAccountMissing,
}

/// The accounts of `create_event`: the signing organizer.
#[derive(Clone, Copy, Debug)]
pub struct CreateEvent {
    pub organizer: Address,
}

/// The accounts of `mint_badge`: the event attended and the signing attendee.
#[derive(Clone, Copy, Debug)]
pub struct MintBadge {
    pub event: Address,
    pub attendee: Address,
}

/// The accounts of `update_reputation`: the profile and the signing authority.
#[derive(Clone, Copy, Debug)]
pub struct UpdateReputation {
    pub user_profile: Address,
    pub authority: Address,
}

/// The accounts of `close_event`: the event and the signer claiming to organize it.
#[derive(Clone, Copy, Debug)]
pub struct CloseEvent {
    pub event: Address,
    pub organizer: Address,
}

/// A badge mint that the event authorizes: `amount` units with `decimals`
/// decimals for `recipient`, signed by the event's address through its seeds.
#[derive(Debug)]
pub struct MintOrder {
    pub authority: Address,
    pub recipient: Address,
    pub signer_seeds: Vec<Vec<u8>>,
    pub amount: u64,
    pub decimals: u8,
}

} // verus!
