//! Laws of the instructions, stated over the ledger's model.
use crate::address::{derives, event_seeds, lemma_derivation_deterministic, Address};
use crate::ledger::{
    check_mint_spec, close_event_spec, create_event_spec, mint_badge_spec, update_reputation_spec,
    LedgerView,
};
use crate::state::{utf8, ErrorCode, IssuanceError, BASE_XP, MAX_EVENT_NAME_LEN, MAX_METADATA_URI_LEN};
use vstd::prelude::*;

verus! {

/// An event is created once: after `create_event` succeeded, a second one by
/// the same organizer under the same identifier fails with `AlreadyExists`
/// and leaves the ledger, the first event included, as it was.
pub proof fn lemma_create_event_once(
    l: LedgerView,
    organizer: Address,
    event_id: Seq<char>,
    event_name: Seq<char>,
    event_date: i64,
    max_attendees: u32,
    metadata_uri: Seq<char>,
    event_name2: Seq<char>,
    event_date2: i64,
    max_attendees2: u32,
    metadata_uri2: Seq<char>,
)
    requires
        create_event_spec(l, organizer, event_id, event_name, event_date, max_attendees, metadata_uri).1 is Ok,
        utf8(event_name2).len() <= MAX_EVENT_NAME_LEN,
        utf8(metadata_uri2).len() <= MAX_METADATA_URI_LEN,
    ensures
        ({
            let (l1, r1) = create_event_spec(l, organizer, event_id, event_name, event_date, max_attendees, metadata_uri);
            &&& l1.events.contains_key(r1->Ok_0)
            &&& create_event_spec(l1, organizer, event_id, event_name2, event_date2, max_attendees2, metadata_uri2)
                == (l1, Err::<Seq<u8>, ErrorCode>(ErrorCode::AlreadyExists))
        }),
{
}

/// No event of a well-formed ledger has more attendees than it admits.
pub proof fn lemma_capacity_respected(l: LedgerView, event: Seq<u8>)
    requires
        l.wf(),
        l.events.contains_key(event),
    ensures
        l.events[event].current_attendees <= l.events[event].max_attendees,
{
}

/// A badge of a full event is refused with `EventFull`, and no record changes.
pub proof fn lemma_full_event_refuses(
    l: LedgerView,
    event: Address,
    attendee: Address,
    issuance: Result<(), IssuanceError>,
)
    requires
        l.events.contains_key(event@),
        l.events[event@].is_active,
        l.events[event@].current_attendees == l.events[event@].max_attendees,
    ensures
        mint_badge_spec(l, event, attendee, l.events[event@].event_id, issuance)
            == (l, Err::<(), ErrorCode>(ErrorCode::EventFull)),
{
}

/// A badge of a closed event is refused with `EventInactive`, and no record changes.
pub proof fn lemma_inactive_event_refuses(
    l: LedgerView,
    event: Address,
    attendee: Address,
    issuance: Result<(), IssuanceError>,
)
    requires
        l.events.contains_key(event@),
        !l.events[event@].is_active,
    ensures
        mint_badge_spec(l, event, attendee, l.events[event@].event_id, issuance)
            == (l, Err::<(), ErrorCode>(ErrorCode::EventInactive)),
{
}

/// A successful badge adds exactly one attendee to the event and, to the
/// attendee's profile, one badge, `BASE_XP` reputation and one history entry;
/// every other record stays as it was.
pub proof fn lemma_mint_badge_effect(
    l: LedgerView,
    event: Address,
    attendee: Address,
    event_id: Seq<char>,
    issuance: Result<(), IssuanceError>,
)
    requires
        l.wf(),
        mint_badge_spec(l, event, attendee, event_id, issuance).1 is Ok,
    ensures
        ({
            let l1 = mint_badge_spec(l, event, attendee, event_id, issuance).0;
            let p = check_mint_spec(l, event@, attendee, event_id)->Ok_0;
            let before = l.profile_or_fresh(p, attendee);
            let after = l1.profiles[p];
            &&& issuance is Ok
            &&& l1.program_id == l.program_id
            &&& l1.events.contains_key(event@)
            &&& l1.events[event@].current_attendees == l.events[event@].current_attendees + 1
            &&& l1.events[event@].is_active == l.events[event@].is_active
            &&& l1.events.remove(event@) == l.events.remove(event@)
            &&& l1.profiles.contains_key(p)
            &&& after.user == attendee
            &&& after.total_badges == before.total_badges + 1
            &&& after.reputation_score == before.reputation_score + BASE_XP
            &&& after.attended_events == before.attended_events.push(event)
            &&& l1.profiles.remove(p) == l.profiles.remove(p)
        }),
{
    let l1 = mint_badge_spec(l, event, attendee, event_id, issuance).0;
    let p = check_mint_spec(l, event@, attendee, event_id)->Ok_0;
    assert(l1.events.remove(event@) =~= l.events.remove(event@));
    assert(l1.profiles.remove(p) =~= l.profiles.remove(p));
}

/// Only the organizer closes an event: anyone else is refused with
/// `Unauthorized` and the event stays as it was.
pub proof fn lemma_close_by_stranger_refused(l: LedgerView, event: Seq<u8>, signer: Address)
    requires
        l.events.contains_key(event),
        l.events[event].organizer@ != signer@,
    ensures
        close_event_spec(l, event, signer) == (l, Err::<(), ErrorCode>(ErrorCode::Unauthorized)),
{
}

/// The organizer's close succeeds and leaves the event inactive, so that the
/// next badge of it is refused with `EventInactive`.
pub proof fn lemma_close_then_mint_refused(
    l: LedgerView,
    event: Address,
    attendee: Address,
    event_id: Seq<char>,
    issuance: Result<(), IssuanceError>,
)
    requires
        l.events.contains_key(event@),
    ensures
        ({
            let (l1, r) = close_event_spec(l, event@, l.events[event@].organizer);
            &&& r is Ok
            &&& !l1.events[event@].is_active
            &&& event_id == l.events[event@].event_id ==> mint_badge_spec(l1, event, attendee, event_id, issuance)
                == (l1, Err::<(), ErrorCode>(ErrorCode::EventInactive))
        }),
{
}

/// A closed event stays closed: no instruction makes it active again or removes it.
pub proof fn lemma_closed_stays_closed(
    l: LedgerView,
    event: Seq<u8>,
    organizer: Address,
    event_id: Seq<char>,
    event_name: Seq<char>,
    event_date: i64,
    max_attendees: u32,
    metadata_uri: Seq<char>,
    mint_event: Address,
    attendee: Address,
    mint_event_id: Seq<char>,
    issuance: Result<(), IssuanceError>,
    profile: Seq<u8>,
    bonus_xp: u32,
    close_event: Seq<u8>,
    signer: Address,
)
    requires
        l.events.contains_key(event),
        !l.events[event].is_active,
    ensures
        ({
            let after_create = create_event_spec(l, organizer, event_id, event_name, event_date, max_attendees, metadata_uri).0;
            let after_mint = mint_badge_spec(l, mint_event, attendee, mint_event_id, issuance).0;
            let after_reward = update_reputation_spec(l, profile, bonus_xp).0;
            let after_close = close_event_spec(l, close_event, signer).0;
            &&& after_create.events.contains_key(event) && !after_create.events[event].is_active
            &&& after_mint.events.contains_key(event) && !after_mint.events[event].is_active
            &&& after_reward.events.contains_key(event) && !after_reward.events[event].is_active
            &&& after_close.events.contains_key(event) && !after_close.events[event].is_active
        }),
{
}

/// Deriving the address of one event twice gives the same address and bump seed.
pub proof fn lemma_event_address_stable(
    program_id: Seq<u8>,
    event_id: Seq<u8>,
    organizer: Seq<u8>,
    r1: Option<(Address, u8)>,
    r2: Option<(Address, u8)>,
)
    requires
        derives(event_seeds(event_id, organizer), program_id, r1),
        derives(event_seeds(event_id, organizer), program_id, r2),
    ensures
        r1 == r2,
{
    lemma_derivation_deterministic(event_seeds(event_id, organizer), program_id, r1, r2);
}

} // verus!
