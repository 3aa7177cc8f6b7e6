//! The program's records and its instructions: create an event, mint a badge,
//! award reputation, close an event. Each instruction either applies in full
//! or fails and leaves every record as it was.
use crate::address::{
    derive_event_address, derive_profile_address, event_seeds, profile_seeds, program_address,
    Address,
};
use crate::state::{
    utf8, CloseEvent, CreateEvent, ErrorCode, Event, EventView, IssuanceError, MintBadge,
    MintOrder, UpdateReputation, UserProfile, UserProfileView, BASE_XP, MAX_ATTENDED_EVENTS,
    MAX_EVENT_ID_LEN, MAX_EVENT_NAME_LEN, MAX_METADATA_URI_LEN,
};
use crate::table::Table;
use vstd::prelude::*;

verus! {

/// The records of one program: events and profiles by the bytes of their address.
pub struct LedgerView {
    pub program_id: Seq<u8>,
    pub events: Map<Seq<u8>, EventView>,
    pub profiles: Map<Seq<u8>, UserProfileView>,
}

impl LedgerView {
    /// Each record is well formed and lies at the address derived from its own key.
    pub open spec fn wf(&self) -> bool {
        &&& forall|k: Seq<u8>| #[trigger]
            self.events.contains_key(k) ==> {
                let e = self.events[k];
                &&& e.wf()
                &&& program_address(event_seeds(utf8(e.event_id), e.organizer@), self.program_id)
                    == Some((k, e.bump))
            }
        &&& forall|k: Seq<u8>| #[trigger]
            self.profiles.contains_key(k) ==> {
                let p = self.profiles[k];
                &&& p.wf()
                &&& exists|bump: u8|
                    program_address(profile_seeds(p.user@), self.program_id) == Some((k, bump))
            }
    }

    /// The profile stored at `k`, or the fresh profile of `user` where none is.
    pub open spec fn profile_or_fresh(&self, k: Seq<u8>, user: Address) -> UserProfileView {
        if self.profiles.contains_key(k) {
            self.profiles[k]
        } else {
            UserProfileView::fresh(user)
        }
    }
}

/// The outcome of `create_event`: the new ledger and the event's address or the error.
pub open spec fn create_event_spec(
    l: LedgerView,
    organizer: Address,
    event_id: Seq<char>,
    event_name: Seq<char>,
    event_date: i64,
    max_attendees: u32,
    metadata_uri: Seq<char>,
) -> (LedgerView, Result<Seq<u8>, ErrorCode>) {
    if utf8(event_id).len() > MAX_EVENT_ID_LEN || utf8(event_name).len() > MAX_EVENT_NAME_LEN
        || utf8(metadata_uri).len() > MAX_METADATA_URI_LEN {
        (l, Err(ErrorCode::RecordTooLarge))
    } else {
        match program_address(event_seeds(utf8(event_id), organizer@), l.program_id) {
            None => (l, Err(ErrorCode::AddressUnavailable)),
            Some((k, bump)) => if l.events.contains_key(k) {
                (l, Err(ErrorCode::AlreadyExists))
            } else {
                let e = EventView {
                    organizer,
                    event_id,
                    event_name,
                    event_date,
                    max_attendees,
                    current_attendees: 0,
                    metadata_uri,
                    is_active: true,
                    bump,
                };
                (LedgerView { events: l.events.insert(k, e), ..l }, Ok(k))
            },
        }
    }
}

/// The checks of `mint_badge` before the badge is minted: the address of the
/// attendee's profile where they pass, else the error.
pub open spec fn check_mint_spec(
    l: LedgerView,
    event: Seq<u8>,
    attendee: Address,
    event_id: Seq<char>,
) -> Result<Seq<u8>, ErrorCode> {
    if !l.events.contains_key(event) || l.events[event].event_id != event_id {
        Err(ErrorCode::NotFound)
    } else if !l.events[event].is_active {
        Err(ErrorCode::EventInactive)
    } else if l.events[event].current_attendees >= l.events[event].max_attendees {
        Err(ErrorCode::EventFull)
    } else {
        match program_address(profile_seeds(attendee@), l.program_id) {
            None => Err(ErrorCode::AddressUnavailable),
            Some((p, _)) => {
                let prof = l.profile_or_fresh(p, attendee);
                if prof.attended_events.len() >= MAX_ATTENDED_EVENTS {
                    Err(ErrorCode::AttendanceHistoryFull)
                } else if prof.total_badges >= u32::MAX || prof.reputation_score + BASE_XP
                    > u32::MAX {
                    Err(ErrorCode::CounterOverflow)
                } else {
                    Ok(p)
                }
            },
        }
    }
}

/// The ledger after a badge of the event at `event` went to `attendee`, whose
/// profile is at `p`.
pub open spec fn record_attendance(
    l: LedgerView,
    event: Seq<u8>,
    event_addr: Address,
    p: Seq<u8>,
    attendee: Address,
) -> LedgerView {
    let e = l.events[event];
    let prof = l.profile_or_fresh(p, attendee);
    LedgerView {
        events: l.events.insert(event, EventView { current_attendees: (e.current_attendees + 1) as u32, ..e }),
        profiles: l.profiles.insert(
            p,
            UserProfileView {
                user: attendee,
                total_badges: (prof.total_badges + 1) as u32,
                reputation_score: (prof.reputation_score + BASE_XP) as u32,
                attended_events: prof.attended_events.push(event_addr),
            },
        ),
        ..l
    }
}

/// The outcome of `mint_badge`, given what the token program answered.
pub open spec fn mint_badge_spec(
    l: LedgerView,
    event: Address,
    attendee: Address,
    event_id: Seq<char>,
    issuance: Result<(), IssuanceError>,
) -> (LedgerView, Result<(), ErrorCode>) {
    match check_mint_spec(l, event@, attendee, event_id) {
        Err(e) => (l, Err(e)),
        Ok(p) => match issuance {
            Err(_) => (l, Err(ErrorCode::IssuanceFailed)),
            Ok(()) => (record_attendance(l, event@, event, p, attendee), Ok(())),
        },
    }
}

/// The outcome of `update_reputation`.
pub open spec fn update_reputation_spec(l: LedgerView, profile: Seq<u8>, bonus_xp: u32) -> (
    LedgerView,
    Result<(), ErrorCode>,
) {
    if !l.profiles.contains_key(profile) {
        (l, Err(ErrorCode::NotFound))
    } else if l.profiles[profile].reputation_score + bonus_xp > u32::MAX {
        (l, Err(ErrorCode::CounterOverflow))
    } else {
        let p = l.profiles[profile];
        (
            LedgerView {
                profiles: l.profiles.insert(
                    profile,
                    UserProfileView { reputation_score: (p.reputation_score + bonus_xp) as u32, ..p },
                ),
                ..l
            },
            Ok(()),
        )
    }
}

/// The outcome of `close_event`. Closing a closed event again succeeds and
/// changes nothing.
pub open spec fn close_event_spec(l: LedgerView, event: Seq<u8>, signer: Address) -> (
    LedgerView,
    Result<(), ErrorCode>,
) {
    if !l.events.contains_key(event) {
        (l, Err(ErrorCode::NotFound))
    } else if l.events[event].organizer@ != signer@ {
        (l, Err(ErrorCode::Unauthorized))
    } else {
        let e = l.events[event];
        (LedgerView { events: l.events.insert(event, EventView { is_active: false, ..e }), ..l }, Ok(()))
    }
}

/// The records of one program.
pub struct Ledger {
    program_id: Address,
    events: Table<Event>,
    profiles: Table<UserProfile>,
}

impl View for Ledger {
    type V = LedgerView;

    closed spec fn view(&self) -> LedgerView {
        LedgerView {
            program_id: self.program_id@,
            events: self.events.view(),
            profiles: self.profiles.view(),
        }
    }
}

impl Ledger {
    /// The tables hold one record per address and the records satisfy `LedgerView::wf`.
    pub closed spec fn wf(&self) -> bool {
        &&& self.events.wf()
        &&& self.profiles.wf()
        &&& self@.wf()
    }

    /// A well-formed ledger holds well-formed records at their derived addresses.
    pub proof fn lemma_view_wf(&self)
        requires
            self.wf(),
        ensures
            self@.wf(),
    {
    }

    /// A ledger of `program_id` with no records.
    pub fn new(program_id: Address) -> (r: Ledger)
        ensures
            r.wf(),
            r@.program_id == program_id@,
            r@.events == Map::<Seq<u8>, EventView>::empty(),
            r@.profiles == Map::<Seq<u8>, UserProfileView>::empty(),
    {
        Ledger { program_id, events: Table::new(), profiles: Table::new() }
    }

    /// The program whose records these are.
    pub fn program_id(&self) -> (r: Address)
        ensures
            r@ == self@.program_id,
    {
        self.program_id
    }

    /// The event stored at `address`, if any.
    pub fn event(&self, address: &Address) -> (r: Option<&Event>)
        requires
            self.wf(),
        ensures
            match r {
                Some(e) => self@.events.contains_key(address@) && e@ == self@.events[address@],
                None => !self@.events.contains_key(address@),
            },
    {
        self.events.get(address)
    }

    /// The profile stored at `address`, if any.
    pub fn profile(&self, address: &Address) -> (r: Option<&UserProfile>)
        requires
            self.wf(),
        ensures
            match r {
                Some(p) => self@.profiles.contains_key(address@) && p@ == self@.profiles[address@],
                None => !self@.profiles.contains_key(address@),
            },
    {
        self.profiles.get(address)
    }
}

/// The bytes of an address, on the error side unchanged.
pub open spec fn address_result(r: Result<Address, ErrorCode>) -> Result<Seq<u8>, ErrorCode> {
    match r {
        Ok(a) => Ok(a@),
        Err(e) => Err(e),
    }
}

/// Creates the event `event_id` of the signing organizer, at the address
/// derived from both, with no attendees and open for attendance.
pub fn create_event(
    ledger: &mut Ledger,
    ctx: &CreateEvent,
    event_id: String,
    event_name: String,
    event_date: i64,
    max_attendees: u32,
    metadata_uri: String,
) -> (r: Result<Address, ErrorCode>)
    requires
        old(ledger).wf(),
    ensures
        final(ledger).wf(),
        (final(ledger)@, address_result(r)) == create_event_spec(
            old(ledger)@,
            ctx.organizer,
            event_id@,
            event_name@,
            event_date,
            max_attendees,
            metadata_uri@,
        ),
{
    let id_bytes = event_id.as_str().as_bytes();
    if id_bytes.len() > MAX_EVENT_ID_LEN || event_name.as_str().as_bytes().len() > MAX_EVENT_NAME_LEN
        || metadata_uri.as_str().as_bytes().len() > MAX_METADATA_URI_LEN {
        return Err(ErrorCode::RecordTooLarge);
    }
    let derived = derive_event_address(&ledger.program_id, id_bytes, &ctx.organizer);
    let (address, bump) = match derived {
        None => return Err(ErrorCode::AddressUnavailable),
        Some(d) => d,
    };
    if ledger.events.contains(&address) {
        return Err(ErrorCode::AlreadyExists);
    }
    let event = Event {
        organizer: ctx.organizer,
        event_id,
        event_name,
        event_date,
        max_attendees,
        current_attendees: 0,
        metadata_uri,
        is_active: true,
        bump,
    };
    let ghost before = ledger@;
    ledger.events.insert(address, event);
    proof {
        assert(ledger@ =~= create_event_spec(before, ctx.organizer, event@.event_id, event@.event_name, event_date, max_attendees, event@.metadata_uri).0);
    }
    Ok(address)
}

/// A copy of a list of addresses.
fn copy_addresses(v: &Vec<Address>) -> (r: Vec<Address>)
    ensures
        r@ == v@,
{
    let mut r: Vec<Address> = Vec::new();
    let mut i: usize = 0;
    while i < v.len()
        invariant
            i <= v@.len(),
            r@ == v@.subrange(0, i as int),
        decreases v@.len() - i,
    {
        r.push(v[i]);
        i = i + 1;
        assert(r@ =~= v@.subrange(0, i as int));
    }
    assert(v@.subrange(0, v@.len() as int) =~= v@);
    r
}

/// The checks that come before a badge is minted for the signing attendee of
/// the event at `ctx.event` named `event_id`, and the mint that the event
/// then authorizes: one indivisible unit for the attendee, signed by the
/// event's address through the seeds it was derived from.
pub fn check_mint_badge(ledger: &Ledger, ctx: &MintBadge, event_id: &String) -> (r: Result<MintOrder, ErrorCode>)
    requires
        ledger.wf(),
    ensures
        match r {
            Ok(order) => {
                let e = ledger@.events[ctx.event@];
                &&& check_mint_spec(ledger@, ctx.event@, ctx.attendee, event_id@) is Ok
                &&& order.authority == ctx.event
                &&& order.recipient == ctx.attendee
                &&& order.amount == 1
                &&& order.decimals == 0
                &&& order.signer_seeds.deep_view() == event_seeds(utf8(e.event_id), e.organizer@).push(seq![e.bump])
            },
            Err(err) => check_mint_spec(ledger@, ctx.event@, ctx.attendee, event_id@) == Err::<Seq<u8>, ErrorCode>(err),
        },
{
    let event = match ledger.events.get(&ctx.event) {
        None => return Err(ErrorCode::NotFound),
        Some(e) => e,
    };
    if event.event_id != *event_id {
        return Err(ErrorCode::NotFound);
    }
    if !event.is_active {
        return Err(ErrorCode::EventInactive);
    }
    if event.current_attendees >= event.max_attendees {
        return Err(ErrorCode::EventFull);
    }
    let (profile_address, _) = match derive_profile_address(&ledger.program_id, &ctx.attendee) {
        None => return Err(ErrorCode::AddressUnavailable),
        Some(d) => d,
    };
    let (attended, badges, score) = match ledger.profiles.get(&profile_address) {
        Some(p) => (p.attended_events.len(), p.total_badges, p.reputation_score),
        None => (0, 0, 0),
    };
    if attended >= MAX_ATTENDED_EVENTS {
        return Err(ErrorCode::AttendanceHistoryFull);
    }
    if badges == u32::MAX || score > u32::MAX - BASE_XP {
        return Err(ErrorCode::CounterOverflow);
    }
    let tag: Vec<u8> = vec![101u8, 118u8, 101u8, 110u8, 116u8];
    let id: Vec<u8> = vstd::slice::slice_to_vec(event.event_id.as_str().as_bytes());
    let org: Vec<u8> = vstd::slice::slice_to_vec(vstd::array::array_as_slice(&event.organizer.bytes));
    let bump: Vec<u8> = vec![event.bump];
    assert(tag.deep_view() =~= crate::address::event_tag());
    assert(id.deep_view() =~= utf8(event@.event_id));
    assert(org.deep_view() =~= event.organizer@);
    assert(bump.deep_view() =~= seq![event.bump]);
    let signer_seeds: Vec<Vec<u8>> = vec![tag, id, org, bump];
    assert(signer_seeds.deep_view() =~= event_seeds(utf8(event@.event_id), event.organizer@).push(seq![event.bump]));
    Ok(MintOrder { authority: ctx.event, recipient: ctx.attendee, signer_seeds, amount: 1, decimals: 0 })
}

/// Mints a badge of the event at `ctx.event` for the signing attendee, given
/// what the token program answered to the mint that `check_mint_badge`
/// authorized: on success one more attendee of the event, and in the
/// attendee's profile (created where it is missing) one more badge, `BASE_XP`
/// more reputation and the event appended to the history. Where a check fails
/// or the mint was refused, nothing changes. The attendee's metadata URI is
/// carried by the instruction and not stored.
pub fn mint_badge(
    ledger: &mut Ledger,
    ctx: &MintBadge,
    event_id: String,
    _attendee_metadata_uri: String,
    issuance: Result<(), IssuanceError>,
) -> (r: Result<(), ErrorCode>)
    requires
        old(ledger).wf(),
    ensures
        final(ledger).wf(),
        (final(ledger)@, r) == mint_badge_spec(old(ledger)@, ctx.event, ctx.attendee, event_id@, issuance),
{
    let checked = check_mint_badge(ledger, ctx, &event_id);
    if let Err(e) = checked {
        return Err(e);
    }
    if issuance.is_err() {
        return Err(ErrorCode::IssuanceFailed);
    }
    let ghost before = ledger@;
    let ghost p = check_mint_spec(before, ctx.event@, ctx.attendee, event_id@)->Ok_0;
    let (profile_address, _) = derive_profile_address(&ledger.program_id, &ctx.attendee).unwrap();
    let updated_event = {
        let e = ledger.events.get(&ctx.event).unwrap();
        Event {
            organizer: e.organizer,
            event_id: e.event_id.clone(),
            event_name: e.event_name.clone(),
            event_date: e.event_date,
            max_attendees: e.max_attendees,
            current_attendees: e.current_attendees + 1,
            metadata_uri: e.metadata_uri.clone(),
            is_active: e.is_active,
            bump: e.bump,
        }
    };
    let updated_profile = match ledger.profiles.get(&profile_address) {
        Some(old_profile) => {
            let mut attended = copy_addresses(&old_profile.attended_events);
            attended.push(ctx.event);
            UserProfile {
                user: ctx.attendee,
                total_badges: old_profile.total_badges + 1,
                reputation_score: old_profile.reputation_score + BASE_XP,
                attended_events: attended,
            }
        },
        None => {
            let mut attended: Vec<Address> = Vec::new();
            attended.push(ctx.event);
            UserProfile { user: ctx.attendee, total_badges: 1, reputation_score: BASE_XP, attended_events: attended }
        },
    };
    ledger.events.set(&ctx.event, updated_event);
    if ledger.profiles.contains(&profile_address) {
        ledger.profiles.set(&profile_address, updated_profile);
    } else {
        ledger.profiles.insert(profile_address, updated_profile);
    }
    proof {
        let after = record_attendance(before, ctx.event@, ctx.event, p, ctx.attendee);
        assert(ledger@.events =~= after.events);
        assert(ledger@.profiles =~= after.profiles);
    }
    Ok(())
}

/// Adds `bonus_xp` to the reputation of the profile at `ctx.user_profile`.
/// Any signer may award it.
pub fn update_reputation(ledger: &mut Ledger, ctx: &UpdateReputation, bonus_xp: u32) -> (r: Result<(), ErrorCode>)
    requires
        old(ledger).wf(),
    ensures
        final(ledger).wf(),
        (final(ledger)@, r) == update_reputation_spec(old(ledger)@, ctx.user_profile@, bonus_xp),
{
    let updated = match ledger.profiles.get(&ctx.user_profile) {
        None => return Err(ErrorCode::NotFound),
        Some(p) => {
            if p.reputation_score > u32::MAX - bonus_xp {
                return Err(ErrorCode::CounterOverflow);
            }
            UserProfile {
                user: p.user,
                total_badges: p.total_badges,
                reputation_score: p.reputation_score + bonus_xp,
                attended_events: copy_addresses(&p.attended_events),
            }
        },
    };
    let ghost before = ledger@;
    ledger.profiles.set(&ctx.user_profile, updated);
    proof {
        assert(ledger@.profiles =~= update_reputation_spec(before, ctx.user_profile@, bonus_xp).0.profiles);
    }
    Ok(())
}

/// Closes the event at `ctx.event` for good, where the signer is its organizer.
pub fn close_event(ledger: &mut Ledger, ctx: &CloseEvent) -> (r: Result<(), ErrorCode>)
    requires
        old(ledger).wf(),
    ensures
        final(ledger).wf(),
        (final(ledger)@, r) == close_event_spec(old(ledger)@, ctx.event@, ctx.organizer),
{
    let updated = match ledger.events.get(&ctx.event) {
        None => return Err(ErrorCode::NotFound),
        Some(e) => {
            if !e.organizer.same(&ctx.organizer) {
                return Err(ErrorCode::Unauthorized);
            }
            Event {
                organizer: e.organizer,
                event_id: e.event_id.clone(),
                event_name: e.event_name.clone(),
                event_date: e.event_date,
                max_attendees: e.max_attendees,
                current_attendees: e.current_attendees,
                metadata_uri: e.metadata_uri.clone(),
                is_active: false,
                bump: e.bump,
            }
        },
    };
    let ghost before = ledger@;
    ledger.events.set(&ctx.event, updated);
    proof {
        assert(ledger@.events =~= close_event_spec(before, ctx.event@, ctx.organizer).0.events);
    }
    Ok(())
}

} // verus!
