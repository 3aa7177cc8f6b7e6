use anchor_lang::prelude::Pubkey;
use proof_of_presence::{
    check_mint_badge, close_event, create_event, derive_event_address, derive_profile_address, mint_badge,
    update_reputation, Address, CloseEvent, CreateEvent, ErrorCode, Ledger, MintBadge, UpdateReputation,
    UserProfile,
};

fn address(key: Pubkey) -> Address {
    Address { bytes: key.to_bytes() }
}

fn new_ledger() -> Ledger {
    Ledger::new(address(Pubkey::new_unique()))
}

fn new_event(ledger: &mut Ledger, organizer: Address, event_id: &str, max_attendees: u32) -> Address {
    create_event(
        ledger,
        &CreateEvent { organizer },
        event_id.to_string(),
        "Meetup".to_string(),
        1735689600,
        max_attendees,
        "ipfs://meta".to_string(),
    )
    .unwrap()
}

fn attend(ledger: &mut Ledger, event: Address, attendee: Address, event_id: &str) -> Result<(), ErrorCode> {
    let ctx = MintBadge { event, attendee };
    check_mint_badge(ledger, &ctx, &event_id.to_string())?;
    mint_badge(ledger, &ctx, event_id.to_string(), String::new(), Ok(()))
}

fn profile_of(ledger: &Ledger, user: Address) -> &UserProfile {
    let (at, _) = derive_profile_address(&ledger.program_id(), &user).unwrap();
    ledger.profile(&at).unwrap()
}

#[test]
fn test_event_creation() {
    let organizer = Pubkey::new_unique();
    let event_id = "test_event_123".to_string();
    let event_name = "Solana Breakpoint 2025".to_string();
    let event_date: i64 = 1735689600;
    let max_attendees: u32 = 100;
    let metadata_uri = "https://arweave.net/test-metadata".to_string();

    assert!(event_id.len() <= 32, "Event ID too long");
    assert!(event_name.len() <= 100, "Event name too long");
    assert!(metadata_uri.len() <= 200, "Metadata URI too long");

    let mut ledger = new_ledger();
    let at = create_event(
        &mut ledger,
        &CreateEvent { organizer: address(organizer) },
        event_id.clone(),
        event_name.clone(),
        event_date,
        max_attendees,
        metadata_uri.clone(),
    )
    .unwrap();
    let event = ledger.event(&at).unwrap();
    assert_eq!(event.organizer, address(organizer));
    assert_eq!(event.event_id, event_id);
    assert_eq!(event.event_name, event_name);
    assert_eq!(event.event_date, event_date);
    assert_eq!(event.max_attendees, max_attendees);
    assert_eq!(event.current_attendees, 0);
    assert_eq!(event.metadata_uri, metadata_uri);
    assert!(event.is_active);
}

#[test]
fn test_user_profile_initialization() {
    let user = Pubkey::new_unique();
    let profile = UserProfile::new(address(user));

    let total_badges: u32 = profile.total_badges;
    let reputation_score: u32 = profile.reputation_score;
    let attended_events: &Vec<Address> = &profile.attended_events;

    assert_eq!(total_badges, 0);
    assert_eq!(reputation_score, 0);
    assert_eq!(attended_events.len(), 0);
    assert_eq!(profile.user, address(user));
}

#[test]
fn test_reputation_calculation() {
    let base_xp: u32 = 10;
    let bonus_xp: u32 = 50;

    let mut ledger = new_ledger();
    let organizer = address(Pubkey::new_unique());
    let attendee = address(Pubkey::new_unique());
    let event = new_event(&mut ledger, organizer, "rep", 5);
    attend(&mut ledger, event, attendee, "rep").unwrap();
    assert_eq!(profile_of(&ledger, attendee).reputation_score, base_xp);

    let (at, _) = derive_profile_address(&ledger.program_id(), &attendee).unwrap();
    update_reputation(&mut ledger, &UpdateReputation { user_profile: at, authority: organizer }, bonus_xp).unwrap();
    let total_xp = profile_of(&ledger, attendee).reputation_score;

    assert_eq!(total_xp, 60);
}

#[test]
fn test_event_capacity_logic() {
    let max_attendees: u32 = 100;
    let mut ledger = new_ledger();
    let organizer = address(Pubkey::new_unique());
    let event = new_event(&mut ledger, organizer, "capacity", max_attendees);
    for _ in 0..99 {
        attend(&mut ledger, event, address(Pubkey::new_unique()), "capacity").unwrap();
    }
    let current_attendees: u32 = ledger.event(&event).unwrap().current_attendees;
    assert_eq!(current_attendees, 99);

    // Should allow one more
    assert!(current_attendees < max_attendees);
    attend(&mut ledger, event, address(Pubkey::new_unique()), "capacity").unwrap();

    let current_attendees: u32 = ledger.event(&event).unwrap().current_attendees;
    assert_eq!(current_attendees, 100);
    // Should not allow more
    assert!(!(current_attendees < max_attendees));
    assert_eq!(
        attend(&mut ledger, event, address(Pubkey::new_unique()), "capacity"),
        Err(ErrorCode::EventFull)
    );
}

#[test]
fn test_event_active_status() {
    let mut ledger = new_ledger();
    let organizer = address(Pubkey::new_unique());
    let event = new_event(&mut ledger, organizer, "status", 10);

    let is_active = ledger.event(&event).unwrap().is_active;
    assert!(is_active, "Event should be active");

    close_event(&mut ledger, &CloseEvent { event, organizer }).unwrap();
    let is_active = ledger.event(&event).unwrap().is_active;
    assert!(!is_active, "Event should be inactive");
}

#[test]
fn test_attendee_increment() {
    let mut ledger = new_ledger();
    let event = new_event(&mut ledger, address(Pubkey::new_unique()), "increment", 10);

    attend(&mut ledger, event, address(Pubkey::new_unique()), "increment").unwrap();
    assert_eq!(ledger.event(&event).unwrap().current_attendees, 1);

    attend(&mut ledger, event, address(Pubkey::new_unique()), "increment").unwrap();
    assert_eq!(ledger.event(&event).unwrap().current_attendees, 2);

    attend(&mut ledger, event, address(Pubkey::new_unique()), "increment").unwrap();
    assert_eq!(ledger.event(&event).unwrap().current_attendees, 3);
}

#[test]
fn test_badge_accumulation() {
    let mut ledger = new_ledger();
    let organizer = address(Pubkey::new_unique());
    let attendee = address(Pubkey::new_unique());
    let first = new_event(&mut ledger, organizer, "first", 10);
    let second = new_event(&mut ledger, organizer, "second", 10);

    // First event
    attend(&mut ledger, first, attendee, "first").unwrap();
    assert_eq!(profile_of(&ledger, attendee).total_badges, 1);
    assert_eq!(profile_of(&ledger, attendee).reputation_score, 10);

    // Second event
    attend(&mut ledger, second, attendee, "second").unwrap();
    assert_eq!(profile_of(&ledger, attendee).total_badges, 2);
    assert_eq!(profile_of(&ledger, attendee).reputation_score, 20);

    // Bonus XP
    let (at, _) = derive_profile_address(&ledger.program_id(), &attendee).unwrap();
    update_reputation(&mut ledger, &UpdateReputation { user_profile: at, authority: organizer }, 50).unwrap();
    assert_eq!(profile_of(&ledger, attendee).reputation_score, 70);
}

#[test]
fn test_max_string_lengths() {
    let mut ledger = new_ledger();
    let organizer = address(Pubkey::new_unique());

    let event_id = "a".repeat(32);
    assert!(event_id.len() <= 32);
    let event_name = "a".repeat(100);
    assert!(event_name.len() <= 100);
    let metadata_uri = "a".repeat(200);
    assert!(metadata_uri.len() <= 200);
    assert!(create_event(&mut ledger, &CreateEvent { organizer }, event_id, event_name, 0, 1, metadata_uri).is_ok());

    // Exceeding the limits fails
    let too_long_id = "a".repeat(33);
    assert!(too_long_id.len() > 32);
    assert_eq!(
        create_event(&mut ledger, &CreateEvent { organizer }, too_long_id, "n".to_string(), 0, 1, String::new()),
        Err(ErrorCode::RecordTooLarge)
    );
    assert_eq!(
        create_event(&mut ledger, &CreateEvent { organizer }, "b".to_string(), "a".repeat(101), 0, 1, String::new()),
        Err(ErrorCode::RecordTooLarge)
    );
    assert_eq!(
        create_event(&mut ledger, &CreateEvent { organizer }, "c".to_string(), String::new(), 0, 1, "a".repeat(201)),
        Err(ErrorCode::RecordTooLarge)
    );
}

#[test]
fn test_attended_events_vector() {
    let mut ledger = new_ledger();
    let organizer = address(Pubkey::new_unique());
    let attendee = address(Pubkey::new_unique());
    let event1 = new_event(&mut ledger, organizer, "e1", 10);
    let event2 = new_event(&mut ledger, organizer, "e2", 10);
    let event3 = new_event(&mut ledger, organizer, "e3", 10);

    attend(&mut ledger, event1, attendee, "e1").unwrap();
    attend(&mut ledger, event2, attendee, "e2").unwrap();
    attend(&mut ledger, event3, attendee, "e3").unwrap();

    let attended_events = &profile_of(&ledger, attendee).attended_events;
    assert_eq!(attended_events.len(), 3);
    assert!(attended_events.len() <= 50, "Should not exceed max length");
    assert_eq!(attended_events, &vec![event1, event2, event3]);
}

#[test]
fn test_pda_seed_components() {
    let event_seed = b"event";
    let profile_seed = b"profile";

    assert_eq!(event_seed, b"event");
    assert_eq!(profile_seed, b"profile");

    let program = Pubkey::new_unique();
    let organizer = Pubkey::new_unique();
    let (expected, bump) = Pubkey::find_program_address(&[event_seed, b"evt1", organizer.as_ref()], &program);
    let derived = derive_event_address(&address(program), b"evt1", &address(organizer)).unwrap();
    assert_eq!(derived, (address(expected), bump));

    let (expected, bump) = Pubkey::find_program_address(&[profile_seed, organizer.as_ref()], &program);
    let derived = derive_profile_address(&address(program), &address(organizer)).unwrap();
    assert_eq!(derived, (address(expected), bump));
}
