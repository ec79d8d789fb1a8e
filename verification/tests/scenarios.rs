use solidr::digest::token_digest;
use solidr::{
    add_session_member, close_session, init_global, join_session_as_member, open_session,
    set_session_token_hash, Address, Event, SessionStatus, Solidr, SolidrError,
};

fn address(tag: u8) -> Address {
    Address::new([tag; 32])
}

fn text(s: &str) -> String {
    String::from(s)
}

fn ledger_with_trip(alice: Address) -> Solidr {
    let mut ledger = Solidr::new();
    assert_eq!(init_global(&mut ledger), Ok(()));
    assert_eq!(
        open_session(&mut ledger, alice, text("Trip"), text("Ski trip"), text("Alice")),
        Ok(0)
    );
    ledger
}

#[test]
fn open_session_returns_zero_and_records_administrator() {
    let alice = address(1);
    let ledger = ledger_with_trip(alice);

    let session = ledger.session(0).expect("session 0 exists");
    assert_eq!(session.id, 0);
    assert_eq!(session.name, "Trip");
    assert_eq!(session.description, "Ski trip");
    assert_eq!(session.administrator, alice);
    assert_eq!(session.status, SessionStatus::Opened);
    assert_eq!(session.invite_token_hash, None);

    let member = ledger.member(0, &alice).expect("administrator is a member");
    assert_eq!(member.session_id, 0);
    assert_eq!(member.address, alice);
    assert_eq!(member.display_name, "Alice");
    assert!(member.is_administrator);
    assert_eq!(ledger.members().len(), 1);

    assert_eq!(ledger.events().len(), 1);
    match &ledger.events()[0] {
        Event::SessionCreated { session_id, administrator } => {
            assert_eq!(*session_id, 0);
            assert_eq!(*administrator, alice);
        }
        other => panic!("unexpected event {:?}", other),
    }
}

#[test]
fn only_the_administrator_adds_members() {
    let alice = address(1);
    let bob = address(2);
    let carol = address(3);
    let mut ledger = ledger_with_trip(alice);

    assert_eq!(add_session_member(&mut ledger, alice, 0, bob, text("Bob")), Ok(()));
    let member = ledger.member(0, &bob).expect("bob was added");
    assert_eq!(member.display_name, "Bob");
    assert!(!member.is_administrator);
    match &ledger.events()[1] {
        Event::MemberAdded { session_id, address, display_name } => {
            assert_eq!(*session_id, 0);
            assert_eq!(*address, bob);
            assert_eq!(display_name, "Bob");
        }
        other => panic!("unexpected event {:?}", other),
    }

    assert_eq!(
        add_session_member(&mut ledger, bob, 0, carol, text("Carol")),
        Err(SolidrError::Unauthorized)
    );
    assert!(!ledger.is_member(0, &carol));
    assert_eq!(ledger.members().len(), 2);
    assert_eq!(ledger.events().len(), 2);
}

#[test]
fn token_join_succeeds_once_per_address() {
    let alice = address(1);
    let carol = address(3);
    let mut ledger = ledger_with_trip(alice);

    assert_eq!(
        set_session_token_hash(&mut ledger, alice, 0, token_digest("secret123")),
        Ok(())
    );
    assert_eq!(
        join_session_as_member(&mut ledger, carol, 0, text("Carol"), text("secret123")),
        Ok(())
    );
    let member = ledger.member(0, &carol).expect("carol joined");
    assert_eq!(member.display_name, "Carol");
    assert!(!member.is_administrator);

    assert_eq!(
        join_session_as_member(&mut ledger, carol, 0, text("Carol2"), text("secret123")),
        Err(SolidrError::DuplicateMember)
    );
    assert_eq!(ledger.member(0, &carol).expect("still there").display_name, "Carol");
    assert_eq!(ledger.members().len(), 2);
}

#[test]
fn join_after_close_is_invalid_state() {
    let alice = address(1);
    let dave = address(4);
    let mut ledger = ledger_with_trip(alice);
    assert_eq!(
        set_session_token_hash(&mut ledger, alice, 0, token_digest("secret123")),
        Ok(())
    );

    assert_eq!(close_session(&mut ledger, alice, 0), Ok(()));
    assert_eq!(ledger.session(0).expect("exists").status, SessionStatus::Closed);
    match ledger.events().last().expect("an event") {
        Event::SessionClosed { session_id } => assert_eq!(*session_id, 0),
        other => panic!("unexpected event {:?}", other),
    }

    assert_eq!(
        join_session_as_member(&mut ledger, dave, 0, text("Dave"), text("secret123")),
        Err(SolidrError::InvalidState)
    );
    assert!(!ledger.is_member(0, &dave));
}

#[test]
fn second_session_gets_identifier_one() {
    let alice = address(1);
    let bob = address(2);
    let mut ledger = ledger_with_trip(alice);
    assert_eq!(ledger.next_session_id(), Some(1));

    assert_eq!(
        open_session(&mut ledger, bob, text("Flat"), text("Shared flat"), text("Bob")),
        Ok(1)
    );
    assert_eq!(ledger.next_session_id(), Some(2));
    assert_eq!(ledger.sessions().len(), 2);
    assert_eq!(ledger.session(0).expect("exists").administrator, alice);
    assert_eq!(ledger.session(1).expect("exists").administrator, bob);
    assert_eq!(ledger.session(1).expect("exists").id, 1);
    assert!(ledger.member(1, &bob).expect("member").is_administrator);
    assert!(!ledger.is_member(1, &alice));
    assert!(ledger.session(2).is_none());
}
