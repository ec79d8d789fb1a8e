use anchor_lang::solana_program::hash::hash;
use solidr::digest::token_digest;
use solidr::state::{bytes_equal, text_len};
use solidr::{
    add_session_member, close_session, init_global, join_session_as_member, open_session,
    set_session_token_hash, Address, SessionStatus, Solidr, SolidrError,
};

fn key(tag: u8) -> Address {
    Address::new([tag; 32])
}

fn t(value: &str) -> String {
    String::from(value)
}

fn hex(digest: &[u8; 32]) -> String {
    let mut out = String::new();
    for byte in digest {
        out.push_str(&format!("{:02x}", byte));
    }
    out
}

#[test]
fn token_digest_is_sha256() {
    assert_eq!(
        hex(&token_digest("")),
        "e3b0c44298fc1c149afbf4c8996fb92427ae41e4649b934ca495991b7852b855"
    );
    assert_eq!(
        hex(&token_digest("abc")),
        "ba7816bf8f01cfea414140de5dae2223b00361a396177a9cb410ff61f20015ad"
    );
}

#[test]
fn token_digest_agrees_with_the_hash_of_the_bytes() {
    assert_eq!(token_digest("secret123"), hash("secret123".as_bytes()).to_bytes());
    assert_eq!(token_digest("clé"), hash(&[0x63, 0x6c, 0xc3, 0xa9]).to_bytes());
    assert!(token_digest("secret123") != token_digest("secret124"));
}

#[test]
fn text_len_counts_utf8_bytes() {
    assert_eq!(text_len(""), 0);
    assert_eq!(text_len("Trip"), 4);
    assert_eq!(text_len("clé"), 4);
    assert_eq!(text_len("日本"), 6);
}

#[test]
fn bytes_equal_is_bytewise() {
    let a = [7u8; 32];
    let mut b = [7u8; 32];
    assert!(bytes_equal(&a, &b));
    b[0] = 8;
    assert!(!bytes_equal(&a, &b));
    b[0] = 7;
    b[31] = 6;
    assert!(!bytes_equal(&a, &b));
}

#[test]
fn administrator_never_changes() {
    let alice = key(1);
    let bob = key(2);
    let carol = key(3);
    let mut ledger = Solidr::new();
    init_global(&mut ledger).expect("initialises");
    open_session(&mut ledger, alice, t("Trip"), t("Ski trip"), t("Alice")).expect("opens");
    assert_eq!(ledger.session(0).expect("exists").administrator, alice);

    let _ = init_global(&mut ledger);
    assert_eq!(ledger.session(0).expect("exists").administrator, alice);
    let _ = open_session(&mut ledger, bob, t("Flat"), t("Shared"), t("Bob"));
    assert_eq!(ledger.session(0).expect("exists").administrator, alice);
    let _ = add_session_member(&mut ledger, alice, 0, bob, t("Bob"));
    assert_eq!(ledger.session(0).expect("exists").administrator, alice);
    let _ = add_session_member(&mut ledger, bob, 0, carol, t("Carol"));
    assert_eq!(ledger.session(0).expect("exists").administrator, alice);
    let _ = set_session_token_hash(&mut ledger, alice, 0, token_digest("secret123"));
    assert_eq!(ledger.session(0).expect("exists").administrator, alice);
    let _ = set_session_token_hash(&mut ledger, bob, 0, token_digest("mine"));
    assert_eq!(ledger.session(0).expect("exists").administrator, alice);
    let _ = join_session_as_member(&mut ledger, carol, 0, t("Carol"), t("secret123"));
    assert_eq!(ledger.session(0).expect("exists").administrator, alice);
    let _ = close_session(&mut ledger, bob, 0);
    assert_eq!(ledger.session(0).expect("exists").administrator, alice);
    let _ = close_session(&mut ledger, alice, 0);
    assert_eq!(ledger.session(0).expect("exists").administrator, alice);
    assert_eq!(ledger.session(1).expect("exists").administrator, bob);
}

#[test]
fn closed_session_rejects_every_mutation() {
    let alice = key(1);
    let bob = key(2);
    let mut ledger = Solidr::new();
    init_global(&mut ledger).expect("initialises");
    open_session(&mut ledger, alice, t("Trip"), t("Ski trip"), t("Alice")).expect("opens");
    set_session_token_hash(&mut ledger, alice, 0, token_digest("secret123")).expect("sets");
    close_session(&mut ledger, alice, 0).expect("closes");
    let members = ledger.members().len();
    let events = ledger.events().len();

    // Work on another session in between does not reopen the first.
    open_session(&mut ledger, bob, t("Flat"), t("Shared"), t("Bob")).expect("opens");

    assert_eq!(
        add_session_member(&mut ledger, alice, 0, bob, t("Bob")),
        Err(SolidrError::InvalidState)
    );
    assert_eq!(
        join_session_as_member(&mut ledger, bob, 0, t("Bob"), t("secret123")),
        Err(SolidrError::InvalidState)
    );
    assert_eq!(
        set_session_token_hash(&mut ledger, alice, 0, token_digest("fresh")),
        Err(SolidrError::InvalidState)
    );
    assert_eq!(close_session(&mut ledger, alice, 0), Err(SolidrError::InvalidState));

    assert_eq!(ledger.session(0).expect("exists").status, SessionStatus::Closed);
    assert_eq!(
        ledger.session(0).expect("exists").invite_token_hash,
        Some(token_digest("secret123"))
    );
    assert!(!ledger.is_member(0, &bob));
    assert_eq!(ledger.members().len(), members + 1);
    assert_eq!(ledger.events().len(), events + 1);
    assert_eq!(ledger.session(1).expect("exists").status, SessionStatus::Opened);
}

#[test]
fn one_record_per_session_and_address() {
    let alice = key(1);
    let bob = key(2);
    let mut ledger = Solidr::new();
    init_global(&mut ledger).expect("initialises");
    open_session(&mut ledger, alice, t("Trip"), t("Ski trip"), t("Alice")).expect("opens");
    open_session(&mut ledger, alice, t("Flat"), t("Shared"), t("Alice")).expect("opens");
    set_session_token_hash(&mut ledger, alice, 0, token_digest("secret123")).expect("sets");

    assert_eq!(add_session_member(&mut ledger, alice, 0, bob, t("Bob")), Ok(()));
    assert_eq!(
        add_session_member(&mut ledger, alice, 0, bob, t("Bob")),
        Err(SolidrError::DuplicateMember)
    );
    assert_eq!(
        join_session_as_member(&mut ledger, bob, 0, t("Bob"), t("secret123")),
        Err(SolidrError::DuplicateMember)
    );
    // The same address may be a member of another session.
    assert_eq!(add_session_member(&mut ledger, alice, 1, bob, t("Bob")), Ok(()));

    let members = ledger.members();
    for (j, left) in members.iter().enumerate() {
        for right in members.iter().skip(j + 1) {
            assert!(left.session_id != right.session_id || left.address != right.address);
        }
    }
    assert_eq!(members.len(), 4);
    assert_eq!(members.iter().filter(|m| m.is_administrator).count(), 2);
}

#[test]
fn rotating_the_hash_invalidates_earlier_tokens() {
    let alice = key(1);
    let mut ledger = Solidr::new();
    init_global(&mut ledger).expect("initialises");
    open_session(&mut ledger, alice, t("Trip"), t("Ski trip"), t("Alice")).expect("opens");

    set_session_token_hash(&mut ledger, alice, 0, token_digest("first")).expect("sets");
    assert_eq!(
        join_session_as_member(&mut ledger, key(2), 0, t("Bob"), t("first")),
        Ok(())
    );

    set_session_token_hash(&mut ledger, alice, 0, token_digest("second")).expect("sets");
    assert_eq!(
        join_session_as_member(&mut ledger, key(3), 0, t("Carol"), t("first")),
        Err(SolidrError::InvalidToken)
    );
    assert_eq!(
        join_session_as_member(&mut ledger, key(3), 0, t("Carol"), t("second")),
        Ok(())
    );
    // Anyone holding the current token joins: the token is not bound to an invitee.
    assert_eq!(
        join_session_as_member(&mut ledger, key(4), 0, t("Dave"), t("second")),
        Ok(())
    );
    assert_eq!(ledger.members().len(), 4);
}

#[test]
fn rejected_operations_leave_no_trace() {
    let alice = key(1);
    let bob = key(2);
    let mut ledger = Solidr::new();
    init_global(&mut ledger).expect("initialises");
    open_session(&mut ledger, alice, t("Trip"), t("Ski trip"), t("Alice")).expect("opens");

    assert!(close_session(&mut ledger, bob, 0).is_err());
    assert!(set_session_token_hash(&mut ledger, bob, 0, [1; 32]).is_err());
    assert!(add_session_member(&mut ledger, bob, 0, bob, t("Bob")).is_err());
    assert!(join_session_as_member(&mut ledger, bob, 0, t("Bob"), t("x")).is_err());
    assert!(open_session(&mut ledger, bob, "n".repeat(65), t("d"), t("m")).is_err());

    assert_eq!(ledger.next_session_id(), Some(1));
    assert_eq!(ledger.sessions().len(), 1);
    assert_eq!(ledger.members().len(), 1);
    assert_eq!(ledger.events().len(), 1);
    let session = ledger.session(0).expect("exists");
    assert_eq!(session.status, SessionStatus::Opened);
    assert_eq!(session.invite_token_hash, None);
}

#[test]
fn session_identifiers_are_gapless() {
    let mut ledger = Solidr::new();
    init_global(&mut ledger).expect("initialises");
    for expected in 0..5u64 {
        let _ = open_session(&mut ledger, key(9), "n".repeat(65), t("d"), t("m"));
        assert_eq!(
            open_session(&mut ledger, key(9), t("n"), t("d"), t("m")),
            Ok(expected)
        );
        assert_eq!(ledger.session(expected).expect("exists").id, expected);
    }
    assert_eq!(ledger.next_session_id(), Some(5));
}
