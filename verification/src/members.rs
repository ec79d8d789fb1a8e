//! Admission of members: added by the administrator, or joining by token.

use vstd::prelude::*;
use crate::digest::{token_digest, token_digest_of};
use crate::errors::SolidrError;
use crate::ledger::Solidr;
use crate::model::{
    add_session_member_rejection, insert_member_apply, insert_member_rejection,
    join_session_rejection,
};
use crate::preservation::lemma_insert_member_wf;
use crate::state::{
    bytes_equal, text_len, Address, Event, Member, SessionStatus, MAX_MEMBER_NAME_BYTES,
};

verus! {

/// The primitive both ways of admission end in: records `address` as an
/// ordinary member of an existing session.
///
/// Rejected with `InvalidState` when the session is closed, else with
/// `DuplicateMember` when the address is already a member of it, else with
/// `ValidationError` when the name is over its limit.
pub(crate) fn insert_member(
    ledger: &mut Solidr,
    session_id: u64,
    address: Address,
    display_name: String,
) -> (result: Result<(), SolidrError>)
    requires
        old(ledger).wf(),
        old(ledger)@.has_session(session_id as nat),
    ensures
        final(ledger).wf(),
        match insert_member_rejection(old(ledger)@, session_id as nat, address@, display_name@) {
            Some(error) => result == Err::<(), SolidrError>(error) && final(ledger)@ == old(
                ledger,
            )@,
            None => result == Ok::<(), SolidrError>(()) && final(ledger)@ == insert_member_apply(
                old(ledger)@,
                session_id as nat,
                address@,
                display_name@,
            ),
        },
{
    assert(session_id < ledger.sessions.len());
    let index = session_id as usize;
    match ledger.sessions[index].status {
        SessionStatus::Closed => {
            return Err(SolidrError::InvalidState);
        },
        SessionStatus::Opened => {},
    }
    if ledger.is_member(session_id, &address) {
        return Err(SolidrError::DuplicateMember);
    }
    if text_len(display_name.as_str()) > MAX_MEMBER_NAME_BYTES {
        return Err(SolidrError::ValidationError);
    }
    let ghost before = ledger@;
    proof {
        lemma_insert_member_wf(before, session_id as nat, address@, display_name@);
    }
    let event = Event::MemberAdded { session_id, address, display_name: display_name.clone() };
    let member = Member { session_id, address, display_name, is_administrator: false };
    ledger.members.push(member);
    ledger.events.push(event);
    proof {
        let after = insert_member_apply(before, session_id as nat, address@, display_name@);
        assert(ledger@.sessions =~= after.sessions);
        assert(ledger@.members =~= after.members);
        assert(ledger@.events =~= after.events);
    }
    Ok(())
}

/// The administrator adds `address` to a session under `display_name`.
///
/// Rejected with `NotFound` when no such session exists, else with
/// `Unauthorized` when `caller` is not its administrator, else with
/// `InvalidState` when it is closed, else with `DuplicateMember` when the
/// address is already a member, else with `ValidationError` when the name is
/// over its limit.
pub fn add_session_member(
    ledger: &mut Solidr,
    caller: Address,
    session_id: u64,
    address: Address,
    display_name: String,
) -> (result: Result<(), SolidrError>)
    requires
        old(ledger).wf(),
    ensures
        final(ledger).wf(),
        match add_session_member_rejection(
            old(ledger)@,
            caller@,
            session_id as nat,
            address@,
            display_name@,
        ) {
            Some(error) => result == Err::<(), SolidrError>(error) && final(ledger)@ == old(
                ledger,
            )@,
            None => result == Ok::<(), SolidrError>(()) && final(ledger)@ == insert_member_apply(
                old(ledger)@,
                session_id as nat,
                address@,
                display_name@,
            ),
        },
{
    if session_id >= ledger.sessions.len() as u64 {
        return Err(SolidrError::NotFound);
    }
    if !ledger.sessions[session_id as usize].administrator.same(&caller) {
        return Err(SolidrError::Unauthorized);
    }
    insert_member(ledger, session_id, address, display_name)
}

/// `caller` joins a session by presenting the digest of an invitation token.
///
/// Rejected with `NotFound` when no such session exists, else with
/// `NoTokenConfigured` when the session has no invitation hash, else with
/// `InvalidToken` when `digest` differs from it in any byte, else with
/// `InvalidState` when the session is closed, else with `DuplicateMember`
/// when the caller is already a member, else with `ValidationError` when the
/// name is over its limit.
pub fn join_session_with_digest(
    ledger: &mut Solidr,
    caller: Address,
    session_id: u64,
    display_name: String,
    digest: [u8; 32],
) -> (result: Result<(), SolidrError>)
    requires
        old(ledger).wf(),
    ensures
        final(ledger).wf(),
        match join_session_rejection(
            old(ledger)@,
            caller@,
            session_id as nat,
            display_name@,
            digest@,
        ) {
            Some(error) => result == Err::<(), SolidrError>(error) && final(ledger)@ == old(
                ledger,
            )@,
            None => result == Ok::<(), SolidrError>(()) && final(ledger)@ == insert_member_apply(
                old(ledger)@,
                session_id as nat,
                caller@,
                display_name@,
            ),
        },
{
    if session_id >= ledger.sessions.len() as u64 {
        return Err(SolidrError::NotFound);
    }
    match &ledger.sessions[session_id as usize].invite_token_hash {
        None => {
            return Err(SolidrError::NoTokenConfigured);
        },
        Some(stored) => {
            if !bytes_equal(stored, &digest) {
                return Err(SolidrError::InvalidToken);
            }
        },
    }
    insert_member(ledger, session_id, caller, display_name)
}

/// `caller` joins a session by presenting the plaintext invitation token:
/// the token is hashed and the digest compared with the session's
/// invitation hash, as [`join_session_with_digest`] does.
pub fn join_session_as_member(
    ledger: &mut Solidr,
    caller: Address,
    session_id: u64,
    display_name: String,
    token: String,
) -> (result: Result<(), SolidrError>)
    requires
        old(ledger).wf(),
    ensures
        final(ledger).wf(),
        match join_session_rejection(
            old(ledger)@,
            caller@,
            session_id as nat,
            display_name@,
            token_digest_of(token@),
        ) {
            Some(error) => result == Err::<(), SolidrError>(error) && final(ledger)@ == old(
                ledger,
            )@,
            None => result == Ok::<(), SolidrError>(()) && final(ledger)@ == insert_member_apply(
                old(ledger)@,
                session_id as nat,
                caller@,
                display_name@,
            ),
        },
{
    let digest = token_digest(token.as_str());
    join_session_with_digest(ledger, caller, session_id, display_name, digest)
}

} // verus!
