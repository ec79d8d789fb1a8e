//! The session lifecycle: open, rotate the invitation hash, close.

use vstd::prelude::*;
use crate::errors::SolidrError;
use crate::ledger::Solidr;
use crate::model::{
    administrator_rejection, close_session_apply, close_session_rejection, open_session_apply,
    open_session_rejection, set_session_token_hash_apply, set_session_token_hash_rejection,
};
use crate::preservation::{
    lemma_close_session_wf, lemma_open_session_wf, lemma_set_session_token_hash_wf,
};
use crate::state::{
    text_len, Address, Event, Member, Session, SessionStatus, MAX_MEMBER_NAME_BYTES,
    MAX_SESSION_DESCRIPTION_BYTES, MAX_SESSION_NAME_BYTES,
};

verus! {

/// Opens a session with `caller` as its administrator and first member, and
/// returns the new session's identifier.
///
/// The identifier is the registry's counter, which then moves on by one.
/// Rejected with `RegistryNotInitialized` while there is no registry, else
/// with `ValidationError` when a text is over its limit.
pub fn open_session(
    ledger: &mut Solidr,
    caller: Address,
    name: String,
    description: String,
    member_name: String,
) -> (result: Result<u64, SolidrError>)
    requires
        old(ledger).wf(),
    ensures
        final(ledger).wf(),
        match open_session_rejection(old(ledger)@, name@, description@, member_name@) {
            Some(error) => result == Err::<u64, SolidrError>(error) && final(ledger)@ == old(
                ledger,
            )@,
            None => {
                &&& result matches Ok(id)
                &&& old(ledger)@.registry == Some(id as nat)
                &&& final(ledger)@ == open_session_apply(
                    old(ledger)@,
                    caller@,
                    name@,
                    description@,
                    member_name@,
                )
            },
        },
{
    let id = match ledger.registry {
        None => {
            return Err(SolidrError::RegistryNotInitialized);
        },
        Some(id) => id,
    };
    if text_len(name.as_str()) > MAX_SESSION_NAME_BYTES || text_len(description.as_str())
        > MAX_SESSION_DESCRIPTION_BYTES || text_len(member_name.as_str())
        > MAX_MEMBER_NAME_BYTES {
        return Err(SolidrError::ValidationError);
    }
    let ghost before = ledger@;
    proof {
        lemma_open_session_wf(before, caller@, name@, description@, member_name@);
    }
    let session = Session {
        id,
        name,
        description,
        administrator: caller,
        status: SessionStatus::Opened,
        invite_token_hash: None,
    };
    let member = Member {
        session_id: id,
        address: caller,
        display_name: member_name,
        is_administrator: true,
    };
    let event = Event::SessionCreated { session_id: id, administrator: caller };
    ledger.sessions.push(session);
    ledger.members.push(member);
    ledger.events.push(event);
    assert(id < ledger.sessions.len());
    ledger.registry = Some(id + 1);
    proof {
        let after = open_session_apply(before, caller@, name@, description@, member_name@);
        assert(ledger@.sessions =~= after.sessions);
        assert(ledger@.members =~= after.members);
        assert(ledger@.events =~= after.events);
    }
    Ok(id)
}

/// Checks that `caller` may administer the open session `session_id`, and
/// returns the session's index in the store.
pub(crate) fn administered_session(ledger: &Solidr, caller: &Address, session_id: u64) -> (result:
    Result<usize, SolidrError>)
    requires
        ledger.wf(),
    ensures
        match administrator_rejection(ledger@, caller@, session_id as nat) {
            Some(error) => result == Err::<usize, SolidrError>(error),
            None => result == Ok::<usize, SolidrError>(session_id as usize) && session_id
                < ledger.sessions.len(),
        },
{
    if session_id >= ledger.sessions.len() as u64 {
        return Err(SolidrError::NotFound);
    }
    let index = session_id as usize;
    let session = &ledger.sessions[index];
    if !session.administrator.same(caller) {
        return Err(SolidrError::Unauthorized);
    }
    match session.status {
        SessionStatus::Closed => Err(SolidrError::InvalidState),
        SessionStatus::Opened => Ok(index),
    }
}

/// Closes a session for good. Only its administrator may, and only once.
///
/// Rejected with `NotFound` when no such session exists, else with
/// `Unauthorized` when `caller` is not its administrator, else with
/// `InvalidState` when it is already closed.
pub fn close_session(ledger: &mut Solidr, caller: Address, session_id: u64) -> (result: Result<
    (),
    SolidrError,
>)
    requires
        old(ledger).wf(),
    ensures
        final(ledger).wf(),
        match close_session_rejection(old(ledger)@, caller@, session_id as nat) {
            Some(error) => result == Err::<(), SolidrError>(error) && final(ledger)@ == old(
                ledger,
            )@,
            None => result == Ok::<(), SolidrError>(()) && final(ledger)@ == close_session_apply(
                old(ledger)@,
                session_id as nat,
            ),
        },
{
    let index = match administered_session(ledger, &caller, session_id) {
        Err(error) => {
            return Err(error);
        },
        Ok(index) => index,
    };
    let ghost before = ledger@;
    proof {
        lemma_close_session_wf(before, session_id as nat);
    }
    ledger.sessions[index].status = SessionStatus::Closed;
    ledger.events.push(Event::SessionClosed { session_id });
    proof {
        let after = close_session_apply(before, session_id as nat);
        assert(ledger@.sessions =~= after.sessions);
        assert(ledger@.members =~= after.members);
        assert(ledger@.events =~= after.events);
    }
    Ok(())
}

/// Sets the digest that invitation tokens are compared against, replacing
/// any earlier one: tokens issued for the earlier digest stop working at
/// once.
///
/// Rejected with `NotFound` when no such session exists, else with
/// `Unauthorized` when `caller` is not its administrator, else with
/// `InvalidState` when it is closed.
pub fn set_session_token_hash(
    ledger: &mut Solidr,
    caller: Address,
    session_id: u64,
    hash: [u8; 32],
) -> (result: Result<(), SolidrError>)
    requires
        old(ledger).wf(),
    ensures
        final(ledger).wf(),
        match set_session_token_hash_rejection(old(ledger)@, caller@, session_id as nat) {
            Some(error) => result == Err::<(), SolidrError>(error) && final(ledger)@ == old(
                ledger,
            )@,
            None => result == Ok::<(), SolidrError>(()) && final(ledger)@
                == set_session_token_hash_apply(old(ledger)@, session_id as nat, hash@),
        },
{
    let index = match administered_session(ledger, &caller, session_id) {
        Err(error) => {
            return Err(error);
        },
        Ok(index) => index,
    };
    let ghost before = ledger@;
    proof {
        lemma_set_session_token_hash_wf(before, session_id as nat, hash@);
    }
    ledger.sessions[index].invite_token_hash = Some(hash);
    proof {
        let after = set_session_token_hash_apply(before, session_id as nat, hash@);
        assert(ledger@.sessions =~= after.sessions);
        assert(ledger@.members =~= after.members);
        assert(ledger@.events =~= after.events);
    }
    Ok(())
}

} // verus!
