//! What holds of the ledger across whole sequences of operations.

use vstd::prelude::*;
use crate::digest::token_digest_of;
use crate::errors::SolidrError;
use crate::model::{
    add_session_member_rejection, close_session_apply, close_session_rejection,
    insert_member_apply, insert_member_rejection, is_record_of, join_session_rejection,
    open_session_apply, open_session_rejection, rejection, run, set_session_token_hash_apply,
    set_session_token_hash_rejection, step, Call, LedgerView, Request,
};
use crate::preservation::{
    lemma_close_session_wf, lemma_init_global_wf, lemma_insert_member_wf,
    lemma_open_session_wf, lemma_set_session_token_hash_wf,
};
use crate::state::{text_bytes, MAX_MEMBER_NAME_BYTES};

verus! {

/// Serving one request, allowed or not, keeps the ledger's invariant.
pub proof fn lemma_step_preserves_wf(s: LedgerView, request: Request)
    requires
        s.wf(),
    ensures
        step(s, request).wf(),
{
    if rejection(s, request) is None {
        let caller = request.caller;
        match request.call {
            Call::InitGlobal => lemma_init_global_wf(s),
            Call::OpenSession { name, description, member_name } => lemma_open_session_wf(
                s,
                caller,
                name,
                description,
                member_name,
            ),
            Call::CloseSession { session_id } => lemma_close_session_wf(s, session_id),
            Call::SetSessionTokenHash { session_id, hash } => lemma_set_session_token_hash_wf(
                s,
                session_id,
                hash,
            ),
            Call::AddSessionMember { session_id, address, display_name } => lemma_insert_member_wf(
                s,
                session_id,
                address,
                display_name,
            ),
            Call::JoinSessionAsMember { session_id, display_name, token } => lemma_insert_member_wf(
                s,
                session_id,
                caller,
                display_name,
            ),
        }
    }
}

/// After any sequence of requests the ledger's invariant holds; in
/// particular no two membership records share both session and address.
pub proof fn lemma_members_stay_distinct(s: LedgerView, requests: Seq<Request>)
    requires
        s.wf(),
    ensures
        run(s, requests).wf(),
        run(s, requests).members_distinct(),
    decreases requests.len(),
{
    if requests.len() > 0 {
        lemma_members_stay_distinct(s, requests.drop_last());
        lemma_step_preserves_wf(run(s, requests.drop_last()), requests.last());
    }
}

/// A freshly opened session has the caller who opened it as administrator,
/// and as a member flagged as administrator.
pub proof fn lemma_opener_is_administrator(
    s: LedgerView,
    caller: Seq<u8>,
    name: Seq<char>,
    description: Seq<char>,
    member_name: Seq<char>,
)
    requires
        s.wf(),
        open_session_rejection(s, name, description, member_name) is None,
    ensures
        ({
            let id = s.registry->0;
            let after = open_session_apply(s, caller, name, description, member_name);
            &&& !s.has_session(id)
            &&& after.has_session(id)
            &&& after.session(id).administrator == caller
            &&& after.session(id).status is Opened
            &&& after.is_member(id, caller)
            &&& after.members.last().is_administrator
            &&& after.registry == Some(id + 1)
        }),
{
    let id = s.registry->0;
    let after = open_session_apply(s, caller, name, description, member_name);
    assert(is_record_of(after.members[after.members.len() - 1], id, caller));
}

/// One request never removes a session, never changes a session's
/// administrator, and never reopens a closed session.
pub proof fn lemma_step_keeps_sessions(s: LedgerView, request: Request, session_id: nat)
    requires
        s.has_session(session_id),
    ensures
        step(s, request).has_session(session_id),
        step(s, request).session(session_id).administrator == s.session(
            session_id,
        ).administrator,
        s.session(session_id).status is Closed ==> step(s, request).session(
            session_id,
        ).status is Closed,
{
}

/// A session's administrator never changes, whatever requests follow.
pub proof fn lemma_administrator_never_changes(
    s: LedgerView,
    requests: Seq<Request>,
    session_id: nat,
)
    requires
        s.has_session(session_id),
    ensures
        run(s, requests).has_session(session_id),
        run(s, requests).session(session_id).administrator == s.session(
            session_id,
        ).administrator,
    decreases requests.len(),
{
    if requests.len() > 0 {
        lemma_administrator_never_changes(s, requests.drop_last(), session_id);
        lemma_step_keeps_sessions(run(s, requests.drop_last()), requests.last(), session_id);
    }
}

/// A closed session stays closed, whatever requests follow.
pub proof fn lemma_closed_is_terminal(s: LedgerView, requests: Seq<Request>, session_id: nat)
    requires
        s.has_session(session_id),
        s.session(session_id).status is Closed,
    ensures
        run(s, requests).has_session(session_id),
        run(s, requests).session(session_id).status is Closed,
    decreases requests.len(),
{
    if requests.len() > 0 {
        lemma_closed_is_terminal(s, requests.drop_last(), session_id);
        lemma_step_keeps_sessions(run(s, requests.drop_last()), requests.last(), session_id);
    }
}

/// On a closed session every admission and every change of the invitation
/// hash is rejected and changes nothing. The error is `InvalidState`
/// whenever the request gets as far as the session's state: for the
/// administrator's operations when the caller is the administrator, for a
/// join when the presented digest equals the stored hash.
pub proof fn lemma_closed_session_rejects(
    s: LedgerView,
    caller: Seq<u8>,
    session_id: nat,
    address: Seq<u8>,
    display_name: Seq<char>,
    hash: Seq<u8>,
    digest: Seq<u8>,
)
    requires
        s.has_session(session_id),
        s.session(session_id).status is Closed,
    ensures
        set_session_token_hash_rejection(s, caller, session_id) is Some,
        add_session_member_rejection(s, caller, session_id, address, display_name) is Some,
        join_session_rejection(s, caller, session_id, display_name, digest) is Some,
        close_session_rejection(s, caller, session_id) is Some,
        caller == s.session(session_id).administrator ==> {
            &&& set_session_token_hash_rejection(s, caller, session_id) == Some(
                SolidrError::InvalidState,
            )
            &&& add_session_member_rejection(s, caller, session_id, address, display_name) == Some(
                SolidrError::InvalidState,
            )
            &&& close_session_rejection(s, caller, session_id) == Some(SolidrError::InvalidState)
        },
        s.session(session_id).invite_token_hash == Some(digest) ==> join_session_rejection(
            s,
            caller,
            session_id,
            display_name,
            digest,
        ) == Some(SolidrError::InvalidState),
{
}

/// Once `close_session` has succeeded on a session, then after any further
/// requests the administrator's `add_session_member` and
/// `set_session_token_hash`, and a `join_session_as_member` whose token
/// hashes to the stored hash, all fail with `InvalidState`.
pub proof fn lemma_no_mutation_after_close(
    s: LedgerView,
    closer: Seq<u8>,
    session_id: nat,
    requests: Seq<Request>,
    caller: Seq<u8>,
    address: Seq<u8>,
    display_name: Seq<char>,
    token: Seq<char>,
)
    requires
        close_session_rejection(s, closer, session_id) is None,
    ensures
        ({
            let later = run(close_session_apply(s, session_id), requests);
            &&& later.has_session(session_id)
            &&& later.session(session_id).status is Closed
            &&& later.session(session_id).administrator == closer
            &&& set_session_token_hash_rejection(later, closer, session_id) == Some(
                SolidrError::InvalidState,
            )
            &&& add_session_member_rejection(later, closer, session_id, address, display_name)
                == Some(SolidrError::InvalidState)
            &&& later.session(session_id).invite_token_hash == Some(token_digest_of(token))
                ==> join_session_rejection(
                later,
                caller,
                session_id,
                display_name,
                token_digest_of(token),
            ) == Some(SolidrError::InvalidState)
        }),
{
    let closed = close_session_apply(s, session_id);
    lemma_closed_is_terminal(closed, requests, session_id);
    lemma_administrator_never_changes(closed, requests, session_id);
}

/// One request adds no member to a closed session.
pub proof fn lemma_step_admits_none_when_closed(
    s: LedgerView,
    request: Request,
    session_id: nat,
    address: Seq<u8>,
)
    requires
        s.wf(),
        s.has_session(session_id),
        s.session(session_id).status is Closed,
    ensures
        step(s, request).is_member(session_id, address) == s.is_member(session_id, address),
{
    let t = step(s, request);
    if s.is_member(session_id, address) {
        let j = choose|j: int|
            0 <= j < s.members.len() && #[trigger] is_record_of(
                s.members[j],
                session_id,
                address,
            );
        assert(is_record_of(t.members[j], session_id, address));
    }
    if t.is_member(session_id, address) {
        let j = choose|j: int|
            0 <= j < t.members.len() && #[trigger] is_record_of(
                t.members[j],
                session_id,
                address,
            );
        if j < s.members.len() {
            assert(is_record_of(s.members[j], session_id, address));
        }
    }
}

/// The membership of a closed session is frozen: whatever requests follow,
/// an address is a member of it afterwards exactly when it was before.
pub proof fn lemma_closed_membership_frozen(
    s: LedgerView,
    requests: Seq<Request>,
    session_id: nat,
    address: Seq<u8>,
)
    requires
        s.wf(),
        s.has_session(session_id),
        s.session(session_id).status is Closed,
    ensures
        run(s, requests).is_member(session_id, address) == s.is_member(session_id, address),
    decreases requests.len(),
{
    if requests.len() > 0 {
        let before = run(s, requests.drop_last());
        lemma_closed_membership_frozen(s, requests.drop_last(), session_id, address);
        lemma_closed_is_terminal(s, requests.drop_last(), session_id);
        lemma_members_stay_distinct(s, requests.drop_last());
        lemma_step_admits_none_when_closed(before, requests.last(), session_id, address);
    }
}

/// Adding or joining an address that is already a member of an open session
/// fails with `DuplicateMember`, whatever name is given.
pub proof fn lemma_duplicate_rejected(
    s: LedgerView,
    session_id: nat,
    address: Seq<u8>,
    display_name: Seq<char>,
    digest: Seq<u8>,
)
    requires
        s.has_session(session_id),
        s.session(session_id).status is Opened,
        s.is_member(session_id, address),
    ensures
        insert_member_rejection(s, session_id, address, display_name) == Some(
            SolidrError::DuplicateMember,
        ),
        add_session_member_rejection(
            s,
            s.session(session_id).administrator,
            session_id,
            address,
            display_name,
        ) == Some(SolidrError::DuplicateMember),
        s.session(session_id).invite_token_hash == Some(digest) ==> join_session_rejection(
            s,
            address,
            session_id,
            display_name,
            digest,
        ) == Some(SolidrError::DuplicateMember),
{
}

/// Admitting an address makes it a member, so that admitting it again to
/// the same session, by either path, is a duplicate.
pub proof fn lemma_admitted_is_member(
    s: LedgerView,
    session_id: nat,
    address: Seq<u8>,
    display_name: Seq<char>,
)
    requires
        s.has_session(session_id),
        insert_member_rejection(s, session_id, address, display_name) is None,
    ensures
        ({
            let after = insert_member_apply(s, session_id, address, display_name);
            &&& after.is_member(session_id, address)
            &&& forall|again: Seq<char>|
                insert_member_rejection(after, session_id, address, again) == Some(
                    SolidrError::DuplicateMember,
                )
        }),
{
    let after = insert_member_apply(s, session_id, address, display_name);
    assert(is_record_of(after.members[after.members.len() - 1], session_id, address));
}

/// On an open session that the caller is not yet a member of, and with a
/// name within its limit, a join succeeds exactly when the presented digest
/// equals the stored invitation hash.
pub proof fn lemma_join_succeeds_iff_digest_matches(
    s: LedgerView,
    caller: Seq<u8>,
    session_id: nat,
    display_name: Seq<char>,
    digest: Seq<u8>,
)
    requires
        s.has_session(session_id),
        s.session(session_id).status is Opened,
        !s.is_member(session_id, caller),
        text_bytes(display_name) <= MAX_MEMBER_NAME_BYTES,
    ensures
        join_session_rejection(s, caller, session_id, display_name, digest) is None <==> s.session(
            session_id,
        ).invite_token_hash == Some(digest),
        s.session(session_id).invite_token_hash is None ==> join_session_rejection(
            s,
            caller,
            session_id,
            display_name,
            digest,
        ) == Some(SolidrError::NoTokenConfigured),
        s.session(session_id).invite_token_hash is Some && s.session(
            session_id,
        ).invite_token_hash != Some(digest) ==> join_session_rejection(
            s,
            caller,
            session_id,
            display_name,
            digest,
        ) == Some(SolidrError::InvalidToken),
{
}

/// Replacing the invitation hash invalidates every token issued before:
/// right after the change, a join with any digest other than the new hash
/// fails with `InvalidToken`, also one that matched the old hash.
pub proof fn lemma_rotation_invalidates_tokens(
    s: LedgerView,
    administrator: Seq<u8>,
    session_id: nat,
    new_hash: Seq<u8>,
    caller: Seq<u8>,
    display_name: Seq<char>,
    digest: Seq<u8>,
)
    requires
        set_session_token_hash_rejection(s, administrator, session_id) is None,
        digest != new_hash,
    ensures
        ({
            let after = set_session_token_hash_apply(s, session_id, new_hash);
            &&& after.session(session_id).invite_token_hash == Some(new_hash)
            &&& join_session_rejection(after, caller, session_id, display_name, digest) == Some(
                SolidrError::InvalidToken,
            )
        }),
{
}

} // verus!
