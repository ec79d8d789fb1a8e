//! Every allowed operation preserves the ledger's invariant.

use vstd::prelude::*;
use crate::model::{
    close_session_apply, init_global_apply, insert_member_apply, insert_member_rejection,
    is_record_of, open_session_apply, open_session_rejection, set_session_token_hash_apply,
    LedgerView,
};

verus! {

/// A member of a ledger is still a member once records are appended.
pub proof fn lemma_member_stays(s: LedgerView, t: LedgerView, session_id: nat, address: Seq<u8>)
    requires
        s.is_member(session_id, address),
        s.members.len() <= t.members.len(),
        forall|j: int| 0 <= j < s.members.len() ==> t.members[j] == s.members[j],
    ensures
        t.is_member(session_id, address),
{
    let j = choose|j: int|
        0 <= j < s.members.len() && #[trigger] is_record_of(s.members[j], session_id, address);
    assert(is_record_of(t.members[j], session_id, address));
}

/// Creating the registry on a ledger without one keeps the invariant.
pub proof fn lemma_init_global_wf(s: LedgerView)
    requires
        s.wf(),
        s.registry is None,
    ensures
        init_global_apply(s).wf(),
{
    let t = init_global_apply(s);
    assert forall|j: int| 0 <= j < t.members.len() implies #[trigger] t.member_wf(j) by {
        assert(s.member_wf(j));
    }
}

/// Opening a session keeps the invariant.
pub proof fn lemma_open_session_wf(
    s: LedgerView,
    caller: Seq<u8>,
    name: Seq<char>,
    description: Seq<char>,
    member_name: Seq<char>,
)
    requires
        s.wf(),
        open_session_rejection(s, name, description, member_name) is None,
    ensures
        open_session_apply(s, caller, name, description, member_name).wf(),
{
    let t = open_session_apply(s, caller, name, description, member_name);
    let id = s.registry->0;
    assert forall|i: int| 0 <= i < t.sessions.len() implies #[trigger] t.session_wf(i) by {
        if i < s.sessions.len() {
            assert(s.session_wf(i));
            lemma_member_stays(s, t, s.sessions[i].id, s.sessions[i].administrator);
        } else {
            assert(is_record_of(t.members[s.members.len() as int], id, caller));
        }
    }
    assert forall|j: int| 0 <= j < t.members.len() implies #[trigger] t.member_wf(j) by {
        if j < s.members.len() {
            assert(s.member_wf(j));
        }
    }
    assert forall|j: int, k: int| 0 <= j < k < t.members.len() implies !(
    #[trigger] t.members[j].session_id == #[trigger] t.members[k].session_id
        && t.members[j].address == t.members[k].address) by {
        assert(s.member_wf(j));
        if k < s.members.len() {
            assert(s.members[j].session_id == s.members[k].session_id ==> s.members[j].address
                != s.members[k].address);
        }
    }
}

/// Closing a session keeps the invariant.
pub proof fn lemma_close_session_wf(s: LedgerView, session_id: nat)
    requires
        s.wf(),
        s.has_session(session_id),
    ensures
        close_session_apply(s, session_id).wf(),
{
    let t = close_session_apply(s, session_id);
    assert forall|i: int| 0 <= i < t.sessions.len() implies #[trigger] t.session_wf(i) by {
        assert(s.session_wf(i));
        lemma_member_stays(s, t, s.sessions[i].id, s.sessions[i].administrator);
    }
    assert forall|j: int| 0 <= j < t.members.len() implies #[trigger] t.member_wf(j) by {
        assert(s.member_wf(j));
    }
}

/// Replacing a session's invitation hash keeps the invariant.
pub proof fn lemma_set_session_token_hash_wf(s: LedgerView, session_id: nat, hash: Seq<u8>)
    requires
        s.wf(),
        s.has_session(session_id),
    ensures
        set_session_token_hash_apply(s, session_id, hash).wf(),
{
    let t = set_session_token_hash_apply(s, session_id, hash);
    assert forall|i: int| 0 <= i < t.sessions.len() implies #[trigger] t.session_wf(i) by {
        assert(s.session_wf(i));
        lemma_member_stays(s, t, s.sessions[i].id, s.sessions[i].administrator);
    }
    assert forall|j: int| 0 <= j < t.members.len() implies #[trigger] t.member_wf(j) by {
        assert(s.member_wf(j));
    }
}

/// Admitting a member that was not rejected keeps the invariant.
pub proof fn lemma_insert_member_wf(
    s: LedgerView,
    session_id: nat,
    address: Seq<u8>,
    display_name: Seq<char>,
)
    requires
        s.wf(),
        s.has_session(session_id),
        insert_member_rejection(s, session_id, address, display_name) is None,
    ensures
        insert_member_apply(s, session_id, address, display_name).wf(),
{
    let t = insert_member_apply(s, session_id, address, display_name);
    assert forall|i: int| 0 <= i < t.sessions.len() implies #[trigger] t.session_wf(i) by {
        assert(s.session_wf(i));
        lemma_member_stays(s, t, s.sessions[i].id, s.sessions[i].administrator);
    }
    assert forall|j: int| 0 <= j < t.members.len() implies #[trigger] t.member_wf(j) by {
        if j < s.members.len() {
            assert(s.member_wf(j));
        } else {
            assert(s.session_wf(session_id as int));
        }
    }
    assert forall|j: int, k: int| 0 <= j < k < t.members.len() implies !(
    #[trigger] t.members[j].session_id == #[trigger] t.members[k].session_id
        && t.members[j].address == t.members[k].address) by {
        if k < s.members.len() {
            assert(s.members[j].session_id == s.members[k].session_id ==> s.members[j].address
                != s.members[k].address);
        } else {
            assert(is_record_of(s.members[j], session_id, address) ==> s.is_member(
                session_id,
                address,
            ));
        }
    }
}

} // verus!
