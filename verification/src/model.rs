//! The ledger as a mathematical value, and each operation as a function on it.
//!
//! Every operation is described by two functions: a `*_rejection`, which names the
//! error the operation is rejected with (or `None` when it is allowed), and a
//! `*_apply`, which gives the ledger after an allowed operation. A rejected
//! operation leaves the ledger as it was.

use vstd::prelude::*;
use crate::digest::token_digest_of;
use crate::errors::SolidrError;
use crate::state::{
    text_bytes, EventView, MemberView, SessionStatus, SessionView, MAX_MEMBER_NAME_BYTES,
    MAX_SESSION_DESCRIPTION_BYTES, MAX_SESSION_NAME_BYTES,
};

verus! {

/// Everything the ledger holds.
pub struct LedgerView {
    /// The registry's counter, `None` until the registry is created. It is
    /// the identifier the next session will get.
    pub registry: Option<nat>,
    /// Session records; the session with identifier `i` is at index `i`.
    pub sessions: Seq<SessionView>,
    /// Membership records in the order they were created.
    pub members: Seq<MemberView>,
    /// Events in the order they were emitted.
    pub events: Seq<EventView>,
}

/// Whether a membership record is the one for `(session_id, address)`.
pub open spec fn is_record_of(member: MemberView, session_id: nat, address: Seq<u8>) -> bool {
    member.session_id == session_id && member.address == address
}

impl LedgerView {
    /// The ledger before anything has happened.
    pub open spec fn empty() -> LedgerView {
        LedgerView {
            registry: None,
            sessions: Seq::empty(),
            members: Seq::empty(),
            events: Seq::empty(),
        }
    }

    /// Whether a session with this identifier exists.
    pub open spec fn has_session(self, session_id: nat) -> bool {
        session_id < self.sessions.len()
    }

    /// The session with this identifier.
    pub open spec fn session(self, session_id: nat) -> SessionView
        recommends
            self.has_session(session_id),
    {
        self.sessions[session_id as int]
    }

    /// Whether a membership record exists for `(session_id, address)`.
    pub open spec fn is_member(self, session_id: nat, address: Seq<u8>) -> bool {
        exists|j: int|
            0 <= j < self.members.len() && #[trigger] is_record_of(
                self.members[j],
                session_id,
                address,
            )
    }

    /// The session at index `i` carries identifier `i`, its texts are within
    /// their limits, and its administrator is one of its members.
    pub open spec fn session_wf(self, i: int) -> bool {
        let session = self.sessions[i];
        &&& session.id == i
        &&& text_bytes(session.name) <= MAX_SESSION_NAME_BYTES
        &&& text_bytes(session.description) <= MAX_SESSION_DESCRIPTION_BYTES
        &&& self.is_member(session.id, session.administrator)
    }

    /// The membership record at index `j` belongs to an existing session, its
    /// name is within the limit, and it is flagged as administrator exactly
    /// when its address is the session's administrator.
    pub open spec fn member_wf(self, j: int) -> bool {
        let member = self.members[j];
        &&& self.has_session(member.session_id)
        &&& text_bytes(member.display_name) <= MAX_MEMBER_NAME_BYTES
        &&& member.is_administrator <==> member.address == self.session(
            member.session_id,
        ).administrator
    }

    /// No two membership records share both session and address.
    pub open spec fn members_distinct(self) -> bool {
        forall|j: int, k: int|
            0 <= j < k < self.members.len() ==> !(#[trigger] self.members[j].session_id
                == #[trigger] self.members[k].session_id && self.members[j].address
                == self.members[k].address)
    }

    /// The invariant every operation preserves.
    pub open spec fn wf(self) -> bool {
        &&& self.registry is None ==> self.sessions.len() == 0
        &&& self.registry matches Some(next) ==> self.sessions.len() == next
        &&& forall|i: int| 0 <= i < self.sessions.len() ==> #[trigger] self.session_wf(i)
        &&& forall|j: int| 0 <= j < self.members.len() ==> #[trigger] self.member_wf(j)
        &&& self.members_distinct()
    }
}

/// Creating the registry is rejected once it exists.
pub open spec fn init_global_rejection(s: LedgerView) -> Option<SolidrError> {
    if s.registry is Some {
        Some(SolidrError::AlreadyInitialized)
    } else {
        None
    }
}

/// The ledger with a fresh registry whose counter is 0.
pub open spec fn init_global_apply(s: LedgerView) -> LedgerView {
    LedgerView { registry: Some(0nat), ..s }
}

/// Opening a session needs the registry, and texts within their limits.
pub open spec fn open_session_rejection(
    s: LedgerView,
    name: Seq<char>,
    description: Seq<char>,
    member_name: Seq<char>,
) -> Option<SolidrError> {
    if s.registry is None {
        Some(SolidrError::RegistryNotInitialized)
    } else if text_bytes(name) > MAX_SESSION_NAME_BYTES || text_bytes(description)
        > MAX_SESSION_DESCRIPTION_BYTES || text_bytes(member_name) > MAX_MEMBER_NAME_BYTES {
        Some(SolidrError::ValidationError)
    } else {
        None
    }
}

/// The ledger with one more session, opened by `caller`: the session takes
/// the counter's value as its identifier, the counter moves on by one, the
/// caller becomes administrator and first member, and `SessionCreated` is
/// emitted.
pub open spec fn open_session_apply(
    s: LedgerView,
    caller: Seq<u8>,
    name: Seq<char>,
    description: Seq<char>,
    member_name: Seq<char>,
) -> LedgerView
    recommends
        s.registry is Some,
{
    let id = s.registry->0;
    LedgerView {
        registry: Some(id + 1),
        sessions: s.sessions.push(
            SessionView {
                id,
                name,
                description,
                administrator: caller,
                status: SessionStatus::Opened,
                invite_token_hash: None,
            },
        ),
        members: s.members.push(
            MemberView {
                session_id: id,
                address: caller,
                display_name: member_name,
                is_administrator: true,
            },
        ),
        events: s.events.push(EventView::SessionCreated { session_id: id, administrator: caller }),
    }
}

/// What only the administrator may do to an open session: the session must
/// exist, the caller must be its administrator, and it must not be closed.
pub open spec fn administrator_rejection(s: LedgerView, caller: Seq<u8>, session_id: nat) -> Option<
    SolidrError,
> {
    if !s.has_session(session_id) {
        Some(SolidrError::NotFound)
    } else if s.session(session_id).administrator != caller {
        Some(SolidrError::Unauthorized)
    } else if s.session(session_id).status is Closed {
        Some(SolidrError::InvalidState)
    } else {
        None
    }
}

/// Closing a session is for its administrator, once.
pub open spec fn close_session_rejection(s: LedgerView, caller: Seq<u8>, session_id: nat) -> Option<
    SolidrError,
> {
    administrator_rejection(s, caller, session_id)
}

/// The ledger with the session closed and `SessionClosed` emitted.
pub open spec fn close_session_apply(s: LedgerView, session_id: nat) -> LedgerView
    recommends
        s.has_session(session_id),
{
    LedgerView {
        sessions: s.sessions.update(
            session_id as int,
            SessionView { status: SessionStatus::Closed, ..s.session(session_id) },
        ),
        events: s.events.push(EventView::SessionClosed { session_id }),
        ..s
    }
}

/// Setting the invitation hash is for the administrator of an open session.
pub open spec fn set_session_token_hash_rejection(
    s: LedgerView,
    caller: Seq<u8>,
    session_id: nat,
) -> Option<SolidrError> {
    administrator_rejection(s, caller, session_id)
}

/// The ledger with the session's invitation hash replaced by `hash`.
pub open spec fn set_session_token_hash_apply(
    s: LedgerView,
    session_id: nat,
    hash: Seq<u8>,
) -> LedgerView
    recommends
        s.has_session(session_id),
{
    LedgerView {
        sessions: s.sessions.update(
            session_id as int,
            SessionView { invite_token_hash: Some(hash), ..s.session(session_id) },
        ),
        ..s
    }
}

/// What both ways of admission test, in this order: the session
/// is open, the address is not yet a member, the name is within its limit.
pub open spec fn insert_member_rejection(
    s: LedgerView,
    session_id: nat,
    address: Seq<u8>,
    display_name: Seq<char>,
) -> Option<SolidrError>
    recommends
        s.has_session(session_id),
{
    if s.session(session_id).status is Closed {
        Some(SolidrError::InvalidState)
    } else if s.is_member(session_id, address) {
        Some(SolidrError::DuplicateMember)
    } else if text_bytes(display_name) > MAX_MEMBER_NAME_BYTES {
        Some(SolidrError::ValidationError)
    } else {
        None
    }
}

/// The ledger with one more ordinary member and `MemberAdded` emitted.
pub open spec fn insert_member_apply(
    s: LedgerView,
    session_id: nat,
    address: Seq<u8>,
    display_name: Seq<char>,
) -> LedgerView {
    LedgerView {
        members: s.members.push(
            MemberView { session_id, address, display_name, is_administrator: false },
        ),
        events: s.events.push(EventView::MemberAdded { session_id, address, display_name }),
        ..s
    }
}

/// A direct add is for the session's administrator; then the shared tests.
pub open spec fn add_session_member_rejection(
    s: LedgerView,
    caller: Seq<u8>,
    session_id: nat,
    address: Seq<u8>,
    display_name: Seq<char>,
) -> Option<SolidrError> {
    if !s.has_session(session_id) {
        Some(SolidrError::NotFound)
    } else if s.session(session_id).administrator != caller {
        Some(SolidrError::Unauthorized)
    } else {
        insert_member_rejection(s, session_id, address, display_name)
    }
}

/// A self-service join needs a configured invitation hash equal to the
/// digest of the presented token; then the shared tests, with the caller as
/// the address to admit.
pub open spec fn join_session_rejection(
    s: LedgerView,
    caller: Seq<u8>,
    session_id: nat,
    display_name: Seq<char>,
    digest: Seq<u8>,
) -> Option<SolidrError> {
    if !s.has_session(session_id) {
        Some(SolidrError::NotFound)
    } else {
        match s.session(session_id).invite_token_hash {
            None => Some(SolidrError::NoTokenConfigured),
            Some(stored) => if stored != digest {
                Some(SolidrError::InvalidToken)
            } else {
                insert_member_rejection(s, session_id, caller, display_name)
            },
        }
    }
}

/// One operation with its arguments, without the caller.
pub enum Call {
    InitGlobal,
    OpenSession { name: Seq<char>, description: Seq<char>, member_name: Seq<char> },
    CloseSession { session_id: nat },
    SetSessionTokenHash { session_id: nat, hash: Seq<u8> },
    AddSessionMember { session_id: nat, address: Seq<u8>, display_name: Seq<char> },
    JoinSessionAsMember { session_id: nat, display_name: Seq<char>, token: Seq<char> },
}

/// An operation as submitted: who calls, and what.
pub struct Request {
    pub caller: Seq<u8>,
    pub call: Call,
}

/// The error a request is rejected with, `None` when it is allowed.
pub open spec fn rejection(s: LedgerView, request: Request) -> Option<SolidrError> {
    let caller = request.caller;
    match request.call {
        Call::InitGlobal => init_global_rejection(s),
        Call::OpenSession { name, description, member_name } => open_session_rejection(
            s,
            name,
            description,
            member_name,
        ),
        Call::CloseSession { session_id } => close_session_rejection(s, caller, session_id),
        Call::SetSessionTokenHash { session_id, hash } => set_session_token_hash_rejection(
            s,
            caller,
            session_id,
        ),
        Call::AddSessionMember { session_id, address, display_name } => add_session_member_rejection(
            s,
            caller,
            session_id,
            address,
            display_name,
        ),
        Call::JoinSessionAsMember { session_id, display_name, token } => join_session_rejection(
            s,
            caller,
            session_id,
            display_name,
            token_digest_of(token),
        ),
    }
}

/// The ledger after an allowed request.
pub open spec fn apply(s: LedgerView, request: Request) -> LedgerView {
    let caller = request.caller;
    match request.call {
        Call::InitGlobal => init_global_apply(s),
        Call::OpenSession { name, description, member_name } => open_session_apply(
            s,
            caller,
            name,
            description,
            member_name,
        ),
        Call::CloseSession { session_id } => close_session_apply(s, session_id),
        Call::SetSessionTokenHash { session_id, hash } => set_session_token_hash_apply(
            s,
            session_id,
            hash,
        ),
        Call::AddSessionMember { session_id, address, display_name } => insert_member_apply(
            s,
            session_id,
            address,
            display_name,
        ),
        Call::JoinSessionAsMember { session_id, display_name, token } => insert_member_apply(
            s,
            session_id,
            caller,
            display_name,
        ),
    }
}

/// The ledger after a request: changed as the operation says when the
/// request is allowed, untouched when it is rejected.
pub open spec fn step(s: LedgerView, request: Request) -> LedgerView {
    if rejection(s, request) is None {
        apply(s, request)
    } else {
        s
    }
}

/// The ledger after a sequence of requests, served one after the other.
pub open spec fn run(s: LedgerView, requests: Seq<Request>) -> LedgerView
    decreases requests.len(),
{
    if requests.len() == 0 {
        s
    } else {
        step(run(s, requests.drop_last()), requests.last())
    }
}

} // verus!
