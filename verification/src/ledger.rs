//! The ledger: the registry, the session store and the membership store.

use vstd::prelude::*;
use crate::model::{is_record_of, LedgerView};
use crate::state::{Address, Event, Member, Session};

verus! {

/// All sessions and members, with the registry that numbers the sessions and
/// the log of emitted events.
///
/// The fields are private to the crate: a ledger can only be made by
/// [`Solidr::new`] and changed by the operations, so it is always well formed.
pub struct Solidr {
    pub(crate) registry: Option<u64>,
    pub(crate) sessions: Vec<Session>,
    pub(crate) members: Vec<Member>,
    pub(crate) events: Vec<Event>,
}

impl Solidr {
    /// What the ledger holds.
    pub open(crate) spec fn view(&self) -> LedgerView {
        LedgerView {
            registry: match self.registry {
                Some(next) => Some(next as nat),
                None => None,
            },
            sessions: self.sessions@.map_values(|session: Session| session@),
            members: self.members@.map_values(|member: Member| member@),
            events: self.events@.map_values(|event: Event| event@),
        }
    }

    /// The ledger's invariant, see [`LedgerView::wf`].
    pub open spec fn wf(&self) -> bool {
        self@.wf()
    }

    /// A ledger with no registry, no session, no member and no event.
    pub fn new() -> (ledger: Solidr)
        ensures
            ledger@ == LedgerView::empty(),
            ledger.wf(),
    {
        let ledger = Solidr {
            registry: None,
            sessions: Vec::new(),
            members: Vec::new(),
            events: Vec::new(),
        };
        assert(ledger@.sessions =~= Seq::empty());
        assert(ledger@.members =~= Seq::empty());
        assert(ledger@.events =~= Seq::empty());
        ledger
    }

    /// Whether the registry has been created.
    pub fn is_initialized(&self) -> (initialized: bool)
        ensures
            initialized == (self@.registry is Some),
    {
        self.registry.is_some()
    }

    /// The identifier the next session will get, `None` without a registry.
    pub fn next_session_id(&self) -> (next: Option<u64>)
        ensures
            match next {
                Some(id) => self@.registry == Some(id as nat),
                None => self@.registry is None,
            },
    {
        self.registry
    }

    /// The session with this identifier, `None` when there is none.
    pub fn session(&self, session_id: u64) -> (found: Option<&Session>)
        ensures
            match found {
                Some(session) => self@.has_session(session_id as nat) && session@
                    == self@.session(session_id as nat),
                None => !self@.has_session(session_id as nat),
            },
    {
        if session_id < self.sessions.len() as u64 {
            Some(&self.sessions[session_id as usize])
        } else {
            None
        }
    }

    /// Where the membership record for `(session_id, address)` is stored,
    /// `None` when the address is not a member of that session.
    pub fn member_index(&self, session_id: u64, address: &Address) -> (found: Option<usize>)
        ensures
            match found {
                Some(j) => j < self@.members.len() && is_record_of(
                    self@.members[j as int],
                    session_id as nat,
                    address@,
                ),
                None => !self@.is_member(session_id as nat, address@),
            },
    {
        let mut j: usize = 0;
        while j < self.members.len()
            invariant
                j <= self.members.len(),
                forall|k: int|
                    0 <= k < j ==> !#[trigger] is_record_of(
                        self@.members[k],
                        session_id as nat,
                        address@,
                    ),
            decreases self.members.len() - j,
        {
            let member = &self.members[j];
            if member.session_id == session_id && member.address.same(address) {
                return Some(j);
            }
            j = j + 1;
        }
        None
    }

    /// Whether `address` is a member of the session.
    pub fn is_member(&self, session_id: u64, address: &Address) -> (found: bool)
        ensures
            found == self@.is_member(session_id as nat, address@),
    {
        self.member_index(session_id, address).is_some()
    }

    /// The membership record for `(session_id, address)`, `None` when the
    /// address is not a member of that session.
    pub fn member(&self, session_id: u64, address: &Address) -> (found: Option<&Member>)
        ensures
            match found {
                Some(member) => self@.members.contains(member@) && is_record_of(
                    member@,
                    session_id as nat,
                    address@,
                ),
                None => !self@.is_member(session_id as nat, address@),
            },
    {
        match self.member_index(session_id, address) {
            Some(j) => {
                assert(self@.members[j as int] == self.members@[j as int]@);
                Some(&self.members[j])
            },
            None => None,
        }
    }

    /// All session records; the one with identifier `i` is at index `i`.
    pub fn sessions(&self) -> (sessions: &Vec<Session>)
        ensures
            sessions@.map_values(|session: Session| session@) == self@.sessions,
    {
        &self.sessions
    }

    /// All membership records, oldest first.
    pub fn members(&self) -> (members: &Vec<Member>)
        ensures
            members@.map_values(|member: Member| member@) == self@.members,
    {
        &self.members
    }

    /// All events emitted so far, oldest first.
    pub fn events(&self) -> (events: &Vec<Event>)
        ensures
            events@.map_values(|event: Event| event@) == self@.events,
    {
        &self.events
    }
}

} // verus!
