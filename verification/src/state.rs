//! Records kept by the ledger and their mathematical views.

use vstd::prelude::*;
use vstd::string::StringSliceAdditionalSpecFns;
use vstd::utf8::encode_utf8;

verus! {

/// Longest session name, in UTF-8 bytes.
pub const MAX_SESSION_NAME_BYTES: usize = 64;

/// Longest session description, in UTF-8 bytes.
pub const MAX_SESSION_DESCRIPTION_BYTES: usize = 256;

/// Longest member display name, in UTF-8 bytes.
pub const MAX_MEMBER_NAME_BYTES: usize = 64;

/// Length of a text in UTF-8 bytes.
pub open spec fn text_bytes(text: Seq<char>) -> nat {
    encode_utf8(text).len()
}

/// Measures a text in UTF-8 bytes.
pub fn text_len(text: &str) -> (len: usize)
    ensures
        len == text_bytes(text@),
{
    text.as_bytes().len()
}

/// An authenticated identity: 32 opaque bytes, compared byte for byte.
#[derive(Clone, Copy, Debug)]
pub struct Address {
    pub bytes: [u8; 32],
}

impl View for Address {
    type V = Seq<u8>;

    open spec fn view(&self) -> Seq<u8> {
        self.bytes@
    }
}

/// Byte-for-byte equality of two 32-byte values.
pub fn bytes_equal(left: &[u8; 32], right: &[u8; 32]) -> (same: bool)
    ensures
        same == (left@ == right@),
{
    let mut i: usize = 0;
    while i < 32
        invariant
            i <= 32,
            forall|k: int| 0 <= k < i ==> left@[k] == right@[k],
        decreases 32 - i,
    {
        if left[i] != right[i] {
            return false;
        }
        i = i + 1;
    }
    assert(left@ =~= right@);
    true
}

impl Address {
    /// Wraps 32 raw bytes.
    pub fn new(bytes: [u8; 32]) -> (address: Address)
        ensures
            address@ == bytes@,
    {
        Address { bytes }
    }

    /// Whether two addresses hold the same bytes.
    pub fn same(&self, other: &Address) -> (same: bool)
        ensures
            same == (self@ == other@),
    {
        bytes_equal(&self.bytes, &other.bytes)
    }
}

impl PartialEq for Address {
    fn eq(&self, other: &Address) -> (same: bool) {
        bytes_equal(&self.bytes, &other.bytes)
    }
}

impl vstd::std_specs::cmp::PartialEqSpecImpl for Address {
    open spec fn obeys_eq_spec() -> bool {
        true
    }

    open spec fn eq_spec(&self, other: &Address) -> bool {
        self.bytes@ == other.bytes@
    }
}

/// Where a session is in its lifecycle. `Closed` is terminal.
#[derive(Clone, Copy, Debug, PartialEq, Eq, Structural)]
pub enum SessionStatus {
    Opened,
    Closed,
}

/// One session record.
#[derive(Clone, Debug)]
pub struct Session {
    pub id: u64,
    pub name: String,
    pub description: String,
    pub administrator: Address,
    pub status: SessionStatus,
    pub invite_token_hash: Option<[u8; 32]>,
}

/// What a session record holds, as plain mathematics.
pub struct SessionView {
    pub id: nat,
    pub name: Seq<char>,
    pub description: Seq<char>,
    pub administrator: Seq<u8>,
    pub status: SessionStatus,
    pub invite_token_hash: Option<Seq<u8>>,
}

impl View for Session {
    type V = SessionView;

    open spec fn view(&self) -> SessionView {
        SessionView {
            id: self.id as nat,
            name: self.name@,
            description: self.description@,
            administrator: self.administrator@,
            status: self.status,
            invite_token_hash: match self.invite_token_hash {
                Some(hash) => Some(hash@),
                None => None,
            },
        }
    }
}

/// One membership record, identified by `(session_id, address)`.
#[derive(Clone, Debug)]
pub struct Member {
    pub session_id: u64,
    pub address: Address,
    pub display_name: String,
    pub is_administrator: bool,
}

/// What a membership record holds, as plain mathematics.
pub struct MemberView {
    pub session_id: nat,
    pub address: Seq<u8>,
    pub display_name: Seq<char>,
    pub is_administrator: bool,
}

impl View for Member {
    type V = MemberView;

    open spec fn view(&self) -> MemberView {
        MemberView {
            session_id: self.session_id as nat,
            address: self.address@,
            display_name: self.display_name@,
            is_administrator: self.is_administrator,
        }
    }
}

/// An observable side effect of a committed operation.
#[derive(Clone, Debug)]
pub enum Event {
    SessionCreated { session_id: u64, administrator: Address },
    SessionClosed { session_id: u64 },
    MemberAdded { session_id: u64, address: Address, display_name: String },
}

/// What an event carries, as plain mathematics.
pub enum EventView {
    SessionCreated { session_id: nat, administrator: Seq<u8> },
    SessionClosed { session_id: nat },
    MemberAdded { session_id: nat, address: Seq<u8>, display_name: Seq<char> },
}

impl View for Event {
    type V = EventView;

    open spec fn view(&self) -> EventView {
        match *self {
            Event::SessionCreated { session_id, administrator } => EventView::SessionCreated {
                session_id: session_id as nat,
                administrator: administrator@,
            },
            Event::SessionClosed { session_id } => EventView::SessionClosed {
                session_id: session_id as nat,
            },
            Event::MemberAdded { session_id, address, display_name } => EventView::MemberAdded {
                session_id: session_id as nat,
                address: address@,
                display_name: display_name@,
            },
        }
    }
}

} // verus!
