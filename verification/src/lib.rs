//! Shared expense-splitting sessions: who may open, close and join them.
//!
//! The crate keeps the whole ledger of sessions and members in one value and
//! exposes one function per operation. Every operation takes the caller's
//! address explicitly and either commits in full or leaves the ledger
//! untouched.

pub mod digest;
pub mod errors;
pub mod preservation;
pub mod state;
pub mod model;
pub mod laws;
pub mod ledger;
pub mod members;
pub mod registry;
pub mod sessions;

pub use errors::SolidrError;
pub use ledger::Solidr;
pub use members::{add_session_member, join_session_as_member, join_session_with_digest};
pub use registry::init_global;
pub use sessions::{close_session, open_session, set_session_token_hash};
pub use state::{Address, Event, Member, Session, SessionStatus};
