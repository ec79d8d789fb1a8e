//! The reasons an operation can be rejected.

use vstd::prelude::*;

verus! {

/// Why an operation was rejected. Each rejected precondition maps to exactly
/// one of these, and a rejected operation leaves the ledger as it was.
#[derive(Clone, Copy, Debug, PartialEq, Eq, Structural)]
pub enum SolidrError {
    /// A session was opened before the registry was created.
    RegistryNotInitialized,
    /// The registry was created a second time.
    AlreadyInitialized,
    /// A text argument is longer than its limit.
    ValidationError,
    /// No session has the given identifier.
    NotFound,
    /// The caller is not the session's administrator.
    Unauthorized,
    /// The session is closed.
    InvalidState,
    /// The address is already a member of the session.
    DuplicateMember,
    /// The session has no invitation hash to compare a token against.
    NoTokenConfigured,
    /// The token does not hash to the session's invitation hash.
    InvalidToken,
}

} // verus!
