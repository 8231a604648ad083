//! The credential cell shared by a session and every handle it hands out.

use std::sync::Arc;
use vstd::prelude::*;
use vstd::rwlock::RwLock;
use vstd::rwlock::RwLockPredicate;
use crate::text::joined;

verus! {

/// The `Authorization` value for a bearer token: `Bearer <token>`.
pub open spec fn bearer_header(token: Seq<char>) -> Seq<char> {
    "Bearer "@ + token
}

/// Whether a header is a whole bearer header for some token.
pub open spec fn is_bearer_header(h: Seq<char>) -> bool {
    exists|t: Seq<char>| h == #[trigger] bearer_header(t)
}

/// What the cell holds at every moment: a whole bearer header.
pub struct WholeBearerHeader;

impl RwLockPredicate<String> for WholeBearerHeader {
    open spec fn inv(self, v: String) -> bool {
        is_bearer_header(v@)
    }
}

/// Renders the bearer header for `token`.
pub fn bearer_header_for(token: &str) -> (r: String)
    ensures
        r@ == bearer_header(token@),
{
    joined("Bearer ", token)
}

/// A shared, lock-guarded bearer header. Clones share one cell: a header
/// written through any of them is the one every later read returns. The lock
/// is held only while a header is copied out or replaced.
pub struct CredentialStore {
    cell: Arc<RwLock<String, WholeBearerHeader>>,
}

impl CredentialStore {
    /// Whether two stores share one cell.
    pub closed spec fn same_cell(&self, other: &CredentialStore) -> bool {
        self.cell == other.cell
    }

    /// A new cell that holds the bearer header of `token`.
    pub fn new(token: &str) -> (r: CredentialStore) {
        let header = bearer_header_for(token);
        assert(is_bearer_header(header@)) by {
            assert(header@ == bearer_header(token@));
        }
        CredentialStore { cell: Arc::new(RwLock::new(header, Ghost(WholeBearerHeader))) }
    }

    /// Another handle on the same cell.
    pub fn share(&self) -> (r: CredentialStore)
        ensures
            r.same_cell(self),
    {
        CredentialStore { cell: self.cell.clone() }
    }

    /// A copy of the current header, taken under the lock; it is never a
    /// partly written one.
    pub fn header(&self) -> (r: String)
        ensures
            is_bearer_header(r@),
    {
        let read = self.cell.acquire_read();
        let r = read.borrow().clone();
        read.release_read();
        r
    }

    /// Replaces the header with the bearer header of `token`, under the lock.
    pub fn replace(&self, token: &str) {
        let header = bearer_header_for(token);
        assert(is_bearer_header(header@)) by {
            assert(header@ == bearer_header(token@));
        }
        let (_previous, write) = self.cell.acquire_write();
        write.release_write(header);
    }
}

} // verus!
