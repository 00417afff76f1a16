//! Opaque account identities handed in by the storage substrate.

use vstd::prelude::*;

verus! {

/// The identity of an account on the substrate. The substrate verifies caller
/// identity before an operation runs; the core only ever compares keys for
/// equality, so a key is an opaque token.
#[derive(Clone, Copy, Debug, PartialEq, Eq, Structural)]
pub struct AccountKey {
    pub id: u64,
}

impl AccountKey {
    /// The sentinel key of an account that is not set yet.
    pub fn unset() -> (r: AccountKey)
        ensures
            r.is_unset(),
    {
        AccountKey { id: 0 }
    }

    /// Whether this key is the sentinel of an unset account.
    pub open spec fn is_unset(self) -> bool {
        self.id == 0
    }
}

} // verus!
