//! What the authorization service has said of the caller of an operation.
//!
//! The engine does not establish who calls it. Whoever does hands every
//! operation the two answers it may need.

use vstd::prelude::*;

verus! {

#[derive(Clone, Copy, Debug, PartialEq, Eq, Structural)]
pub struct Authorization {
    /// The caller holds the administrative capability.
    pub is_admin: bool,
    /// The caller owns the record that the operation acts for: the ledger
    /// for an operation on orders, the market for one on a market alone.
    pub is_owner: bool,
}

} // verus!
