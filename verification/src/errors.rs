//! The error taxonomy. Every operation that can abort returns one of these
//! kinds and leaves the registry exactly as it was.

use vstd::prelude::*;

verus! {

/// One terminal failure kind per aborted invocation.
#[derive(Clone, Copy, Debug, PartialEq, Eq)]
pub enum TokenError {
    /// Malformed input: a bad duration string, a zero enumeration limit, a
    /// pagination index beyond the collection, or an ill-formed royalty
    /// mapping (a repeated beneficiary, a share over 10000 basis points, or
    /// shares that total over 10000).
    Validation,
    /// A token id that is already taken.
    Conflict,
    /// More royalty beneficiaries than the registry (6) or the caller
    /// (`max_len_payout`) can handle.
    CapacityExceeded,
    /// A token, royalty table or owner that is absent — or hidden: an
    /// expired token read by a caller that is neither its owner nor the
    /// contract itself.
    NotFound,
    /// A caller that may not perform the operation, or a payout-gated
    /// transfer without its minimal anti-griefing payment.
    Unauthorized,
    /// An attached payment below the storage cost of the mutation.
    Underpayment,
}

} // verus!
