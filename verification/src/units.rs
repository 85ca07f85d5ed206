//! The storage cost meter. Every persisted record occupies a number of
//! storage units — a deterministic function of its contents, counted in
//! UTF-8 bytes for text plus a fixed width for numeric fields. A mutation is
//! paid for by its caller: the cost is the unit delta times the per-unit
//! price, and any excess of the attached payment over the cost is refunded
//! within the same call.
//!
//! Unit totals over unboundedly many entries saturate at `u128::MAX`; a cost
//! that large exceeds any representable payment and is simply unpayable.

use vstd::prelude::*;
use vstd::string::StringSliceAdditionalSpecFns;
use vstd::utf8::encode_utf8;

use crate::errors::TokenError;
use crate::metadata::TokenMetadata;
use crate::token::TokenRecord;

verus! {

/// Addition that saturates at `u128::MAX`.
pub open spec fn sat_add(a: nat, b: nat) -> nat {
    if a + b > u128::MAX {
        u128::MAX as nat
    } else {
        a + b
    }
}

/// The storage units of a text value: its length in UTF-8 bytes.
pub open spec fn str_units(s: Seq<char>) -> nat {
    encode_utf8(s).len()
}

/// The storage units of an optional text field.
pub open spec fn opt_str_units(o: Option<String>) -> nat {
    match o {
        Some(s) => str_units(s@),
        None => 0,
    }
}

/// The storage units of an optional hash field: one per byte.
pub open spec fn opt_bytes_units(o: Option<Vec<u8>>) -> nat {
    match o {
        Some(b) => b@.len(),
        None => 0,
    }
}

/// The storage units of a token's metadata.
pub open spec fn metadata_units(m: TokenMetadata) -> nat {
    opt_str_units(m.title) + opt_str_units(m.description) + opt_str_units(m.media)
        + opt_bytes_units(m.media_hash) + (
    if m.copies is Some {
        8nat
    } else {
        0nat
    }) + opt_str_units(m.issued_at) + opt_str_units(m.expires_at) + opt_str_units(m.starts_at)
        + opt_str_units(m.updated_at) + opt_str_units(m.extra) + opt_str_units(m.reference)
        + opt_bytes_units(m.reference_hash)
}

/// The storage units of an approval set: each entry holds an account name
/// and one sequence number.
pub open spec fn approvals_units(s: Seq<(String, u64)>) -> nat
    decreases s.len(),
{
    if s.len() == 0 {
        0
    } else {
        sat_add(approvals_units(s.drop_last()), str_units(s.last().0@) + 8nat)
    }
}

/// The storage units of a royalty table: each entry holds an account name
/// and one basis-point share.
pub open spec fn royalty_pairs_units(s: Seq<(String, u32)>) -> nat
    decreases s.len(),
{
    if s.len() == 0 {
        0
    } else {
        sat_add(royalty_pairs_units(s.drop_last()), str_units(s.last().0@) + 4nat)
    }
}

/// The storage units of an optional royalty table.
pub open spec fn royalty_units(o: Option<Vec<(String, u32)>>) -> nat {
    match o {
        Some(v) => royalty_pairs_units(v@),
        None => 0,
    }
}

/// The fixed part of a record: its id, owner, metadata and expiry slot.
pub open spec fn record_base_units(
    id: Seq<char>,
    owner: Seq<char>,
    m: TokenMetadata,
    has_expiry: bool,
) -> nat {
    str_units(id) + str_units(owner) + metadata_units(m) + (
    if has_expiry {
        8nat
    } else {
        0nat
    })
}

/// The storage units of one whole token record.
pub open spec fn record_units(r: TokenRecord) -> nat {
    sat_add(
        sat_add(
            record_base_units(r.token_id@, r.owner_id@, r.metadata, r.expiration is Some),
            approvals_units(r.approvals@),
        ),
        royalty_units(r.royalty),
    )
}

/// The storage units of the whole registry.
pub open spec fn registry_units(s: Seq<TokenRecord>) -> nat
    decreases s.len(),
{
    if s.len() == 0 {
        0
    } else {
        sat_add(registry_units(s.drop_last()), record_units(s.last()))
    }
}

/// The cost of a mutation that added `delta` storage units.
pub open spec fn storage_cost(delta: nat, cost_per_unit: u128) -> int {
    delta * cost_per_unit
}

/// Saturating addition, executably.
pub fn sat_add_u128(a: u128, b: u128) -> (r: u128)
    ensures
        r as nat == sat_add(a as nat, b as nat),
{
    if a > u128::MAX - b {
        u128::MAX
    } else {
        a + b
    }
}

/// Counts the units of a text value.
pub fn string_units(s: &String) -> (n: usize)
    ensures
        n as nat == str_units(s@),
{
    s.as_str().as_bytes().len()
}

/// Counts the units of an optional text field.
pub fn opt_string_units(o: &Option<String>) -> (n: usize)
    ensures
        n as nat == opt_str_units(*o),
{
    match o {
        Some(s) => string_units(s),
        None => 0,
    }
}

/// Counts the units of an optional hash field.
pub fn opt_bytes_units_exec(o: &Option<Vec<u8>>) -> (n: usize)
    ensures
        n as nat == opt_bytes_units(*o),
{
    match o {
        Some(b) => b.len(),
        None => 0,
    }
}

/// Counts the units of a token's metadata.
pub fn metadata_units_exec(m: &TokenMetadata) -> (u: u128)
    ensures
        u as nat == metadata_units(*m),
        u <= 12 * (u64::MAX as u128),
{
    let copies_units: u128 = if m.copies.is_some() {
        8
    } else {
        0
    };
    opt_string_units(&m.title) as u128 + opt_string_units(&m.description) as u128
        + opt_string_units(&m.media) as u128 + opt_bytes_units_exec(&m.media_hash) as u128
        + copies_units + opt_string_units(&m.issued_at) as u128
        + opt_string_units(&m.expires_at) as u128 + opt_string_units(&m.starts_at) as u128
        + opt_string_units(&m.updated_at) as u128 + opt_string_units(&m.extra) as u128
        + opt_string_units(&m.reference) as u128 + opt_bytes_units_exec(&m.reference_hash) as u128
}

/// Counts the units of an approval set.
pub fn approvals_units_exec(v: &Vec<(String, u64)>) -> (u: u128)
    ensures
        u as nat == approvals_units(v@),
{
    let n = v.len();
    let mut acc: u128 = 0;
    let mut i: usize = 0;
    while i < n
        invariant
            n == v@.len(),
            0 <= i <= n,
            acc as nat == approvals_units(v@.take(i as int)),
        decreases n - i,
    {
        let term = string_units(&v[i].0) as u128 + 8;
        acc = sat_add_u128(acc, term);
        proof {
            assert(v@.take(i + 1).drop_last() =~= v@.take(i as int));
            assert(v@.take(i + 1).last() == v@[i as int]);
        }
        i = i + 1;
    }
    proof {
        assert(v@.take(n as int) =~= v@);
    }
    acc
}

/// Counts the units of a royalty table.
pub fn royalty_pairs_units_exec(v: &Vec<(String, u32)>) -> (u: u128)
    ensures
        u as nat == royalty_pairs_units(v@),
{
    let n = v.len();
    let mut acc: u128 = 0;
    let mut i: usize = 0;
    while i < n
        invariant
            n == v@.len(),
            0 <= i <= n,
            acc as nat == royalty_pairs_units(v@.take(i as int)),
        decreases n - i,
    {
        let term = string_units(&v[i].0) as u128 + 4;
        acc = sat_add_u128(acc, term);
        proof {
            assert(v@.take(i + 1).drop_last() =~= v@.take(i as int));
            assert(v@.take(i + 1).last() == v@[i as int]);
        }
        i = i + 1;
    }
    proof {
        assert(v@.take(n as int) =~= v@);
    }
    acc
}

/// Counts the units of one whole token record.
pub fn record_units_exec(r: &TokenRecord) -> (u: u128)
    ensures
        u as nat == record_units(*r),
{
    let expiry_units: u128 = if r.expiration.is_some() {
        8
    } else {
        0
    };
    let base = string_units(&r.token_id) as u128 + string_units(&r.owner_id) as u128
        + metadata_units_exec(&r.metadata) + expiry_units;
    let with_approvals = sat_add_u128(base, approvals_units_exec(&r.approvals));
    let royalty: u128 = match &r.royalty {
        Some(v) => royalty_pairs_units_exec(v),
        None => 0,
    };
    sat_add_u128(with_approvals, royalty)
}

/// Settles the payment for a mutation that grew the registry from
/// `units_before` to `units_after` storage units: either the refund owed to
/// the caller, or `Underpayment` when the attached payment does not cover
/// the cost. The caller never pays more than the units actually added.
pub fn settle_payment(
    attached: u128,
    units_before: u128,
    units_after: u128,
    cost_per_unit: u128,
) -> (r: Result<u128, TokenError>)
    requires
        units_before <= units_after,
    ensures
        match r {
            Ok(refund) => {
                &&& attached >= storage_cost((units_after - units_before) as nat, cost_per_unit)
                &&& refund == attached - storage_cost(
                    (units_after - units_before) as nat,
                    cost_per_unit,
                )
            },
            Err(e) => {
                &&& e == TokenError::Underpayment
                &&& attached < storage_cost((units_after - units_before) as nat, cost_per_unit)
            },
        },
{
    let delta = units_after - units_before;
    match delta.checked_mul(cost_per_unit) {
        Some(cost) => {
            if attached >= cost {
                Ok(attached - cost)
            } else {
                Err(TokenError::Underpayment)
            }
        },
        None => Err(TokenError::Underpayment),
    }
}

} // verus!
