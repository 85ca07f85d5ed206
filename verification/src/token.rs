//! The persisted token record and the assembled view handed to callers.
//!
//! A record bundles everything the registry keeps per token: owner,
//! metadata, approvals, the optional absolute expiry timestamp and the
//! optional royalty table. Expiry and royalty are written once at mint and
//! never mutated afterward; expiry hides visibility, it never deletes
//! storage.

use vstd::prelude::*;

use crate::metadata::TokenMetadata;
use crate::metadata::clone_metadata;
use crate::metadata::same_metadata;
use crate::pairs::clone_pairs;
use crate::pairs::pairs_unique;

verus! {

/// The most beneficiaries one royalty table may hold.
pub const MAX_ROYALTY_BENEFICIARIES: usize = 6;

/// Basis points in the whole: shares are integer parts of 1/10000.
pub const BASIS_POINTS_TOTAL: u32 = 10000;

/// Everything the registry persists for one token.
pub struct TokenRecord {
    pub token_id: String,
    pub owner_id: String,
    pub metadata: TokenMetadata,
    pub approvals: Vec<(String, u64)>,
    pub next_approval_id: u64,
    pub expiration: Option<u64>,
    pub royalty: Option<Vec<(String, u32)>>,
}

/// The assembled view of a token, as returned by reads and by mint.
#[derive(Debug, PartialEq, Eq)]
pub struct JsonToken {
    pub token_id: String,
    pub owner_id: String,
    pub metadata: Option<TokenMetadata>,
    pub approved_account_ids: Option<Vec<(String, u64)>>,
    pub expiration_date: Option<u64>,
    pub royalty: Option<Vec<(String, u32)>>,
}

/// The basis points a royalty table hands out in total.
pub open spec fn royalty_total(s: Seq<(String, u32)>) -> int
    decreases s.len(),
{
    if s.len() == 0 {
        0
    } else {
        royalty_total(s.drop_last()) + s.last().1
    }
}

/// A prefix of a royalty table never hands out more than the whole table.
pub proof fn lemma_royalty_total_mono(s: Seq<(String, u32)>, j: int)
    requires
        0 <= j <= s.len(),
    ensures
        royalty_total(s.take(j)) <= royalty_total(s),
    decreases s.len(),
{
    if j == s.len() {
        assert(s.take(j) =~= s);
    } else {
        lemma_royalty_total_mono(s.drop_last(), j);
        assert(s.drop_last().take(j) =~= s.take(j));
    }
}

/// The value checks on a royalty table: unique beneficiaries, each share
/// within the whole, and the shares totalling at most the whole.
pub open spec fn royalty_values_wf(s: Seq<(String, u32)>) -> bool {
    &&& pairs_unique(s)
    &&& forall|i: int| 0 <= i < s.len() ==> (#[trigger] s[i]).1 <= BASIS_POINTS_TOTAL
    &&& royalty_total(s) <= BASIS_POINTS_TOTAL
}

/// A well-formed royalty table: valid values and at most 6 beneficiaries.
pub open spec fn royalty_wf(s: Seq<(String, u32)>) -> bool {
    royalty_values_wf(s) && s.len() <= MAX_ROYALTY_BENEFICIARIES
}

impl TokenRecord {
    /// A well-formed record: unique approvals and, if present, a
    /// well-formed royalty table.
    pub open spec fn wf(&self) -> bool {
        &&& pairs_unique(self.approvals@)
        &&& match self.royalty {
            Some(r) => royalty_wf(r@),
            None => true,
        }
    }

    /// A token is expired when its expiry timestamp is set and lies
    /// strictly before the current time. An absent entry never expires.
    pub open spec fn expired(&self, now: u64) -> bool {
        match self.expiration {
            Some(t) => t < now,
            None => false,
        }
    }
}

/// Some record carries the token id.
pub open spec fn has_token(s: Seq<TokenRecord>, id: Seq<char>) -> bool {
    exists|i: int| 0 <= i < s.len() && s[i].token_id@ == id
}

/// The position of the record with this id (pinned down under
/// `unique_ids`).
pub open spec fn token_idx(s: Seq<TokenRecord>, id: Seq<char>) -> int {
    choose|i: int| 0 <= i < s.len() && s[i].token_id@ == id
}

/// The record stored under this id.
pub open spec fn token_of(s: Seq<TokenRecord>, id: Seq<char>) -> TokenRecord {
    s[token_idx(s, id)]
}

/// No token id occurs twice.
pub open spec fn unique_ids(s: Seq<TokenRecord>) -> bool {
    forall|i: int, j: int| 0 <= i < j < s.len() ==> s[i].token_id@ != s[j].token_id@
}

/// Linear lookup of a token record by id.
pub fn find_token_index(v: &Vec<TokenRecord>, token_id: &String) -> (r: Option<usize>)
    ensures
        r is Some <==> has_token(v@, token_id@),
        r matches Some(i) ==> i < v@.len() && v@[i as int].token_id@ == token_id@,
        unique_ids(v@) ==> (r matches Some(i) ==> i == token_idx(v@, token_id@)),
{
    let n = v.len();
    let mut i: usize = 0;
    while i < n
        invariant
            n == v@.len(),
            0 <= i <= n,
            forall|k: int| 0 <= k < i ==> v@[k].token_id@ != token_id@,
        decreases n - i,
    {
        if v[i].token_id == *token_id {
            proof {
                if unique_ids(v@) {
                    let j = token_idx(v@, token_id@);
                    assert(0 <= j < v@.len() && v@[j].token_id@ == token_id@);
                    assert(j == i);
                }
            }
            return Some(i);
        }
        i = i + 1;
    }
    None
}

/// Whether the record is still visible at `now` on the expiry rule alone.
pub fn record_not_expired(rec: &TokenRecord, now: u64) -> (r: bool)
    ensures
        r == !rec.expired(now),
{
    match rec.expiration {
        Some(t) => t >= now,
        None => true,
    }
}

/// What it means for `v` to be the assembled view of `rec`, with the
/// metadata either shown or suppressed.
pub open spec fn is_view(v: JsonToken, rec: TokenRecord, with_metadata: bool) -> bool {
    &&& v.token_id == rec.token_id
    &&& v.owner_id == rec.owner_id
    &&& match v.metadata {
        Some(m) => with_metadata && same_metadata(m, rec.metadata),
        None => !with_metadata,
    }
    &&& v.approved_account_ids matches Some(a) && a@ == rec.approvals@
    &&& v.expiration_date == rec.expiration
    &&& match rec.royalty {
        Some(r) => v.royalty matches Some(out) && out@ == r@,
        None => v.royalty is None,
    }
}

/// Assembles the caller-facing view of a record, with or without its
/// metadata.
pub fn record_view(rec: &TokenRecord, with_metadata: bool) -> (v: JsonToken)
    ensures
        is_view(v, *rec, with_metadata),
{
    let metadata = if with_metadata {
        Some(clone_metadata(&rec.metadata))
    } else {
        None
    };
    let royalty = match &rec.royalty {
        Some(r) => Some(clone_pairs(r)),
        None => None,
    };
    JsonToken {
        token_id: rec.token_id.clone(),
        owner_id: rec.owner_id.clone(),
        metadata,
        approved_account_ids: Some(clone_pairs(&rec.approvals)),
        expiration_date: rec.expiration,
        royalty,
    }
}

} // verus!
