//! The registry aggregate: one owned value holding the contract identity,
//! its metadata and every token record, passed by reference into every
//! operation. Reads are gated by the visibility filter: a single lookup
//! exempts the token's owner and the contract itself from expiry, while
//! enumeration excludes expired tokens unconditionally for every caller.

use vstd::prelude::*;

use crate::errors::TokenError;
use crate::metadata::ContractMetadata;
use crate::metadata::spec_version;
use crate::mint::check_royalty_values;
use crate::pairs::pairs_unique_check;
use crate::token::JsonToken;
use crate::token::MAX_ROYALTY_BENEFICIARIES;
use crate::token::TokenRecord;
use crate::token::find_token_index;
use crate::token::has_token;
use crate::token::is_view;
use crate::token::record_not_expired;
use crate::token::record_view;
use crate::token::token_of;
use crate::token::unique_ids;
use crate::units::record_units_exec;
use crate::units::registry_units;
use crate::units::sat_add_u128;

verus! {

/// The icon served with the default contract metadata.
pub const DATA_IMAGE_SVG_NEAR_ICON: &'static str = "data:image/svg+xml,%3Csvg xmlns='http://www.w3.org/2000/svg' viewBox='0 0 288 288'%3E%3Cg id='l' data-name='l'%3E%3Cpath d='M187.58,79.81l-30.1,44.69a3.2,3.2,0,0,0,4.75,4.2L191.86,103a1.2,1.2,0,0,1,2,.91v80.46a1.2,1.2,0,0,1-2.12.77L102.18,77.93A15.35,15.35,0,0,0,90.47,72.5H87.34A15.34,15.34,0,0,0,72,87.84V201.16A15.34,15.34,0,0,0,87.34,216.5h0a15.35,15.35,0,0,0,13.08-7.31l30.1-44.69a3.2,3.2,0,0,0-4.75-4.2L96.14,186a1.2,1.2,0,0,1-2-.91V104.61a1.2,1.2,0,0,1,2.12-.77l89.55,107.23a15.35,15.35,0,0,0,11.71,5.43h3.13A15.34,15.34,0,0,0,216,201.16V87.84A15.34,15.34,0,0,0,200.66,72.5h0A15.35,15.35,0,0,0,187.58,79.81Z'/%3E%3C/g%3E%3C/svg%3E";

/// The registry: contract identity, contract metadata and every token.
pub struct Contract {
    pub contract_id: String,
    pub metadata: ContractMetadata,
    pub tokens: Vec<TokenRecord>,
}

/// The records of `s` still visible at `now`, in stored order, kept for the
/// owner in `owner` when one is given. Expired records are excluded for
/// every caller before any pagination.
pub open spec fn visible_seq(
    s: Seq<TokenRecord>,
    now: u64,
    owner: Option<Seq<char>>,
) -> Seq<TokenRecord>
    decreases s.len(),
{
    if s.len() == 0 {
        Seq::empty()
    } else {
        let pre = visible_seq(s.drop_last(), now, owner);
        let keep = !s.last().expired(now) && (match owner {
            Some(o) => s.last().owner_id@ == o,
            None => true,
        });
        if keep {
            pre.push(s.last())
        } else {
            pre
        }
    }
}

/// The starting position an enumeration call asks for.
pub open spec fn from_index_of(from_index: Option<u64>) -> int {
    match from_index {
        Some(f) => f as int,
        None => 0,
    }
}

/// The page size an enumeration call asks for (everything when absent).
pub open spec fn limit_of(limit: Option<u64>) -> int {
    match limit {
        Some(l) => l as int,
        None => u64::MAX as int,
    }
}

/// An enumeration request is malformed when its limit is zero or its
/// starting position lies beyond the visible collection.
pub open spec fn enumeration_bad(
    s: Seq<TokenRecord>,
    now: u64,
    owner: Option<Seq<char>>,
    from_index: Option<u64>,
    limit: Option<u64>,
) -> bool {
    limit matches Some(l) && l == 0 || from_index_of(from_index) > visible_seq(
        s,
        now,
        owner,
    ).len()
}

impl Contract {
    /// Every token id unique, every record well formed.
    pub open spec fn wf(&self) -> bool {
        &&& unique_ids(self.tokens@)
        &&& forall|i: int| 0 <= i < self.tokens@.len() ==> (#[trigger] self.tokens@[i]).wf()
    }

    /// Whether `caller` may see `rec` past its expiry and with metadata:
    /// the record's owner and the contract itself are privileged.
    pub open spec fn privileged(&self, caller: Seq<char>, rec: TokenRecord) -> bool {
        caller == rec.owner_id@ || caller == self.contract_id@
    }

    /// Creates an empty registry owned by `owner_id`, rejecting invalid
    /// contract metadata.
    pub fn new(owner_id: String, metadata: ContractMetadata) -> (r: Result<Contract, TokenError>)
        ensures
            match r {
                Ok(c) => {
                    &&& metadata.valid()
                    &&& c.wf()
                    &&& c.contract_id == owner_id
                    &&& c.metadata == metadata
                    &&& c.tokens@.len() == 0
                },
                Err(e) => e == TokenError::Validation && !metadata.valid(),
            },
    {
        if !metadata.check_valid() {
            return Err(TokenError::Validation);
        }
        Ok(Contract { contract_id: owner_id, metadata, tokens: Vec::new() })
    }

    /// Creates an empty registry with the stock example metadata: the
    /// supported schema version, the example name and symbol, the stock
    /// icon, and nothing else.
    pub fn new_default_meta(owner_id: String) -> (c: Contract)
        ensures
            c.wf(),
            c.contract_id == owner_id,
            c.metadata.valid(),
            c.metadata.spec@ == spec_version(),
            c.metadata.name@ == "Example NEAR non-fungible token factory"@,
            c.metadata.symbol@ == "EXAMPLE"@,
            c.metadata.icon matches Some(icon) && icon@ == DATA_IMAGE_SVG_NEAR_ICON@,
            c.metadata.base_uri is None,
            c.metadata.reference is None,
            c.metadata.reference_hash is None,
            c.tokens@.len() == 0,
    {
        let metadata = ContractMetadata {
            spec: "nft-1.0.0".to_owned(),
            name: "Example NEAR non-fungible token factory".to_owned(),
            symbol: "EXAMPLE".to_owned(),
            icon: Some(DATA_IMAGE_SVG_NEAR_ICON.to_owned()),
            base_uri: None,
            reference: None,
            reference_hash: None,
        };
        Contract { contract_id: owner_id, metadata, tokens: Vec::new() }
    }

    /// Runs the well-formedness check on a registry value, for callers
    /// that obtained one from outside the library (say, from persisted
    /// storage) and owe `wf` to the operations they call.
    pub fn check_wf(&self) -> (r: bool)
        ensures
            r == self.wf(),
    {
        let n = self.tokens.len();
        let mut i: usize = 0;
        while i < n
            invariant
                n == self.tokens@.len(),
                0 <= i <= n,
                forall|a: int, b: int|
                    0 <= a < b < i ==> self.tokens@[a].token_id@ != self.tokens@[b].token_id@,
                forall|k: int| 0 <= k < i ==> (#[trigger] self.tokens@[k]).wf(),
            decreases n - i,
        {
            let mut j: usize = 0;
            while j < i
                invariant
                    n == self.tokens@.len(),
                    0 <= j <= i < n,
                    forall|k: int|
                        0 <= k < j ==> self.tokens@[k].token_id@ != self.tokens@[i as int].token_id@,
                decreases i - j,
            {
                if self.tokens[j].token_id == self.tokens[i].token_id {
                    assert(!unique_ids(self.tokens@));
                    return false;
                }
                j = j + 1;
            }
            if !pairs_unique_check(&self.tokens[i].approvals) {
                assert(!self.tokens@[i as int].wf());
                return false;
            }
            match &self.tokens[i].royalty {
                Some(roy) => {
                    if roy.len() > MAX_ROYALTY_BENEFICIARIES {
                        assert(!self.tokens@[i as int].wf());
                        return false;
                    }
                    if !check_royalty_values(roy) {
                        assert(!self.tokens@[i as int].wf());
                        return false;
                    }
                },
                None => {},
            }
            i = i + 1;
        }
        true
    }

    /// The storage units the whole registry occupies now.
    pub fn storage_units(&self) -> (u: u128)
        ensures
            u as nat == registry_units(self.tokens@),
    {
        let n = self.tokens.len();
        let mut acc: u128 = 0;
        let mut i: usize = 0;
        while i < n
            invariant
                n == self.tokens@.len(),
                0 <= i <= n,
                acc as nat == registry_units(self.tokens@.take(i as int)),
            decreases n - i,
        {
            let term = record_units_exec(&self.tokens[i]);
            acc = sat_add_u128(acc, term);
            proof {
                assert(self.tokens@.take(i + 1).drop_last() =~= self.tokens@.take(i as int));
                assert(self.tokens@.take(i + 1).last() == self.tokens@[i as int]);
            }
            i = i + 1;
        }
        proof {
            assert(self.tokens@.take(n as int) =~= self.tokens@);
        }
        acc
    }

    /// Whether the token is still visible at `now` on the expiry rule
    /// alone; a token with no expiry entry — or no record at all — never
    /// expires.
    pub fn token_is_not_expired(&self, token_id: &String, now: u64) -> (r: bool)
        requires
            self.wf(),
        ensures
            r == !(has_token(self.tokens@, token_id@) && token_of(self.tokens@, token_id@).expired(
                now,
            )),
    {
        match find_token_index(&self.tokens, token_id) {
            Some(i) => record_not_expired(&self.tokens[i], now),
            None => true,
        }
    }

    /// Assembles the full enumeration view of a stored token.
    pub fn enum_get_token(&self, owner_id: String, token_id: &String) -> (v: JsonToken)
        requires
            self.wf(),
            has_token(self.tokens@, token_id@),
            token_of(self.tokens@, token_id@).owner_id@ == owner_id@,
        ensures
            is_view(v, token_of(self.tokens@, token_id@), true),
    {
        let i = match find_token_index(&self.tokens, token_id) {
            Some(i) => i,
            None => 0,
        };
        record_view(&self.tokens[i], true)
    }

    /// The single-token lookup, gated by the visibility filter: an absent
    /// token is not found; an expired token is not found for any caller
    /// that is neither its owner nor the contract itself; such a caller
    /// sees the record without its metadata even before expiry; the owner
    /// and the contract always see the full record, past expiry included.
    pub fn nft_token(&self, token_id: String, caller: String, now: u64) -> (r: Option<JsonToken>)
        requires
            self.wf(),
        ensures
            match r {
                None => !has_token(self.tokens@, token_id@) || (!self.privileged(
                    caller@,
                    token_of(self.tokens@, token_id@),
                ) && token_of(self.tokens@, token_id@).expired(now)),
                Some(v) => {
                    let rec = token_of(self.tokens@, token_id@);
                    &&& has_token(self.tokens@, token_id@)
                    &&& self.privileged(caller@, rec) || !rec.expired(now)
                    &&& is_view(v, rec, self.privileged(caller@, rec))
                },
            },
    {
        let i = match find_token_index(&self.tokens, &token_id) {
            Some(i) => i,
            None => {
                return None;
            },
        };
        let rec = &self.tokens[i];
        let is_privileged = rec.owner_id == caller || self.contract_id == caller;
        if !is_privileged && !record_not_expired(rec, now) {
            return None;
        }
        Some(record_view(rec, is_privileged))
    }

    /// Enumerates visible tokens: expired ones are excluded for every
    /// caller — the owner included — before the page is cut.
    fn enumerate(
        &self,
        owner: Option<&String>,
        from_index: Option<u64>,
        limit: Option<u64>,
        now: u64,
    ) -> (r: Result<Vec<JsonToken>, TokenError>)
        requires
            self.wf(),
        ensures
            enumerate_post(
                self.tokens@,
                match owner {
                    Some(o) => Some(o@),
                    None => None,
                },
                from_index,
                limit,
                now,
                r,
            ),
    {
        if let Some(l) = limit {
            if l == 0 {
                return Err(TokenError::Validation);
            }
        }
        let from: u64 = match from_index {
            Some(f) => f,
            None => 0,
        };
        let lim: u64 = match limit {
            Some(l) => l,
            None => u64::MAX,
        };
        let ghost owner_spec: Option<Seq<char>> = match owner {
            Some(o) => Some(o@),
            None => None,
        };
        let n = self.tokens.len();
        let mut out: Vec<JsonToken> = Vec::new();
        let mut seen: u64 = 0;
        let mut i: usize = 0;
        while i < n
            invariant
                self.wf(),
                n == self.tokens@.len(),
                0 <= i <= n,
                lim >= 1,
                seen as int <= i as int,
                seen as int == visible_seq(self.tokens@.take(i as int), now, owner_spec).len(),
                out@.len() == min_int(
                    lim as int,
                    max_int(0, seen as int - from as int),
                ),
                forall|j: int| 0 <= j < out@.len() ==> is_view(
                    #[trigger] out@[j],
                    visible_seq(self.tokens@.take(i as int), now, owner_spec)[from as int + j],
                    true,
                ),
                owner_spec == (match owner {
                    Some(o) => Some(o@),
                    None => None::<Seq<char>>,
                }),
            decreases n - i,
        {
            let rec = &self.tokens[i];
            let owner_matches = match owner {
                Some(o) => rec.owner_id == *o,
                None => true,
            };
            let keep = owner_matches && record_not_expired(rec, now);
            proof {
                assert(self.tokens@.take(i + 1).drop_last() =~= self.tokens@.take(i as int));
                assert(self.tokens@.take(i + 1).last() == self.tokens@[i as int]);
            }
            if keep {
                if seen >= from && seen - from < lim {
                    out.push(record_view(rec, true));
                }
                seen = seen + 1;
            }
            i = i + 1;
        }
        proof {
            assert(self.tokens@.take(n as int) =~= self.tokens@);
        }
        if from > seen {
            return Err(TokenError::Validation);
        }
        Ok(out)
    }

    /// Lists every visible token, in stored order, from `from_index`, at
    /// most `limit` of them.
    pub fn nft_tokens(
        &self,
        from_index: Option<u64>,
        limit: Option<u64>,
        now: u64,
    ) -> (r: Result<Vec<JsonToken>, TokenError>)
        requires
            self.wf(),
        ensures
            enumerate_post(self.tokens@, None, from_index, limit, now, r),
    {
        self.enumerate(None, from_index, limit, now)
    }

    /// Lists the visible tokens of one owner, in stored order.
    pub fn nft_tokens_for_owner(
        &self,
        account_id: String,
        from_index: Option<u64>,
        limit: Option<u64>,
        now: u64,
    ) -> (r: Result<Vec<JsonToken>, TokenError>)
        requires
            self.wf(),
        ensures
            enumerate_post(self.tokens@, Some(account_id@), from_index, limit, now, r),
    {
        self.enumerate(Some(&account_id), from_index, limit, now)
    }
}

/// The smaller of two mathematical integers.
pub open spec fn min_int(a: int, b: int) -> int {
    if a < b {
        a
    } else {
        b
    }
}

/// The larger of two mathematical integers.
pub open spec fn max_int(a: int, b: int) -> int {
    if a < b {
        b
    } else {
        a
    }
}

/// What an enumeration call returns: `Validation` exactly on a zero limit
/// or a start beyond the visible collection; otherwise the requested page
/// of full views of the visible records, in stored order.
pub open spec fn enumerate_post(
    s: Seq<TokenRecord>,
    owner: Option<Seq<char>>,
    from_index: Option<u64>,
    limit: Option<u64>,
    now: u64,
    r: Result<Vec<JsonToken>, TokenError>,
) -> bool {
    match r {
        Err(e) => e == TokenError::Validation && enumeration_bad(s, now, owner, from_index, limit),
        Ok(out) => {
            let vis = visible_seq(s, now, owner);
            let from = from_index_of(from_index);
            let lim = limit_of(limit);
            &&& !enumeration_bad(s, now, owner, from_index, limit)
            &&& out@.len() == min_int(lim, vis.len() - from)
            &&& forall|j: int| 0 <= j < out@.len() ==> is_view(
                #[trigger] out@[j],
                vis[from + j],
                true,
            )
        },
    }
}

/// An expired token is excluded from every enumeration — for every caller,
/// its owner included — even though the owner still sees it through the
/// single lookup.
pub proof fn lemma_expired_excluded(s: Seq<TokenRecord>, now: u64, owner: Option<Seq<char>>, i: int)
    requires
        unique_ids(s),
        0 <= i < s.len(),
        s[i].expired(now),
    ensures
        forall|j: int| 0 <= j < visible_seq(s, now, owner).len() ==> (#[trigger] visible_seq(
            s,
            now,
            owner,
        )[j]).token_id@ != s[i].token_id@,
    decreases s.len(),
{
    if s.len() > 0 {
        let pre = s.drop_last();
        if i < s.len() - 1 {
            assert(unique_ids(pre));
            lemma_expired_excluded(pre, now, owner, i);
            lemma_visible_members(pre, now, owner);
            assert forall|j: int| 0 <= j < visible_seq(s, now, owner).len() implies (
            #[trigger] visible_seq(s, now, owner)[j]).token_id@ != s[i].token_id@ by {
                let vis = visible_seq(s, now, owner);
                if j < visible_seq(pre, now, owner).len() {
                } else {
                    assert(vis[j] == s.last());
                }
            }
        } else {
            lemma_visible_members(pre, now, owner);
            assert forall|j: int| 0 <= j < visible_seq(s, now, owner).len() implies (
            #[trigger] visible_seq(s, now, owner)[j]).token_id@ != s[i].token_id@ by {
                let vis = visible_seq(s, now, owner);
                let k = choose|k: int|
                    0 <= k < pre.len() && pre[k] == visible_seq(pre, now, owner)[j];
                assert(vis[j] == visible_seq(pre, now, owner)[j]);
            }
        }
    }
}

/// Every visible record is one of the stored records, and is not expired.
pub proof fn lemma_visible_members(s: Seq<TokenRecord>, now: u64, owner: Option<Seq<char>>)
    ensures
        forall|j: int| 0 <= j < visible_seq(s, now, owner).len() ==> !(#[trigger] visible_seq(
            s,
            now,
            owner,
        )[j]).expired(now) && exists|k: int|
            0 <= k < s.len() && s[k] == visible_seq(s, now, owner)[j],
    decreases s.len(),
{
    if s.len() > 0 {
        let pre = s.drop_last();
        lemma_visible_members(pre, now, owner);
        assert forall|j: int| 0 <= j < visible_seq(s, now, owner).len() implies !(
        #[trigger] visible_seq(s, now, owner)[j]).expired(now) && exists|k: int|
            0 <= k < s.len() && s[k] == visible_seq(s, now, owner)[j] by {
            let vis = visible_seq(s, now, owner);
            let prevs = visible_seq(pre, now, owner);
            if j < prevs.len() {
                assert(vis[j] == prevs[j]);
                let k = choose|k: int| 0 <= k < pre.len() && pre[k] == prevs[j];
                assert(s[k] == vis[j]);
            } else {
                assert(vis[j] == s.last());
                assert(s[s.len() - 1] == vis[j]);
            }
        }
    }
}

} // verus!
