//! The mint operation: a one-way step from absent to present. One call
//! creates the token record together with its optional expiry entry and its
//! optional royalty table, and settles the caller's payment against the
//! storage the call added — all checks run before the first write, so a
//! failing call leaves no trace.

use vstd::prelude::*;

use crate::contract::Contract;
use crate::duration::duration_nanos_str;
use crate::duration::duration_ok_str;
use crate::duration::parse_time;
use crate::errors::TokenError;
use crate::metadata::TokenMetadata;
use crate::pairs::pairs_unique;
use crate::token::BASIS_POINTS_TOTAL;
use crate::token::JsonToken;
use crate::token::MAX_ROYALTY_BENEFICIARIES;
use crate::token::TokenRecord;
use crate::token::find_token_index;
use crate::token::has_token;
use crate::token::is_view;
use crate::token::record_view;
use crate::token::lemma_royalty_total_mono;
use crate::token::royalty_total;
use crate::token::royalty_values_wf;
use crate::units::record_base_units;
use crate::units::record_units_exec;
use crate::units::royalty_units;
use crate::units::sat_add;
use crate::units::settle_payment;
use crate::units::storage_cost;

verus! {

/// At most 6 royalty beneficiaries may be supplied.
pub open spec fn royalty_len_ok(o: Option<Vec<(String, u32)>>) -> bool {
    match o {
        Some(v) => v@.len() <= MAX_ROYALTY_BENEFICIARIES,
        None => true,
    }
}

/// A supplied royalty mapping must carry valid values.
pub open spec fn royalty_values_ok(o: Option<Vec<(String, u32)>>) -> bool {
    match o {
        Some(v) => royalty_values_wf(v@),
        None => true,
    }
}

/// The absolute expiry timestamp a mint call asks for, if any.
pub open spec fn expiry_of(expiration_period: Option<String>, now: u64) -> Option<u64> {
    match expiration_period {
        Some(d) => Some((now + duration_nanos_str(d@)) as u64),
        None => None,
    }
}

/// A supplied duration must parse and the expiry it denotes must fit.
pub open spec fn expiry_ok(expiration_period: Option<String>, now: u64) -> bool {
    match expiration_period {
        Some(d) => duration_ok_str(d@) && now + duration_nanos_str(d@) <= u64::MAX,
        None => true,
    }
}

/// The storage units the minted record will occupy.
pub open spec fn minted_units(
    token_id: String,
    receiver_id: String,
    m: TokenMetadata,
    expiration_period: Option<String>,
    roy: Option<Vec<(String, u32)>>,
) -> nat {
    sat_add(
        sat_add(record_base_units(token_id@, receiver_id@, m, expiration_period is Some), 0),
        royalty_units(roy),
    )
}

/// The first reason a mint call fails, if any; checked in this order:
/// the caller must be the contract itself, the id must be free, the
/// royalty mapping must be small enough and then valid, the duration must
/// parse to a representable expiry, and the attached payment must cover
/// the storage the record adds.
pub open spec fn mint_check(
    c: Contract,
    token_id: String,
    receiver_id: String,
    token_metadata: TokenMetadata,
    expiration_period: Option<String>,
    perpetual_royalties: Option<Vec<(String, u32)>>,
    caller: String,
    now: u64,
    attached: u128,
    cost_per_unit: u128,
) -> Option<TokenError> {
    if caller@ != c.contract_id@ {
        Some(TokenError::Unauthorized)
    } else if has_token(c.tokens@, token_id@) {
        Some(TokenError::Conflict)
    } else if !royalty_len_ok(perpetual_royalties) {
        Some(TokenError::CapacityExceeded)
    } else if !royalty_values_ok(perpetual_royalties) {
        Some(TokenError::Validation)
    } else if !expiry_ok(expiration_period, now) {
        Some(TokenError::Validation)
    } else if attached < storage_cost(
        minted_units(token_id, receiver_id, token_metadata, expiration_period, perpetual_royalties),
        cost_per_unit,
    ) {
        Some(TokenError::Underpayment)
    } else {
        None
    }
}

/// Checks a supplied royalty mapping in one pass: unique beneficiaries,
/// every share within the whole, shares totalling at most the whole.
pub fn check_royalty_values(v: &Vec<(String, u32)>) -> (r: bool)
    ensures
        r == royalty_values_wf(v@),
{
    let n = v.len();
    let mut total: u32 = 0;
    let mut i: usize = 0;
    while i < n
        invariant
            n == v@.len(),
            0 <= i <= n,
            pairs_unique(v@.take(i as int)),
            forall|k: int| 0 <= k < i ==> (#[trigger] v@[k]).1 <= BASIS_POINTS_TOTAL,
            total as int == royalty_total(v@.take(i as int)),
            total <= BASIS_POINTS_TOTAL,
        decreases n - i,
    {
        if v[i].1 > BASIS_POINTS_TOTAL {
            return false;
        }
        let mut j: usize = 0;
        while j < i
            invariant
                n == v@.len(),
                0 <= j <= i < n,
                forall|k: int| 0 <= k < j ==> v@[k].0@ != v@[i as int].0@,
            decreases i - j,
        {
            if v[j].0 == v[i].0 {
                assert(!pairs_unique(v@));
                return false;
            }
            j = j + 1;
        }
        proof {
            assert(v@.take(i + 1).drop_last() =~= v@.take(i as int));
            assert(v@.take(i + 1).last() == v@[i as int]);
            lemma_royalty_total_mono(v@, i + 1);
        }
        let grown = total + v[i].1;
        if grown > BASIS_POINTS_TOTAL {
            return false;
        }
        total = grown;
        i = i + 1;
    }
    proof {
        assert(v@.take(n as int) =~= v@);
    }
    true
}

/// Minting an id that is already taken fails with `Conflict` — and, by the
/// mint contract, leaves the registry and so the first token's data
/// exactly as they were.
pub proof fn lemma_mint_duplicate(
    c: Contract,
    token_id: String,
    receiver_id: String,
    token_metadata: TokenMetadata,
    expiration_period: Option<String>,
    perpetual_royalties: Option<Vec<(String, u32)>>,
    caller: String,
    now: u64,
    attached: u128,
    cost_per_unit: u128,
)
    requires
        caller@ == c.contract_id@,
        has_token(c.tokens@, token_id@),
    ensures
        mint_check(
            c,
            token_id,
            receiver_id,
            token_metadata,
            expiration_period,
            perpetual_royalties,
            caller,
            now,
            attached,
            cost_per_unit,
        ) == Some(TokenError::Conflict),
{
}

/// A royalty mapping with more than 6 beneficiaries is rejected at mint
/// with `CapacityExceeded` — and, by the mint contract, nothing is
/// written.
pub proof fn lemma_mint_capacity(
    c: Contract,
    token_id: String,
    receiver_id: String,
    token_metadata: TokenMetadata,
    expiration_period: Option<String>,
    perpetual_royalties: Option<Vec<(String, u32)>>,
    caller: String,
    now: u64,
    attached: u128,
    cost_per_unit: u128,
)
    requires
        caller@ == c.contract_id@,
        !has_token(c.tokens@, token_id@),
        perpetual_royalties matches Some(m) && m@.len() > MAX_ROYALTY_BENEFICIARIES,
    ensures
        mint_check(
            c,
            token_id,
            receiver_id,
            token_metadata,
            expiration_period,
            perpetual_royalties,
            caller,
            now,
            attached,
            cost_per_unit,
        ) == Some(TokenError::CapacityExceeded),
{
}

impl Contract {
    /// Mints a token: creates the record with its optional expiry and
    /// royalty side entries as one unit, settles the caller's payment, and
    /// returns the assembled view together with the refund owed. Any
    /// failure leaves the registry untouched.
    pub fn nft_mint(
        &mut self,
        token_id: String,
        receiver_id: String,
        token_metadata: TokenMetadata,
        expiration_period: Option<String>,
        perpetual_royalties: Option<Vec<(String, u32)>>,
        caller: String,
        now: u64,
        attached: u128,
        cost_per_unit: u128,
    ) -> (r: Result<(JsonToken, u128), TokenError>)
        requires
            old(self).wf(),
        ensures
            final(self).wf(),
            match r {
                Err(e) => {
                    &&& *final(self) == *old(self)
                    &&& mint_check(
                        *old(self),
                        token_id,
                        receiver_id,
                        token_metadata,
                        expiration_period,
                        perpetual_royalties,
                        caller,
                        now,
                        attached,
                        cost_per_unit,
                    ) == Some(e)
                },
                Ok((view, refund)) => {
                    let s0 = old(self).tokens@;
                    let nrec = final(self).tokens@.last();
                    &&& mint_check(
                        *old(self),
                        token_id,
                        receiver_id,
                        token_metadata,
                        expiration_period,
                        perpetual_royalties,
                        caller,
                        now,
                        attached,
                        cost_per_unit,
                    ) is None
                    &&& final(self).contract_id == old(self).contract_id
                    &&& final(self).metadata == old(self).metadata
                    &&& final(self).tokens@.len() == s0.len() + 1
                    &&& final(self).tokens@.take(s0.len() as int) == s0
                    &&& nrec.token_id@ == token_id@
                    &&& nrec.owner_id@ == receiver_id@
                    &&& nrec.metadata == token_metadata
                    &&& nrec.approvals@.len() == 0
                    &&& nrec.next_approval_id == 1
                    &&& nrec.expiration == expiry_of(expiration_period, now)
                    &&& nrec.royalty == perpetual_royalties
                    &&& is_view(view, nrec, true)
                    &&& refund == attached - storage_cost(
                        minted_units(
                            token_id,
                            receiver_id,
                            token_metadata,
                            expiration_period,
                            perpetual_royalties,
                        ),
                        cost_per_unit,
                    )
                },
            },
    {
        if !(caller == self.contract_id) {
            return Err(TokenError::Unauthorized);
        }
        if find_token_index(&self.tokens, &token_id).is_some() {
            return Err(TokenError::Conflict);
        }
        if let Some(roy) = &perpetual_royalties {
            if roy.len() > MAX_ROYALTY_BENEFICIARIES {
                return Err(TokenError::CapacityExceeded);
            }
            if !check_royalty_values(roy) {
                return Err(TokenError::Validation);
            }
        }
        let expiration: Option<u64> = match &expiration_period {
            Some(d) => {
                let nanos = match parse_time(d.as_str()) {
                    Ok(nanos) => nanos,
                    Err(e) => {
                        return Err(e);
                    },
                };
                match now.checked_add(nanos) {
                    Some(t) => Some(t),
                    None => {
                        return Err(TokenError::Validation);
                    },
                }
            },
            None => None,
        };
        let rec = TokenRecord {
            token_id: token_id.clone(),
            owner_id: receiver_id.clone(),
            metadata: token_metadata,
            approvals: Vec::new(),
            next_approval_id: 1,
            expiration,
            royalty: perpetual_royalties,
        };
        let delta = record_units_exec(&rec);
        let refund = match settle_payment(attached, 0, delta, cost_per_unit) {
            Ok(refund) => refund,
            Err(e) => {
                return Err(e);
            },
        };
        let view = record_view(&rec, true);
        let ghost s0 = self.tokens@;
        self.tokens.push(rec);
        proof {
            assert(self.tokens@.take(s0.len() as int) =~= s0);
        }
        Ok((view, refund))
    }
}

} // verus!
