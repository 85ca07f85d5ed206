//! Ownership transfer, plain and payout-gated. Both demand the minimal
//! anti-griefing payment of exactly one token; the payout-gated form
//! computes the royalty breakdown first and only then moves the token, so a
//! breakdown the market cannot process blocks the transfer entirely.

use vstd::prelude::*;

use crate::contract::Contract;
use crate::errors::TokenError;
use crate::pairs::pairs_find;
use crate::pairs::pairs_get;
use crate::pairs::pairs_has;
use crate::royalty::Payout;
use crate::royalty::payout_breakdown;
use crate::royalty::payout_check;
use crate::token::BASIS_POINTS_TOTAL;
use crate::token::TokenRecord;
use crate::token::find_token_index;
use crate::token::has_token;
use crate::token::token_idx;
use crate::token::token_of;

verus! {

/// Whether `caller` holds an approval on `rec` that matches
/// `approval_id` (any sequence number is accepted when none is given).
pub open spec fn approval_ok(rec: TokenRecord, caller: Seq<char>, approval_id: Option<u64>) -> bool {
    pairs_has(rec.approvals@, caller) && (match approval_id {
        None => true,
        Some(a) => pairs_get(rec.approvals@, caller) == a,
    })
}

/// The first reason a transfer fails, if any: the missing unit payment,
/// an unknown token, a caller that is neither owner nor suitably
/// approved, or a receiver that already owns the token.
pub open spec fn transfer_check(
    c: Contract,
    receiver_id: String,
    token_id: String,
    approval_id: Option<u64>,
    caller: String,
    attached: u128,
) -> Option<TokenError> {
    if attached != 1 {
        Some(TokenError::Unauthorized)
    } else if !has_token(c.tokens@, token_id@) {
        Some(TokenError::NotFound)
    } else {
        let rec = token_of(c.tokens@, token_id@);
        if caller@ != rec.owner_id@ && !approval_ok(rec, caller@, approval_id) {
            Some(TokenError::Unauthorized)
        } else if receiver_id@ == rec.owner_id@ {
            Some(TokenError::Validation)
        } else {
            None
        }
    }
}

/// How a successful transfer relates the new token sequence to the old:
/// the one record changes owner and sheds its approvals; everything else
/// — the id, metadata, expiry, royalty, the approval sequence counter,
/// and every other record — stays exactly as it was.
pub open spec fn transferred(
    s0: Seq<TokenRecord>,
    s1: Seq<TokenRecord>,
    token_id: Seq<char>,
    receiver_id: String,
) -> bool {
    let idx = token_idx(s0, token_id);
    &&& s1.len() == s0.len()
    &&& forall|j: int| 0 <= j < s0.len() && j != idx ==> s1[j] == s0[j]
    &&& s1[idx].token_id == s0[idx].token_id
    &&& s1[idx].owner_id == receiver_id
    &&& s1[idx].metadata == s0[idx].metadata
    &&& s1[idx].approvals@.len() == 0
    &&& s1[idx].next_approval_id == s0[idx].next_approval_id
    &&& s1[idx].expiration == s0[idx].expiration
    &&& s1[idx].royalty == s0[idx].royalty
}

/// The first reason a payout-gated transfer fails: the missing unit
/// payment, then anything the payout query rejects, then anything the
/// transfer itself rejects.
pub open spec fn transfer_payout_check(
    c: Contract,
    receiver_id: String,
    token_id: String,
    approval_id: u64,
    max_len_payout: u32,
    caller: String,
    attached: u128,
) -> Option<TokenError> {
    if attached != 1 {
        Some(TokenError::Unauthorized)
    } else if payout_check(c, token_id, max_len_payout) is Some {
        payout_check(c, token_id, max_len_payout)
    } else {
        transfer_check(c, receiver_id, token_id, Some(approval_id), caller, attached)
    }
}

impl Contract {
    /// Moves the token to `receiver_id`: the caller must attach exactly
    /// one payment token and be the owner or hold a matching approval;
    /// the receiver must differ from the owner. On success the token's
    /// approvals are cleared and nothing else changes; on failure nothing
    /// changes at all.
    pub fn nft_transfer(
        &mut self,
        receiver_id: String,
        token_id: String,
        approval_id: Option<u64>,
        memo: Option<String>,
        caller: String,
        attached: u128,
    ) -> (r: Result<(), TokenError>)
        requires
            old(self).wf(),
        ensures
            final(self).wf(),
            final(self).contract_id == old(self).contract_id,
            final(self).metadata == old(self).metadata,
            match r {
                Err(e) => {
                    &&& *final(self) == *old(self)
                    &&& transfer_check(
                        *old(self),
                        receiver_id,
                        token_id,
                        approval_id,
                        caller,
                        attached,
                    ) == Some(e)
                },
                Ok(u) => {
                    &&& transfer_check(
                        *old(self),
                        receiver_id,
                        token_id,
                        approval_id,
                        caller,
                        attached,
                    ) is None
                    &&& transferred(
                        old(self).tokens@,
                        final(self).tokens@,
                        token_id@,
                        receiver_id,
                    )
                },
            },
    {
        if attached != 1 {
            return Err(TokenError::Unauthorized);
        }
        let idx = match find_token_index(&self.tokens, &token_id) {
            Some(i) => i,
            None => {
                return Err(TokenError::NotFound);
            },
        };
        let authorized = if self.tokens[idx].owner_id == caller {
            true
        } else {
            match pairs_find(&self.tokens[idx].approvals, &caller) {
                Some(a) => match approval_id {
                    Some(expected) => a == expected,
                    None => true,
                },
                None => false,
            }
        };
        if !authorized {
            return Err(TokenError::Unauthorized);
        }
        if self.tokens[idx].owner_id == receiver_id {
            return Err(TokenError::Validation);
        }
        let mut rec = self.tokens.remove(idx);
        rec.owner_id = receiver_id;
        rec.approvals = Vec::new();
        let ghost grec = rec;
        self.tokens.insert(idx, rec);
        proof {
            assert(self.tokens@ =~= old(self).tokens@.update(idx as int, grec));
        }
        Ok(())
    }

    /// Computes the payout breakdown for the sale, then moves the token:
    /// one call, breakdown first. A breakdown error blocks the transfer;
    /// a transfer error leaves the registry untouched either way.
    pub fn nft_transfer_payout(
        &mut self,
        receiver_id: String,
        token_id: String,
        approval_id: u64,
        memo: Option<String>,
        balance: u128,
        max_len_payout: u32,
        caller: String,
        attached: u128,
    ) -> (r: Result<Payout, TokenError>)
        requires
            old(self).wf(),
            balance <= u128::MAX / (BASIS_POINTS_TOTAL as u128),
        ensures
            final(self).wf(),
            final(self).contract_id == old(self).contract_id,
            final(self).metadata == old(self).metadata,
            match r {
                Err(e) => {
                    &&& *final(self) == *old(self)
                    &&& transfer_payout_check(
                        *old(self),
                        receiver_id,
                        token_id,
                        approval_id,
                        max_len_payout,
                        caller,
                        attached,
                    ) == Some(e)
                },
                Ok(p) => {
                    let rec = token_of(old(self).tokens@, token_id@);
                    &&& transfer_payout_check(
                        *old(self),
                        receiver_id,
                        token_id,
                        approval_id,
                        max_len_payout,
                        caller,
                        attached,
                    ) is None
                    &&& rec.royalty matches Some(roy) && payout_breakdown(
                        rec.owner_id,
                        roy@,
                        balance,
                        p.payout@,
                    )
                    &&& transferred(
                        old(self).tokens@,
                        final(self).tokens@,
                        token_id@,
                        receiver_id,
                    )
                },
            },
    {
        if attached != 1 {
            return Err(TokenError::Unauthorized);
        }
        let payout = match self.nft_payout(token_id.clone(), balance, max_len_payout) {
            Ok(p) => p,
            Err(e) => {
                return Err(e);
            },
        };
        match self.nft_transfer(receiver_id, token_id, Some(approval_id), memo, caller, attached) {
            Ok(u) => Ok(payout),
            Err(e) => Err(e),
        }
    }
}

} // verus!
