//! Approval management: the owner grants, revokes, or revokes all rights
//! to move one token. Granting is storage-metered like minting: the caller
//! pays for the bytes the new approval adds and is refunded any excess.

use vstd::prelude::*;

use crate::contract::Contract;
use crate::errors::TokenError;
use crate::pairs::pairs_find;
use crate::pairs::pairs_find_index;
use crate::pairs::pairs_has;
use crate::pairs::pairs_idx;
use crate::token::TokenRecord;
use crate::token::find_token_index;
use crate::token::has_token;
use crate::token::token_idx;
use crate::token::token_of;
use crate::transfer::approval_ok;
use crate::units::settle_payment;
use crate::units::storage_cost;
use crate::units::str_units;
use crate::units::string_units;

verus! {

/// The storage units an approval for `account_id` would add: none when
/// the account is already approved (its sequence number is replaced in
/// place), otherwise the account name plus one sequence number.
pub open spec fn approve_delta(rec: TokenRecord, account_id: String) -> nat {
    if pairs_has(rec.approvals@, account_id@) {
        0
    } else {
        str_units(account_id@) + 8
    }
}

/// The first reason an approval fails, if any: no payment attached, an
/// unknown token, a caller that is not the owner, an exhausted sequence
/// counter, or a payment below the storage the approval adds.
pub open spec fn approve_check(
    c: Contract,
    token_id: String,
    account_id: String,
    caller: String,
    attached: u128,
    cost_per_unit: u128,
) -> Option<TokenError> {
    if attached < 1 {
        Some(TokenError::Unauthorized)
    } else if !has_token(c.tokens@, token_id@) {
        Some(TokenError::NotFound)
    } else {
        let rec = token_of(c.tokens@, token_id@);
        if caller@ != rec.owner_id@ {
            Some(TokenError::Unauthorized)
        } else if rec.next_approval_id == u64::MAX {
            Some(TokenError::CapacityExceeded)
        } else if attached < storage_cost(approve_delta(rec, account_id), cost_per_unit) {
            Some(TokenError::Underpayment)
        } else {
            None
        }
    }
}

/// How a successful approval relates the new token sequence to the old:
/// the one record gains (or renews) the approval under the next sequence
/// number and bumps its counter; nothing else changes.
pub open spec fn approval_granted(
    s0: Seq<TokenRecord>,
    s1: Seq<TokenRecord>,
    token_id: Seq<char>,
    account_id: String,
) -> bool {
    let idx = token_idx(s0, token_id);
    let rec0 = s0[idx];
    &&& s1.len() == s0.len()
    &&& forall|j: int| 0 <= j < s0.len() && j != idx ==> s1[j] == s0[j]
    &&& s1[idx].token_id == rec0.token_id
    &&& s1[idx].owner_id == rec0.owner_id
    &&& s1[idx].metadata == rec0.metadata
    &&& s1[idx].expiration == rec0.expiration
    &&& s1[idx].royalty == rec0.royalty
    &&& s1[idx].next_approval_id == rec0.next_approval_id + 1
    &&& s1[idx].approvals@ == (if pairs_has(rec0.approvals@, account_id@) {
        rec0.approvals@.update(
            pairs_idx(rec0.approvals@, account_id@),
            (rec0.approvals@[pairs_idx(rec0.approvals@, account_id@)].0, rec0.next_approval_id),
        )
    } else {
        rec0.approvals@.push((account_id, rec0.next_approval_id))
    })
}

/// The first reason a revocation fails, if any: the payment must be
/// exactly one token, the token known, the caller its owner.
pub open spec fn revoke_check(
    c: Contract,
    token_id: String,
    caller: String,
    attached: u128,
) -> Option<TokenError> {
    if attached != 1 {
        Some(TokenError::Unauthorized)
    } else if !has_token(c.tokens@, token_id@) {
        Some(TokenError::NotFound)
    } else if caller@ != token_of(c.tokens@, token_id@).owner_id@ {
        Some(TokenError::Unauthorized)
    } else {
        None
    }
}

/// How a record may change while everything around it stays put.
pub open spec fn only_approvals_changed(
    s0: Seq<TokenRecord>,
    s1: Seq<TokenRecord>,
    token_id: Seq<char>,
) -> bool {
    let idx = token_idx(s0, token_id);
    let rec0 = s0[idx];
    &&& s1.len() == s0.len()
    &&& forall|j: int| 0 <= j < s0.len() && j != idx ==> s1[j] == s0[j]
    &&& s1[idx].token_id == rec0.token_id
    &&& s1[idx].owner_id == rec0.owner_id
    &&& s1[idx].metadata == rec0.metadata
    &&& s1[idx].expiration == rec0.expiration
    &&& s1[idx].royalty == rec0.royalty
    &&& s1[idx].next_approval_id == rec0.next_approval_id
}

impl Contract {
    /// Grants `account_id` the right to move the token, under the next
    /// sequence number, and settles the caller's payment against the
    /// storage the approval adds. Returns the sequence number granted and
    /// the refund owed.
    pub fn nft_approve(
        &mut self,
        token_id: String,
        account_id: String,
        caller: String,
        attached: u128,
        cost_per_unit: u128,
    ) -> (r: Result<(u64, u128), TokenError>)
        requires
            old(self).wf(),
        ensures
            final(self).wf(),
            final(self).contract_id == old(self).contract_id,
            final(self).metadata == old(self).metadata,
            match r {
                Err(e) => {
                    &&& *final(self) == *old(self)
                    &&& approve_check(
                        *old(self),
                        token_id,
                        account_id,
                        caller,
                        attached,
                        cost_per_unit,
                    ) == Some(e)
                },
                Ok((approval_id, refund)) => {
                    let rec0 = token_of(old(self).tokens@, token_id@);
                    &&& approve_check(
                        *old(self),
                        token_id,
                        account_id,
                        caller,
                        attached,
                        cost_per_unit,
                    ) is None
                    &&& approval_granted(
                        old(self).tokens@,
                        final(self).tokens@,
                        token_id@,
                        account_id,
                    )
                    &&& approval_id == rec0.next_approval_id
                    &&& refund == attached - storage_cost(
                        approve_delta(rec0, account_id),
                        cost_per_unit,
                    )
                },
            },
    {
        if attached < 1 {
            return Err(TokenError::Unauthorized);
        }
        let idx = match find_token_index(&self.tokens, &token_id) {
            Some(i) => i,
            None => {
                return Err(TokenError::NotFound);
            },
        };
        if !(self.tokens[idx].owner_id == caller) {
            return Err(TokenError::Unauthorized);
        }
        let next = self.tokens[idx].next_approval_id;
        if next == u64::MAX {
            return Err(TokenError::CapacityExceeded);
        }
        let existing = pairs_find_index(&self.tokens[idx].approvals, &account_id);
        let delta: u128 = match existing {
            Some(j) => 0,
            None => string_units(&account_id) as u128 + 8,
        };
        let refund = match settle_payment(attached, 0, delta, cost_per_unit) {
            Ok(refund) => refund,
            Err(e) => {
                return Err(e);
            },
        };
        let mut rec = self.tokens.remove(idx);
        match existing {
            Some(j) => {
                let old_pair = rec.approvals.remove(j);
                rec.approvals.insert(j, (old_pair.0, next));
                proof {
                    assert(rec.approvals@ =~= old(self).tokens@[idx as int].approvals@.update(
                        j as int,
                        (old(self).tokens@[idx as int].approvals@[j as int].0, next),
                    ));
                }
            },
            None => {
                rec.approvals.push((account_id, next));
            },
        }
        rec.next_approval_id = next + 1;
        let ghost grec = rec;
        self.tokens.insert(idx, rec);
        proof {
            assert(self.tokens@ =~= old(self).tokens@.update(idx as int, grec));
        }
        Ok((next, refund))
    }

    /// Withdraws `account_id`'s approval on the token, if it holds one.
    pub fn nft_revoke(
        &mut self,
        token_id: String,
        account_id: String,
        caller: String,
        attached: u128,
    ) -> (r: Result<(), TokenError>)
        requires
            old(self).wf(),
        ensures
            final(self).wf(),
            final(self).contract_id == old(self).contract_id,
            final(self).metadata == old(self).metadata,
            match r {
                Err(e) => {
                    &&& *final(self) == *old(self)
                    &&& revoke_check(*old(self), token_id, caller, attached) == Some(e)
                },
                Ok(u) => {
                    let idx = token_idx(old(self).tokens@, token_id@);
                    let rec0 = token_of(old(self).tokens@, token_id@);
                    &&& revoke_check(*old(self), token_id, caller, attached) is None
                    &&& only_approvals_changed(old(self).tokens@, final(self).tokens@, token_id@)
                    &&& final(self).tokens@[idx].approvals@ == (if pairs_has(
                        rec0.approvals@,
                        account_id@,
                    ) {
                        rec0.approvals@.remove(pairs_idx(rec0.approvals@, account_id@))
                    } else {
                        rec0.approvals@
                    })
                },
            },
    {
        if attached != 1 {
            return Err(TokenError::Unauthorized);
        }
        let idx = match find_token_index(&self.tokens, &token_id) {
            Some(i) => i,
            None => {
                return Err(TokenError::NotFound);
            },
        };
        if !(self.tokens[idx].owner_id == caller) {
            return Err(TokenError::Unauthorized);
        }
        let existing = pairs_find_index(&self.tokens[idx].approvals, &account_id);
        if let Some(j) = existing {
            let mut rec = self.tokens.remove(idx);
            rec.approvals.remove(j);
            let ghost grec = rec;
            self.tokens.insert(idx, rec);
            proof {
                assert(self.tokens@ =~= old(self).tokens@.update(idx as int, grec));
            }
        }
        Ok(())
    }

    /// Withdraws every approval on the token.
    pub fn nft_revoke_all(&mut self, token_id: String, caller: String, attached: u128) -> (r:
        Result<(), TokenError>)
        requires
            old(self).wf(),
        ensures
            final(self).wf(),
            final(self).contract_id == old(self).contract_id,
            final(self).metadata == old(self).metadata,
            match r {
                Err(e) => {
                    &&& *final(self) == *old(self)
                    &&& revoke_check(*old(self), token_id, caller, attached) == Some(e)
                },
                Ok(u) => {
                    let idx = token_idx(old(self).tokens@, token_id@);
                    &&& revoke_check(*old(self), token_id, caller, attached) is None
                    &&& only_approvals_changed(old(self).tokens@, final(self).tokens@, token_id@)
                    &&& final(self).tokens@[idx].approvals@.len() == 0
                },
            },
    {
        if attached != 1 {
            return Err(TokenError::Unauthorized);
        }
        let idx = match find_token_index(&self.tokens, &token_id) {
            Some(i) => i,
            None => {
                return Err(TokenError::NotFound);
            },
        };
        if !(self.tokens[idx].owner_id == caller) {
            return Err(TokenError::Unauthorized);
        }
        let mut rec = self.tokens.remove(idx);
        rec.approvals = Vec::new();
        let ghost grec = rec;
        self.tokens.insert(idx, rec);
        proof {
            assert(self.tokens@ =~= old(self).tokens@.update(idx as int, grec));
        }
        Ok(())
    }

    /// Whether `approved_account_id` may move the token, optionally under
    /// one specific sequence number.
    pub fn nft_is_approved(
        &self,
        token_id: String,
        approved_account_id: String,
        approval_id: Option<u64>,
    ) -> (r: Result<bool, TokenError>)
        requires
            self.wf(),
        ensures
            match r {
                Err(e) => e == TokenError::NotFound && !has_token(self.tokens@, token_id@),
                Ok(b) => {
                    &&& has_token(self.tokens@, token_id@)
                    &&& b == approval_ok(
                        token_of(self.tokens@, token_id@),
                        approved_account_id@,
                        approval_id,
                    )
                },
            },
    {
        let idx = match find_token_index(&self.tokens, &token_id) {
            Some(i) => i,
            None => {
                return Err(TokenError::NotFound);
            },
        };
        match pairs_find(&self.tokens[idx].approvals, &approved_account_id) {
            Some(a) => match approval_id {
                Some(expected) => Ok(a == expected),
                None => Ok(true),
            },
            None => Ok(false),
        }
    }
}

} // verus!
