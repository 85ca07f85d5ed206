//! The payout calculator: a pure query splitting a hypothetical sale
//! amount across a token's royalty beneficiaries and its current owner.
//!
//! Every beneficiary other than the owner receives the floored share its
//! basis points take of the amount; the owner receives the floored share of
//! whatever basis points remain of the whole. A share the owner holds as a
//! listed beneficiary is not paid on top: the owner's entry is written last
//! and stands alone. Because every share is floored, the entries need not
//! sum to the amount exactly; they do whenever the amount is a multiple of
//! the whole (see `lemma_payout_exact_when_multiple`).

use vstd::arithmetic::div_mod::lemma_div_by_multiple;
use vstd::arithmetic::div_mod::lemma_fundamental_div_mod;
use vstd::prelude::*;

use crate::contract::Contract;
use crate::errors::TokenError;
use crate::token::BASIS_POINTS_TOTAL;
use crate::token::find_token_index;
use crate::token::has_token;
use crate::token::lemma_royalty_total_mono;
use crate::token::royalty_total;
use crate::token::royalty_values_wf;
use crate::token::token_of;

verus! {

/// The per-beneficiary breakdown of a hypothetical sale.
#[derive(Debug, PartialEq, Eq)]
pub struct Payout {
    pub payout: Vec<(String, u128)>,
}

/// The floored share `bp` basis points take of `amount`.
pub open spec fn share(amount: u128, bp: int) -> int {
    amount * bp / (BASIS_POINTS_TOTAL as int)
}

/// The basis points consumed by beneficiaries other than the owner.
pub open spec fn perpetual_total(owner: Seq<char>, roy: Seq<(String, u32)>) -> int
    decreases roy.len(),
{
    if roy.len() == 0 {
        0
    } else {
        perpetual_total(owner, roy.drop_last()) + (if roy.last().0@ == owner {
            0
        } else {
            roy.last().1 as int
        })
    }
}

/// The non-owner breakdown entries, in table order.
pub open spec fn payout_entries(owner: Seq<char>, roy: Seq<(String, u32)>, amount: u128) -> Seq<
    (String, u128),
>
    decreases roy.len(),
{
    if roy.len() == 0 {
        Seq::empty()
    } else {
        let pre = payout_entries(owner, roy.drop_last(), amount);
        if roy.last().0@ == owner {
            pre
        } else {
            pre.push((roy.last().0, share(amount, roy.last().1 as int) as u128))
        }
    }
}

/// The whole breakdown: the non-owner entries, then the owner's residual
/// share, written last.
pub open spec fn payout_breakdown(
    owner: String,
    roy: Seq<(String, u32)>,
    amount: u128,
    p: Seq<(String, u128)>,
) -> bool {
    p == payout_entries(owner@, roy, amount).push(
        (owner, share(amount, BASIS_POINTS_TOTAL - perpetual_total(owner@, roy)) as u128),
    )
}

/// The amounts a breakdown hands out in total.
pub open spec fn entries_total(s: Seq<(String, u128)>) -> int
    decreases s.len(),
{
    if s.len() == 0 {
        0
    } else {
        entries_total(s.drop_last()) + s.last().1
    }
}

/// The first reason a payout query fails, if any: an unknown token, a
/// token without a royalty table, or more beneficiaries than the caller
/// can process.
pub open spec fn payout_check(c: Contract, token_id: String, max_len_payout: u32) -> Option<
    TokenError,
> {
    if !has_token(c.tokens@, token_id@) {
        Some(TokenError::NotFound)
    } else {
        match token_of(c.tokens@, token_id@).royalty {
            None => Some(TokenError::NotFound),
            Some(roy) => {
                if roy@.len() > max_len_payout {
                    Some(TokenError::CapacityExceeded)
                } else {
                    None
                }
            },
        }
    }
}

/// What the owner never loses to the table: the non-owner basis points
/// stay within the table's own total.
pub proof fn lemma_perpetual_le_total(owner: Seq<char>, s: Seq<(String, u32)>)
    ensures
        0 <= perpetual_total(owner, s) <= royalty_total(s),
    decreases s.len(),
{
    if s.len() > 0 {
        lemma_perpetual_le_total(owner, s.drop_last());
    }
}

/// The floored share of `amount` by `bp` basis points.
pub fn royalty_to_payout(royalty_percentage: u32, amount_to_pay: u128) -> (r: u128)
    requires
        royalty_percentage <= BASIS_POINTS_TOTAL,
        amount_to_pay <= u128::MAX / (BASIS_POINTS_TOTAL as u128),
    ensures
        r as int == share(amount_to_pay, royalty_percentage as int),
{
    proof {
        lemma_fundamental_div_mod(u128::MAX as int, BASIS_POINTS_TOTAL as int);
        assert(amount_to_pay * (royalty_percentage as u128) <= u128::MAX) by (nonlinear_arith)
            requires
                amount_to_pay as int <= (u128::MAX / (BASIS_POINTS_TOTAL as u128)) as int,
                royalty_percentage <= BASIS_POINTS_TOTAL,
                ((u128::MAX / (BASIS_POINTS_TOTAL as u128)) as int) * (BASIS_POINTS_TOTAL as int)
                    <= u128::MAX as int,
        ;
    }
    amount_to_pay * (royalty_percentage as u128) / (BASIS_POINTS_TOTAL as u128)
}

impl Contract {
    /// Computes the payout breakdown for a hypothetical sale of the token
    /// at `balance`: `NotFound` for an unknown token or one without a
    /// royalty table, `CapacityExceeded` when the table holds more
    /// beneficiaries than `max_len_payout`; otherwise the non-owner
    /// entries in table order followed by the owner's residual share.
    pub fn nft_payout(&self, token_id: String, balance: u128, max_len_payout: u32) -> (r: Result<
        Payout,
        TokenError,
    >)
        requires
            self.wf(),
            balance <= u128::MAX / (BASIS_POINTS_TOTAL as u128),
        ensures
            match r {
                Err(e) => payout_check(*self, token_id, max_len_payout) == Some(e),
                Ok(p) => {
                    let rec = token_of(self.tokens@, token_id@);
                    &&& payout_check(*self, token_id, max_len_payout) is None
                    &&& rec.royalty matches Some(roy) && payout_breakdown(
                        rec.owner_id,
                        roy@,
                        balance,
                        p.payout@,
                    )
                },
            },
    {
        let idx = match find_token_index(&self.tokens, &token_id) {
            Some(i) => i,
            None => {
                return Err(TokenError::NotFound);
            },
        };
        let rec = &self.tokens[idx];
        let roy = match &rec.royalty {
            Some(roy) => roy,
            None => {
                return Err(TokenError::NotFound);
            },
        };
        let n = roy.len();
        if n as u64 > max_len_payout as u64 {
            return Err(TokenError::CapacityExceeded);
        }
        proof {
            assert(self.tokens@[idx as int].wf());
        }
        let owner = &rec.owner_id;
        let mut total: u32 = 0;
        let mut out: Vec<(String, u128)> = Vec::new();
        let mut i: usize = 0;
        while i < n
            invariant
                n == roy@.len(),
                0 <= i <= n,
                royalty_values_wf(roy@),
                balance <= u128::MAX / (BASIS_POINTS_TOTAL as u128),
                total as int == perpetual_total(owner@, roy@.take(i as int)),
                total <= BASIS_POINTS_TOTAL,
                out@ == payout_entries(owner@, roy@.take(i as int), balance),
            decreases n - i,
        {
            proof {
                assert(roy@.take(i + 1).drop_last() =~= roy@.take(i as int));
                assert(roy@.take(i + 1).last() == roy@[i as int]);
                lemma_perpetual_le_total(owner@, roy@.take(i + 1));
                lemma_royalty_total_mono(roy@, i + 1);
            }
            let bp = roy[i].1;
            if !(roy[i].0 == *owner) {
                let amt = royalty_to_payout(bp, balance);
                out.push((roy[i].0.clone(), amt));
                total = total + bp;
            }
            i = i + 1;
        }
        proof {
            assert(roy@.take(n as int) =~= roy@);
        }
        let owner_amt = royalty_to_payout(BASIS_POINTS_TOTAL - total, balance);
        out.push((owner.clone(), owner_amt));
        Ok(Payout { payout: out })
    }
}

/// One step of summing a breakdown.
proof fn lemma_entries_total_push(s: Seq<(String, u128)>, e: (String, u128))
    ensures
        entries_total(s.push(e)) == entries_total(s) + e.1,
{
    assert(s.push(e).drop_last() =~= s);
    assert(s.push(e).last() == e);
}

/// When the amount is `q` wholes, the non-owner entries sum to exactly
/// `q` times the basis points they consume.
proof fn lemma_entries_total_mult(owner: Seq<char>, roy: Seq<(String, u32)>, amount: u128, q: int)
    requires
        q >= 0,
        amount == q * (BASIS_POINTS_TOTAL as int),
        forall|i: int| 0 <= i < roy.len() ==> (#[trigger] roy[i]).1 <= BASIS_POINTS_TOTAL,
    ensures
        entries_total(payout_entries(owner, roy, amount)) == q * perpetual_total(owner, roy),
    decreases roy.len(),
{
    if roy.len() == 0 {
        assert(q * 0 == 0) by (nonlinear_arith);
    } else {
        let pre = roy.drop_last();
        lemma_entries_total_mult(owner, pre, amount, q);
        let bp = roy.last().1 as int;
        let t_pre = perpetual_total(owner, pre);
        if roy.last().0@ == owner {
            assert(perpetual_total(owner, roy) == t_pre);
        } else {
            lemma_share_exact(amount, bp, q);
            lemma_entries_total_push(
                payout_entries(owner, pre, amount),
                (roy.last().0, share(amount, bp) as u128),
            );
            assert(q * (t_pre + bp) == q * t_pre + q * bp) by (nonlinear_arith);
        }
    }
}

/// For an amount of `q` wholes, a share of `bp` basis points is exactly
/// `q * bp`, with no rounding dust.
proof fn lemma_share_exact(amount: u128, bp: int, q: int)
    requires
        q >= 0,
        0 <= bp <= BASIS_POINTS_TOTAL,
        amount == q * (BASIS_POINTS_TOTAL as int),
    ensures
        share(amount, bp) == q * bp,
        0 <= q * bp <= amount,
{
    assert((amount as int) * bp == (q * bp) * (BASIS_POINTS_TOTAL as int)) by (nonlinear_arith)
        requires
            amount == q * (BASIS_POINTS_TOTAL as int),
    ;
    assert(q * bp >= 0) by (nonlinear_arith)
        requires
            q >= 0 && bp >= 0,
    ;
    lemma_div_by_multiple(q * bp, BASIS_POINTS_TOTAL as int);
    assert(q * bp <= q * (BASIS_POINTS_TOTAL as int)) by (nonlinear_arith)
        requires
            q >= 0,
            bp <= BASIS_POINTS_TOTAL as int,
    ;
}

/// When the sale amount is an exact multiple of the whole, the breakdown
/// partitions it exactly: its entries — the non-owner shares and the
/// owner's residual share — sum to the amount, with no rounding dust.
pub proof fn lemma_payout_exact_when_multiple(
    owner: String,
    roy: Seq<(String, u32)>,
    amount: u128,
    p: Seq<(String, u128)>,
)
    requires
        royalty_values_wf(roy),
        amount as int % (BASIS_POINTS_TOTAL as int) == 0,
        payout_breakdown(owner, roy, amount, p),
    ensures
        entries_total(p) == amount,
{
    let whole = BASIS_POINTS_TOTAL as int;
    let q = amount as int / whole;
    lemma_fundamental_div_mod(amount as int, whole);
    assert(amount == q * whole);
    assert(q >= 0) by (nonlinear_arith)
        requires
            q * whole >= 0 && whole > 0,
    ;
    lemma_perpetual_le_total(owner@, roy);
    let t = perpetual_total(owner@, roy);
    lemma_entries_total_mult(owner@, roy, amount, q);
    lemma_share_exact(amount, whole - t, q);
    lemma_entries_total_push(
        payout_entries(owner@, roy, amount),
        (owner, share(amount, whole - t) as u128),
    );
    assert(q * t + q * (whole - t) == q * whole) by (nonlinear_arith);
}

} // verus!
