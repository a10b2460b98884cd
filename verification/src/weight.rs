//! The weight of a vote.

use vstd::prelude::*;
use vstd::arithmetic::div_mod::{lemma_fundamental_div_mod, lemma_fundamental_div_mod_converse};
use crate::model::spec_vote_weight;
use crate::types::Balance;

verus! {

/// The weight of a voter who holds `balance` out of `total_supply`, where it
/// fits in 128 bits; `None` where it does not.
///
/// The product of the balance and 100 need not fit in 128 bits. So the
/// balance is split into whole supplies and a rest; each whole supply weighs
/// 100, and the weight of the rest is built up by adding the rest 100 times
/// and carrying the supply out of the running remainder.
pub fn vote_weight(balance: Balance, total_supply: Balance) -> (weight: Option<u128>)
    ensures
        weight == (if spec_vote_weight(balance as nat, total_supply as nat) <= u128::MAX {
            Some(spec_vote_weight(balance as nat, total_supply as nat) as u128)
        } else {
            None
        }),
{
    if total_supply == 0 {
        return Some(0);
    }
    let wholes: u128 = balance / total_supply;
    let rest: u128 = balance % total_supply;
    let mut quotient: u128 = 0;
    let mut remainder: u128 = 0;
    let mut i: u128 = 0;
    while i < 100
        invariant
            i <= 100,
            quotient <= i,
            remainder < total_supply,
            rest < total_supply,
            quotient * total_supply + remainder == i * rest,
        decreases 100 - i,
    {
        let ghost before_q = quotient;
        let ghost before_r = remainder;
        if remainder >= total_supply - rest {
            remainder = remainder - (total_supply - rest);
            quotient = quotient + 1;
            assert(quotient * total_supply + remainder == (i + 1) * rest) by (nonlinear_arith)
                requires
                    quotient == before_q + 1,
                    remainder == before_r - (total_supply - rest),
                    before_q * total_supply + before_r == i * rest,
            ;
        } else {
            remainder = remainder + rest;
            assert(quotient * total_supply + remainder == (i + 1) * rest) by (nonlinear_arith)
                requires
                    quotient == before_q,
                    remainder == before_r + rest,
                    before_q * total_supply + before_r == i * rest,
            ;
        }
        i = i + 1;
    }
    proof {
        lemma_fundamental_div_mod(balance as int, total_supply as int);
        assert(balance * 100 == total_supply * (wholes * 100 + quotient) + remainder)
            by (nonlinear_arith)
            requires
                balance == total_supply * wholes + rest,
                quotient * total_supply + remainder == 100 * rest,
        ;
        lemma_fundamental_div_mod_converse(
            balance * 100,
            total_supply as int,
            wholes * 100 + quotient,
            remainder as int,
        );
    }
    if wholes > (u128::MAX - quotient) / 100 {
        None
    } else {
        Some(wholes * 100 + quotient)
    }
}

} // verus!
