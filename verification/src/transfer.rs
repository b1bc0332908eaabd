//! Plain token transfer: scales a whole amount against a game's decimals and
//! hands the base units to the token transfer service. No accounting field
//! changes here; the movement itself is the caller's.

use vstd::prelude::*;

use crate::arith::lemma_scale_overflow_iff;
use crate::arith::pow10_spec;
use crate::arith::scale_to_base_units;
use crate::error::LotteryGameError;
use crate::state::LotteryGame;

verus! {

/// The inputs of a plain transfer: the whole amount to move.
pub struct TransferTokenParams {
    pub amount: u32,
}

/// The first check that `transfer_token` fails, if any.
pub open spec fn transfer_token_rejection(game: LotteryGame, amount: u32) -> Option<
    LotteryGameError,
> {
    if !game.is_initialized {
        Some(LotteryGameError::AccountNotInitialized)
    } else if amount == 0 {
        Some(LotteryGameError::InvalidAmount)
    } else if amount * pow10_spec(game.decimals as nat) > u64::MAX {
        Some(LotteryGameError::InvalidArithmeticOperation)
    } else {
        None
    }
}

/// Computes the base units, `amount * 10^decimals`, that the token transfer
/// service must move for a plain transfer against `game`'s scaling.
pub fn transfer_token(game: &LotteryGame, params: &TransferTokenParams) -> (r: Result<
    u64,
    LotteryGameError,
>)
    ensures
        match r {
            Ok(base_units) => {
                &&& transfer_token_rejection(*game, params.amount) is None
                &&& base_units == params.amount * pow10_spec(game.decimals as nat)
            },
            Err(e) => transfer_token_rejection(*game, params.amount) == Some(e),
        },
{
    if !game.is_initialized {
        return Err(LotteryGameError::AccountNotInitialized);
    }
    let amount = params.amount;
    if amount == 0 {
        return Err(LotteryGameError::InvalidAmount);
    }
    match scale_to_base_units(amount, game.decimals) {
        Some(v) => Ok(v),
        None => {
            proof {
                lemma_scale_overflow_iff(amount, game.decimals);
            }
            Err(LotteryGameError::InvalidArithmeticOperation)
        },
    }
}

} // verus!
