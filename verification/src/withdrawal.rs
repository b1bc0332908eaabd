//! Withdrawal: the one-shot custodial payout. Only the recorded winner of a
//! closed game may withdraw, only for exactly the pooled total, and only
//! once: success drains the pool to zero, and the zero-balance checks reject
//! every retry.

use vstd::prelude::*;

use crate::arith::lemma_scale_overflow_iff;
use crate::arith::pow10_spec;
use crate::arith::scale_to_base_units;
use crate::error::LotteryGameError;
use crate::state::AccountId;
use crate::state::DepositBase;
use crate::state::LotteryGame;
use crate::state::Participant;

verus! {

/// The inputs of a withdrawal: the whole amount requested, which must equal
/// the pooled total.
pub struct WithdrawLotteryGameWinningsParams {
    pub amount: u32,
}

/// The first check that `withdraw_lottery_game_winnings` fails, if any: game
/// and custody must exist, the game must be closed, the caller must own an
/// active record and be the recorded winner, both balances must be positive,
/// the amount must equal the pooled total exactly, and the base-unit scaling
/// must stay in range.
pub open spec fn withdraw_rejection(
    game: LotteryGame,
    participant: Participant,
    deposit: DepositBase,
    caller: AccountId,
    amount: u32,
) -> Option<LotteryGameError> {
    if !game.is_initialized {
        Some(LotteryGameError::AccountNotInitialized)
    } else if !game.is_closed {
        Some(LotteryGameError::LotteryGameClosed)
    } else if participant.owner != caller {
        Some(LotteryGameError::InvalidOwner)
    } else if !participant.active {
        Some(LotteryGameError::InvalidParticipantStatus)
    } else if !deposit.is_initialized {
        Some(LotteryGameError::AccountNotInitialized)
    } else if amount == 0 {
        Some(LotteryGameError::InvalidAmount)
    } else if game.lottery_game_winner != caller {
        Some(LotteryGameError::InvalidLotteryGameWinner)
    } else if participant.available_funds == 0 {
        Some(LotteryGameError::InsufficientFunds)
    } else if game.total_available_funds == 0 {
        Some(LotteryGameError::InsufficientFunds)
    } else if game.total_available_funds != amount {
        Some(LotteryGameError::MismatchedAmount)
    } else if amount * pow10_spec(game.decimals as nat) > u64::MAX {
        Some(LotteryGameError::InvalidArithmeticOperation)
    } else {
        None
    }
}

/// Pays the recorded winner the whole pool, all-or-nothing.
///
/// Success is owed exactly when no check in `withdraw_rejection` fails; in
/// particular the requested amount must equal the pooled total — any other
/// value is rejected with the mismatch error and no mutation. On success the
/// pool and the winner's counters are zeroed and the returned base units,
/// `amount * 10^decimals`, are what the custody authority must move to the
/// winner. The pool reaching zero makes any further withdrawal fail the
/// zero-balance check, so the payout happens at most once per game. The
/// roster, the lifecycle flags and the recorded winner never change here.
pub fn withdraw_lottery_game_winnings(
    game: &mut LotteryGame,
    participant: &mut Participant,
    deposit: &DepositBase,
    caller: AccountId,
    params: &WithdrawLotteryGameWinningsParams,
) -> (r: Result<u64, LotteryGameError>)
    ensures
        final(game).participants@ == old(game).participants@,
        final(game).is_closed == old(game).is_closed,
        match r {
            Ok(base_units) => {
                &&& withdraw_rejection(
                    *old(game),
                    *old(participant),
                    *deposit,
                    caller,
                    params.amount,
                ) is None
                &&& params.amount == old(game).total_available_funds
                &&& final(game).total_available_funds == 0
                &&& final(participant).available_funds == 0
                &&& final(participant).total_units_lottery_ticket == 0
                &&& base_units == params.amount * pow10_spec(old(game).decimals as nat)
                &&& final(participant).owner == old(participant).owner
                &&& final(participant).full_names@ == old(participant).full_names@
                &&& final(participant).country@ == old(participant).country@
                &&& final(participant).active == old(participant).active
                &&& final(game).owner == old(game).owner
                &&& final(game).operator.operator@ == old(game).operator.operator@
                &&& final(game).country@ == old(game).country@
                &&& final(game).lottery_game_name@ == old(game).lottery_game_name@
                &&& final(game).lottery_winning_percentage == old(game).lottery_winning_percentage
                &&& final(game).unit_cost_of_lottery_ticket == old(
                    game,
                ).unit_cost_of_lottery_ticket
                &&& final(game).decimals == old(game).decimals
                &&& final(game).value_date@ == old(game).value_date@
                &&& final(game).is_initialized == old(game).is_initialized
                &&& final(game).lottery_game_winner_index == old(game).lottery_game_winner_index
                &&& final(game).lottery_game_winner == old(game).lottery_game_winner
            },
            Err(e) => {
                &&& withdraw_rejection(
                    *old(game),
                    *old(participant),
                    *deposit,
                    caller,
                    params.amount,
                ) == Some(e)
                &&& *final(game) == *old(game)
                &&& *final(participant) == *old(participant)
            },
        },
{
    if !game.is_initialized {
        return Err(LotteryGameError::AccountNotInitialized);
    }
    if !game.is_closed {
        return Err(LotteryGameError::LotteryGameClosed);
    }
    if !(participant.owner == caller) {
        return Err(LotteryGameError::InvalidOwner);
    }
    if !participant.active {
        return Err(LotteryGameError::InvalidParticipantStatus);
    }
    if !deposit.is_initialized {
        return Err(LotteryGameError::AccountNotInitialized);
    }
    let amount = params.amount;
    if amount == 0 {
        return Err(LotteryGameError::InvalidAmount);
    }
    if !(game.lottery_game_winner == caller) {
        return Err(LotteryGameError::InvalidLotteryGameWinner);
    }
    if participant.available_funds == 0 {
        return Err(LotteryGameError::InsufficientFunds);
    }
    if game.total_available_funds == 0 {
        return Err(LotteryGameError::InsufficientFunds);
    }
    if game.total_available_funds != amount {
        return Err(LotteryGameError::MismatchedAmount);
    }

    let base_units = match scale_to_base_units(amount, game.decimals) {
        Some(v) => v,
        None => {
            proof {
                lemma_scale_overflow_iff(amount, game.decimals);
            }
            return Err(LotteryGameError::InvalidArithmeticOperation);
        },
    };

    let new_total = match game.total_available_funds.checked_sub(amount) {
        Some(v) => v,
        None => {
            return Err(LotteryGameError::InvalidArithmeticOperation);
        },
    };

    participant.available_funds = 0;
    participant.total_units_lottery_ticket = 0;
    game.total_available_funds = new_total;

    Ok(base_units)
}

} // verus!
