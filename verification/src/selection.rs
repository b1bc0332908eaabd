//! Winner selection: closes a game, once, and fixes the winner as the roster
//! entry at `counter mod roster length`, where the counter is the ledger
//! runtime's monotonically increasing slot.
//!
//! The slot is public, so the draw is predictable by anyone who can predict
//! the slot at submission time; a caller needing fairness must supply an
//! unbiased counter instead.

use vstd::prelude::*;

use crate::error::LotteryGameError;
use crate::state::AccountId;
use crate::state::DepositBase;
use crate::state::LotteryGame;
use crate::state::LotteryGameConfigs;
use crate::state::LotteryOperator;
use crate::state::country_code_ok;
use crate::state::game_name_ok;
use crate::state::operator_name_ok;

verus! {

/// The inputs of a winner selection: the operator's details, re-validated.
pub struct GetLotteryGameWinnerParams {
    pub operator: LotteryOperator,
    pub country: Vec<u8>,
    pub lottery_game_name: Vec<u8>,
}

/// The first check that `get_lottery_game_winner` fails, if any: registry,
/// game and custody must exist, the game must still be open, the caller must
/// own the custody authority, the inputs must have lawful lengths, the
/// economics must still be positive, and the roster must be non-empty.
pub open spec fn get_lottery_game_winner_rejection(
    configs: LotteryGameConfigs,
    game: LotteryGame,
    deposit: DepositBase,
    caller: AccountId,
    params: GetLotteryGameWinnerParams,
) -> Option<LotteryGameError> {
    if !configs.is_initialized {
        Some(LotteryGameError::AccountNotInitialized)
    } else if !game.is_initialized {
        Some(LotteryGameError::AccountNotInitialized)
    } else if game.is_closed {
        Some(LotteryGameError::LotteryGameClosed)
    } else if deposit.owner != caller {
        Some(LotteryGameError::InvalidOwner)
    } else if !deposit.is_initialized {
        Some(LotteryGameError::AccountNotInitialized)
    } else if !operator_name_ok(params.operator.operator@) {
        Some(LotteryGameError::InvalidOperatorLength)
    } else if !country_code_ok(params.country@) {
        Some(LotteryGameError::InvalidCountryLength)
    } else if !game_name_ok(params.lottery_game_name@) {
        Some(LotteryGameError::InvalidLotteryGameNameLength)
    } else if game.lottery_winning_percentage == 0 {
        Some(LotteryGameError::InvalidAmount)
    } else if game.unit_cost_of_lottery_ticket == 0 {
        Some(LotteryGameError::InvalidAmount)
    } else if game.decimals == 0 {
        Some(LotteryGameError::InvalidNumeric)
    } else if game.participants@.len() == 0 {
        Some(LotteryGameError::InvalidParticipants)
    } else {
        None
    }
}

/// Closes `game` and fixes its winner from the externally supplied `slot`.
///
/// On success the winner's index is `slot mod roster length`, the winner is
/// the roster entry there, and the game is closed; the roster, the pool and
/// the economics are untouched. Closing is one-way: on a game already closed
/// the call fails with the closed-game error, and on any rejection the game
/// is unchanged, so the flag transitions false to true exactly once and never
/// reverts.
pub fn get_lottery_game_winner(
    configs: &LotteryGameConfigs,
    game: &mut LotteryGame,
    deposit: &DepositBase,
    caller: AccountId,
    params: &GetLotteryGameWinnerParams,
    slot: u64,
) -> (r: Result<(), LotteryGameError>)
    requires
        old(game).wf(),
    ensures
        final(game).participants@ == old(game).participants@,
        old(game).is_closed ==> final(game).is_closed,
        match r {
            Ok(()) => {
                &&& get_lottery_game_winner_rejection(*configs, *old(game), *deposit, caller, *params)
                    is None
                &&& !old(game).is_closed
                &&& final(game).is_closed
                &&& final(game).lottery_game_winner_index == slot as int % old(
                    game,
                ).participants@.len() as int
                &&& final(game).lottery_game_winner == old(game).participants@[slot as int % old(
                    game,
                ).participants@.len() as int]
                &&& final(game).total_available_funds == old(game).total_available_funds
                &&& final(game).owner == old(game).owner
                &&& final(game).operator.operator@ == old(game).operator.operator@
                &&& final(game).country@ == old(game).country@
                &&& final(game).lottery_game_name@ == old(game).lottery_game_name@
                &&& final(game).lottery_winning_percentage == old(game).lottery_winning_percentage
                &&& final(game).unit_cost_of_lottery_ticket == old(
                    game,
                ).unit_cost_of_lottery_ticket
                &&& final(game).decimals == old(game).decimals
                &&& final(game).value_date@ == old(game).value_date@
                &&& final(game).is_initialized == old(game).is_initialized
            },
            Err(e) => {
                &&& get_lottery_game_winner_rejection(*configs, *old(game), *deposit, caller, *params)
                    == Some(e)
                &&& *final(game) == *old(game)
            },
        },
{
    if !configs.is_initialized {
        return Err(LotteryGameError::AccountNotInitialized);
    }
    if !game.is_initialized {
        return Err(LotteryGameError::AccountNotInitialized);
    }
    if game.is_closed {
        return Err(LotteryGameError::LotteryGameClosed);
    }
    if !(deposit.owner == caller) {
        return Err(LotteryGameError::InvalidOwner);
    }
    if !deposit.is_initialized {
        return Err(LotteryGameError::AccountNotInitialized);
    }
    if !(params.operator.operator.len() > 0 && params.operator.operator.len()
        <= crate::state::OPERATOR_LENGTH) {
        return Err(LotteryGameError::InvalidOperatorLength);
    }
    if params.country.len() != crate::state::COUNTRY_LENGTH && params.country.len()
        != crate::state::COUNTRY_LENGTH_2 {
        return Err(LotteryGameError::InvalidCountryLength);
    }
    if !(params.lottery_game_name.len() > 0 && params.lottery_game_name.len()
        <= crate::state::LOTTERY_GAME_NAME_LENGTH) {
        return Err(LotteryGameError::InvalidLotteryGameNameLength);
    }
    if game.lottery_winning_percentage == 0 {
        return Err(LotteryGameError::InvalidAmount);
    }
    if game.unit_cost_of_lottery_ticket == 0 {
        return Err(LotteryGameError::InvalidAmount);
    }
    if game.decimals == 0 {
        return Err(LotteryGameError::InvalidNumeric);
    }
    let roster_len = game.participants.len();
    if roster_len == 0 {
        return Err(LotteryGameError::InvalidParticipants);
    }

    let winner_index = (slot % (roster_len as u64)) as usize;
    let winner = game.participants[winner_index];
    game.lottery_game_winner_index = winner_index as u32;
    game.lottery_game_winner = winner;
    game.is_closed = true;
    Ok(())
}

} // verus!
