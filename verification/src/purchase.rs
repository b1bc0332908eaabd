//! Ticket purchase: validates a buy against the game and the buyer's record,
//! applies the four counter updates under checked arithmetic, appends one
//! roster entry, and returns the base units the token transfer service must
//! move from the buyer into custody.

use vstd::prelude::*;

use crate::arith::lemma_scale_overflow_iff;
use crate::arith::pow10_spec;
use crate::arith::scale_to_base_units;
use crate::error::LotteryGameError;
use crate::state::AccountId;
use crate::state::LotteryGame;
use crate::state::MAX_PARTICIPANTS;
use crate::state::Participant;

verus! {

/// The inputs of a ticket purchase: the whole amount paid.
pub struct BuyLotteryTicketParams {
    pub amount: u32,
}

/// The first check that `buy_lottery_ticket` fails, if any: the game must
/// exist and still be open (a closed game is terminal: its pool never grows
/// again), the caller must own an active record, the amount must be positive,
/// the roster must have room, and every counter update and the base-unit
/// scaling must stay in range.
pub open spec fn buy_lottery_ticket_rejection(
    game: LotteryGame,
    participant: Participant,
    caller: AccountId,
    amount: u32,
) -> Option<LotteryGameError> {
    if !game.is_initialized {
        Some(LotteryGameError::AccountNotInitialized)
    } else if game.is_closed {
        Some(LotteryGameError::LotteryGameClosed)
    } else if participant.owner != caller {
        Some(LotteryGameError::InvalidOwner)
    } else if !participant.active {
        Some(LotteryGameError::InvalidParticipantStatus)
    } else if amount == 0 {
        Some(LotteryGameError::InvalidAmount)
    } else if game.participants@.len() >= MAX_PARTICIPANTS {
        Some(LotteryGameError::ParticipantListFull)
    } else if game.unit_cost_of_lottery_ticket * amount > u32::MAX {
        Some(LotteryGameError::InvalidArithmeticOperation)
    } else if participant.total_units_lottery_ticket + game.unit_cost_of_lottery_ticket * amount
        > u32::MAX {
        Some(LotteryGameError::InvalidArithmeticOperation)
    } else if participant.available_funds + amount > u32::MAX {
        Some(LotteryGameError::InvalidArithmeticOperation)
    } else if game.total_available_funds + amount > u32::MAX {
        Some(LotteryGameError::InvalidArithmeticOperation)
    } else if amount * pow10_spec(game.decimals as nat) > u64::MAX {
        Some(LotteryGameError::InvalidArithmeticOperation)
    } else {
        None
    }
}

/// Applies a purchase of `params.amount` by `caller` to `game` and the
/// caller's `participant` record, all-or-nothing.
///
/// On success the buyer's units grow by `unit_cost * amount`, the buyer's
/// funds and the game's pool each grow by `amount`, the caller is appended
/// to the roster (one entry per purchase, so buying repeatedly weights the
/// draw by volume), and the returned base units, `amount * 10^decimals`, are
/// what the caller must move into custody. On any rejection both records are
/// unchanged; in particular an overflowing `unit_cost * amount` leaves every
/// counter as it was. A purchase is accepted only while the game is open:
/// once it closes the game is terminal and every buy fails with the
/// closed-game error, so the pool never grows again. The pool never shrinks
/// here and the game's lifecycle flags, winner and economics never change.
pub fn buy_lottery_ticket(
    game: &mut LotteryGame,
    participant: &mut Participant,
    caller: AccountId,
    params: &BuyLotteryTicketParams,
) -> (r: Result<u64, LotteryGameError>)
    ensures
        final(game).participants@.len() >= old(game).participants@.len(),
        old(game).wf() ==> final(game).wf(),
        final(game).is_closed == old(game).is_closed,
        match r {
            Ok(base_units) => {
                &&& buy_lottery_ticket_rejection(*old(game), *old(participant), caller, params.amount)
                    is None
                &&& final(participant).total_units_lottery_ticket == old(
                    participant,
                ).total_units_lottery_ticket + old(game).unit_cost_of_lottery_ticket * params.amount
                &&& final(participant).available_funds == old(participant).available_funds
                    + params.amount
                &&& final(game).total_available_funds == old(game).total_available_funds
                    + params.amount
                &&& final(game).participants@ == old(game).participants@.push(caller)
                &&& base_units == params.amount * pow10_spec(old(game).decimals as nat)
                &&& final(participant).owner == old(participant).owner
                &&& final(participant).full_names@ == old(participant).full_names@
                &&& final(participant).country@ == old(participant).country@
                &&& final(participant).active == old(participant).active
                &&& final(game).owner == old(game).owner
                &&& final(game).operator.operator@ == old(game).operator.operator@
                &&& final(game).country@ == old(game).country@
                &&& final(game).lottery_game_name@ == old(game).lottery_game_name@
                &&& final(game).lottery_winning_percentage == old(game).lottery_winning_percentage
                &&& final(game).unit_cost_of_lottery_ticket == old(
                    game,
                ).unit_cost_of_lottery_ticket
                &&& final(game).decimals == old(game).decimals
                &&& final(game).value_date@ == old(game).value_date@
                &&& final(game).is_initialized == old(game).is_initialized
                &&& final(game).lottery_game_winner_index == old(game).lottery_game_winner_index
                &&& final(game).lottery_game_winner == old(game).lottery_game_winner
            },
            Err(e) => {
                &&& buy_lottery_ticket_rejection(*old(game), *old(participant), caller, params.amount)
                    == Some(e)
                &&& *final(game) == *old(game)
                &&& *final(participant) == *old(participant)
            },
        },
{
    if !game.is_initialized {
        return Err(LotteryGameError::AccountNotInitialized);
    }
    if game.is_closed {
        return Err(LotteryGameError::LotteryGameClosed);
    }
    if !(participant.owner == caller) {
        return Err(LotteryGameError::InvalidOwner);
    }
    if !participant.active {
        return Err(LotteryGameError::InvalidParticipantStatus);
    }
    let amount = params.amount;
    if amount == 0 {
        return Err(LotteryGameError::InvalidAmount);
    }
    if game.participants.len() >= MAX_PARTICIPANTS {
        return Err(LotteryGameError::ParticipantListFull);
    }

    let unit_lottery_ticket = match game.unit_cost_of_lottery_ticket.checked_mul(amount) {
        Some(v) => v,
        None => {
            return Err(LotteryGameError::InvalidArithmeticOperation);
        },
    };
    let new_total_units = match participant.total_units_lottery_ticket.checked_add(
        unit_lottery_ticket,
    ) {
        Some(v) => v,
        None => {
            return Err(LotteryGameError::InvalidArithmeticOperation);
        },
    };
    let new_available_funds = match participant.available_funds.checked_add(amount) {
        Some(v) => v,
        None => {
            return Err(LotteryGameError::InvalidArithmeticOperation);
        },
    };
    let new_total_available_funds = match game.total_available_funds.checked_add(amount) {
        Some(v) => v,
        None => {
            return Err(LotteryGameError::InvalidArithmeticOperation);
        },
    };
    let base_units = match scale_to_base_units(amount, game.decimals) {
        Some(v) => v,
        None => {
            proof {
                lemma_scale_overflow_iff(amount, game.decimals);
            }
            return Err(LotteryGameError::InvalidArithmeticOperation);
        },
    };

    participant.total_units_lottery_ticket = new_total_units;
    participant.available_funds = new_available_funds;
    game.total_available_funds = new_total_available_funds;
    game.participants.push(caller);

    Ok(base_units)
}

} // verus!
