//! Registration: creating the registry, a game with its custody authority,
//! and a participant record.
//!
//! Each operation validates every input before touching any record, so a
//! rejected registration mutates nothing.

use vstd::prelude::*;

use crate::error::LotteryGameError;
use crate::state::AccountId;
use crate::state::DepositBase;
use crate::state::LotteryGame;
use crate::state::LotteryGameConfigs;
use crate::state::LotteryOperator;
use crate::state::Participant;
use crate::state::clone_bytes;
use crate::state::country_code_ok;
use crate::state::full_names_ok;
use crate::state::game_name_ok;
use crate::state::operator_name_ok;
use crate::state::value_date_ok;

verus! {

/// The inputs of a game registration.
pub struct RegisterLotteryGameParams {
    pub operator: LotteryOperator,
    pub country: Vec<u8>,
    pub lottery_game_name: Vec<u8>,
    pub lottery_winning_percentage: u32,
    pub unit_cost_of_lottery_ticket: u32,
    pub decimals: u8,
    pub value_date: Vec<u8>,
}

/// The inputs of a participant registration.
pub struct RegisterParticipantParams {
    pub full_names: Vec<u8>,
    pub country: Vec<u8>,
}

/// The first check that `init` fails, if any.
pub open spec fn init_rejection(configs: LotteryGameConfigs) -> Option<LotteryGameError> {
    if configs.is_initialized {
        Some(LotteryGameError::AccountAlreadyInitialized)
    } else {
        None
    }
}

/// The first check that `register_lottery_game` fails, if any: the registry
/// must exist, each descriptive field must have a lawful length, and the
/// economics must be positive.
pub open spec fn register_lottery_game_rejection(
    configs: LotteryGameConfigs,
    params: RegisterLotteryGameParams,
) -> Option<LotteryGameError> {
    if !configs.is_initialized {
        Some(LotteryGameError::AccountNotInitialized)
    } else if !operator_name_ok(params.operator.operator@) {
        Some(LotteryGameError::InvalidOperatorLength)
    } else if !country_code_ok(params.country@) {
        Some(LotteryGameError::InvalidCountryLength)
    } else if !game_name_ok(params.lottery_game_name@) {
        Some(LotteryGameError::InvalidLotteryGameNameLength)
    } else if params.lottery_winning_percentage == 0 {
        Some(LotteryGameError::InvalidAmount)
    } else if params.unit_cost_of_lottery_ticket == 0 {
        Some(LotteryGameError::InvalidAmount)
    } else if !value_date_ok(params.value_date@) {
        Some(LotteryGameError::InvalidValueDateLength)
    } else if params.decimals == 0 {
        Some(LotteryGameError::InvalidNumeric)
    } else {
        None
    }
}

/// The first check that `register_participant` fails, if any.
pub open spec fn register_participant_rejection(params: RegisterParticipantParams) -> Option<
    LotteryGameError,
> {
    if !full_names_ok(params.full_names@) {
        Some(LotteryGameError::InvalidFullNamesLength)
    } else if !country_code_ok(params.country@) {
        Some(LotteryGameError::InvalidCountryLength)
    } else {
        None
    }
}

/// Creates the process-wide registry: marks it initialized, exactly once.
pub fn init(configs: &mut LotteryGameConfigs) -> (r: Result<(), LotteryGameError>)
    ensures
        match r {
            Ok(()) => {
                &&& init_rejection(*old(configs)) is None
                &&& final(configs).is_initialized
                &&& final(configs).operators@ == old(configs).operators@
            },
            Err(e) => {
                &&& init_rejection(*old(configs)) == Some(e)
                &&& *final(configs) == *old(configs)
            },
        },
{
    if configs.is_initialized {
        return Err(LotteryGameError::AccountAlreadyInitialized);
    }
    configs.is_initialized = true;
    Ok(())
}

/// Registers a game: validates every input, creates the game aggregate with
/// zeroed accounting and its custody authority holding the derivation bumps,
/// and appends the operator's name to the registry. All-or-nothing: a
/// rejected registration leaves the registry untouched.
pub fn register_lottery_game(
    configs: &mut LotteryGameConfigs,
    params: &RegisterLotteryGameParams,
    owner: AccountId,
    pda_auth_bump: u8,
    treasury_vault_bump: u8,
) -> (r: Result<(LotteryGame, DepositBase), LotteryGameError>)
    ensures
        match r {
            Ok((game, deposit)) => {
                &&& register_lottery_game_rejection(*old(configs), *params) is None
                &&& game.owner == owner
                &&& game.operator.operator@ == params.operator.operator@
                &&& game.country@ == params.country@
                &&& game.lottery_game_name@ == params.lottery_game_name@
                &&& game.lottery_winning_percentage == params.lottery_winning_percentage
                &&& game.unit_cost_of_lottery_ticket == params.unit_cost_of_lottery_ticket
                &&& game.decimals == params.decimals
                &&& game.value_date@ == params.value_date@
                &&& game.total_available_funds == 0
                &&& game.participants@.len() == 0
                &&& game.is_initialized
                &&& !game.is_closed
                &&& game.lottery_game_winner_index == 0
                &&& game.lottery_game_winner == (AccountId { id: 0 })
                &&& deposit.owner == owner
                &&& deposit.admin_auth_bump == pda_auth_bump
                &&& deposit.admin_treasury_vault_bump == Some(treasury_vault_bump)
                &&& deposit.is_initialized
                &&& deposit.wf()
                &&& final(configs).is_initialized == old(configs).is_initialized
                &&& final(configs).operators@.len() == old(configs).operators@.len() + 1
                &&& final(configs).operators@[old(configs).operators@.len() as int].operator@
                    == params.operator.operator@
                &&& forall|i: int|
                    0 <= i < old(configs).operators@.len() ==> final(configs).operators@[i]
                        == old(configs).operators@[i]
            },
            Err(e) => {
                &&& register_lottery_game_rejection(*old(configs), *params) == Some(e)
                &&& *final(configs) == *old(configs)
            },
        },
{
    if !configs.is_initialized {
        return Err(LotteryGameError::AccountNotInitialized);
    }
    if !(params.operator.operator.len() > 0 && params.operator.operator.len()
        <= crate::state::OPERATOR_LENGTH) {
        return Err(LotteryGameError::InvalidOperatorLength);
    }
    if params.country.len() != crate::state::COUNTRY_LENGTH && params.country.len()
        != crate::state::COUNTRY_LENGTH_2 {
        return Err(LotteryGameError::InvalidCountryLength);
    }
    if !(params.lottery_game_name.len() > 0 && params.lottery_game_name.len()
        <= crate::state::LOTTERY_GAME_NAME_LENGTH) {
        return Err(LotteryGameError::InvalidLotteryGameNameLength);
    }
    if params.lottery_winning_percentage == 0 {
        return Err(LotteryGameError::InvalidAmount);
    }
    if params.unit_cost_of_lottery_ticket == 0 {
        return Err(LotteryGameError::InvalidAmount);
    }
    if !(params.value_date.len() > 0 && params.value_date.len() <= crate::state::DATE_LENGTH) {
        return Err(LotteryGameError::InvalidValueDateLength);
    }
    if params.decimals == 0 {
        return Err(LotteryGameError::InvalidNumeric);
    }

    let deposit = DepositBase {
        owner,
        admin_auth_bump: pda_auth_bump,
        admin_treasury_vault_bump: Some(treasury_vault_bump),
        is_initialized: true,
    };

    let game = LotteryGame {
        owner,
        operator: LotteryOperator { operator: clone_bytes(&params.operator.operator) },
        country: clone_bytes(&params.country),
        lottery_game_name: clone_bytes(&params.lottery_game_name),
        lottery_winning_percentage: params.lottery_winning_percentage,
        unit_cost_of_lottery_ticket: params.unit_cost_of_lottery_ticket,
        decimals: params.decimals,
        total_available_funds: 0,
        participants: Vec::new(),
        value_date: clone_bytes(&params.value_date),
        is_initialized: true,
        is_closed: false,
        lottery_game_winner_index: 0,
        lottery_game_winner: AccountId { id: 0 },
    };

    let operator_entry = LotteryOperator { operator: clone_bytes(&params.operator.operator) };
    configs.operators.push(operator_entry);

    Ok((game, deposit))
}

/// Registers a participant: validates the names and the country code and
/// creates an active record with zeroed counters.
pub fn register_participant(params: &RegisterParticipantParams, owner: AccountId) -> (r: Result<
    Participant,
    LotteryGameError,
>)
    ensures
        match r {
            Ok(p) => {
                &&& register_participant_rejection(*params) is None
                &&& p.owner == owner
                &&& p.full_names@ == params.full_names@
                &&& p.country@ == params.country@
                &&& p.active
                &&& p.total_units_lottery_ticket == 0
                &&& p.available_funds == 0
            },
            Err(e) => register_participant_rejection(*params) == Some(e),
        },
{
    if !(params.full_names.len() > 0 && params.full_names.len()
        <= crate::state::FULL_NAMES_LENGTH) {
        return Err(LotteryGameError::InvalidFullNamesLength);
    }
    if params.country.len() != crate::state::COUNTRY_LENGTH && params.country.len()
        != crate::state::COUNTRY_LENGTH_2 {
        return Err(LotteryGameError::InvalidCountryLength);
    }
    Ok(
        Participant {
            owner,
            full_names: clone_bytes(&params.full_names),
            country: clone_bytes(&params.country),
            active: true,
            total_units_lottery_ticket: 0,
            available_funds: 0,
        },
    )
}

} // verus!
