//! Winner selection and withdrawal: the modulo draw, the one-way close, the
//! exact-amount payout, its authorization gate, and the one-shot guarantee.

use lottery_platform::error::LotteryGameError;
use lottery_platform::purchase::BuyLotteryTicketParams;
use lottery_platform::purchase::buy_lottery_ticket;
use lottery_platform::registration::RegisterLotteryGameParams;
use lottery_platform::registration::RegisterParticipantParams;
use lottery_platform::registration::init;
use lottery_platform::registration::register_lottery_game;
use lottery_platform::registration::register_participant;
use lottery_platform::selection::GetLotteryGameWinnerParams;
use lottery_platform::selection::get_lottery_game_winner;
use lottery_platform::state::AccountId;
use lottery_platform::state::DepositBase;
use lottery_platform::state::LotteryGame;
use lottery_platform::state::LotteryGameConfigs;
use lottery_platform::state::LotteryOperator;
use lottery_platform::state::Participant;
use lottery_platform::transfer::TransferTokenParams;
use lottery_platform::transfer::transfer_token;
use lottery_platform::withdrawal::WithdrawLotteryGameWinningsParams;
use lottery_platform::withdrawal::withdraw_lottery_game_winnings;

fn admin() -> AccountId {
    AccountId { id: 1000 }
}

fn ready() -> (LotteryGameConfigs, LotteryGame, DepositBase) {
    let mut configs = LotteryGameConfigs::default();
    init(&mut configs).unwrap();
    let params = RegisterLotteryGameParams {
        operator: LotteryOperator {
            operator: b"Acme Lotteries".to_vec(),
        },
        country: b"KE".to_vec(),
        lottery_game_name: b"Weekly Draw".to_vec(),
        lottery_winning_percentage: 40,
        unit_cost_of_lottery_ticket: 100,
        decimals: 2,
        value_date: b"2026-01-01".to_vec(),
    };
    let (game, deposit) = register_lottery_game(&mut configs, &params, admin(), 254, 253).unwrap();
    (configs, game, deposit)
}

fn selection_params() -> GetLotteryGameWinnerParams {
    GetLotteryGameWinnerParams {
        operator: LotteryOperator {
            operator: b"Acme Lotteries".to_vec(),
        },
        country: b"KE".to_vec(),
        lottery_game_name: b"Weekly Draw".to_vec(),
    }
}

fn new_participant(id: u64) -> Participant {
    let params = RegisterParticipantParams {
        full_names: b"Jane Wanjiku Doe".to_vec(),
        country: b"KE".to_vec(),
    };
    register_participant(&params, AccountId { id }).unwrap()
}

fn buy(game: &mut LotteryGame, p: &mut Participant, amount: u32) {
    let caller = p.owner;
    buy_lottery_ticket(game, p, caller, &BuyLotteryTicketParams { amount }).unwrap();
}

/// Three buyers, one purchase each, in roster order 1, 2, 3.
fn three_buyer_game() -> (
    LotteryGameConfigs,
    LotteryGame,
    DepositBase,
    [Participant; 3],
) {
    let (configs, mut game, deposit) = ready();
    let mut records = [new_participant(1), new_participant(2), new_participant(3)];
    buy(&mut game, &mut records[0], 4);
    buy(&mut game, &mut records[1], 6);
    buy(&mut game, &mut records[2], 5);
    (configs, game, deposit, records)
}

#[test]
fn selection_uses_counter_mod_roster_len() {
    // roster [1, 2, 3], counter 7: index 7 mod 3 = 1, winner is the second
    let (configs, mut game, deposit, _records) = three_buyer_game();
    get_lottery_game_winner(&configs, &mut game, &deposit, admin(), &selection_params(), 7).unwrap();
    assert_eq!(game.lottery_game_winner_index, 1);
    assert_eq!(game.lottery_game_winner, AccountId { id: 2 });
    assert!(game.is_closed);
    assert_eq!(game.total_available_funds, 15);
    assert_eq!(game.participants.len(), 3);
}

#[test]
fn selection_fails_without_participants() {
    let (configs, mut game, deposit) = ready();
    let r = get_lottery_game_winner(&configs, &mut game, &deposit, admin(), &selection_params(), 7);
    assert_eq!(r.unwrap_err(), LotteryGameError::InvalidParticipants);
    assert!(!game.is_closed);
}

#[test]
fn selection_twice_fails_with_closed_error() {
    let (configs, mut game, deposit, _records) = three_buyer_game();
    get_lottery_game_winner(&configs, &mut game, &deposit, admin(), &selection_params(), 7).unwrap();
    let winner = game.lottery_game_winner;
    let r = get_lottery_game_winner(&configs, &mut game, &deposit, admin(), &selection_params(), 8);
    assert_eq!(r.unwrap_err(), LotteryGameError::LotteryGameClosed);
    // the first draw stands untouched
    assert!(game.is_closed);
    assert_eq!(game.lottery_game_winner, winner);
    assert_eq!(game.lottery_game_winner_index, 1);
}

#[test]
fn selection_requires_custody_owner() {
    let (configs, mut game, deposit, _records) = three_buyer_game();
    let r = get_lottery_game_winner(
        &configs,
        &mut game,
        &deposit,
        AccountId { id: 2 },
        &selection_params(),
        7,
    );
    assert_eq!(r.unwrap_err(), LotteryGameError::InvalidOwner);
    assert!(!game.is_closed);
}

#[test]
fn selection_rejects_bad_operator_input() {
    let (configs, mut game, deposit, _records) = three_buyer_game();
    let mut params = selection_params();
    params.operator.operator = vec![b'x'; 31];
    let r = get_lottery_game_winner(&configs, &mut game, &deposit, admin(), &params, 7);
    assert_eq!(r.unwrap_err(), LotteryGameError::InvalidOperatorLength);
    assert!(!game.is_closed);
}

#[test]
fn roster_only_grows_and_close_is_permanent() {
    let (configs, mut game, deposit, mut records) = three_buyer_game();
    let mut roster_len = game.participants.len();
    buy(&mut game, &mut records[0], 1);
    assert!(game.participants.len() >= roster_len);
    roster_len = game.participants.len();
    get_lottery_game_winner(&configs, &mut game, &deposit, admin(), &selection_params(), 11)
        .unwrap();
    assert!(game.participants.len() >= roster_len);
    assert!(game.is_closed);
    // every later operation leaves the flag set
    let _ = get_lottery_game_winner(&configs, &mut game, &deposit, admin(), &selection_params(), 12);
    assert!(game.is_closed);
    let winner = game.lottery_game_winner;
    let mut winner_record = records
        .into_iter()
        .find(|r| r.owner == winner)
        .unwrap();
    let pool = game.total_available_funds;
    withdraw_lottery_game_winnings(
        &mut game,
        &mut winner_record,
        &deposit,
        winner,
        &WithdrawLotteryGameWinningsParams { amount: pool },
    )
    .unwrap();
    assert!(game.is_closed);
    assert!(game.participants.len() >= roster_len);
}

#[test]
fn withdrawal_pays_winner_exactly_once() {
    // counter 7 picks the second buyer; the pool is 4 + 6 + 5 = 15.
    let (configs, mut game, deposit, records) = three_buyer_game();
    get_lottery_game_winner(&configs, &mut game, &deposit, admin(), &selection_params(), 7).unwrap();
    let [p1, mut p2, p3] = records;
    let base_units = withdraw_lottery_game_winnings(
        &mut game,
        &mut p2,
        &deposit,
        AccountId { id: 2 },
        &WithdrawLotteryGameWinningsParams { amount: 15 },
    )
    .unwrap();
    // decimals 2: 15 * 10^2 base units leave custody
    assert_eq!(base_units, 1500);
    assert_eq!(game.total_available_funds, 0);
    assert_eq!(p2.available_funds, 0);
    assert_eq!(p2.total_units_lottery_ticket, 0);
    // the losers' records are untouched
    assert_eq!(p1.available_funds, 4);
    assert_eq!(p3.available_funds, 5);
    // a retry finds the pool empty
    let r = withdraw_lottery_game_winnings(
        &mut game,
        &mut p2,
        &deposit,
        AccountId { id: 2 },
        &WithdrawLotteryGameWinningsParams { amount: 15 },
    );
    assert_eq!(r.unwrap_err(), LotteryGameError::InsufficientFunds);
    assert_eq!(game.total_available_funds, 0);
}

#[test]
fn paid_out_game_accepts_no_further_purchase() {
    // the game is terminal after the payout: the winner cannot refill the
    // pool and pass the withdrawal checks a second time
    let (configs, mut game, deposit, records) = three_buyer_game();
    get_lottery_game_winner(&configs, &mut game, &deposit, admin(), &selection_params(), 7).unwrap();
    let [_p1, mut p2, _p3] = records;
    withdraw_lottery_game_winnings(
        &mut game,
        &mut p2,
        &deposit,
        AccountId { id: 2 },
        &WithdrawLotteryGameWinningsParams { amount: 15 },
    )
    .unwrap();
    let r = buy_lottery_ticket(
        &mut game,
        &mut p2,
        AccountId { id: 2 },
        &BuyLotteryTicketParams { amount: 1 },
    );
    assert_eq!(r.unwrap_err(), LotteryGameError::LotteryGameClosed);
    assert_eq!(game.total_available_funds, 0);
    assert_eq!(p2.available_funds, 0);
    let retry = withdraw_lottery_game_winnings(
        &mut game,
        &mut p2,
        &deposit,
        AccountId { id: 2 },
        &WithdrawLotteryGameWinningsParams { amount: 1 },
    );
    assert_eq!(retry.unwrap_err(), LotteryGameError::InsufficientFunds);
}

#[test]
fn withdrawal_rejects_non_winner() {
    let (configs, mut game, deposit, records) = three_buyer_game();
    get_lottery_game_winner(&configs, &mut game, &deposit, admin(), &selection_params(), 7).unwrap();
    let [mut p1, _p2, _p3] = records;
    let r = withdraw_lottery_game_winnings(
        &mut game,
        &mut p1,
        &deposit,
        AccountId { id: 1 },
        &WithdrawLotteryGameWinningsParams { amount: 15 },
    );
    assert_eq!(r.unwrap_err(), LotteryGameError::InvalidLotteryGameWinner);
    // no state change
    assert_eq!(game.total_available_funds, 15);
    assert_eq!(p1.available_funds, 4);
    assert_eq!(p1.total_units_lottery_ticket, 400);
}

#[test]
fn withdrawal_rejects_wrong_amount() {
    let (configs, mut game, deposit, records) = three_buyer_game();
    get_lottery_game_winner(&configs, &mut game, &deposit, admin(), &selection_params(), 7).unwrap();
    let [_p1, mut p2, _p3] = records;
    for wrong in [1, 14, 16, u32::MAX] {
        let r = withdraw_lottery_game_winnings(
            &mut game,
            &mut p2,
            &deposit,
            AccountId { id: 2 },
            &WithdrawLotteryGameWinningsParams { amount: wrong },
        );
        assert_eq!(r.unwrap_err(), LotteryGameError::MismatchedAmount);
        assert_eq!(game.total_available_funds, 15);
        assert_eq!(p2.available_funds, 6);
    }
}

#[test]
fn withdrawal_rejects_zero_amount() {
    let (configs, mut game, deposit, records) = three_buyer_game();
    get_lottery_game_winner(&configs, &mut game, &deposit, admin(), &selection_params(), 7).unwrap();
    let [_p1, mut p2, _p3] = records;
    let r = withdraw_lottery_game_winnings(
        &mut game,
        &mut p2,
        &deposit,
        AccountId { id: 2 },
        &WithdrawLotteryGameWinningsParams { amount: 0 },
    );
    assert_eq!(r.unwrap_err(), LotteryGameError::InvalidAmount);
}

#[test]
fn withdrawal_requires_closed_game() {
    let (_configs, mut game, deposit, records) = three_buyer_game();
    let [_p1, mut p2, _p3] = records;
    let r = withdraw_lottery_game_winnings(
        &mut game,
        &mut p2,
        &deposit,
        AccountId { id: 2 },
        &WithdrawLotteryGameWinningsParams { amount: 15 },
    );
    assert_eq!(r.unwrap_err(), LotteryGameError::LotteryGameClosed);
    assert_eq!(game.total_available_funds, 15);
}

#[test]
fn withdrawal_rejects_record_of_another_owner() {
    let (configs, mut game, deposit, records) = three_buyer_game();
    get_lottery_game_winner(&configs, &mut game, &deposit, admin(), &selection_params(), 7).unwrap();
    let [mut p1, _p2, _p3] = records;
    // the winner's identity with a record it does not own
    let r = withdraw_lottery_game_winnings(
        &mut game,
        &mut p1,
        &deposit,
        AccountId { id: 2 },
        &WithdrawLotteryGameWinningsParams { amount: 15 },
    );
    assert_eq!(r.unwrap_err(), LotteryGameError::InvalidOwner);
    assert_eq!(game.total_available_funds, 15);
}

#[test]
fn withdrawal_requires_initialized_custody() {
    let (configs, mut game, mut deposit, records) = three_buyer_game();
    get_lottery_game_winner(&configs, &mut game, &deposit, admin(), &selection_params(), 7).unwrap();
    deposit.is_initialized = false;
    let [_p1, mut p2, _p3] = records;
    let r = withdraw_lottery_game_winnings(
        &mut game,
        &mut p2,
        &deposit,
        AccountId { id: 2 },
        &WithdrawLotteryGameWinningsParams { amount: 15 },
    );
    assert_eq!(r.unwrap_err(), LotteryGameError::AccountNotInitialized);
    assert_eq!(game.total_available_funds, 15);
    assert_eq!(p2.available_funds, 6);
}

#[test]
fn transfer_token_scales_against_game_decimals() {
    let (_configs, game, _deposit) = ready();
    let base_units = transfer_token(&game, &TransferTokenParams { amount: 3 }).unwrap();
    assert_eq!(base_units, 300);
}

#[test]
fn transfer_token_rejects_zero_amount() {
    let (_configs, game, _deposit) = ready();
    let r = transfer_token(&game, &TransferTokenParams { amount: 0 });
    assert_eq!(r.unwrap_err(), LotteryGameError::InvalidAmount);
}

#[test]
fn transfer_token_rejects_uninitialized_game() {
    let (_configs, mut game, _deposit) = ready();
    game.is_initialized = false;
    let r = transfer_token(&game, &TransferTokenParams { amount: 3 });
    assert_eq!(r.unwrap_err(), LotteryGameError::AccountNotInitialized);
}
