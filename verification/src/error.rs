//! Error codes for the lottery ledger.
//!
//! Every operation reports its first failing check through one of these
//! codes; a failing operation never mutates any record.

use vstd::prelude::*;

verus! {

/// One distinct code per failing check, mirrored by the `*_rejection`
/// spec functions beside each operation.
#[derive(Clone, Copy, Debug, PartialEq, Eq, Structural)]
pub enum LotteryGameError {
    /// Operator name is empty or longer than `OPERATOR_LENGTH` bytes.
    InvalidOperatorLength,
    /// Game name is empty or longer than `LOTTERY_GAME_NAME_LENGTH` bytes.
    InvalidLotteryGameNameLength,
    /// Value date is empty or longer than `DATE_LENGTH` bytes.
    InvalidValueDateLength,
    /// An amount or percentage is zero where a positive value is required.
    InvalidAmount,
    /// The requested withdrawal amount does not equal the pooled funds.
    MismatchedAmount,
    /// A numeric field (the decimals exponent) is zero.
    InvalidNumeric,
    /// The game is closed where an open one is required, or open where a
    /// closed one is required.
    LotteryGameClosed,
    /// The caller is not the recorded winner of the game.
    InvalidLotteryGameWinner,
    /// Country code is not exactly 2 or 3 bytes.
    InvalidCountryLength,
    /// A checked add, subtract or multiply overflowed.
    InvalidArithmeticOperation,
    /// Full names are empty or longer than `FULL_NAMES_LENGTH` bytes.
    InvalidFullNamesLength,
    /// The participant record is not active.
    InvalidParticipantStatus,
    /// The participant or the pool has no funds to pay out.
    InsufficientFunds,
    /// The game has no participants to select a winner from.
    InvalidParticipants,
    /// The caller does not own the record it passed.
    InvalidOwner,
    /// The participant list is at its fixed capacity.
    ParticipantListFull,
    /// A record that must already exist is not initialized.
    AccountNotInitialized,
    /// A record that must be fresh is already initialized.
    AccountAlreadyInitialized,
}

} // verus!
