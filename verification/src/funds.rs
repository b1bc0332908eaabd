//! The pool accounting law: before the withdrawal, a game's
//! `total_available_funds` equals the sum of the `available_funds` of the
//! participant records that purchased in it.
//!
//! The records live in separate accounts, so the law is stated over a
//! sequence holding those records' balances: registration establishes it for
//! the empty sequence, registering a participant extends the sequence with a
//! zero balance, and a purchase updates one entry and the total in lock-step.
//! A successful withdrawal is the boundary: it zeroes the pool while the
//! losers keep their balances, so the equation is stated for the states
//! before it.

use vstd::prelude::*;

use crate::state::LotteryGame;

verus! {

/// The sum of a sequence of participant balances, as an unbounded integer.
pub open spec fn sum_funds(balances: Seq<u32>) -> int
    decreases balances.len(),
{
    if balances.len() == 0 {
        0
    } else {
        balances[0] + sum_funds(balances.drop_first())
    }
}

/// The accounting equation itself: the game's pool equals the sum of the
/// given participant balances.
pub open spec fn funds_invariant(game: LotteryGame, balances: Seq<u32>) -> bool {
    sum_funds(balances) == game.total_available_funds
}

/// Appending a balance adds it to the sum.
pub proof fn lemma_sum_funds_push(balances: Seq<u32>, v: u32)
    ensures
        sum_funds(balances.push(v)) == sum_funds(balances) + v,
    decreases balances.len(),
{
    let pushed = balances.push(v);
    assert(sum_funds(pushed) == pushed[0] + sum_funds(pushed.drop_first()));
    if balances.len() == 0 {
        assert(pushed.drop_first() =~= Seq::<u32>::empty());
    } else {
        assert(pushed.drop_first() =~= balances.drop_first().push(v));
        lemma_sum_funds_push(balances.drop_first(), v);
    }
}

/// Replacing one balance moves the sum by the difference.
pub proof fn lemma_sum_funds_update(balances: Seq<u32>, i: int, v: u32)
    requires
        0 <= i < balances.len(),
    ensures
        sum_funds(balances.update(i, v)) == sum_funds(balances) - balances[i] + v,
    decreases balances.len(),
{
    if i == 0 {
        assert(balances.update(0, v).drop_first() =~= balances.drop_first());
    } else {
        assert(balances.update(i, v).drop_first() =~= balances.drop_first().update(i - 1, v));
        lemma_sum_funds_update(balances.drop_first(), i - 1, v);
    }
}

/// A freshly registered game satisfies the accounting equation: its pool is
/// zero and no participant record has purchased in it yet.
pub proof fn lemma_registration_establishes_funds_invariant(game: LotteryGame)
    requires
        game.total_available_funds == 0,
    ensures
        funds_invariant(game, Seq::<u32>::empty()),
{
}

/// Registering a participant preserves the accounting equation: the new
/// record enters with a zero balance and the pool is untouched.
pub proof fn lemma_participant_registration_preserves_funds_invariant(
    game: LotteryGame,
    balances: Seq<u32>,
)
    requires
        funds_invariant(game, balances),
    ensures
        funds_invariant(game, balances.push(0)),
{
    lemma_sum_funds_push(balances, 0);
}

/// A successful purchase preserves the accounting equation: the buyer's
/// balance and the pool grow by the same amount, exactly as
/// `buy_lottery_ticket` ensures of the records it updates.
pub proof fn lemma_purchase_preserves_funds_invariant(
    old_game: LotteryGame,
    new_game: LotteryGame,
    balances: Seq<u32>,
    i: int,
    amount: u32,
    new_balance: u32,
)
    requires
        0 <= i < balances.len(),
        funds_invariant(old_game, balances),
        new_balance == balances[i] + amount,
        new_game.total_available_funds == old_game.total_available_funds + amount,
    ensures
        funds_invariant(new_game, balances.update(i, new_balance)),
{
    lemma_sum_funds_update(balances, i, new_balance);
}

} // verus!
