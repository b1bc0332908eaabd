//! The ledger's records: the game aggregate, a participant's record, the
//! registry of operators, and the custody authority that signs payouts.

use vstd::prelude::*;

verus! {

/// Longest allowed operator name, in bytes.
pub const OPERATOR_LENGTH: usize = 30;
/// Longest allowed game name, in bytes.
pub const LOTTERY_GAME_NAME_LENGTH: usize = 20;
/// Longest allowed value date, in bytes.
pub const DATE_LENGTH: usize = 20;
/// A country code is exactly this many bytes...
pub const COUNTRY_LENGTH: usize = 3;
/// ...or this many.
pub const COUNTRY_LENGTH_2: usize = 2;
/// Longest allowed participant full names, in bytes.
pub const FULL_NAMES_LENGTH: usize = 50;
/// Fixed capacity of a game's participant list.
pub const MAX_PARTICIPANTS: usize = 10;

/// An operator name is 1 to `OPERATOR_LENGTH` bytes.
pub open spec fn operator_name_ok(name: Seq<u8>) -> bool {
    1 <= name.len() && name.len() <= OPERATOR_LENGTH
}

/// A country code is exactly 2 or 3 bytes.
pub open spec fn country_code_ok(code: Seq<u8>) -> bool {
    code.len() == COUNTRY_LENGTH || code.len() == COUNTRY_LENGTH_2
}

/// A game name is 1 to `LOTTERY_GAME_NAME_LENGTH` bytes.
pub open spec fn game_name_ok(name: Seq<u8>) -> bool {
    1 <= name.len() && name.len() <= LOTTERY_GAME_NAME_LENGTH
}

/// A value date is 1 to `DATE_LENGTH` bytes.
pub open spec fn value_date_ok(date: Seq<u8>) -> bool {
    1 <= date.len() && date.len() <= DATE_LENGTH
}

/// Full names are 1 to `FULL_NAMES_LENGTH` bytes.
pub open spec fn full_names_ok(names: Seq<u8>) -> bool {
    1 <= names.len() && names.len() <= FULL_NAMES_LENGTH
}

/// Copies a byte string, for the fields that a registration stores in more
/// than one record.
pub fn clone_bytes(v: &Vec<u8>) -> (r: Vec<u8>)
    ensures
        r@ == v@,
{
    let mut r: Vec<u8> = Vec::new();
    let mut i: usize = 0;
    while i < v.len()
        invariant
            i <= v.len(),
            r@ == v@.subrange(0, i as int),
        decreases v.len() - i,
    {
        r.push(v[i]);
        i = i + 1;
        proof {
            assert(r@ =~= v@.subrange(0, i as int));
        }
    }
    proof {
        assert(r@ =~= v@);
    }
    r
}

/// The identity of an account holder, as the ledger runtime hands it to the
/// library: an opaque key reduced to a plain number. Two records belong to
/// the same holder exactly when their identities are equal.
#[derive(Clone, Copy, Debug, PartialEq, Eq, Structural)]
pub struct AccountId {
    pub id: u64,
}

/// The name of a company operating a lottery.
#[derive(Debug)]
pub struct LotteryOperator {
    /// Operator name, 1 to `OPERATOR_LENGTH` bytes.
    pub operator: Vec<u8>,
}

/// The process-wide registry: an append-only list of operator names with no
/// further invariant.
#[derive(Debug)]
pub struct LotteryGameConfigs {
    pub operators: Vec<LotteryOperator>,
    pub is_initialized: bool,
}

/// The central aggregate: economics fixed at registration, the running pool
/// of purchase funds, the roster of purchases, and the close/winner state.
#[derive(Debug)]
pub struct LotteryGame {
    /// Identity of the registering admin, immutable after creation.
    pub owner: AccountId,
    /// The operating company, immutable after creation.
    pub operator: LotteryOperator,
    /// Country code, 2 or 3 bytes.
    pub country: Vec<u8>,
    /// Game name, 1 to `LOTTERY_GAME_NAME_LENGTH` bytes.
    pub lottery_game_name: Vec<u8>,
    /// Positive, informational; checked again before closing.
    pub lottery_winning_percentage: u32,
    /// Positive price per ticket unit.
    pub unit_cost_of_lottery_ticket: u32,
    /// Token scaling exponent; nonzero.
    pub decimals: u8,
    /// Running sum of all accepted purchase amounts while the game is open;
    /// drained to zero by the one successful withdrawal and never incremented
    /// again, since a closed game accepts no purchase.
    pub total_available_funds: u32,
    /// One entry per accepted purchase (so a buyer of many tickets appears
    /// many times, weighting the draw by volume); append-only, at most
    /// `MAX_PARTICIPANTS` entries.
    pub participants: Vec<AccountId>,
    /// Value date of the draw, 1 to `DATE_LENGTH` bytes.
    pub value_date: Vec<u8>,
    /// Lifecycle: set at registration, never cleared.
    pub is_initialized: bool,
    /// Lifecycle: transitions false to true exactly once, at winner
    /// selection, and never reverts.
    pub is_closed: bool,
    /// Index of the winning entry; set once, at close.
    pub lottery_game_winner_index: u32,
    /// Identity of the winner; set once, at close.
    pub lottery_game_winner: AccountId,
}

impl LotteryGame {
    /// The aggregate's capacity invariant: the roster never exceeds its fixed
    /// capacity. Registration creates the roster empty and a purchase appends
    /// only below the capacity, so every game the library hands out satisfies
    /// this.
    pub open spec fn wf(self) -> bool {
        self.participants@.len() <= MAX_PARTICIPANTS
    }
}

/// One user's purchase record.
#[derive(Debug)]
pub struct Participant {
    /// Identity of the record's holder.
    pub owner: AccountId,
    /// Full names, 1 to `FULL_NAMES_LENGTH` bytes.
    pub full_names: Vec<u8>,
    /// Country code, 2 or 3 bytes.
    pub country: Vec<u8>,
    /// Purchases accumulate only while active.
    pub active: bool,
    /// Cumulative ticket units bought.
    pub total_units_lottery_ticket: u32,
    /// Cumulative amount contributed; reset to zero only by that
    /// participant's own winning withdrawal.
    pub available_funds: u32,
}

/// The custody authority: the derivation bumps for the escrow's signing
/// capability, created with the game and read on every withdrawal.
#[derive(Debug)]
pub struct DepositBase {
    /// Same identity as the game's owner.
    pub owner: AccountId,
    /// Derivation bump of the authority record.
    pub admin_auth_bump: u8,
    /// Derivation bump of the treasury vault; set at creation.
    pub admin_treasury_vault_bump: Option<u8>,
    pub is_initialized: bool,
}

impl DepositBase {
    /// A custody authority that exists holds its treasury bump: registration
    /// establishes this and no operation unsets it.
    pub open spec fn wf(self) -> bool {
        self.is_initialized ==> self.admin_treasury_vault_bump is Some
    }
}

impl Default for LotteryGameConfigs {
    /// The registry before `init`: empty and not initialized.
    fn default() -> (c: LotteryGameConfigs)
        ensures
            !c.is_initialized,
            c.operators@.len() == 0,
    {
        LotteryGameConfigs { operators: Vec::new(), is_initialized: false }
    }
}

} // verus!
