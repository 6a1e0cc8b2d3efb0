//! The ledger records: markets, their vaults and bet records, and the status
//! graphs along which they move.
use vstd::prelude::*;
use crate::address::Address;
use crate::payout::MAX_FEE_BPS;
use crate::coordinator::{Circuit, PendingComputation};

verus! {

/// Longest market question, in UTF-8 code units.
pub const MAX_QUESTION_LEN: usize = 200;

/// Number of ciphertexts in the encrypted aggregate: yes pool, no pool, bet count.
pub const ENCRYPTED_STATE_LEN: usize = 3;

/// Number of ciphertexts in an encrypted bet: outcome, amount.
pub const ENCRYPTED_BET_LEN: usize = 2;

/// A 32-byte ciphertext of the confidential network.
pub type Ciphertext = [u8; 32];

/// Status of a market.
#[derive(Clone, Copy, Debug, PartialEq, Eq, Structural)]
pub enum MarketStatus {
    /// Open for betting.
    Open,
    /// Betting closed, awaiting resolution.
    Closed,
    /// Resolution computation in flight.
    Resolving,
    /// Resolved: payouts available.
    Resolved,
    /// Cancelled: refunds available.
    Cancelled,
}

/// How a market is resolved. Only `Manual` is fully implemented; the others
/// reduce to the creator's authorization.
#[derive(Clone, Copy, Debug, PartialEq, Eq, Structural)]
pub enum OracleType {
    Manual,
    Switchboard,
    Jury,
}

/// The oracle mode a configuration byte selects; unknown bytes select `Manual`.
pub open spec fn oracle_type_of(value: u8) -> OracleType {
    if value == 1 {
        OracleType::Switchboard
    } else if value == 2 {
        OracleType::Jury
    } else {
        OracleType::Manual
    }
}

impl From<u8> for OracleType {
    fn from(value: u8) -> (r: OracleType) {
        match value {
            1 => OracleType::Switchboard,
            2 => OracleType::Jury,
            _ => OracleType::Manual,
        }
    }
}

impl vstd::std_specs::convert::FromSpecImpl<u8> for OracleType {
    open spec fn obeys_from_spec() -> bool {
        true
    }

    open spec fn from_spec(v: u8) -> OracleType {
        oracle_type_of(v)
    }
}

/// Status of a bet record.
#[derive(Clone, Copy, Debug, PartialEq, Eq, Structural)]
pub enum BetStatus {
    /// Placed, awaiting aggregation by the confidential network.
    Pending,
    /// Aggregated into the market's pools.
    Confirmed,
    /// Payout claimed.
    Claimed,
    /// Refund claimed on a cancelled market.
    Refunded,
}

/// Position of a market status along its graph.
pub open spec fn market_rank(s: MarketStatus) -> nat {
    match s {
        MarketStatus::Open => 0,
        MarketStatus::Closed => 1,
        MarketStatus::Resolving => 2,
        MarketStatus::Resolved => 3,
        MarketStatus::Cancelled => 4,
    }
}

/// The market status graph: `Open -> Closed -> Resolving -> Resolved`, and
/// `Open | Closed -> Cancelled`; staying put is always allowed.
pub open spec fn market_step(a: MarketStatus, b: MarketStatus) -> bool {
    ||| a == b
    ||| a == MarketStatus::Open && b == MarketStatus::Closed
    ||| a == MarketStatus::Closed && b == MarketStatus::Resolving
    ||| a == MarketStatus::Resolving && b == MarketStatus::Resolved
    ||| a == MarketStatus::Open && b == MarketStatus::Cancelled
    ||| a == MarketStatus::Closed && b == MarketStatus::Cancelled
}

/// Position of a bet status along its graph.
pub open spec fn bet_rank(s: BetStatus) -> nat {
    match s {
        BetStatus::Pending => 0,
        BetStatus::Confirmed => 1,
        BetStatus::Claimed => 2,
        BetStatus::Refunded => 3,
    }
}

/// The bet status graph: `Pending -> Confirmed -> Claimed`, and
/// `Pending | Confirmed -> Refunded`; staying put is always allowed.
pub open spec fn bet_step(a: BetStatus, b: BetStatus) -> bool {
    ||| a == b
    ||| a == BetStatus::Pending && b == BetStatus::Confirmed
    ||| a == BetStatus::Confirmed && b == BetStatus::Claimed
    ||| a == BetStatus::Pending && b == BetStatus::Refunded
    ||| a == BetStatus::Confirmed && b == BetStatus::Refunded
}

/// Statuses only move forward: every allowed market step keeps or raises the
/// rank, and no two distinct statuses can each step to the other.
pub proof fn lemma_market_status_forward(a: MarketStatus, b: MarketStatus)
    requires
        market_step(a, b),
    ensures
        market_rank(a) <= market_rank(b),
        a != b ==> market_rank(a) < market_rank(b),
        market_step(b, a) ==> a == b,
        a == MarketStatus::Resolved || a == MarketStatus::Cancelled ==> b == a,
{
}

/// Statuses only move forward: every allowed bet step keeps or raises the
/// rank, and no two distinct statuses can each step to the other.
pub proof fn lemma_bet_status_forward(a: BetStatus, b: BetStatus)
    requires
        bet_step(a, b),
    ensures
        bet_rank(a) <= bet_rank(b),
        a != b ==> bet_rank(a) < bet_rank(b),
        bet_step(b, a) ==> a == b,
        a == BetStatus::Claimed || a == BetStatus::Refunded ==> b == a,
{
}

/// Length of a question in UTF-8 code units.
pub open spec fn question_len(q: Seq<char>) -> nat {
    vstd::utf8::encode_utf8(q).len()
}

/// A prediction market.
pub struct Market {
    pub bump: u8,
    /// Creator-chosen identifier, unique per creator.
    pub market_id: u64,
    /// The market's own address.
    pub address: Address,
    /// The creator, who may close early, resolve and cancel.
    pub authority: Address,
    pub question: String,
    /// Betting closes at this time.
    pub resolution_time: i64,
    pub created_at: i64,
    pub fee_bps: u16,
    pub oracle_type: OracleType,
    pub oracle_feed: Option<Address>,
    pub status: MarketStatus,
    /// The winning side, once resolved.
    pub outcome: Option<bool>,
    /// The encrypted aggregate: yes pool, no pool, bet count.
    pub encrypted_state: [Ciphertext; 3],
    /// Nonce under which `encrypted_state` was produced; changes with it.
    pub state_nonce: u128,
    pub mpc_initialized: bool,
    pub revealed_yes_pool: u64,
    pub revealed_no_pool: u64,
    pub revealed_total_pool: u64,
    /// Number of bets aggregated so far.
    pub bet_count: u32,
    /// Sum of plaintext stakes, for display only.
    pub total_liquidity_approx: u64,
    pub vault: Address,
    /// The computation queued against this market whose callback has not yet
    /// landed; while set, no other computation may be queued for the market.
    pub pending_computation: Option<PendingComputation>,
}

impl Market {
    /// Byte offset of the encrypted aggregate in the stored record:
    /// discriminator, bump, id, authority, question, times, fee, oracle type
    /// and feed, status, outcome.
    pub const ENCRYPTED_STATE_OFFSET: u32 = 8 + 1 + 8 + 32 + 4 + 200 + 8 + 8 + 2 + 1 + 33 + 1 + 2;

    /// Size of the encrypted aggregate in bytes.
    pub const ENCRYPTED_STATE_SIZE: u32 = 32 * 3;

    /// The record's invariant: the configuration is within bounds, an outcome
    /// exists exactly when resolved, the only computation that can be in flight
    /// while resolving is the payout split, revealed totals add up, and an
    /// initialization is only ever in flight for a market not yet initialized.
    pub open spec fn wf(&self) -> bool {
        &&& self.fee_bps <= MAX_FEE_BPS
        &&& question_len(self.question@) <= MAX_QUESTION_LEN
        &&& (self.outcome is Some <==> self.status == MarketStatus::Resolved)
        &&& (self.status == MarketStatus::Resolving && self.pending_computation is Some) ==> (
        self.pending_computation matches Some(p) && p.circuit == Circuit::CalculatePayoutPools)
        &&& self.revealed_total_pool == self.revealed_yes_pool + self.revealed_no_pool
        &&& (self.pending_computation matches Some(p) && p.circuit == Circuit::InitMarketState)
            ==> !self.mpc_initialized
    }

    /// Open for betting.
    pub fn is_open(&self) -> (r: bool)
        ensures
            r == (self.status == MarketStatus::Open),
    {
        self.status == MarketStatus::Open
    }

    /// Closed and ready to be resolved.
    pub fn can_resolve(&self) -> (r: bool)
        ensures
            r == (self.status == MarketStatus::Closed),
    {
        self.status == MarketStatus::Closed
    }

    /// Resolved: payouts may be claimed.
    pub fn payouts_available(&self) -> (r: bool)
        ensures
            r == (self.status == MarketStatus::Resolved),
    {
        self.status == MarketStatus::Resolved
    }

    /// Cancelled: refunds may be claimed.
    pub fn is_cancelled(&self) -> (r: bool)
        ensures
            r == (self.status == MarketStatus::Cancelled),
    {
        self.status == MarketStatus::Cancelled
    }
}

/// The vault holding a market's stakes: cumulative deposits and withdrawals.
#[derive(Clone, Copy, Debug)]
pub struct MarketVault {
    pub bump: u8,
    pub market: Address,
    pub total_deposits: u64,
    pub total_withdrawals: u64,
}

impl MarketVault {
    /// Size of the stored record in bytes.
    pub const LEN: usize = 8 + 1 + 32 + 8 + 8;

    /// Never more withdrawn than deposited.
    pub open spec fn wf(&self) -> bool {
        self.total_withdrawals <= self.total_deposits
    }

    /// What the vault still holds.
    pub fn balance(&self) -> (r: u64)
        requires
            self.wf(),
        ensures
            r == self.total_deposits - self.total_withdrawals,
    {
        self.total_deposits - self.total_withdrawals
    }
}

/// One bettor's bet on one market.
pub struct BetRecord {
    pub bump: u8,
    pub market: Address,
    pub bettor: Address,
    /// Position of the bet among the market's bets.
    pub bet_index: u32,
    /// The encrypted bet: outcome, amount.
    pub encrypted_bet: [Ciphertext; 2],
    /// The bettor's encryption key, so the bettor can read the record back.
    pub user_pubkey: [u8; 32],
    pub user_nonce: u128,
    /// The stake, in plaintext: it is what was moved into the vault.
    pub bet_lamports: u64,
    pub status: BetStatus,
    pub placed_at: i64,
    pub confirmed_at: Option<i64>,
    pub claimed: bool,
    pub payout_amount: Option<u64>,
}

impl BetRecord {
    /// A record counts as claimed exactly when it has been paid out or refunded.
    pub open spec fn wf(&self) -> bool {
        self.claimed <==> (self.status == BetStatus::Claimed || self.status == BetStatus::Refunded)
    }

    /// Confirmed and not yet claimed.
    pub fn can_claim(&self) -> (r: bool)
        ensures
            r == (self.status == BetStatus::Confirmed && !self.claimed),
    {
        self.status == BetStatus::Confirmed && !self.claimed
    }

    /// Not yet claimed, and neither claimed nor refunded.
    pub fn can_refund(&self) -> (r: bool)
        ensures
            r == (!self.claimed && (self.status == BetStatus::Confirmed || self.status
                == BetStatus::Pending)),
    {
        !self.claimed && (self.status == BetStatus::Confirmed || self.status == BetStatus::Pending)
    }
}

/// Per-user betting statistics.
#[derive(Clone, Copy, Debug)]
pub struct UserStats {
    pub bump: u8,
    pub user: Address,
    pub total_bets: u32,
    pub total_wagered: u64,
    pub total_won: u64,
    pub total_lost: u64,
    pub markets_participated: u32,
    pub correct_predictions: u32,
}

} // verus!
