//! The pool accumulator: the five operations the confidential network runs on
//! the encrypted aggregate, written here over plaintext values. Pool and stake
//! quantities are 64-bit and the bet count 32-bit; an operation that would
//! overflow fails closed instead of wrapping.
use vstd::prelude::*;
use crate::payout::{distributable_of, lemma_conservation, stake_on, total_paid};

verus! {

/// A single bet: the side backed (`true` = YES) and the stake.
#[derive(Clone, Copy, Debug, PartialEq, Eq, Structural)]
pub struct Bet {
    pub outcome: bool,
    pub amount: u64,
}

/// The running aggregate of all bets on a market.
#[derive(Clone, Copy, Debug, PartialEq, Eq, Structural)]
pub struct MarketState {
    pub yes_pool: u64,
    pub no_pool: u64,
    pub bet_count: u32,
}

/// Pool sizes declassified at resolution.
#[derive(Clone, Copy, Debug, PartialEq, Eq, Structural)]
pub struct MarketTotals {
    pub yes_pool: u64,
    pub no_pool: u64,
    pub total_pool: u64,
}

/// Pool sizes declassified at resolution, bucketed by the winning outcome.
#[derive(Clone, Copy, Debug, PartialEq, Eq, Structural)]
pub struct PayoutResult {
    pub winning_pool: u64,
    pub losing_pool: u64,
    pub total_pool: u64,
    pub outcome: bool,
}

/// What a bettor claims to have bet.
#[derive(Clone, Copy, Debug, PartialEq, Eq, Structural)]
pub struct BetClaim {
    pub claimed_outcome: bool,
    pub claimed_amount: u64,
}

/// The aggregate of an empty market.
pub fn init_market_state() -> (r: MarketState)
    ensures
        r == (MarketState { yes_pool: 0, no_pool: 0, bet_count: 0 }),
{
    MarketState { yes_pool: 0, no_pool: 0, bet_count: 0 }
}

/// The aggregate after adding `bet`, when nothing overflows.
pub open spec fn aggregate_with(bet: Bet, state: MarketState) -> MarketState {
    MarketState {
        yes_pool: if bet.outcome {
            (state.yes_pool + bet.amount) as u64
        } else {
            state.yes_pool
        },
        no_pool: if bet.outcome {
            state.no_pool
        } else {
            (state.no_pool + bet.amount) as u64
        },
        bet_count: (state.bet_count + 1) as u32,
    }
}

/// Whether `bet` can be added to `state`: the pool it backs and the count
/// both stay within their ranges.
pub open spec fn can_aggregate(bet: Bet, state: MarketState) -> bool {
    &&& bet.outcome ==> state.yes_pool + bet.amount <= u64::MAX
    &&& !bet.outcome ==> state.no_pool + bet.amount <= u64::MAX
    &&& state.bet_count < u32::MAX
}

/// Adds a bet's stake to the pool of the side it backs and counts it.
/// Fails closed (`None`) where that pool or the count would overflow.
pub fn place_bet(bet: Bet, state: MarketState) -> (r: Option<MarketState>)
    ensures
        can_aggregate(bet, state) ==> r == Some(aggregate_with(bet, state)),
        !can_aggregate(bet, state) ==> r is None,
        r matches Some(n) ==> n.yes_pool + n.no_pool == state.yes_pool + state.no_pool
            + bet.amount,
{
    if state.bet_count == u32::MAX {
        return None;
    }
    let mut next = state;
    if bet.outcome {
        if bet.amount > u64::MAX - state.yes_pool {
            return None;
        }
        next.yes_pool = state.yes_pool + bet.amount;
    } else {
        if bet.amount > u64::MAX - state.no_pool {
            return None;
        }
        next.no_pool = state.no_pool + bet.amount;
    }
    next.bet_count = state.bet_count + 1;
    Some(next)
}

/// Aggregation does not depend on order: two bets that can be added one after
/// the other can also be added the other way round, with the same result.
pub proof fn lemma_aggregate_order(first: Bet, second: Bet, state: MarketState)
    requires
        can_aggregate(first, state),
        can_aggregate(second, aggregate_with(first, state)),
    ensures
        can_aggregate(second, state),
        can_aggregate(first, aggregate_with(second, state)),
        aggregate_with(second, aggregate_with(first, state)) == aggregate_with(
            first,
            aggregate_with(second, state),
        ),
{
}

/// Declassifies the two pools and their total. Fails closed (`None`) when the
/// total does not fit in 64 bits.
pub fn reveal_market_totals(state: MarketState) -> (r: Option<MarketTotals>)
    ensures
        state.yes_pool + state.no_pool <= u64::MAX ==> r == Some(
            MarketTotals {
                yes_pool: state.yes_pool,
                no_pool: state.no_pool,
                total_pool: (state.yes_pool + state.no_pool) as u64,
            },
        ),
        state.yes_pool + state.no_pool > u64::MAX ==> r is None,
{
    if state.yes_pool > u64::MAX - state.no_pool {
        return None;
    }
    Some(
        MarketTotals {
            yes_pool: state.yes_pool,
            no_pool: state.no_pool,
            total_pool: state.yes_pool + state.no_pool,
        },
    )
}

/// The pools bucketed as winning and losing sides for `outcome`.
pub open spec fn payout_pools_of(state: MarketState, outcome: bool) -> PayoutResult {
    PayoutResult {
        winning_pool: if outcome {
            state.yes_pool
        } else {
            state.no_pool
        },
        losing_pool: if outcome {
            state.no_pool
        } else {
            state.yes_pool
        },
        total_pool: (state.yes_pool + state.no_pool) as u64,
        outcome,
    }
}

/// Declassifies the pools as winning and losing sides for the given outcome.
/// Fails closed (`None`) when the total does not fit in 64 bits.
pub fn calculate_payout_pools(state: MarketState, outcome: bool) -> (r: Option<PayoutResult>)
    ensures
        state.yes_pool + state.no_pool <= u64::MAX ==> r == Some(payout_pools_of(state, outcome)),
        state.yes_pool + state.no_pool > u64::MAX ==> r is None,
{
    if state.yes_pool > u64::MAX - state.no_pool {
        return None;
    }
    let (winning_pool, losing_pool) = if outcome {
        (state.yes_pool, state.no_pool)
    } else {
        (state.no_pool, state.yes_pool)
    };
    Some(
        PayoutResult {
            winning_pool,
            losing_pool,
            total_pool: state.yes_pool + state.no_pool,
            outcome,
        },
    )
}

/// Whether a claim names exactly the side and stake of the original bet.
pub fn verify_bet_claim(original_bet: Bet, claim: BetClaim) -> (r: bool)
    ensures
        r == (original_bet.outcome == claim.claimed_outcome && original_bet.amount
            == claim.claimed_amount),
{
    original_bet.outcome == claim.claimed_outcome && original_bet.amount == claim.claimed_amount
}

/// Declassifies the number of bets only, keeping the pools hidden.
pub fn get_bet_count(state: MarketState) -> (r: u32)
    ensures
        r == state.bet_count,
{
    state.bet_count
}

/// The bets as (outcome, stake) pairs.
pub open spec fn claims_of(bets: Seq<Bet>) -> Seq<(bool, u64)> {
    bets.map_values(|b: Bet| (b.outcome, b.amount))
}

/// The aggregate after adding `bets` in order to an empty market.
pub open spec fn aggregate_all(bets: Seq<Bet>) -> MarketState
    decreases bets.len(),
{
    if bets.len() == 0 {
        MarketState { yes_pool: 0, no_pool: 0, bet_count: 0 }
    } else {
        aggregate_with(bets.last(), aggregate_all(bets.drop_last()))
    }
}

/// The bets fit the accumulator's ranges: the stakes on each side fit in 64
/// bits and their number in 32 bits.
pub open spec fn fits(bets: Seq<Bet>) -> bool {
    &&& stake_on(claims_of(bets), true) <= u64::MAX
    &&& stake_on(claims_of(bets), false) <= u64::MAX
    &&& bets.len() <= u32::MAX
}

proof fn lemma_claims_drop_last(bets: Seq<Bet>)
    requires
        bets.len() > 0,
    ensures
        claims_of(bets).drop_last() == claims_of(bets.drop_last()),
        claims_of(bets).last() == (bets.last().outcome, bets.last().amount),
{
    assert(claims_of(bets).drop_last() =~= claims_of(bets.drop_last()));
}

/// The aggregate of a sequence of bets holds, in each pool, exactly the sum
/// of the stakes on that side, and counts every bet; each step of it is one
/// that `place_bet` accepts.
pub proof fn lemma_aggregate_pools(bets: Seq<Bet>)
    requires
        fits(bets),
    ensures
        aggregate_all(bets).yes_pool == stake_on(claims_of(bets), true),
        aggregate_all(bets).no_pool == stake_on(claims_of(bets), false),
        aggregate_all(bets).bet_count == bets.len(),
    decreases bets.len(),
{
    if bets.len() > 0 {
        let rest = bets.drop_last();
        lemma_claims_drop_last(bets);
        assert(fits(rest));
        lemma_aggregate_pools(rest);
        assert(can_aggregate(bets.last(), aggregate_all(rest)));
    }
}

/// Conservation: for any sequence of placed bets and either resolution, the
/// payouts owed on all of those bets together never exceed the revealed
/// total less the fee. The remainder (rounding dust, or everything when
/// nobody backed the winner) stays in the vault.
pub proof fn lemma_pool_conservation(bets: Seq<Bet>, winning_outcome: bool, fee_bps: nat)
    requires
        fits(bets),
    ensures
        ({
            let s = aggregate_all(bets);
            let total = (s.yes_pool + s.no_pool) as nat;
            total_paid(claims_of(bets), winning_outcome, s.yes_pool as nat, s.no_pool as nat, total, fee_bps)
                <= distributable_of(total, fee_bps)
        }),
{
    lemma_aggregate_pools(bets);
    let s = aggregate_all(bets);
    lemma_conservation(
        claims_of(bets),
        winning_outcome,
        s.yes_pool as nat,
        s.no_pool as nat,
        (s.yes_pool + s.no_pool) as nat,
        fee_bps,
    );
}

} // verus!
