//! Settlement: paying out claims on resolved markets and refunding bets on
//! cancelled ones. Each moves value out of the vault and settles the bet
//! record together, or refuses and changes nothing.
use vstd::prelude::*;
use crate::address::Address;
use crate::error::ErrorCode;
use crate::payout::{
    calculate_payout, distributable_of, lemma_conservation, payout_of, stake_on, total_paid,
    winning_pool_of,
};
use crate::state::{bet_step, BetRecord, BetStatus, Market, MarketStatus, MarketVault};

verus! {

/// What a claim is owed on a resolved market (nothing for the losing side).
pub open spec fn payout_owed(m: Market, claimed_outcome: bool, claimed_amount: u64) -> nat {
    payout_of(
        claimed_outcome,
        claimed_amount as nat,
        m.outcome->0,
        m.revealed_yes_pool as nat,
        m.revealed_no_pool as nat,
        m.revealed_total_pool as nat,
        m.fee_bps as nat,
    )
}

/// Why `claim_payout` refuses, if it does.
pub open spec fn claim_payout_error(
    m: Market,
    v: MarketVault,
    b: BetRecord,
    bettor: Address,
    claimed_outcome: bool,
    claimed_amount: u64,
) -> Option<ErrorCode> {
    let owed = payout_owed(m, claimed_outcome, claimed_amount);
    if m.status != MarketStatus::Resolved || m.outcome is None {
        Some(ErrorCode::MarketNotResolved)
    } else if v.market@ != m.address@ {
        Some(ErrorCode::InvalidVault)
    } else if b.market@ != m.address@ {
        Some(ErrorCode::InvalidAccount)
    } else if b.bettor@ != bettor@ {
        Some(ErrorCode::Unauthorized)
    } else if b.claimed {
        Some(ErrorCode::BetAlreadyClaimed)
    } else if b.status != BetStatus::Confirmed {
        Some(ErrorCode::BetNotConfirmed)
    } else if claimed_amount != b.bet_lamports {
        Some(ErrorCode::InvalidBetClaim)
    } else if v.total_withdrawals + owed > u64::MAX {
        Some(ErrorCode::Overflow)
    } else if v.total_withdrawals + owed > v.total_deposits {
        Some(ErrorCode::InsufficientVaultBalance)
    } else {
        None
    }
}

/// The vault after paying out `amount`.
pub open spec fn withdrawn(v: MarketVault, amount: nat) -> MarketVault {
    MarketVault { total_withdrawals: (v.total_withdrawals + amount) as u64, ..v }
}

/// The bet record once settled for `amount` with final status `status`.
pub open spec fn settled(b: BetRecord, amount: nat, status: BetStatus) -> BetRecord {
    BetRecord { claimed: true, payout_amount: Some(amount as u64), status, ..b }
}

/// Settles a confirmed bet on a resolved market. The claimed stake must equal
/// the recorded one; the winning side receives its share of the pool after
/// fees, the losing side nothing. Returns the amount to transfer out of the
/// vault, which is recorded as withdrawn together with the settled record.
pub fn claim_payout(
    market: &Market,
    vault: &mut MarketVault,
    bet_record: &mut BetRecord,
    bettor: &Address,
    claimed_outcome: bool,
    claimed_amount: u64,
) -> (r: Result<u64, ErrorCode>)
    ensures
        match r {
            Ok(p) => {
                &&& claim_payout_error(
                    *market,
                    *old(vault),
                    *old(bet_record),
                    *bettor,
                    claimed_outcome,
                    claimed_amount,
                ) is None
                &&& p == payout_owed(*market, claimed_outcome, claimed_amount)
                &&& *final(vault) == withdrawn(*old(vault), p as nat)
                &&& *final(bet_record) == settled(*old(bet_record), p as nat, BetStatus::Claimed)
                &&& final(vault).wf()
            },
            Err(e) => {
                &&& claim_payout_error(
                    *market,
                    *old(vault),
                    *old(bet_record),
                    *bettor,
                    claimed_outcome,
                    claimed_amount,
                ) == Some(e)
                &&& *final(vault) == *old(vault)
                &&& *final(bet_record) == *old(bet_record)
            },
        },
        bet_step(old(bet_record).status, final(bet_record).status),
        old(vault).wf() ==> final(vault).wf(),
        old(bet_record).wf() ==> final(bet_record).wf(),
{
    let winning_outcome = match market.outcome {
        Some(o) => o,
        None => {
            return Err(ErrorCode::MarketNotResolved);
        },
    };
    if market.status != MarketStatus::Resolved {
        return Err(ErrorCode::MarketNotResolved);
    }
    if !vault.market.same(&market.address) {
        return Err(ErrorCode::InvalidVault);
    }
    if !bet_record.market.same(&market.address) {
        return Err(ErrorCode::InvalidAccount);
    }
    if !bet_record.bettor.same(bettor) {
        return Err(ErrorCode::Unauthorized);
    }
    if bet_record.claimed {
        return Err(ErrorCode::BetAlreadyClaimed);
    }
    if bet_record.status != BetStatus::Confirmed {
        return Err(ErrorCode::BetNotConfirmed);
    }
    if claimed_amount != bet_record.bet_lamports {
        return Err(ErrorCode::InvalidBetClaim);
    }
    let payout = match calculate_payout(
        claimed_outcome,
        claimed_amount,
        winning_outcome,
        market.revealed_yes_pool,
        market.revealed_no_pool,
        market.revealed_total_pool,
        market.fee_bps,
    ) {
        Some(p) => p,
        None => {
            return Err(ErrorCode::Overflow);
        },
    };
    if vault.total_withdrawals > u64::MAX - payout {
        return Err(ErrorCode::Overflow);
    }
    if vault.total_withdrawals + payout > vault.total_deposits {
        return Err(ErrorCode::InsufficientVaultBalance);
    }
    vault.total_withdrawals = vault.total_withdrawals + payout;
    bet_record.claimed = true;
    bet_record.payout_amount = Some(payout);
    bet_record.status = BetStatus::Claimed;
    Ok(payout)
}

/// Why `claim_refund` refuses, if it does.
pub open spec fn claim_refund_error(m: Market, v: MarketVault, b: BetRecord, bettor: Address) -> Option<
    ErrorCode,
> {
    if m.status != MarketStatus::Cancelled {
        Some(ErrorCode::MarketCancelled)
    } else if v.market@ != m.address@ {
        Some(ErrorCode::InvalidVault)
    } else if b.market@ != m.address@ {
        Some(ErrorCode::InvalidAccount)
    } else if b.bettor@ != bettor@ {
        Some(ErrorCode::Unauthorized)
    } else if b.claimed || !(b.status == BetStatus::Pending || b.status == BetStatus::Confirmed) {
        Some(ErrorCode::BetAlreadyClaimed)
    } else if v.total_withdrawals + b.bet_lamports > u64::MAX {
        Some(ErrorCode::Overflow)
    } else if v.total_withdrawals + b.bet_lamports > v.total_deposits {
        Some(ErrorCode::InsufficientVaultBalance)
    } else {
        None
    }
}

/// Refunds a bet on a cancelled market: always the original stake, whatever
/// the pools hold. Returns the amount to transfer out of the vault, which is
/// recorded as withdrawn together with the refunded record.
pub fn claim_refund(
    market: &Market,
    vault: &mut MarketVault,
    bet_record: &mut BetRecord,
    bettor: &Address,
) -> (r: Result<u64, ErrorCode>)
    ensures
        match r {
            Ok(amount) => {
                &&& claim_refund_error(*market, *old(vault), *old(bet_record), *bettor) is None
                &&& amount == old(bet_record).bet_lamports
                &&& *final(vault) == withdrawn(*old(vault), amount as nat)
                &&& *final(bet_record) == settled(
                    *old(bet_record),
                    amount as nat,
                    BetStatus::Refunded,
                )
                &&& final(vault).wf()
            },
            Err(e) => {
                &&& claim_refund_error(*market, *old(vault), *old(bet_record), *bettor) == Some(e)
                &&& *final(vault) == *old(vault)
                &&& *final(bet_record) == *old(bet_record)
            },
        },
        bet_step(old(bet_record).status, final(bet_record).status),
        old(vault).wf() ==> final(vault).wf(),
        old(bet_record).wf() ==> final(bet_record).wf(),
{
    if market.status != MarketStatus::Cancelled {
        return Err(ErrorCode::MarketCancelled);
    }
    if !vault.market.same(&market.address) {
        return Err(ErrorCode::InvalidVault);
    }
    if !bet_record.market.same(&market.address) {
        return Err(ErrorCode::InvalidAccount);
    }
    if !bet_record.bettor.same(bettor) {
        return Err(ErrorCode::Unauthorized);
    }
    if !bet_record.can_refund() {
        return Err(ErrorCode::BetAlreadyClaimed);
    }
    let refund_amount = bet_record.bet_lamports;
    if vault.total_withdrawals > u64::MAX - refund_amount {
        return Err(ErrorCode::Overflow);
    }
    if vault.total_withdrawals + refund_amount > vault.total_deposits {
        return Err(ErrorCode::InsufficientVaultBalance);
    }
    vault.total_withdrawals = vault.total_withdrawals + refund_amount;
    bet_record.claimed = true;
    bet_record.payout_amount = Some(refund_amount);
    bet_record.status = BetStatus::Refunded;
    Ok(refund_amount)
}

/// No double payout: once a claim on a bet record has succeeded, any further
/// claim on the settled record, whatever it names, is refused as already claimed.
pub proof fn lemma_no_double_payout(
    m: Market,
    v: MarketVault,
    b: BetRecord,
    bettor: Address,
    claimed_outcome: bool,
    claimed_amount: u64,
    again_outcome: bool,
    again_amount: u64,
)
    requires
        claim_payout_error(m, v, b, bettor, claimed_outcome, claimed_amount) is None,
    ensures
        ({
            let p = payout_owed(m, claimed_outcome, claimed_amount);
            claim_payout_error(
                m,
                withdrawn(v, p),
                settled(b, p, BetStatus::Claimed),
                bettor,
                again_outcome,
                again_amount,
            ) == Some(ErrorCode::BetAlreadyClaimed)
        }),
{
}

/// A refund is paid at most once: after a successful refund, a second refund
/// of the same record is refused as already claimed.
pub proof fn lemma_single_refund(m: Market, v: MarketVault, b: BetRecord, bettor: Address)
    requires
        claim_refund_error(m, v, b, bettor) is None,
    ensures
        claim_refund_error(
            m,
            withdrawn(v, b.bet_lamports as nat),
            settled(b, b.bet_lamports as nat, BetStatus::Refunded),
            bettor,
        ) == Some(ErrorCode::BetAlreadyClaimed),
{
}

/// The vault after paying out, in order, what each of `claims` (an outcome
/// and a stake) is owed on `m`: the vault that successive successful
/// `claim_payout` calls leave behind.
pub open spec fn after_claims(m: Market, v: MarketVault, claims: Seq<(bool, u64)>) -> MarketVault
    decreases claims.len(),
{
    if claims.len() == 0 {
        v
    } else {
        withdrawn(
            after_claims(m, v, claims.drop_last()),
            payout_owed(m, claims.last().0, claims.last().1),
        )
    }
}

proof fn lemma_after_claims_withdrawals(m: Market, v: MarketVault, claims: Seq<(bool, u64)>)
    requires
        m.outcome is Some,
        v.total_withdrawals + total_paid(
            claims,
            m.outcome->0,
            m.revealed_yes_pool as nat,
            m.revealed_no_pool as nat,
            m.revealed_total_pool as nat,
            m.fee_bps as nat,
        ) <= u64::MAX,
    ensures
        after_claims(m, v, claims).total_withdrawals == v.total_withdrawals + total_paid(
            claims,
            m.outcome->0,
            m.revealed_yes_pool as nat,
            m.revealed_no_pool as nat,
            m.revealed_total_pool as nat,
            m.fee_bps as nat,
        ),
        after_claims(m, v, claims).total_deposits == v.total_deposits,
    decreases claims.len(),
{
    if claims.len() > 0 {
        lemma_after_claims_withdrawals(m, v, claims.drop_last());
    }
}

/// Conservation over successive claims: when claims on distinct bets of a
/// resolved market, whose winning-side stakes add up to no more than the
/// revealed winning pool, are paid one after the other, the vault's
/// withdrawals grow by exactly the sum of the payouts, and that sum never
/// exceeds the revealed total less the fee. The rest stays in the vault.
pub proof fn lemma_successive_claims(m: Market, v: MarketVault, claims: Seq<(bool, u64)>)
    requires
        m.outcome is Some,
        stake_on(claims, m.outcome->0) <= winning_pool_of(
            m.outcome->0,
            m.revealed_yes_pool as nat,
            m.revealed_no_pool as nat,
        ),
        v.total_withdrawals + total_paid(
            claims,
            m.outcome->0,
            m.revealed_yes_pool as nat,
            m.revealed_no_pool as nat,
            m.revealed_total_pool as nat,
            m.fee_bps as nat,
        ) <= u64::MAX,
    ensures
        ({
            let paid = total_paid(
                claims,
                m.outcome->0,
                m.revealed_yes_pool as nat,
                m.revealed_no_pool as nat,
                m.revealed_total_pool as nat,
                m.fee_bps as nat,
            );
            &&& after_claims(m, v, claims).total_withdrawals == v.total_withdrawals + paid
            &&& paid <= distributable_of(m.revealed_total_pool as nat, m.fee_bps as nat)
        }),
{
    lemma_after_claims_withdrawals(m, v, claims);
    lemma_conservation(
        claims,
        m.outcome->0,
        m.revealed_yes_pool as nat,
        m.revealed_no_pool as nat,
        m.revealed_total_pool as nat,
        m.fee_bps as nat,
    );
}

/// Sum of all stakes.
pub open spec fn sum_stakes(stakes: Seq<u64>) -> nat
    decreases stakes.len(),
{
    if stakes.len() == 0 {
        0
    } else {
        sum_stakes(stakes.drop_last()) + stakes.last() as nat
    }
}

/// Sum of the stakes marked refunded.
pub open spec fn sum_refunded(stakes: Seq<u64>, refunded: Seq<bool>) -> nat
    decreases stakes.len(),
{
    if stakes.len() == 0 || refunded.len() == 0 {
        0
    } else {
        sum_refunded(stakes.drop_last(), refunded.drop_last()) + if refunded.last() {
            stakes.last() as nat
        } else {
            0
        }
    }
}

proof fn lemma_refunded_below(stakes: Seq<u64>, refunded: Seq<bool>, i: int)
    requires
        stakes.len() == refunded.len(),
        0 <= i < stakes.len(),
        !refunded[i],
    ensures
        sum_refunded(stakes, refunded) + stakes[i] <= sum_stakes(stakes),
    decreases stakes.len(),
{
    lemma_refunded_at_most(stakes.drop_last(), refunded.drop_last());
    if i < stakes.len() - 1 {
        lemma_refunded_below(stakes.drop_last(), refunded.drop_last(), i);
    }
}

proof fn lemma_refunded_at_most(stakes: Seq<u64>, refunded: Seq<bool>)
    requires
        stakes.len() == refunded.len(),
    ensures
        sum_refunded(stakes, refunded) <= sum_stakes(stakes),
    decreases stakes.len(),
{
    if stakes.len() > 0 {
        lemma_refunded_at_most(stakes.drop_last(), refunded.drop_last());
    }
}

/// Refunds are always covered: on a cancelled market whose vault holds the
/// stakes of its bets (`stakes`) and has paid out exactly the refunds marked
/// in `refunded`, the refund of any bet not yet refunded, claimed by its own
/// bettor, succeeds.
pub proof fn lemma_refund_succeeds(
    m: Market,
    v: MarketVault,
    b: BetRecord,
    bettor: Address,
    stakes: Seq<u64>,
    refunded: Seq<bool>,
    i: int,
)
    requires
        m.status == MarketStatus::Cancelled,
        v.market@ == m.address@,
        b.market@ == m.address@,
        b.bettor@ == bettor@,
        !b.claimed,
        b.status == BetStatus::Pending || b.status == BetStatus::Confirmed,
        stakes.len() == refunded.len(),
        0 <= i < stakes.len(),
        stakes[i] == b.bet_lamports,
        !refunded[i],
        v.total_deposits == sum_stakes(stakes),
        v.total_withdrawals == sum_refunded(stakes, refunded),
    ensures
        claim_refund_error(m, v, b, bettor) is None,
{
    lemma_refunded_below(stakes, refunded, i);
}

} // verus!
