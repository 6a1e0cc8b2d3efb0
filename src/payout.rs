use vstd::prelude::*;

verus! {

/// Basis points in one whole (100%).
pub const BPS_DENOMINATOR: u64 = 10000;

/// Highest fee a market may charge: 10%.
pub const MAX_FEE_BPS: u16 = 1000;

/// The fee taken from a pool of `total`: `floor(total * fee_bps / 10000)`.
pub open spec fn fee_of(total: nat, fee_bps: nat) -> nat {
    total * fee_bps / 10000
}

/// What is left of the pool for the winners once the fee is taken (never below zero).
pub open spec fn distributable_of(total: nat, fee_bps: nat) -> nat {
    if fee_of(total, fee_bps) <= total {
        (total - fee_of(total, fee_bps)) as nat
    } else {
        0
    }
}

/// A winner's proportional share: `floor(amount * distributable / winning_pool)`,
/// or nothing when nobody backed the winning side.
pub open spec fn share_of(amount: nat, distributable: nat, winning_pool: nat) -> nat {
    if winning_pool == 0 {
        0
    } else {
        amount * distributable / winning_pool
    }
}

/// The pool of the side that won.
pub open spec fn winning_pool_of(winning_outcome: bool, yes: nat, no: nat) -> nat {
    if winning_outcome {
        yes
    } else {
        no
    }
}

/// The payout owed for a claim whose stake has already been matched against the record.
pub open spec fn payout_of(
    claimed_outcome: bool,
    claimed_amount: nat,
    winning_outcome: bool,
    yes: nat,
    no: nat,
    total: nat,
    fee_bps: nat,
) -> nat {
    if claimed_outcome != winning_outcome {
        0
    } else {
        share_of(
            claimed_amount,
            distributable_of(total, fee_bps),
            winning_pool_of(winning_outcome, yes, no),
        )
    }
}

/// Computes the protocol fee on a pool, with a 128-bit intermediate product.
pub fn calculate_fee(total: u64, fee_bps: u16) -> (r: u64)
    requires
        fee_bps as u64 <= BPS_DENOMINATOR,
    ensures
        r == fee_of(total as nat, fee_bps as nat),
        r <= total,
        fee_bps <= MAX_FEE_BPS ==> r <= total / 10,
{
    proof {
        lemma_fee_at_most_total(total as nat, fee_bps as nat);
        if fee_bps <= MAX_FEE_BPS {
            lemma_fee_bound(total as nat, fee_bps as nat);
        }
    }
    let product: u128 = total as u128 * fee_bps as u128;
    (product / 10000) as u64
}

proof fn lemma_fee_at_most_total(total: nat, fee_bps: nat)
    requires
        fee_bps <= 10000,
    ensures
        fee_of(total, fee_bps) <= total,
{
    assert(total * fee_bps <= total * 10000) by (nonlinear_arith)
        requires
            fee_bps <= 10000,
    ;
    vstd::arithmetic::div_mod::lemma_div_is_ordered(
        (total * fee_bps) as int,
        (total * 10000) as int,
        10000,
    );
    vstd::arithmetic::div_mod::lemma_div_by_multiple(total as int, 10000);
}

/// The fee never exceeds a tenth of the pool when the rate is at most 10%,
/// for every pool size a 64-bit counter can hold.
pub proof fn lemma_fee_bound(total: nat, fee_bps: nat)
    requires
        fee_bps <= MAX_FEE_BPS,
    ensures
        fee_of(total, fee_bps) <= total / 10,
        fee_of(total, fee_bps) <= total,
{
    assert(total * fee_bps <= total * 1000) by (nonlinear_arith)
        requires
            fee_bps <= 1000,
    ;
    vstd::arithmetic::div_mod::lemma_div_is_ordered(
        (total * fee_bps) as int,
        (total * 1000) as int,
        10000,
    );
    let q = total / 10;
    let m = total % 10;
    vstd::arithmetic::div_mod::lemma_fundamental_div_mod(total as int, 10);
    assert(total * 1000 == 10000 * q + m * 1000) by (nonlinear_arith)
        requires
            total == 10 * q + m,
    ;
    vstd::arithmetic::div_mod::lemma_div_multiples_vanish_fancy(q as int, (m * 1000) as int, 10000);
}

/// What is left of a pool of `total` for the winners once the fee is taken;
/// nothing when the rate is 100% or more.
pub fn calculate_distributable(total: u64, fee_bps: u16) -> (r: u64)
    ensures
        r == distributable_of(total as nat, fee_bps as nat),
{
    if fee_bps as u64 >= BPS_DENOMINATOR {
        proof {
            lemma_whole_fee(total as nat, fee_bps as nat);
        }
        0
    } else {
        total - calculate_fee(total, fee_bps)
    }
}

proof fn lemma_whole_fee(total: nat, fee_bps: nat)
    requires
        fee_bps >= 10000,
    ensures
        distributable_of(total, fee_bps) == 0,
{
    assert(total * 10000 <= total * fee_bps) by (nonlinear_arith)
        requires
            fee_bps >= 10000,
    ;
    vstd::arithmetic::div_mod::lemma_div_is_ordered(
        (total * 10000) as int,
        (total * fee_bps) as int,
        10000,
    );
    vstd::arithmetic::div_mod::lemma_div_by_multiple(total as int, 10000);
}

/// Computes the amount paid out on a claim: nothing for the losing side, a
/// proportional share of the pool after fees for the winning side.
/// Returns `None` only when the exact amount does not fit in 64 bits.
pub fn calculate_payout(
    claimed_outcome: bool,
    claimed_amount: u64,
    winning_outcome: bool,
    revealed_yes: u64,
    revealed_no: u64,
    revealed_total: u64,
    fee_bps: u16,
) -> (r: Option<u64>)
    ensures
        ({
            let p = payout_of(
                claimed_outcome,
                claimed_amount as nat,
                winning_outcome,
                revealed_yes as nat,
                revealed_no as nat,
                revealed_total as nat,
                fee_bps as nat,
            );
            &&& p <= u64::MAX ==> r == Some(p as u64)
            &&& p > u64::MAX ==> r is None
        }),
{
    if claimed_outcome != winning_outcome {
        return Some(0);
    }
    let winning_pool: u64 = if winning_outcome {
        revealed_yes
    } else {
        revealed_no
    };
    if winning_pool == 0 {
        return Some(0);
    }
    let distributable: u128 = calculate_distributable(revealed_total, fee_bps) as u128;
    assert(claimed_amount as u128 * distributable <= u64::MAX as u128 * u64::MAX as u128) by (nonlinear_arith)
        requires
            distributable <= u64::MAX,
            claimed_amount <= u64::MAX,
    ;
    let share: u128 = claimed_amount as u128 * distributable / winning_pool as u128;
    if share <= u64::MAX as u128 {
        Some(share as u64)
    } else {
        None
    }
}

/// Sum of the stakes among `claims` that backed `outcome`.
pub open spec fn stake_on(claims: Seq<(bool, u64)>, outcome: bool) -> nat
    decreases claims.len(),
{
    if claims.len() == 0 {
        0
    } else {
        stake_on(claims.drop_last(), outcome) + if claims.last().0 == outcome {
            claims.last().1 as nat
        } else {
            0
        }
    }
}

/// Sum of the payouts owed on `claims` (each an outcome and a stake) once the
/// market has resolved to `winning_outcome` with the given revealed pools.
pub open spec fn total_paid(
    claims: Seq<(bool, u64)>,
    winning_outcome: bool,
    yes: nat,
    no: nat,
    total: nat,
    fee_bps: nat,
) -> nat
    decreases claims.len(),
{
    if claims.len() == 0 {
        0
    } else {
        total_paid(claims.drop_last(), winning_outcome, yes, no, total, fee_bps) + payout_of(
            claims.last().0,
            claims.last().1 as nat,
            winning_outcome,
            yes,
            no,
            total,
            fee_bps,
        )
    }
}

proof fn lemma_paid_scaled(
    claims: Seq<(bool, u64)>,
    winning_outcome: bool,
    yes: nat,
    no: nat,
    total: nat,
    fee_bps: nat,
)
    requires
        winning_pool_of(winning_outcome, yes, no) > 0,
    ensures
        total_paid(claims, winning_outcome, yes, no, total, fee_bps) * winning_pool_of(
            winning_outcome,
            yes,
            no,
        ) <= stake_on(claims, winning_outcome) * distributable_of(total, fee_bps),
    decreases claims.len(),
{
    if claims.len() > 0 {
        let rest = claims.drop_last();
        lemma_paid_scaled(rest, winning_outcome, yes, no, total, fee_bps);
        let w = winning_pool_of(winning_outcome, yes, no);
        let d = distributable_of(total, fee_bps);
        let tp = total_paid(rest, winning_outcome, yes, no, total, fee_bps);
        let st = stake_on(rest, winning_outcome);
        let a: nat = if claims.last().0 == winning_outcome {
            claims.last().1 as nat
        } else {
            0
        };
        let p = payout_of(claims.last().0, claims.last().1 as nat, winning_outcome, yes, no, total, fee_bps);
        if claims.last().0 == winning_outcome {
            assert(p == a * d / w);
            vstd::arithmetic::div_mod::lemma_fundamental_div_mod((a * d) as int, w as int);
            vstd::arithmetic::div_mod::lemma_mod_pos_bound((a * d) as int, w as int);
            let rem = (a * d) as int % (w as int);
            assert(p * w <= a * d) by (nonlinear_arith)
                requires
                    (a * d) as int == (w as int) * (p as int) + rem,
                    rem >= 0,
            ;
        } else {
            assert(p == 0);
        }
        assert((tp + p) * w <= (st + a) * d) by (nonlinear_arith)
            requires
                tp * w <= st * d,
                p * w <= a * d,
        ;
        assert(total_paid(claims, winning_outcome, yes, no, total, fee_bps) == tp + p);
        assert(stake_on(claims, winning_outcome) == st + a);
    } else {
        let w = winning_pool_of(winning_outcome, yes, no);
        let d = distributable_of(total, fee_bps);
        assert(0 * w <= 0 * d) by (nonlinear_arith);
    }
}

/// Conservation of the pool: whatever bets were placed, the payouts owed to all
/// claimants together never exceed the pool less the fee, as long as the stakes
/// on the winning side add up to no more than the revealed winning pool. What is
/// left over (rounding dust, or the whole pool when nobody backed the winner)
/// stays in the vault.
pub proof fn lemma_conservation(
    claims: Seq<(bool, u64)>,
    winning_outcome: bool,
    yes: nat,
    no: nat,
    total: nat,
    fee_bps: nat,
)
    requires
        stake_on(claims, winning_outcome) <= winning_pool_of(winning_outcome, yes, no),
    ensures
        total_paid(claims, winning_outcome, yes, no, total, fee_bps) <= distributable_of(
            total,
            fee_bps,
        ),
    decreases claims.len(),
{
    let w = winning_pool_of(winning_outcome, yes, no);
    let d = distributable_of(total, fee_bps);
    let tp = total_paid(claims, winning_outcome, yes, no, total, fee_bps);
    if w == 0 {
        lemma_nothing_paid_without_winners(claims, winning_outcome, yes, no, total, fee_bps);
    } else {
        lemma_paid_scaled(claims, winning_outcome, yes, no, total, fee_bps);
        let st = stake_on(claims, winning_outcome);
        assert(tp <= d) by (nonlinear_arith)
            requires
                tp * w <= st * d,
                st <= w,
                w > 0,
        ;
    }
}

/// When nobody backed the winning side, no claim is owed anything.
pub proof fn lemma_nothing_paid_without_winners(
    claims: Seq<(bool, u64)>,
    winning_outcome: bool,
    yes: nat,
    no: nat,
    total: nat,
    fee_bps: nat,
)
    requires
        winning_pool_of(winning_outcome, yes, no) == 0,
    ensures
        total_paid(claims, winning_outcome, yes, no, total, fee_bps) == 0,
    decreases claims.len(),
{
    if claims.len() > 0 {
        lemma_nothing_paid_without_winners(claims.drop_last(), winning_outcome, yes, no, total, fee_bps);
    }
}

} // verus!
