use veil::address::Address;
use veil::circuits::{self, Bet, MarketState};
use veil::coordinator::{Circuit, EncryptedStateOutput, PendingComputation};
use veil::error::ErrorCode;
use veil::program::{
    calculate_payout_pools_callback, cancel_market, close_market, computation_aborted,
    create_market, init_market_state, init_market_state_callback, place_bet, place_bet_callback,
    resolve_market, retry_bet_aggregation,
};
use veil::settlement::{claim_payout, claim_refund};
use veil::state::{BetRecord, BetStatus, Market, MarketStatus, MarketVault, OracleType};

const NOW: i64 = 1_700_000_000;

fn addr(n: u8) -> Address {
    Address::new([n; 32])
}

fn creator() -> Address {
    addr(1)
}

fn output(nonce: u128) -> Option<EncryptedStateOutput> {
    Some(EncryptedStateOutput { ciphertexts: [[nonce as u8; 32]; 3], nonce })
}

fn new_market(fee_bps: u16) -> (Market, MarketVault) {
    create_market(
        7,
        addr(10),
        254,
        creator(),
        addr(11),
        253,
        "Will it rain tomorrow?".to_string(),
        NOW + 3600,
        0,
        fee_bps,
        NOW,
    )
    .unwrap()
}

fn initialized_market(fee_bps: u16) -> (Market, MarketVault) {
    let (mut m, v) = new_market(fee_bps);
    init_market_state(&mut m, &creator(), 100, 42).unwrap();
    init_market_state_callback(&mut m, 100, output(1)).unwrap();
    (m, v)
}

/// Places a bet and runs its aggregation callback, keeping the plaintext
/// aggregate alongside as the confidential network would.
fn bet(
    m: &mut Market,
    v: &mut MarketVault,
    agg: &mut MarketState,
    bettor: u8,
    outcome: bool,
    amount: u64,
    offset: u64,
) -> BetRecord {
    let (mut rec, req) = place_bet(
        m,
        v,
        &addr(bettor),
        &addr(bettor + 100),
        1,
        offset,
        [outcome as u8; 32],
        [2; 32],
        [bettor; 32],
        9,
        amount,
        NOW + 10,
    )
    .unwrap();
    assert_eq!(req.circuit, Circuit::PlaceBet);
    *agg = circuits::place_bet(Bet { outcome, amount }, *agg).unwrap();
    place_bet_callback(m, &mut rec, offset, output(offset as u128), NOW + 20).unwrap();
    rec
}

fn resolve(m: &mut Market, agg: MarketState, outcome: bool) {
    close_market(m, &creator(), NOW + 30).unwrap();
    resolve_market(m, &creator(), 500, outcome).unwrap();
    assert_eq!(m.status, MarketStatus::Resolving);
    let split = circuits::calculate_payout_pools(agg, outcome).unwrap();
    calculate_payout_pools_callback(m, 500, Some(split)).unwrap();
}

#[test]
fn yes_wins_and_takes_the_pool_after_fees() {
    let (mut m, mut v) = initialized_market(500);
    let mut agg = circuits::init_market_state();
    let mut rec1 = bet(&mut m, &mut v, &mut agg, 2, true, 2_000_000, 200);
    let mut rec2 = bet(&mut m, &mut v, &mut agg, 3, false, 1_000_000, 201);
    assert_eq!(v.total_deposits, 3_000_000);
    assert_eq!(m.bet_count, 2);
    resolve(&mut m, agg, true);
    assert_eq!(m.status, MarketStatus::Resolved);
    assert_eq!(m.outcome, Some(true));
    assert_eq!(m.revealed_yes_pool, 2_000_000);
    assert_eq!(m.revealed_no_pool, 1_000_000);
    assert_eq!(m.revealed_total_pool, 3_000_000);
    assert_eq!(veil::payout::calculate_fee(3_000_000, 500), 150_000);
    let p1 = claim_payout(&m, &mut v, &mut rec1, &addr(2), true, 2_000_000).unwrap();
    assert_eq!(p1, 2_850_000);
    assert_eq!(rec1.status, BetStatus::Claimed);
    assert_eq!(rec1.payout_amount, Some(2_850_000));
    let p2 = claim_payout(&m, &mut v, &mut rec2, &addr(3), false, 1_000_000).unwrap();
    assert_eq!(p2, 0);
    assert_eq!(v.total_withdrawals, 2_850_000);
    assert!(v.total_withdrawals <= v.total_deposits);
}

#[test]
fn no_winning_stake_leaves_funds_in_vault() {
    let (mut m, mut v) = initialized_market(500);
    let mut agg = circuits::init_market_state();
    let mut rec = bet(&mut m, &mut v, &mut agg, 2, false, 5_000_000, 200);
    resolve(&mut m, agg, true);
    assert_eq!(m.revealed_yes_pool, 0);
    let p = claim_payout(&m, &mut v, &mut rec, &addr(2), false, 5_000_000).unwrap();
    assert_eq!(p, 0);
    assert_eq!(v.total_withdrawals, 0);
    assert_eq!(v.total_deposits, 5_000_000);
}

#[test]
fn cancelled_market_refunds_each_stake_once() {
    let (mut m, mut v) = initialized_market(500);
    let mut agg = circuits::init_market_state();
    let mut rec1 = bet(&mut m, &mut v, &mut agg, 2, true, 2_000_000, 200);
    let mut rec2 = bet(&mut m, &mut v, &mut agg, 3, false, 1_000_000, 201);
    cancel_market(&mut m, &creator()).unwrap();
    assert_eq!(m.status, MarketStatus::Cancelled);
    assert_eq!(claim_refund(&m, &mut v, &mut rec1, &addr(2)), Ok(2_000_000));
    assert_eq!(claim_refund(&m, &mut v, &mut rec2, &addr(3)), Ok(1_000_000));
    assert_eq!(rec1.status, BetStatus::Refunded);
    assert_eq!(claim_refund(&m, &mut v, &mut rec1, &addr(2)), Err(ErrorCode::BetAlreadyClaimed));
    assert_eq!(claim_refund(&m, &mut v, &mut rec2, &addr(3)), Err(ErrorCode::BetAlreadyClaimed));
    assert_eq!(v.total_withdrawals, 3_000_000);
}

#[test]
fn second_claim_is_refused() {
    let (mut m, mut v) = initialized_market(500);
    let mut agg = circuits::init_market_state();
    let mut rec = bet(&mut m, &mut v, &mut agg, 2, true, 2_000_000, 200);
    let _ = bet(&mut m, &mut v, &mut agg, 3, false, 1_000_000, 201);
    resolve(&mut m, agg, true);
    assert!(claim_payout(&m, &mut v, &mut rec, &addr(2), true, 2_000_000).is_ok());
    let before = v.total_withdrawals;
    assert_eq!(
        claim_payout(&m, &mut v, &mut rec, &addr(2), true, 2_000_000),
        Err(ErrorCode::BetAlreadyClaimed)
    );
    assert_eq!(v.total_withdrawals, before);
}

#[test]
fn init_twice_is_refused_and_changes_nothing() {
    let (mut m, _) = initialized_market(500);
    assert!(m.mpc_initialized);
    assert_eq!(
        init_market_state(&mut m, &creator(), 101, 43).err(),
        Some(ErrorCode::MpcAlreadyInitialized)
    );
    assert!(m.mpc_initialized);
    assert_eq!(m.status, MarketStatus::Open);
    assert!(m.pending_computation.is_none());
}

#[test]
fn create_market_rejects_bad_configuration() {
    let long = "x".repeat(201);
    let r = create_market(1, addr(10), 1, creator(), addr(11), 1, long, NOW + 10, 0, 100, NOW);
    assert_eq!(r.err(), Some(ErrorCode::InvalidInput));
    let ok = "é".repeat(100);
    assert!(create_market(1, addr(10), 1, creator(), addr(11), 1, ok, NOW + 10, 0, 100, NOW).is_ok());
    let r = create_market(1, addr(10), 1, creator(), addr(11), 1, "q".to_string(), NOW, 0, 100, NOW);
    assert_eq!(r.err(), Some(ErrorCode::InvalidInput));
    let r = create_market(1, addr(10), 1, creator(), addr(11), 1, "q".to_string(), NOW + 1, 0, 1001, NOW);
    assert_eq!(r.err(), Some(ErrorCode::InvalidInput));
    let (m, v) = create_market(1, addr(10), 1, creator(), addr(11), 2, "q".to_string(), NOW + 1, 2, 1000, NOW)
        .unwrap();
    assert_eq!(m.oracle_type, OracleType::Jury);
    assert_eq!(m.status, MarketStatus::Open);
    assert!(!m.mpc_initialized);
    assert_eq!(v.total_deposits, 0);
    assert_eq!(v.bump, 2);
}

#[test]
fn init_requires_creator_and_no_computation_in_flight() {
    let (mut m, _) = new_market(100);
    assert_eq!(init_market_state(&mut m, &addr(9), 1, 1).err(), Some(ErrorCode::Unauthorized));
    let req = init_market_state(&mut m, &creator(), 1, 12345).unwrap();
    assert_eq!(req.circuit, Circuit::InitMarketState);
    assert_eq!(req.args.len(), 16);
    assert_eq!(req.args[0], 0x39);
    assert_eq!(req.args[1], 0x30);
    assert_eq!(init_market_state(&mut m, &creator(), 2, 1).err(), Some(ErrorCode::ComputationInFlight));
}

#[test]
fn callbacks_check_signature_and_computation_id() {
    let (mut m, _) = new_market(100);
    init_market_state(&mut m, &creator(), 1, 1).unwrap();
    assert_eq!(init_market_state_callback(&mut m, 1, None), Err(ErrorCode::MpcComputationFailed));
    assert_eq!(init_market_state_callback(&mut m, 2, output(3)), Err(ErrorCode::InvalidMpcCallback));
    assert!(!m.mpc_initialized);
    init_market_state_callback(&mut m, 1, output(3)).unwrap();
    assert_eq!(m.state_nonce, 3);
    // a replay of the same callback is refused
    assert_eq!(init_market_state_callback(&mut m, 1, output(4)), Err(ErrorCode::InvalidMpcCallback));
    assert_eq!(m.state_nonce, 3);
}

#[test]
fn place_bet_checks_market_and_stake() {
    let (mut m, mut v) = new_market(100);
    let try_bet = |m: &mut Market, v: &mut MarketVault, amount: u64, now: i64| {
        place_bet(m, v, &addr(2), &addr(3), 1, 50, [0; 32], [0; 32], [0; 32], 0, amount, now).err()
    };
    assert_eq!(try_bet(&mut m, &mut v, 2_000_000, NOW), Some(ErrorCode::MpcNotInitialized));
    init_market_state(&mut m, &creator(), 1, 1).unwrap();
    init_market_state_callback(&mut m, 1, output(1)).unwrap();
    assert_eq!(try_bet(&mut m, &mut v, 2_000_000, NOW + 3600), Some(ErrorCode::BettingPeriodEnded));
    assert_eq!(try_bet(&mut m, &mut v, 999_999, NOW), Some(ErrorCode::BetAmountTooLow));
    assert_eq!(try_bet(&mut m, &mut v, 1_000_000_000_001, NOW), Some(ErrorCode::BetAmountTooHigh));
    let mut other = v;
    other.market = addr(99);
    assert_eq!(try_bet(&mut m, &mut other, 2_000_000, NOW), Some(ErrorCode::InvalidVault));
    assert_eq!(try_bet(&mut m, &mut v, 1_000_000, NOW), None);
    assert_eq!(v.total_deposits, 1_000_000);
    assert_eq!(m.total_liquidity_approx, 1_000_000);
    assert_eq!(try_bet(&mut m, &mut v, 1_000_000, NOW), Some(ErrorCode::ComputationInFlight));
    assert_eq!(v.total_deposits, 1_000_000);
    close_market(&mut m, &creator(), NOW).unwrap();
    assert_eq!(try_bet(&mut m, &mut v, 2_000_000, NOW), Some(ErrorCode::MarketNotOpen));
}

#[test]
fn place_bet_callback_checks_record() {
    let (mut m, mut v) = initialized_market(100);
    let (mut rec, _) =
        place_bet(&mut m, &mut v, &addr(2), &addr(3), 1, 50, [0; 32], [0; 32], [0; 32], 0, 1_000_000, NOW)
            .unwrap();
    assert_eq!(rec.status, BetStatus::Pending);
    assert_eq!(rec.bet_index, 0);
    let mut stranger = BetRecord { market: addr(77), ..clone_record(&rec) };
    assert_eq!(
        place_bet_callback(&mut m, &mut stranger, 50, output(5), NOW),
        Err(ErrorCode::InvalidAccount)
    );
    place_bet_callback(&mut m, &mut rec, 50, output(5), NOW + 1).unwrap();
    assert_eq!(rec.status, BetStatus::Confirmed);
    assert_eq!(rec.confirmed_at, Some(NOW + 1));
    assert_eq!(m.bet_count, 1);
}

fn clone_record(r: &BetRecord) -> BetRecord {
    BetRecord {
        bump: r.bump,
        market: r.market,
        bettor: r.bettor,
        bet_index: r.bet_index,
        encrypted_bet: r.encrypted_bet,
        user_pubkey: r.user_pubkey,
        user_nonce: r.user_nonce,
        bet_lamports: r.bet_lamports,
        status: r.status,
        placed_at: r.placed_at,
        confirmed_at: r.confirmed_at,
        claimed: r.claimed,
        payout_amount: r.payout_amount,
    }
}

#[test]
fn close_and_resolve_need_authority() {
    let (mut m, _) = initialized_market(100);
    assert_eq!(close_market(&mut m, &addr(9), NOW), Err(ErrorCode::Unauthorized));
    assert_eq!(resolve_market(&mut m, &creator(), 9, true).err(), Some(ErrorCode::MarketNotClosed));
    assert_eq!(close_market(&mut m, &addr(9), NOW + 3600), Ok(()));
    assert_eq!(close_market(&mut m, &creator(), NOW + 3600), Err(ErrorCode::MarketNotOpen));
    assert_eq!(resolve_market(&mut m, &addr(9), 9, true).err(), Some(ErrorCode::Unauthorized));
    let req = resolve_market(&mut m, &creator(), 9, true).unwrap();
    assert_eq!(req.circuit, Circuit::CalculatePayoutPools);
    assert_eq!(req.args.len(), 16 + 32 + 8 + 1);
    assert_eq!(req.args[req.args.len() - 1], 1);
    assert_eq!(cancel_market(&mut m, &creator()), Err(ErrorCode::ResolutionInProgress));
}

#[test]
fn resolve_requires_initialized_aggregate() {
    let (mut m, _) = new_market(100);
    close_market(&mut m, &creator(), NOW).unwrap();
    assert_eq!(resolve_market(&mut m, &creator(), 9, true).err(), Some(ErrorCode::MpcNotInitialized));
}

#[test]
fn payout_callback_rejects_inconsistent_totals() {
    let (mut m, _) = initialized_market(100);
    close_market(&mut m, &creator(), NOW).unwrap();
    resolve_market(&mut m, &creator(), 9, false).unwrap();
    let bad = circuits::PayoutResult { winning_pool: 5, losing_pool: 5, total_pool: 11, outcome: false };
    assert_eq!(calculate_payout_pools_callback(&mut m, 9, Some(bad)), Err(ErrorCode::MpcVerificationFailed));
    assert_eq!(calculate_payout_pools_callback(&mut m, 9, None), Err(ErrorCode::MpcComputationFailed));
    let good = circuits::PayoutResult { winning_pool: 4, losing_pool: 6, total_pool: 10, outcome: false };
    calculate_payout_pools_callback(&mut m, 9, Some(good)).unwrap();
    assert_eq!(m.revealed_yes_pool, 6);
    assert_eq!(m.revealed_no_pool, 4);
    assert_eq!(m.outcome, Some(false));
    assert_eq!(cancel_market(&mut m, &creator()), Err(ErrorCode::MarketAlreadyResolved));
}

#[test]
fn claim_payout_checks() {
    let (mut m, mut v) = initialized_market(500);
    let mut agg = circuits::init_market_state();
    let mut rec = bet(&mut m, &mut v, &mut agg, 2, true, 2_000_000, 200);
    assert_eq!(
        claim_payout(&m, &mut v, &mut rec, &addr(2), true, 2_000_000),
        Err(ErrorCode::MarketNotResolved)
    );
    resolve(&mut m, agg, true);
    assert_eq!(claim_payout(&m, &mut v, &mut rec, &addr(5), true, 2_000_000), Err(ErrorCode::Unauthorized));
    assert_eq!(claim_payout(&m, &mut v, &mut rec, &addr(2), true, 2_000_001), Err(ErrorCode::InvalidBetClaim));
    let mut pending = BetRecord { status: BetStatus::Pending, ..clone_record(&rec) };
    assert_eq!(
        claim_payout(&m, &mut v, &mut pending, &addr(2), true, 2_000_000),
        Err(ErrorCode::BetNotConfirmed)
    );
    assert_eq!(claim_refund(&m, &mut v, &mut rec, &addr(2)), Err(ErrorCode::MarketCancelled));
    assert_eq!(claim_payout(&m, &mut v, &mut rec, &addr(2), true, 2_000_000), Ok(1_900_000));
}

#[test]
fn cancel_rules() {
    let (mut m, _) = new_market(100);
    assert_eq!(cancel_market(&mut m, &addr(9)), Err(ErrorCode::Unauthorized));
    assert_eq!(cancel_market(&mut m, &creator()), Ok(()));
    assert_eq!(cancel_market(&mut m, &creator()), Err(ErrorCode::MarketCancelled));
}

#[test]
fn refund_of_pending_bet_blocks_late_callback() {
    let (mut m, mut v) = initialized_market(100);
    let (mut rec, _) =
        place_bet(&mut m, &mut v, &addr(2), &addr(3), 1, 50, [0; 32], [0; 32], [0; 32], 0, 3_000_000, NOW)
            .unwrap();
    cancel_market(&mut m, &creator()).unwrap();
    assert_eq!(claim_refund(&m, &mut v, &mut rec, &addr(2)), Ok(3_000_000));
    assert_eq!(
        place_bet_callback(&mut m, &mut rec, 50, output(5), NOW),
        Err(ErrorCode::InvalidMpcCallback)
    );
    assert_eq!(rec.status, BetStatus::Refunded);
}

#[test]
fn status_never_moves_back() {
    let (mut m, mut v) = initialized_market(500);
    let mut agg = circuits::init_market_state();
    let mut rec = bet(&mut m, &mut v, &mut agg, 2, true, 2_000_000, 200);
    resolve(&mut m, agg, true);
    assert_eq!(close_market(&mut m, &creator(), NOW + 9999), Err(ErrorCode::MarketNotOpen));
    assert_eq!(resolve_market(&mut m, &creator(), 600, false).err(), Some(ErrorCode::MarketNotClosed));
    assert_eq!(cancel_market(&mut m, &creator()), Err(ErrorCode::MarketAlreadyResolved));
    assert_eq!(init_market_state(&mut m, &creator(), 601, 1).err(), Some(ErrorCode::MpcAlreadyInitialized));
    assert_eq!(m.status, MarketStatus::Resolved);
    claim_payout(&m, &mut v, &mut rec, &addr(2), true, 2_000_000).unwrap();
    assert_eq!(
        place_bet_callback(&mut m, &mut rec, 200, output(1), NOW),
        Err(ErrorCode::InvalidMpcCallback)
    );
    assert_eq!(rec.status, BetStatus::Claimed);
}

#[test]
fn aborted_resolution_can_be_resubmitted() {
    let (mut m, _) = initialized_market(100);
    close_market(&mut m, &creator(), NOW).unwrap();
    resolve_market(&mut m, &creator(), 9, true).unwrap();
    assert_eq!(resolve_market(&mut m, &creator(), 10, true).err(), Some(ErrorCode::ComputationInFlight));
    assert_eq!(
        computation_aborted(&mut m, 9, Circuit::CalculatePayoutPools, false),
        Err(ErrorCode::MpcComputationFailed)
    );
    assert_eq!(computation_aborted(&mut m, 9, Circuit::CalculatePayoutPools, true), Ok(()));
    assert_eq!(m.status, MarketStatus::Resolving);
    assert!(m.pending_computation.is_none());
    resolve_market(&mut m, &creator(), 10, true).unwrap();
    let split = circuits::PayoutResult { winning_pool: 0, losing_pool: 0, total_pool: 0, outcome: true };
    assert_eq!(calculate_payout_pools_callback(&mut m, 9, Some(split)), Err(ErrorCode::InvalidMpcCallback));
    calculate_payout_pools_callback(&mut m, 10, Some(split)).unwrap();
    assert_eq!(m.status, MarketStatus::Resolved);
}

#[test]
fn aborted_bet_aggregation_is_retried_for_the_same_record() {
    let (mut m, mut v) = initialized_market(100);
    let (mut rec, first) =
        place_bet(&mut m, &mut v, &addr(2), &addr(3), 1, 50, [1; 32], [2; 32], [4; 32], 8, 1_000_000, NOW)
            .unwrap();
    assert_eq!(
        computation_aborted(&mut m, 50, Circuit::PlaceBet, true),
        Err(ErrorCode::InvalidMpcCallback)
    );
    let again = retry_bet_aggregation(&mut m, &rec, &addr(3), 50, true, 51).unwrap();
    assert_eq!(again.args, first.args);
    assert_eq!(again.computation_offset, 51);
    assert_eq!(
        place_bet_callback(&mut m, &mut rec, 50, output(5), NOW),
        Err(ErrorCode::InvalidMpcCallback)
    );
    place_bet_callback(&mut m, &mut rec, 51, output(5), NOW).unwrap();
    assert_eq!(rec.status, BetStatus::Confirmed);
    assert_eq!(m.bet_count, 1);
    assert_eq!(v.total_deposits, 1_000_000);
}

#[test]
fn init_callback_on_initialized_market_is_refused() {
    let (mut m, _) = initialized_market(100);
    let nonce = m.state_nonce;
    m.pending_computation = Some(PendingComputation { computation_offset: 77, circuit: Circuit::InitMarketState });
    assert_eq!(init_market_state_callback(&mut m, 77, output(9)), Err(ErrorCode::MpcAlreadyInitialized));
    assert_eq!(m.state_nonce, nonce);
    assert!(m.mpc_initialized);
}
