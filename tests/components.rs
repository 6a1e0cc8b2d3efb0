use veil::address::Address;
use veil::circuits::{
    calculate_payout_pools, get_bet_count, init_market_state, place_bet, reveal_market_totals,
    verify_bet_claim, Bet, BetClaim, MarketState,
};
use veil::error::ErrorCode;
use veil::integration::{derive_cluster_pda, derive_comp_def_pda, derive_mempool_pda, derive_mxe_pda, ArgBuilder};
use veil::payout::{calculate_distributable, calculate_fee, calculate_payout};
use veil::state::OracleType;

#[test]
fn test_arg_builder() {
    let args = ArgBuilder::new().plaintext_bool(true).plaintext_u128(12345).build();

    assert!(!args.is_empty());
}

#[test]
fn arg_builder_layout() {
    let args = ArgBuilder::new()
        .plaintext_bool(true)
        .plaintext_u128(0x0102)
        .x25519_pubkey([7; 32])
        .account(Address::new([9; 32]), 0x01020304, 96)
        .build();
    assert_eq!(args.len(), 1 + 16 + 32 + 32 + 4 + 4);
    assert_eq!(args[0], 1);
    assert_eq!(args[1], 0x02);
    assert_eq!(args[2], 0x01);
    assert_eq!(args[3], 0);
    assert_eq!(args[17], 7);
    assert_eq!(args[49], 9);
    assert_eq!(&args[81..85], &[4, 3, 2, 1]);
    assert_eq!(&args[85..89], &[96, 0, 0, 0]);
}

#[test]
fn fee_exact_values_and_bound() {
    assert_eq!(calculate_fee(3_000_000, 500), 150_000);
    assert_eq!(calculate_fee(9_999, 1), 0);
    assert_eq!(calculate_fee(u64::MAX, 1000), u64::MAX / 10);
    assert!(calculate_fee(u64::MAX, 1000) <= u64::MAX / 10);
    assert_eq!(calculate_fee(u64::MAX, 0), 0);
}

#[test]
fn distributable_after_fee() {
    assert_eq!(calculate_distributable(3_000_000, 500), 2_850_000);
    assert_eq!(calculate_distributable(3_000_000, 10_000), 0);
    assert_eq!(calculate_distributable(3_000_000, 20_000), 0);
    assert_eq!(calculate_distributable(u64::MAX, 0), u64::MAX);
}

#[test]
fn payout_formula() {
    assert_eq!(calculate_payout(true, 2_000_000, true, 2_000_000, 1_000_000, 3_000_000, 500), Some(2_850_000));
    assert_eq!(calculate_payout(false, 1_000_000, true, 2_000_000, 1_000_000, 3_000_000, 500), Some(0));
    assert_eq!(calculate_payout(false, 1, false, 0, 0, 3_000_000, 500), Some(0));
    // floor division leaves dust: 3 winners of 1 share 10 - 0 fee
    assert_eq!(calculate_payout(true, 1, true, 3, 7, 10, 0), Some(3));
    assert_eq!(calculate_payout(true, u64::MAX, true, 1, 0, u64::MAX, 0), None);
}

#[test]
fn payouts_never_exceed_pool_after_fee() {
    let stakes = [3u64, 5, 7, 11];
    let winning: u64 = stakes.iter().sum();
    let total = winning + 13;
    let fee_bps = 700;
    let paid: u64 = stakes
        .iter()
        .map(|s| calculate_payout(true, *s, true, winning, 13, total, fee_bps).unwrap())
        .sum();
    assert!(paid <= total - calculate_fee(total, fee_bps));
}

#[test]
fn accumulator_adds_bets() {
    let s = init_market_state();
    assert_eq!(s, MarketState { yes_pool: 0, no_pool: 0, bet_count: 0 });
    let s = place_bet(Bet { outcome: true, amount: 5 }, s).unwrap();
    let s = place_bet(Bet { outcome: false, amount: 3 }, s).unwrap();
    assert_eq!(s, MarketState { yes_pool: 5, no_pool: 3, bet_count: 2 });
    let t = reveal_market_totals(s).unwrap();
    assert_eq!((t.yes_pool, t.no_pool, t.total_pool), (5, 3, 8));
    let p = calculate_payout_pools(s, false).unwrap();
    assert_eq!((p.winning_pool, p.losing_pool, p.total_pool, p.outcome), (3, 5, 8, false));
    assert_eq!(get_bet_count(s), 2);
    assert!(place_bet(Bet { outcome: true, amount: u64::MAX - 4 }, s).is_none());
    assert!(place_bet(Bet { outcome: true, amount: u64::MAX - 5 }, s).is_some());
    let full = MarketState { yes_pool: 0, no_pool: 0, bet_count: u32::MAX };
    assert!(place_bet(Bet { outcome: true, amount: 1 }, full).is_none());
}

#[test]
fn claim_verification() {
    let bet = Bet { outcome: true, amount: 10 };
    assert!(verify_bet_claim(bet, BetClaim { claimed_outcome: true, claimed_amount: 10 }));
    assert!(!verify_bet_claim(bet, BetClaim { claimed_outcome: false, claimed_amount: 10 }));
    assert!(!verify_bet_claim(bet, BetClaim { claimed_outcome: true, claimed_amount: 11 }));
}

#[test]
fn oracle_type_from_byte() {
    assert_eq!(OracleType::from(0), OracleType::Manual);
    assert_eq!(OracleType::from(1), OracleType::Switchboard);
    assert_eq!(OracleType::from(2), OracleType::Jury);
    assert_eq!(OracleType::from(200), OracleType::Manual);
}

#[test]
fn program_addresses_are_derived() {
    let program = Address::new([3; 32]);
    let (mxe, _) = derive_mxe_pda(&program).unwrap();
    assert!(mxe != program);
    assert!(derive_mxe_pda(&program).unwrap().0 == mxe);
    let (pool, _) = derive_mempool_pda(&program).unwrap();
    assert!(pool != mxe);
    let (c1, _) = derive_cluster_pda(&program, 1).unwrap();
    let (c2, _) = derive_cluster_pda(&program, 2).unwrap();
    assert!(c1 != c2);
    let (d, _) = derive_comp_def_pda(&program, "place_bet").unwrap();
    assert!(d != program);
}

#[test]
fn error_messages() {
    assert_eq!(ErrorCode::Overflow.message(), "Overflow");
    assert_eq!(ErrorCode::MarketNotOpen.message(), "Market is not open for betting");
}

#[test]
fn aggregate_checks_only_the_backed_pool() {
    let s = MarketState { yes_pool: 1 << 63, no_pool: (1 << 63) - 1, bet_count: 0 };
    let n = place_bet(Bet { outcome: true, amount: 1 }, s).unwrap();
    assert_eq!(n, MarketState { yes_pool: (1 << 63) + 1, no_pool: (1 << 63) - 1, bet_count: 1 });
    assert!(reveal_market_totals(n).is_none());
    assert!(calculate_payout_pools(n, true).is_none());
    assert!(reveal_market_totals(s).is_some());
    assert_eq!(reveal_market_totals(s).unwrap().total_pool, u64::MAX);
}

#[test]
fn aggregate_order_does_not_matter() {
    let s = init_market_state();
    let a = Bet { outcome: true, amount: 7 };
    let b = Bet { outcome: false, amount: 11 };
    let ab = place_bet(b, place_bet(a, s).unwrap()).unwrap();
    let ba = place_bet(a, place_bet(b, s).unwrap()).unwrap();
    assert_eq!(ab, ba);
    assert_eq!(ab.yes_pool + ab.no_pool, 18);
}
