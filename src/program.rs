//! The market state machine: each entry point checks its preconditions, and
//! either applies its whole effect or refuses with an error and changes nothing.
//! Entry points that need the confidential network queue a computation and
//! hand back the request; its callback applies the result.
use vstd::prelude::*;
use crate::address::Address;
use crate::coordinator::{
    callback_error, queue_computation, request_is, verify_computation_output, with_pending,
    Circuit, ComputationRequest, EncryptedStateOutput, PendingComputation,
};
use crate::error::ErrorCode;
use crate::integration::{le_bytes, ArgBuilder};
use crate::circuits::PayoutResult;
use crate::payout::MAX_FEE_BPS;
use crate::state::{
    bet_step, market_step, oracle_type_of, question_len, BetRecord, BetStatus, Ciphertext, Market,
    MarketStatus, MarketVault, MAX_QUESTION_LEN,
};

verus! {

/// Smallest stake accepted.
pub const MIN_BET_LAMPORTS: u64 = 1_000_000;

/// Largest stake accepted.
pub const MAX_BET_LAMPORTS: u64 = 1_000_000_000_000;

/// A ciphertext of zeros.
pub open spec fn zero_ciphertext() -> Seq<u8> {
    Seq::new(32, |i: int| 0u8)
}

/// Why `create_market` refuses, if it does.
pub open spec fn create_market_error(
    question: Seq<char>,
    resolution_time: i64,
    fee_bps: u16,
    now: i64,
) -> Option<ErrorCode> {
    if question_len(question) > MAX_QUESTION_LEN || resolution_time <= now || fee_bps
        > MAX_FEE_BPS {
        Some(ErrorCode::InvalidInput)
    } else {
        None
    }
}

/// `m` is a newly created market with the given configuration: open, with a
/// zeroed, uninitialized aggregate, nothing revealed and nothing in flight.
pub open spec fn is_new_market(
    m: Market,
    bump: u8,
    market_id: u64,
    address: Address,
    authority: Address,
    vault: Address,
    question: Seq<char>,
    resolution_time: i64,
    oracle_type: u8,
    fee_bps: u16,
    now: i64,
) -> bool {
    &&& m.bump == bump
    &&& m.market_id == market_id
    &&& m.address == address
    &&& m.authority == authority
    &&& m.question@ == question
    &&& m.resolution_time == resolution_time
    &&& m.created_at == now
    &&& m.fee_bps == fee_bps
    &&& m.oracle_type == oracle_type_of(oracle_type)
    &&& m.oracle_feed is None
    &&& m.status == MarketStatus::Open
    &&& m.outcome is None
    &&& (forall|i: int| 0 <= i < 3 ==> m.encrypted_state[i]@ == zero_ciphertext())
    &&& m.state_nonce == 0
    &&& !m.mpc_initialized
    &&& m.revealed_yes_pool == 0
    &&& m.revealed_no_pool == 0
    &&& m.revealed_total_pool == 0
    &&& m.bet_count == 0
    &&& m.total_liquidity_approx == 0
    &&& m.vault == vault
    &&& m.pending_computation is None
}

/// Creates a market and its empty vault. The question must fit in 200 UTF-8
/// code units, the deadline must lie after `now`, and the fee must be at most 10%.
pub fn create_market(
    market_id: u64,
    market_address: Address,
    market_bump: u8,
    authority: Address,
    vault_address: Address,
    vault_bump: u8,
    question: String,
    resolution_time: i64,
    oracle_type: u8,
    fee_bps: u16,
    now: i64,
) -> (r: Result<(Market, MarketVault), ErrorCode>)
    ensures
        match r {
            Ok((m, v)) => {
                &&& create_market_error(question@, resolution_time, fee_bps, now) is None
                &&& is_new_market(
                    m,
                    market_bump,
                    market_id,
                    market_address,
                    authority,
                    vault_address,
                    question@,
                    resolution_time,
                    oracle_type,
                    fee_bps,
                    now,
                )
                &&& m.wf()
                &&& v.bump == vault_bump
                &&& v.market == market_address
                &&& v.total_deposits == 0
                &&& v.total_withdrawals == 0
            },
            Err(e) => create_market_error(question@, resolution_time, fee_bps, now) == Some(e),
        },
{
    if question.as_str().as_bytes().len() > MAX_QUESTION_LEN {
        return Err(ErrorCode::InvalidInput);
    }
    if resolution_time <= now {
        return Err(ErrorCode::InvalidInput);
    }
    if fee_bps > MAX_FEE_BPS {
        return Err(ErrorCode::InvalidInput);
    }
    let market = Market {
        bump: market_bump,
        market_id,
        address: market_address,
        authority,
        question,
        resolution_time,
        created_at: now,
        fee_bps,
        oracle_type: crate::state::OracleType::from(oracle_type),
        oracle_feed: None,
        status: MarketStatus::Open,
        outcome: None,
        encrypted_state: [[0u8; 32]; 3],
        state_nonce: 0,
        mpc_initialized: false,
        revealed_yes_pool: 0,
        revealed_no_pool: 0,
        revealed_total_pool: 0,
        bet_count: 0,
        total_liquidity_approx: 0,
        vault: vault_address,
        pending_computation: None,
    };
    assert(market.encrypted_state[0]@ =~= zero_ciphertext());
    assert(market.encrypted_state[1]@ =~= zero_ciphertext());
    assert(market.encrypted_state[2]@ =~= zero_ciphertext());
    let vault = MarketVault {
        bump: vault_bump,
        market: market_address,
        total_deposits: 0,
        total_withdrawals: 0,
    };
    Ok((market, vault))
}

/// Why `init_market_state` refuses, if it does.
pub open spec fn init_market_state_error(m: Market, caller: Address) -> Option<ErrorCode> {
    if m.mpc_initialized {
        Some(ErrorCode::MpcAlreadyInitialized)
    } else if caller@ != m.authority@ {
        Some(ErrorCode::Unauthorized)
    } else if m.status != MarketStatus::Open {
        Some(ErrorCode::MarketNotOpen)
    } else if m.pending_computation is Some {
        Some(ErrorCode::ComputationInFlight)
    } else {
        None
    }
}

/// Asks the network for a zeroed encrypted aggregate under `nonce`. Only the
/// creator may ask, only once, and only while nothing else is in flight.
pub fn init_market_state(
    market: &mut Market,
    caller: &Address,
    computation_offset: u64,
    nonce: u128,
) -> (r: Result<ComputationRequest, ErrorCode>)
    ensures
        match r {
            Ok(req) => {
                &&& init_market_state_error(*old(market), *caller) is None
                &&& *final(market) == with_pending(
                    *old(market),
                    Some(
                        PendingComputation {
                            computation_offset,
                            circuit: Circuit::InitMarketState,
                        },
                    ),
                )
                &&& request_is(
                    req,
                    computation_offset,
                    Circuit::InitMarketState,
                    le_bytes(nonce as nat, 16),
                    seq![old(market).address],
                )
            },
            Err(e) => init_market_state_error(*old(market), *caller) == Some(e) && *final(market)
                == *old(market),
        },
        market_step(old(market).status, final(market).status),
        old(market).wf() ==> final(market).wf(),
{
    if market.mpc_initialized {
        return Err(ErrorCode::MpcAlreadyInitialized);
    }
    if !caller.same(&market.authority) {
        return Err(ErrorCode::Unauthorized);
    }
    if market.status != MarketStatus::Open {
        return Err(ErrorCode::MarketNotOpen);
    }
    let args = ArgBuilder::new().plaintext_u128(nonce).build();
    assert(args@ =~= le_bytes(nonce as nat, 16));
    let accounts: Vec<Address> = vec![market.address];
    assert(accounts@ =~= seq![market.address]);
    queue_computation(market, computation_offset, Circuit::InitMarketState, args, accounts)
}

/// The market once a fresh aggregate has been stored.
pub open spec fn with_aggregate(m: Market, output: EncryptedStateOutput) -> Market {
    Market {
        encrypted_state: output.ciphertexts,
        state_nonce: output.nonce,
        pending_computation: None,
        ..m
    }
}

/// Why `init_market_state_callback` refuses, if it does.
pub open spec fn init_callback_error(
    m: Market,
    computation_offset: u64,
    output: Option<EncryptedStateOutput>,
) -> Option<ErrorCode> {
    if callback_error(m, computation_offset, Circuit::InitMarketState, output is Some) is Some {
        callback_error(m, computation_offset, Circuit::InitMarketState, output is Some)
    } else if m.mpc_initialized {
        Some(ErrorCode::MpcAlreadyInitialized)
    } else {
        None
    }
}

/// Stores the zeroed aggregate the network returned and marks the market
/// initialized. `output` is the verified result, or `None` when the signature
/// did not verify.
pub fn init_market_state_callback(
    market: &mut Market,
    computation_offset: u64,
    output: Option<EncryptedStateOutput>,
) -> (r: Result<(), ErrorCode>)
    ensures
        match r {
            Ok(()) => {
                &&& init_callback_error(*old(market), computation_offset, output) is None
                &&& *final(market) == (Market {
                    mpc_initialized: true,
                    ..with_aggregate(*old(market), output->0)
                })
            },
            Err(e) => init_callback_error(*old(market), computation_offset, output) == Some(e)
                && *final(market) == *old(market),
        },
        market_step(old(market).status, final(market).status),
        old(market).wf() ==> final(market).wf(),
{
    verify_computation_output(market, computation_offset, Circuit::InitMarketState, output.is_some())?;
    if market.mpc_initialized {
        return Err(ErrorCode::MpcAlreadyInitialized);
    }
    let o = output.unwrap();
    market.encrypted_state = o.ciphertexts;
    market.state_nonce = o.nonce;
    market.mpc_initialized = true;
    market.pending_computation = None;
    Ok(())
}

/// Why `close_market` refuses, if it does.
pub open spec fn close_market_error(m: Market, caller: Address, now: i64) -> Option<ErrorCode> {
    if m.status != MarketStatus::Open {
        Some(ErrorCode::MarketNotOpen)
    } else if caller@ != m.authority@ && now < m.resolution_time {
        Some(ErrorCode::Unauthorized)
    } else {
        None
    }
}

/// Stops betting. The creator may close at any time; anyone may once the
/// deadline has passed.
pub fn close_market(market: &mut Market, caller: &Address, now: i64) -> (r: Result<(), ErrorCode>)
    ensures
        match r {
            Ok(()) => close_market_error(*old(market), *caller, now) is None && *final(market) == (
            Market { status: MarketStatus::Closed, ..*old(market) }),
            Err(e) => close_market_error(*old(market), *caller, now) == Some(e) && *final(market)
                == *old(market),
        },
        market_step(old(market).status, final(market).status),
        old(market).wf() ==> final(market).wf(),
{
    if market.status != MarketStatus::Open {
        return Err(ErrorCode::MarketNotOpen);
    }
    if !caller.same(&market.authority) && now < market.resolution_time {
        return Err(ErrorCode::Unauthorized);
    }
    market.status = MarketStatus::Closed;
    Ok(())
}

/// Why `cancel_market` refuses, if it does.
pub open spec fn cancel_market_error(m: Market, caller: Address) -> Option<ErrorCode> {
    if caller@ != m.authority@ {
        Some(ErrorCode::Unauthorized)
    } else if m.status == MarketStatus::Resolved {
        Some(ErrorCode::MarketAlreadyResolved)
    } else if m.status == MarketStatus::Cancelled {
        Some(ErrorCode::MarketCancelled)
    } else if m.status == MarketStatus::Resolving {
        Some(ErrorCode::ResolutionInProgress)
    } else {
        None
    }
}

/// Cancels an open or closed market, enabling refunds. Only the creator may.
pub fn cancel_market(market: &mut Market, caller: &Address) -> (r: Result<(), ErrorCode>)
    ensures
        match r {
            Ok(()) => cancel_market_error(*old(market), *caller) is None && *final(market) == (
            Market { status: MarketStatus::Cancelled, ..*old(market) }),
            Err(e) => cancel_market_error(*old(market), *caller) == Some(e) && *final(market)
                == *old(market),
        },
        market_step(old(market).status, final(market).status),
        old(market).wf() ==> final(market).wf(),
{
    if !caller.same(&market.authority) {
        return Err(ErrorCode::Unauthorized);
    }
    match market.status {
        MarketStatus::Resolved => Err(ErrorCode::MarketAlreadyResolved),
        MarketStatus::Cancelled => Err(ErrorCode::MarketCancelled),
        MarketStatus::Resolving => Err(ErrorCode::ResolutionInProgress),
        _ => {
            market.status = MarketStatus::Cancelled;
            Ok(())
        },
    }
}

/// The payload part that points the network at the market's stored aggregate.
pub open spec fn state_reference(m: Market) -> Seq<u8> {
    m.address@ + le_bytes(Market::ENCRYPTED_STATE_OFFSET as nat, 4) + le_bytes(
        Market::ENCRYPTED_STATE_SIZE as nat,
        4,
    )
}

/// The payload that asks the network to add a bet record's encrypted bet to
/// the market's aggregate.
pub open spec fn aggregation_args(m: Market, b: BetRecord) -> Seq<u8> {
    b.user_pubkey@ + le_bytes(b.user_nonce as nat, 16) + b.encrypted_bet[0]@ + b.encrypted_bet[1]@
        + le_bytes(m.state_nonce as nat, 16) + state_reference(m)
}

/// Why `place_bet` refuses, if it does.
pub open spec fn place_bet_error(m: Market, v: MarketVault, bet_lamports: u64, now: i64) -> Option<
    ErrorCode,
> {
    if m.status != MarketStatus::Open {
        Some(ErrorCode::MarketNotOpen)
    } else if !m.mpc_initialized {
        Some(ErrorCode::MpcNotInitialized)
    } else if now >= m.resolution_time {
        Some(ErrorCode::BettingPeriodEnded)
    } else if bet_lamports < MIN_BET_LAMPORTS {
        Some(ErrorCode::BetAmountTooLow)
    } else if bet_lamports > MAX_BET_LAMPORTS {
        Some(ErrorCode::BetAmountTooHigh)
    } else if v.market@ != m.address@ {
        Some(ErrorCode::InvalidVault)
    } else if m.pending_computation is Some {
        Some(ErrorCode::ComputationInFlight)
    } else if v.total_deposits + bet_lamports > u64::MAX {
        Some(ErrorCode::Overflow)
    } else {
        None
    }
}

/// `a + b`, or the largest 64-bit value when that does not fit.
pub open spec fn saturating_sum(a: u64, b: u64) -> u64 {
    if a + b > u64::MAX {
        u64::MAX
    } else {
        (a + b) as u64
    }
}

/// Places a bet: the stake moves into the vault, a pending bet record is made,
/// and the encrypted bet is queued for aggregation into the market's pools.
/// The market must be open, initialized and before its deadline, the stake
/// within bounds, and nothing else in flight for the market.
pub fn place_bet(
    market: &mut Market,
    vault: &mut MarketVault,
    bettor: &Address,
    record_address: &Address,
    record_bump: u8,
    computation_offset: u64,
    encrypted_outcome: Ciphertext,
    encrypted_amount: Ciphertext,
    user_pubkey: [u8; 32],
    nonce: u128,
    bet_lamports: u64,
    now: i64,
) -> (r: Result<(BetRecord, ComputationRequest), ErrorCode>)
    ensures
        match r {
            Ok((rec, req)) => {
                &&& place_bet_error(*old(market), *old(vault), bet_lamports, now) is None
                &&& *final(market) == (Market {
                    total_liquidity_approx: saturating_sum(
                        old(market).total_liquidity_approx,
                        bet_lamports,
                    ),
                    pending_computation: Some(
                        PendingComputation { computation_offset, circuit: Circuit::PlaceBet },
                    ),
                    ..*old(market)
                })
                &&& *final(vault) == (MarketVault {
                    total_deposits: (old(vault).total_deposits + bet_lamports) as u64,
                    ..*old(vault)
                })
                &&& rec == (BetRecord {
                    bump: record_bump,
                    market: old(market).address,
                    bettor: *bettor,
                    bet_index: old(market).bet_count,
                    encrypted_bet: [encrypted_outcome, encrypted_amount],
                    user_pubkey,
                    user_nonce: nonce,
                    bet_lamports,
                    status: BetStatus::Pending,
                    placed_at: now,
                    confirmed_at: None,
                    claimed: false,
                    payout_amount: None,
                })
                &&& request_is(
                    req,
                    computation_offset,
                    Circuit::PlaceBet,
                    aggregation_args(*old(market), rec),
                    seq![old(market).address, *record_address],
                )
            },
            Err(e) => {
                &&& place_bet_error(*old(market), *old(vault), bet_lamports, now) == Some(e)
                &&& *final(market) == *old(market)
                &&& *final(vault) == *old(vault)
            },
        },
        market_step(old(market).status, final(market).status),
        old(market).wf() ==> final(market).wf(),
        old(vault).wf() ==> final(vault).wf(),
{
    if market.status != MarketStatus::Open {
        return Err(ErrorCode::MarketNotOpen);
    }
    if !market.mpc_initialized {
        return Err(ErrorCode::MpcNotInitialized);
    }
    if now >= market.resolution_time {
        return Err(ErrorCode::BettingPeriodEnded);
    }
    if bet_lamports < MIN_BET_LAMPORTS {
        return Err(ErrorCode::BetAmountTooLow);
    }
    if bet_lamports > MAX_BET_LAMPORTS {
        return Err(ErrorCode::BetAmountTooHigh);
    }
    if !vault.market.same(&market.address) {
        return Err(ErrorCode::InvalidVault);
    }
    if market.pending_computation.is_some() {
        return Err(ErrorCode::ComputationInFlight);
    }
    if vault.total_deposits > u64::MAX - bet_lamports {
        return Err(ErrorCode::Overflow);
    }
    let args = ArgBuilder::new().x25519_pubkey(user_pubkey).plaintext_u128(nonce).encrypted_bool(
        encrypted_outcome,
    ).encrypted_u64(encrypted_amount).plaintext_u128(market.state_nonce).account(
        market.address,
        Market::ENCRYPTED_STATE_OFFSET as usize,
        Market::ENCRYPTED_STATE_SIZE as usize,
    ).build();
    let accounts: Vec<Address> = vec![market.address, *record_address];
    assert(accounts@ =~= seq![market.address, *record_address]);
    let record = BetRecord {
        bump: record_bump,
        market: market.address,
        bettor: *bettor,
        bet_index: market.bet_count,
        encrypted_bet: [encrypted_outcome, encrypted_amount],
        user_pubkey,
        user_nonce: nonce,
        bet_lamports,
        status: BetStatus::Pending,
        placed_at: now,
        confirmed_at: None,
        claimed: false,
        payout_amount: None,
    };
    assert(args@ =~= aggregation_args(*market, record));
    let request = match queue_computation(
        market,
        computation_offset,
        Circuit::PlaceBet,
        args,
        accounts,
    ) {
        Ok(req) => req,
        Err(e) => {
            return Err(e);
        },
    };
    market.total_liquidity_approx =
    if market.total_liquidity_approx > u64::MAX - bet_lamports {
        u64::MAX
    } else {
        market.total_liquidity_approx + bet_lamports
    };
    vault.total_deposits = vault.total_deposits + bet_lamports;
    Ok((record, request))
}

/// Why `place_bet_callback` refuses, if it does.
pub open spec fn place_bet_callback_error(
    m: Market,
    b: BetRecord,
    computation_offset: u64,
    output: Option<EncryptedStateOutput>,
) -> Option<ErrorCode> {
    if callback_error(m, computation_offset, Circuit::PlaceBet, output is Some) is Some {
        callback_error(m, computation_offset, Circuit::PlaceBet, output is Some)
    } else if b.market@ != m.address@ {
        Some(ErrorCode::InvalidAccount)
    } else if b.status != BetStatus::Pending {
        Some(ErrorCode::InvalidMpcCallback)
    } else if m.bet_count == u32::MAX {
        Some(ErrorCode::Overflow)
    } else {
        None
    }
}

/// Stores the aggregate that now includes the bet, counts the bet, and
/// confirms its record.
pub fn place_bet_callback(
    market: &mut Market,
    bet_record: &mut BetRecord,
    computation_offset: u64,
    output: Option<EncryptedStateOutput>,
    now: i64,
) -> (r: Result<(), ErrorCode>)
    ensures
        match r {
            Ok(()) => {
                &&& place_bet_callback_error(*old(market), *old(bet_record), computation_offset, output)
                    is None
                &&& *final(market) == (Market {
                    bet_count: (old(market).bet_count + 1) as u32,
                    ..with_aggregate(*old(market), output->0)
                })
                &&& *final(bet_record) == (BetRecord {
                    status: BetStatus::Confirmed,
                    confirmed_at: Some(now),
                    ..*old(bet_record)
                })
            },
            Err(e) => {
                &&& place_bet_callback_error(*old(market), *old(bet_record), computation_offset, output)
                    == Some(e)
                &&& *final(market) == *old(market)
                &&& *final(bet_record) == *old(bet_record)
            },
        },
        market_step(old(market).status, final(market).status),
        bet_step(old(bet_record).status, final(bet_record).status),
        old(market).wf() ==> final(market).wf(),
        old(bet_record).wf() ==> final(bet_record).wf(),
{
    verify_computation_output(market, computation_offset, Circuit::PlaceBet, output.is_some())?;
    if !bet_record.market.same(&market.address) {
        return Err(ErrorCode::InvalidAccount);
    }
    if bet_record.status != BetStatus::Pending {
        return Err(ErrorCode::InvalidMpcCallback);
    }
    if market.bet_count == u32::MAX {
        return Err(ErrorCode::Overflow);
    }
    let o = output.unwrap();
    market.encrypted_state = o.ciphertexts;
    market.state_nonce = o.nonce;
    market.bet_count = market.bet_count + 1;
    market.pending_computation = None;
    bet_record.status = BetStatus::Confirmed;
    bet_record.confirmed_at = Some(now);
    Ok(())
}

/// Why `resolve_market` refuses, if it does.
pub open spec fn resolve_market_error(m: Market, resolver: Address) -> Option<ErrorCode> {
    if m.status != MarketStatus::Closed && m.status != MarketStatus::Resolving {
        Some(ErrorCode::MarketNotClosed)
    } else if !m.mpc_initialized {
        Some(ErrorCode::MpcNotInitialized)
    } else if resolver@ != m.authority@ {
        Some(ErrorCode::Unauthorized)
    } else if m.pending_computation is Some {
        Some(ErrorCode::ComputationInFlight)
    } else {
        None
    }
}

/// Starts resolution with `outcome`: the market moves to `Resolving` and the
/// payout-split computation is queued. Every oracle mode requires the creator.
/// A market left `Resolving` by an aborted computation may be resolved again.
pub fn resolve_market(
    market: &mut Market,
    resolver: &Address,
    computation_offset: u64,
    outcome: bool,
) -> (r: Result<ComputationRequest, ErrorCode>)
    ensures
        match r {
            Ok(req) => {
                &&& resolve_market_error(*old(market), *resolver) is None
                &&& *final(market) == (Market {
                    status: MarketStatus::Resolving,
                    pending_computation: Some(
                        PendingComputation {
                            computation_offset,
                            circuit: Circuit::CalculatePayoutPools,
                        },
                    ),
                    ..*old(market)
                })
                &&& request_is(
                    req,
                    computation_offset,
                    Circuit::CalculatePayoutPools,
                    le_bytes(old(market).state_nonce as nat, 16) + state_reference(*old(market)).push(
                        if outcome {
                            1u8
                        } else {
                            0u8
                        },
                    ),
                    seq![old(market).address],
                )
            },
            Err(e) => resolve_market_error(*old(market), *resolver) == Some(e) && *final(market)
                == *old(market),
        },
        market_step(old(market).status, final(market).status),
        old(market).wf() ==> final(market).wf(),
{
    if market.status != MarketStatus::Closed && market.status != MarketStatus::Resolving {
        return Err(ErrorCode::MarketNotClosed);
    }
    if !market.mpc_initialized {
        return Err(ErrorCode::MpcNotInitialized);
    }
    let authorized = match market.oracle_type {
        crate::state::OracleType::Manual => resolver.same(&market.authority),
        crate::state::OracleType::Switchboard => resolver.same(&market.authority),
        crate::state::OracleType::Jury => resolver.same(&market.authority),
    };
    if !authorized {
        return Err(ErrorCode::Unauthorized);
    }
    let args = ArgBuilder::new().plaintext_u128(market.state_nonce).account(
        market.address,
        Market::ENCRYPTED_STATE_OFFSET as usize,
        Market::ENCRYPTED_STATE_SIZE as usize,
    ).plaintext_bool(outcome).build();
    assert(args@ =~= le_bytes(market.state_nonce as nat, 16) + state_reference(*market).push(
        if outcome {
            1u8
        } else {
            0u8
        },
    ));
    let accounts: Vec<Address> = vec![market.address];
    assert(accounts@ =~= seq![market.address]);
    let request = queue_computation(
        market,
        computation_offset,
        Circuit::CalculatePayoutPools,
        args,
        accounts,
    )?;
    market.status = MarketStatus::Resolving;
    Ok(request)
}

/// Why `calculate_payout_pools_callback` refuses, if it does.
pub open spec fn payout_pools_callback_error(
    m: Market,
    computation_offset: u64,
    output: Option<PayoutResult>,
) -> Option<ErrorCode> {
    if callback_error(m, computation_offset, Circuit::CalculatePayoutPools, output is Some) is Some {
        callback_error(m, computation_offset, Circuit::CalculatePayoutPools, output is Some)
    } else if m.status != MarketStatus::Resolving {
        Some(ErrorCode::InvalidMpcCallback)
    } else if output->0.total_pool != output->0.winning_pool + output->0.losing_pool {
        Some(ErrorCode::MpcVerificationFailed)
    } else {
        None
    }
}

/// The market once resolved with the revealed pools.
pub open spec fn resolved_with(m: Market, p: PayoutResult) -> Market {
    Market {
        status: MarketStatus::Resolved,
        outcome: Some(p.outcome),
        revealed_yes_pool: if p.outcome {
            p.winning_pool
        } else {
            p.losing_pool
        },
        revealed_no_pool: if p.outcome {
            p.losing_pool
        } else {
            p.winning_pool
        },
        revealed_total_pool: p.total_pool,
        pending_computation: None,
        ..m
    }
}

/// Stores the outcome and the revealed pools for good: the market is resolved.
pub fn calculate_payout_pools_callback(
    market: &mut Market,
    computation_offset: u64,
    output: Option<PayoutResult>,
) -> (r: Result<(), ErrorCode>)
    ensures
        match r {
            Ok(()) => {
                &&& payout_pools_callback_error(*old(market), computation_offset, output) is None
                &&& *final(market) == resolved_with(*old(market), output->0)
            },
            Err(e) => payout_pools_callback_error(*old(market), computation_offset, output) == Some(
                e,
            ) && *final(market) == *old(market),
        },
        market_step(old(market).status, final(market).status),
        old(market).wf() ==> final(market).wf(),
{
    verify_computation_output(
        market,
        computation_offset,
        Circuit::CalculatePayoutPools,
        output.is_some(),
    )?;
    if market.status != MarketStatus::Resolving {
        return Err(ErrorCode::InvalidMpcCallback);
    }
    let p = output.unwrap();
    if p.winning_pool > u64::MAX - p.losing_pool || p.total_pool != p.winning_pool + p.losing_pool {
        return Err(ErrorCode::MpcVerificationFailed);
    }
    market.outcome = Some(p.outcome);
    market.status = MarketStatus::Resolved;
    if p.outcome {
        market.revealed_yes_pool = p.winning_pool;
        market.revealed_no_pool = p.losing_pool;
    } else {
        market.revealed_yes_pool = p.losing_pool;
        market.revealed_no_pool = p.winning_pool;
    }
    market.revealed_total_pool = p.total_pool;
    market.pending_computation = None;
    Ok(())
}

/// Why `computation_aborted` refuses, if it does.
pub open spec fn abort_error(m: Market, computation_offset: u64, circuit: Circuit, verified: bool) -> Option<
    ErrorCode,
> {
    if callback_error(m, computation_offset, circuit, verified) is Some {
        callback_error(m, computation_offset, circuit, verified)
    } else if circuit == Circuit::PlaceBet {
        Some(ErrorCode::InvalidMpcCallback)
    } else {
        None
    }
}

/// Takes note that the network aborted the computation in flight (`verified`
/// when the report's signature checked out). Nothing else changes: the market
/// keeps its status, and the action may be submitted again with a fresh
/// computation id. An aborted bet aggregation is retried with
/// `retry_bet_aggregation` instead.
pub fn computation_aborted(
    market: &mut Market,
    computation_offset: u64,
    circuit: Circuit,
    verified: bool,
) -> (r: Result<(), ErrorCode>)
    ensures
        match r {
            Ok(()) => abort_error(*old(market), computation_offset, circuit, verified) is None
                && *final(market) == with_pending(*old(market), None),
            Err(e) => abort_error(*old(market), computation_offset, circuit, verified) == Some(e)
                && *final(market) == *old(market),
        },
        market_step(old(market).status, final(market).status),
        old(market).wf() ==> final(market).wf(),
{
    verify_computation_output(market, computation_offset, circuit, verified)?;
    if circuit == Circuit::PlaceBet {
        return Err(ErrorCode::InvalidMpcCallback);
    }
    market.pending_computation = None;
    Ok(())
}

/// Why `retry_bet_aggregation` refuses, if it does.
pub open spec fn retry_bet_error(
    m: Market,
    b: BetRecord,
    failed_offset: u64,
    verified: bool,
) -> Option<ErrorCode> {
    if callback_error(m, failed_offset, Circuit::PlaceBet, verified) is Some {
        callback_error(m, failed_offset, Circuit::PlaceBet, verified)
    } else if b.market@ != m.address@ {
        Some(ErrorCode::InvalidAccount)
    } else if b.status != BetStatus::Pending {
        Some(ErrorCode::InvalidMpcCallback)
    } else {
        None
    }
}

/// Replaces an aborted bet aggregation (`failed_offset`, reported aborted with
/// a signature that checked out when `verified`) by a fresh one for the same
/// pending record, in one step, so no other computation can slip in between.
pub fn retry_bet_aggregation(
    market: &mut Market,
    bet_record: &BetRecord,
    record_address: &Address,
    failed_offset: u64,
    verified: bool,
    computation_offset: u64,
) -> (r: Result<ComputationRequest, ErrorCode>)
    ensures
        match r {
            Ok(req) => {
                &&& retry_bet_error(*old(market), *bet_record, failed_offset, verified) is None
                &&& *final(market) == with_pending(
                    *old(market),
                    Some(PendingComputation { computation_offset, circuit: Circuit::PlaceBet }),
                )
                &&& request_is(
                    req,
                    computation_offset,
                    Circuit::PlaceBet,
                    aggregation_args(*old(market), *bet_record),
                    seq![old(market).address, *record_address],
                )
            },
            Err(e) => retry_bet_error(*old(market), *bet_record, failed_offset, verified) == Some(e)
                && *final(market) == *old(market),
        },
        market_step(old(market).status, final(market).status),
        old(market).wf() ==> final(market).wf(),
{
    verify_computation_output(market, failed_offset, Circuit::PlaceBet, verified)?;
    if !bet_record.market.same(&market.address) {
        return Err(ErrorCode::InvalidAccount);
    }
    if bet_record.status != BetStatus::Pending {
        return Err(ErrorCode::InvalidMpcCallback);
    }
    let args = ArgBuilder::new().x25519_pubkey(bet_record.user_pubkey).plaintext_u128(
        bet_record.user_nonce,
    ).encrypted_bool(bet_record.encrypted_bet[0]).encrypted_u64(bet_record.encrypted_bet[1]).plaintext_u128(
        market.state_nonce,
    ).account(
        market.address,
        Market::ENCRYPTED_STATE_OFFSET as usize,
        Market::ENCRYPTED_STATE_SIZE as usize,
    ).build();
    assert(args@ =~= aggregation_args(*market, *bet_record));
    let accounts: Vec<Address> = vec![market.address, *record_address];
    assert(accounts@ =~= seq![market.address, *record_address]);
    market.pending_computation = None;
    queue_computation(market, computation_offset, Circuit::PlaceBet, args, accounts)
}

/// Initializing the aggregate happens once: after the first successful
/// callback the status is unchanged and the market is marked initialized,
/// and any further initialization request, or any further initialization
/// callback, is refused without effect.
pub proof fn lemma_init_once(
    m: Market,
    computation_offset: u64,
    output: Option<EncryptedStateOutput>,
    caller: Address,
    again_offset: u64,
    again_output: Option<EncryptedStateOutput>,
)
    requires
        init_callback_error(m, computation_offset, output) is None,
    ensures
        ({
            let after = Market { mpc_initialized: true, ..with_aggregate(m, output->0) };
            &&& after.status == m.status
            &&& after.mpc_initialized
            &&& init_market_state_error(after, caller) == Some(ErrorCode::MpcAlreadyInitialized)
            &&& init_callback_error(after, again_offset, again_output) is Some
        }),
{
}

} // verus!
