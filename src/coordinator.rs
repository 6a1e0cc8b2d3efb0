//! The computation lifecycle: what a market records while a confidential
//! computation is in flight, and the acceptance check for its callback.
use vstd::prelude::*;
use crate::address::Address;
use crate::error::ErrorCode;
use crate::state::{Ciphertext, Market};

verus! {

/// The circuits the settlement flow queues.
#[derive(Clone, Copy, Debug, PartialEq, Eq, Structural)]
pub enum Circuit {
    InitMarketState,
    PlaceBet,
    CalculatePayoutPools,
}

/// A computation queued against a market whose callback has not landed yet.
#[derive(Clone, Copy, Debug, PartialEq, Eq, Structural)]
pub struct PendingComputation {
    pub computation_offset: u64,
    pub circuit: Circuit,
}

/// A request to the confidential network: run `circuit` on `args`, then call
/// back with the result, handing over `callback_accounts`.
pub struct ComputationRequest {
    pub computation_offset: u64,
    pub circuit: Circuit,
    pub args: Vec<u8>,
    pub callback_accounts: Vec<Address>,
}

/// A fresh encrypted aggregate, as returned by the network: three ciphertexts
/// and the nonce they were produced under.
#[derive(Clone, Copy, Debug)]
pub struct EncryptedStateOutput {
    pub ciphertexts: [Ciphertext; 3],
    pub nonce: u128,
}

/// The request holds exactly the given parts.
pub open spec fn request_is(
    req: ComputationRequest,
    computation_offset: u64,
    circuit: Circuit,
    args: Seq<u8>,
    accounts: Seq<Address>,
) -> bool {
    &&& req.computation_offset == computation_offset
    &&& req.circuit == circuit
    &&& req.args@ == args
    &&& req.callback_accounts@ == accounts
}

/// The market with `pending` recorded as its computation in flight.
pub open spec fn with_pending(m: Market, pending: Option<PendingComputation>) -> Market {
    Market { pending_computation: pending, ..m }
}

/// Why queueing on `m` is refused, if it is.
pub open spec fn queue_error(m: Market) -> Option<ErrorCode> {
    if m.pending_computation is Some {
        Some(ErrorCode::ComputationInFlight)
    } else {
        None
    }
}

/// Queues a computation against a market. At most one computation may be in
/// flight per market: a second one is refused (retryable) until the first
/// one's callback has landed, so no callback can overwrite another's update.
pub fn queue_computation(
    market: &mut Market,
    computation_offset: u64,
    circuit: Circuit,
    args: Vec<u8>,
    callback_accounts: Vec<Address>,
) -> (r: Result<ComputationRequest, ErrorCode>)
    ensures
        match r {
            Ok(req) => {
                &&& queue_error(*old(market)) is None
                &&& *final(market) == with_pending(
                    *old(market),
                    Some(PendingComputation { computation_offset, circuit }),
                )
                &&& request_is(req, computation_offset, circuit, args@, callback_accounts@)
            },
            Err(e) => queue_error(*old(market)) == Some(e) && *final(market) == *old(market),
        },
{
    if market.pending_computation.is_some() {
        return Err(ErrorCode::ComputationInFlight);
    }
    market.pending_computation = Some(PendingComputation { computation_offset, circuit });
    Ok(ComputationRequest { computation_offset, circuit, args, callback_accounts })
}

/// Why a callback for `computation_offset` on `circuit` is refused, if it is:
/// its signature did not verify, or it is not the computation in flight (a
/// replay, or a result for another circuit).
pub open spec fn callback_error(
    m: Market,
    computation_offset: u64,
    circuit: Circuit,
    verified: bool,
) -> Option<ErrorCode> {
    if !verified {
        Some(ErrorCode::MpcComputationFailed)
    } else if m.pending_computation != Some(PendingComputation { computation_offset, circuit }) {
        Some(ErrorCode::InvalidMpcCallback)
    } else {
        None
    }
}

/// Accepts a callback only when its output verified and it answers the
/// computation in flight for this market.
pub fn verify_computation_output(
    market: &Market,
    computation_offset: u64,
    circuit: Circuit,
    verified: bool,
) -> (r: Result<(), ErrorCode>)
    ensures
        match r {
            Ok(()) => callback_error(*market, computation_offset, circuit, verified) is None,
            Err(e) => callback_error(*market, computation_offset, circuit, verified) == Some(e),
        },
{
    if !verified {
        return Err(ErrorCode::MpcComputationFailed);
    }
    let expected = PendingComputation { computation_offset, circuit };
    match market.pending_computation {
        Some(p) => {
            if p == expected {
                Ok(())
            } else {
                Err(ErrorCode::InvalidMpcCallback)
            }
        },
        None => Err(ErrorCode::InvalidMpcCallback),
    }
}

/// One computation in flight per market: once a computation is queued, any
/// further queueing on the market is refused until its callback lands, so two
/// computations can never be issued against the same aggregate.
pub proof fn lemma_single_flight(m: Market, pending: PendingComputation)
    ensures
        queue_error(with_pending(m, Some(pending))) == Some(ErrorCode::ComputationInFlight),
{
}

/// Replays are refused: a callback is accepted only for the computation in
/// flight, and accepting it clears that computation, so the same callback
/// delivered again (verified or not) is refused.
pub proof fn lemma_replay_refused(
    m: Market,
    computation_offset: u64,
    circuit: Circuit,
    verified_again: bool,
)
    requires
        callback_error(m, computation_offset, circuit, true) is None,
    ensures
        callback_error(with_pending(m, None), computation_offset, circuit, verified_again) is Some,
{
}

} // verus!
