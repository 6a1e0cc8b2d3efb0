use vstd::prelude::*;

verus! {

/// Every way an entry point can be refused. A refused entry point changes nothing.
#[derive(Clone, Copy, Debug, PartialEq, Eq, Structural)]
pub enum ErrorCode {
    MarketNotOpen,
    MarketNotClosed,
    MarketNotResolved,
    MarketAlreadyResolved,
    MarketCancelled,
    BettingPeriodEnded,
    ResolutionTimeNotReached,
    MpcNotInitialized,
    MpcAlreadyInitialized,
    BetAmountTooLow,
    BetAmountTooHigh,
    BetAlreadyClaimed,
    BetNotConfirmed,
    InvalidBetClaim,
    BetVerificationFailed,
    Unauthorized,
    InvalidAuthority,
    InvalidOracle,
    MpcComputationFailed,
    InvalidMpcCallback,
    MpcVerificationFailed,
    ClusterNotSet,
    AbortedComputation,
    /// Another computation is still in flight for this market; retry once its
    /// callback has landed.
    ComputationInFlight,
    /// The market's resolution is in flight and can no longer be cancelled.
    ResolutionInProgress,
    InsufficientVaultBalance,
    InvalidVault,
    InvalidInput,
    Overflow,
    InvalidAccount,
}

impl ErrorCode {
    /// The human-readable message of the error.
    pub fn message(&self) -> (r: String) {
        let s: &str = match self {
            ErrorCode::MarketNotOpen => "Market is not open for betting",
            ErrorCode::MarketNotClosed => "Market is not closed",
            ErrorCode::MarketNotResolved => "Market is not resolved",
            ErrorCode::MarketAlreadyResolved => "Market has already been resolved",
            ErrorCode::MarketCancelled => "Market has been cancelled",
            ErrorCode::BettingPeriodEnded => "Betting period has ended",
            ErrorCode::ResolutionTimeNotReached => "Resolution time has not been reached",
            ErrorCode::MpcNotInitialized => "MPC state not initialized",
            ErrorCode::MpcAlreadyInitialized => "MPC state already initialized",
            ErrorCode::BetAmountTooLow => "Bet amount too low",
            ErrorCode::BetAmountTooHigh => "Bet amount too high",
            ErrorCode::BetAlreadyClaimed => "Bet already claimed",
            ErrorCode::BetNotConfirmed => "Bet not confirmed",
            ErrorCode::InvalidBetClaim => "Invalid bet claim",
            ErrorCode::BetVerificationFailed => "Bet verification failed",
            ErrorCode::Unauthorized => "Unauthorized",
            ErrorCode::InvalidAuthority => "Invalid authority",
            ErrorCode::InvalidOracle => "Invalid oracle",
            ErrorCode::MpcComputationFailed => "MPC computation failed",
            ErrorCode::InvalidMpcCallback => "Invalid MPC callback",
            ErrorCode::MpcVerificationFailed => "MPC verification failed",
            ErrorCode::ClusterNotSet => "MPC cluster not set",
            ErrorCode::AbortedComputation => "Computation was aborted",
            ErrorCode::ComputationInFlight => "Another computation is in flight for this market",
            ErrorCode::ResolutionInProgress => "Market resolution is in progress",
            ErrorCode::InsufficientVaultBalance => "Insufficient vault balance",
            ErrorCode::InvalidVault => "Invalid vault",
            ErrorCode::InvalidInput => "Invalid input",
            ErrorCode::Overflow => "Overflow",
            ErrorCode::InvalidAccount => "Invalid account",
        };
        s.to_string()
    }
}

/// Alias of `ErrorCode`, the program's error type.
pub type VeilError = ErrorCode;

} // verus!
