use vstd::prelude::*;

verus! {

/// Every way an operation of the engine can be refused.
///
/// An operation that returns one of these has changed nothing.
#[derive(Clone, Copy, Debug, PartialEq, Eq, Structural)]
pub enum TriadProtocolError {
    Unauthorized,
    InvalidPosition,
    InvalidWithdrawAmount,
    StakeLocked,
    InsufficientFunds,
    NoRewardsAvailable,
    InvalidPrice,
    NoAvailableOrderSlot,
    MarketInactive,
    OrderNotFound,
    QuestionPeriodNotStarted,
    QuestionPeriodEnded,
    StakeVaultLocked,
    MarketStillActive,
    OrderNotOpen,
    HasOpenedOrders,
    InsufficientLiquidity,
    MarketNotResolved,
    MarketAlreadyResolved,
    ConcurrentTransaction,
    CollectionFull,
    /// A checked addition, subtraction, multiplication or division had no
    /// result in the integer type that holds it.
    ArithmeticFailure,
}

impl TriadProtocolError {
    /// True for the one failure that a caller is expected to retry with
    /// refreshed market state.
    pub open spec fn retryable(self) -> bool {
        self == TriadProtocolError::ConcurrentTransaction
    }

    pub fn is_retryable(&self) -> (r: bool)
        ensures
            r == self.retryable(),
    {
        match self {
            TriadProtocolError::ConcurrentTransaction => true,
            _ => false,
        }
    }
}

} // verus!
