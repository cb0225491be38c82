use vstd::prelude::*;

verus! {

/// Why an operation on a pool was refused. Every refusal leaves all records
/// and balances as they were.
#[derive(Clone, Copy, Debug, PartialEq, Eq, Structural)]
pub enum LedgerError {
    /// A derivation or authorization parameter is missing or malformed.
    InvalidArgument,
    /// The custody account could not be brought to its minimum viable balance.
    InsufficientFunding,
    /// The custody balance fell below the recorded anchor, or below the float
    /// and dust it must always hold.
    BalanceInvariantViolated,
    /// A count or a balance would leave the range of its integer type.
    ArithmeticOverflow,
    /// A precondition of the operation does not hold (zero shares).
    PreconditionFailed,
    /// The custody account cannot cover a payout.
    PaymentFailed,
}

impl LedgerError {
    /// A short human-readable description of the error kind.
    pub fn message(&self) -> (r: &'static str) {
        match self {
            LedgerError::InvalidArgument => "invalid argument",
            LedgerError::InsufficientFunding => "custody account is not funded to its minimum balance",
            LedgerError::BalanceInvariantViolated => "custody balance is below the recorded anchor",
            LedgerError::ArithmeticOverflow => "arithmetic overflow",
            LedgerError::PreconditionFailed => "precondition failed",
            LedgerError::PaymentFailed => "custody account cannot cover the payout",
        }
    }
}

/// Fails with `err` unless `statement` holds.
pub fn assert_with_msg(statement: bool, err: LedgerError, msg: &str) -> (r: Result<(), LedgerError>)
    ensures
        r == (if statement { Ok::<(), LedgerError>(()) } else { Err(err) }),
{
    if !statement {
        Err(err)
    } else {
        Ok(())
    }
}

} // verus!
