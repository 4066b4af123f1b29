use vstd::prelude::*;

verus! {

/// Every failure the platform can report to a caller. The taxonomy is flat:
/// each operation reports exactly one kind per failing input, never a
/// downgraded or retried result.
#[derive(Clone, Copy, Debug, PartialEq, Eq, Structural)]
pub enum PlatformError {
    /// The requested tier code is not one of 0 (Bronze), 1 (Silver), 2 (Gold).
    InvalidTier,
    /// The paying account does not hold the tier's price.
    InsufficientFunds,
    /// A rating score lies outside 1..=5.
    InvalidScore,
    /// The supplied asset group does not match the tier's registered group.
    InvalidCollection,
    /// The principal already holds a credential slot.
    PassAlreadyActive,
    /// The credential's validity window has ended.
    PassExpired,
    /// No credential slot exists for the principal.
    PassNotFound,
    /// The credential's tier is below the required minimum.
    TierTooLow,
    /// A comment's content exceeds the permitted length.
    ContentTooLong,
    /// The mint window has not opened yet.
    MintingNotOpen,
    /// The caller is not the configured authority.
    Unauthorized,
    /// A tier's edition counter cannot be incremented without overflow.
    EditOverflow,
}

} // verus!
