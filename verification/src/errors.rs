use vstd::prelude::*;

verus! {

/// Why an operation was rejected.
///
/// Every failure is total: the operation that returns an error leaves the
/// contract state exactly as it found it.
#[derive(Clone, Copy, Debug, PartialEq, Eq, Structural)]
pub enum Error {
    /// `initialize` was called on a contract that already has an admin.
    AlreadyInitialized,
    /// The caller is not the stored administrator.
    Unauthorized,
    /// The contract is paused; balance-affecting operations are refused.
    Paused,
    /// The debited account holds fewer units than the requested amount.
    InsufficientBalance,
    /// The recipient has no compliance record at all.
    ComplianceMissing,
    /// The recipient's compliance record has `kyc_verified == false`.
    KycNotVerified,
    /// The recipient's compliance record expired strictly before now.
    ComplianceExpired,
    /// The recipient is not on the whitelist.
    NotWhitelisted,
    /// Admin or metadata was queried before initialization.
    NotFound,
    /// A supplied amount was not positive (or a supply was negative).
    InvalidAmount,
}

} // verus!
