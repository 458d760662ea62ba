use vstd::prelude::*;

verus! {

/// Every failure an operation of the ledger core can report.
///
/// Errors fall into six groups: authorization (a wrong or unset role
/// holder), lifecycle state (a record missing or in the wrong status),
/// validation (zero amounts, oversized reasons, bad configuration),
/// limits (flagged accounts, exhausted volume budget), arithmetic
/// (an addition or subtraction that would leave the numeric domain),
/// and balances (insufficient free or reserved funds).
#[derive(Clone, Copy, Debug, PartialEq, Eq, Structural)]
pub enum OpError {
    /// The caller is not the superuser, or a signed origin was required.
    Unauthorized,
    /// No mint authority has been configured.
    NoMintAuthority,
    /// The caller is not the configured mint authority.
    NotMintAuthority,
    /// No burn authority has been configured.
    NoBurnAuthority,
    /// The caller is not the configured burn authority.
    NotBurnAuthority,
    /// No compliance officer has been configured.
    NoComplianceOfficer,
    /// The caller is not the configured compliance officer.
    NotComplianceOfficer,
    /// The caller is not the configured KYC verifier, or none is configured.
    NotVerifier,
    /// The KYC verifier may not pass judgement on their own account.
    CannotVerifySelf,
    /// The account already has a KYC record that is pending or verified.
    KycAlreadySubmitted,
    /// The account has no KYC record.
    KycNotSubmitted,
    /// The KYC record is not in the status the operation expects.
    InvalidKycStatus,
    /// The account has not passed KYC verification.
    KycNotVerified,
    /// No mint request exists under the given id.
    MintRequestNotFound,
    /// The mint request is not pending.
    InvalidMintRequestStatus,
    /// No burn request exists under the given id.
    BurnRequestNotFound,
    /// The burn request is not in the reserved status.
    InvalidBurnRequestStatus,
    /// No alert exists under the given id.
    AlertNotFound,
    /// The alert has already been resolved.
    AlertAlreadyResolved,
    /// The alert reason exceeds the configured length bound.
    ReasonTooLong,
    /// The account is already under a compliance flag.
    AccountAlreadyFlagged,
    /// The account is not under a compliance flag.
    AccountNotFlagged,
    /// The account is flagged for compliance review.
    AccountFlagged,
    /// The per-period transaction volume limit would be exceeded.
    DailyLimitExceeded,
    /// The period length is configured as zero blocks.
    InvalidConfiguration,
    /// A compliance check rejected the transaction.
    ComplianceCheckFailed,
    /// All monetary operations are suspended.
    SystemPaused,
    /// The amount is zero, or the transfer destination equals the sender.
    InvalidAmount,
    /// An addition or subtraction would leave the numeric domain.
    Overflow,
    /// The transfer fee does not fit the balance domain.
    FeeCalculationFailed,
    /// The free balance does not cover the requested amount.
    InsufficientBalance,
    /// The reserved balance does not cover the requested amount.
    InsufficientReservedBalance,
}

} // verus!
