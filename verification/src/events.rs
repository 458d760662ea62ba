use vstd::prelude::*;
use crate::compliance::AlertLevel;

verus! {

/// What a successful operation reports to external indexers.
///
/// Every operation returns the exact sequence of events it emitted; a
/// failed operation emits none.
#[derive(Clone, Copy, Debug, PartialEq, Eq, Structural)]
pub enum Event {
    MintAuthoritySet { authority: u64 },
    BurnAuthoritySet { authority: u64 },
    TransactionFeeSet { fee_bps: u32 },
    SystemPaused,
    SystemUnpaused,
    MintRequested { request_id: u64, requester: u64, amount: u64 },
    MintApproved { request_id: u64, requester: u64, amount: u64 },
    MintRejected { request_id: u64, requester: u64 },
    BurnReserved { request_id: u64, requester: u64, amount: u64 },
    BurnApproved { request_id: u64, requester: u64, amount: u64 },
    BurnRejected { request_id: u64, requester: u64 },
    Transfer { from: u64, to: u64, amount: u64, fee: u64 },
    ComplianceOfficerSet { officer: u64 },
    AccountFlagged { account: u64 },
    AccountUnflagged { account: u64 },
    AlertCreated { alert_id: u64, account: u64, alert_level: AlertLevel },
    AlertResolved { alert_id: u64 },
    SuspiciousActivityDetected { account: u64, amount: u64 },
    KycSubmitted { account: u64, document_hash: u64 },
    KycVerified { account: u64 },
    KycRejected { account: u64 },
    VerifierSet { verifier: u64 },
}

} // verus!
