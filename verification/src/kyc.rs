use vstd::prelude::*;
use std::collections::HashMap;
use crate::config::Origin;
use crate::errors::OpError;
use crate::events::Event;

verus! {

/// The verification workflow of one account: `NotSubmitted` until a
/// document arrives, then `Pending` until the verifier decides.  A
/// rejected account may resubmit; a pending or verified one may not.
#[derive(Clone, Copy, Debug, PartialEq, Eq, Structural)]
pub enum KycStatus {
    NotSubmitted,
    Pending,
    Verified,
    Rejected,
}

/// The active KYC record of one account; a resubmission replaces it.
#[derive(Clone, Copy, Debug, PartialEq, Eq)]
pub struct KycRecord {
    pub account: u64,
    pub document_hash: u64,
    pub status: KycStatus,
    pub submitted_at: u64,
    pub verified_at: Option<u64>,
}

/// The KYC registry: one active record per account, and the single
/// account allowed to verify or reject submissions.
#[derive(Debug)]
pub struct KycRegistry {
    pub records: HashMap<u64, KycRecord>,
    pub verifier: Option<u64>,
}

/// The status of `account` in the registry: the stored one, or
/// `NotSubmitted` when no record exists.
pub open spec fn status_of(k: KycRegistry, account: u64) -> KycStatus {
    if k.records@.contains_key(account) {
        k.records@[account].status
    } else {
        KycStatus::NotSubmitted
    }
}

/// True when `account` has passed verification.  This is the one
/// capability the registry exposes to the other components.
pub open spec fn spec_is_verified(k: KycRegistry, account: u64) -> bool {
    status_of(k, account) is Verified
}

/// The error `set_verifier` reports, or `None` when it succeeds: only
/// the superuser may configure the verifier.
pub open spec fn set_verifier_err(origin: Origin) -> Option<OpError> {
    if origin is Root {
        None
    } else {
        Some(OpError::Unauthorized)
    }
}

/// The error `submit` reports, or `None` when it succeeds: a signed
/// account may submit unless its record is pending or already verified.
pub open spec fn submit_err(k: KycRegistry, origin: Origin) -> Option<OpError> {
    if !origin.is_signed() {
        Some(OpError::Unauthorized)
    } else if k.records@.contains_key(origin.signer())
        && !(k.records@[origin.signer()].status is Rejected) {
        Some(OpError::KycAlreadySubmitted)
    } else {
        None
    }
}

/// The effect of a successful `submit`: a fresh pending record for the
/// caller, everything else untouched.
pub open spec fn submit_ok(
    pre: KycRegistry,
    post: KycRegistry,
    who: u64,
    document_hash: u64,
    now: u64,
    events: Seq<Event>,
) -> bool {
    &&& post.records@ == pre.records@.insert(
        who,
        (KycRecord {
            account: who,
            document_hash,
            status: KycStatus::Pending,
            submitted_at: now,
            verified_at: None,
        }),
    )
    &&& post.verifier == pre.verifier
    &&& events == seq![Event::KycSubmitted { account: who, document_hash }]
}

/// The error `verify` reports, or `None` when it succeeds: the caller
/// must be the configured verifier, may not verify themselves, and the
/// account's record must be pending.
pub open spec fn verify_err(k: KycRegistry, origin: Origin, account: u64) -> Option<OpError> {
    if !origin.is_signed() {
        Some(OpError::Unauthorized)
    } else if k.verifier is None {
        Some(OpError::NotVerifier)
    } else if k.verifier != Some(origin.signer()) {
        Some(OpError::NotVerifier)
    } else if account == origin.signer() {
        Some(OpError::CannotVerifySelf)
    } else if !k.records@.contains_key(account) {
        Some(OpError::KycNotSubmitted)
    } else if !(k.records@[account].status is Pending) {
        Some(OpError::InvalidKycStatus)
    } else {
        None
    }
}

/// The effect of a successful `verify`: the pending record becomes
/// verified and is timestamped.
pub open spec fn verify_ok(
    pre: KycRegistry,
    post: KycRegistry,
    account: u64,
    now: u64,
    events: Seq<Event>,
) -> bool {
    &&& post.records@ == pre.records@.insert(
        account,
        (KycRecord {
            status: KycStatus::Verified,
            verified_at: Some(now),
            ..pre.records@[account]
        }),
    )
    &&& post.verifier == pre.verifier
    &&& events == seq![Event::KycVerified { account }]
}

/// The error `reject` reports, or `None` when it succeeds: the caller
/// must be the configured verifier and the account's record pending.
pub open spec fn reject_err(k: KycRegistry, origin: Origin, account: u64) -> Option<OpError> {
    if !origin.is_signed() {
        Some(OpError::Unauthorized)
    } else if k.verifier is None {
        Some(OpError::NotVerifier)
    } else if k.verifier != Some(origin.signer()) {
        Some(OpError::NotVerifier)
    } else if !k.records@.contains_key(account) {
        Some(OpError::KycNotSubmitted)
    } else if !(k.records@[account].status is Pending) {
        Some(OpError::InvalidKycStatus)
    } else {
        None
    }
}

/// The effect of a successful `reject`: the pending record becomes
/// rejected; its timestamps are left as they were.
pub open spec fn reject_ok(
    pre: KycRegistry,
    post: KycRegistry,
    account: u64,
    events: Seq<Event>,
) -> bool {
    &&& post.records@ == pre.records@.insert(
        account,
        (KycRecord { status: KycStatus::Rejected, ..pre.records@[account] }),
    )
    &&& post.verifier == pre.verifier
    &&& events == seq![Event::KycRejected { account }]
}

impl KycRegistry {
    /// An empty registry: no records, no verifier configured.
    pub fn new() -> (r: KycRegistry)
        ensures
            r.records@ == Map::<u64, KycRecord>::empty(),
            r.verifier is None,
    {
        KycRegistry { records: HashMap::new(), verifier: None }
    }

    /// Configures the account allowed to verify and reject submissions.
    /// Superuser only.
    pub fn set_verifier(&mut self, origin: Origin, verifier: u64) -> (r: Result<
        Vec<Event>,
        OpError,
    >)
        ensures
            match r {
                Ok(events) => {
                    &&& set_verifier_err(origin) is None
                    &&& final(self).verifier == Some(verifier)
                    &&& final(self).records@ == old(self).records@
                    &&& events@ == seq![Event::VerifierSet { verifier }]
                },
                Err(e) => {
                    &&& set_verifier_err(origin) == Some(e)
                    &&& *final(self) == *old(self)
                },
            },
    {
        match origin {
            Origin::Root => {
                self.verifier = Some(verifier);
                let events = vec![Event::VerifierSet { verifier }];
                assert(events@ =~= seq![Event::VerifierSet { verifier }]);
                Ok(events)
            },
            Origin::Signed(_) => Err(OpError::Unauthorized),
        }
    }

    /// Stores a pending KYC record for the calling account.  A record
    /// that is pending or verified blocks resubmission; a rejected one
    /// is replaced.
    pub fn submit_kyc(&mut self, origin: Origin, document_hash: u64, now: u64) -> (r: Result<
        Vec<Event>,
        OpError,
    >)
        ensures
            match r {
                Ok(events) => {
                    &&& submit_err(*old(self), origin) is None
                    &&& submit_ok(
                        *old(self),
                        *final(self),
                        origin.signer(),
                        document_hash,
                        now,
                        events@,
                    )
                },
                Err(e) => {
                    &&& submit_err(*old(self), origin) == Some(e)
                    &&& *final(self) == *old(self)
                },
            },
    {
        let who = match origin {
            Origin::Signed(a) => a,
            Origin::Root => {
                return Err(OpError::Unauthorized);
            },
        };
        match self.records.get(&who) {
            Some(existing) => {
                if !matches!(existing.status, KycStatus::Rejected) {
                    return Err(OpError::KycAlreadySubmitted);
                }
            },
            None => {},
        }
        self.records.insert(
            who,
            KycRecord {
                account: who,
                document_hash,
                status: KycStatus::Pending,
                submitted_at: now,
                verified_at: None,
            },
        );
        let events = vec![Event::KycSubmitted { account: who, document_hash }];
        assert(events@ =~= seq![Event::KycSubmitted { account: who, document_hash }]);
        Ok(events)
    }

    /// Marks the pending record of `account` as verified and timestamps
    /// it.  Only the configured verifier may call this, and never on
    /// their own account.
    pub fn verify_kyc(&mut self, origin: Origin, account: u64, now: u64) -> (r: Result<
        Vec<Event>,
        OpError,
    >)
        ensures
            match r {
                Ok(events) => {
                    &&& verify_err(*old(self), origin, account) is None
                    &&& verify_ok(*old(self), *final(self), account, now, events@)
                },
                Err(e) => {
                    &&& verify_err(*old(self), origin, account) == Some(e)
                    &&& *final(self) == *old(self)
                },
            },
    {
        let who = match origin {
            Origin::Signed(a) => a,
            Origin::Root => {
                return Err(OpError::Unauthorized);
            },
        };
        match self.verifier {
            Some(v) => {
                if v != who {
                    return Err(OpError::NotVerifier);
                }
            },
            None => {
                return Err(OpError::NotVerifier);
            },
        }
        if account == who {
            return Err(OpError::CannotVerifySelf);
        }
        let mut rec = match self.records.get(&account) {
            Some(rec) => *rec,
            None => {
                return Err(OpError::KycNotSubmitted);
            },
        };
        if !matches!(rec.status, KycStatus::Pending) {
            return Err(OpError::InvalidKycStatus);
        }
        rec.status = KycStatus::Verified;
        rec.verified_at = Some(now);
        self.records.insert(account, rec);
        let events = vec![Event::KycVerified { account }];
        assert(events@ =~= seq![Event::KycVerified { account }]);
        Ok(events)
    }

    /// Marks the pending record of `account` as rejected, which allows
    /// the account to resubmit.  Only the configured verifier may call
    /// this.
    pub fn reject_kyc(&mut self, origin: Origin, account: u64) -> (r: Result<Vec<Event>, OpError>)
        ensures
            match r {
                Ok(events) => {
                    &&& reject_err(*old(self), origin, account) is None
                    &&& reject_ok(*old(self), *final(self), account, events@)
                },
                Err(e) => {
                    &&& reject_err(*old(self), origin, account) == Some(e)
                    &&& *final(self) == *old(self)
                },
            },
    {
        let who = match origin {
            Origin::Signed(a) => a,
            Origin::Root => {
                return Err(OpError::Unauthorized);
            },
        };
        match self.verifier {
            Some(v) => {
                if v != who {
                    return Err(OpError::NotVerifier);
                }
            },
            None => {
                return Err(OpError::NotVerifier);
            },
        }
        let mut rec = match self.records.get(&account) {
            Some(rec) => *rec,
            None => {
                return Err(OpError::KycNotSubmitted);
            },
        };
        if !matches!(rec.status, KycStatus::Pending) {
            return Err(OpError::InvalidKycStatus);
        }
        rec.status = KycStatus::Rejected;
        self.records.insert(account, rec);
        let events = vec![Event::KycRejected { account }];
        assert(events@ =~= seq![Event::KycRejected { account }]);
        Ok(events)
    }

    /// The active KYC record of `account`, if any.
    pub fn kyc_data(&self, account: u64) -> (r: Option<KycRecord>)
        ensures
            match r {
                Some(rec) => self.records@.contains_key(account) && rec
                    == self.records@[account],
                None => !self.records@.contains_key(account),
            },
    {
        match self.records.get(&account) {
            Some(rec) => Some(*rec),
            None => None,
        }
    }

    /// True when `account` has passed verification.
    pub fn is_verified(&self, account: u64) -> (r: bool)
        ensures
            r == spec_is_verified(*self, account),
    {
        match self.records.get(&account) {
            Some(rec) => matches!(rec.status, KycStatus::Verified),
            None => false,
        }
    }
}

} // verus!
