use vstd::prelude::*;
use vstd::arithmetic::mul::{lemma_mul_inequality, lemma_mul_is_commutative};
use std::collections::HashMap;
use crate::compliance::{Compliance, check_err, compliance_wf, sat_add, spec_volume};
use crate::config::{Config, Origin};
use crate::errors::OpError;
use crate::events::Event;
use crate::kyc::KycRegistry;
use crate::ledger::Ledger;

verus! {

/// The lifecycle of a mint request: created pending, then completed or
/// rejected, both terminal.
#[derive(Clone, Copy, Debug, PartialEq, Eq, Structural)]
pub enum MintRequestStatus {
    Pending,
    Completed,
    Rejected,
}

/// The lifecycle of a burn request: created with its amount already
/// reserved, then completed or rejected, both terminal.
#[derive(Clone, Copy, Debug, PartialEq, Eq, Structural)]
pub enum BurnRequestStatus {
    Reserved,
    Completed,
    Rejected,
}

/// A request to issue `amount` new tokens to `requester`.
#[derive(Clone, Copy, Debug, PartialEq, Eq)]
pub struct MintRequest {
    pub requester: u64,
    pub amount: u64,
    pub status: MintRequestStatus,
    pub created_at: u64,
    pub processed_at: Option<u64>,
}

/// A request to retire `amount` tokens of `requester`; the amount sits
/// in the requester's reserved balance until the request is decided.
#[derive(Clone, Copy, Debug, PartialEq, Eq)]
pub struct BurnRequest {
    pub requester: u64,
    pub amount: u64,
    pub status: BurnRequestStatus,
    pub created_at: u64,
    pub processed_at: Option<u64>,
}

/// The whole state machine: the ledger core, the KYC registry, the
/// compliance monitor, both request workflows, and the global settings
/// (role holders, pause flag, fee rate).
#[derive(Debug)]
pub struct State {
    pub ledger: Ledger,
    pub kyc: KycRegistry,
    pub compliance: Compliance,
    pub mint_requests: HashMap<u64, MintRequest>,
    pub next_mint_id: u64,
    pub burn_requests: HashMap<u64, BurnRequest>,
    pub next_burn_id: u64,
    pub mint_authority: Option<u64>,
    pub burn_authority: Option<u64>,
    pub paused: bool,
    pub fee_bps: u32,
}

/// What the mint request stored under `id` adds to the completed-mint
/// sum: its amount when completed, nothing otherwise.
pub open spec fn mint_contribution(m: Map<u64, MintRequest>, id: u64) -> int {
    if m.contains_key(id) && m[id].status is Completed {
        m[id].amount as int
    } else {
        0
    }
}

/// The sum of the amounts of all completed mint requests with ids below
/// `n`.
pub open spec fn completed_mint_total(m: Map<u64, MintRequest>, n: nat) -> int
    decreases n,
{
    if n == 0 {
        0
    } else {
        completed_mint_total(m, (n - 1) as nat) + mint_contribution(m, ((n - 1) as nat) as u64)
    }
}

/// What the burn request stored under `id` adds to the completed-burn
/// sum: its amount when completed, nothing otherwise.
pub open spec fn burn_contribution(m: Map<u64, BurnRequest>, id: u64) -> int {
    if m.contains_key(id) && m[id].status is Completed {
        m[id].amount as int
    } else {
        0
    }
}

/// The sum of the amounts of all completed burn requests with ids below
/// `n`.
pub open spec fn completed_burn_total(m: Map<u64, BurnRequest>, n: nat) -> int
    decreases n,
{
    if n == 0 {
        0
    } else {
        completed_burn_total(m, (n - 1) as nat) + burn_contribution(m, ((n - 1) as nat) as u64)
    }
}

/// The internal invariant of the state machine.  Request ids lie below
/// their allocation counters, every stored request carries a positive
/// amount, the compliance monitor is well formed, and — supply
/// conservation — the total supply equals the sum of all completed
/// mint amounts minus the sum of all completed burn amounts.
pub open spec fn state_wf(s: State) -> bool {
    &&& compliance_wf(s.compliance)
    &&& forall|id: u64| s.mint_requests@.contains_key(id) ==> id < s.next_mint_id
    &&& forall|id: u64| s.burn_requests@.contains_key(id) ==> id < s.next_burn_id
    &&& forall|id: u64| s.mint_requests@.contains_key(id) ==> s.mint_requests@[id].amount > 0
    &&& forall|id: u64| s.burn_requests@.contains_key(id) ==> s.burn_requests@[id].amount > 0
    &&& s.ledger.total_supply as int == completed_mint_total(
        s.mint_requests@,
        s.next_mint_id as nat,
    ) - completed_burn_total(s.burn_requests@, s.next_burn_id as nat)
}

proof fn lemma_mint_total_congruent(m1: Map<u64, MintRequest>, m2: Map<u64, MintRequest>, n: nat)
    requires
        forall|id: u64| id < n ==> mint_contribution(m1, id) == mint_contribution(m2, id),
    ensures
        completed_mint_total(m1, n) == completed_mint_total(m2, n),
    decreases n,
{
    if n > 0 {
        lemma_mint_total_congruent(m1, m2, (n - 1) as nat);
    }
}

/// Overwriting the request under `k` changes the completed-mint sum by
/// the difference of the two contributions.
proof fn lemma_mint_total_update(m: Map<u64, MintRequest>, k: u64, r: MintRequest, n: nat)
    requires
        k < n,
        n <= u64::MAX + 1,
    ensures
        completed_mint_total(m.insert(k, r), n) == completed_mint_total(m, n)
            - mint_contribution(m, k) + (if r.status is Completed {
            r.amount as int
        } else {
            0
        }),
    decreases n,
{
    let m2 = m.insert(k, r);
    if k == n - 1 {
        lemma_mint_total_congruent(m2, m, (n - 1) as nat);
    } else {
        lemma_mint_total_update(m, k, r, (n - 1) as nat);
    }
}

/// Appending a request under the next free id extends the sum by its
/// contribution.
proof fn lemma_mint_total_extend(m: Map<u64, MintRequest>, n: nat, r: MintRequest)
    requires
        n < u64::MAX,
    ensures
        completed_mint_total(m.insert(n as u64, r), n + 1) == completed_mint_total(m, n) + (
        if r.status is Completed {
            r.amount as int
        } else {
            0
        }),
{
    let m2 = m.insert(n as u64, r);
    lemma_mint_total_congruent(m2, m, n);
}

proof fn lemma_burn_total_congruent(m1: Map<u64, BurnRequest>, m2: Map<u64, BurnRequest>, n: nat)
    requires
        forall|id: u64| id < n ==> burn_contribution(m1, id) == burn_contribution(m2, id),
    ensures
        completed_burn_total(m1, n) == completed_burn_total(m2, n),
    decreases n,
{
    if n > 0 {
        lemma_burn_total_congruent(m1, m2, (n - 1) as nat);
    }
}

/// Overwriting the request under `k` changes the completed-burn sum by
/// the difference of the two contributions.
proof fn lemma_burn_total_update(m: Map<u64, BurnRequest>, k: u64, r: BurnRequest, n: nat)
    requires
        k < n,
        n <= u64::MAX + 1,
    ensures
        completed_burn_total(m.insert(k, r), n) == completed_burn_total(m, n)
            - burn_contribution(m, k) + (if r.status is Completed {
            r.amount as int
        } else {
            0
        }),
    decreases n,
{
    let m2 = m.insert(k, r);
    if k == n - 1 {
        lemma_burn_total_congruent(m2, m, (n - 1) as nat);
    } else {
        lemma_burn_total_update(m, k, r, (n - 1) as nat);
    }
}

/// Appending a request under the next free id extends the sum by its
/// contribution.
proof fn lemma_burn_total_extend(m: Map<u64, BurnRequest>, n: nat, r: BurnRequest)
    requires
        n < u64::MAX,
    ensures
        completed_burn_total(m.insert(n as u64, r), n + 1) == completed_burn_total(m, n) + (
        if r.status is Completed {
            r.amount as int
        } else {
            0
        }),
{
    let m2 = m.insert(n as u64, r);
    lemma_burn_total_congruent(m2, m, n);
}

/// The error `request_mint` reports, or `None` when it succeeds: a
/// signed, KYC-verified account may request any positive amount while
/// the system is unpaused.
pub open spec fn request_mint_err(s: State, origin: Origin, amount: u64) -> Option<OpError> {
    if !origin.is_signed() {
        Some(OpError::Unauthorized)
    } else if s.paused {
        Some(OpError::SystemPaused)
    } else if amount == 0 {
        Some(OpError::InvalidAmount)
    } else if !crate::kyc::spec_is_verified(s.kyc, origin.signer()) {
        Some(OpError::KycNotVerified)
    } else if s.next_mint_id == u64::MAX {
        Some(OpError::Overflow)
    } else {
        None
    }
}

/// The effect of a successful `request_mint`: a pending request under
/// the next id; no balance moves yet.
pub open spec fn request_mint_ok(
    pre: State,
    post: State,
    who: u64,
    amount: u64,
    now: u64,
    events: Seq<Event>,
) -> bool {
    let id = pre.next_mint_id;
    &&& post.mint_requests@ == pre.mint_requests@.insert(
        id,
        (MintRequest {
            requester: who,
            amount,
            status: MintRequestStatus::Pending,
            created_at: now,
            processed_at: None,
        }),
    )
    &&& post.next_mint_id == id + 1
    &&& post.burn_requests@ == pre.burn_requests@
    &&& post.next_burn_id == pre.next_burn_id
    &&& non_workflow_unchanged(pre, post)
    &&& settings_unchanged(pre, post)
    &&& events == seq![Event::MintRequested { request_id: id, requester: who, amount }]
}

/// The error `approve_mint` reports, or `None` when it succeeds: the
/// mint authority completes a pending request while unpaused, provided
/// neither the requester's balance nor the supply overflows.
pub open spec fn approve_mint_err(s: State, origin: Origin, request_id: u64) -> Option<OpError> {
    if !origin.is_signed() {
        Some(OpError::Unauthorized)
    } else if s.mint_authority is None {
        Some(OpError::NoMintAuthority)
    } else if s.mint_authority != Some(origin.signer()) {
        Some(OpError::NotMintAuthority)
    } else if s.paused {
        Some(OpError::SystemPaused)
    } else if !s.mint_requests@.contains_key(request_id) {
        Some(OpError::MintRequestNotFound)
    } else if !(s.mint_requests@[request_id].status is Pending) {
        Some(OpError::InvalidMintRequestStatus)
    } else if s.ledger.spec_free(s.mint_requests@[request_id].requester)
        + s.mint_requests@[request_id].amount > u64::MAX {
        Some(OpError::Overflow)
    } else if s.ledger.total_supply + s.mint_requests@[request_id].amount > u64::MAX {
        Some(OpError::Overflow)
    } else {
        None
    }
}

/// The effect of a successful `approve_mint`: the requester is credited,
/// the supply grows by exactly the requested amount, and the request is
/// completed and timestamped.
pub open spec fn approve_mint_ok(
    pre: State,
    post: State,
    request_id: u64,
    now: u64,
    events: Seq<Event>,
) -> bool {
    let req = pre.mint_requests@[request_id];
    &&& pre.mint_requests@.contains_key(request_id)
    &&& pre.ledger.spec_free(req.requester) + req.amount <= u64::MAX
    &&& pre.ledger.total_supply + req.amount <= u64::MAX
    &&& post.mint_requests@ == pre.mint_requests@.insert(
        request_id,
        (MintRequest {
            status: MintRequestStatus::Completed,
            processed_at: Some(now),
            ..req
        }),
    )
    &&& post.next_mint_id == pre.next_mint_id
    &&& post.burn_requests@ == pre.burn_requests@
    &&& post.next_burn_id == pre.next_burn_id
    &&& post.ledger.balances@ == pre.ledger.balances@.insert(
        req.requester,
        (crate::ledger::BalanceRecord {
            free: (pre.ledger.spec_free(req.requester) + req.amount) as u64,
            reserved: pre.ledger.spec_reserved(req.requester),
        }),
    )
    &&& post.ledger.total_supply == pre.ledger.total_supply + req.amount
    &&& post.kyc.records@ == pre.kyc.records@
    &&& post.kyc.verifier == pre.kyc.verifier
    &&& post.compliance == pre.compliance
    &&& settings_unchanged(pre, post)
    &&& events == seq![
        Event::MintApproved { request_id, requester: req.requester, amount: req.amount },
    ]
}

/// The error `reject_mint` reports, or `None` when it succeeds: the
/// mint authority rejects a pending request; deliberately possible
/// while the system is paused.
pub open spec fn reject_mint_err(s: State, origin: Origin, request_id: u64) -> Option<OpError> {
    if !origin.is_signed() {
        Some(OpError::Unauthorized)
    } else if s.mint_authority is None {
        Some(OpError::NoMintAuthority)
    } else if s.mint_authority != Some(origin.signer()) {
        Some(OpError::NotMintAuthority)
    } else if !s.mint_requests@.contains_key(request_id) {
        Some(OpError::MintRequestNotFound)
    } else if !(s.mint_requests@[request_id].status is Pending) {
        Some(OpError::InvalidMintRequestStatus)
    } else {
        None
    }
}

/// The effect of a successful `reject_mint`: the request is rejected
/// and timestamped; no balance or supply change.
pub open spec fn reject_mint_ok(
    pre: State,
    post: State,
    request_id: u64,
    now: u64,
    events: Seq<Event>,
) -> bool {
    let req = pre.mint_requests@[request_id];
    &&& post.mint_requests@ == pre.mint_requests@.insert(
        request_id,
        (MintRequest {
            status: MintRequestStatus::Rejected,
            processed_at: Some(now),
            ..req
        }),
    )
    &&& post.next_mint_id == pre.next_mint_id
    &&& post.burn_requests@ == pre.burn_requests@
    &&& post.next_burn_id == pre.next_burn_id
    &&& non_workflow_unchanged(pre, post)
    &&& settings_unchanged(pre, post)
    &&& events == seq![Event::MintRejected { request_id, requester: req.requester }]
}

/// The error `request_burn` reports, or `None` when it succeeds: a
/// signed, KYC-verified account may ask to burn any positive amount its
/// free balance covers, while the system is unpaused.
pub open spec fn request_burn_err(s: State, origin: Origin, amount: u64) -> Option<OpError> {
    if !origin.is_signed() {
        Some(OpError::Unauthorized)
    } else if s.paused {
        Some(OpError::SystemPaused)
    } else if amount == 0 {
        Some(OpError::InvalidAmount)
    } else if !crate::kyc::spec_is_verified(s.kyc, origin.signer()) {
        Some(OpError::KycNotVerified)
    } else if s.ledger.spec_free(origin.signer()) < amount {
        Some(OpError::InsufficientBalance)
    } else if s.ledger.spec_reserved(origin.signer()) + amount > u64::MAX {
        Some(OpError::Overflow)
    } else if s.next_burn_id == u64::MAX {
        Some(OpError::Overflow)
    } else {
        None
    }
}

/// The effect of a successful `request_burn`: the amount moves from the
/// requester's free to reserved balance, atomically with the creation
/// of the request in the reserved status.
pub open spec fn request_burn_ok(
    pre: State,
    post: State,
    who: u64,
    amount: u64,
    now: u64,
    events: Seq<Event>,
) -> bool {
    let id = pre.next_burn_id;
    &&& pre.ledger.spec_free(who) >= amount
    &&& pre.ledger.spec_reserved(who) + amount <= u64::MAX
    &&& post.burn_requests@ == pre.burn_requests@.insert(
        id,
        (BurnRequest {
            requester: who,
            amount,
            status: BurnRequestStatus::Reserved,
            created_at: now,
            processed_at: None,
        }),
    )
    &&& post.next_burn_id == id + 1
    &&& post.mint_requests@ == pre.mint_requests@
    &&& post.next_mint_id == pre.next_mint_id
    &&& post.ledger.balances@ == pre.ledger.balances@.insert(
        who,
        (crate::ledger::BalanceRecord {
            free: (pre.ledger.spec_free(who) - amount) as u64,
            reserved: (pre.ledger.spec_reserved(who) + amount) as u64,
        }),
    )
    &&& post.ledger.total_supply == pre.ledger.total_supply
    &&& post.kyc.records@ == pre.kyc.records@
    &&& post.kyc.verifier == pre.kyc.verifier
    &&& post.compliance == pre.compliance
    &&& settings_unchanged(pre, post)
    &&& events == seq![Event::BurnReserved { request_id: id, requester: who, amount }]
}

/// The error `approve_burn` reports, or `None` when it succeeds: the
/// burn authority completes a reserved request while unpaused; the
/// requester's reserved balance must cover the full amount — a burn is
/// never partial — and the supply must cover the subtraction.
pub open spec fn approve_burn_err(s: State, origin: Origin, request_id: u64) -> Option<OpError> {
    if !origin.is_signed() {
        Some(OpError::Unauthorized)
    } else if s.burn_authority is None {
        Some(OpError::NoBurnAuthority)
    } else if s.burn_authority != Some(origin.signer()) {
        Some(OpError::NotBurnAuthority)
    } else if s.paused {
        Some(OpError::SystemPaused)
    } else if !s.burn_requests@.contains_key(request_id) {
        Some(OpError::BurnRequestNotFound)
    } else if !(s.burn_requests@[request_id].status is Reserved) {
        Some(OpError::InvalidBurnRequestStatus)
    } else if s.ledger.spec_reserved(s.burn_requests@[request_id].requester)
        < s.burn_requests@[request_id].amount {
        Some(OpError::InsufficientReservedBalance)
    } else if s.ledger.total_supply < s.burn_requests@[request_id].amount {
        Some(OpError::Overflow)
    } else {
        None
    }
}

/// The effect of a successful `approve_burn`: exactly the requested
/// amount leaves the requester's reserved balance and the supply, and
/// the request is completed and timestamped.
pub open spec fn approve_burn_ok(
    pre: State,
    post: State,
    request_id: u64,
    now: u64,
    events: Seq<Event>,
) -> bool {
    let req = pre.burn_requests@[request_id];
    &&& pre.burn_requests@.contains_key(request_id)
    &&& pre.ledger.spec_reserved(req.requester) >= req.amount
    &&& pre.ledger.total_supply >= req.amount
    &&& post.burn_requests@ == pre.burn_requests@.insert(
        request_id,
        (BurnRequest {
            status: BurnRequestStatus::Completed,
            processed_at: Some(now),
            ..req
        }),
    )
    &&& post.next_burn_id == pre.next_burn_id
    &&& post.mint_requests@ == pre.mint_requests@
    &&& post.next_mint_id == pre.next_mint_id
    &&& post.ledger.balances@ == pre.ledger.balances@.insert(
        req.requester,
        (crate::ledger::BalanceRecord {
            free: pre.ledger.spec_free(req.requester),
            reserved: (pre.ledger.spec_reserved(req.requester) - req.amount) as u64,
        }),
    )
    &&& post.ledger.total_supply == pre.ledger.total_supply - req.amount
    &&& post.kyc.records@ == pre.kyc.records@
    &&& post.kyc.verifier == pre.kyc.verifier
    &&& post.compliance == pre.compliance
    &&& settings_unchanged(pre, post)
    &&& events == seq![
        Event::BurnApproved { request_id, requester: req.requester, amount: req.amount },
    ]
}

/// The error `reject_burn` reports, or `None` when it succeeds: the
/// burn authority rejects a reserved request; deliberately possible
/// while the system is paused.
pub open spec fn reject_burn_err(s: State, origin: Origin, request_id: u64) -> Option<OpError> {
    if !origin.is_signed() {
        Some(OpError::Unauthorized)
    } else if s.burn_authority is None {
        Some(OpError::NoBurnAuthority)
    } else if s.burn_authority != Some(origin.signer()) {
        Some(OpError::NotBurnAuthority)
    } else if !s.burn_requests@.contains_key(request_id) {
        Some(OpError::BurnRequestNotFound)
    } else if !(s.burn_requests@[request_id].status is Reserved) {
        Some(OpError::InvalidBurnRequestStatus)
    } else if s.ledger.spec_reserved(s.burn_requests@[request_id].requester)
        < s.burn_requests@[request_id].amount {
        Some(OpError::InsufficientReservedBalance)
    } else if s.ledger.spec_free(s.burn_requests@[request_id].requester)
        + s.burn_requests@[request_id].amount > u64::MAX {
        Some(OpError::Overflow)
    } else {
        None
    }
}

/// The effect of a successful `reject_burn`: the reserved amount
/// returns to the requester's free balance, the supply is untouched,
/// and the request is rejected and timestamped.
pub open spec fn reject_burn_ok(
    pre: State,
    post: State,
    request_id: u64,
    now: u64,
    events: Seq<Event>,
) -> bool {
    let req = pre.burn_requests@[request_id];
    &&& pre.burn_requests@.contains_key(request_id)
    &&& pre.ledger.spec_reserved(req.requester) >= req.amount
    &&& pre.ledger.spec_free(req.requester) + req.amount <= u64::MAX
    &&& post.burn_requests@ == pre.burn_requests@.insert(
        request_id,
        (BurnRequest {
            status: BurnRequestStatus::Rejected,
            processed_at: Some(now),
            ..req
        }),
    )
    &&& post.next_burn_id == pre.next_burn_id
    &&& post.mint_requests@ == pre.mint_requests@
    &&& post.next_mint_id == pre.next_mint_id
    &&& post.ledger.balances@ == pre.ledger.balances@.insert(
        req.requester,
        (crate::ledger::BalanceRecord {
            free: (pre.ledger.spec_free(req.requester) + req.amount) as u64,
            reserved: (pre.ledger.spec_reserved(req.requester) - req.amount) as u64,
        }),
    )
    &&& post.ledger.total_supply == pre.ledger.total_supply
    &&& post.kyc.records@ == pre.kyc.records@
    &&& post.kyc.verifier == pre.kyc.verifier
    &&& post.compliance == pre.compliance
    &&& settings_unchanged(pre, post)
    &&& events == seq![Event::BurnRejected { request_id, requester: req.requester }]
}

/// The transfer fee owed on `amount` at a rate of `fee_bps` basis
/// points: the floor of `amount * fee_bps / 10000`, in exact integer
/// arithmetic.
pub open spec fn fee_of(amount: u64, fee_bps: u32) -> int {
    (amount * fee_bps) / 10000
}

/// The account that collects transfer fees: the configured mint
/// authority.  Meaningful only while one is configured.
pub open spec fn fee_collector(s: State) -> u64 {
    match s.mint_authority {
        Some(a) => a,
        None => 0,
    }
}

/// The informational events a compliance check of `amount` for
/// `account` emits: one report when the amount reaches the suspicious
/// threshold, none otherwise.
pub open spec fn suspicious_events(account: u64, amount: u64, cfg: Config) -> Seq<Event> {
    if amount >= cfg.suspicious_threshold {
        seq![Event::SuspiciousActivityDetected { account, amount }]
    } else {
        Seq::<Event>::empty()
    }
}

/// The error `transfer` reports, or `None` when it succeeds: a signed,
/// unpaused, positive, non-self transfer between two KYC-verified
/// accounts, within both parties' compliance budgets, the fee
/// representable, and every balance write within the domain.
pub open spec fn transfer_err(
    s: State,
    origin: Origin,
    dest: u64,
    amount: u64,
    height: u64,
    cfg: Config,
) -> Option<OpError> {
    let sender = origin.signer();
    let fee = fee_of(amount, s.fee_bps);
    if !origin.is_signed() {
        Some(OpError::Unauthorized)
    } else if s.paused {
        Some(OpError::SystemPaused)
    } else if amount == 0 {
        Some(OpError::InvalidAmount)
    } else if sender == dest {
        Some(OpError::InvalidAmount)
    } else if !crate::kyc::spec_is_verified(s.kyc, sender) {
        Some(OpError::KycNotVerified)
    } else if !crate::kyc::spec_is_verified(s.kyc, dest) {
        Some(OpError::KycNotVerified)
    } else if check_err(s.compliance, sender, amount, height, cfg) is Some {
        Some(OpError::ComplianceCheckFailed)
    } else if check_err(s.compliance, dest, amount, height, cfg) is Some {
        Some(OpError::ComplianceCheckFailed)
    } else if fee > u64::MAX {
        Some(OpError::FeeCalculationFailed)
    } else if amount + fee > u64::MAX {
        Some(OpError::Overflow)
    } else if s.ledger.spec_free(sender) < amount + fee {
        Some(OpError::InsufficientBalance)
    } else if s.ledger.spec_free(dest) + amount > u64::MAX {
        Some(OpError::Overflow)
    } else if fee > 0 && s.mint_authority is None {
        Some(OpError::NoMintAuthority)
    } else if fee > 0 && s.mint_authority == Some(dest) && s.ledger.spec_free(dest) + amount
        + fee > u64::MAX {
        Some(OpError::Overflow)
    } else if fee > 0 && s.mint_authority != Some(sender) && s.mint_authority != Some(dest)
        && s.ledger.spec_free(fee_collector(s)) + fee > u64::MAX {
        Some(OpError::Overflow)
    } else {
        None
    }
}

/// The effect of a successful `transfer`: the amount moves from sender
/// to destination, the fee from sender to the fee collector, both
/// parties' volume budgets are charged, and nothing else changes.
pub open spec fn transfer_ok(
    pre: State,
    post: State,
    sender: u64,
    dest: u64,
    amount: u64,
    height: u64,
    cfg: Config,
    events: Seq<Event>,
) -> bool {
    let fee = fee_of(amount, pre.fee_bps);
    let period = ((height / cfg.blocks_per_period) as u64);
    &&& forall|a: u64| #![trigger post.ledger.spec_free(a)]
        post.ledger.spec_free(a) as int == pre.ledger.spec_free(a) - (if a == sender {
            amount + fee
        } else {
            0
        }) + (if a == dest {
            amount as int
        } else {
            0
        }) + (if fee > 0 && pre.mint_authority == Some(a) {
            fee
        } else {
            0
        })
    &&& forall|a: u64| #![trigger post.ledger.spec_reserved(a)]
        post.ledger.spec_reserved(a) == pre.ledger.spec_reserved(a)
    &&& post.ledger.total_supply == pre.ledger.total_supply
    &&& post.kyc.records@ == pre.kyc.records@
    &&& post.kyc.verifier == pre.kyc.verifier
    &&& post.compliance.volume@ == pre.compliance.volume@.insert(
        (sender, period),
        sat_add(spec_volume(pre.compliance, sender, period), amount),
    ).insert((dest, period), sat_add(spec_volume(pre.compliance, dest, period), amount))
    &&& post.compliance.officer == pre.compliance.officer
    &&& post.compliance.flagged@ == pre.compliance.flagged@
    &&& post.compliance.alerts@ == pre.compliance.alerts@
    &&& post.compliance.next_alert_id == pre.compliance.next_alert_id
    &&& workflows_unchanged(pre, post)
    &&& settings_unchanged(pre, post)
    &&& events == suspicious_events(sender, amount, cfg) + suspicious_events(dest, amount, cfg)
        + seq![Event::Transfer { from: sender, to: dest, amount, fee: fee as u64 }]
}

/// The product of a balance and a rate stays within what a `u128`
/// holds; relied on before every exact fee computation.
proof fn lemma_fee_product_bounded(amount: u64, bps: u32)
    ensures
        (amount as int) * (bps as int) <= (u64::MAX as int) * (u32::MAX as int),
        (amount as int) * (bps as int) >= 0,
{
    lemma_mul_inequality(amount as int, u64::MAX as int, bps as int);
    lemma_mul_is_commutative(u64::MAX as int, bps as int);
    lemma_mul_inequality(bps as int, u32::MAX as int, u64::MAX as int);
    lemma_mul_is_commutative(u32::MAX as int, u64::MAX as int);
    lemma_mul_inequality(0, amount as int, bps as int);
}

/// True when everything outside the workflow tables and global settings
/// is as it was: balances, supply, KYC and compliance untouched.
pub open spec fn non_workflow_unchanged(pre: State, post: State) -> bool {
    &&& post.ledger.balances@ == pre.ledger.balances@
    &&& post.ledger.total_supply == pre.ledger.total_supply
    &&& post.kyc.records@ == pre.kyc.records@
    &&& post.kyc.verifier == pre.kyc.verifier
    &&& post.compliance == pre.compliance
}

/// True when the mint and burn workflow tables and counters are as they
/// were.
pub open spec fn workflows_unchanged(pre: State, post: State) -> bool {
    &&& post.mint_requests@ == pre.mint_requests@
    &&& post.next_mint_id == pre.next_mint_id
    &&& post.burn_requests@ == pre.burn_requests@
    &&& post.next_burn_id == pre.next_burn_id
}

/// True when the global settings are as they were.
pub open spec fn settings_unchanged(pre: State, post: State) -> bool {
    &&& post.mint_authority == pre.mint_authority
    &&& post.burn_authority == pre.burn_authority
    &&& post.paused == pre.paused
    &&& post.fee_bps == pre.fee_bps
}

impl State {
    /// The pristine state: empty ledger, registries and workflows, no
    /// role holders, unpaused, zero fee.
    pub fn new() -> (r: State)
        ensures
            state_wf(r),
            r.ledger.balances@ == Map::<u64, crate::ledger::BalanceRecord>::empty(),
            r.ledger.total_supply == 0,
            r.kyc.records@ == Map::<u64, crate::kyc::KycRecord>::empty(),
            r.kyc.verifier is None,
            r.compliance.officer is None,
            r.compliance.flagged@ == Map::<u64, bool>::empty(),
            r.compliance.volume@ == Map::<(u64, u64), u64>::empty(),
            r.compliance.alerts@ == Map::<u64, crate::compliance::Alert>::empty(),
            r.compliance.next_alert_id == 0,
            r.mint_requests@ == Map::<u64, MintRequest>::empty(),
            r.next_mint_id == 0,
            r.burn_requests@ == Map::<u64, BurnRequest>::empty(),
            r.next_burn_id == 0,
            r.mint_authority is None,
            r.burn_authority is None,
            !r.paused,
            r.fee_bps == 0,
    {
        State {
            ledger: Ledger::new(),
            kyc: KycRegistry::new(),
            compliance: Compliance::new(),
            mint_requests: HashMap::new(),
            next_mint_id: 0,
            burn_requests: HashMap::new(),
            next_burn_id: 0,
            mint_authority: None,
            burn_authority: None,
            paused: false,
            fee_bps: 0,
        }
    }

    /// Configures the account allowed to approve and reject mint
    /// requests; the same account also receives transfer fees.
    /// Superuser only.
    pub fn set_mint_authority(&mut self, origin: Origin, authority: u64) -> (r: Result<
        Vec<Event>,
        OpError,
    >)
        requires
            state_wf(*old(self)),
        ensures
            state_wf(*final(self)),
            match r {
                Ok(events) => {
                    &&& origin is Root
                    &&& final(self).mint_authority == Some(authority)
                    &&& final(self).burn_authority == old(self).burn_authority
                    &&& final(self).paused == old(self).paused
                    &&& final(self).fee_bps == old(self).fee_bps
                    &&& non_workflow_unchanged(*old(self), *final(self))
                    &&& workflows_unchanged(*old(self), *final(self))
                    &&& events@ == seq![Event::MintAuthoritySet { authority }]
                },
                Err(e) => {
                    &&& !(origin is Root) && e == OpError::Unauthorized
                    &&& *final(self) == *old(self)
                },
            },
    {
        match origin {
            Origin::Root => {
                self.mint_authority = Some(authority);
                let events = vec![Event::MintAuthoritySet { authority }];
                assert(events@ =~= seq![Event::MintAuthoritySet { authority }]);
                Ok(events)
            },
            Origin::Signed(_) => Err(OpError::Unauthorized),
        }
    }

    /// Configures the account allowed to approve and reject burn
    /// requests.  Superuser only.
    pub fn set_burn_authority(&mut self, origin: Origin, authority: u64) -> (r: Result<
        Vec<Event>,
        OpError,
    >)
        requires
            state_wf(*old(self)),
        ensures
            state_wf(*final(self)),
            match r {
                Ok(events) => {
                    &&& origin is Root
                    &&& final(self).burn_authority == Some(authority)
                    &&& final(self).mint_authority == old(self).mint_authority
                    &&& final(self).paused == old(self).paused
                    &&& final(self).fee_bps == old(self).fee_bps
                    &&& non_workflow_unchanged(*old(self), *final(self))
                    &&& workflows_unchanged(*old(self), *final(self))
                    &&& events@ == seq![Event::BurnAuthoritySet { authority }]
                },
                Err(e) => {
                    &&& !(origin is Root) && e == OpError::Unauthorized
                    &&& *final(self) == *old(self)
                },
            },
    {
        match origin {
            Origin::Root => {
                self.burn_authority = Some(authority);
                let events = vec![Event::BurnAuthoritySet { authority }];
                assert(events@ =~= seq![Event::BurnAuthoritySet { authority }]);
                Ok(events)
            },
            Origin::Signed(_) => Err(OpError::Unauthorized),
        }
    }

    /// Sets the transfer fee rate in basis points, bounded by the
    /// configured maximum.  Superuser only.
    pub fn set_transaction_fee(&mut self, origin: Origin, fee_bps: u32, cfg: &Config) -> (r:
        Result<Vec<Event>, OpError>)
        requires
            state_wf(*old(self)),
        ensures
            state_wf(*final(self)),
            match r {
                Ok(events) => {
                    &&& origin is Root
                    &&& fee_bps <= cfg.max_fee_bps
                    &&& final(self).fee_bps == fee_bps
                    &&& final(self).mint_authority == old(self).mint_authority
                    &&& final(self).burn_authority == old(self).burn_authority
                    &&& final(self).paused == old(self).paused
                    &&& non_workflow_unchanged(*old(self), *final(self))
                    &&& workflows_unchanged(*old(self), *final(self))
                    &&& events@ == seq![Event::TransactionFeeSet { fee_bps }]
                },
                Err(e) => {
                    &&& *final(self) == *old(self)
                    &&& if !(origin is Root) {
                        e == OpError::Unauthorized
                    } else {
                        e == OpError::Overflow && fee_bps > cfg.max_fee_bps
                    }
                },
            },
    {
        match origin {
            Origin::Root => {
                if fee_bps > cfg.max_fee_bps {
                    return Err(OpError::Overflow);
                }
                self.fee_bps = fee_bps;
                let events = vec![Event::TransactionFeeSet { fee_bps }];
                assert(events@ =~= seq![Event::TransactionFeeSet { fee_bps }]);
                Ok(events)
            },
            Origin::Signed(_) => Err(OpError::Unauthorized),
        }
    }

    /// Suspends request creation, approvals and transfers.  Superuser
    /// only; rejections stay possible while paused.
    pub fn pause(&mut self, origin: Origin) -> (r: Result<Vec<Event>, OpError>)
        requires
            state_wf(*old(self)),
        ensures
            state_wf(*final(self)),
            match r {
                Ok(events) => {
                    &&& origin is Root
                    &&& final(self).paused
                    &&& final(self).mint_authority == old(self).mint_authority
                    &&& final(self).burn_authority == old(self).burn_authority
                    &&& final(self).fee_bps == old(self).fee_bps
                    &&& non_workflow_unchanged(*old(self), *final(self))
                    &&& workflows_unchanged(*old(self), *final(self))
                    &&& events@ == seq![Event::SystemPaused]
                },
                Err(e) => {
                    &&& !(origin is Root) && e == OpError::Unauthorized
                    &&& *final(self) == *old(self)
                },
            },
    {
        match origin {
            Origin::Root => {
                self.paused = true;
                let events = vec![Event::SystemPaused];
                assert(events@ =~= seq![Event::SystemPaused]);
                Ok(events)
            },
            Origin::Signed(_) => Err(OpError::Unauthorized),
        }
    }

    /// Lifts the suspension.  Superuser only.
    pub fn unpause(&mut self, origin: Origin) -> (r: Result<Vec<Event>, OpError>)
        requires
            state_wf(*old(self)),
        ensures
            state_wf(*final(self)),
            match r {
                Ok(events) => {
                    &&& origin is Root
                    &&& !final(self).paused
                    &&& final(self).mint_authority == old(self).mint_authority
                    &&& final(self).burn_authority == old(self).burn_authority
                    &&& final(self).fee_bps == old(self).fee_bps
                    &&& non_workflow_unchanged(*old(self), *final(self))
                    &&& workflows_unchanged(*old(self), *final(self))
                    &&& events@ == seq![Event::SystemUnpaused]
                },
                Err(e) => {
                    &&& !(origin is Root) && e == OpError::Unauthorized
                    &&& *final(self) == *old(self)
                },
            },
    {
        match origin {
            Origin::Root => {
                self.paused = false;
                let events = vec![Event::SystemUnpaused];
                assert(events@ =~= seq![Event::SystemUnpaused]);
                Ok(events)
            },
            Origin::Signed(_) => Err(OpError::Unauthorized),
        }
    }

    /// Creates a pending mint request for the calling account and
    /// returns its id through the emitted event.  Requires an unpaused
    /// system, a positive amount and a KYC-verified caller.
    pub fn request_mint(&mut self, origin: Origin, amount: u64, now: u64) -> (r: Result<
        Vec<Event>,
        OpError,
    >)
        requires
            state_wf(*old(self)),
        ensures
            state_wf(*final(self)),
            match r {
                Ok(events) => {
                    &&& request_mint_err(*old(self), origin, amount) is None
                    &&& request_mint_ok(
                        *old(self),
                        *final(self),
                        origin.signer(),
                        amount,
                        now,
                        events@,
                    )
                },
                Err(e) => {
                    &&& request_mint_err(*old(self), origin, amount) == Some(e)
                    &&& *final(self) == *old(self)
                },
            },
    {
        let who = match origin {
            Origin::Signed(a) => a,
            Origin::Root => {
                return Err(OpError::Unauthorized);
            },
        };
        if self.paused {
            return Err(OpError::SystemPaused);
        }
        if amount == 0 {
            return Err(OpError::InvalidAmount);
        }
        if !self.kyc.is_verified(who) {
            return Err(OpError::KycNotVerified);
        }
        if self.next_mint_id == u64::MAX {
            return Err(OpError::Overflow);
        }
        let request_id = self.next_mint_id;
        let request = MintRequest {
            requester: who,
            amount,
            status: MintRequestStatus::Pending,
            created_at: now,
            processed_at: None,
        };
        self.mint_requests.insert(request_id, request);
        self.next_mint_id = request_id + 1;
        proof {
            lemma_mint_total_extend(
                old(self).mint_requests@,
                old(self).next_mint_id as nat,
                request,
            );
        }
        let events = vec![Event::MintRequested { request_id, requester: who, amount }];
        assert(events@ =~= seq![Event::MintRequested { request_id, requester: who, amount }]);
        Ok(events)
    }

    /// Completes a pending mint request: credits the requester, grows
    /// the supply by exactly the requested amount, and marks the request
    /// completed.  Mint authority only, while unpaused.
    pub fn approve_mint(&mut self, origin: Origin, request_id: u64, now: u64) -> (r: Result<
        Vec<Event>,
        OpError,
    >)
        requires
            state_wf(*old(self)),
        ensures
            state_wf(*final(self)),
            match r {
                Ok(events) => {
                    &&& approve_mint_err(*old(self), origin, request_id) is None
                    &&& approve_mint_ok(*old(self), *final(self), request_id, now, events@)
                },
                Err(e) => {
                    &&& approve_mint_err(*old(self), origin, request_id) == Some(e)
                    &&& *final(self) == *old(self)
                },
            },
    {
        let who = match origin {
            Origin::Signed(a) => a,
            Origin::Root => {
                return Err(OpError::Unauthorized);
            },
        };
        let authority = match self.mint_authority {
            Some(a) => a,
            None => {
                return Err(OpError::NoMintAuthority);
            },
        };
        if who != authority {
            return Err(OpError::NotMintAuthority);
        }
        if self.paused {
            return Err(OpError::SystemPaused);
        }
        let req = match self.mint_requests.get(&request_id) {
            Some(r) => *r,
            None => {
                return Err(OpError::MintRequestNotFound);
            },
        };
        if !matches!(req.status, MintRequestStatus::Pending) {
            return Err(OpError::InvalidMintRequestStatus);
        }
        let rec = self.ledger.record_of(req.requester);
        if req.amount > u64::MAX - rec.free {
            return Err(OpError::Overflow);
        }
        if req.amount > u64::MAX - self.ledger.total_supply {
            return Err(OpError::Overflow);
        }
        match self.ledger.credit(req.requester, req.amount) {
            Ok(_) => {},
            Err(_) => {
                proof {
                    assert(false);
                }
                return Err(OpError::Overflow);
            },
        }
        self.ledger.total_supply = self.ledger.total_supply + req.amount;
        let updated = MintRequest {
            status: MintRequestStatus::Completed,
            processed_at: Some(now),
            ..req
        };
        self.mint_requests.insert(request_id, updated);
        proof {
            lemma_mint_total_update(
                old(self).mint_requests@,
                request_id,
                updated,
                old(self).next_mint_id as nat,
            );
        }
        let events = vec![
            Event::MintApproved { request_id, requester: req.requester, amount: req.amount },
        ];
        assert(events@ =~= seq![
            Event::MintApproved { request_id, requester: req.requester, amount: req.amount },
        ]);
        Ok(events)
    }

    /// Rejects a pending mint request; no balance or supply change.
    /// Mint authority only.  Deliberately possible while paused, so a
    /// stale queue can still be cleaned up.
    pub fn reject_mint(&mut self, origin: Origin, request_id: u64, now: u64) -> (r: Result<
        Vec<Event>,
        OpError,
    >)
        requires
            state_wf(*old(self)),
        ensures
            state_wf(*final(self)),
            match r {
                Ok(events) => {
                    &&& reject_mint_err(*old(self), origin, request_id) is None
                    &&& reject_mint_ok(*old(self), *final(self), request_id, now, events@)
                },
                Err(e) => {
                    &&& reject_mint_err(*old(self), origin, request_id) == Some(e)
                    &&& *final(self) == *old(self)
                },
            },
    {
        let who = match origin {
            Origin::Signed(a) => a,
            Origin::Root => {
                return Err(OpError::Unauthorized);
            },
        };
        let authority = match self.mint_authority {
            Some(a) => a,
            None => {
                return Err(OpError::NoMintAuthority);
            },
        };
        if who != authority {
            return Err(OpError::NotMintAuthority);
        }
        let req = match self.mint_requests.get(&request_id) {
            Some(r) => *r,
            None => {
                return Err(OpError::MintRequestNotFound);
            },
        };
        if !matches!(req.status, MintRequestStatus::Pending) {
            return Err(OpError::InvalidMintRequestStatus);
        }
        let updated = MintRequest {
            status: MintRequestStatus::Rejected,
            processed_at: Some(now),
            ..req
        };
        self.mint_requests.insert(request_id, updated);
        proof {
            lemma_mint_total_update(
                old(self).mint_requests@,
                request_id,
                updated,
                old(self).next_mint_id as nat,
            );
        }
        let events = vec![Event::MintRejected { request_id, requester: req.requester }];
        assert(events@ =~= seq![Event::MintRejected { request_id, requester: req.requester }]);
        Ok(events)
    }

    /// Creates a burn request for the calling account, atomically
    /// moving the amount from its free to its reserved balance.
    /// Requires an unpaused system, a positive amount, a KYC-verified
    /// caller and a covering free balance.
    pub fn request_burn(&mut self, origin: Origin, amount: u64, now: u64) -> (r: Result<
        Vec<Event>,
        OpError,
    >)
        requires
            state_wf(*old(self)),
        ensures
            state_wf(*final(self)),
            match r {
                Ok(events) => {
                    &&& request_burn_err(*old(self), origin, amount) is None
                    &&& request_burn_ok(
                        *old(self),
                        *final(self),
                        origin.signer(),
                        amount,
                        now,
                        events@,
                    )
                },
                Err(e) => {
                    &&& request_burn_err(*old(self), origin, amount) == Some(e)
                    &&& *final(self) == *old(self)
                },
            },
    {
        let who = match origin {
            Origin::Signed(a) => a,
            Origin::Root => {
                return Err(OpError::Unauthorized);
            },
        };
        if self.paused {
            return Err(OpError::SystemPaused);
        }
        if amount == 0 {
            return Err(OpError::InvalidAmount);
        }
        if !self.kyc.is_verified(who) {
            return Err(OpError::KycNotVerified);
        }
        let rec = self.ledger.record_of(who);
        if rec.free < amount {
            return Err(OpError::InsufficientBalance);
        }
        if amount > u64::MAX - rec.reserved {
            return Err(OpError::Overflow);
        }
        if self.next_burn_id == u64::MAX {
            return Err(OpError::Overflow);
        }
        match self.ledger.reserve(who, amount) {
            Ok(_) => {},
            Err(_) => {
                proof {
                    assert(false);
                }
                return Err(OpError::Overflow);
            },
        }
        let request_id = self.next_burn_id;
        let request = BurnRequest {
            requester: who,
            amount,
            status: BurnRequestStatus::Reserved,
            created_at: now,
            processed_at: None,
        };
        self.burn_requests.insert(request_id, request);
        self.next_burn_id = request_id + 1;
        proof {
            lemma_burn_total_extend(
                old(self).burn_requests@,
                old(self).next_burn_id as nat,
                request,
            );
        }
        let events = vec![Event::BurnReserved { request_id, requester: who, amount }];
        assert(events@ =~= seq![Event::BurnReserved { request_id, requester: who, amount }]);
        Ok(events)
    }

    /// Completes a reserved burn request: destroys exactly the requested
    /// amount of the requester's reserved funds and shrinks the supply
    /// by the same amount — or fails with no change at all.  Burn
    /// authority only, while unpaused.
    pub fn approve_burn(&mut self, origin: Origin, request_id: u64, now: u64) -> (r: Result<
        Vec<Event>,
        OpError,
    >)
        requires
            state_wf(*old(self)),
        ensures
            state_wf(*final(self)),
            match r {
                Ok(events) => {
                    &&& approve_burn_err(*old(self), origin, request_id) is None
                    &&& approve_burn_ok(*old(self), *final(self), request_id, now, events@)
                },
                Err(e) => {
                    &&& approve_burn_err(*old(self), origin, request_id) == Some(e)
                    &&& *final(self) == *old(self)
                },
            },
    {
        let who = match origin {
            Origin::Signed(a) => a,
            Origin::Root => {
                return Err(OpError::Unauthorized);
            },
        };
        let authority = match self.burn_authority {
            Some(a) => a,
            None => {
                return Err(OpError::NoBurnAuthority);
            },
        };
        if who != authority {
            return Err(OpError::NotBurnAuthority);
        }
        if self.paused {
            return Err(OpError::SystemPaused);
        }
        let req = match self.burn_requests.get(&request_id) {
            Some(r) => *r,
            None => {
                return Err(OpError::BurnRequestNotFound);
            },
        };
        if !matches!(req.status, BurnRequestStatus::Reserved) {
            return Err(OpError::InvalidBurnRequestStatus);
        }
        let rec = self.ledger.record_of(req.requester);
        if rec.reserved < req.amount {
            return Err(OpError::InsufficientReservedBalance);
        }
        if self.ledger.total_supply < req.amount {
            return Err(OpError::Overflow);
        }
        match self.ledger.slash_reserved(req.requester, req.amount) {
            Ok(_) => {},
            Err(_) => {
                proof {
                    assert(false);
                }
                return Err(OpError::InsufficientReservedBalance);
            },
        }
        self.ledger.total_supply = self.ledger.total_supply - req.amount;
        let updated = BurnRequest {
            status: BurnRequestStatus::Completed,
            processed_at: Some(now),
            ..req
        };
        self.burn_requests.insert(request_id, updated);
        proof {
            lemma_burn_total_update(
                old(self).burn_requests@,
                request_id,
                updated,
                old(self).next_burn_id as nat,
            );
        }
        let events = vec![
            Event::BurnApproved { request_id, requester: req.requester, amount: req.amount },
        ];
        assert(events@ =~= seq![
            Event::BurnApproved { request_id, requester: req.requester, amount: req.amount },
        ]);
        Ok(events)
    }

    /// Rejects a reserved burn request: the reserved amount returns to
    /// the requester's free balance and the supply is untouched.  Burn
    /// authority only.  Deliberately possible while paused.
    pub fn reject_burn(&mut self, origin: Origin, request_id: u64, now: u64) -> (r: Result<
        Vec<Event>,
        OpError,
    >)
        requires
            state_wf(*old(self)),
        ensures
            state_wf(*final(self)),
            match r {
                Ok(events) => {
                    &&& reject_burn_err(*old(self), origin, request_id) is None
                    &&& reject_burn_ok(*old(self), *final(self), request_id, now, events@)
                },
                Err(e) => {
                    &&& reject_burn_err(*old(self), origin, request_id) == Some(e)
                    &&& *final(self) == *old(self)
                },
            },
    {
        let who = match origin {
            Origin::Signed(a) => a,
            Origin::Root => {
                return Err(OpError::Unauthorized);
            },
        };
        let authority = match self.burn_authority {
            Some(a) => a,
            None => {
                return Err(OpError::NoBurnAuthority);
            },
        };
        if who != authority {
            return Err(OpError::NotBurnAuthority);
        }
        let req = match self.burn_requests.get(&request_id) {
            Some(r) => *r,
            None => {
                return Err(OpError::BurnRequestNotFound);
            },
        };
        if !matches!(req.status, BurnRequestStatus::Reserved) {
            return Err(OpError::InvalidBurnRequestStatus);
        }
        let rec = self.ledger.record_of(req.requester);
        if rec.reserved < req.amount {
            return Err(OpError::InsufficientReservedBalance);
        }
        if req.amount > u64::MAX - rec.free {
            return Err(OpError::Overflow);
        }
        match self.ledger.release(req.requester, req.amount) {
            Ok(_) => {},
            Err(_) => {
                proof {
                    assert(false);
                }
                return Err(OpError::Overflow);
            },
        }
        let updated = BurnRequest {
            status: BurnRequestStatus::Rejected,
            processed_at: Some(now),
            ..req
        };
        self.burn_requests.insert(request_id, updated);
        proof {
            lemma_burn_total_update(
                old(self).burn_requests@,
                request_id,
                updated,
                old(self).next_burn_id as nat,
            );
        }
        let events = vec![Event::BurnRejected { request_id, requester: req.requester }];
        assert(events@ =~= seq![Event::BurnRejected { request_id, requester: req.requester }]);
        Ok(events)
    }

    /// The mint request stored under `request_id`, if any.
    pub fn mint_request(&self, request_id: u64) -> (r: Option<MintRequest>)
        ensures
            match r {
                Some(q) => self.mint_requests@.contains_key(request_id) && q
                    == self.mint_requests@[request_id],
                None => !self.mint_requests@.contains_key(request_id),
            },
    {
        match self.mint_requests.get(&request_id) {
            Some(q) => Some(*q),
            None => None,
        }
    }

    /// The burn request stored under `request_id`, if any.
    pub fn burn_request(&self, request_id: u64) -> (r: Option<BurnRequest>)
        ensures
            match r {
                Some(q) => self.burn_requests@.contains_key(request_id) && q
                    == self.burn_requests@[request_id],
                None => !self.burn_requests@.contains_key(request_id),
            },
    {
        match self.burn_requests.get(&request_id) {
            Some(q) => Some(*q),
            None => None,
        }
    }

    /// The fee the current rate charges on `amount`: exactly
    /// `floor(amount * fee_bps / 10000)`, clamped to the balance domain
    /// in the extreme case that the exact fee itself does not fit it.
    pub fn calculate_fee(&self, amount: u64) -> (r: u64)
        ensures
            r as int == if fee_of(amount, self.fee_bps) <= u64::MAX {
                fee_of(amount, self.fee_bps)
            } else {
                u64::MAX as int
            },
    {
        proof {
            lemma_fee_product_bounded(amount, self.fee_bps);
        }
        let prod: u128 = (amount as u128) * (self.fee_bps as u128);
        let f = prod / 10000;
        if f > u64::MAX as u128 {
            u64::MAX
        } else {
            f as u64
        }
    }

    /// Moves `amount` from the calling account to `dest`, and the fee
    /// from the caller to the configured fee collector, gated by KYC on
    /// both parties and by both parties' compliance volume budgets.
    /// All-or-nothing: any failure — including one found after the
    /// sender's compliance budget would already have been charged —
    /// leaves the state exactly as it was.
    pub fn transfer(
        &mut self,
        origin: Origin,
        dest: u64,
        amount: u64,
        height: u64,
        cfg: &Config,
    ) -> (r: Result<Vec<Event>, OpError>)
        requires
            state_wf(*old(self)),
        ensures
            state_wf(*final(self)),
            match r {
                Ok(events) => {
                    &&& transfer_err(*old(self), origin, dest, amount, height, *cfg) is None
                    &&& transfer_ok(
                        *old(self),
                        *final(self),
                        origin.signer(),
                        dest,
                        amount,
                        height,
                        *cfg,
                        events@,
                    )
                },
                Err(e) => {
                    &&& transfer_err(*old(self), origin, dest, amount, height, *cfg) == Some(e)
                    &&& *final(self) == *old(self)
                },
            },
    {
        let who = match origin {
            Origin::Signed(a) => a,
            Origin::Root => {
                return Err(OpError::Unauthorized);
            },
        };
        if self.paused {
            return Err(OpError::SystemPaused);
        }
        if amount == 0 {
            return Err(OpError::InvalidAmount);
        }
        if who == dest {
            return Err(OpError::InvalidAmount);
        }
        if !self.kyc.is_verified(who) {
            return Err(OpError::KycNotVerified);
        }
        if !self.kyc.is_verified(dest) {
            return Err(OpError::KycNotVerified);
        }
        match self.compliance.check_status(who, amount, height, cfg) {
            Some(_) => {
                return Err(OpError::ComplianceCheckFailed);
            },
            None => {},
        }
        match self.compliance.check_status(dest, amount, height, cfg) {
            Some(_) => {
                return Err(OpError::ComplianceCheckFailed);
            },
            None => {},
        }
        proof {
            lemma_fee_product_bounded(amount, self.fee_bps);
        }
        let prod: u128 = (amount as u128) * (self.fee_bps as u128);
        let fee128 = prod / 10000;
        if fee128 > u64::MAX as u128 {
            return Err(OpError::FeeCalculationFailed);
        }
        let fee = fee128 as u64;
        assert(fee as int == fee_of(amount, self.fee_bps));
        if fee > u64::MAX - amount {
            return Err(OpError::Overflow);
        }
        let total = amount + fee;
        let sender_rec = self.ledger.record_of(who);
        if sender_rec.free < total {
            return Err(OpError::InsufficientBalance);
        }
        let dest_rec = self.ledger.record_of(dest);
        if amount > u64::MAX - dest_rec.free {
            return Err(OpError::Overflow);
        }
        if fee > 0 {
            let rcpt = match self.mint_authority {
                Some(a) => a,
                None => {
                    return Err(OpError::NoMintAuthority);
                },
            };
            if rcpt == dest {
                if fee > u64::MAX - (dest_rec.free + amount) {
                    return Err(OpError::Overflow);
                }
            } else if rcpt != who {
                let rcpt_rec = self.ledger.record_of(rcpt);
                if fee > u64::MAX - rcpt_rec.free {
                    return Err(OpError::Overflow);
                }
            }
        }
        // Every check has passed: from here on nothing can fail, and the
        // writes below together form the committed transaction.
        let mut events: Vec<Event> = Vec::new();
        match self.compliance.check_transaction(who, amount, height, cfg) {
            Ok(mut ev) => {
                events.append(&mut ev);
            },
            Err(_) => {
                proof {
                    assert(false);
                }
                return Err(OpError::ComplianceCheckFailed);
            },
        }
        proof {
            assert(check_err(self.compliance, dest, amount, height, *cfg) is None);
        }
        match self.compliance.check_transaction(dest, amount, height, cfg) {
            Ok(mut ev) => {
                events.append(&mut ev);
            },
            Err(_) => {
                proof {
                    assert(false);
                }
                return Err(OpError::ComplianceCheckFailed);
            },
        }
        match self.ledger.move_free(who, dest, amount) {
            Ok(_) => {},
            Err(_) => {
                proof {
                    assert(false);
                }
                return Err(OpError::Overflow);
            },
        }
        if fee > 0 {
            let rcpt = match self.mint_authority {
                Some(a) => a,
                None => {
                    proof {
                        assert(false);
                    }
                    return Err(OpError::NoMintAuthority);
                },
            };
            match self.ledger.move_free(who, rcpt, fee) {
                Ok(_) => {},
                Err(_) => {
                    proof {
                        assert(false);
                    }
                    return Err(OpError::Overflow);
                },
            }
        }
        events.push(Event::Transfer { from: who, to: dest, amount, fee });
        proof {
            assert(events@ =~= suspicious_events(who, amount, *cfg) + suspicious_events(
                dest,
                amount,
                *cfg,
            ) + seq![Event::Transfer { from: who, to: dest, amount, fee }]);
            assert forall|a: u64| #![trigger self.ledger.spec_free(a)]
                self.ledger.spec_free(a) as int == old(self).ledger.spec_free(a) - (
            if a == who {
                amount + fee_of(amount, old(self).fee_bps)
            } else {
                0
            }) + (if a == dest {
                amount as int
            } else {
                0
            }) + (if fee_of(amount, old(self).fee_bps) > 0 && old(self).mint_authority == Some(
                a,
            ) {
                fee_of(amount, old(self).fee_bps)
            } else {
                0
            }) by {}
            assert forall|a: u64| #![trigger self.ledger.spec_reserved(a)]
                self.ledger.spec_reserved(a) == old(self).ledger.spec_reserved(a) by {}
        }
        Ok(events)
    }
}

} // verus!
