use vstd::prelude::*;
use crate::compliance::{
    Compliance, check_err, resolve_alert_err, resolve_alert_ok, spec_flagged,
};
use crate::config::{Config, Origin};
use crate::errors::OpError;
use crate::events::Event;
use crate::token::{
    State, approve_burn_ok, completed_burn_total, completed_mint_total, reject_burn_ok,
    request_burn_ok, state_wf,
};

verus! {

/// Supply conservation: in every well-formed state the total supply
/// equals the sum of all completed mint amounts minus the sum of all
/// completed burn amounts.  `State::new` establishes well-formedness
/// and every operation preserves it, so this holds after any sequence
/// of operations.
pub proof fn lemma_supply_conservation(s: State)
    requires
        state_wf(s),
    ensures
        s.ledger.total_supply as int == completed_mint_total(s.mint_requests@, s.next_mint_id as nat)
            - completed_burn_total(s.burn_requests@, s.next_burn_id as nat),
{
}

/// Reservation non-negativity: a reserved balance can never be
/// negative.  The balance domain is unsigned, so this is carried by the
/// types themselves.
pub proof fn lemma_reservation_nonnegative(s: State, account: u64)
    ensures
        s.ledger.spec_reserved(account) >= 0,
{
}

/// Reservation round trip, approval: a burn request of `amount`
/// followed by its approval returns the requester's reserved balance
/// exactly to its pre-request level, while the free balance and the
/// total supply each end exactly `amount` lower.
pub proof fn lemma_burn_round_trip_approve(
    s0: State,
    s1: State,
    s2: State,
    who: u64,
    amount: u64,
    now1: u64,
    now2: u64,
    ev1: Seq<Event>,
    ev2: Seq<Event>,
)
    requires
        request_burn_ok(s0, s1, who, amount, now1, ev1),
        approve_burn_ok(s1, s2, s0.next_burn_id, now2, ev2),
    ensures
        s2.ledger.spec_reserved(who) == s0.ledger.spec_reserved(who),
        s2.ledger.spec_free(who) as int == s0.ledger.spec_free(who) - amount,
        s2.ledger.total_supply as int == s0.ledger.total_supply - amount,
{
    let id = s0.next_burn_id;
    assert(s1.burn_requests@.contains_key(id));
    let req = s1.burn_requests@[id];
    assert(req.requester == who && req.amount == amount);
    assert(s1.ledger.balances@.contains_key(who));
    assert(s1.ledger.spec_reserved(who) as int == s0.ledger.spec_reserved(who) + amount);
    assert(s1.ledger.spec_free(who) as int == s0.ledger.spec_free(who) - amount);
    assert(s2.ledger.balances@.contains_key(who));
    assert(s2.ledger.spec_reserved(who) as int == s1.ledger.spec_reserved(who) - amount);
    assert(s2.ledger.spec_free(who) == s1.ledger.spec_free(who));
}

/// Reservation round trip, rejection: a burn request of `amount`
/// followed by its rejection restores the requester's free and reserved
/// balances exactly, and leaves the total supply untouched.
pub proof fn lemma_burn_round_trip_reject(
    s0: State,
    s1: State,
    s2: State,
    who: u64,
    amount: u64,
    now1: u64,
    now2: u64,
    ev1: Seq<Event>,
    ev2: Seq<Event>,
)
    requires
        request_burn_ok(s0, s1, who, amount, now1, ev1),
        reject_burn_ok(s1, s2, s0.next_burn_id, now2, ev2),
    ensures
        s2.ledger.spec_reserved(who) == s0.ledger.spec_reserved(who),
        s2.ledger.spec_free(who) == s0.ledger.spec_free(who),
        s2.ledger.total_supply == s0.ledger.total_supply,
{
    let id = s0.next_burn_id;
    assert(s1.burn_requests@.contains_key(id));
    let req = s1.burn_requests@[id];
    assert(req.requester == who && req.amount == amount);
    assert(s1.ledger.balances@.contains_key(who));
    assert(s1.ledger.spec_reserved(who) as int == s0.ledger.spec_reserved(who) + amount);
    assert(s1.ledger.spec_free(who) as int == s0.ledger.spec_free(who) - amount);
    assert(s2.ledger.balances@.contains_key(who));
    assert(s2.ledger.spec_reserved(who) as int == s1.ledger.spec_reserved(who) - amount);
    assert(s2.ledger.spec_free(who) as int == s1.ledger.spec_free(who) + amount);
}

/// No partial burn: a successful approval takes exactly the requested
/// amount out of the requester's reserved balance and exactly the same
/// amount out of the total supply.  (The other half of the property —
/// a failed approval changes nothing at all — is the error clause of
/// `State::approve_burn` itself.)
pub proof fn lemma_no_partial_burn(
    pre: State,
    post: State,
    request_id: u64,
    now: u64,
    ev: Seq<Event>,
)
    requires
        approve_burn_ok(pre, post, request_id, now, ev),
    ensures
        post.ledger.spec_reserved(pre.burn_requests@[request_id].requester) as int
            == pre.ledger.spec_reserved(pre.burn_requests@[request_id].requester)
            - pre.burn_requests@[request_id].amount,
        post.ledger.total_supply as int == pre.ledger.total_supply
            - pre.burn_requests@[request_id].amount,
{
    let req = pre.burn_requests@[request_id];
    assert(post.ledger.balances@.contains_key(req.requester));
    assert(post.ledger.spec_reserved(req.requester) as int == pre.ledger.spec_reserved(
        req.requester,
    ) - req.amount);
}

/// Flag absoluteness: a compliance check for a flagged account fails
/// with `AccountFlagged` for every amount, whatever the volume counters
/// hold.
pub proof fn lemma_flag_absoluteness(
    c: Compliance,
    account: u64,
    amount: u64,
    height: u64,
    cfg: Config,
)
    requires
        spec_flagged(c, account),
    ensures
        check_err(c, account, amount, height, cfg) == Some(OpError::AccountFlagged),
{
}

/// Alert resolution happens exactly once: after the officer resolves an
/// alert, resolving the same id again can only fail with
/// `AlertAlreadyResolved`.
pub proof fn lemma_alert_resolved_once(
    pre: Compliance,
    post: Compliance,
    officer: u64,
    alert_id: u64,
    ev: Seq<Event>,
)
    requires
        resolve_alert_ok(pre, post, alert_id, ev),
        resolve_alert_err(pre, Origin::Signed(officer), alert_id) is None,
    ensures
        resolve_alert_err(post, Origin::Signed(officer), alert_id) == Some(
            OpError::AlertAlreadyResolved,
        ),
{
}

} // verus!
