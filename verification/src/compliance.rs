use vstd::prelude::*;
use std::collections::HashMap;
use crate::config::{Config, Origin};
use crate::errors::OpError;
use crate::events::Event;
use crate::volume::VolumeTable;

verus! {

/// The severity of a manual compliance alert.
#[derive(Clone, Copy, Debug, PartialEq, Eq, Structural)]
pub enum AlertLevel {
    Low,
    Medium,
    High,
    Critical,
}

/// A manual compliance alert.  `resolved` flips from false to true
/// exactly once.
#[derive(Debug, PartialEq, Eq)]
pub struct Alert {
    pub account: u64,
    pub alert_level: AlertLevel,
    pub amount: u64,
    pub reason: Vec<u8>,
    pub created_at: u64,
    pub resolved: bool,
}

/// The compliance monitor: account flags, per-period volume counters,
/// manual alerts, and the single account allowed to manage them.
#[derive(Debug)]
pub struct Compliance {
    pub officer: Option<u64>,
    pub flagged: HashMap<u64, bool>,
    pub volume: VolumeTable,
    pub alerts: HashMap<u64, Alert>,
    pub next_alert_id: u64,
}

/// Addition clamped to the balance domain; volume accounting is a soft
/// metric and saturates instead of failing.
pub open spec fn sat_add(a: u64, b: u64) -> u64 {
    if a + b > u64::MAX {
        u64::MAX
    } else {
        (a + b) as u64
    }
}

/// True when `account` is under a compliance hold.
pub open spec fn spec_flagged(c: Compliance, account: u64) -> bool {
    c.flagged@.contains_key(account) && c.flagged@[account]
}

/// The accumulated volume of `account` in `period`; zero when none has
/// been recorded.
pub open spec fn spec_volume(c: Compliance, account: u64, period: u64) -> u64 {
    if c.volume@.contains_key((account, period)) {
        c.volume@[(account, period)]
    } else {
        0
    }
}

/// The internal invariant of the monitor: the volume store is well
/// formed, and every alert id lies below the allocation counter, so a
/// fresh id never collides.
pub open spec fn compliance_wf(c: Compliance) -> bool {
    &&& c.volume.wf()
    &&& forall|id: u64| c.alerts@.contains_key(id) ==> id < c.next_alert_id
}

/// The authorization error of an officer-only operation, or `None` when
/// the caller is the configured compliance officer.
pub open spec fn officer_gate_err(c: Compliance, origin: Origin) -> Option<OpError> {
    if !origin.is_signed() {
        Some(OpError::Unauthorized)
    } else if c.officer is None {
        Some(OpError::NoComplianceOfficer)
    } else if c.officer != Some(origin.signer()) {
        Some(OpError::NotComplianceOfficer)
    } else {
        None
    }
}

/// The error `flag_account` reports, or `None` when it succeeds.
pub open spec fn flag_err(c: Compliance, origin: Origin, account: u64) -> Option<OpError> {
    if officer_gate_err(c, origin) is Some {
        officer_gate_err(c, origin)
    } else if spec_flagged(c, account) {
        Some(OpError::AccountAlreadyFlagged)
    } else {
        None
    }
}

/// The error `unflag_account` reports, or `None` when it succeeds.
pub open spec fn unflag_err(c: Compliance, origin: Origin, account: u64) -> Option<OpError> {
    if officer_gate_err(c, origin) is Some {
        officer_gate_err(c, origin)
    } else if !spec_flagged(c, account) {
        Some(OpError::AccountNotFlagged)
    } else {
        None
    }
}

/// The error `create_alert` reports, or `None` when it succeeds.
pub open spec fn create_alert_err(
    c: Compliance,
    origin: Origin,
    reason_len: nat,
    cfg: Config,
) -> Option<OpError> {
    if officer_gate_err(c, origin) is Some {
        officer_gate_err(c, origin)
    } else if reason_len > cfg.max_reason_len {
        Some(OpError::ReasonTooLong)
    } else if c.next_alert_id == u64::MAX {
        Some(OpError::Overflow)
    } else {
        None
    }
}

/// The error `resolve_alert` reports, or `None` when it succeeds.
pub open spec fn resolve_alert_err(c: Compliance, origin: Origin, alert_id: u64) -> Option<
    OpError,
> {
    if officer_gate_err(c, origin) is Some {
        officer_gate_err(c, origin)
    } else if !c.alerts@.contains_key(alert_id) {
        Some(OpError::AlertNotFound)
    } else if c.alerts@[alert_id].resolved {
        Some(OpError::AlertAlreadyResolved)
    } else {
        None
    }
}

/// The effect of a successful `resolve_alert`: the alert's `resolved`
/// bit flips to true; everything else is untouched.
pub open spec fn resolve_alert_ok(
    pre: Compliance,
    post: Compliance,
    alert_id: u64,
    events: Seq<Event>,
) -> bool {
    &&& post.alerts@ == pre.alerts@.insert(
        alert_id,
        (Alert { resolved: true, ..pre.alerts@[alert_id] }),
    )
    &&& post.officer == pre.officer
    &&& post.flagged@ == pre.flagged@
    &&& post.volume@ == pre.volume@
    &&& post.next_alert_id == pre.next_alert_id
    &&& events == seq![Event::AlertResolved { alert_id }]
}

/// The error `check_transaction` reports, or `None` when it succeeds:
/// a flagged account fails regardless of amount; a zero period length
/// is a configuration error; and the saturated new volume must not
/// exceed the per-period limit.
pub open spec fn check_err(
    c: Compliance,
    account: u64,
    amount: u64,
    height: u64,
    cfg: Config,
) -> Option<OpError> {
    if spec_flagged(c, account) {
        Some(OpError::AccountFlagged)
    } else if cfg.blocks_per_period == 0 {
        Some(OpError::InvalidConfiguration)
    } else if sat_add(spec_volume(c, account, (height / cfg.blocks_per_period) as u64), amount)
        > cfg.daily_limit {
        Some(OpError::DailyLimitExceeded)
    } else {
        None
    }
}

/// The effect of a successful `check_transaction`: the account's
/// counter for the current period grows by the amount (saturating), and
/// an amount at or above the suspicious threshold is reported without
/// blocking anything.
pub open spec fn check_ok(
    pre: Compliance,
    post: Compliance,
    account: u64,
    amount: u64,
    height: u64,
    cfg: Config,
    events: Seq<Event>,
) -> bool {
    let period = (height / cfg.blocks_per_period) as u64;
    &&& post.volume@ == pre.volume@.insert(
        (account, period),
        sat_add(spec_volume(pre, account, period), amount),
    )
    &&& post.officer == pre.officer
    &&& post.flagged@ == pre.flagged@
    &&& post.alerts@ == pre.alerts@
    &&& post.next_alert_id == pre.next_alert_id
    &&& events == if amount >= cfg.suspicious_threshold {
        seq![Event::SuspiciousActivityDetected { account, amount }]
    } else {
        Seq::<Event>::empty()
    }
}

impl Compliance {
    /// An empty monitor: no officer, no flags, no counters, no alerts.
    pub fn new() -> (r: Compliance)
        ensures
            compliance_wf(r),
            r.officer is None,
            r.flagged@ == Map::<u64, bool>::empty(),
            r.volume@ == Map::<(u64, u64), u64>::empty(),
            r.alerts@ == Map::<u64, Alert>::empty(),
            r.next_alert_id == 0,
    {
        Compliance {
            officer: None,
            flagged: HashMap::new(),
            volume: VolumeTable::new(),
            alerts: HashMap::new(),
            next_alert_id: 0,
        }
    }

    /// Configures the compliance officer.  Superuser only.
    pub fn set_compliance_officer(&mut self, origin: Origin, officer: u64) -> (r: Result<
        Vec<Event>,
        OpError,
    >)
        requires
            compliance_wf(*old(self)),
        ensures
            compliance_wf(*final(self)),
            match r {
                Ok(events) => {
                    &&& origin is Root
                    &&& final(self).officer == Some(officer)
                    &&& final(self).flagged@ == old(self).flagged@
                    &&& final(self).volume@ == old(self).volume@
                    &&& final(self).alerts@ == old(self).alerts@
                    &&& final(self).next_alert_id == old(self).next_alert_id
                    &&& events@ == seq![Event::ComplianceOfficerSet { officer }]
                },
                Err(e) => {
                    &&& !(origin is Root) && e == OpError::Unauthorized
                    &&& *final(self) == *old(self)
                },
            },
    {
        match origin {
            Origin::Root => {
                self.officer = Some(officer);
                let events = vec![Event::ComplianceOfficerSet { officer }];
                assert(events@ =~= seq![Event::ComplianceOfficerSet { officer }]);
                Ok(events)
            },
            Origin::Signed(_) => Err(OpError::Unauthorized),
        }
    }

    /// Puts `account` under a compliance hold.  Officer only; flagging a
    /// flagged account fails.
    pub fn flag_account(&mut self, origin: Origin, account: u64) -> (r: Result<
        Vec<Event>,
        OpError,
    >)
        requires
            compliance_wf(*old(self)),
        ensures
            compliance_wf(*final(self)),
            match r {
                Ok(events) => {
                    &&& flag_err(*old(self), origin, account) is None
                    &&& final(self).flagged@ == old(self).flagged@.insert(account, true)
                    &&& final(self).officer == old(self).officer
                    &&& final(self).volume@ == old(self).volume@
                    &&& final(self).alerts@ == old(self).alerts@
                    &&& final(self).next_alert_id == old(self).next_alert_id
                    &&& events@ == seq![Event::AccountFlagged { account }]
                },
                Err(e) => {
                    &&& flag_err(*old(self), origin, account) == Some(e)
                    &&& *final(self) == *old(self)
                },
            },
    {
        let who = match origin {
            Origin::Signed(a) => a,
            Origin::Root => {
                return Err(OpError::Unauthorized);
            },
        };
        match self.officer {
            Some(o) => {
                if o != who {
                    return Err(OpError::NotComplianceOfficer);
                }
            },
            None => {
                return Err(OpError::NoComplianceOfficer);
            },
        }
        let already = match self.flagged.get(&account) {
            Some(b) => *b,
            None => false,
        };
        if already {
            return Err(OpError::AccountAlreadyFlagged);
        }
        self.flagged.insert(account, true);
        let events = vec![Event::AccountFlagged { account }];
        assert(events@ =~= seq![Event::AccountFlagged { account }]);
        Ok(events)
    }

    /// Lifts the compliance hold on `account`.  Officer only; an
    /// unflagged account fails.
    pub fn unflag_account(&mut self, origin: Origin, account: u64) -> (r: Result<
        Vec<Event>,
        OpError,
    >)
        requires
            compliance_wf(*old(self)),
        ensures
            compliance_wf(*final(self)),
            match r {
                Ok(events) => {
                    &&& unflag_err(*old(self), origin, account) is None
                    &&& final(self).flagged@ == old(self).flagged@.remove(account)
                    &&& final(self).officer == old(self).officer
                    &&& final(self).volume@ == old(self).volume@
                    &&& final(self).alerts@ == old(self).alerts@
                    &&& final(self).next_alert_id == old(self).next_alert_id
                    &&& events@ == seq![Event::AccountUnflagged { account }]
                },
                Err(e) => {
                    &&& unflag_err(*old(self), origin, account) == Some(e)
                    &&& *final(self) == *old(self)
                },
            },
    {
        let who = match origin {
            Origin::Signed(a) => a,
            Origin::Root => {
                return Err(OpError::Unauthorized);
            },
        };
        match self.officer {
            Some(o) => {
                if o != who {
                    return Err(OpError::NotComplianceOfficer);
                }
            },
            None => {
                return Err(OpError::NoComplianceOfficer);
            },
        }
        let held = match self.flagged.get(&account) {
            Some(b) => *b,
            None => false,
        };
        if !held {
            return Err(OpError::AccountNotFlagged);
        }
        self.flagged.remove(&account);
        let events = vec![Event::AccountUnflagged { account }];
        assert(events@ =~= seq![Event::AccountUnflagged { account }]);
        Ok(events)
    }

    /// Stores an unresolved alert under a fresh, strictly increasing id
    /// and returns that id.  Officer only; the reason must stay within
    /// the configured length bound.
    pub fn create_alert(
        &mut self,
        origin: Origin,
        account: u64,
        alert_level: AlertLevel,
        amount: u64,
        reason: Vec<u8>,
        now: u64,
        cfg: &Config,
    ) -> (r: Result<(u64, Vec<Event>), OpError>)
        requires
            compliance_wf(*old(self)),
        ensures
            compliance_wf(*final(self)),
            match r {
                Ok((alert_id, events)) => {
                    &&& create_alert_err(*old(self), origin, reason@.len(), *cfg) is None
                    &&& alert_id == old(self).next_alert_id
                    &&& final(self).alerts@ == old(self).alerts@.insert(
                        alert_id,
                        (Alert {
                            account,
                            alert_level,
                            amount,
                            reason,
                            created_at: now,
                            resolved: false,
                        }),
                    )
                    &&& final(self).next_alert_id == old(self).next_alert_id + 1
                    &&& final(self).officer == old(self).officer
                    &&& final(self).flagged@ == old(self).flagged@
                    &&& final(self).volume@ == old(self).volume@
                    &&& events@ == seq![
                        Event::AlertCreated { alert_id, account, alert_level },
                    ]
                },
                Err(e) => {
                    &&& create_alert_err(*old(self), origin, reason@.len(), *cfg) == Some(e)
                    &&& *final(self) == *old(self)
                },
            },
    {
        let who = match origin {
            Origin::Signed(a) => a,
            Origin::Root => {
                return Err(OpError::Unauthorized);
            },
        };
        match self.officer {
            Some(o) => {
                if o != who {
                    return Err(OpError::NotComplianceOfficer);
                }
            },
            None => {
                return Err(OpError::NoComplianceOfficer);
            },
        }
        if reason.len() as u64 > cfg.max_reason_len {
            return Err(OpError::ReasonTooLong);
        }
        if self.next_alert_id == u64::MAX {
            return Err(OpError::Overflow);
        }
        let alert_id = self.next_alert_id;
        self.alerts.insert(
            alert_id,
            Alert { account, alert_level, amount, reason, created_at: now, resolved: false },
        );
        self.next_alert_id = alert_id + 1;
        let events = vec![Event::AlertCreated { alert_id, account, alert_level }];
        assert(events@ =~= seq![Event::AlertCreated { alert_id, account, alert_level }]);
        Ok((alert_id, events))
    }

    /// Resolves the alert stored under `alert_id`, exactly once: a
    /// second call fails with `AlertAlreadyResolved`.  Officer only.
    pub fn resolve_alert(&mut self, origin: Origin, alert_id: u64) -> (r: Result<
        Vec<Event>,
        OpError,
    >)
        requires
            compliance_wf(*old(self)),
        ensures
            compliance_wf(*final(self)),
            match r {
                Ok(events) => {
                    &&& resolve_alert_err(*old(self), origin, alert_id) is None
                    &&& resolve_alert_ok(*old(self), *final(self), alert_id, events@)
                },
                Err(e) => {
                    &&& resolve_alert_err(*old(self), origin, alert_id) == Some(e)
                    &&& *final(self) == *old(self)
                },
            },
    {
        let who = match origin {
            Origin::Signed(a) => a,
            Origin::Root => {
                return Err(OpError::Unauthorized);
            },
        };
        match self.officer {
            Some(o) => {
                if o != who {
                    return Err(OpError::NotComplianceOfficer);
                }
            },
            None => {
                return Err(OpError::NoComplianceOfficer);
            },
        }
        let resolved = match self.alerts.get(&alert_id) {
            Some(a) => a.resolved,
            None => {
                return Err(OpError::AlertNotFound);
            },
        };
        if resolved {
            return Err(OpError::AlertAlreadyResolved);
        }
        let mut alert = match self.alerts.remove(&alert_id) {
            Some(a) => a,
            None => {
                proof {
                    assert(false);
                }
                return Err(OpError::AlertNotFound);
            },
        };
        alert.resolved = true;
        self.alerts.insert(alert_id, alert);
        proof {
            assert(self.alerts@ =~= old(self).alerts@.insert(
                alert_id,
                (Alert { resolved: true, ..old(self).alerts@[alert_id] }),
            ));
        }
        let events = vec![Event::AlertResolved { alert_id }];
        assert(events@ =~= seq![Event::AlertResolved { alert_id }]);
        Ok(events)
    }

    /// True when `account` is under a compliance hold.
    pub fn is_account_flagged(&self, account: u64) -> (r: bool)
        ensures
            r == spec_flagged(*self, account),
    {
        match self.flagged.get(&account) {
            Some(b) => *b,
            None => false,
        }
    }

    /// Answers what `check_transaction` would report, without charging
    /// anything against the volume budget: the transfer orchestrator
    /// probes both parties before it mutates any state.
    pub fn check_status(&self, account: u64, amount: u64, height: u64, cfg: &Config) -> (r:
        Option<OpError>)
        requires
            compliance_wf(*self),
        ensures
            r == check_err(*self, account, amount, height, *cfg),
    {
        let held = match self.flagged.get(&account) {
            Some(b) => *b,
            None => false,
        };
        if held {
            return Some(OpError::AccountFlagged);
        }
        if cfg.blocks_per_period == 0 {
            return Some(OpError::InvalidConfiguration);
        }
        let period = height / cfg.blocks_per_period;
        let current = self.volume.get(account, period);
        let new_volume = if amount > u64::MAX - current {
            u64::MAX
        } else {
            current + amount
        };
        if new_volume > cfg.daily_limit {
            return Some(OpError::DailyLimitExceeded);
        }
        None
    }

    /// Runs the compliance gate for one prospective transaction of
    /// `amount` by `account` at block `height`, and on success charges
    /// the amount against the account's volume budget for the current
    /// period.  On failure no counter changes: a flagged account fails
    /// for every amount, and a breach of the limit leaves the stored
    /// volume as it was.
    pub fn check_transaction(
        &mut self,
        account: u64,
        amount: u64,
        height: u64,
        cfg: &Config,
    ) -> (r: Result<Vec<Event>, OpError>)
        requires
            compliance_wf(*old(self)),
        ensures
            compliance_wf(*final(self)),
            match r {
                Ok(events) => {
                    &&& check_err(*old(self), account, amount, height, *cfg) is None
                    &&& check_ok(
                        *old(self),
                        *final(self),
                        account,
                        amount,
                        height,
                        *cfg,
                        events@,
                    )
                },
                Err(e) => {
                    &&& check_err(*old(self), account, amount, height, *cfg) == Some(e)
                    &&& *final(self) == *old(self)
                },
            },
    {
        let held = match self.flagged.get(&account) {
            Some(b) => *b,
            None => false,
        };
        if held {
            return Err(OpError::AccountFlagged);
        }
        if cfg.blocks_per_period == 0 {
            return Err(OpError::InvalidConfiguration);
        }
        let period = height / cfg.blocks_per_period;
        let current = self.volume.get(account, period);
        let new_volume = if amount > u64::MAX - current {
            u64::MAX
        } else {
            current + amount
        };
        if new_volume > cfg.daily_limit {
            return Err(OpError::DailyLimitExceeded);
        }
        self.volume.set(account, period, new_volume);
        let mut events: Vec<Event> = Vec::new();
        if amount >= cfg.suspicious_threshold {
            events.push(Event::SuspiciousActivityDetected { account, amount });
            assert(events@ =~= seq![Event::SuspiciousActivityDetected { account, amount }]);
        } else {
            assert(events@ =~= Seq::<Event>::empty());
        }
        Ok(events)
    }
}

} // verus!
