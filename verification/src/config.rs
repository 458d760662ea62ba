use vstd::prelude::*;

verus! {

/// Who invokes an operation: the superuser, or a signed account.
///
/// Administrative operations (setting role holders, pausing) demand the
/// root origin; everything else demands a signed account.
#[derive(Clone, Copy, Debug, PartialEq, Eq, Structural)]
pub enum Origin {
    /// The superuser origin.
    Root,
    /// A transaction signed by the given account.
    Signed(u64),
}

impl Origin {
    /// True when the origin carries a signing account.
    pub open spec fn is_signed(self) -> bool {
        self matches Origin::Signed(_)
    }

    /// The signing account; meaningful only when `is_signed()` holds.
    pub open spec fn signer(self) -> u64 {
        match self {
            Origin::Signed(a) => a,
            Origin::Root => 0,
        }
    }
}

/// The host-supplied constants of the system, read-only during every
/// operation.
///
/// `blocks_per_period` partitions block heights into the periods over
/// which `daily_limit` bounds each account's accumulated transaction
/// volume; `suspicious_threshold` is the amount at or above which a
/// compliance check reports suspicious activity; `max_reason_len` bounds
/// alert reasons in bytes; `max_fee_bps` bounds the settable transfer fee
/// rate, in basis points (units of 1/10000).
#[derive(Clone, Copy, Debug, PartialEq, Eq, Structural)]
pub struct Config {
    pub daily_limit: u64,
    pub suspicious_threshold: u64,
    pub max_reason_len: u64,
    pub blocks_per_period: u64,
    pub max_fee_bps: u32,
}

} // verus!
