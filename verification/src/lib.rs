//! Deterministic state-transition core of a permissioned digital-currency
//! ledger.
//!
//! The library issues (mints) and retires (burns) a stable-value token,
//! moves balances between accounts, and gates every monetary operation
//! behind identity verification (KYC) and a compliance layer (account
//! flagging, per-period volume limits, manual alerts).  Every operation is
//! all-or-nothing: it either commits all of its mutations or leaves the
//! state exactly as it was, and says so in its contract.

pub mod compliance;
pub mod config;
pub mod errors;
pub mod events;
pub mod gateway;
pub mod kyc;
pub mod laws;
pub mod ledger;
pub mod token;
pub mod volume;
