//! A fee-sponsored atomic call relay.
//!
//! A sponsor account authorizes and pays a bounded fee to have an arbitrary
//! downstream operation executed on behalf of a requesting caller, but only
//! if both parties have consented. The fee is settled at most once per
//! request, only after the downstream invocation has been attempted, and
//! never exceeds the caller's declared ceiling.

pub mod auth;
pub mod ledger;
pub mod relay;
pub mod value;
