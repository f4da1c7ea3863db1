//! A verified core for time-bound data subscriptions.
//!
//! A subscriber pays a data provider for access over a period of time. The
//! library owns the rules of that arrangement: the subscription lifecycle
//! (subscribe, renew, cancel, end), the fee split between the platform owner
//! and the provider, a fixed-capacity ring buffer of quality reports per
//! provider, a directory of everyone who has ever subscribed to a provider,
//! and the owner-only fee configuration.
//!
//! The ledger that stores the records, moves the payments, and stamps the
//! time is an outside collaborator: every operation here takes the records it
//! touches by reference and the current time as a plain value, and returns
//! the amounts to transfer and the event to emit. The caller runs each
//! operation and its transfers as one atomic unit.

pub mod account;
pub mod config;
pub mod credential;
pub mod directory;
pub mod errors;
pub mod events;
pub mod fees;
pub mod lifecycle;
pub mod quality;
