//! Share-based insurance-fund ledger.
//!
//! A pooled capital buffer for a leveraged-trading venue: third parties
//! deposit capital in exchange for proportional claims ("shares"), and the
//! pool absorbs losses and receives protocol revenue.  The crate contains the
//! accounting core only: conversion between token amounts and shares, the
//! rebase algorithm that rescales the share unit as the fund shrinks, the
//! request -> escrow -> settle lifecycle for withdrawals, revenue settlement,
//! and deficit draws.  Token transfers, account loading and interest accrual
//! are the caller's business; every operation here is a synchronous
//! computation over records passed in by the caller, with `now` supplied as
//! an explicit logical timestamp.

pub mod deficit;
pub mod errors;
pub mod events;
pub mod ledger;
pub mod oracle;
pub mod pool;
pub mod revenue;
pub mod shares;
pub mod stake;
