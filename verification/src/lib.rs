//! Accounting core of a KALE/XLM lending-and-staking platform: per-user
//! staking and borrowing positions, time-based reward and interest accrual,
//! collateral-ratio enforcement at borrow time, and price-driven
//! auto-adjustment of staked amounts. The host ledger supplies the clock,
//! the atomic commit of storage, and the oracle price readings; every
//! operation here takes those as plain values and is verified against a
//! mathematical model of the persisted records.

pub mod accrual;
pub mod error;
pub mod laws;
pub mod model;
pub mod platform;
pub mod records;
