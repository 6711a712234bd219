//! A custodial balance ledger: owners register single-asset deposit
//! accounts, move funds in, and move funds back out to a recipient of
//! their choice.
//!
//! The accounting and authorization core lives here, fully verified:
//! every recorded balance equals the net of the funds moved through it,
//! only the recorded owner can trigger movement, and an account's asset
//! is never conflated with another. The settlement platform that holds
//! the actual funds is driven through plans ([`gateway::GatewayRequest`])
//! that the ledger produces and outcomes it consumes.

pub mod identity;
pub mod errors;
pub mod asset;
pub mod account;
pub mod authority;
pub mod authorization;
pub mod accounting;
pub mod gateway;
pub mod ledger;
