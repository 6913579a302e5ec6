//! Minting authority with a time-indexed price curve.
//!
//! The library holds the decision core of a minting contract: a pricing
//! engine that charges ten times more for every completed week since a
//! genesis instant, a payment validator that accepts exactly one coin of a
//! designated currency, an owner-gated reconfiguration path, and the
//! orchestration that turns an accepted payment into a single downstream
//! mint instruction. Persistence, address-format validation and message
//! serialization are the host's job; the host hands this core plain values
//! and receives plain values back.

pub mod config;
pub mod contract;
pub mod error;
pub mod mint;
pub mod payment;
pub mod pricing;
pub mod state;
