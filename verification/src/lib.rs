//! A small federated messaging platform, verified.
//!
//! Three cooperating services run inside a deterministic, transactional host
//! environment: a controller (the single front door, owner of fee policy and
//! of the two-phase child provisioning protocol), a profile registry (user id
//! and public key bookkeeping with uniqueness invariants), and a message
//! store (per-recipient message logs with escrowed value, batched claim and
//! delete, and bounded pagination).
//!
//! Everything the host environment owns -- request decoding, persistent
//! storage, event emission, the delivery of spawn completions -- stays
//! outside this crate. Each service here is a plain state value together
//! with total transition functions; the host hands them decoded requests and
//! carries out the actions they return.

pub mod controller;
pub mod elements;
pub mod funds;
pub mod host;
pub mod messages;
pub mod msg;
pub mod ownership;
pub mod profiles;
pub mod query;
