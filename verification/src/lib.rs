//! A local protocol gateway between dapp clients and blockchain networks.
//!
//! Most read-only calls are forwarded verbatim to the current network's
//! upstream node; wallet-sensitive operations (account listing, chain
//! identification and switching, transaction submission, message and
//! typed-data signing) are handled locally against configured network and
//! wallet registries, routing every value-moving or signing operation
//! through a user-approval step before a signature is produced.
//!
//! The runtime around this library owns the transports: the upstream node
//! client, the signing capability, the approval dialog and the persisted
//! event store. This library holds the decisions: routing, parameter
//! parsing, registry mutation, the transaction pipeline's state machine,
//! and row-to-event decoding, each with a verified contract.

pub mod error;
pub mod events;
pub mod hex;
pub mod json;
pub mod networks;
pub mod rpc;
pub mod send_transaction;
pub mod shared;
pub mod state;
pub mod u256;
pub mod wallets;
