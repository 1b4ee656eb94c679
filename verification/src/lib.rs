//! A verified core for a regtest payment demonstration: provisioning two
//! named wallets, mining until a spendable balance exists, sending a single
//! payment, and reconstructing the semantic roles (funding input, payment
//! output, change output, fee) of the confirmed transaction.
//!
//! Node I/O lives outside this crate; the decisions, the reconstruction
//! algorithm, and an in-memory node model used to state the workflow's
//! properties are verified here.

pub mod address;
pub mod amount;
pub mod node;
pub mod reconstruct;
pub mod workflow;
