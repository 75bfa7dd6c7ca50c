//! A deployment-and-transaction orchestrator for a blockchain-style remote
//! ledger reached over an RPC endpoint.
//!
//! The crate verifies the orchestration logic itself: loading contract
//! artifacts (interface descriptor plus hex bytecode), the strictly ordered
//! workflow state machine that funds two identities, deploys a token and a
//! deposit contract and drives the transfer -> approve -> deposit chain, and
//! a model of the ledger's token semantics against which the end-to-end
//! balance invariant is proved. The RPC transport, key management and the
//! async runtime live outside the library and drive it event by event.

pub mod errors;
pub mod hexparse;
pub mod machine;
pub mod token;
pub mod chain;
pub mod artifact;
pub mod handle;
pub mod deployer;
pub mod transact;
