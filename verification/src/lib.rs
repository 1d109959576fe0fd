//! The decision logic of a rollup coordinator: the shared state, the ingestion
//! of bridge events, and the mining, submission and finalization steps.
//!
//! The library calls no node and starts no program. Each step is a machine:
//! a function from the state and an event to the next state and an action.
//! Whoever runs the coordinator performs the action and reports what came of
//! it as the next event. Between two events the state is at rest, so that it
//! need not be locked while a call is under way.

pub mod abi;
pub mod bridge;
pub mod finalize;
pub mod hashing;
pub mod laws;
pub mod mine;
pub mod primitives;
pub mod prover;
pub mod rpc;
pub mod shared_state;
pub mod structs;
pub mod submit;
pub mod sync;
pub mod transact;
