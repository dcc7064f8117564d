//! Orchestration of window Proof-of-Spacetime (PoSt) proving: encoding of
//! commitment buffers as canonical field elements, partition planning for a
//! batch of sectors, a memoizing cache for expensive proving parameters, and
//! the composition of vanilla witnesses into one succinct proof per partition.

pub mod cache;
pub mod commitment;
pub mod composer;
pub mod config;
pub mod error;
pub mod partition;
