//! Decision logic of a collation generation subsystem: which cores to build on,
//! how candidate receipts are committed to and signed, and how the actor loop
//! reacts to its inputs.
use vstd::prelude::*;

pub mod codec;
pub mod primitives;
pub mod crypto;
pub mod candidate;
pub mod activation;
pub mod subsystem;
