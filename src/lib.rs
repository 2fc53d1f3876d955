//! Discovery, connection and command-write core for one known wireless
//! peripheral. The radio I/O itself is performed by the caller; this crate
//! decides what to do next and keeps the single connection slot.
use vstd::prelude::*;

pub mod command;
pub mod discovery;
pub mod error;
pub mod ids;
pub mod laws;
pub mod slot;

verus! {

} // verus!
