//! The scheduling half of a stream-processing job controller: how a job's program is put on
//! workers, what the attempts to start it oblige the controller to, and how the job's states
//! follow one another.

use vstd::prelude::*;

pub mod admission;
pub mod collections;
pub mod job;
pub mod lifecycle;
pub mod messages;
pub mod recovering;
pub mod rescaling;
pub mod restarting;
pub mod running;
pub mod scheduling;
pub mod states;
pub mod text;
pub mod types;

verus! {

} // verus!
