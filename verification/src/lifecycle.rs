//! A job's lifecycle: who may decide its transitions, and what its workers have answered.

use vstd::prelude::*;

pub mod alert;
pub mod fence;
pub mod intent;
pub mod mode;
pub mod recovery;
pub mod root;
pub mod settlement;
pub mod waiting;
pub mod witness;

verus! {

} // verus!
