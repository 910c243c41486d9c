//! A terminal task list: a store of tasks with a selection cursor, and the
//! interaction state machine (View, Edit, Help) that key presses drive.
//!
//! `task` holds a single task and its status cycle, `store` the ordered task
//! collection, `controller` the modes and the key handling, and `laws` the
//! properties proved of them across several operations.
use vstd::prelude::*;

pub mod controller;
pub mod laws;
pub mod store;
pub mod task;

verus! {

} // verus!
