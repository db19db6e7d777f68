//! Orchestration of a double-buffered cellular automaton that a compute
//! kernel advances one generation per frame: grid parameters, the initial
//! cell state, the fixed binding table, and the dispatch that each step
//! records.

pub mod error;
pub mod dispatch;
pub mod bytes;
pub mod life_params;
pub mod binding;
pub mod cells;
pub mod texture;
pub mod life;
