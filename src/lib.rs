//! Decision logic of a CPU, memory and GPU load generator.
//!
//! The library holds what the load generator decides: the two-state
//! start/stop machine that reacts to window events, and the memory-load
//! pass that rewrites a large buffer. Windowing, rendering and the worker
//! threads live with the program that drives this library.

pub mod control;
pub mod memory;
