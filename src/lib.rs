//! Typed access to single memory registers under three aliasing regimes:
//! exclusively owned, shared within one thread, and shared across threads.

pub mod cells;
pub mod mem;
pub mod order;
pub mod register;
pub mod store;
