//! Client-side registry of the top-level windows that a compositor announces,
//! and the event-commit protocol that keeps an observer in step with them.

pub mod dispatch;
pub mod laws;
pub mod registry;
pub mod slots;
pub mod toplevels;
