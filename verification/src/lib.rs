//! Runtime reload coordination for the diagnostic adapter: the reload
//! contexts handed to reloadable components, the priority-ordered registry
//! that notifies them, the single-use installation of freshly created
//! components, and the communication lifecycle state.

pub mod error;
pub mod updateable;
pub mod registry;
pub mod notify;
pub mod lifecycle;
pub mod reloadables;
