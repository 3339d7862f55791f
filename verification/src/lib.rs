//! A focus-triggered resource governor.
//!
//! The governor watches which application holds the input focus and keeps a
//! CPU-throttling helper running against one monitored process for as long as
//! the target application is not the one in focus. This crate holds the
//! decisions: how a focus notification is classified, how the monitored
//! process is found in a process snapshot, and the state machine that says
//! when the helper is started, kept, or terminated. The driver around it
//! carries out each requested action and reports its outcome back.

pub mod event;
pub mod finder;
pub mod governor;
pub mod helper;
pub mod reconcile;
