//! The process runtime's verified core: supervision with restart counting,
//! escalation and one-for-all restarts, and its process lifecycle.
pub mod exit;
pub mod lifecycle;
pub mod node;
pub mod process;
pub mod stream;
pub mod supervision;
pub mod supervisor;

pub use exit::{ExitReason, SharedErr};
