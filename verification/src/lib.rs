//! Virtual-deadline scheduling decisions for a user-space CPU scheduler.
pub mod decay;
pub mod dispatch;
pub mod queue;
pub mod scheduler;
pub mod settings;
pub mod task;
