pub mod anchor;
pub mod mapping;
pub mod metrics;
pub mod queue;
pub mod routing;
pub mod shortcut_worker;
pub mod worker;
pub mod laws;
