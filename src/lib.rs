//! Throttles known background helper processes: watches process creation,
//! matches each new process name against a denylist, and moves matching
//! processes into the power-throttled (EcoQoS) state at idle priority.
pub mod config;
pub mod error;
pub mod lookup;
pub mod matcher;
pub mod monitor;
pub mod platform;
pub mod snapshot;
pub mod throttle;
