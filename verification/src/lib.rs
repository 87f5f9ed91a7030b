//! A logging facade: callers emit leveled, targeted log events without
//! depending on a concrete logging backend. Every event is filtered against
//! a fixed maximum level chosen when the facade is built and a runtime
//! adjustable maximum level; only events that pass both ceilings are turned
//! into records and handed to the single registered backend.

pub mod level;
pub mod record;
pub mod backend;
pub mod registry;
pub mod dispatch;
