//! Extension modules for a request-processing server.
//!
//! A host server can be extended with independently compiled shared
//! libraries ("modules"), each exporting a filter predicate and a handler.
//! This crate holds the logic of that mechanism: selecting the
//! platform-appropriate library file pattern ([`locator`]), building an
//! ordered registry from the outcomes of the load attempts ([`registry`]),
//! and dispatching each incoming request to the first registered module
//! whose filter claims it ([`dispatch`]).
//!
//! Walking the modules directory and loading shared libraries into the
//! process are the host's concern: they happen outside this crate, which
//! only sees the outcomes.

pub mod dispatch;
pub mod locator;
pub mod registry;
