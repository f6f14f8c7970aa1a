//! A service container: a registry of factories and shared instances keyed
//! by service identity, a resolution engine that decides how each request is
//! served, and a two-phase provider lifecycle.
//!
//! Factories and provider callbacks are user code that calls back into the
//! container, so the library decides and the host performs: the container
//! hands out the next action, the host runs it and reports what it built.

pub mod container;
pub mod laws;
pub mod lifecycle;
pub mod resolution;
