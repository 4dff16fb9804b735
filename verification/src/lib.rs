//! A minimal host layer for an embedded script engine: module resolution
//! across an internal, compiled-in namespace and the filesystem, a catalogue
//! of host operations (filesystem, HTTP fetch, timers, hashing), and the
//! bootstrap sequencing that evaluates an internal module before the user's
//! main module.

pub mod fetch;
pub mod loader;
pub mod ops;
pub mod pending;
pub mod resolver;
pub mod sequencer;
pub mod strutil;
pub mod trusted;
