//! Cross-platform input-synthesis engine: a portable key/button vocabulary,
//! a catalog mapping it onto the platform backend's key space, and an engine
//! that sequences press/release/click/scroll/text requests, tracks which keys
//! are logically held, and surfaces every backend failure to the caller.

pub mod backend;
pub mod engine;
pub mod keys;
