//! Handler resolution for a file-opening utility.
//!
//! Given a path or URL, the library picks a handler: either a desktop
//! application registered under a name, or a pattern-based command rule.
//! Pattern handlers are routed through an ordered table with first-match
//! semantics; named handlers are resolved against a registry of launch
//! entries. Either way the result is a launch entry that the caller
//! executes outside this library.

pub mod entry;
pub mod error;
pub mod handler;
pub mod patterns;
pub mod registry;
pub mod text;
