//! Decision logic of a desktop package installer: download progress, the
//! accepted package format, archive entry vetting, system registration
//! plans, the installation pipeline, the preparation of the install
//! directory and the launcher hand-off.
//!
//! The crate fetches nothing and writes nothing. Its caller does the network,
//! file system, registry and shell work and reports how each piece went; the
//! crate answers with what to announce and what to do next.

pub mod archive;
pub mod failure;
pub mod format;
pub mod launcher;
pub mod pipeline;
pub mod preflight;
pub mod progress;
pub mod registry;
pub mod runs;
pub mod shortcut;
