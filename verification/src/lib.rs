//! Verified core of the Velocis video editor: media and track kinds, the
//! persisted-name encodings, identifiers, labels, paths, the saved recent
//! project list and the editor's non-timing state machine.

pub mod kinds;
pub mod text;
pub mod ids;
pub mod labels;
pub mod paths;
pub mod timeline;
pub mod import;
pub mod state;
pub mod persist;
pub mod commands;
