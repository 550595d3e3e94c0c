//! State-synchronization core of an editor-integration language server.
//!
//! The crate keeps the authoritative in-memory view of every open document,
//! applies editor edit batches to produce consistent content snapshots,
//! arbitrates which file is the primary compilation entry under pin / focus /
//! implicit-focus heuristics, and reconciles configuration updates into
//! selective invalidation actions.  All outside collaborators (the compile
//! subsystem, the editor client, the lock database) are reached through plain
//! values: state transitions return the interrupt messages and actions that a
//! host is expected to forward.

use vstd::prelude::*;

pub mod code_lens;
pub mod codec;
pub mod config;
pub mod entry;
pub mod focus;
pub mod interrupt;
pub mod overlay;
pub mod paths;
pub mod server;

verus! {

/// Errors surfaced by the synchronization core.
///
/// `ResolutionUnavailable` never escapes resolution: a lock-database miss is a
/// designed fallback, not an error, so no public function returns it.
#[derive(Debug, Clone, Copy, PartialEq, Eq, Structural)]
pub enum SyncError {
    /// The document lifecycle operation targeted a path that is not open.
    NotOpen,
    /// An open was issued for a path that is already open.
    DuplicateOpen,
    /// An edit range does not fall within the document's current text.
    InvalidRange,
    /// A main-file path is neither absolute nor under the virtual namespace.
    InvalidEntryPath,
    /// A configuration update could not be merged; the old snapshot stays.
    InvalidConfiguration,
}

} // verus!
