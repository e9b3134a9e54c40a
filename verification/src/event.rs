//! What a filesystem notification says, as far as the watcher reads it.

use vstd::prelude::*;

verus! {

/// How the file was open when it was accessed.
#[derive(Debug, Clone, Copy, PartialEq, Eq, Structural)]
pub enum AccessMode {
    Any,
    Execute,
    Read,
    Write,
    Other,
}

/// The kind of an access to the file.
#[derive(Debug, Clone, Copy, PartialEq, Eq, Structural)]
pub enum AccessKind {
    Any,
    Read,
    Open(AccessMode),
    Close(AccessMode),
    Other,
}

/// The kind of a change that the filesystem reports for the watched path.
#[derive(Debug, Clone, Copy, PartialEq, Eq, Structural)]
pub enum EventKind {
    Any,
    Access(AccessKind),
    Create,
    Modify,
    Remove,
    Other,
}

impl EventKind {
    /// A writer has finished and closed the file: the one kind of event after
    /// which the file is read. Opening, moving and partial writes are not.
    pub open spec fn content_finalized(self) -> bool {
        self == EventKind::Access(AccessKind::Close(AccessMode::Write))
    }

    /// Whether the event says that a writer has closed the file.
    pub fn is_content_finalized(&self) -> (finalized: bool)
        ensures
            finalized == self.content_finalized(),
    {
        match self {
            EventKind::Access(AccessKind::Close(AccessMode::Write)) => true,
            _ => false,
        }
    }
}

} // verus!
