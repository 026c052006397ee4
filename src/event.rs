use vstd::prelude::*;

verus! {

/// The kind of a raw file-system notification, as far as the monitor tells
/// them apart.
#[derive(Clone, Copy, Debug, PartialEq, Eq, Structural)]
pub enum EventKind {
    /// A file handle that had been opened for writing was closed.
    CloseAfterWrite,
    /// A file handle that had only been read from was closed.
    CloseAfterRead,
    /// Any other access: open, read, execute.
    Access,
    /// The bytes of the file changed.
    DataModified,
    /// Permissions, timestamps, ownership or extended attributes changed.
    MetadataModified,
    /// The file was renamed.
    Renamed,
    /// The file was created.
    Created,
    /// The file was removed.
    Removed,
    /// Anything the watcher could not classify.
    Other,
}

/// A qualifying event is one that signals that the content of a file may
/// have changed: a close after writing, or a change of the data itself.
pub open spec fn qualifies(kind: EventKind) -> bool {
    kind == EventKind::CloseAfterWrite || kind == EventKind::DataModified
}

/// Whether an event of this kind is worth dispatching to a callback.
pub fn is_qualifying(kind: EventKind) -> (r: bool)
    ensures
        r == qualifies(kind),
{
    match kind {
        EventKind::CloseAfterWrite => true,
        EventKind::DataModified => true,
        _ => false,
    }
}

} // verus!
