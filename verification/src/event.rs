//! What a watch source reports of a change, and which reports count.

use vstd::prelude::*;

verus! {

/// What kind of entry was created or removed, as far as the source knows.
#[derive(Clone, Copy, Debug, PartialEq, Eq, Structural)]
pub enum EntryKind {
    /// The source does not know.
    Any,
    /// A file.
    File,
    /// A folder.
    Folder,
    /// Something else.
    Other,
}

/// What was modified.
#[derive(Clone, Copy, Debug, PartialEq, Eq, Structural)]
pub enum ModifyKind {
    /// The source does not know.
    Any,
    /// The content of a file.
    Data,
    /// Metadata only: times, permissions, ownership.
    Metadata,
    /// The name: the entry was renamed or moved.
    Name,
    /// Something else.
    Other,
}

/// The kind of a raw event, as the watch source delivers it.
#[derive(Clone, Copy, Debug, PartialEq, Eq, Structural)]
pub enum EventKind {
    /// Something happened; the source does not know what.
    Any,
    /// An entry was opened, read or closed.
    Access,
    /// An entry was created.
    Create(EntryKind),
    /// An entry was modified.
    Modify(ModifyKind),
    /// An entry was removed.
    Remove(EntryKind),
    /// Something else.
    Other,
}

/// What a raw event means for the watched files.
#[derive(Clone, Copy, Debug, PartialEq, Eq, Structural)]
pub enum ChangeKind {
    /// A file was created.
    Created,
    /// The content of a file was modified.
    DataModified,
    /// A path was renamed.
    NameModified,
    /// A file was removed.
    Removed,
    /// Anything else: folder events, access and metadata events, and whatever
    /// the source could not tell.
    Other,
}

/// The change that a raw kind stands for.
pub open spec fn change_of(kind: EventKind) -> ChangeKind {
    match kind {
        EventKind::Create(EntryKind::File) => ChangeKind::Created,
        EventKind::Modify(ModifyKind::Data) => ChangeKind::DataModified,
        EventKind::Modify(ModifyKind::Name) => ChangeKind::NameModified,
        EventKind::Remove(EntryKind::File) => ChangeKind::Removed,
        _ => ChangeKind::Other,
    }
}

/// A change is relevant when it may have changed what a file holds or where it
/// is found.
pub open spec fn relevant(change: ChangeKind) -> bool {
    change != ChangeKind::Other
}

/// Computes [`change_of`].
pub fn classify(kind: &EventKind) -> (change: ChangeKind)
    ensures
        change == change_of(*kind),
{
    match kind {
        EventKind::Create(EntryKind::File) => ChangeKind::Created,
        EventKind::Modify(ModifyKind::Data) => ChangeKind::DataModified,
        EventKind::Modify(ModifyKind::Name) => ChangeKind::NameModified,
        EventKind::Remove(EntryKind::File) => ChangeKind::Removed,
        _ => ChangeKind::Other,
    }
}

/// Whether a change is relevant: true for the creation of a file, a change of
/// a file's content, a rename and the removal of a file, false for all else.
pub fn is_relevant(change: ChangeKind) -> (yes: bool)
    ensures
        yes == relevant(change),
        yes == (change == ChangeKind::Created || change == ChangeKind::DataModified || change
            == ChangeKind::NameModified || change == ChangeKind::Removed),
{
    match change {
        ChangeKind::Other => false,
        _ => true,
    }
}

/// Whether a raw event kind reports a relevant change.
pub fn is_relevant_event(kind: &EventKind) -> (yes: bool)
    ensures
        yes == relevant(change_of(*kind)),
        yes == (*kind == EventKind::Create(EntryKind::File) || *kind == EventKind::Modify(
            ModifyKind::Data,
        ) || *kind == EventKind::Modify(ModifyKind::Name) || *kind == EventKind::Remove(
            EntryKind::File,
        )),
{
    is_relevant(classify(kind))
}

} // verus!
