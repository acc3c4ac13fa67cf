//! The entities of the engine: episodes and the two durable stores, with the
//! decision of the protocol that reconciles a store with its file.
pub mod config;
pub mod episode;
pub mod history;

use vstd::prelude::*;

verus! {

/// What a store's sync does once it has compared its remembered
/// modification time with the file's.
#[derive(Debug, Clone, Copy, PartialEq, Eq, Structural)]
pub enum SyncAction {
    /// No one edited the file since the store last touched it: the in-memory
    /// copy is written back.
    WriteBack,
    /// The file was edited since: it is read, merged into the store, and the
    /// result written back.
    MergeThenWriteBack,
}

/// The decision of a sync, from the remembered modification time and the
/// file's current one (both in nanoseconds since the Unix epoch).
pub open spec fn sync_plan(remembered: u128, on_disk: u128) -> SyncAction {
    if remembered >= on_disk {
        SyncAction::WriteBack
    } else {
        SyncAction::MergeThenWriteBack
    }
}

/// Decides a sync: write back when the remembered time is the same as or
/// newer than the file's, else read, merge and write back.
pub fn sync_action(remembered: u128, on_disk: u128) -> (r: SyncAction)
    ensures
        r == sync_plan(remembered, on_disk),
{
    if remembered >= on_disk {
        SyncAction::WriteBack
    } else {
        SyncAction::MergeThenWriteBack
    }
}

} // verus!
