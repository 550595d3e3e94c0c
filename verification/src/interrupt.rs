//! One-way messages handed to the external compile subsystem.
//!
//! The core never blocks on the compile subsystem: every mutation appends
//! the interrupts it produces to an outbox, in submission order, and the
//! host forwards them.  A change-set is immutable once constructed and at
//! most one is produced per triggering event.

use vstd::prelude::*;

use crate::entry::{TaskInputs, TaskView};
use crate::paths::DocPath;

verus! {

/// An immutable batch of inserted snapshots and removed paths.
#[derive(Debug, Clone)]
pub struct FileChangeSet {
    /// Paths inserted or overwritten, with their full byte snapshots.
    pub inserts: Vec<(DocPath, Vec<u8>)>,
    /// Paths removed.
    pub removes: Vec<DocPath>,
}

/// Mathematical image of a [`FileChangeSet`].
#[verifier::ext_equal]
pub struct ChangeSetView {
    /// Inserted snapshots.
    pub inserts: Seq<(Seq<u8>, Seq<u8>)>,
    /// Removed paths.
    pub removes: Seq<Seq<u8>>,
}

impl View for FileChangeSet {
    type V = ChangeSetView;

    open spec fn view(&self) -> ChangeSetView {
        ChangeSetView {
            inserts: self.inserts@.map_values(|pr: (DocPath, Vec<u8>)| (pr.0@, pr.1@)),
            removes: self.removes@.map_values(|p: DocPath| p@),
        }
    }
}

impl FileChangeSet {
    /// A change-set carrying only inserts.
    pub fn new_inserts(inserts: Vec<(DocPath, Vec<u8>)>) -> (r: FileChangeSet)
        ensures
            r@.inserts == inserts@.map_values(|pr: (DocPath, Vec<u8>)| (pr.0@, pr.1@)),
            r@.removes == Seq::<Seq<u8>>::empty(),
    {
        let r = FileChangeSet { inserts, removes: Vec::new() };
        proof {
            assert(r@.removes =~= Seq::<Seq<u8>>::empty());
        }
        r
    }

    /// A change-set carrying only removals.
    pub fn new_removes(removes: Vec<DocPath>) -> (r: FileChangeSet)
        ensures
            r@.removes == removes@.map_values(|p: DocPath| p@),
            r@.inserts == Seq::<(Seq<u8>, Seq<u8>)>::empty(),
    {
        let r = FileChangeSet { inserts: Vec::new(), removes };
        proof {
            assert(r@.inserts =~= Seq::<(Seq<u8>, Seq<u8>)>::empty());
        }
        r
    }
}

/// A one-way message to the compile subsystem.
#[derive(Debug, Clone)]
pub enum Interrupt {
    /// In-memory snapshots changed.
    Memory(FileChangeSet),
    /// One task's inputs changed.
    ChangeTask(u64, TaskInputs),
}

/// Mathematical image of an [`Interrupt`].
#[verifier::ext_equal]
pub enum InterruptView {
    /// In-memory snapshots changed.
    Memory(ChangeSetView),
    /// One task's inputs changed.
    ChangeTask(u64, TaskView),
}

impl View for Interrupt {
    type V = InterruptView;

    open spec fn view(&self) -> InterruptView {
        match self {
            Interrupt::Memory(files) => InterruptView::Memory(files@),
            Interrupt::ChangeTask(id, task) => InterruptView::ChangeTask(*id, task@),
        }
    }
}

/// The image of a memory interrupt inserting one snapshot.
pub open spec fn memory_insert_intr(p: Seq<u8>, t: Seq<u8>) -> InterruptView {
    InterruptView::Memory(ChangeSetView { inserts: seq![(p, t)], removes: Seq::empty() })
}

/// The image of a memory interrupt removing one path.
pub open spec fn memory_remove_intr(p: Seq<u8>) -> InterruptView {
    InterruptView::Memory(ChangeSetView { inserts: Seq::empty(), removes: seq![p] })
}

/// The image of a change-task interrupt.
pub open spec fn change_task_intr(id: u64, t: TaskView) -> InterruptView {
    InterruptView::ChangeTask(id, t)
}

/// The images of a whole outbox, in submission order.
pub open spec fn intr_views(s: Seq<Interrupt>) -> Seq<InterruptView> {
    s.map_values(|i: Interrupt| i@)
}

/// Appending to the outbox appends the image: submission order is kept and
/// per-document edits are never reordered relative to each other.
pub proof fn lemma_intr_views_push(s: Seq<Interrupt>, x: Interrupt)
    ensures
        intr_views(s.push(x)) == intr_views(s).push(x@),
{
    assert(intr_views(s.push(x)) =~= intr_views(s).push(x@));
}

} // verus!
