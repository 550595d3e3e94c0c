//! The server's synchronization state: the document overlay, the current
//! configuration snapshot, the focus/pin session flags, the lock-database
//! route, and the outbox of interrupts for the compile subsystem.
//!
//! All mutations run on one coordination context; the compile subsystem is
//! reached only through the one-way interrupt outbox and never waited for.

use vstd::prelude::*;

use crate::codec::PositionEncoding;
use crate::config::{diff_actions, diff_config, initial_config, merge_settings, merge_spec,
    Config, ConfigAction, ProjectResolutionKind, Settings};
use crate::entry::{record_main_of, record_root_of, resolve_task_spec, task_without_lock_spec,
    EntryResolver, ProjectRoute, ResolverView, TaskInputs, TaskView};
use crate::interrupt::{intr_views, lemma_intr_views_push, memory_insert_intr,
    memory_remove_intr, FileChangeSet, Interrupt, InterruptView};
use crate::overlay::{apply_changes, apply_changes_spec, dup_bytes, TextChange};
use crate::paths::{opt_path_view, DocPath};
use crate::SyncError;

verus! {

/// Resolution of an optional focused path against a state's configuration
/// and route: a known path goes through [`resolve_task_spec`], an absent
/// one through the policy default.
pub open spec fn resolve_task_or_spec(s: &ServerState, path: Option<Seq<u8>>) -> TaskView {
    match path {
        Some(p) => resolve_task_spec(s.resolver_view(), s.lock_mode(), s.route, p),
        None => task_without_lock_spec(s.resolver_view(), None),
    }
}

/// One open document: its path and its authoritative text.
#[derive(Debug, Clone)]
pub struct OpenDoc {
    /// The document's normalized path.
    pub path: DocPath,
    /// The current text, as bytes.
    pub text: Vec<u8>,
}

/// No two open documents share a path.
pub open spec fn docs_unique(docs: Seq<OpenDoc>) -> bool {
    forall|i: int, j: int|
        0 <= i < j < docs.len() ==> docs[i].path@ != docs[j].path@
}

/// Whether a path is open.
pub open spec fn docs_contain(docs: Seq<OpenDoc>, p: Seq<u8>) -> bool {
    exists|i: int| 0 <= i < docs.len() && docs[i].path@ == p
}

/// The index of an open path; meaningful under [`docs_contain`] and unique
/// under [`docs_unique`].
pub open spec fn doc_index(docs: Seq<OpenDoc>, p: Seq<u8>) -> int {
    choose|i: int| 0 <= i < docs.len() && docs[i].path@ == p
}

/// The current text of an open path.
pub open spec fn doc_text(docs: Seq<OpenDoc>, p: Seq<u8>) -> Seq<u8> {
    docs[doc_index(docs, p)].text@
}

/// After a close, the closed path is absent from the overlay.  Combined
/// with `edit_source`'s contract — an edit on an untracked path fails with
/// `NotOpen` and changes nothing — a whole open, edits, close sequence
/// leaves no way to touch the path again without reopening it.
pub proof fn lemma_closed_path_absent(docs: Seq<OpenDoc>, p: Seq<u8>)
    requires
        docs_unique(docs),
        docs_contain(docs, p),
    ensures
        !docs_contain(docs.remove(doc_index(docs, p)), p),
{
    let k = doc_index(docs, p);
    assert(0 <= k < docs.len() && docs[k].path@ == p);
    let nd = docs.remove(k);
    assert forall|i: int| 0 <= i < nd.len() implies nd[i].path@ != p by {
        let pi: int = if i < k {
            i
        } else {
            i + 1
        };
        assert(nd[i] == docs[pi]);
        if pi < k {
            assert(docs[pi].path@ != docs[k].path@);
        } else {
            assert(docs[k].path@ != docs[pi].path@);
        }
    }
}

/// Under uniqueness, any index holding `p` is the index of `p`.
pub proof fn lemma_doc_index_unique(docs: Seq<OpenDoc>, p: Seq<u8>, k: int)
    requires
        docs_unique(docs),
        0 <= k < docs.len(),
        docs[k].path@ == p,
    ensures
        docs_contain(docs, p),
        doc_index(docs, p) == k,
{
    assert(docs_contain(docs, p));
    let c = doc_index(docs, p);
    if c < k {
        assert(docs[c].path@ != docs[k].path@);
    } else if k < c {
        assert(docs[k].path@ != docs[c].path@);
    }
}

/// The synchronization state of one server session.
#[derive(Debug)]
pub struct ServerState {
    /// The open documents, no path twice.
    pub docs: Vec<OpenDoc>,
    /// The current configuration snapshot.
    pub config: Config,
    /// The lock-database route, read per resolution.
    pub route: ProjectRoute,
    /// Whether an explicit pin is active.
    pub pinning: bool,
    /// The last recorded focus path.
    pub focusing: Option<DocPath>,
    /// Whether a manual pin/focus command has ever occurred this session.
    pub ever_manual_focusing: bool,
    /// Whether a focus-sensitive read-only request has ever occurred.
    pub ever_focusing_by_activities: bool,
    /// Identity of the primary compilation task.
    pub primary_task_id: u64,
    /// Outbox of interrupts for the compile subsystem, in submission order.
    pub interrupts: Vec<Interrupt>,
}

impl ServerState {
    /// The state's structural invariant: the overlay holds no path twice.
    pub open spec fn wf(&self) -> bool {
        docs_unique(self.docs@)
    }

    /// The images of the interrupt outbox, in submission order.
    pub open spec fn intr_log(&self) -> Seq<InterruptView> {
        intr_views(self.interrupts@)
    }

    /// Everything a document-lifecycle operation must leave alone.
    pub open spec fn doc_ops_frame(&self, post: &ServerState) -> bool {
        &&& post.config == self.config
        &&& post.route == self.route
        &&& post.pinning == self.pinning
        &&& post.focusing == self.focusing
        &&& post.ever_manual_focusing == self.ever_manual_focusing
        &&& post.ever_focusing_by_activities == self.ever_focusing_by_activities
        &&& post.primary_task_id == self.primary_task_id
    }

    /// A fresh session: nothing open, initial configuration, no route
    /// mappings, all focus flags clear, empty outbox.
    pub fn new() -> (r: ServerState)
        ensures
            r.wf(),
            r.docs@ == Seq::<OpenDoc>::empty(),
            r.config@ == initial_config(),
            r.route.routes@ == Seq::<crate::entry::RouteMapping>::empty(),
            r.route.locks@ == Seq::<crate::entry::LockSlot>::empty(),
            !r.pinning,
            r.focusing is None,
            !r.ever_manual_focusing,
            !r.ever_focusing_by_activities,
            r.primary_task_id == 0,
            r.intr_log() == Seq::<InterruptView>::empty(),
    {
        let r = ServerState {
            docs: Vec::new(),
            config: Config::initial(),
            route: ProjectRoute { routes: Vec::new(), locks: Vec::new() },
            pinning: false,
            focusing: None,
            ever_manual_focusing: false,
            ever_focusing_by_activities: false,
            primary_task_id: 0,
            interrupts: Vec::new(),
        };
        proof {
            assert(r.docs@ =~= Seq::<OpenDoc>::empty());
            assert(r.route.routes@ =~= Seq::<crate::entry::RouteMapping>::empty());
            assert(r.route.locks@ =~= Seq::<crate::entry::LockSlot>::empty());
            assert(r.intr_log() =~= Seq::<InterruptView>::empty());
        }
        r
    }

    /// Linear search for an open path.
    fn find_doc(&self, path: &DocPath) -> (r: Option<usize>)
        ensures
            match r {
                Some(i) => i < self.docs@.len() && self.docs@[i as int].path@ == path@,
                None => !docs_contain(self.docs@, path@),
            },
    {
        let mut i: usize = 0;
        while i < self.docs.len()
            invariant
                i <= self.docs@.len(),
                forall|j: int| 0 <= j < i ==> self.docs@[j].path@ != path@,
            decreases self.docs@.len() - i,
        {
            if crate::paths::path_eq(&self.docs[i].path, path) {
                return Some(i);
            }
            i = i + 1;
        }
        None
    }

    /// Appends one memory interrupt to the outbox; the compile subsystem
    /// owns its own queuing, so this never fails and never blocks.
    fn update_sources(&mut self, files: FileChangeSet) -> (r: Result<(), SyncError>)
        ensures
            r is Ok,
            final(self).docs == old(self).docs,
            old(self).doc_ops_frame(final(self)),
            final(self).intr_log() == old(self).intr_log().push(InterruptView::Memory(files@)),
    {
        proof {
            lemma_intr_views_push(self.interrupts@, Interrupt::Memory(files));
        }
        self.interrupts.push(Interrupt::Memory(files));
        Ok(())
    }

    /// Opens a document: inserts it if absent, fails with `DuplicateOpen`
    /// if it is already open (re-opening is rejected rather than silently
    /// overwriting), and emits one change-set inserting the full snapshot.
    pub fn create_source(&mut self, path: DocPath, content: Vec<u8>) -> (r: Result<
        (),
        SyncError,
    >)
        requires
            old(self).wf(),
        ensures
            final(self).wf(),
            old(self).doc_ops_frame(final(self)),
            docs_contain(old(self).docs@, path@) ==> {
                &&& r == Err::<(), SyncError>(SyncError::DuplicateOpen)
                &&& final(self).docs == old(self).docs
                &&& final(self).intr_log() == old(self).intr_log()
            },
            !docs_contain(old(self).docs@, path@) ==> {
                &&& r is Ok
                &&& final(self).docs@ == old(self).docs@.push(
                    OpenDoc { path: path, text: content },
                )
                &&& final(self).intr_log() == old(self).intr_log().push(
                    memory_insert_intr(path@, content@),
                )
            },
    {
        match self.find_doc(&path) {
            Some(_) => Err(SyncError::DuplicateOpen),
            None => {
                let snapshot = dup_bytes(&content);
                let path_copy = path.dup();
                let doc = OpenDoc { path: path, text: content };
                let ghost pre_docs = self.docs@;
                self.docs.push(doc);
                proof {
                    let nd = self.docs@;
                    assert forall|i: int, j: int|
                        0 <= i < j < nd.len() implies nd[i].path@ != nd[j].path@ by {
                        if j < nd.len() - 1 {
                            assert(pre_docs[i].path@ != pre_docs[j].path@);
                        } else {
                            assert(!(exists|k: int|
                                0 <= k < pre_docs.len() && pre_docs[k].path@ == path@));
                            assert(nd[i] == pre_docs[i]);
                        }
                    }
                }
                let files = FileChangeSet::new_inserts(vec![(path_copy, snapshot)]);
                proof {
                    assert(files@ =~= (memory_insert_intr(path@, content@)->Memory_0));
                }
                self.update_sources(files)
            },
        }
    }

    /// Closes a document: fails with `NotOpen` if the path is not tracked,
    /// otherwise removes it and emits one change-set removing the path.
    pub fn remove_source(&mut self, path: DocPath) -> (r: Result<(), SyncError>)
        requires
            old(self).wf(),
        ensures
            final(self).wf(),
            old(self).doc_ops_frame(final(self)),
            !docs_contain(old(self).docs@, path@) ==> {
                &&& r == Err::<(), SyncError>(SyncError::NotOpen)
                &&& final(self).docs == old(self).docs
                &&& final(self).intr_log() == old(self).intr_log()
            },
            docs_contain(old(self).docs@, path@) ==> {
                &&& r is Ok
                &&& final(self).docs@ == old(self).docs@.remove(
                    doc_index(old(self).docs@, path@),
                )
                &&& !docs_contain(final(self).docs@, path@)
                &&& final(self).intr_log() == old(self).intr_log().push(
                    memory_remove_intr(path@),
                )
            },
    {
        match self.find_doc(&path) {
            None => Err(SyncError::NotOpen),
            Some(k) => {
                proof {
                    lemma_doc_index_unique(self.docs@, path@, k as int);
                }
                let ghost pre_docs = self.docs@;
                let _removed = self.docs.remove(k);
                proof {
                    let nd = self.docs@;
                    assert forall|i: int, j: int|
                        0 <= i < j < nd.len() implies nd[i].path@ != nd[j].path@ by {
                        let pi: int = if i < k { i } else { i + 1 };
                        let pj: int = if j < k { j } else { j + 1 };
                        assert(nd[i] == pre_docs[pi]);
                        assert(nd[j] == pre_docs[pj]);
                        assert(pre_docs[pi].path@ != pre_docs[pj].path@);
                    }
                    assert forall|i: int|
                        0 <= i < nd.len() implies nd[i].path@ != path@ by {
                        let pi: int = if i < k { i } else { i + 1 };
                        assert(nd[i] == pre_docs[pi]);
                        if pi < k {
                            assert(pre_docs[pi].path@ != pre_docs[k as int].path@);
                        } else {
                            assert(pre_docs[k as int].path@ != pre_docs[pi].path@);
                        }
                    }
                }
                let files = FileChangeSet::new_removes(vec![path]);
                proof {
                    assert(files@ =~= (memory_remove_intr(path@)->Memory_0));
                }
                self.update_sources(files)
            },
        }
    }

    /// Edits a document: fails with `NotOpen` for an untracked path; decodes
    /// each change's range against the text left by the previous change and
    /// splices the replacement in; a range that does not fall within the
    /// text fails with `InvalidRange` and leaves the document untouched (the
    /// batch is atomic).  On success emits one change-set inserting the
    /// final full snapshot.
    pub fn edit_source(
        &mut self,
        path: DocPath,
        content: Vec<TextChange>,
        position_encoding: PositionEncoding,
    ) -> (r: Result<(), SyncError>)
        requires
            old(self).wf(),
        ensures
            final(self).wf(),
            old(self).doc_ops_frame(final(self)),
            !docs_contain(old(self).docs@, path@) ==> {
                &&& r == Err::<(), SyncError>(SyncError::NotOpen)
                &&& final(self).docs == old(self).docs
                &&& final(self).intr_log() == old(self).intr_log()
            },
            docs_contain(old(self).docs@, path@) ==> match apply_changes_spec(
                doc_text(old(self).docs@, path@),
                content@,
                position_encoding,
            ) {
                Some(t) => {
                    &&& r is Ok
                    &&& final(self).docs@.len() == old(self).docs@.len()
                    &&& forall|j: int|
                        0 <= j < old(self).docs@.len() && j != doc_index(
                            old(self).docs@,
                            path@,
                        ) ==> final(self).docs@[j] == old(self).docs@[j]
                    &&& final(self).docs@[doc_index(old(self).docs@, path@)].path@ == path@
                    &&& final(self).docs@[doc_index(old(self).docs@, path@)].text@ == t
                    &&& final(self).intr_log() == old(self).intr_log().push(
                        memory_insert_intr(path@, t),
                    )
                },
                None => {
                    &&& r == Err::<(), SyncError>(SyncError::InvalidRange)
                    &&& final(self).docs == old(self).docs
                    &&& final(self).intr_log() == old(self).intr_log()
                },
            },
    {
        match self.find_doc(&path) {
            None => Err(SyncError::NotOpen),
            Some(k) => {
                proof {
                    lemma_doc_index_unique(self.docs@, path@, k as int);
                }
                match apply_changes(&self.docs[k].text, &content, position_encoding) {
                    None => Err(SyncError::InvalidRange),
                    Some(t) => {
                        let snapshot = dup_bytes(&t);
                        let ghost pre_docs = self.docs@;
                        let removed = self.docs.remove(k);
                        let newdoc = OpenDoc { path: removed.path, text: t };
                        self.docs.insert(k, newdoc);
                        proof {
                            assert(self.docs@ =~= pre_docs.update(
                                k as int,
                                OpenDoc { path: removed.path, text: t },
                            ));
                            let nd = self.docs@;
                            assert forall|i: int, j: int|
                                0 <= i < j < nd.len() implies nd[i].path@ != nd[j].path@ by {
                                assert(nd[i].path@ == pre_docs[i].path@);
                                assert(nd[j].path@ == pre_docs[j].path@);
                                assert(pre_docs[i].path@ != pre_docs[j].path@);
                            }
                        }
                        let files = FileChangeSet::new_inserts(vec![(path, snapshot)]);
                        proof {
                            assert(files@ =~= (memory_insert_intr(path@, snapshot@)->Memory_0));
                        }
                        self.update_sources(files)
                    },
                }
            },
        }
    }

    /// The entry-resolution policy the current configuration induces.
    pub open spec fn resolver_view(&self) -> ResolverView {
        ResolverView {
            root_path: self.config@.root_path,
            default_entry: self.config@.default_entry,
        }
    }

    /// Whether lock-database (multi-project) resolution is configured.
    pub open spec fn lock_mode(&self) -> bool {
        self.config@.project_resolution == ProjectResolutionKind::LockDatabase
    }

    /// Builds the policy from the current configuration.
    pub(crate) fn resolver(&self) -> (r: EntryResolver)
        ensures
            r@ == self.resolver_view(),
    {
        let r = self.config.entry_resolver();
        proof {
            assert(r@ =~= self.resolver_view());
        }
        r
    }

    /// Single-project resolution: asks the policy directly, with no root
    /// override; the fallback used when no path (or no lock record) is
    /// known.
    pub fn resolve_task_without_lock(&self, path: Option<DocPath>) -> (r: TaskInputs)
        ensures
            r@ == task_without_lock_spec(self.resolver_view(), opt_path_view(path)),
    {
        let entry = self.resolver().resolve(path);
        let r = TaskInputs { entry: Some(entry) };
        proof {
            assert(r@ =~= task_without_lock_spec(self.resolver_view(), opt_path_view(path)));
        }
        r
    }

    /// Full resolution of a known path.  Under lock-database mode the
    /// router, the lock file and its record are consulted in turn; the
    /// record's root and main are absolutized against the lock directory
    /// and combined by the policy.  A miss anywhere falls back silently to
    /// single-project resolution: that is the designed default path, not an
    /// error.
    pub fn resolve_task(&self, path: DocPath) -> (r: TaskInputs)
        ensures
            r@ == resolve_task_spec(self.resolver_view(), self.lock_mode(), self.route, path@),
    {
        if self.config.project_resolution == ProjectResolutionKind::LockDatabase {
            match self.route.resolve(&path) {
                Some(res) => match self.route.locate(res) {
                    Some(lock) => match lock.get_document(res.project_id) {
                        Some(rec) => {
                            let root = record_root_of(rec, &res.lock_dir);
                            let main = record_main_of(rec, &res.lock_dir, &path);
                            let entry = self.resolver().resolve_with_root(
                                Some(root),
                                Some(main),
                            );
                            let r = TaskInputs { entry: Some(entry) };
                            proof {
                                assert(r@ =~= resolve_task_spec(
                                    self.resolver_view(),
                                    self.lock_mode(),
                                    self.route,
                                    path@,
                                ));
                            }
                            return r;
                        },
                        None => {},
                    },
                    None => {},
                },
                None => {},
            }
        }
        let r = self.resolve_task_without_lock(Some(path));
        r
    }

    /// Resolution of an optional path: a known path goes through full
    /// resolution, an absent one through the policy's own default.
    pub fn resolve_task_or(&self, path: Option<DocPath>) -> (r: TaskInputs)
        ensures
            r@ == resolve_task_or_spec(self, opt_path_view(path)),
    {
        match path {
            Some(p) => self.resolve_task(p),
            None => self.resolve_task_without_lock(None),
        }
    }

    /// Applies a configuration update.  The settings map is merged into a
    /// working copy first; a rejected value fails with
    /// `InvalidConfiguration` and the old snapshot stays current.  On
    /// success the new snapshot replaces the old one and the reconciliation
    /// actions the host must perform are returned, in the fixed order of
    /// [`crate::config::diff_actions`].  Both the push and the pull
    /// delivery model converge on this routine.
    pub fn on_changed_configuration(&mut self, values: &Settings) -> (r: Result<
        Vec<ConfigAction>,
        SyncError,
    >)
        ensures
            final(self).docs == old(self).docs,
            final(self).route == old(self).route,
            final(self).pinning == old(self).pinning,
            final(self).focusing == old(self).focusing,
            final(self).ever_manual_focusing == old(self).ever_manual_focusing,
            final(self).ever_focusing_by_activities == old(self).ever_focusing_by_activities,
            final(self).primary_task_id == old(self).primary_task_id,
            final(self).intr_log() == old(self).intr_log(),
            match merge_spec(old(self).config@, values@) {
                Some(c) => {
                    &&& final(self).config@ == c
                    &&& r matches Ok(acts) && acts@ == diff_actions(old(self).config@, c)
                },
                None => {
                    &&& r == Err::<Vec<ConfigAction>, SyncError>(
                        SyncError::InvalidConfiguration,
                    )
                    &&& final(self).config == old(self).config
                },
            },
    {
        match merge_settings(&self.config, values) {
            None => Err(SyncError::InvalidConfiguration),
            Some(next) => {
                let actions = diff_config(&self.config, &next);
                self.config = next;
                Ok(actions)
            },
        }
    }

    /// Returns a clone of an open document's current text, or `NotOpen`.
    pub fn query_source(&self, path: &DocPath) -> (r: Result<Vec<u8>, SyncError>)
        requires
            self.wf(),
        ensures
            match r {
                Ok(t) => docs_contain(self.docs@, path@) && t@ == doc_text(
                    self.docs@,
                    path@,
                ),
                Err(e) => e == SyncError::NotOpen && !docs_contain(self.docs@, path@),
            },
    {
        match self.find_doc(path) {
            None => Err(SyncError::NotOpen),
            Some(k) => {
                proof {
                    lemma_doc_index_unique(self.docs@, path@, k as int);
                }
                Ok(dup_bytes(&self.docs[k].text))
            },
        }
    }
}

} // verus!
