//! Entry resolution: maps a focused path to the `(root, main)` pair one
//! compilation task should build.
//!
//! Two collaborators are modelled as plain data queried per call: the
//! entry-resolution policy (a configured root and default entry), and the
//! lock-database route (directory-to-project mappings plus the records each
//! lock file holds).  Lock-based resolution is preferred when it yields a
//! record; a miss anywhere in the chain silently falls back to single-project
//! resolution and is never an error.

use vstd::prelude::*;

use crate::paths::{abs_path_of, opt_path_view, parent_dir, parent_dir_of, dir_contains,
    dir_contains_path, opt_path_dup, path_eq, to_abs_path, DocPath};

verus! {

/// A resolved `(root, main)` pair.
#[derive(Debug, Clone)]
pub struct ResolvedEntry {
    /// The workspace root the task compiles under.
    pub root: Option<DocPath>,
    /// The main file the task builds.
    pub main: Option<DocPath>,
}

/// Mathematical image of a [`ResolvedEntry`].
#[verifier::ext_equal]
pub struct EntryView {
    /// Root directory bytes.
    pub root: Option<Seq<u8>>,
    /// Main file bytes.
    pub main: Option<Seq<u8>>,
}

impl View for ResolvedEntry {
    type V = EntryView;

    open spec fn view(&self) -> EntryView {
        EntryView { root: opt_path_view(self.root), main: opt_path_view(self.main) }
    }
}

/// The descriptor that parametrizes one compilation task.
#[derive(Debug, Clone)]
pub struct TaskInputs {
    /// The entry the task builds, when one is known.
    pub entry: Option<ResolvedEntry>,
}

/// Mathematical image of a [`TaskInputs`].
#[verifier::ext_equal]
pub struct TaskView {
    /// The entry the task builds.
    pub entry: Option<EntryView>,
}

impl View for TaskInputs {
    type V = TaskView;

    open spec fn view(&self) -> TaskView {
        TaskView {
            entry: match self.entry {
                Some(e) => Some(e@),
                None => None,
            },
        }
    }
}

/// The entry-resolution policy's configurable inputs.
#[derive(Debug, Clone)]
pub struct EntryResolver {
    /// A workspace root fixed by configuration, if any.
    pub root_path: Option<DocPath>,
    /// A main file fixed by configuration, if any.
    pub default_entry: Option<DocPath>,
}

/// Mathematical image of an [`EntryResolver`].
#[verifier::ext_equal]
pub struct ResolverView {
    /// Configured root bytes.
    pub root_path: Option<Seq<u8>>,
    /// Configured default entry bytes.
    pub default_entry: Option<Seq<u8>>,
}

impl View for EntryResolver {
    type V = ResolverView;

    open spec fn view(&self) -> ResolverView {
        ResolverView {
            root_path: opt_path_view(self.root_path),
            default_entry: opt_path_view(self.default_entry),
        }
    }
}

/// Root for a main file: the configured root when present, else the file's
/// own directory.
pub open spec fn root_for(rv: ResolverView, m: Seq<u8>) -> Seq<u8> {
    match rv.root_path {
        Some(r) => r,
        None => parent_dir(m),
    }
}

/// Policy resolution of an optional path: the path itself, else the default
/// entry, drives the main file; the root falls back from configuration to
/// the main file's directory.
pub open spec fn resolve_spec(rv: ResolverView, path: Option<Seq<u8>>) -> EntryView {
    let main = match path {
        Some(p) => Some(p),
        None => rv.default_entry,
    };
    match main {
        Some(m) => EntryView { root: Some(root_for(rv, m)), main: Some(m) },
        None => EntryView { root: rv.root_path, main: None },
    }
}

/// Policy resolution with explicit overrides: a given root wins over the
/// configured one, which wins over the main file's directory.
pub open spec fn resolve_with_root_spec(
    rv: ResolverView,
    root: Option<Seq<u8>>,
    main: Option<Seq<u8>>,
) -> EntryView {
    match main {
        Some(m) => EntryView {
            root: Some(
                match root {
                    Some(r) => r,
                    None => root_for(rv, m),
                },
            ),
            main: Some(m),
        },
        None => EntryView {
            root: match root {
                Some(r) => Some(r),
                None => rv.root_path,
            },
            main: None,
        },
    }
}

impl EntryResolver {
    /// The policy's own default resolution, when configuration fixes one.
    pub fn resolve_default(&self) -> (r: Option<DocPath>)
        ensures
            opt_path_view(r) == self@.default_entry,
    {
        opt_path_dup(&self.default_entry)
    }

    /// Resolves an optional path into an entry; mirrors [`resolve_spec`].
    pub fn resolve(&self, path: Option<DocPath>) -> (r: ResolvedEntry)
        ensures
            r@ == resolve_spec(self@, opt_path_view(path)),
    {
        let main = match path {
            Some(p) => Some(p),
            None => opt_path_dup(&self.default_entry),
        };
        match main {
            Some(m) => {
                let root = match &self.root_path {
                    Some(r) => r.dup(),
                    None => parent_dir_of(&m),
                };
                ResolvedEntry { root: Some(root), main: Some(m) }
            },
            None => ResolvedEntry { root: opt_path_dup(&self.root_path), main: None },
        }
    }

    /// Resolves with explicit root and main overrides; mirrors
    /// [`resolve_with_root_spec`].
    pub fn resolve_with_root(&self, root: Option<DocPath>, main: Option<DocPath>) -> (r:
        ResolvedEntry)
        ensures
            r@ == resolve_with_root_spec(self@, opt_path_view(root), opt_path_view(main)),
    {
        match main {
            Some(m) => {
                let rt = match root {
                    Some(r) => r,
                    None => match &self.root_path {
                        Some(r) => r.dup(),
                        None => parent_dir_of(&m),
                    },
                };
                ResolvedEntry { root: Some(rt), main: Some(m) }
            },
            None => {
                let rt = match root {
                    Some(r) => Some(r),
                    None => opt_path_dup(&self.root_path),
                };
                ResolvedEntry { root: rt, main: None }
            },
        }
    }
}

/// The lock database's answer for a path: which project, under which lock
/// directory.
#[derive(Debug, Clone)]
pub struct ProjectResolution {
    /// Directory the lock file governs.
    pub lock_dir: DocPath,
    /// Identity of the project inside the lock file.
    pub project_id: u64,
}

/// A document record inside a lock file: optional root and main overrides,
/// possibly relative to the lock directory.
#[derive(Debug, Clone)]
pub struct DocumentRecord {
    /// Root override, possibly relative.
    pub root: Option<DocPath>,
    /// Main-file override, possibly relative.
    pub main: DocPath,
}

/// One project's record in a lock file.
#[derive(Debug, Clone)]
pub struct LockDocEntry {
    /// The project the record belongs to.
    pub id: u64,
    /// The record itself.
    pub record: DocumentRecord,
}

/// A lock file: the records it holds, keyed by project identity.
#[derive(Debug, Clone)]
pub struct LockFile {
    /// The records, first match by identity wins.
    pub documents: Vec<LockDocEntry>,
}

/// A located lock file and the directory it governs.
#[derive(Debug, Clone)]
pub struct LockSlot {
    /// The governed directory.
    pub lock_dir: DocPath,
    /// The lock file's content.
    pub lock: LockFile,
}

/// One directory-to-project mapping of the router.
#[derive(Debug, Clone)]
pub struct RouteMapping {
    /// The directory the mapping covers.
    pub dir: DocPath,
    /// The resolution it yields.
    pub resolution: ProjectResolution,
}

/// The project router and lock database, as read-only data queried per call.
#[derive(Debug, Clone)]
pub struct ProjectRoute {
    /// Directory mappings; the first covering mapping wins.
    pub routes: Vec<RouteMapping>,
    /// The lock files, by governed directory.
    pub locks: Vec<LockSlot>,
}

/// First route mapping that covers `p`, if any.
pub open spec fn route_find(routes: Seq<RouteMapping>, p: Seq<u8>) -> Option<ProjectResolution>
    decreases routes.len(),
{
    if routes.len() == 0 {
        None
    } else if dir_contains(routes[0].dir@, p) {
        Some(routes[0].resolution)
    } else {
        route_find(routes.drop_first(), p)
    }
}

/// First lock file governing `dir`, if any.
pub open spec fn locate_spec(locks: Seq<LockSlot>, dir: Seq<u8>) -> Option<LockFile>
    decreases locks.len(),
{
    if locks.len() == 0 {
        None
    } else if locks[0].lock_dir@ == dir {
        Some(locks[0].lock)
    } else {
        locate_spec(locks.drop_first(), dir)
    }
}

/// First record for project `id`, if any.
pub open spec fn get_document_spec(docs: Seq<LockDocEntry>, id: u64) -> Option<DocumentRecord>
    decreases docs.len(),
{
    if docs.len() == 0 {
        None
    } else if docs[0].id == id {
        Some(docs[0].record)
    } else {
        get_document_spec(docs.drop_first(), id)
    }
}

impl ProjectRoute {
    /// Maps a path to its project resolution; mirrors [`route_find`].
    pub fn resolve(&self, path: &DocPath) -> (r: Option<&ProjectResolution>)
        ensures
            match r {
                Some(res) => route_find(self.routes@, path@) == Some(*res),
                None => route_find(self.routes@, path@) is None,
            },
    {
        let mut i: usize = 0;
        proof {
            assert(self.routes@.skip(0) =~= self.routes@);
        }
        while i < self.routes.len()
            invariant
                i <= self.routes@.len(),
                route_find(self.routes@, path@) == route_find(
                    self.routes@.skip(i as int),
                    path@,
                ),
            decreases self.routes@.len() - i,
        {
            proof {
                assert(self.routes@.skip(i as int)[0] == self.routes@[i as int]);
                assert(self.routes@.skip(i as int).drop_first() =~= self.routes@.skip(
                    i as int + 1,
                ));
            }
            if dir_contains_path(&self.routes[i].dir, path) {
                return Some(&self.routes[i].resolution);
            }
            i = i + 1;
        }
        None
    }

    /// Locates the lock file a resolution points at; mirrors [`locate_spec`].
    pub fn locate(&self, resolution: &ProjectResolution) -> (r: Option<&LockFile>)
        ensures
            match r {
                Some(lock) => locate_spec(self.locks@, resolution.lock_dir@) == Some(*lock),
                None => locate_spec(self.locks@, resolution.lock_dir@) is None,
            },
    {
        let mut i: usize = 0;
        proof {
            assert(self.locks@.skip(0) =~= self.locks@);
        }
        while i < self.locks.len()
            invariant
                i <= self.locks@.len(),
                locate_spec(self.locks@, resolution.lock_dir@) == locate_spec(
                    self.locks@.skip(i as int),
                    resolution.lock_dir@,
                ),
            decreases self.locks@.len() - i,
        {
            proof {
                assert(self.locks@.skip(i as int)[0] == self.locks@[i as int]);
                assert(self.locks@.skip(i as int).drop_first() =~= self.locks@.skip(
                    i as int + 1,
                ));
            }
            if path_eq(&self.locks[i].lock_dir, &resolution.lock_dir) {
                return Some(&self.locks[i].lock);
            }
            i = i + 1;
        }
        None
    }
}

impl LockFile {
    /// The record of one project; mirrors [`get_document_spec`].
    pub fn get_document(&self, project_id: u64) -> (r: Option<&DocumentRecord>)
        ensures
            match r {
                Some(rec) => get_document_spec(self.documents@, project_id) == Some(*rec),
                None => get_document_spec(self.documents@, project_id) is None,
            },
    {
        let mut i: usize = 0;
        proof {
            assert(self.documents@.skip(0) =~= self.documents@);
        }
        while i < self.documents.len()
            invariant
                i <= self.documents@.len(),
                get_document_spec(self.documents@, project_id) == get_document_spec(
                    self.documents@.skip(i as int),
                    project_id,
                ),
            decreases self.documents@.len() - i,
        {
            proof {
                assert(self.documents@.skip(i as int)[0] == self.documents@[i as int]);
                assert(self.documents@.skip(i as int).drop_first() =~= self.documents@.skip(
                    i as int + 1,
                ));
            }
            if self.documents[i].id == project_id {
                return Some(&self.documents[i].record);
            }
            i = i + 1;
        }
        None
    }
}

/// Root a lock record yields: its own root absolutized against the lock
/// directory when that succeeds, else the lock directory itself.
pub open spec fn record_root(rec: DocumentRecord, lock_dir: Seq<u8>) -> Seq<u8> {
    match rec.root {
        Some(r) => match abs_path_of(lock_dir, r@) {
            Some(a) => a,
            None => lock_dir,
        },
        None => lock_dir,
    }
}

/// Main file a lock record yields: its main absolutized against the lock
/// directory when that succeeds, else the focused path itself.
pub open spec fn record_main(rec: DocumentRecord, lock_dir: Seq<u8>, path: Seq<u8>) -> Seq<u8> {
    match abs_path_of(lock_dir, rec.main@) {
        Some(a) => a,
        None => path,
    }
}

/// Single-project resolution of an optional path.
pub open spec fn task_without_lock_spec(rv: ResolverView, path: Option<Seq<u8>>) -> TaskView {
    TaskView { entry: Some(resolve_spec(rv, path)) }
}

/// Full task resolution for a known path: the lock database is consulted
/// when configuration selects it, and any miss along the chain falls back to
/// single-project resolution.
pub open spec fn resolve_task_spec(
    rv: ResolverView,
    lock_mode: bool,
    route: ProjectRoute,
    path: Seq<u8>,
) -> TaskView {
    if lock_mode {
        match route_find(route.routes@, path) {
            Some(res) => match locate_spec(route.locks@, res.lock_dir@) {
                Some(lock) => match get_document_spec(lock.documents@, res.project_id) {
                    Some(rec) => TaskView {
                        entry: Some(
                            resolve_with_root_spec(
                                rv,
                                Some(record_root(rec, res.lock_dir@)),
                                Some(record_main(rec, res.lock_dir@, path)),
                            ),
                        ),
                    },
                    None => task_without_lock_spec(rv, Some(path)),
                },
                None => task_without_lock_spec(rv, Some(path)),
            },
            None => task_without_lock_spec(rv, Some(path)),
        }
    } else {
        task_without_lock_spec(rv, Some(path))
    }
}

/// Executable root extraction from a lock record; mirrors [`record_root`].
pub fn record_root_of(rec: &DocumentRecord, lock_dir: &DocPath) -> (r: DocPath)
    ensures
        r@ == record_root(*rec, lock_dir@),
{
    match &rec.root {
        Some(rel) => match to_abs_path(lock_dir, rel) {
            Some(a) => a,
            None => lock_dir.dup(),
        },
        None => lock_dir.dup(),
    }
}

/// Executable main extraction from a lock record; mirrors [`record_main`].
pub fn record_main_of(rec: &DocumentRecord, lock_dir: &DocPath, path: &DocPath) -> (r: DocPath)
    ensures
        r@ == record_main(*rec, lock_dir@, path@),
{
    match to_abs_path(lock_dir, &rec.main) {
        Some(a) => a,
        None => path.dup(),
    }
}

} // verus!
