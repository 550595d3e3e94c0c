use tinymist_sync::codec::{LspPosition, LspRange, PositionEncoding};
use tinymist_sync::config::{ConfigAction, ExportMode, FormatterMode, ProjectResolutionKind, Settings};
use tinymist_sync::entry::{DocumentRecord, LockDocEntry, LockFile, LockSlot, ProjectResolution,
    ProjectRoute, RouteMapping};
use tinymist_sync::interrupt::Interrupt;
use tinymist_sync::overlay::TextChange;
use tinymist_sync::paths::DocPath;
use tinymist_sync::server::ServerState;
use tinymist_sync::SyncError;

fn p(s: &str) -> DocPath {
    DocPath::new(s.as_bytes().to_vec())
}

fn range(l0: usize, c0: usize, l1: usize, c1: usize) -> LspRange {
    LspRange {
        start: LspPosition { line: l0, character: c0 },
        end: LspPosition { line: l1, character: c1 },
    }
}

fn ranged(l0: usize, c0: usize, l1: usize, c1: usize, text: &str) -> TextChange {
    TextChange { range: Some(range(l0, c0, l1, c1)), text: text.as_bytes().to_vec() }
}

fn full(text: &str) -> TextChange {
    TextChange { range: None, text: text.as_bytes().to_vec() }
}

fn last_interrupt(state: &ServerState) -> &Interrupt {
    state.interrupts.last().expect("an interrupt should have been sent")
}

fn last_task_main(state: &ServerState) -> Vec<u8> {
    match last_interrupt(state) {
        Interrupt::ChangeTask(_, task) => task
            .entry
            .as_ref()
            .expect("task should carry an entry")
            .main
            .as_ref()
            .expect("entry should carry a main file")
            .bytes
            .clone(),
        Interrupt::Memory(_) => panic!("expected a change-task interrupt"),
    }
}

#[test]
fn open_then_close_removes_path() {
    let mut st = ServerState::new();
    st.create_source(p("/a.typ"), b"Hello".to_vec()).unwrap();
    assert!(st.query_source(&p("/a.typ")).is_ok());
    st.remove_source(p("/a.typ")).unwrap();
    assert_eq!(st.query_source(&p("/a.typ")), Err(SyncError::NotOpen));
    let r = st.edit_source(p("/a.typ"), vec![full("x")], PositionEncoding::Utf16);
    assert_eq!(r, Err(SyncError::NotOpen));
}

#[test]
fn close_emits_remove_changeset() {
    let mut st = ServerState::new();
    st.create_source(p("/a.typ"), b"Hello".to_vec()).unwrap();
    st.remove_source(p("/a.typ")).unwrap();
    match last_interrupt(&st) {
        Interrupt::Memory(files) => {
            assert!(files.inserts.is_empty());
            assert_eq!(files.removes, vec![p("/a.typ")]);
        }
        _ => panic!("expected a memory interrupt"),
    }
}

#[test]
fn duplicate_open_is_rejected() {
    let mut st = ServerState::new();
    st.create_source(p("/a.typ"), b"one".to_vec()).unwrap();
    let n = st.interrupts.len();
    let r = st.create_source(p("/a.typ"), b"two".to_vec());
    assert_eq!(r, Err(SyncError::DuplicateOpen));
    assert_eq!(st.interrupts.len(), n);
    assert_eq!(st.query_source(&p("/a.typ")).unwrap(), b"one".to_vec());
}

#[test]
fn close_unopened_fails_not_open() {
    let mut st = ServerState::new();
    assert_eq!(st.remove_source(p("/a.typ")), Err(SyncError::NotOpen));
}

#[test]
fn edit_batches_are_deterministic() {
    let batch = || vec![ranged(0, 0, 0, 5, "Hi"), ranged(0, 1, 0, 2, "ey"), full("done"),
        ranged(0, 4, 0, 4, "!")];
    let run = || {
        let mut st = ServerState::new();
        st.create_source(p("/a.typ"), b"Hello world".to_vec()).unwrap();
        st.edit_source(p("/a.typ"), batch(), PositionEncoding::Utf16).unwrap();
        st.query_source(&p("/a.typ")).unwrap()
    };
    assert_eq!(run(), run());
    assert_eq!(run(), b"done!".to_vec());
}

#[test]
fn edit_replaces_offsets_and_emits_snapshot() {
    let mut st = ServerState::new();
    st.create_source(p("/a.typ"), b"Hello".to_vec()).unwrap();
    st.edit_source(p("/a.typ"), vec![ranged(0, 0, 0, 5, "Hi")], PositionEncoding::Utf16)
        .unwrap();
    assert_eq!(st.query_source(&p("/a.typ")).unwrap(), b"Hi".to_vec());
    match last_interrupt(&st) {
        Interrupt::Memory(files) => {
            assert_eq!(files.inserts.len(), 1);
            assert_eq!(files.inserts[0].0, p("/a.typ"));
            assert_eq!(files.inserts[0].1, b"Hi".to_vec());
            assert!(files.removes.is_empty());
        }
        _ => panic!("expected a memory interrupt"),
    }
}

#[test]
fn edits_within_batch_apply_sequentially() {
    let mut st = ServerState::new();
    st.create_source(p("/a.typ"), b"abc".to_vec()).unwrap();
    // The second range is expressed against the result of the first edit.
    let batch = vec![ranged(0, 0, 0, 1, "XY"), ranged(0, 2, 0, 4, "")];
    st.edit_source(p("/a.typ"), batch, PositionEncoding::Utf16).unwrap();
    assert_eq!(st.query_source(&p("/a.typ")).unwrap(), b"XY".to_vec());
}

#[test]
fn edit_on_later_line() {
    let mut st = ServerState::new();
    st.create_source(p("/a.typ"), b"one\ntwo\nthree".to_vec()).unwrap();
    st.edit_source(p("/a.typ"), vec![ranged(1, 0, 1, 3, "2")], PositionEncoding::Utf16)
        .unwrap();
    assert_eq!(st.query_source(&p("/a.typ")).unwrap(), b"one\n2\nthree".to_vec());
}

#[test]
fn invalid_range_is_recoverable_and_atomic() {
    let mut st = ServerState::new();
    st.create_source(p("/a.typ"), b"abc".to_vec()).unwrap();
    let n = st.interrupts.len();
    // First change is fine, second overruns the line: the whole batch must
    // be rejected and the text left untouched.
    let batch = vec![ranged(0, 0, 0, 1, "Z"), ranged(0, 0, 0, 9, "nope")];
    let r = st.edit_source(p("/a.typ"), batch, PositionEncoding::Utf16);
    assert_eq!(r, Err(SyncError::InvalidRange));
    assert_eq!(st.query_source(&p("/a.typ")).unwrap(), b"abc".to_vec());
    assert_eq!(st.interrupts.len(), n);
}

#[test]
fn invalid_line_is_rejected() {
    let mut st = ServerState::new();
    st.create_source(p("/a.typ"), b"abc".to_vec()).unwrap();
    let r = st.edit_source(p("/a.typ"), vec![ranged(2, 0, 2, 0, "x")],
        PositionEncoding::Utf16);
    assert_eq!(r, Err(SyncError::InvalidRange));
}

#[test]
fn utf16_positions_count_code_units() {
    let mut st = ServerState::new();
    // "é" is two bytes but one UTF-16 unit; "😀" is four bytes and two units.
    st.create_source(p("/a.typ"), "é😀b".as_bytes().to_vec()).unwrap();
    st.edit_source(p("/a.typ"), vec![ranged(0, 1, 0, 3, "-")], PositionEncoding::Utf16)
        .unwrap();
    assert_eq!(st.query_source(&p("/a.typ")).unwrap(), "é-b".as_bytes().to_vec());
}

#[test]
fn utf16_position_may_not_split_surrogate_pair() {
    let mut st = ServerState::new();
    st.create_source(p("/a.typ"), "😀".as_bytes().to_vec()).unwrap();
    let r = st.edit_source(p("/a.typ"), vec![ranged(0, 1, 0, 2, "x")],
        PositionEncoding::Utf16);
    assert_eq!(r, Err(SyncError::InvalidRange));
}

#[test]
fn utf8_positions_count_bytes() {
    let mut st = ServerState::new();
    st.create_source(p("/a.typ"), "é!".as_bytes().to_vec()).unwrap();
    st.edit_source(p("/a.typ"), vec![ranged(0, 0, 0, 2, "e")], PositionEncoding::Utf8)
        .unwrap();
    assert_eq!(st.query_source(&p("/a.typ")).unwrap(), b"e!".to_vec());
}

#[test]
fn empty_document_accepts_insertion() {
    let mut st = ServerState::new();
    st.create_source(p("/a.typ"), Vec::new()).unwrap();
    st.edit_source(p("/a.typ"), vec![ranged(0, 0, 0, 0, "hi")], PositionEncoding::Utf16)
        .unwrap();
    assert_eq!(st.query_source(&p("/a.typ")).unwrap(), b"hi".to_vec());
}

#[test]
fn focus_is_noop_while_pinned() {
    let mut st = ServerState::new();
    st.pin_main_file(Some(p("/a.typ"))).unwrap();
    let n = st.interrupts.len();
    let changed = st.focus_main_file(Some(p("/b.typ"))).unwrap();
    assert!(!changed);
    assert_eq!(st.interrupts.len(), n, "no interrupt may be sent while pinned");
    assert_eq!(last_task_main(&st), b"/a.typ".to_vec());
}

#[test]
fn focus_changes_main_when_not_pinned() {
    let mut st = ServerState::new();
    let changed = st.focus_main_file(Some(p("/b.typ"))).unwrap();
    assert!(changed);
    assert_eq!(last_task_main(&st), b"/b.typ".to_vec());
}

#[test]
fn unpin_falls_back_to_last_focus() {
    let mut st = ServerState::new();
    st.pin_main_file(Some(p("/a.typ"))).unwrap();
    st.focus_main_file(Some(p("/b.typ"))).unwrap();
    st.pin_main_file(None).unwrap();
    assert!(!st.pinning);
    assert_eq!(last_task_main(&st), b"/b.typ".to_vec());
}

#[test]
fn change_main_file_rejects_relative_path() {
    let mut st = ServerState::new();
    let n = st.interrupts.len();
    let r = st.change_main_file(Some(p("a.typ")));
    assert_eq!(r, Err(SyncError::InvalidEntryPath));
    assert_eq!(st.interrupts.len(), n);
}

#[test]
fn change_main_file_accepts_untitled_namespace() {
    let mut st = ServerState::new();
    assert_eq!(st.change_main_file(Some(p("/untitled/Note-1.typ"))), Ok(true));
    assert_eq!(last_task_main(&st), b"/untitled/Note-1.typ".to_vec());
}

#[test]
fn implicit_open_focus_works_on_fresh_session() {
    let mut st = ServerState::new();
    st.implicit_focus_entry(Some(p("/a.typ")), 'o');
    assert_eq!(last_task_main(&st), b"/a.typ".to_vec());
}

#[test]
fn implicit_open_cannot_steal_focus_after_readonly_activity() {
    let mut st = ServerState::new();
    st.implicit_focus_entry(Some(p("/a.typ")), 'h');
    assert!(st.ever_focusing_by_activities);
    assert_eq!(last_task_main(&st), b"/a.typ".to_vec());
    let n = st.interrupts.len();
    st.implicit_focus_entry(Some(p("/b.typ")), 'o');
    assert_eq!(st.interrupts.len(), n, "the open event must not resolve a new entry");
    assert_eq!(last_task_main(&st), b"/a.typ".to_vec());
}

#[test]
fn implicit_focus_disabled_after_manual_command() {
    let mut st = ServerState::new();
    st.focus_main_file(Some(p("/a.typ"))).unwrap();
    assert!(st.ever_manual_focusing);
    let n = st.interrupts.len();
    st.implicit_focus_entry(Some(p("/b.typ")), 'h');
    assert_eq!(st.interrupts.len(), n);
    assert!(!st.ever_focusing_by_activities);
}

#[test]
fn configuration_reconciliation_is_idempotent() {
    let mut st = ServerState::new();
    let mut s = Settings::empty();
    s.formatter_mode = Some(1);
    s.semantic_tokens = Some(0);
    let first = st.on_changed_configuration(&s).unwrap();
    assert!(!first.is_empty());
    let second = st.on_changed_configuration(&s).unwrap();
    assert!(second.is_empty(), "the second application must trigger nothing");
}

#[test]
fn formatter_only_change_fires_only_formatter_actions() {
    let mut st = ServerState::new();
    let mut s = Settings::empty();
    s.formatter_mode = Some(1);
    let actions = st.on_changed_configuration(&s).unwrap();
    assert_eq!(actions, vec![ConfigAction::SetFormatterCaps(true),
        ConfigAction::ChangeFormatterConfig(FormatterMode::Typstyle, 120)]);
}

#[test]
fn primary_option_change_invalidates_fonts_and_restarts() {
    let mut st = ServerState::new();
    let mut s = Settings::empty();
    s.system_fonts = Some(false);
    let actions = st.on_changed_configuration(&s).unwrap();
    assert_eq!(actions, vec![ConfigAction::InvalidateFonts, ConfigAction::RestartPrimary]);
}

#[test]
fn invalid_configuration_rolls_back() {
    let mut st = ServerState::new();
    let mut s = Settings::empty();
    s.semantic_tokens = Some(9);
    s.formatter_mode = Some(1);
    let r = st.on_changed_configuration(&s);
    assert_eq!(r, Err(SyncError::InvalidConfiguration));
    let mut ok = Settings::empty();
    ok.formatter_mode = Some(1);
    let actions = st.on_changed_configuration(&ok).unwrap();
    assert!(!actions.is_empty(), "the failed update must not have been applied");
}

#[test]
fn relative_root_setting_is_rejected() {
    let mut st = ServerState::new();
    let mut s = Settings::empty();
    s.root_path = Some(p("proj"));
    assert_eq!(st.on_changed_configuration(&s), Err(SyncError::InvalidConfiguration));
}

#[test]
fn default_entry_makes_focus_a_noop() {
    let mut st = ServerState::new();
    let mut s = Settings::empty();
    s.default_entry = Some(p("/main.typ"));
    st.on_changed_configuration(&s).unwrap();
    let n = st.interrupts.len();
    let changed = st.focus_main_file(Some(p("/b.typ"))).unwrap();
    assert!(!changed);
    assert_eq!(st.interrupts.len(), n);
}

#[test]
fn lock_database_resolution_prefers_lock_record() {
    let mut st = ServerState::new();
    st.config.project_resolution = ProjectResolutionKind::LockDatabase;
    st.route = ProjectRoute {
        routes: vec![RouteMapping {
            dir: p("/proj"),
            resolution: ProjectResolution { lock_dir: p("/proj"), project_id: 7 },
        }],
        locks: vec![LockSlot {
            lock_dir: p("/proj"),
            lock: LockFile {
                documents: vec![LockDocEntry {
                    id: 7,
                    record: DocumentRecord { root: None, main: p("/proj/main.typ") },
                }],
            },
        }],
    };
    let task = st.resolve_task(p("/proj/a.typ"));
    let entry = task.entry.expect("resolution must yield an entry");
    assert_eq!(entry.root.unwrap(), p("/proj"));
    assert_eq!(entry.main.unwrap(), p("/proj/main.typ"));
}

#[test]
fn lock_record_with_relative_main_is_absolutized() {
    let mut st = ServerState::new();
    st.config.project_resolution = ProjectResolutionKind::LockDatabase;
    st.route = ProjectRoute {
        routes: vec![RouteMapping {
            dir: p("/proj"),
            resolution: ProjectResolution { lock_dir: p("/proj"), project_id: 1 },
        }],
        locks: vec![LockSlot {
            lock_dir: p("/proj"),
            lock: LockFile {
                documents: vec![LockDocEntry {
                    id: 1,
                    record: DocumentRecord { root: Some(p("sub")), main: p("main.typ") },
                }],
            },
        }],
    };
    let task = st.resolve_task(p("/proj/a.typ"));
    let entry = task.entry.unwrap();
    assert_eq!(entry.root.unwrap(), p("/proj/sub"));
    assert_eq!(entry.main.unwrap(), p("/proj/main.typ"));
}

#[test]
fn lock_miss_falls_back_to_single_project() {
    let mut st = ServerState::new();
    st.config.project_resolution = ProjectResolutionKind::LockDatabase;
    let task = st.resolve_task(p("/ws/ch/a.typ"));
    let entry = task.entry.unwrap();
    assert_eq!(entry.main.unwrap(), p("/ws/ch/a.typ"));
    assert_eq!(entry.root.unwrap(), p("/ws/ch"), "root defaults to the file's directory");
}

#[test]
fn single_file_mode_ignores_route() {
    let mut st = ServerState::new();
    st.route = ProjectRoute {
        routes: vec![RouteMapping {
            dir: p("/proj"),
            resolution: ProjectResolution { lock_dir: p("/proj"), project_id: 7 },
        }],
        locks: vec![],
    };
    let task = st.resolve_task(p("/proj/a.typ"));
    assert_eq!(task.entry.unwrap().main.unwrap(), p("/proj/a.typ"));
}

#[test]
fn export_only_change_notifies_export_subsystem() {
    let mut st = ServerState::new();
    let mut s = Settings::empty();
    s.export_mode = Some(2);
    let actions = st.on_changed_configuration(&s).unwrap();
    assert_eq!(actions, vec![ConfigAction::ChangeExportConfig(ExportMode::OnType)]);
}

#[test]
fn semantic_token_change_toggles_capability() {
    let mut st = ServerState::new();
    let mut s = Settings::empty();
    s.semantic_tokens = Some(0);
    let actions = st.on_changed_configuration(&s).unwrap();
    assert_eq!(actions, vec![ConfigAction::SetSemanticTokenCaps(false)]);
}

#[test]
fn pin_with_no_path_uses_configured_default() {
    let mut st = ServerState::new();
    let mut s = Settings::empty();
    s.default_entry = Some(p("/main.typ"));
    st.on_changed_configuration(&s).unwrap();
    st.pin_main_file(None).unwrap();
    assert!(!st.pinning);
    assert!(st.ever_manual_focusing);
    assert_eq!(last_task_main(&st), b"/main.typ".to_vec());
}

#[test]
fn route_directory_must_cover_whole_component() {
    let mut st = ServerState::new();
    st.config.project_resolution = ProjectResolutionKind::LockDatabase;
    st.route = ProjectRoute {
        routes: vec![RouteMapping {
            dir: p("/proj"),
            resolution: ProjectResolution { lock_dir: p("/proj"), project_id: 1 },
        }],
        locks: vec![LockSlot {
            lock_dir: p("/proj"),
            lock: LockFile {
                documents: vec![LockDocEntry {
                    id: 1,
                    record: DocumentRecord { root: None, main: p("/proj/main.typ") },
                }],
            },
        }],
    };
    // "/proj2" shares the prefix bytes but is a different directory.
    let task = st.resolve_task(p("/proj2/a.typ"));
    assert_eq!(task.entry.unwrap().main.unwrap(), p("/proj2/a.typ"));
}
