//! Configuration snapshots and their reconciliation.
//!
//! A configuration update arrives as a flat settings map: one optional raw
//! value per known key.  Merging parses and validates the raw values into a
//! working copy; a failure leaves the old snapshot in place.  Reconciling an
//! old against a new snapshot compares four derived views in a fixed order
//! and emits, for each one that changed, the invalidation actions the host
//! must perform.

use vstd::prelude::*;

use crate::entry::EntryResolver;
use crate::paths::{is_absolute, opt_path_dup, opt_path_eq, opt_path_view, valid_entry_path,
    DocPath};

verus! {

/// When exports are produced.
#[derive(Debug, Clone, Copy, PartialEq, Eq, Structural)]
pub enum ExportMode {
    /// Never export automatically.
    Never,
    /// Export when a document is saved.
    OnSave,
    /// Export on every change.
    OnType,
}

/// Whether semantic tokens are served.
#[derive(Debug, Clone, Copy, PartialEq, Eq, Structural)]
pub enum SemanticTokensMode {
    /// The capability is withdrawn.
    Disable,
    /// The capability is registered.
    Enable,
}

/// Which formatter backs the formatting capability.
#[derive(Debug, Clone, Copy, PartialEq, Eq, Structural)]
pub enum FormatterMode {
    /// Formatting is off.
    Disable,
    /// The typstyle formatter.
    Typstyle,
    /// The typstfmt formatter.
    Typstfmt,
}

/// How a path is mapped to a project.
#[derive(Debug, Clone, Copy, PartialEq, Eq, Structural)]
pub enum ProjectResolutionKind {
    /// Each file is its own project.
    SingleFile,
    /// The lock database governs multi-project resolution.
    LockDatabase,
}

/// One configuration snapshot; replaced wholesale on a successful update.
#[derive(Debug, Clone)]
pub struct Config {
    /// Export settings.
    pub export_mode: ExportMode,
    /// Workspace root fixed by configuration.
    pub root_path: Option<DocPath>,
    /// Whether system fonts are searched.
    pub system_fonts: bool,
    /// Semantic-token mode.
    pub semantic_tokens: SemanticTokensMode,
    /// Formatter mode.
    pub formatter_mode: FormatterMode,
    /// Formatter line width.
    pub formatter_print_width: u64,
    /// Project resolution mode.
    pub project_resolution: ProjectResolutionKind,
    /// Default main file fixed by configuration.
    pub default_entry: Option<DocPath>,
}

/// Mathematical image of a [`Config`].
#[verifier::ext_equal]
pub struct ConfigView {
    /// Export settings.
    pub export_mode: ExportMode,
    /// Workspace root bytes.
    pub root_path: Option<Seq<u8>>,
    /// Whether system fonts are searched.
    pub system_fonts: bool,
    /// Semantic-token mode.
    pub semantic_tokens: SemanticTokensMode,
    /// Formatter mode.
    pub formatter_mode: FormatterMode,
    /// Formatter line width.
    pub formatter_print_width: u64,
    /// Project resolution mode.
    pub project_resolution: ProjectResolutionKind,
    /// Default main file bytes.
    pub default_entry: Option<Seq<u8>>,
}

impl View for Config {
    type V = ConfigView;

    open spec fn view(&self) -> ConfigView {
        ConfigView {
            export_mode: self.export_mode,
            root_path: opt_path_view(self.root_path),
            system_fonts: self.system_fonts,
            semantic_tokens: self.semantic_tokens,
            formatter_mode: self.formatter_mode,
            formatter_print_width: self.formatter_print_width,
            project_resolution: self.project_resolution,
            default_entry: opt_path_view(self.default_entry),
        }
    }
}

impl Config {
    /// The out-of-the-box snapshot.
    pub fn initial() -> (r: Config)
        ensures
            r@ == initial_config(),
    {
        Config {
            export_mode: ExportMode::Never,
            root_path: None,
            system_fonts: true,
            semantic_tokens: SemanticTokensMode::Enable,
            formatter_mode: FormatterMode::Disable,
            formatter_print_width: 120,
            project_resolution: ProjectResolutionKind::SingleFile,
            default_entry: None,
        }
    }

    /// The entry-resolution policy this snapshot induces.
    pub fn entry_resolver(&self) -> (r: EntryResolver)
        ensures
            r@.root_path == self@.root_path,
            r@.default_entry == self@.default_entry,
    {
        EntryResolver {
            root_path: opt_path_dup(&self.root_path),
            default_entry: opt_path_dup(&self.default_entry),
        }
    }
}

/// The out-of-the-box snapshot's image.
pub open spec fn initial_config() -> ConfigView {
    ConfigView {
        export_mode: ExportMode::Never,
        root_path: None,
        system_fonts: true,
        semantic_tokens: SemanticTokensMode::Enable,
        formatter_mode: FormatterMode::Disable,
        formatter_print_width: 120,
        project_resolution: ProjectResolutionKind::SingleFile,
        default_entry: None,
    }
}

/// A flat settings map: one optional raw value per known key.  A field that
/// is `None` stands for a key the update does not mention.
#[derive(Debug, Clone)]
pub struct Settings {
    /// Raw export mode code.
    pub export_mode: Option<u8>,
    /// New workspace root; must be absolute.
    pub root_path: Option<DocPath>,
    /// Whether system fonts are searched.
    pub system_fonts: Option<bool>,
    /// Raw semantic-token mode code.
    pub semantic_tokens: Option<u8>,
    /// Raw formatter mode code.
    pub formatter_mode: Option<u8>,
    /// Formatter line width.
    pub formatter_print_width: Option<u64>,
    /// Raw project-resolution mode code.
    pub project_resolution: Option<u8>,
    /// New default main file; must be absolute.
    pub default_entry: Option<DocPath>,
}

impl Settings {
    /// A settings map that mentions no key.
    pub fn empty() -> (r: Settings)
        ensures
            r@ == empty_settings(),
    {
        Settings {
            export_mode: None,
            root_path: None,
            system_fonts: None,
            semantic_tokens: None,
            formatter_mode: None,
            formatter_print_width: None,
            project_resolution: None,
            default_entry: None,
        }
    }
}

/// Mathematical image of a [`Settings`].
#[verifier::ext_equal]
pub struct SettingsView {
    /// Raw export mode code.
    pub export_mode: Option<u8>,
    /// New workspace root bytes.
    pub root_path: Option<Seq<u8>>,
    /// Whether system fonts are searched.
    pub system_fonts: Option<bool>,
    /// Raw semantic-token mode code.
    pub semantic_tokens: Option<u8>,
    /// Raw formatter mode code.
    pub formatter_mode: Option<u8>,
    /// Formatter line width.
    pub formatter_print_width: Option<u64>,
    /// Raw project-resolution mode code.
    pub project_resolution: Option<u8>,
    /// New default main file bytes.
    pub default_entry: Option<Seq<u8>>,
}

impl View for Settings {
    type V = SettingsView;

    open spec fn view(&self) -> SettingsView {
        SettingsView {
            export_mode: self.export_mode,
            root_path: opt_path_view(self.root_path),
            system_fonts: self.system_fonts,
            semantic_tokens: self.semantic_tokens,
            formatter_mode: self.formatter_mode,
            formatter_print_width: self.formatter_print_width,
            project_resolution: self.project_resolution,
            default_entry: opt_path_view(self.default_entry),
        }
    }
}

/// The image of [`Settings::empty`].
pub open spec fn empty_settings() -> SettingsView {
    SettingsView {
        export_mode: None,
        root_path: None,
        system_fonts: None,
        semantic_tokens: None,
        formatter_mode: None,
        formatter_print_width: None,
        project_resolution: None,
        default_entry: None,
    }
}

/// Raw code for an export mode.
pub open spec fn parse_export(v: u8) -> Option<ExportMode> {
    if v == 0 {
        Some(ExportMode::Never)
    } else if v == 1 {
        Some(ExportMode::OnSave)
    } else if v == 2 {
        Some(ExportMode::OnType)
    } else {
        None
    }
}

/// Raw code for a semantic-token mode.
pub open spec fn parse_semantic_tokens(v: u8) -> Option<SemanticTokensMode> {
    if v == 0 {
        Some(SemanticTokensMode::Disable)
    } else if v == 1 {
        Some(SemanticTokensMode::Enable)
    } else {
        None
    }
}

/// Raw code for a formatter mode.
pub open spec fn parse_formatter(v: u8) -> Option<FormatterMode> {
    if v == 0 {
        Some(FormatterMode::Disable)
    } else if v == 1 {
        Some(FormatterMode::Typstyle)
    } else if v == 2 {
        Some(FormatterMode::Typstfmt)
    } else {
        None
    }
}

/// Raw code for a project-resolution mode.
pub open spec fn parse_resolution(v: u8) -> Option<ProjectResolutionKind> {
    if v == 0 {
        Some(ProjectResolutionKind::SingleFile)
    } else if v == 1 {
        Some(ProjectResolutionKind::LockDatabase)
    } else {
        None
    }
}

/// Whether every raw value a settings map mentions parses and validates.
pub open spec fn settings_ok(s: SettingsView) -> bool {
    &&& (s.export_mode matches Some(v) ==> parse_export(v) is Some)
    &&& (s.semantic_tokens matches Some(v) ==> parse_semantic_tokens(v) is Some)
    &&& (s.formatter_mode matches Some(v) ==> parse_formatter(v) is Some)
    &&& (s.project_resolution matches Some(v) ==> parse_resolution(v) is Some)
    &&& (s.root_path matches Some(p) ==> is_absolute(p))
    &&& (s.default_entry matches Some(p) ==> valid_entry_path(p))
}

/// The snapshot after overwriting each mentioned key with its parsed value;
/// meaningful when [`settings_ok`] holds.
pub open spec fn merged(c: ConfigView, s: SettingsView) -> ConfigView {
    ConfigView {
        export_mode: match s.export_mode {
            Some(v) => parse_export(v)->0,
            None => c.export_mode,
        },
        root_path: match s.root_path {
            Some(p) => Some(p),
            None => c.root_path,
        },
        system_fonts: match s.system_fonts {
            Some(b) => b,
            None => c.system_fonts,
        },
        semantic_tokens: match s.semantic_tokens {
            Some(v) => parse_semantic_tokens(v)->0,
            None => c.semantic_tokens,
        },
        formatter_mode: match s.formatter_mode {
            Some(v) => parse_formatter(v)->0,
            None => c.formatter_mode,
        },
        formatter_print_width: match s.formatter_print_width {
            Some(w) => w,
            None => c.formatter_print_width,
        },
        project_resolution: match s.project_resolution {
            Some(v) => parse_resolution(v)->0,
            None => c.project_resolution,
        },
        default_entry: match s.default_entry {
            Some(p) => Some(p),
            None => c.default_entry,
        },
    }
}

/// Merging a settings map: the merged snapshot, or `None` when a raw value
/// is rejected (the configuration then stays as it was).
pub open spec fn merge_spec(c: ConfigView, s: SettingsView) -> Option<ConfigView> {
    if settings_ok(s) {
        Some(merged(c, s))
    } else {
        None
    }
}

/// The export-settings view reconciliation compares.
pub open spec fn export_of(c: ConfigView) -> ExportMode {
    c.export_mode
}

/// The primary compile options reconciliation compares: root, font search,
/// and the configured default entry.
pub open spec fn primary_opts_of(c: ConfigView) -> (Option<Seq<u8>>, bool, Option<Seq<u8>>) {
    (c.root_path, c.system_fonts, c.default_entry)
}

/// The formatter view reconciliation compares.
pub open spec fn formatter_of(c: ConfigView) -> (FormatterMode, u64) {
    (c.formatter_mode, c.formatter_print_width)
}

/// An invalidation or capability action the host must perform after a
/// configuration change.  Failures of these are logged by the host and never
/// propagated.
#[derive(Debug, Clone, Copy, PartialEq, Eq, Structural)]
pub enum ConfigAction {
    /// Hand the export subsystem its new settings.
    ChangeExportConfig(ExportMode),
    /// Drop the cached font set so it reloads.
    InvalidateFonts,
    /// Ask the compile subsystem to restart its primary task.
    RestartPrimary,
    /// Register or withdraw the semantic-token capability.
    SetSemanticTokenCaps(bool),
    /// Register or withdraw the formatter capability.
    SetFormatterCaps(bool),
    /// Push the new formatter configuration.
    ChangeFormatterConfig(FormatterMode, u64),
}

/// The actions a reconciliation emits, in the fixed order: export settings,
/// primary compile options, semantic tokens, formatter.  The four triggers
/// are independent.
pub open spec fn diff_actions(old: ConfigView, new: ConfigView) -> Seq<ConfigAction> {
    (if export_of(old) != export_of(new) {
        seq![ConfigAction::ChangeExportConfig(new.export_mode)]
    } else {
        Seq::empty()
    }) + (if primary_opts_of(old) != primary_opts_of(new) {
        seq![ConfigAction::InvalidateFonts, ConfigAction::RestartPrimary]
    } else {
        Seq::empty()
    }) + (if old.semantic_tokens != new.semantic_tokens {
        seq![
            ConfigAction::SetSemanticTokenCaps(new.semantic_tokens == SemanticTokensMode::Enable),
        ]
    } else {
        Seq::empty()
    }) + (if formatter_of(old) != formatter_of(new) {
        seq![
            ConfigAction::SetFormatterCaps(new.formatter_mode != FormatterMode::Disable),
            ConfigAction::ChangeFormatterConfig(new.formatter_mode, new.formatter_print_width),
        ]
    } else {
        Seq::empty()
    })
}

/// Merges a settings map into a snapshot; mirrors [`merge_spec`].
pub fn merge_settings(c: &Config, s: &Settings) -> (r: Option<Config>)
    ensures
        match r {
            Some(c2) => merge_spec(c@, s@) == Some(c2@),
            None => merge_spec(c@, s@) is None,
        },
{
    let export_mode = match s.export_mode {
        Some(v) => {
            if v == 0 {
                ExportMode::Never
            } else if v == 1 {
                ExportMode::OnSave
            } else if v == 2 {
                ExportMode::OnType
            } else {
                return None;
            }
        },
        None => c.export_mode,
    };
    let semantic_tokens = match s.semantic_tokens {
        Some(v) => {
            if v == 0 {
                SemanticTokensMode::Disable
            } else if v == 1 {
                SemanticTokensMode::Enable
            } else {
                return None;
            }
        },
        None => c.semantic_tokens,
    };
    let formatter_mode = match s.formatter_mode {
        Some(v) => {
            if v == 0 {
                FormatterMode::Disable
            } else if v == 1 {
                FormatterMode::Typstyle
            } else if v == 2 {
                FormatterMode::Typstfmt
            } else {
                return None;
            }
        },
        None => c.formatter_mode,
    };
    let project_resolution = match s.project_resolution {
        Some(v) => {
            if v == 0 {
                ProjectResolutionKind::SingleFile
            } else if v == 1 {
                ProjectResolutionKind::LockDatabase
            } else {
                return None;
            }
        },
        None => c.project_resolution,
    };
    let root_path = match &s.root_path {
        Some(p) => {
            if !p.is_absolute() {
                return None;
            }
            Some(p.dup())
        },
        None => opt_path_dup(&c.root_path),
    };
    let default_entry = match &s.default_entry {
        Some(p) => {
            if !p.is_absolute() {
                return None;
            }
            Some(p.dup())
        },
        None => opt_path_dup(&c.default_entry),
    };
    let system_fonts = match s.system_fonts {
        Some(b) => b,
        None => c.system_fonts,
    };
    let formatter_print_width = match s.formatter_print_width {
        Some(w) => w,
        None => c.formatter_print_width,
    };
    Some(
        Config {
            export_mode,
            root_path,
            system_fonts,
            semantic_tokens,
            formatter_mode,
            formatter_print_width,
            project_resolution,
            default_entry,
        },
    )
}

/// Compares two snapshots and emits the reconciliation actions; mirrors
/// [`diff_actions`].
pub fn diff_config(old: &Config, new: &Config) -> (r: Vec<ConfigAction>)
    ensures
        r@ == diff_actions(old@, new@),
{
    let mut out: Vec<ConfigAction> = Vec::new();
    if old.export_mode != new.export_mode {
        out.push(ConfigAction::ChangeExportConfig(new.export_mode));
    }
    let same_primary = opt_path_eq(&old.root_path, &new.root_path) && old.system_fonts
        == new.system_fonts && opt_path_eq(&old.default_entry, &new.default_entry);
    if !same_primary {
        out.push(ConfigAction::InvalidateFonts);
        out.push(ConfigAction::RestartPrimary);
    }
    if old.semantic_tokens != new.semantic_tokens {
        out.push(
            ConfigAction::SetSemanticTokenCaps(
                new.semantic_tokens == SemanticTokensMode::Enable,
            ),
        );
    }
    if old.formatter_mode != new.formatter_mode || old.formatter_print_width
        != new.formatter_print_width {
        out.push(ConfigAction::SetFormatterCaps(new.formatter_mode != FormatterMode::Disable));
        out.push(
            ConfigAction::ChangeFormatterConfig(new.formatter_mode, new.formatter_print_width),
        );
    }
    proof {
        assert(out@ =~= diff_actions(old@, new@));
    }
    out
}

/// Reconciliation is idempotent: once a settings map has been merged,
/// merging it again reproduces the same snapshot, and reconciling that
/// snapshot against itself emits no action.
pub proof fn lemma_reconcile_idempotent(c: ConfigView, s: SettingsView)
    requires
        merge_spec(c, s) is Some,
    ensures
        merge_spec(merge_spec(c, s)->0, s) == merge_spec(c, s),
        diff_actions(merge_spec(c, s)->0, merge_spec(merge_spec(c, s)->0, s)->0)
            == Seq::<ConfigAction>::empty(),
{
    let c1 = merge_spec(c, s)->0;
    assert(merged(c1, s) == c1);
    assert(diff_actions(c1, c1) =~= Seq::<ConfigAction>::empty());
}

} // verus!
