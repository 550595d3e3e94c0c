//! The focus state machine: arbitrates pinning, explicit focus, and the
//! implicit per-activity focus heuristics that decide which file the
//! primary compilation task builds.
//!
//! Four session flags persist for a server's lifetime and are never reset:
//! `pinning`, `focusing` (the last recorded focus path), a mark that a
//! manual pin or focus command has ever occurred, and a mark that a
//! focus-sensitive read-only request has ever occurred.  Every transition
//! below is mirrored by a specification step over [`FocusView`], so that
//! session-wide properties can be stated and proved over event sequences.

use vstd::prelude::*;

use crate::interrupt::{change_task_intr, lemma_intr_views_push, Interrupt};
use crate::paths::{opt_path_dup, opt_path_view, valid_entry_opt, DocPath};
use crate::server::{resolve_task_or_spec, ServerState};
use crate::SyncError;

verus! {

/// The focus machine's state, abstracted from a [`ServerState`].
#[verifier::ext_equal]
pub struct FocusView {
    /// Whether an explicit pin is active.
    pub pinning: bool,
    /// The last recorded focus path.
    pub focusing: Option<Seq<u8>>,
    /// A manual pin/focus command has occurred this session.
    pub ever_manual: bool,
    /// A focus-sensitive read-only request has occurred this session.
    pub ever_activities: bool,
    /// Configuration fixes a default entry path.
    pub has_default: bool,
}

/// Read-only activity sites: folding range, hover, semantic tokens.  Any
/// other site tag stands for an open event.
pub open spec fn is_readonly_site(site: char) -> bool {
    site == 'f' || site == 'h' || site == 't'
}

/// The focus primitive: under an active pin or a configured default entry
/// it only records the path and is a no-op for the compile subsystem;
/// otherwise it changes the main file.
pub open spec fn focus_primitive_step(s: FocusView, p: Option<Seq<u8>>) -> FocusView {
    if s.pinning || s.has_default {
        FocusView { focusing: p, ..s }
    } else {
        s
    }
}

/// Whether the focus primitive sends a change-task interrupt.
pub open spec fn focus_primitive_emits(s: FocusView, p: Option<Seq<u8>>) -> bool {
    !(s.pinning || s.has_default) && valid_entry_opt(p)
}

/// The view after marking a manual command.
pub open spec fn with_manual(s: FocusView) -> FocusView {
    FocusView { ever_manual: true, ..s }
}

/// The view after marking a read-only activity.
pub open spec fn with_activities(s: FocusView) -> FocusView {
    FocusView { ever_activities: true, ..s }
}

/// An explicit focus command: marks the session as manually focused, then
/// runs the focus primitive.
pub open spec fn focus_explicit_step(s: FocusView, p: Option<Seq<u8>>) -> FocusView {
    focus_primitive_step(with_manual(s), p)
}

/// An explicit pin command: records whether a pin is active and marks the
/// session as manually focused; the effective entry then goes through the
/// main-file change.
pub open spec fn pin_step(s: FocusView, p: Option<Seq<u8>>) -> FocusView {
    FocusView { pinning: p is Some, ever_manual: true, ..s }
}

/// An implicit focus: suppressed entirely once a manual command has
/// occurred; a read-only site first marks the session; an open-event site
/// is suppressed once any read-only activity has ever occurred.
pub open spec fn implicit_step(s: FocusView, p: Option<Seq<u8>>, site: char) -> FocusView {
    if s.ever_manual {
        s
    } else if is_readonly_site(site) {
        focus_primitive_step(with_activities(s), p)
    } else if s.ever_activities {
        s
    } else {
        focus_primitive_step(s, p)
    }
}

/// Whether an implicit focus reaches the compile subsystem.
pub open spec fn implicit_emits(s: FocusView, p: Option<Seq<u8>>, site: char) -> bool {
    &&& !s.ever_manual
    &&& (is_readonly_site(site) || !s.ever_activities)
    &&& focus_primitive_emits(s, p)
}

/// One focus-machine event of a session.
pub enum FocusEvent {
    /// An explicit pin command.
    Pin(Option<Seq<u8>>),
    /// An explicit focus command.
    Focus(Option<Seq<u8>>),
    /// An implicit focus with its activity site.
    Implicit(Option<Seq<u8>>, char),
}

/// The view after one event.
pub open spec fn focus_event_step(s: FocusView, e: FocusEvent) -> FocusView {
    match e {
        FocusEvent::Pin(p) => pin_step(s, p),
        FocusEvent::Focus(p) => focus_explicit_step(s, p),
        FocusEvent::Implicit(p, site) => implicit_step(s, p, site),
    }
}

/// The view after a sequence of events, first event first.
pub open spec fn focus_steps(s: FocusView, es: Seq<FocusEvent>) -> FocusView
    decreases es.len(),
{
    if es.len() == 0 {
        s
    } else {
        focus_steps(focus_event_step(s, es[0]), es.drop_first())
    }
}

/// A session where a manual command or a read-only activity has occurred:
/// from here on, open events can no longer steal focus.
pub open spec fn focus_settled(s: FocusView) -> bool {
    s.ever_manual || s.ever_activities
}

/// No focus event ever clears the two session marks.
pub proof fn lemma_event_preserves_settled(s: FocusView, e: FocusEvent)
    ensures
        focus_settled(s) ==> focus_settled(focus_event_step(s, e)),
{
    match e {
        FocusEvent::Pin(p) => {},
        FocusEvent::Focus(p) => {},
        FocusEvent::Implicit(p, site) => {},
    }
}

/// The session marks survive any sequence of focus events.
pub proof fn lemma_steps_preserve_settled(s: FocusView, es: Seq<FocusEvent>)
    requires
        focus_settled(s),
    ensures
        focus_settled(focus_steps(s, es)),
    decreases es.len(),
{
    if es.len() > 0 {
        lemma_event_preserves_settled(s, es[0]);
        lemma_steps_preserve_settled(focus_event_step(s, es[0]), es.drop_first());
    }
}

/// After any read-only-activity implicit focus, a later open-event
/// implicit focus — whatever path it carries, and whatever focus events
/// happened in between — changes nothing and sends no change-task
/// interrupt: the resolved entry stays where it was.
pub proof fn lemma_open_event_cannot_steal_focus(
    s0: FocusView,
    p0: Option<Seq<u8>>,
    site0: char,
    es: Seq<FocusEvent>,
    p1: Option<Seq<u8>>,
    site1: char,
)
    requires
        is_readonly_site(site0),
        !is_readonly_site(site1),
    ensures
        ({
            let s2 = focus_steps(implicit_step(s0, p0, site0), es);
            &&& implicit_step(s2, p1, site1) == s2
            &&& !implicit_emits(s2, p1, site1)
        }),
{
    let s1 = implicit_step(s0, p0, site0);
    assert(focus_settled(s1));
    lemma_steps_preserve_settled(s1, es);
}

impl ServerState {
    /// The focus machine's abstraction of this state.
    pub open spec fn focus_view(&self) -> FocusView {
        FocusView {
            pinning: self.pinning,
            focusing: opt_path_view(self.focusing),
            ever_manual: self.ever_manual_focusing,
            ever_activities: self.ever_focusing_by_activities,
            has_default: self.config@.default_entry is Some,
        }
    }

    /// Everything a focus operation must leave alone.
    pub open spec fn focus_frame(&self, post: &ServerState) -> bool {
        &&& post.docs == self.docs
        &&& post.config == self.config
        &&& post.route == self.route
        &&& post.primary_task_id == self.primary_task_id
    }

    /// The entry a pin command drives: the pinned path, else the policy
    /// default, else the last recorded focus.
    pub open spec fn pin_effective(&self, p: Option<Seq<u8>>) -> Option<Seq<u8>> {
        if p is Some {
            p
        } else if self.config@.default_entry is Some {
            self.config@.default_entry
        } else {
            opt_path_view(self.focusing)
        }
    }

    /// Changes the primary task's main file to the given path.  A present
    /// path must be absolute (the virtual `/untitled` namespace included);
    /// otherwise the call fails with `InvalidEntryPath` and nothing
    /// changes.  On success the resolved task is sent as a change-task
    /// interrupt — fire and forget — and the call reports `true`.
    pub fn change_main_file(&mut self, path: Option<DocPath>) -> (r: Result<bool, SyncError>)
        ensures
            old(self).focus_frame(final(self)),
            final(self).focus_view() == old(self).focus_view(),
            !valid_entry_opt(opt_path_view(path)) ==> {
                &&& r == Err::<bool, SyncError>(SyncError::InvalidEntryPath)
                &&& final(self).intr_log() == old(self).intr_log()
            },
            valid_entry_opt(opt_path_view(path)) ==> {
                &&& r == Ok::<bool, SyncError>(true)
                &&& final(self).intr_log() == old(self).intr_log().push(
                    change_task_intr(
                        old(self).primary_task_id,
                        resolve_task_or_spec(old(self), opt_path_view(path)),
                    ),
                )
            },
    {
        match &path {
            Some(p) => {
                if !p.is_absolute() {
                    return Err(SyncError::InvalidEntryPath);
                }
            },
            None => {},
        }
        let task = self.resolve_task_or(path);
        proof {
            lemma_intr_views_push(
                self.interrupts@,
                Interrupt::ChangeTask(self.primary_task_id, task),
            );
        }
        let id = self.primary_task_id;
        self.interrupts.push(Interrupt::ChangeTask(id, task));
        Ok(true)
    }

    /// Pins the main file: an explicit command, so the session is marked
    /// manually focused and `pinning` tracks whether a path was given.
    /// The effective entry — pinned path, else policy default, else last
    /// focus — is handed to the main-file change.
    pub fn pin_main_file(&mut self, new_entry: Option<DocPath>) -> (r: Result<(), SyncError>)
        ensures
            old(self).focus_frame(final(self)),
            final(self).focus_view() == pin_step(
                old(self).focus_view(),
                opt_path_view(new_entry),
            ),
            valid_entry_opt(old(self).pin_effective(opt_path_view(new_entry))) ==> {
                &&& r is Ok
                &&& final(self).intr_log() == old(self).intr_log().push(
                    change_task_intr(
                        old(self).primary_task_id,
                        resolve_task_or_spec(
                            old(self),
                            old(self).pin_effective(opt_path_view(new_entry)),
                        ),
                    ),
                )
            },
            !valid_entry_opt(old(self).pin_effective(opt_path_view(new_entry))) ==> {
                &&& r == Err::<(), SyncError>(SyncError::InvalidEntryPath)
                &&& final(self).intr_log() == old(self).intr_log()
            },
    {
        self.ever_manual_focusing = true;
        self.pinning = new_entry.is_some();
        let entry = match new_entry {
            Some(p) => Some(p),
            None => match self.resolver().resolve_default() {
                Some(d) => Some(d),
                None => opt_path_dup(&self.focusing),
            },
        };
        proof {
            assert(self.focus_view() =~= pin_step(
                old(self).focus_view(),
                opt_path_view(new_entry),
            ));
        }
        match self.change_main_file(entry) {
            Ok(_) => Ok(()),
            Err(e) => Err(e),
        }
    }

    /// The focus primitive shared by the explicit command and the implicit
    /// heuristic: under an active pin or a configured default entry it
    /// only records the focus path and reports `false` (no interrupt);
    /// otherwise it is a main-file change.
    fn focus_entry_impl(&mut self, new_entry: Option<DocPath>) -> (r: Result<bool, SyncError>)
        ensures
            old(self).focus_frame(final(self)),
            final(self).focus_view() == focus_primitive_step(
                old(self).focus_view(),
                opt_path_view(new_entry),
            ),
            final(self).ever_manual_focusing == old(self).ever_manual_focusing,
            final(self).ever_focusing_by_activities == old(self).ever_focusing_by_activities,
            (old(self).pinning || old(self).config@.default_entry is Some) ==> {
                &&& r == Ok::<bool, SyncError>(false)
                &&& final(self).intr_log() == old(self).intr_log()
            },
            focus_primitive_emits(old(self).focus_view(), opt_path_view(new_entry)) ==> {
                &&& r == Ok::<bool, SyncError>(true)
                &&& final(self).intr_log() == old(self).intr_log().push(
                    change_task_intr(
                        old(self).primary_task_id,
                        resolve_task_or_spec(old(self), opt_path_view(new_entry)),
                    ),
                )
            },
            (!(old(self).pinning || old(self).config@.default_entry is Some)
                && !valid_entry_opt(opt_path_view(new_entry))) ==> {
                &&& r == Err::<bool, SyncError>(SyncError::InvalidEntryPath)
                &&& final(self).intr_log() == old(self).intr_log()
            },
    {
        if self.pinning || self.config.default_entry.is_some() {
            self.focusing = new_entry;
            proof {
                assert(self.focus_view() =~= focus_primitive_step(
                    old(self).focus_view(),
                    opt_path_view(new_entry),
                ));
            }
            Ok(false)
        } else {
            self.change_main_file(new_entry)
        }
    }

    /// Explicitly focuses the main file: a manual command, so implicit
    /// heuristics are disabled from here on.  Reports `true` when the main
    /// file actually changed, `false` when an active pin or a configured
    /// default entry made the call a no-op for the compile subsystem.
    pub fn focus_main_file(&mut self, new_entry: Option<DocPath>) -> (r: Result<
        bool,
        SyncError,
    >)
        ensures
            old(self).focus_frame(final(self)),
            final(self).focus_view() == focus_explicit_step(
                old(self).focus_view(),
                opt_path_view(new_entry),
            ),
            (old(self).pinning || old(self).config@.default_entry is Some) ==> {
                &&& r == Ok::<bool, SyncError>(false)
                &&& final(self).intr_log() == old(self).intr_log()
            },
            focus_primitive_emits(old(self).focus_view(), opt_path_view(new_entry)) ==> {
                &&& r == Ok::<bool, SyncError>(true)
                &&& final(self).intr_log() == old(self).intr_log().push(
                    change_task_intr(
                        old(self).primary_task_id,
                        resolve_task_or_spec(old(self), opt_path_view(new_entry)),
                    ),
                )
            },
            (!(old(self).pinning || old(self).config@.default_entry is Some)
                && !valid_entry_opt(opt_path_view(new_entry))) ==> {
                &&& r == Err::<bool, SyncError>(SyncError::InvalidEntryPath)
                &&& final(self).intr_log() == old(self).intr_log()
            },
    {
        self.ever_manual_focusing = true;
        proof {
            assert(self.focus_view() =~= with_manual(old(self).focus_view()));
        }
        self.focus_entry_impl(new_entry)
    }

    /// Implicit focus driven by incoming requests rather than an explicit
    /// command.  Does nothing once a manual command has occurred.  A
    /// read-only activity site (`'f'`, `'h'`, `'t'`) marks the session and
    /// proceeds; an open-event site is suppressed once any read-only
    /// activity has occurred, so a later open cannot steal focus from a
    /// file the user is being shown information about.  Failures of the
    /// underlying focus are swallowed: the heuristic is best-effort and
    /// never aborts the triggering request.
    pub fn implicit_focus_entry(&mut self, new_entry: Option<DocPath>, site: char)
        ensures
            old(self).focus_frame(final(self)),
            final(self).focus_view() == implicit_step(
                old(self).focus_view(),
                opt_path_view(new_entry),
                site,
            ),
            implicit_emits(old(self).focus_view(), opt_path_view(new_entry), site)
                ==> final(self).intr_log() == old(self).intr_log().push(
                change_task_intr(
                    old(self).primary_task_id,
                    resolve_task_or_spec(old(self), opt_path_view(new_entry)),
                ),
            ),
            !implicit_emits(old(self).focus_view(), opt_path_view(new_entry), site)
                ==> final(self).intr_log() == old(self).intr_log(),
    {
        if self.ever_manual_focusing {
            return ;
        }
        if site == 'f' || site == 'h' || site == 't' {
            self.ever_focusing_by_activities = true;
        } else {
            if self.ever_focusing_by_activities {
                return ;
            }
        }
        let _ = self.focus_entry_impl(new_entry);
        proof {
            assert(self.focus_view() =~= implicit_step(
                old(self).focus_view(),
                opt_path_view(new_entry),
                site,
            ));
        }
    }
}

} // verus!
