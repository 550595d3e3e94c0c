//! The code-lens request: the commands shown at the top of a document.
//!
//! The command list is fixed — profile, preview, one export command chosen
//! by whether the HTML feature is enabled, and a catch-all — and a lens is
//! only produced for a document the overlay actually holds.  Turning the
//! commands into protocol lenses (titles, localization, the zero range) is
//! the host's concern.

use vstd::prelude::*;

use crate::paths::DocPath;
use crate::server::{docs_contain, ServerState};

verus! {

/// One command offered as a code lens, in display order.
#[derive(Debug, Clone, Copy, PartialEq, Eq, Structural)]
pub enum CodeLensCommand {
    /// Profile the document's compilation.
    Profile,
    /// Open a live preview.
    Preview,
    /// Export as HTML (when the HTML feature is enabled).
    ExportHtml,
    /// Export as PDF (when it is not).
    ExportPdf,
    /// The catch-all menu.
    More,
}

/// The fixed command list for a document.
pub open spec fn code_lens_list(is_html: bool) -> Seq<CodeLensCommand> {
    seq![
        CodeLensCommand::Profile,
        CodeLensCommand::Preview,
        if is_html {
            CodeLensCommand::ExportHtml
        } else {
            CodeLensCommand::ExportPdf
        },
        CodeLensCommand::More,
    ]
}

/// A request to compute the code lenses of one document.
#[derive(Debug, Clone)]
pub struct CodeLensRequest {
    /// The path of the document to request for.
    pub path: DocPath,
}

impl CodeLensRequest {
    /// The commands to offer, or `None` when the document is not open.
    pub fn request(self, state: &ServerState, is_html: bool) -> (r: Option<
        Vec<CodeLensCommand>,
    >)
        requires
            state.wf(),
        ensures
            match r {
                Some(cmds) => docs_contain(state.docs@, self.path@) && cmds@
                    == code_lens_list(is_html),
                None => !docs_contain(state.docs@, self.path@),
            },
    {
        match state.query_source(&self.path) {
            Err(_) => None,
            Ok(_) => {
                let mut cmds: Vec<CodeLensCommand> = Vec::new();
                cmds.push(CodeLensCommand::Profile);
                cmds.push(CodeLensCommand::Preview);
                if is_html {
                    cmds.push(CodeLensCommand::ExportHtml);
                } else {
                    cmds.push(CodeLensCommand::ExportPdf);
                }
                cmds.push(CodeLensCommand::More);
                proof {
                    assert(cmds@ =~= code_lens_list(is_html));
                }
                Some(cmds)
            },
        }
    }
}

} // verus!
