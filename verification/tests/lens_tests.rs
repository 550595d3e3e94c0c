use tinymist_sync::code_lens::{CodeLensCommand, CodeLensRequest};
use tinymist_sync::paths::DocPath;
use tinymist_sync::server::ServerState;

fn p(s: &str) -> DocPath {
    DocPath::new(s.as_bytes().to_vec())
}

#[test]
fn lenses_for_open_document_without_html() {
    let mut st = ServerState::new();
    st.create_source(p("/a.typ"), b"= Title".to_vec()).unwrap();
    let req = CodeLensRequest { path: p("/a.typ") };
    let cmds = req.request(&st, false).unwrap();
    assert_eq!(cmds, vec![CodeLensCommand::Profile, CodeLensCommand::Preview,
        CodeLensCommand::ExportPdf, CodeLensCommand::More]);
}

#[test]
fn lenses_offer_html_export_when_enabled() {
    let mut st = ServerState::new();
    st.create_source(p("/a.typ"), b"".to_vec()).unwrap();
    let req = CodeLensRequest { path: p("/a.typ") };
    let cmds = req.request(&st, true).unwrap();
    assert_eq!(cmds[2], CodeLensCommand::ExportHtml);
}

#[test]
fn lenses_absent_for_unopened_document() {
    let st = ServerState::new();
    let req = CodeLensRequest { path: p("/a.typ") };
    assert!(req.request(&st, false).is_none());
}
