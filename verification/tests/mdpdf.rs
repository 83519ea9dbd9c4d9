use taurin::mdpdf::{default_pdf_name, MarkdownInfo, MdPdfState};

#[test]
fn pdf_names() {
    assert_eq!(default_pdf_name("/home/u/notes/readme.md"), "readme.pdf");
    assert_eq!(default_pdf_name("/docs/guide.markdown"), "guide.pdf");
    assert_eq!(default_pdf_name("plain"), "plain");
    assert_eq!(default_pdf_name("/a/x.md.markdown"), "x.pdf.pdf");
    assert_eq!(default_pdf_name("/a/"), "");
}

#[test]
fn converting() {
    let mut s = MdPdfState::new();
    assert!(s.convert_disabled());
    assert!(s.convert().is_none());
    s.choose_file("/d/a.md".to_string());
    assert!(s.convert().is_none());
    s.on_info(MarkdownInfo { file_name: "a.md".to_string(), file_size: 3, content: "# A".to_string() });
    s.on_preview(false, "x".to_string());
    assert!(s.html_preview.is_empty());
    s.on_preview(true, "<h1>A</h1>".to_string());
    let plan = s.convert().unwrap();
    assert_eq!(plan.default_name, "a.pdf");
    assert_eq!(plan.markdown, "# A");
    assert_eq!(plan.source_path, "/d/a.md");
    assert!(s.convert_disabled());
    s.on_result(None);
    assert!(!s.is_processing);
    s.reset();
    assert!(s.input_path.is_empty() && s.info.is_none() && s.html_preview.is_empty());
}
