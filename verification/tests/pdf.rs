use taurin::pdf::{
    can_merge, created_files_text, dropped_pdf, merge_request, merge_title_text, move_file_down,
    move_file_up, page_field, pages_text, pdf_mode_class, remove_merge_file, reset_pages,
    split_request, total_pages, total_pages_text, DroppedPdf, PdfFile, PdfInfo, PdfMode,
    SplitRequest, SplitType,
};

fn file(path: &str, pages: u32) -> PdfFile {
    PdfFile { path: path.to_string(), info: PdfInfo { page_count: pages, file_size: 10, file_name: path.to_string() } }
}

fn paths(fs: &[PdfFile]) -> Vec<String> {
    fs.iter().map(|f| f.path.clone()).collect()
}

#[test]
fn merge_list_moves() {
    let mut fs = vec![file("a", 1), file("b", 2), file("c", 3)];
    move_file_down(&mut fs, 0);
    assert_eq!(paths(&fs), vec!["b", "a", "c"]);
    move_file_up(&mut fs, 1);
    assert_eq!(paths(&fs), vec!["a", "b", "c"]);
    move_file_up(&mut fs, 0);
    move_file_down(&mut fs, 2);
    assert_eq!(paths(&fs), vec!["a", "b", "c"]);
    assert_eq!(total_pages(&fs), 6);
    assert_eq!(total_pages_text(&fs), "Total: 6 pages");
    remove_merge_file(&mut fs, 1);
    assert_eq!(paths(&fs), vec!["a", "c"]);
    assert_eq!(merge_request(&fs), Some(vec!["a".to_string(), "c".to_string()]));
    assert!(can_merge(&fs, false));
    assert!(!can_merge(&fs, true));
    assert!(merge_request(&vec![]).is_none());
}

#[test]
fn split_requests() {
    assert!(split_request(SplitType::Range, &String::new(), 1, 2).is_none());
    match split_request(SplitType::Range, &"/x.pdf".to_string(), 2, 5) {
        Some(SplitRequest::Range { input_path, start_page, end_page }) => {
            assert_eq!((input_path.as_str(), start_page, end_page), ("/x.pdf", 2, 5));
        }
        _ => panic!("expected a range"),
    }
    assert!(matches!(split_request(SplitType::AllPages, &"/x.pdf".to_string(), 2, 5), Some(SplitRequest::AllPages { .. })));
    let info = PdfInfo { page_count: 9, file_size: 1, file_name: "x".to_string() };
    assert!(matches!(dropped_pdf(PdfMode::Split, &info), DroppedPdf::ToSplit { end_page: 9 }));
    assert!(matches!(dropped_pdf(PdfMode::Merge, &info), DroppedPdf::ToMerge));
    assert_eq!(reset_pages(), (1, 1));
    assert_eq!(page_field("7", 1), 7);
    assert_eq!(page_field("x", 1), 1);
    assert_eq!(created_files_text(3), "Created 3 file(s)");
    assert_eq!(merge_title_text(2), "Files to Merge (2)");
    assert_eq!(pages_text(4), "4 pages");
    assert_eq!(pdf_mode_class(PdfMode::Split, PdfMode::Merge), "mode-btn");
}
