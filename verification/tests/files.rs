use taurin::tools::{get_file_extension, is_csv_file, is_image_file, is_json_file, is_markdown_file, is_pdf_file, is_text_file};

#[test]
fn extensions() {
    assert_eq!(get_file_extension("/a/b/Photo.JPG"), Some("jpg".to_string()));
    assert_eq!(get_file_extension("archive.tar.gz"), Some("gz".to_string()));
    assert_eq!(get_file_extension("README"), Some("readme".to_string()));
    assert!(is_image_file("x.webp"));
    assert!(!is_image_file("x.txt"));
    assert!(is_csv_file("data.TSV"));
    assert!(is_pdf_file("doc.pdf"));
    assert!(is_markdown_file("notes.markdown"));
    assert!(is_json_file("conf.json"));
    assert!(is_text_file("main.rs"));
    assert!(!is_text_file("song.mp3"));
}
