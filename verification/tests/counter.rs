use taurin::counter::{display_count, keeps_history, stats_text, CharCountResult, CountMode, StatLabels};

#[test]
fn counts_and_report() {
    let mut r = CharCountResult::default();
    assert_eq!(r.char_count, 0);
    r.char_count = 12;
    r.char_count_no_spaces = 10;
    r.word_count = 2;
    r.line_count = 1;
    r.paragraph_count = 1;
    r.byte_count_utf8 = 12;
    r.byte_count_sjis = 12;
    r.alphanumeric_count = 10;
    assert_eq!(display_count(&r, CountMode::WithSpaces), 12);
    assert_eq!(display_count(&r, CountMode::WithoutSpaces), 10);
    let l = StatLabels {
        char_count: "Characters".to_string(),
        char_count_no_spaces: "No spaces".to_string(),
        word_count: "Words".to_string(),
        line_count: "Lines".to_string(),
        paragraph_count: "Paragraphs".to_string(),
        alphanumeric: "Alnum".to_string(),
        hiragana: "Hiragana".to_string(),
        katakana: "Katakana".to_string(),
        kanji: "Kanji".to_string(),
    };
    assert_eq!(
        stats_text(&r, &l),
        "Characters: 12\nNo spaces: 10\nWords: 2\nLines: 1\nParagraphs: 1\nUTF-8: 12 bytes\nShift_JIS: 12 bytes\nAlnum: 10\nHiragana: 0\nKatakana: 0\nKanji: 0"
    );
    assert!(keeps_history("a") && !keeps_history(""));
}
