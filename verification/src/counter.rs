//! The character counter: which count is shown and the statistics copied to
//! the clipboard.
use vstd::prelude::*;
use crate::text::decimal;
use crate::text::decimal_chars;
use crate::text::extend;
use crate::text::extend_str;
use crate::text::from_chars;

verus! {

/// The counts the backend reports for a text.
#[derive(Clone, Copy, Debug, PartialEq, Eq, Structural)]
pub struct CharCountResult {
    pub char_count: usize,
    pub char_count_no_spaces: usize,
    pub word_count: usize,
    pub line_count: usize,
    pub paragraph_count: usize,
    pub byte_count_utf8: usize,
    pub byte_count_sjis: usize,
    pub alphanumeric_count: usize,
    pub hiragana_count: usize,
    pub katakana_count: usize,
    pub kanji_count: usize,
    pub fullwidth_count: usize,
    pub halfwidth_count: usize,
}

impl Default for CharCountResult {
    /// All counts zero.
    fn default() -> (r: Self)
        ensures
            r == (CharCountResult {
                char_count: 0,
                char_count_no_spaces: 0,
                word_count: 0,
                line_count: 0,
                paragraph_count: 0,
                byte_count_utf8: 0,
                byte_count_sjis: 0,
                alphanumeric_count: 0,
                hiragana_count: 0,
                katakana_count: 0,
                kanji_count: 0,
                fullwidth_count: 0,
                halfwidth_count: 0,
            }),
    {
        CharCountResult {
            char_count: 0,
            char_count_no_spaces: 0,
            word_count: 0,
            line_count: 0,
            paragraph_count: 0,
            byte_count_utf8: 0,
            byte_count_sjis: 0,
            alphanumeric_count: 0,
            hiragana_count: 0,
            katakana_count: 0,
            kanji_count: 0,
            fullwidth_count: 0,
            halfwidth_count: 0,
        }
    }
}

/// Whether spaces count.
#[derive(Clone, Copy, Debug, PartialEq, Eq, Structural)]
pub enum CountMode {
    WithSpaces,
    WithoutSpaces,
}

/// The big number: characters with or without spaces.
pub fn display_count(r: &CharCountResult, mode: CountMode) -> (n: usize)
    ensures
        mode == CountMode::WithSpaces ==> n == r.char_count,
        mode == CountMode::WithoutSpaces ==> n == r.char_count_no_spaces,
{
    match mode {
        CountMode::WithSpaces => r.char_count,
        CountMode::WithoutSpaces => r.char_count_no_spaces,
    }
}

/// The translated labels of the statistics.
#[derive(Clone)]
pub struct StatLabels {
    pub char_count: String,
    pub char_count_no_spaces: String,
    pub word_count: String,
    pub line_count: String,
    pub paragraph_count: String,
    pub alphanumeric: String,
    pub hiragana: String,
    pub katakana: String,
    pub kanji: String,
}

/// One line `label: n`.
pub open spec fn stat_line(label: Seq<char>, n: usize) -> Seq<char> {
    label + ": "@ + decimal(n as nat)
}

/// The statistics copied by the copy button, one per line: characters,
/// characters without spaces, words, lines, paragraphs, the UTF-8 and
/// Shift_JIS sizes, alphanumerics, hiragana, katakana and kanji.
pub open spec fn stats_report(r: CharCountResult, l: StatLabels) -> Seq<char> {
    stat_line(l.char_count@, r.char_count) + seq!['\n'] + stat_line(
        l.char_count_no_spaces@,
        r.char_count_no_spaces,
    ) + seq!['\n'] + stat_line(l.word_count@, r.word_count) + seq!['\n'] + stat_line(
        l.line_count@,
        r.line_count,
    ) + seq!['\n'] + stat_line(l.paragraph_count@, r.paragraph_count) + "\nUTF-8: "@ + decimal(
        r.byte_count_utf8 as nat,
    ) + " bytes\nShift_JIS: "@ + decimal(r.byte_count_sjis as nat) + " bytes\n"@ + stat_line(
        l.alphanumeric@,
        r.alphanumeric_count,
    ) + seq!['\n'] + stat_line(l.hiragana@, r.hiragana_count) + seq!['\n'] + stat_line(
        l.katakana@,
        r.katakana_count,
    ) + seq!['\n'] + stat_line(l.kanji@, r.kanji_count)
}

/// Appends `label: n`.
fn emit_stat(out: &mut Vec<char>, label: &String, n: usize)
    ensures
        final(out)@ == old(out)@ + stat_line(label@, n),
{
    extend_str(out, label.as_str());
    extend_str(out, ": ");
    extend(out, &decimal_chars(n as u64));
    assert(final(out)@ =~= old(out)@ + stat_line(label@, n));
}

/// The statistics the copy button copies.
pub fn stats_text(r: &CharCountResult, labels: &StatLabels) -> (s: String)
    ensures
        s@ == stats_report(*r, *labels),
{
    let mut out: Vec<char> = Vec::new();
    emit_stat(&mut out, &labels.char_count, r.char_count);
    out.push('\n');
    emit_stat(&mut out, &labels.char_count_no_spaces, r.char_count_no_spaces);
    out.push('\n');
    emit_stat(&mut out, &labels.word_count, r.word_count);
    out.push('\n');
    emit_stat(&mut out, &labels.line_count, r.line_count);
    out.push('\n');
    emit_stat(&mut out, &labels.paragraph_count, r.paragraph_count);
    extend_str(&mut out, "\nUTF-8: ");
    extend(&mut out, &decimal_chars(r.byte_count_utf8 as u64));
    extend_str(&mut out, " bytes\nShift_JIS: ");
    extend(&mut out, &decimal_chars(r.byte_count_sjis as u64));
    extend_str(&mut out, " bytes\n");
    emit_stat(&mut out, &labels.alphanumeric, r.alphanumeric_count);
    out.push('\n');
    emit_stat(&mut out, &labels.hiragana, r.hiragana_count);
    out.push('\n');
    emit_stat(&mut out, &labels.katakana, r.katakana_count);
    out.push('\n');
    emit_stat(&mut out, &labels.kanji, r.kanji_count);
    assert(out@ =~= stats_report(*r, *labels));
    from_chars(&out)
}

/// A counted text goes into the history unless it is empty.
pub fn keeps_history(text: &str) -> (b: bool)
    ensures
        b == (text@.len() > 0),
{
    !text.is_empty()
}

} // verus!
