//! The tools of the application: their ids, labels, icons and search
//! keywords, the sidebar categories, and where a dropped file goes.
use vstd::prelude::*;
use vstd::string::*;
use crate::text::{lower, to_chars, eq_str, lowercase, string_views};
use crate::palette::ToolItem;

verus! {

/// One tool of the application.
#[derive(Clone, Copy, Debug, PartialEq, Eq, Structural)]
pub enum Tab {
    ImageCompressor,
    ImageEditor,
    CsvViewer,
    PdfTools,
    MarkdownToPdf,
    KanbanBoard,
    ScratchPad,
    UuidGenerator,
    PasswordGenerator,
    UnitConverter,
    UnixTimeConverter,
    TextDiff,
    RegexTester,
    JsonFormatter,
    Base64Encoder,
    ShortcutDictionary,
    CharCounter,
}

/// The tool's stable id.
pub open spec fn tab_id(t: Tab) -> Seq<char> {
    match t {
        Tab::ImageCompressor => "image_compressor"@,
        Tab::ImageEditor => "image_editor"@,
        Tab::CsvViewer => "csv_viewer"@,
        Tab::PdfTools => "pdf_tools"@,
        Tab::MarkdownToPdf => "markdown_to_pdf"@,
        Tab::KanbanBoard => "kanban_board"@,
        Tab::ScratchPad => "scratch_pad"@,
        Tab::UuidGenerator => "uuid_generator"@,
        Tab::PasswordGenerator => "password_generator"@,
        Tab::UnitConverter => "unit_converter"@,
        Tab::UnixTimeConverter => "unix_time_converter"@,
        Tab::TextDiff => "text_diff"@,
        Tab::RegexTester => "regex_tester"@,
        Tab::JsonFormatter => "json_formatter"@,
        Tab::Base64Encoder => "base64_encoder"@,
        Tab::ShortcutDictionary => "shortcut_dictionary"@,
        Tab::CharCounter => "char_counter"@,
    }
}

/// The translation key of the tool's name.
pub open spec fn tab_name_key(t: Tab) -> Seq<char> {
    match t {
        Tab::ImageCompressor => "app.tabs.compress"@,
        Tab::ImageEditor => "app.tabs.edit"@,
        Tab::CsvViewer => "app.tabs.csv"@,
        Tab::PdfTools => "app.tabs.pdf"@,
        Tab::MarkdownToPdf => "app.tabs.markdown"@,
        Tab::KanbanBoard => "app.tabs.kanban"@,
        Tab::ScratchPad => "app.tabs.notes"@,
        Tab::UuidGenerator => "app.tabs.uuid"@,
        Tab::PasswordGenerator => "app.tabs.password"@,
        Tab::UnitConverter => "app.tabs.unit"@,
        Tab::UnixTimeConverter => "app.tabs.unix_time"@,
        Tab::TextDiff => "app.tabs.diff"@,
        Tab::RegexTester => "app.tabs.regex"@,
        Tab::JsonFormatter => "app.tabs.json"@,
        Tab::Base64Encoder => "app.tabs.base64"@,
        Tab::ShortcutDictionary => "app.tabs.shortcut_dictionary"@,
        Tab::CharCounter => "app.tabs.char_counter"@,
    }
}

/// The translation key of the tool's description.
pub open spec fn tab_description_key(t: Tab) -> Seq<char> {
    match t {
        Tab::ImageCompressor => "command_palette.desc.compress"@,
        Tab::ImageEditor => "command_palette.desc.edit"@,
        Tab::CsvViewer => "command_palette.desc.csv"@,
        Tab::PdfTools => "command_palette.desc.pdf"@,
        Tab::MarkdownToPdf => "command_palette.desc.markdown"@,
        Tab::KanbanBoard => "command_palette.desc.kanban"@,
        Tab::ScratchPad => "command_palette.desc.notes"@,
        Tab::UuidGenerator => "command_palette.desc.uuid"@,
        Tab::PasswordGenerator => "command_palette.desc.password"@,
        Tab::UnitConverter => "command_palette.desc.unit"@,
        Tab::UnixTimeConverter => "command_palette.desc.unix_time"@,
        Tab::TextDiff => "command_palette.desc.diff"@,
        Tab::RegexTester => "command_palette.desc.regex"@,
        Tab::JsonFormatter => "command_palette.desc.json"@,
        Tab::Base64Encoder => "command_palette.desc.base64"@,
        Tab::ShortcutDictionary => "command_palette.desc.shortcut_dictionary"@,
        Tab::CharCounter => "command_palette.desc.char_counter"@,
    }
}

/// The name of the tool's icon.
pub open spec fn tab_icon(t: Tab) -> Seq<char> {
    match t {
        Tab::ImageCompressor => "photo.stack"@,
        Tab::ImageEditor => "paintbrush"@,
        Tab::CsvViewer => "tablecells"@,
        Tab::PdfTools => "doc.fill"@,
        Tab::MarkdownToPdf => "doc.text"@,
        Tab::KanbanBoard => "rectangle.3.group"@,
        Tab::ScratchPad => "note.text"@,
        Tab::UuidGenerator => "key.fill"@,
        Tab::PasswordGenerator => "lock.fill"@,
        Tab::UnitConverter => "arrow.left.arrow.right"@,
        Tab::UnixTimeConverter => "clock"@,
        Tab::TextDiff => "arrow.triangle.branch"@,
        Tab::RegexTester => "asterisk.circle"@,
        Tab::JsonFormatter => "curlybraces"@,
        Tab::Base64Encoder => "doc.badge.gearshape"@,
        Tab::ShortcutDictionary => "keyboard"@,
        Tab::CharCounter => "textformat.abc"@,
    }
}

/// The search keywords of the tool.
pub open spec fn tab_keywords(t: Tab) -> Seq<Seq<char>> {
    match t {
        Tab::ImageCompressor => seq!["image"@, "compress"@, "png"@, "jpeg"@, "webp"@, "avif"@, "画像"@, "圧縮"@],
        Tab::ImageEditor => seq!["image"@, "edit"@, "resize"@, "crop"@, "rotate"@, "filter"@, "画像"@, "編集"@, "リサイズ"@],
        Tab::CsvViewer => seq!["csv"@, "tsv"@, "table"@, "spreadsheet"@, "テーブル"@],
        Tab::PdfTools => seq!["pdf"@, "split"@, "merge"@, "分割"@, "結合"@],
        Tab::MarkdownToPdf => seq!["markdown"@, "md"@, "pdf"@, "convert"@, "変換"@],
        Tab::KanbanBoard => seq!["kanban"@, "task"@, "board"@, "タスク"@, "ボード"@],
        Tab::ScratchPad => seq!["note"@, "memo"@, "scratch"@, "メモ"@, "ノート"@],
        Tab::UuidGenerator => seq!["uuid"@, "guid"@, "generate"@, "v4"@, "v7"@, "生成"@],
        Tab::PasswordGenerator => seq!["password"@, "passphrase"@, "generate"@, "security"@, "パスワード"@, "生成"@],
        Tab::UnitConverter => seq!["unit"@, "convert"@, "length"@, "weight"@, "temperature"@, "単位"@, "変換"@],
        Tab::UnixTimeConverter => seq!["unix"@, "time"@, "timestamp"@, "epoch"@, "datetime"@, "時間"@],
        Tab::TextDiff => seq!["diff"@, "compare"@, "text"@, "差分"@, "比較"@],
        Tab::RegexTester => seq!["regex"@, "regular"@, "expression"@, "pattern"@, "test"@, "正規表現"@],
        Tab::JsonFormatter => seq!["json"@, "format"@, "validate"@, "tree"@, "整形"@, "フォーマット"@],
        Tab::Base64Encoder => seq!["base64"@, "encode"@, "decode"@, "エンコード"@, "デコード"@],
        Tab::ShortcutDictionary => seq!["shortcut"@, "keybinding"@, "keyboard"@, "hotkey"@, "vscode"@, "intellij"@, "vim"@, "terminal"@, "ショートカット"@, "キーバインド"@],
        Tab::CharCounter => seq!["char"@, "character"@, "count"@, "counter"@, "byte"@, "word"@, "line"@, "文字数"@, "バイト数"@, "カウント"@, "カウンター"@],
    }
}

/// Every tool, in the order of the command palette.
pub open spec fn all_tabs_spec() -> Seq<Tab> {
    seq![Tab::ImageCompressor, Tab::ImageEditor, Tab::CsvViewer, Tab::PdfTools, Tab::MarkdownToPdf, Tab::KanbanBoard, Tab::ScratchPad, Tab::UuidGenerator, Tab::PasswordGenerator, Tab::UnitConverter, Tab::UnixTimeConverter, Tab::TextDiff, Tab::RegexTester, Tab::JsonFormatter, Tab::Base64Encoder, Tab::ShortcutDictionary, Tab::CharCounter]
}

impl Tab {
    /// The translation key of the tool's name.
    pub fn translation_key(&self) -> (r: &'static str)
        ensures
            r@ == tab_name_key(*self),
    {
        match self {
            Tab::ImageCompressor => "app.tabs.compress",
            Tab::ImageEditor => "app.tabs.edit",
            Tab::CsvViewer => "app.tabs.csv",
            Tab::PdfTools => "app.tabs.pdf",
            Tab::MarkdownToPdf => "app.tabs.markdown",
            Tab::KanbanBoard => "app.tabs.kanban",
            Tab::ScratchPad => "app.tabs.notes",
            Tab::UuidGenerator => "app.tabs.uuid",
            Tab::PasswordGenerator => "app.tabs.password",
            Tab::UnitConverter => "app.tabs.unit",
            Tab::UnixTimeConverter => "app.tabs.unix_time",
            Tab::TextDiff => "app.tabs.diff",
            Tab::RegexTester => "app.tabs.regex",
            Tab::JsonFormatter => "app.tabs.json",
            Tab::Base64Encoder => "app.tabs.base64",
            Tab::ShortcutDictionary => "app.tabs.shortcut_dictionary",
            Tab::CharCounter => "app.tabs.char_counter",
        }
    }

    /// The tool's stable id.
    pub fn id(&self) -> (r: &'static str)
        ensures
            r@ == tab_id(*self),
    {
        match self {
            Tab::ImageCompressor => "image_compressor",
            Tab::ImageEditor => "image_editor",
            Tab::CsvViewer => "csv_viewer",
            Tab::PdfTools => "pdf_tools",
            Tab::MarkdownToPdf => "markdown_to_pdf",
            Tab::KanbanBoard => "kanban_board",
            Tab::ScratchPad => "scratch_pad",
            Tab::UuidGenerator => "uuid_generator",
            Tab::PasswordGenerator => "password_generator",
            Tab::UnitConverter => "unit_converter",
            Tab::UnixTimeConverter => "unix_time_converter",
            Tab::TextDiff => "text_diff",
            Tab::RegexTester => "regex_tester",
            Tab::JsonFormatter => "json_formatter",
            Tab::Base64Encoder => "base64_encoder",
            Tab::ShortcutDictionary => "shortcut_dictionary",
            Tab::CharCounter => "char_counter",
        }
    }

    /// The translation key of the tool's description.
    pub fn description_key(&self) -> (r: &'static str)
        ensures
            r@ == tab_description_key(*self),
    {
        match self {
            Tab::ImageCompressor => "command_palette.desc.compress",
            Tab::ImageEditor => "command_palette.desc.edit",
            Tab::CsvViewer => "command_palette.desc.csv",
            Tab::PdfTools => "command_palette.desc.pdf",
            Tab::MarkdownToPdf => "command_palette.desc.markdown",
            Tab::KanbanBoard => "command_palette.desc.kanban",
            Tab::ScratchPad => "command_palette.desc.notes",
            Tab::UuidGenerator => "command_palette.desc.uuid",
            Tab::PasswordGenerator => "command_palette.desc.password",
            Tab::UnitConverter => "command_palette.desc.unit",
            Tab::UnixTimeConverter => "command_palette.desc.unix_time",
            Tab::TextDiff => "command_palette.desc.diff",
            Tab::RegexTester => "command_palette.desc.regex",
            Tab::JsonFormatter => "command_palette.desc.json",
            Tab::Base64Encoder => "command_palette.desc.base64",
            Tab::ShortcutDictionary => "command_palette.desc.shortcut_dictionary",
            Tab::CharCounter => "command_palette.desc.char_counter",
        }
    }

    /// The name of the tool's icon.
    pub fn icon(&self) -> (r: &'static str)
        ensures
            r@ == tab_icon(*self),
    {
        match self {
            Tab::ImageCompressor => "photo.stack",
            Tab::ImageEditor => "paintbrush",
            Tab::CsvViewer => "tablecells",
            Tab::PdfTools => "doc.fill",
            Tab::MarkdownToPdf => "doc.text",
            Tab::KanbanBoard => "rectangle.3.group",
            Tab::ScratchPad => "note.text",
            Tab::UuidGenerator => "key.fill",
            Tab::PasswordGenerator => "lock.fill",
            Tab::UnitConverter => "arrow.left.arrow.right",
            Tab::UnixTimeConverter => "clock",
            Tab::TextDiff => "arrow.triangle.branch",
            Tab::RegexTester => "asterisk.circle",
            Tab::JsonFormatter => "curlybraces",
            Tab::Base64Encoder => "doc.badge.gearshape",
            Tab::ShortcutDictionary => "keyboard",
            Tab::CharCounter => "textformat.abc",
        }
    }

    /// The tool with the given id.
    pub fn from_id(id: &str) -> (r: Option<Tab>)
        ensures
            match r {
                Some(t) => tab_id(t) == id@,
                None => forall|t: Tab| tab_id(t) != id@,
            },
            forall|t: Tab| tab_id(t) == id@ ==> r == Some(t),
    {
        let r = Self::lookup(id);
        proof {
            assert forall|t: Tab| tab_id(t) == id@ implies r == Some(t) by {
                match r {
                    Some(u) => {
                        if u != t {
                            law_tab_ids_distinct(u, t);
                        }
                    },
                    None => {},
                }
            }
        }
        r
    }

    /// The tool whose id is `id`, by comparing with each id.
    fn lookup(id: &str) -> (r: Option<Tab>)
        ensures
            match r {
                Some(t) => tab_id(t) == id@,
                None => forall|t: Tab| tab_id(t) != id@,
            },
    {
        let v = to_chars(id);
        if eq_str(&v, "image_compressor") {
            return Some(Tab::ImageCompressor);
        }
        if eq_str(&v, "image_editor") {
            return Some(Tab::ImageEditor);
        }
        if eq_str(&v, "csv_viewer") {
            return Some(Tab::CsvViewer);
        }
        if eq_str(&v, "pdf_tools") {
            return Some(Tab::PdfTools);
        }
        if eq_str(&v, "markdown_to_pdf") {
            return Some(Tab::MarkdownToPdf);
        }
        if eq_str(&v, "kanban_board") {
            return Some(Tab::KanbanBoard);
        }
        if eq_str(&v, "scratch_pad") {
            return Some(Tab::ScratchPad);
        }
        if eq_str(&v, "uuid_generator") {
            return Some(Tab::UuidGenerator);
        }
        if eq_str(&v, "password_generator") {
            return Some(Tab::PasswordGenerator);
        }
        if eq_str(&v, "unit_converter") {
            return Some(Tab::UnitConverter);
        }
        if eq_str(&v, "unix_time_converter") {
            return Some(Tab::UnixTimeConverter);
        }
        if eq_str(&v, "text_diff") {
            return Some(Tab::TextDiff);
        }
        if eq_str(&v, "regex_tester") {
            return Some(Tab::RegexTester);
        }
        if eq_str(&v, "json_formatter") {
            return Some(Tab::JsonFormatter);
        }
        if eq_str(&v, "base64_encoder") {
            return Some(Tab::Base64Encoder);
        }
        if eq_str(&v, "shortcut_dictionary") {
            return Some(Tab::ShortcutDictionary);
        }
        if eq_str(&v, "char_counter") {
            return Some(Tab::CharCounter);
        }
        proof {
            reveal_strlit("image_compressor");
            reveal_strlit("image_editor");
            reveal_strlit("csv_viewer");
            reveal_strlit("pdf_tools");
            reveal_strlit("markdown_to_pdf");
            reveal_strlit("kanban_board");
            reveal_strlit("scratch_pad");
            reveal_strlit("uuid_generator");
            reveal_strlit("password_generator");
            reveal_strlit("unit_converter");
            reveal_strlit("unix_time_converter");
            reveal_strlit("text_diff");
            reveal_strlit("regex_tester");
            reveal_strlit("json_formatter");
            reveal_strlit("base64_encoder");
            reveal_strlit("shortcut_dictionary");
            reveal_strlit("char_counter");
            assert forall|t: Tab| tab_id(t) != id@ by {
                match t {
                    Tab::ImageCompressor => {},
                    Tab::ImageEditor => {},
                    Tab::CsvViewer => {},
                    Tab::PdfTools => {},
                    Tab::MarkdownToPdf => {},
                    Tab::KanbanBoard => {},
                    Tab::ScratchPad => {},
                    Tab::UuidGenerator => {},
                    Tab::PasswordGenerator => {},
                    Tab::UnitConverter => {},
                    Tab::UnixTimeConverter => {},
                    Tab::TextDiff => {},
                    Tab::RegexTester => {},
                    Tab::JsonFormatter => {},
                    Tab::Base64Encoder => {},
                    Tab::ShortcutDictionary => {},
                    Tab::CharCounter => {},
                }
            }
        }
        None
    }

    /// The search keywords of the tool.
    pub fn keywords(&self) -> (r: Vec<String>)
        ensures
            string_views(r@) == tab_keywords(*self),
    {
        let mut r: Vec<String> = Vec::new();
        match self {
            Tab::ImageCompressor => {
                r.push(String::from_str("image"));
                r.push(String::from_str("compress"));
                r.push(String::from_str("png"));
                r.push(String::from_str("jpeg"));
                r.push(String::from_str("webp"));
                r.push(String::from_str("avif"));
                r.push(String::from_str("画像"));
                r.push(String::from_str("圧縮"));
            },
            Tab::ImageEditor => {
                r.push(String::from_str("image"));
                r.push(String::from_str("edit"));
                r.push(String::from_str("resize"));
                r.push(String::from_str("crop"));
                r.push(String::from_str("rotate"));
                r.push(String::from_str("filter"));
                r.push(String::from_str("画像"));
                r.push(String::from_str("編集"));
                r.push(String::from_str("リサイズ"));
            },
            Tab::CsvViewer => {
                r.push(String::from_str("csv"));
                r.push(String::from_str("tsv"));
                r.push(String::from_str("table"));
                r.push(String::from_str("spreadsheet"));
                r.push(String::from_str("テーブル"));
            },
            Tab::PdfTools => {
                r.push(String::from_str("pdf"));
                r.push(String::from_str("split"));
                r.push(String::from_str("merge"));
                r.push(String::from_str("分割"));
                r.push(String::from_str("結合"));
            },
            Tab::MarkdownToPdf => {
                r.push(String::from_str("markdown"));
                r.push(String::from_str("md"));
                r.push(String::from_str("pdf"));
                r.push(String::from_str("convert"));
                r.push(String::from_str("変換"));
            },
            Tab::KanbanBoard => {
                r.push(String::from_str("kanban"));
                r.push(String::from_str("task"));
                r.push(String::from_str("board"));
                r.push(String::from_str("タスク"));
                r.push(String::from_str("ボード"));
            },
            Tab::ScratchPad => {
                r.push(String::from_str("note"));
                r.push(String::from_str("memo"));
                r.push(String::from_str("scratch"));
                r.push(String::from_str("メモ"));
                r.push(String::from_str("ノート"));
            },
            Tab::UuidGenerator => {
                r.push(String::from_str("uuid"));
                r.push(String::from_str("guid"));
                r.push(String::from_str("generate"));
                r.push(String::from_str("v4"));
                r.push(String::from_str("v7"));
                r.push(String::from_str("生成"));
            },
            Tab::PasswordGenerator => {
                r.push(String::from_str("password"));
                r.push(String::from_str("passphrase"));
                r.push(String::from_str("generate"));
                r.push(String::from_str("security"));
                r.push(String::from_str("パスワード"));
                r.push(String::from_str("生成"));
            },
            Tab::UnitConverter => {
                r.push(String::from_str("unit"));
                r.push(String::from_str("convert"));
                r.push(String::from_str("length"));
                r.push(String::from_str("weight"));
                r.push(String::from_str("temperature"));
                r.push(String::from_str("単位"));
                r.push(String::from_str("変換"));
            },
            Tab::UnixTimeConverter => {
                r.push(String::from_str("unix"));
                r.push(String::from_str("time"));
                r.push(String::from_str("timestamp"));
                r.push(String::from_str("epoch"));
                r.push(String::from_str("datetime"));
                r.push(String::from_str("時間"));
            },
            Tab::TextDiff => {
                r.push(String::from_str("diff"));
                r.push(String::from_str("compare"));
                r.push(String::from_str("text"));
                r.push(String::from_str("差分"));
                r.push(String::from_str("比較"));
            },
            Tab::RegexTester => {
                r.push(String::from_str("regex"));
                r.push(String::from_str("regular"));
                r.push(String::from_str("expression"));
                r.push(String::from_str("pattern"));
                r.push(String::from_str("test"));
                r.push(String::from_str("正規表現"));
            },
            Tab::JsonFormatter => {
                r.push(String::from_str("json"));
                r.push(String::from_str("format"));
                r.push(String::from_str("validate"));
                r.push(String::from_str("tree"));
                r.push(String::from_str("整形"));
                r.push(String::from_str("フォーマット"));
            },
            Tab::Base64Encoder => {
                r.push(String::from_str("base64"));
                r.push(String::from_str("encode"));
                r.push(String::from_str("decode"));
                r.push(String::from_str("エンコード"));
                r.push(String::from_str("デコード"));
            },
            Tab::ShortcutDictionary => {
                r.push(String::from_str("shortcut"));
                r.push(String::from_str("keybinding"));
                r.push(String::from_str("keyboard"));
                r.push(String::from_str("hotkey"));
                r.push(String::from_str("vscode"));
                r.push(String::from_str("intellij"));
                r.push(String::from_str("vim"));
                r.push(String::from_str("terminal"));
                r.push(String::from_str("ショートカット"));
                r.push(String::from_str("キーバインド"));
            },
            Tab::CharCounter => {
                r.push(String::from_str("char"));
                r.push(String::from_str("character"));
                r.push(String::from_str("count"));
                r.push(String::from_str("counter"));
                r.push(String::from_str("byte"));
                r.push(String::from_str("word"));
                r.push(String::from_str("line"));
                r.push(String::from_str("文字数"));
                r.push(String::from_str("バイト数"));
                r.push(String::from_str("カウント"));
                r.push(String::from_str("カウンター"));
            },
        }
        assert(string_views(r@) =~= tab_keywords(*self));
        r
    }
}

/// A keyword list fit for the palette's search: at least five keywords,
/// none of them empty, none of them twice.
pub open spec fn keywords_well_formed(k: Seq<Seq<char>>) -> bool {
    &&& k.len() >= 5
    &&& forall|i: int| 0 <= i < k.len() ==> #[trigger] k[i].len() > 0
    &&& forall|i: int, j: int| 0 <= i < j < k.len() ==> k[i] != k[j]
}

/// Every tool can be found by at least five keywords, none of them empty and
/// none given twice.
pub proof fn law_keywords_listed(t: Tab)
    ensures
        keywords_well_formed(tab_keywords(t)),
{
    let k = tab_keywords(t);
    match t {
        Tab::ImageCompressor => {
            reveal_strlit("image");
            reveal_strlit("compress");
            reveal_strlit("png");
            reveal_strlit("jpeg");
            reveal_strlit("webp");
            reveal_strlit("avif");
            reveal_strlit("画像");
            reveal_strlit("圧縮");
            assert(k[0].len() != k[1].len());
            assert(k[0].len() != k[2].len());
            assert(k[0].len() != k[3].len());
            assert(k[0].len() != k[4].len());
            assert(k[0].len() != k[5].len());
            assert(k[0].len() != k[6].len());
            assert(k[0].len() != k[7].len());
            assert(k[1].len() != k[2].len());
            assert(k[1].len() != k[3].len());
            assert(k[1].len() != k[4].len());
            assert(k[1].len() != k[5].len());
            assert(k[1].len() != k[6].len());
            assert(k[1].len() != k[7].len());
            assert(k[2].len() != k[3].len());
            assert(k[2].len() != k[4].len());
            assert(k[2].len() != k[5].len());
            assert(k[2].len() != k[6].len());
            assert(k[2].len() != k[7].len());
            assert(k[3][0] != k[4][0]);
            assert(k[3][0] != k[5][0]);
            assert(k[3].len() != k[6].len());
            assert(k[3].len() != k[7].len());
            assert(k[4][0] != k[5][0]);
            assert(k[4].len() != k[6].len());
            assert(k[4].len() != k[7].len());
            assert(k[5].len() != k[6].len());
            assert(k[5].len() != k[7].len());
            assert(k[6][0] != k[7][0]);
            assert forall|i: int, j: int| 0 <= i < j < k.len() implies k[i] != k[j] by {
                assert(i == 0 || i == 1 || i == 2 || i == 3 || i == 4 || i == 5 || i == 6);
                assert(j == 1 || j == 2 || j == 3 || j == 4 || j == 5 || j == 6 || j == 7);
            }
        },
        Tab::ImageEditor => {
            reveal_strlit("image");
            reveal_strlit("edit");
            reveal_strlit("resize");
            reveal_strlit("crop");
            reveal_strlit("rotate");
            reveal_strlit("filter");
            reveal_strlit("画像");
            reveal_strlit("編集");
            reveal_strlit("リサイズ");
            assert(k[0].len() != k[1].len());
            assert(k[0].len() != k[2].len());
            assert(k[0].len() != k[3].len());
            assert(k[0].len() != k[4].len());
            assert(k[0].len() != k[5].len());
            assert(k[0].len() != k[6].len());
            assert(k[0].len() != k[7].len());
            assert(k[0].len() != k[8].len());
            assert(k[1].len() != k[2].len());
            assert(k[1][0] != k[3][0]);
            assert(k[1].len() != k[4].len());
            assert(k[1].len() != k[5].len());
            assert(k[1].len() != k[6].len());
            assert(k[1].len() != k[7].len());
            assert(k[1][0] != k[8][0]);
            assert(k[2].len() != k[3].len());
            assert(k[2][1] != k[4][1]);
            assert(k[2][0] != k[5][0]);
            assert(k[2].len() != k[6].len());
            assert(k[2].len() != k[7].len());
            assert(k[2].len() != k[8].len());
            assert(k[3].len() != k[4].len());
            assert(k[3].len() != k[5].len());
            assert(k[3].len() != k[6].len());
            assert(k[3].len() != k[7].len());
            assert(k[3][0] != k[8][0]);
            assert(k[4][0] != k[5][0]);
            assert(k[4].len() != k[6].len());
            assert(k[4].len() != k[7].len());
            assert(k[4].len() != k[8].len());
            assert(k[5].len() != k[6].len());
            assert(k[5].len() != k[7].len());
            assert(k[5].len() != k[8].len());
            assert(k[6][0] != k[7][0]);
            assert(k[6].len() != k[8].len());
            assert(k[7].len() != k[8].len());
            assert forall|i: int, j: int| 0 <= i < j < k.len() implies k[i] != k[j] by {
                assert(i == 0 || i == 1 || i == 2 || i == 3 || i == 4 || i == 5 || i == 6 || i == 7);
                assert(j == 1 || j == 2 || j == 3 || j == 4 || j == 5 || j == 6 || j == 7 || j == 8);
            }
        },
        Tab::CsvViewer => {
            reveal_strlit("csv");
            reveal_strlit("tsv");
            reveal_strlit("table");
            reveal_strlit("spreadsheet");
            reveal_strlit("テーブル");
            assert(k[0][0] != k[1][0]);
            assert(k[0].len() != k[2].len());
            assert(k[0].len() != k[3].len());
            assert(k[0].len() != k[4].len());
            assert(k[1].len() != k[2].len());
            assert(k[1].len() != k[3].len());
            assert(k[1].len() != k[4].len());
            assert(k[2].len() != k[3].len());
            assert(k[2].len() != k[4].len());
            assert(k[3].len() != k[4].len());
            assert forall|i: int, j: int| 0 <= i < j < k.len() implies k[i] != k[j] by {
                assert(i == 0 || i == 1 || i == 2 || i == 3);
                assert(j == 1 || j == 2 || j == 3 || j == 4);
            }
        },
        Tab::PdfTools => {
            reveal_strlit("pdf");
            reveal_strlit("split");
            reveal_strlit("merge");
            reveal_strlit("分割");
            reveal_strlit("結合");
            assert(k[0].len() != k[1].len());
            assert(k[0].len() != k[2].len());
            assert(k[0].len() != k[3].len());
            assert(k[0].len() != k[4].len());
            assert(k[1][0] != k[2][0]);
            assert(k[1].len() != k[3].len());
            assert(k[1].len() != k[4].len());
            assert(k[2].len() != k[3].len());
            assert(k[2].len() != k[4].len());
            assert(k[3][0] != k[4][0]);
            assert forall|i: int, j: int| 0 <= i < j < k.len() implies k[i] != k[j] by {
                assert(i == 0 || i == 1 || i == 2 || i == 3);
                assert(j == 1 || j == 2 || j == 3 || j == 4);
            }
        },
        Tab::MarkdownToPdf => {
            reveal_strlit("markdown");
            reveal_strlit("md");
            reveal_strlit("pdf");
            reveal_strlit("convert");
            reveal_strlit("変換");
            assert(k[0].len() != k[1].len());
            assert(k[0].len() != k[2].len());
            assert(k[0].len() != k[3].len());
            assert(k[0].len() != k[4].len());
            assert(k[1].len() != k[2].len());
            assert(k[1].len() != k[3].len());
            assert(k[1][0] != k[4][0]);
            assert(k[2].len() != k[3].len());
            assert(k[2].len() != k[4].len());
            assert(k[3].len() != k[4].len());
            assert forall|i: int, j: int| 0 <= i < j < k.len() implies k[i] != k[j] by {
                assert(i == 0 || i == 1 || i == 2 || i == 3);
                assert(j == 1 || j == 2 || j == 3 || j == 4);
            }
        },
        Tab::KanbanBoard => {
            reveal_strlit("kanban");
            reveal_strlit("task");
            reveal_strlit("board");
            reveal_strlit("タスク");
            reveal_strlit("ボード");
            assert(k[0].len() != k[1].len());
            assert(k[0].len() != k[2].len());
            assert(k[0].len() != k[3].len());
            assert(k[0].len() != k[4].len());
            assert(k[1].len() != k[2].len());
            assert(k[1].len() != k[3].len());
            assert(k[1].len() != k[4].len());
            assert(k[2].len() != k[3].len());
            assert(k[2].len() != k[4].len());
            assert(k[3][0] != k[4][0]);
            assert forall|i: int, j: int| 0 <= i < j < k.len() implies k[i] != k[j] by {
                assert(i == 0 || i == 1 || i == 2 || i == 3);
                assert(j == 1 || j == 2 || j == 3 || j == 4);
            }
        },
        Tab::ScratchPad => {
            reveal_strlit("note");
            reveal_strlit("memo");
            reveal_strlit("scratch");
            reveal_strlit("メモ");
            reveal_strlit("ノート");
            assert(k[0][0] != k[1][0]);
            assert(k[0].len() != k[2].len());
            assert(k[0].len() != k[3].len());
            assert(k[0].len() != k[4].len());
            assert(k[1].len() != k[2].len());
            assert(k[1].len() != k[3].len());
            assert(k[1].len() != k[4].len());
            assert(k[2].len() != k[3].len());
            assert(k[2].len() != k[4].len());
            assert(k[3].len() != k[4].len());
            assert forall|i: int, j: int| 0 <= i < j < k.len() implies k[i] != k[j] by {
                assert(i == 0 || i == 1 || i == 2 || i == 3);
                assert(j == 1 || j == 2 || j == 3 || j == 4);
            }
        },
        Tab::UuidGenerator => {
            reveal_strlit("uuid");
            reveal_strlit("guid");
            reveal_strlit("generate");
            reveal_strlit("v4");
            reveal_strlit("v7");
            reveal_strlit("生成");
            assert(k[0][0] != k[1][0]);
            assert(k[0].len() != k[2].len());
            assert(k[0].len() != k[3].len());
            assert(k[0].len() != k[4].len());
            assert(k[0].len() != k[5].len());
            assert(k[1].len() != k[2].len());
            assert(k[1].len() != k[3].len());
            assert(k[1].len() != k[4].len());
            assert(k[1].len() != k[5].len());
            assert(k[2].len() != k[3].len());
            assert(k[2].len() != k[4].len());
            assert(k[2].len() != k[5].len());
            assert(k[3][1] != k[4][1]);
            assert(k[3][0] != k[5][0]);
            assert(k[4][0] != k[5][0]);
            assert forall|i: int, j: int| 0 <= i < j < k.len() implies k[i] != k[j] by {
                assert(i == 0 || i == 1 || i == 2 || i == 3 || i == 4);
                assert(j == 1 || j == 2 || j == 3 || j == 4 || j == 5);
            }
        },
        Tab::PasswordGenerator => {
            reveal_strlit("password");
            reveal_strlit("passphrase");
            reveal_strlit("generate");
            reveal_strlit("security");
            reveal_strlit("パスワード");
            reveal_strlit("生成");
            assert(k[0].len() != k[1].len());
            assert(k[0][0] != k[2][0]);
            assert(k[0][0] != k[3][0]);
            assert(k[0].len() != k[4].len());
            assert(k[0].len() != k[5].len());
            assert(k[1].len() != k[2].len());
            assert(k[1].len() != k[3].len());
            assert(k[1].len() != k[4].len());
            assert(k[1].len() != k[5].len());
            assert(k[2][0] != k[3][0]);
            assert(k[2].len() != k[4].len());
            assert(k[2].len() != k[5].len());
            assert(k[3].len() != k[4].len());
            assert(k[3].len() != k[5].len());
            assert(k[4].len() != k[5].len());
            assert forall|i: int, j: int| 0 <= i < j < k.len() implies k[i] != k[j] by {
                assert(i == 0 || i == 1 || i == 2 || i == 3 || i == 4);
                assert(j == 1 || j == 2 || j == 3 || j == 4 || j == 5);
            }
        },
        Tab::UnitConverter => {
            reveal_strlit("unit");
            reveal_strlit("convert");
            reveal_strlit("length");
            reveal_strlit("weight");
            reveal_strlit("temperature");
            reveal_strlit("単位");
            reveal_strlit("変換");
            assert(k[0].len() != k[1].len());
            assert(k[0].len() != k[2].len());
            assert(k[0].len() != k[3].len());
            assert(k[0].len() != k[4].len());
            assert(k[0].len() != k[5].len());
            assert(k[0].len() != k[6].len());
            assert(k[1].len() != k[2].len());
            assert(k[1].len() != k[3].len());
            assert(k[1].len() != k[4].len());
            assert(k[1].len() != k[5].len());
            assert(k[1].len() != k[6].len());
            assert(k[2][0] != k[3][0]);
            assert(k[2].len() != k[4].len());
            assert(k[2].len() != k[5].len());
            assert(k[2].len() != k[6].len());
            assert(k[3].len() != k[4].len());
            assert(k[3].len() != k[5].len());
            assert(k[3].len() != k[6].len());
            assert(k[4].len() != k[5].len());
            assert(k[4].len() != k[6].len());
            assert(k[5][0] != k[6][0]);
            assert forall|i: int, j: int| 0 <= i < j < k.len() implies k[i] != k[j] by {
                assert(i == 0 || i == 1 || i == 2 || i == 3 || i == 4 || i == 5);
                assert(j == 1 || j == 2 || j == 3 || j == 4 || j == 5 || j == 6);
            }
        },
        Tab::UnixTimeConverter => {
            reveal_strlit("unix");
            reveal_strlit("time");
            reveal_strlit("timestamp");
            reveal_strlit("epoch");
            reveal_strlit("datetime");
            reveal_strlit("時間");
            assert(k[0][0] != k[1][0]);
            assert(k[0].len() != k[2].len());
            assert(k[0].len() != k[3].len());
            assert(k[0].len() != k[4].len());
            assert(k[0].len() != k[5].len());
            assert(k[1].len() != k[2].len());
            assert(k[1].len() != k[3].len());
            assert(k[1].len() != k[4].len());
            assert(k[1].len() != k[5].len());
            assert(k[2].len() != k[3].len());
            assert(k[2].len() != k[4].len());
            assert(k[2].len() != k[5].len());
            assert(k[3].len() != k[4].len());
            assert(k[3].len() != k[5].len());
            assert(k[4].len() != k[5].len());
            assert forall|i: int, j: int| 0 <= i < j < k.len() implies k[i] != k[j] by {
                assert(i == 0 || i == 1 || i == 2 || i == 3 || i == 4);
                assert(j == 1 || j == 2 || j == 3 || j == 4 || j == 5);
            }
        },
        Tab::TextDiff => {
            reveal_strlit("diff");
            reveal_strlit("compare");
            reveal_strlit("text");
            reveal_strlit("差分");
            reveal_strlit("比較");
            assert(k[0].len() != k[1].len());
            assert(k[0][0] != k[2][0]);
            assert(k[0].len() != k[3].len());
            assert(k[0].len() != k[4].len());
            assert(k[1].len() != k[2].len());
            assert(k[1].len() != k[3].len());
            assert(k[1].len() != k[4].len());
            assert(k[2].len() != k[3].len());
            assert(k[2].len() != k[4].len());
            assert(k[3][0] != k[4][0]);
            assert forall|i: int, j: int| 0 <= i < j < k.len() implies k[i] != k[j] by {
                assert(i == 0 || i == 1 || i == 2 || i == 3);
                assert(j == 1 || j == 2 || j == 3 || j == 4);
            }
        },
        Tab::RegexTester => {
            reveal_strlit("regex");
            reveal_strlit("regular");
            reveal_strlit("expression");
            reveal_strlit("pattern");
            reveal_strlit("test");
            reveal_strlit("正規表現");
            assert(k[0].len() != k[1].len());
            assert(k[0].len() != k[2].len());
            assert(k[0].len() != k[3].len());
            assert(k[0].len() != k[4].len());
            assert(k[0].len() != k[5].len());
            assert(k[1].len() != k[2].len());
            assert(k[1][0] != k[3][0]);
            assert(k[1].len() != k[4].len());
            assert(k[1].len() != k[5].len());
            assert(k[2].len() != k[3].len());
            assert(k[2].len() != k[4].len());
            assert(k[2].len() != k[5].len());
            assert(k[3].len() != k[4].len());
            assert(k[3].len() != k[5].len());
            assert(k[4][0] != k[5][0]);
            assert forall|i: int, j: int| 0 <= i < j < k.len() implies k[i] != k[j] by {
                assert(i == 0 || i == 1 || i == 2 || i == 3 || i == 4);
                assert(j == 1 || j == 2 || j == 3 || j == 4 || j == 5);
            }
        },
        Tab::JsonFormatter => {
            reveal_strlit("json");
            reveal_strlit("format");
            reveal_strlit("validate");
            reveal_strlit("tree");
            reveal_strlit("整形");
            reveal_strlit("フォーマット");
            assert(k[0].len() != k[1].len());
            assert(k[0].len() != k[2].len());
            assert(k[0][0] != k[3][0]);
            assert(k[0].len() != k[4].len());
            assert(k[0].len() != k[5].len());
            assert(k[1].len() != k[2].len());
            assert(k[1].len() != k[3].len());
            assert(k[1].len() != k[4].len());
            assert(k[1][0] != k[5][0]);
            assert(k[2].len() != k[3].len());
            assert(k[2].len() != k[4].len());
            assert(k[2].len() != k[5].len());
            assert(k[3].len() != k[4].len());
            assert(k[3].len() != k[5].len());
            assert(k[4].len() != k[5].len());
            assert forall|i: int, j: int| 0 <= i < j < k.len() implies k[i] != k[j] by {
                assert(i == 0 || i == 1 || i == 2 || i == 3 || i == 4);
                assert(j == 1 || j == 2 || j == 3 || j == 4 || j == 5);
            }
        },
        Tab::Base64Encoder => {
            reveal_strlit("base64");
            reveal_strlit("encode");
            reveal_strlit("decode");
            reveal_strlit("エンコード");
            reveal_strlit("デコード");
            assert(k[0][0] != k[1][0]);
            assert(k[0][0] != k[2][0]);
            assert(k[0].len() != k[3].len());
            assert(k[0].len() != k[4].len());
            assert(k[1][0] != k[2][0]);
            assert(k[1].len() != k[3].len());
            assert(k[1].len() != k[4].len());
            assert(k[2].len() != k[3].len());
            assert(k[2].len() != k[4].len());
            assert(k[3].len() != k[4].len());
            assert forall|i: int, j: int| 0 <= i < j < k.len() implies k[i] != k[j] by {
                assert(i == 0 || i == 1 || i == 2 || i == 3);
                assert(j == 1 || j == 2 || j == 3 || j == 4);
            }
        },
        Tab::ShortcutDictionary => {
            reveal_strlit("shortcut");
            reveal_strlit("keybinding");
            reveal_strlit("keyboard");
            reveal_strlit("hotkey");
            reveal_strlit("vscode");
            reveal_strlit("intellij");
            reveal_strlit("vim");
            reveal_strlit("terminal");
            reveal_strlit("ショートカット");
            reveal_strlit("キーバインド");
            assert(k[0].len() != k[1].len());
            assert(k[0][0] != k[2][0]);
            assert(k[0].len() != k[3].len());
            assert(k[0].len() != k[4].len());
            assert(k[0][0] != k[5][0]);
            assert(k[0].len() != k[6].len());
            assert(k[0][0] != k[7][0]);
            assert(k[0].len() != k[8].len());
            assert(k[0].len() != k[9].len());
            assert(k[1].len() != k[2].len());
            assert(k[1].len() != k[3].len());
            assert(k[1].len() != k[4].len());
            assert(k[1].len() != k[5].len());
            assert(k[1].len() != k[6].len());
            assert(k[1].len() != k[7].len());
            assert(k[1].len() != k[8].len());
            assert(k[1].len() != k[9].len());
            assert(k[2].len() != k[3].len());
            assert(k[2].len() != k[4].len());
            assert(k[2][0] != k[5][0]);
            assert(k[2].len() != k[6].len());
            assert(k[2][0] != k[7][0]);
            assert(k[2].len() != k[8].len());
            assert(k[2].len() != k[9].len());
            assert(k[3][0] != k[4][0]);
            assert(k[3].len() != k[5].len());
            assert(k[3].len() != k[6].len());
            assert(k[3].len() != k[7].len());
            assert(k[3].len() != k[8].len());
            assert(k[3][0] != k[9][0]);
            assert(k[4].len() != k[5].len());
            assert(k[4].len() != k[6].len());
            assert(k[4].len() != k[7].len());
            assert(k[4].len() != k[8].len());
            assert(k[4][0] != k[9][0]);
            assert(k[5].len() != k[6].len());
            assert(k[5][0] != k[7][0]);
            assert(k[5].len() != k[8].len());
            assert(k[5].len() != k[9].len());
            assert(k[6].len() != k[7].len());
            assert(k[6].len() != k[8].len());
            assert(k[6].len() != k[9].len());
            assert(k[7].len() != k[8].len());
            assert(k[7].len() != k[9].len());
            assert(k[8].len() != k[9].len());
            assert forall|i: int, j: int| 0 <= i < j < k.len() implies k[i] != k[j] by {
                assert(i == 0 || i == 1 || i == 2 || i == 3 || i == 4 || i == 5 || i == 6 || i == 7 || i == 8);
                assert(j == 1 || j == 2 || j == 3 || j == 4 || j == 5 || j == 6 || j == 7 || j == 8 || j == 9);
            }
        },
        Tab::CharCounter => {
            reveal_strlit("char");
            reveal_strlit("character");
            reveal_strlit("count");
            reveal_strlit("counter");
            reveal_strlit("byte");
            reveal_strlit("word");
            reveal_strlit("line");
            reveal_strlit("文字数");
            reveal_strlit("バイト数");
            reveal_strlit("カウント");
            reveal_strlit("カウンター");
            assert(k[0].len() != k[1].len());
            assert(k[0].len() != k[2].len());
            assert(k[0].len() != k[3].len());
            assert(k[0][0] != k[4][0]);
            assert(k[0][0] != k[5][0]);
            assert(k[0][0] != k[6][0]);
            assert(k[0].len() != k[7].len());
            assert(k[0][0] != k[8][0]);
            assert(k[0][0] != k[9][0]);
            assert(k[0].len() != k[10].len());
            assert(k[1].len() != k[2].len());
            assert(k[1].len() != k[3].len());
            assert(k[1].len() != k[4].len());
            assert(k[1].len() != k[5].len());
            assert(k[1].len() != k[6].len());
            assert(k[1].len() != k[7].len());
            assert(k[1].len() != k[8].len());
            assert(k[1].len() != k[9].len());
            assert(k[1].len() != k[10].len());
            assert(k[2].len() != k[3].len());
            assert(k[2].len() != k[4].len());
            assert(k[2].len() != k[5].len());
            assert(k[2].len() != k[6].len());
            assert(k[2].len() != k[7].len());
            assert(k[2].len() != k[8].len());
            assert(k[2].len() != k[9].len());
            assert(k[2][0] != k[10][0]);
            assert(k[3].len() != k[4].len());
            assert(k[3].len() != k[5].len());
            assert(k[3].len() != k[6].len());
            assert(k[3].len() != k[7].len());
            assert(k[3].len() != k[8].len());
            assert(k[3].len() != k[9].len());
            assert(k[3].len() != k[10].len());
            assert(k[4][0] != k[5][0]);
            assert(k[4][0] != k[6][0]);
            assert(k[4].len() != k[7].len());
            assert(k[4][0] != k[8][0]);
            assert(k[4][0] != k[9][0]);
            assert(k[4].len() != k[10].len());
            assert(k[5][0] != k[6][0]);
            assert(k[5].len() != k[7].len());
            assert(k[5][0] != k[8][0]);
            assert(k[5][0] != k[9][0]);
            assert(k[5].len() != k[10].len());
            assert(k[6].len() != k[7].len());
            assert(k[6][0] != k[8][0]);
            assert(k[6][0] != k[9][0]);
            assert(k[6].len() != k[10].len());
            assert(k[7].len() != k[8].len());
            assert(k[7].len() != k[9].len());
            assert(k[7].len() != k[10].len());
            assert(k[8][0] != k[9][0]);
            assert(k[8].len() != k[10].len());
            assert(k[9].len() != k[10].len());
            assert forall|i: int, j: int| 0 <= i < j < k.len() implies k[i] != k[j] by {
                assert(i == 0 || i == 1 || i == 2 || i == 3 || i == 4 || i == 5 || i == 6 || i == 7 || i == 8 || i == 9);
                assert(j == 1 || j == 2 || j == 3 || j == 4 || j == 5 || j == 6 || j == 7 || j == 8 || j == 9 || j == 10);
            }
        },
    }
}

/// Different tools have different ids.
pub proof fn law_tab_ids_distinct(a: Tab, b: Tab)
    requires
        a != b,
    ensures
        tab_id(a) != tab_id(b),
{
    reveal_strlit("image_compressor");
    reveal_strlit("image_editor");
    reveal_strlit("csv_viewer");
    reveal_strlit("pdf_tools");
    reveal_strlit("markdown_to_pdf");
    reveal_strlit("kanban_board");
    reveal_strlit("scratch_pad");
    reveal_strlit("uuid_generator");
    reveal_strlit("password_generator");
    reveal_strlit("unit_converter");
    reveal_strlit("unix_time_converter");
    reveal_strlit("text_diff");
    reveal_strlit("regex_tester");
    reveal_strlit("json_formatter");
    reveal_strlit("base64_encoder");
    reveal_strlit("shortcut_dictionary");
    reveal_strlit("char_counter");
    if tab_id(a) == tab_id(b) {
        match a {
            Tab::ImageCompressor => {
                assert(tab_id(a).len() == tab_id(b).len());
                match b {
                    Tab::ImageCompressor => {},
                    Tab::ImageEditor => {},
                    Tab::CsvViewer => {},
                    Tab::PdfTools => {},
                    Tab::MarkdownToPdf => {},
                    Tab::KanbanBoard => {},
                    Tab::ScratchPad => {},
                    Tab::UuidGenerator => {},
                    Tab::PasswordGenerator => {},
                    Tab::UnitConverter => {},
                    Tab::UnixTimeConverter => {},
                    Tab::TextDiff => {},
                    Tab::RegexTester => {},
                    Tab::JsonFormatter => {},
                    Tab::Base64Encoder => {},
                    Tab::ShortcutDictionary => {},
                    Tab::CharCounter => {},
                }
            },
            Tab::ImageEditor => {
                assert(tab_id(a).len() == tab_id(b).len());
                match b {
                    Tab::ImageCompressor => {},
                    Tab::ImageEditor => {},
                    Tab::CsvViewer => {},
                    Tab::PdfTools => {},
                    Tab::MarkdownToPdf => {},
                    Tab::KanbanBoard => {
                        assert(tab_id(a)[0] != tab_id(b)[0]);
                    },
                    Tab::ScratchPad => {},
                    Tab::UuidGenerator => {},
                    Tab::PasswordGenerator => {},
                    Tab::UnitConverter => {},
                    Tab::UnixTimeConverter => {},
                    Tab::TextDiff => {},
                    Tab::RegexTester => {
                        assert(tab_id(a)[0] != tab_id(b)[0]);
                    },
                    Tab::JsonFormatter => {},
                    Tab::Base64Encoder => {},
                    Tab::ShortcutDictionary => {},
                    Tab::CharCounter => {
                        assert(tab_id(a)[0] != tab_id(b)[0]);
                    },
                }
            },
            Tab::CsvViewer => {
                assert(tab_id(a).len() == tab_id(b).len());
                match b {
                    Tab::ImageCompressor => {},
                    Tab::ImageEditor => {},
                    Tab::CsvViewer => {},
                    Tab::PdfTools => {},
                    Tab::MarkdownToPdf => {},
                    Tab::KanbanBoard => {},
                    Tab::ScratchPad => {},
                    Tab::UuidGenerator => {},
                    Tab::PasswordGenerator => {},
                    Tab::UnitConverter => {},
                    Tab::UnixTimeConverter => {},
                    Tab::TextDiff => {},
                    Tab::RegexTester => {},
                    Tab::JsonFormatter => {},
                    Tab::Base64Encoder => {},
                    Tab::ShortcutDictionary => {},
                    Tab::CharCounter => {},
                }
            },
            Tab::PdfTools => {
                assert(tab_id(a).len() == tab_id(b).len());
                match b {
                    Tab::ImageCompressor => {},
                    Tab::ImageEditor => {},
                    Tab::CsvViewer => {},
                    Tab::PdfTools => {},
                    Tab::MarkdownToPdf => {},
                    Tab::KanbanBoard => {},
                    Tab::ScratchPad => {},
                    Tab::UuidGenerator => {},
                    Tab::PasswordGenerator => {},
                    Tab::UnitConverter => {},
                    Tab::UnixTimeConverter => {},
                    Tab::TextDiff => {
                        assert(tab_id(a)[0] != tab_id(b)[0]);
                    },
                    Tab::RegexTester => {},
                    Tab::JsonFormatter => {},
                    Tab::Base64Encoder => {},
                    Tab::ShortcutDictionary => {},
                    Tab::CharCounter => {},
                }
            },
            Tab::MarkdownToPdf => {
                assert(tab_id(a).len() == tab_id(b).len());
                match b {
                    Tab::ImageCompressor => {},
                    Tab::ImageEditor => {},
                    Tab::CsvViewer => {},
                    Tab::PdfTools => {},
                    Tab::MarkdownToPdf => {},
                    Tab::KanbanBoard => {},
                    Tab::ScratchPad => {},
                    Tab::UuidGenerator => {},
                    Tab::PasswordGenerator => {},
                    Tab::UnitConverter => {},
                    Tab::UnixTimeConverter => {},
                    Tab::TextDiff => {},
                    Tab::RegexTester => {},
                    Tab::JsonFormatter => {},
                    Tab::Base64Encoder => {},
                    Tab::ShortcutDictionary => {},
                    Tab::CharCounter => {},
                }
            },
            Tab::KanbanBoard => {
                assert(tab_id(a).len() == tab_id(b).len());
                match b {
                    Tab::ImageCompressor => {},
                    Tab::ImageEditor => {
                        assert(tab_id(a)[0] != tab_id(b)[0]);
                    },
                    Tab::CsvViewer => {},
                    Tab::PdfTools => {},
                    Tab::MarkdownToPdf => {},
                    Tab::KanbanBoard => {},
                    Tab::ScratchPad => {},
                    Tab::UuidGenerator => {},
                    Tab::PasswordGenerator => {},
                    Tab::UnitConverter => {},
                    Tab::UnixTimeConverter => {},
                    Tab::TextDiff => {},
                    Tab::RegexTester => {
                        assert(tab_id(a)[0] != tab_id(b)[0]);
                    },
                    Tab::JsonFormatter => {},
                    Tab::Base64Encoder => {},
                    Tab::ShortcutDictionary => {},
                    Tab::CharCounter => {
                        assert(tab_id(a)[0] != tab_id(b)[0]);
                    },
                }
            },
            Tab::ScratchPad => {
                assert(tab_id(a).len() == tab_id(b).len());
                match b {
                    Tab::ImageCompressor => {},
                    Tab::ImageEditor => {},
                    Tab::CsvViewer => {},
                    Tab::PdfTools => {},
                    Tab::MarkdownToPdf => {},
                    Tab::KanbanBoard => {},
                    Tab::ScratchPad => {},
                    Tab::UuidGenerator => {},
                    Tab::PasswordGenerator => {},
                    Tab::UnitConverter => {},
                    Tab::UnixTimeConverter => {},
                    Tab::TextDiff => {},
                    Tab::RegexTester => {},
                    Tab::JsonFormatter => {},
                    Tab::Base64Encoder => {},
                    Tab::ShortcutDictionary => {},
                    Tab::CharCounter => {},
                }
            },
            Tab::UuidGenerator => {
                assert(tab_id(a).len() == tab_id(b).len());
                match b {
                    Tab::ImageCompressor => {},
                    Tab::ImageEditor => {},
                    Tab::CsvViewer => {},
                    Tab::PdfTools => {},
                    Tab::MarkdownToPdf => {},
                    Tab::KanbanBoard => {},
                    Tab::ScratchPad => {},
                    Tab::UuidGenerator => {},
                    Tab::PasswordGenerator => {},
                    Tab::UnitConverter => {
                        assert(tab_id(a)[1] != tab_id(b)[1]);
                    },
                    Tab::UnixTimeConverter => {},
                    Tab::TextDiff => {},
                    Tab::RegexTester => {},
                    Tab::JsonFormatter => {
                        assert(tab_id(a)[0] != tab_id(b)[0]);
                    },
                    Tab::Base64Encoder => {
                        assert(tab_id(a)[0] != tab_id(b)[0]);
                    },
                    Tab::ShortcutDictionary => {},
                    Tab::CharCounter => {},
                }
            },
            Tab::PasswordGenerator => {
                assert(tab_id(a).len() == tab_id(b).len());
                match b {
                    Tab::ImageCompressor => {},
                    Tab::ImageEditor => {},
                    Tab::CsvViewer => {},
                    Tab::PdfTools => {},
                    Tab::MarkdownToPdf => {},
                    Tab::KanbanBoard => {},
                    Tab::ScratchPad => {},
                    Tab::UuidGenerator => {},
                    Tab::PasswordGenerator => {},
                    Tab::UnitConverter => {},
                    Tab::UnixTimeConverter => {},
                    Tab::TextDiff => {},
                    Tab::RegexTester => {},
                    Tab::JsonFormatter => {},
                    Tab::Base64Encoder => {},
                    Tab::ShortcutDictionary => {},
                    Tab::CharCounter => {},
                }
            },
            Tab::UnitConverter => {
                assert(tab_id(a).len() == tab_id(b).len());
                match b {
                    Tab::ImageCompressor => {},
                    Tab::ImageEditor => {},
                    Tab::CsvViewer => {},
                    Tab::PdfTools => {},
                    Tab::MarkdownToPdf => {},
                    Tab::KanbanBoard => {},
                    Tab::ScratchPad => {},
                    Tab::UuidGenerator => {
                        assert(tab_id(a)[1] != tab_id(b)[1]);
                    },
                    Tab::PasswordGenerator => {},
                    Tab::UnitConverter => {},
                    Tab::UnixTimeConverter => {},
                    Tab::TextDiff => {},
                    Tab::RegexTester => {},
                    Tab::JsonFormatter => {
                        assert(tab_id(a)[0] != tab_id(b)[0]);
                    },
                    Tab::Base64Encoder => {
                        assert(tab_id(a)[0] != tab_id(b)[0]);
                    },
                    Tab::ShortcutDictionary => {},
                    Tab::CharCounter => {},
                }
            },
            Tab::UnixTimeConverter => {
                assert(tab_id(a).len() == tab_id(b).len());
                match b {
                    Tab::ImageCompressor => {},
                    Tab::ImageEditor => {},
                    Tab::CsvViewer => {},
                    Tab::PdfTools => {},
                    Tab::MarkdownToPdf => {},
                    Tab::KanbanBoard => {},
                    Tab::ScratchPad => {},
                    Tab::UuidGenerator => {},
                    Tab::PasswordGenerator => {},
                    Tab::UnitConverter => {},
                    Tab::UnixTimeConverter => {},
                    Tab::TextDiff => {},
                    Tab::RegexTester => {},
                    Tab::JsonFormatter => {},
                    Tab::Base64Encoder => {},
                    Tab::ShortcutDictionary => {
                        assert(tab_id(a)[0] != tab_id(b)[0]);
                    },
                    Tab::CharCounter => {},
                }
            },
            Tab::TextDiff => {
                assert(tab_id(a).len() == tab_id(b).len());
                match b {
                    Tab::ImageCompressor => {},
                    Tab::ImageEditor => {},
                    Tab::CsvViewer => {},
                    Tab::PdfTools => {
                        assert(tab_id(a)[0] != tab_id(b)[0]);
                    },
                    Tab::MarkdownToPdf => {},
                    Tab::KanbanBoard => {},
                    Tab::ScratchPad => {},
                    Tab::UuidGenerator => {},
                    Tab::PasswordGenerator => {},
                    Tab::UnitConverter => {},
                    Tab::UnixTimeConverter => {},
                    Tab::TextDiff => {},
                    Tab::RegexTester => {},
                    Tab::JsonFormatter => {},
                    Tab::Base64Encoder => {},
                    Tab::ShortcutDictionary => {},
                    Tab::CharCounter => {},
                }
            },
            Tab::RegexTester => {
                assert(tab_id(a).len() == tab_id(b).len());
                match b {
                    Tab::ImageCompressor => {},
                    Tab::ImageEditor => {
                        assert(tab_id(a)[0] != tab_id(b)[0]);
                    },
                    Tab::CsvViewer => {},
                    Tab::PdfTools => {},
                    Tab::MarkdownToPdf => {},
                    Tab::KanbanBoard => {
                        assert(tab_id(a)[0] != tab_id(b)[0]);
                    },
                    Tab::ScratchPad => {},
                    Tab::UuidGenerator => {},
                    Tab::PasswordGenerator => {},
                    Tab::UnitConverter => {},
                    Tab::UnixTimeConverter => {},
                    Tab::TextDiff => {},
                    Tab::RegexTester => {},
                    Tab::JsonFormatter => {},
                    Tab::Base64Encoder => {},
                    Tab::ShortcutDictionary => {},
                    Tab::CharCounter => {
                        assert(tab_id(a)[0] != tab_id(b)[0]);
                    },
                }
            },
            Tab::JsonFormatter => {
                assert(tab_id(a).len() == tab_id(b).len());
                match b {
                    Tab::ImageCompressor => {},
                    Tab::ImageEditor => {},
                    Tab::CsvViewer => {},
                    Tab::PdfTools => {},
                    Tab::MarkdownToPdf => {},
                    Tab::KanbanBoard => {},
                    Tab::ScratchPad => {},
                    Tab::UuidGenerator => {
                        assert(tab_id(a)[0] != tab_id(b)[0]);
                    },
                    Tab::PasswordGenerator => {},
                    Tab::UnitConverter => {
                        assert(tab_id(a)[0] != tab_id(b)[0]);
                    },
                    Tab::UnixTimeConverter => {},
                    Tab::TextDiff => {},
                    Tab::RegexTester => {},
                    Tab::JsonFormatter => {},
                    Tab::Base64Encoder => {
                        assert(tab_id(a)[0] != tab_id(b)[0]);
                    },
                    Tab::ShortcutDictionary => {},
                    Tab::CharCounter => {},
                }
            },
            Tab::Base64Encoder => {
                assert(tab_id(a).len() == tab_id(b).len());
                match b {
                    Tab::ImageCompressor => {},
                    Tab::ImageEditor => {},
                    Tab::CsvViewer => {},
                    Tab::PdfTools => {},
                    Tab::MarkdownToPdf => {},
                    Tab::KanbanBoard => {},
                    Tab::ScratchPad => {},
                    Tab::UuidGenerator => {
                        assert(tab_id(a)[0] != tab_id(b)[0]);
                    },
                    Tab::PasswordGenerator => {},
                    Tab::UnitConverter => {
                        assert(tab_id(a)[0] != tab_id(b)[0]);
                    },
                    Tab::UnixTimeConverter => {},
                    Tab::TextDiff => {},
                    Tab::RegexTester => {},
                    Tab::JsonFormatter => {
                        assert(tab_id(a)[0] != tab_id(b)[0]);
                    },
                    Tab::Base64Encoder => {},
                    Tab::ShortcutDictionary => {},
                    Tab::CharCounter => {},
                }
            },
            Tab::ShortcutDictionary => {
                assert(tab_id(a).len() == tab_id(b).len());
                match b {
                    Tab::ImageCompressor => {},
                    Tab::ImageEditor => {},
                    Tab::CsvViewer => {},
                    Tab::PdfTools => {},
                    Tab::MarkdownToPdf => {},
                    Tab::KanbanBoard => {},
                    Tab::ScratchPad => {},
                    Tab::UuidGenerator => {},
                    Tab::PasswordGenerator => {},
                    Tab::UnitConverter => {},
                    Tab::UnixTimeConverter => {
                        assert(tab_id(a)[0] != tab_id(b)[0]);
                    },
                    Tab::TextDiff => {},
                    Tab::RegexTester => {},
                    Tab::JsonFormatter => {},
                    Tab::Base64Encoder => {},
                    Tab::ShortcutDictionary => {},
                    Tab::CharCounter => {},
                }
            },
            Tab::CharCounter => {
                assert(tab_id(a).len() == tab_id(b).len());
                match b {
                    Tab::ImageCompressor => {},
                    Tab::ImageEditor => {
                        assert(tab_id(a)[0] != tab_id(b)[0]);
                    },
                    Tab::CsvViewer => {},
                    Tab::PdfTools => {},
                    Tab::MarkdownToPdf => {},
                    Tab::KanbanBoard => {
                        assert(tab_id(a)[0] != tab_id(b)[0]);
                    },
                    Tab::ScratchPad => {},
                    Tab::UuidGenerator => {},
                    Tab::PasswordGenerator => {},
                    Tab::UnitConverter => {},
                    Tab::UnixTimeConverter => {},
                    Tab::TextDiff => {},
                    Tab::RegexTester => {
                        assert(tab_id(a)[0] != tab_id(b)[0]);
                    },
                    Tab::JsonFormatter => {},
                    Tab::Base64Encoder => {},
                    Tab::ShortcutDictionary => {},
                    Tab::CharCounter => {},
                }
            },
        }
    }
}

/// A group of tools in the sidebar.
#[derive(Clone, Copy, Debug, PartialEq, Eq, Structural)]
pub enum Category {
    Media,
    Documents,
    Generators,
    Productivity,
}

/// The translation key of the category's name.
pub open spec fn category_key(c: Category) -> Seq<char> {
    match c {
        Category::Media => "app.categories.media"@,
        Category::Documents => "app.categories.documents"@,
        Category::Generators => "app.categories.generators"@,
        Category::Productivity => "app.categories.productivity"@,
    }
}

/// The tools of the category, in sidebar order.
pub open spec fn category_tabs(c: Category) -> Seq<Tab> {
    match c {
        Category::Media => seq![Tab::ImageCompressor, Tab::ImageEditor],
        Category::Documents => seq![Tab::CsvViewer, Tab::PdfTools, Tab::MarkdownToPdf, Tab::TextDiff, Tab::JsonFormatter, Tab::CharCounter],
        Category::Generators => seq![Tab::UuidGenerator, Tab::PasswordGenerator, Tab::UnitConverter, Tab::UnixTimeConverter, Tab::RegexTester, Tab::Base64Encoder],
        Category::Productivity => seq![Tab::KanbanBoard, Tab::ScratchPad, Tab::ShortcutDictionary],
    }
}

/// The category a tool belongs to.
pub open spec fn category_of(t: Tab) -> Category {
    match t {
        Tab::ImageCompressor => Category::Media,
        Tab::ImageEditor => Category::Media,
        Tab::CsvViewer => Category::Documents,
        Tab::PdfTools => Category::Documents,
        Tab::MarkdownToPdf => Category::Documents,
        Tab::TextDiff => Category::Documents,
        Tab::JsonFormatter => Category::Documents,
        Tab::CharCounter => Category::Documents,
        Tab::UuidGenerator => Category::Generators,
        Tab::PasswordGenerator => Category::Generators,
        Tab::UnitConverter => Category::Generators,
        Tab::UnixTimeConverter => Category::Generators,
        Tab::RegexTester => Category::Generators,
        Tab::Base64Encoder => Category::Generators,
        Tab::KanbanBoard => Category::Productivity,
        Tab::ScratchPad => Category::Productivity,
        Tab::ShortcutDictionary => Category::Productivity,
    }
}

/// The categories, in sidebar order.
pub open spec fn categories_spec() -> Seq<Category> {
    seq![Category::Media, Category::Documents, Category::Generators, Category::Productivity]
}

/// Every tool stands in its own category and in no other.
pub proof fn law_tab_in_one_category(t: Tab, c: Category)
    ensures
        category_tabs(c).contains(t) <==> c == category_of(t),
{
    let s = category_tabs(c);
    if c == category_of(t) {
        let i = choose|i: int| 0 <= i < s.len() && s[i] == t;
        match t {
            Tab::ImageCompressor => {
                assert(s[0] == t);
            },
            Tab::ImageEditor => {
                assert(s[1] == t);
            },
            Tab::CsvViewer => {
                assert(s[0] == t);
            },
            Tab::PdfTools => {
                assert(s[1] == t);
            },
            Tab::MarkdownToPdf => {
                assert(s[2] == t);
            },
            Tab::TextDiff => {
                assert(s[3] == t);
            },
            Tab::JsonFormatter => {
                assert(s[4] == t);
            },
            Tab::CharCounter => {
                assert(s[5] == t);
            },
            Tab::UuidGenerator => {
                assert(s[0] == t);
            },
            Tab::PasswordGenerator => {
                assert(s[1] == t);
            },
            Tab::UnitConverter => {
                assert(s[2] == t);
            },
            Tab::UnixTimeConverter => {
                assert(s[3] == t);
            },
            Tab::RegexTester => {
                assert(s[4] == t);
            },
            Tab::Base64Encoder => {
                assert(s[5] == t);
            },
            Tab::KanbanBoard => {
                assert(s[0] == t);
            },
            Tab::ScratchPad => {
                assert(s[1] == t);
            },
            Tab::ShortcutDictionary => {
                assert(s[2] == t);
            },
        }
    }
}

impl Category {
    /// The translation key of the category's name.
    pub fn translation_key(&self) -> (r: &'static str)
        ensures
            r@ == category_key(*self),
    {
        match self {
            Category::Media => "app.categories.media",
            Category::Documents => "app.categories.documents",
            Category::Generators => "app.categories.generators",
            Category::Productivity => "app.categories.productivity",
        }
    }

    /// The tools of the category, in sidebar order.
    pub fn tabs(&self) -> (r: Vec<Tab>)
        ensures
            r@ == category_tabs(*self),
    {
        let r = match self {
            Category::Media => vec![Tab::ImageCompressor, Tab::ImageEditor],
            Category::Documents => vec![Tab::CsvViewer, Tab::PdfTools, Tab::MarkdownToPdf, Tab::TextDiff, Tab::JsonFormatter, Tab::CharCounter],
            Category::Generators => vec![Tab::UuidGenerator, Tab::PasswordGenerator, Tab::UnitConverter, Tab::UnixTimeConverter, Tab::RegexTester, Tab::Base64Encoder],
            Category::Productivity => vec![Tab::KanbanBoard, Tab::ScratchPad, Tab::ShortcutDictionary],
        };
        assert(r@ =~= category_tabs(*self));
        r
    }

    /// The categories, in sidebar order.
    pub fn all() -> (r: Vec<Category>)
        ensures
            r@ == categories_spec(),
    {
        let r = vec![Category::Media, Category::Documents, Category::Generators, Category::Productivity];
        assert(r@ =~= categories_spec());
        r
    }

    /// The category a tool belongs to.
    pub fn of(t: Tab) -> (r: Category)
        ensures
            r == category_of(t),
    {
        match t {
            Tab::ImageCompressor | Tab::ImageEditor => Category::Media,
            Tab::CsvViewer | Tab::PdfTools | Tab::MarkdownToPdf | Tab::TextDiff | Tab::JsonFormatter | Tab::CharCounter => Category::Documents,
            Tab::UuidGenerator | Tab::PasswordGenerator | Tab::UnitConverter | Tab::UnixTimeConverter | Tab::RegexTester | Tab::Base64Encoder => Category::Generators,
            Tab::KanbanBoard | Tab::ScratchPad | Tab::ShortcutDictionary => Category::Productivity,
        }
    }
}

/// Every tool, in the order of the command palette.
pub fn all_tabs() -> (r: Vec<Tab>)
    ensures
        r@ == all_tabs_spec(),
{
    let r = vec![Tab::ImageCompressor, Tab::ImageEditor, Tab::CsvViewer, Tab::PdfTools, Tab::MarkdownToPdf, Tab::KanbanBoard, Tab::ScratchPad, Tab::UuidGenerator, Tab::PasswordGenerator, Tab::UnitConverter, Tab::UnixTimeConverter, Tab::TextDiff, Tab::RegexTester, Tab::JsonFormatter, Tab::Base64Encoder, Tab::ShortcutDictionary, Tab::CharCounter];
    assert(r@ =~= all_tabs_spec());
    r
}

/// The characters of `s` after its last `c` (all of `s` when there is none).
pub open spec fn after_last(s: Seq<char>, c: char) -> Seq<char>
    decreases s.len(),
{
    if s.len() == 0 {
        seq![]
    } else if s.last() == c {
        seq![]
    } else {
        after_last(s.drop_last(), c).push(s.last())
    }
}

/// The extension of a path: what follows its last period, in lower case.
pub open spec fn extension(path: Seq<char>) -> Seq<char> {
    lower(after_last(path, '.'))
}

/// The lower-case extension of a path (the whole name when it has no period).
pub fn get_file_extension(path: &str) -> (r: Option<String>)
    ensures
        r matches Some(e) && e@ == extension(path@),
{
    let v = to_chars(path);
    let mut lo = v.len();
    assert(v@.subrange(0, v.len() as int) =~= v@);
    assert(v@.subrange(v.len() as int, v.len() as int) =~= Seq::<char>::empty());
    assert(after_last(v@, '.') + Seq::<char>::empty() =~= after_last(v@, '.'));
    while lo > 0 && v[lo - 1] != '.'
        invariant
            lo <= v.len(),
            after_last(v@, '.') == after_last(v@.subrange(0, lo as int), '.') + v@.subrange(
                lo as int,
                v.len() as int,
            ),
        decreases lo,
    {
        let ghost p = v@.subrange(0, lo as int);
        assert(p.drop_last() =~= v@.subrange(0, lo - 1));
        assert(seq![p.last()] + v@.subrange(lo as int, v.len() as int) =~= v@.subrange(
            lo - 1,
            v.len() as int,
        ));
        assert(after_last(p.drop_last(), '.').push(p.last()) + v@.subrange(lo as int, v.len() as int)
            =~= after_last(p.drop_last(), '.') + v@.subrange(lo - 1, v.len() as int));
        lo -= 1;
    }
    assert(v@.subrange(0, v.len() as int) =~= v@);
    let tail = crate::text::slice(&v, lo, v.len());
    assert(after_last(v@.subrange(0, lo as int), '.') =~= Seq::<char>::empty());
    assert(tail@ =~= after_last(v@, '.'));
    let s = crate::text::from_chars(&tail);
    Some(lowercase(s.as_str()))
}

/// The path names a image file by its extension.
pub open spec fn is_image_path(path: Seq<char>) -> bool {
    let e = extension(path);
    e == "png"@
        || e == "jpg"@
        || e == "jpeg"@
        || e == "webp"@
        || e == "avif"@
        || e == "gif"@
        || e == "bmp"@
}

/// Whether the path names a image file by its extension.
pub fn is_image_file(path: &str) -> (b: bool)
    ensures
        b == is_image_path(path@),
{
    let e = get_file_extension(path);
    match e {
        Some(e) => {
            let v = to_chars(e.as_str());
            eq_str(&v, "png")
                || eq_str(&v, "jpg")
                || eq_str(&v, "jpeg")
                || eq_str(&v, "webp")
                || eq_str(&v, "avif")
                || eq_str(&v, "gif")
                || eq_str(&v, "bmp")
        },
        None => false,
    }
}

/// The path names a csv file by its extension.
pub open spec fn is_csv_path(path: Seq<char>) -> bool {
    let e = extension(path);
    e == "csv"@
        || e == "tsv"@
}

/// Whether the path names a csv file by its extension.
pub fn is_csv_file(path: &str) -> (b: bool)
    ensures
        b == is_csv_path(path@),
{
    let e = get_file_extension(path);
    match e {
        Some(e) => {
            let v = to_chars(e.as_str());
            eq_str(&v, "csv")
                || eq_str(&v, "tsv")
        },
        None => false,
    }
}

/// The path names a pdf file by its extension.
pub open spec fn is_pdf_path(path: Seq<char>) -> bool {
    let e = extension(path);
    e == "pdf"@
}

/// Whether the path names a pdf file by its extension.
pub fn is_pdf_file(path: &str) -> (b: bool)
    ensures
        b == is_pdf_path(path@),
{
    let e = get_file_extension(path);
    match e {
        Some(e) => {
            let v = to_chars(e.as_str());
            eq_str(&v, "pdf")
        },
        None => false,
    }
}

/// The path names a markdown file by its extension.
pub open spec fn is_markdown_path(path: Seq<char>) -> bool {
    let e = extension(path);
    e == "md"@
        || e == "markdown"@
}

/// Whether the path names a markdown file by its extension.
pub fn is_markdown_file(path: &str) -> (b: bool)
    ensures
        b == is_markdown_path(path@),
{
    let e = get_file_extension(path);
    match e {
        Some(e) => {
            let v = to_chars(e.as_str());
            eq_str(&v, "md")
                || eq_str(&v, "markdown")
        },
        None => false,
    }
}

/// The path names a json file by its extension.
pub open spec fn is_json_path(path: Seq<char>) -> bool {
    let e = extension(path);
    e == "json"@
}

/// Whether the path names a json file by its extension.
pub fn is_json_file(path: &str) -> (b: bool)
    ensures
        b == is_json_path(path@),
{
    let e = get_file_extension(path);
    match e {
        Some(e) => {
            let v = to_chars(e.as_str());
            eq_str(&v, "json")
        },
        None => false,
    }
}

/// The path names a text file by its extension.
pub open spec fn is_text_path(path: Seq<char>) -> bool {
    let e = extension(path);
    e == "txt"@
        || e == "text"@
        || e == "log"@
        || e == "xml"@
        || e == "yaml"@
        || e == "yml"@
        || e == "toml"@
        || e == "ini"@
        || e == "cfg"@
        || e == "conf"@
        || e == "rs"@
        || e == "js"@
        || e == "ts"@
        || e == "py"@
        || e == "go"@
        || e == "java"@
        || e == "c"@
        || e == "cpp"@
        || e == "h"@
        || e == "hpp"@
        || e == "html"@
        || e == "css"@
        || e == "scss"@
        || e == "sass"@
        || e == "less"@
        || e == "sh"@
        || e == "bash"@
        || e == "zsh"@
        || e == "sql"@
        || e == "rb"@
        || e == "php"@
        || e == "swift"@
        || e == "kt"@
        || e == "scala"@
        || e == "ex"@
        || e == "exs"@
        || e == "erl"@
        || e == "hs"@
        || e == "ml"@
        || e == "clj"@
        || e == "lisp"@
        || e == "el"@
        || e == "vim"@
        || e == "lua"@
        || e == "r"@
        || e == "m"@
        || e == "mm"@
        || e == "pl"@
        || e == "pm"@
}

/// Whether the path names a text file by its extension.
pub fn is_text_file(path: &str) -> (b: bool)
    ensures
        b == is_text_path(path@),
{
    let e = get_file_extension(path);
    match e {
        Some(e) => {
            let v = to_chars(e.as_str());
            eq_str(&v, "txt")
                || eq_str(&v, "text")
                || eq_str(&v, "log")
                || eq_str(&v, "xml")
                || eq_str(&v, "yaml")
                || eq_str(&v, "yml")
                || eq_str(&v, "toml")
                || eq_str(&v, "ini")
                || eq_str(&v, "cfg")
                || eq_str(&v, "conf")
                || eq_str(&v, "rs")
                || eq_str(&v, "js")
                || eq_str(&v, "ts")
                || eq_str(&v, "py")
                || eq_str(&v, "go")
                || eq_str(&v, "java")
                || eq_str(&v, "c")
                || eq_str(&v, "cpp")
                || eq_str(&v, "h")
                || eq_str(&v, "hpp")
                || eq_str(&v, "html")
                || eq_str(&v, "css")
                || eq_str(&v, "scss")
                || eq_str(&v, "sass")
                || eq_str(&v, "less")
                || eq_str(&v, "sh")
                || eq_str(&v, "bash")
                || eq_str(&v, "zsh")
                || eq_str(&v, "sql")
                || eq_str(&v, "rb")
                || eq_str(&v, "php")
                || eq_str(&v, "swift")
                || eq_str(&v, "kt")
                || eq_str(&v, "scala")
                || eq_str(&v, "ex")
                || eq_str(&v, "exs")
                || eq_str(&v, "erl")
                || eq_str(&v, "hs")
                || eq_str(&v, "ml")
                || eq_str(&v, "clj")
                || eq_str(&v, "lisp")
                || eq_str(&v, "el")
                || eq_str(&v, "vim")
                || eq_str(&v, "lua")
                || eq_str(&v, "r")
                || eq_str(&v, "m")
                || eq_str(&v, "mm")
                || eq_str(&v, "pl")
                || eq_str(&v, "pm")
        },
        None => false,
    }
}

/// Where a file dropped on the window goes.
#[derive(Clone, Copy, Debug, PartialEq, Eq, Structural)]
pub enum DropTarget {
    ImageCompressor,
    ImageEditor,
    Base64Image,
    CsvViewer,
    PdfTools,
    MarkdownToPdf,
    JsonFormatter,
    TextDiff,
    Ignored,
}

/// Where a dropped file goes, and which tool is shown afterwards: images go
/// to the image editor or the Base64 encoder when one of them is shown, and
/// to the compressor otherwise; CSV, PDF, Markdown and JSON files go to their
/// tools; text files, and any file while the diff tool is shown, go to the
/// diff tool; anything else is ignored.
pub open spec fn drop_route(active: Tab, path: Seq<char>) -> (DropTarget, Tab) {
    if is_image_path(path) {
        if active == Tab::ImageEditor {
            (DropTarget::ImageEditor, active)
        } else if active == Tab::Base64Encoder {
            (DropTarget::Base64Image, active)
        } else {
            (DropTarget::ImageCompressor, Tab::ImageCompressor)
        }
    } else if is_csv_path(path) {
        (DropTarget::CsvViewer, Tab::CsvViewer)
    } else if is_pdf_path(path) {
        (DropTarget::PdfTools, Tab::PdfTools)
    } else if is_markdown_path(path) {
        (DropTarget::MarkdownToPdf, Tab::MarkdownToPdf)
    } else if is_json_path(path) {
        (DropTarget::JsonFormatter, Tab::JsonFormatter)
    } else if is_text_path(path) || active == Tab::TextDiff {
        (DropTarget::TextDiff, Tab::TextDiff)
    } else {
        (DropTarget::Ignored, active)
    }
}

/// Routes a dropped file (see `drop_route`).
pub fn route_drop(active: Tab, path: &str) -> (r: (DropTarget, Tab))
    ensures
        r == drop_route(active, path@),
{
    if is_image_file(path) {
        if active == Tab::ImageEditor {
            (DropTarget::ImageEditor, active)
        } else if active == Tab::Base64Encoder {
            (DropTarget::Base64Image, active)
        } else {
            (DropTarget::ImageCompressor, Tab::ImageCompressor)
        }
    } else if is_csv_file(path) {
        (DropTarget::CsvViewer, Tab::CsvViewer)
    } else if is_pdf_file(path) {
        (DropTarget::PdfTools, Tab::PdfTools)
    } else if is_markdown_file(path) {
        (DropTarget::MarkdownToPdf, Tab::MarkdownToPdf)
    } else if is_json_file(path) {
        (DropTarget::JsonFormatter, Tab::JsonFormatter)
    } else if is_text_file(path) || active == Tab::TextDiff {
        (DropTarget::TextDiff, Tab::TextDiff)
    } else {
        (DropTarget::Ignored, active)
    }
}

/// The palette entry of a tool, given its translated name, description and
/// category name.
pub fn tool_item(tab: Tab, name: String, description: String, category: String) -> (r: ToolItem)
    ensures
        r.id@ == tab_id(tab),
        r.name@ == name@,
        r.description@ == description@,
        r.category@ == category@,
        r.icon@ == tab_icon(tab),
        string_views(r.keywords@) == tab_keywords(tab),
{
    ToolItem {
        id: String::from_str(tab.id()),
        name,
        description,
        category,
        icon: String::from_str(tab.icon()),
        keywords: tab.keywords(),
    }
}

} // verus!
