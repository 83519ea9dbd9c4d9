//! The shortcut dictionary: keyboard shortcuts of four applications on three
//! systems, filtered by category and by a search over actions and keys.
use vstd::prelude::*;
use crate::formatting::replace_all;
use crate::formatting::replace_all_chars;
use crate::text::contains;
use crate::text::contains_str;
use crate::text::decimal;
use crate::text::decimal_chars;
use crate::text::from_chars;
use crate::text::lower;
use crate::text::lowercase;
use crate::text::same_text;
use crate::text::to_chars;

verus! {

/// The applications whose shortcuts are listed.
#[derive(Clone, Copy, Debug, PartialEq, Eq, Structural)]
pub enum AppType {
    VSCode,
    IntelliJ,
    Vim,
    Terminal,
}

/// The translation key of an application's name.
pub open spec fn app_key(a: AppType) -> Seq<char> {
    match a {
        AppType::VSCode => "shortcut_dictionary.app_vscode"@,
        AppType::IntelliJ => "shortcut_dictionary.app_intellij"@,
        AppType::Vim => "shortcut_dictionary.app_vim"@,
        AppType::Terminal => "shortcut_dictionary.app_terminal"@,
    }
}

/// The short mark of an application.
pub open spec fn app_icon(a: AppType) -> Seq<char> {
    match a {
        AppType::VSCode => "VS"@,
        AppType::IntelliJ => "IJ"@,
        AppType::Vim => "Vi"@,
        AppType::Terminal => ">_"@,
    }
}

impl AppType {
    /// The applications in the order of their buttons.
    pub fn all() -> (r: Vec<AppType>)
        ensures
            r@ == seq![AppType::VSCode, AppType::IntelliJ, AppType::Vim, AppType::Terminal],
    {
        let r = vec![AppType::VSCode, AppType::IntelliJ, AppType::Vim, AppType::Terminal];
        assert(r@ =~= seq![AppType::VSCode, AppType::IntelliJ, AppType::Vim, AppType::Terminal]);
        r
    }

    /// The translation key of the application's name.
    pub fn translation_key(&self) -> (s: &'static str)
        ensures
            s@ == app_key(*self),
    {
        match self {
            AppType::VSCode => "shortcut_dictionary.app_vscode",
            AppType::IntelliJ => "shortcut_dictionary.app_intellij",
            AppType::Vim => "shortcut_dictionary.app_vim",
            AppType::Terminal => "shortcut_dictionary.app_terminal",
        }
    }

    /// The short mark of the application.
    pub fn icon(&self) -> (s: &'static str)
        ensures
            s@ == app_icon(*self),
    {
        match self {
            AppType::VSCode => "VS",
            AppType::IntelliJ => "IJ",
            AppType::Vim => "Vi",
            AppType::Terminal => ">_",
        }
    }
}

/// The systems whose keys are shown.
#[derive(Clone, Copy, Debug, PartialEq, Eq, Structural)]
pub enum OsType {
    Mac,
    Windows,
    Linux,
}

/// The translation key of a system's name.
pub open spec fn os_key(o: OsType) -> Seq<char> {
    match o {
        OsType::Mac => "shortcut_dictionary.os_mac"@,
        OsType::Windows => "shortcut_dictionary.os_windows"@,
        OsType::Linux => "shortcut_dictionary.os_linux"@,
    }
}

/// The value of a system in the select element.
pub open spec fn os_value(o: OsType) -> Seq<char> {
    match o {
        OsType::Mac => "mac"@,
        OsType::Windows => "windows"@,
        OsType::Linux => "linux"@,
    }
}

/// The system a select value stands for; anything unknown is the Mac.
pub open spec fn os_of_value(v: Seq<char>) -> OsType {
    if v == "windows"@ {
        OsType::Windows
    } else if v == "linux"@ {
        OsType::Linux
    } else {
        OsType::Mac
    }
}

impl OsType {
    /// The systems in the order of the select element.
    pub fn all() -> (r: Vec<OsType>)
        ensures
            r@ == seq![OsType::Mac, OsType::Windows, OsType::Linux],
    {
        let r = vec![OsType::Mac, OsType::Windows, OsType::Linux];
        assert(r@ =~= seq![OsType::Mac, OsType::Windows, OsType::Linux]);
        r
    }

    /// The translation key of the system's name.
    pub fn translation_key(&self) -> (s: &'static str)
        ensures
            s@ == os_key(*self),
    {
        match self {
            OsType::Mac => "shortcut_dictionary.os_mac",
            OsType::Windows => "shortcut_dictionary.os_windows",
            OsType::Linux => "shortcut_dictionary.os_linux",
        }
    }

    /// The select value of the system.
    pub fn select_value(&self) -> (s: &'static str)
        ensures
            s@ == os_value(*self),
    {
        match self {
            OsType::Mac => "mac",
            OsType::Windows => "windows",
            OsType::Linux => "linux",
        }
    }

    /// The system chosen in the select element.
    pub fn from_select(value: &str) -> (o: OsType)
        ensures
            o == os_of_value(value@),
    {
        if same_text(value, "windows") {
            OsType::Windows
        } else if same_text(value, "linux") {
            OsType::Linux
        } else {
            OsType::Mac
        }
    }
}

/// Reading back the select value of a system gives that system.
pub proof fn law_os_value_round_trip(o: OsType)
    ensures
        os_of_value(os_value(o)) == o,
{
    reveal_strlit("mac");
    reveal_strlit("windows");
    reveal_strlit("linux");
    assert("mac"@.len() == 3 && "windows"@.len() == 7 && "linux"@.len() == 5);
}

/// The groups of shortcuts; `All` selects every group.
#[derive(Clone, Copy, Debug, PartialEq, Eq, Structural)]
pub enum ShortcutCategory {
    All,
    Editing,
    Navigation,
    Search,
    Debug,
    Terminal,
    View,
    File,
}

/// The translation key of a group's name.
pub open spec fn shortcut_category_key(c: ShortcutCategory) -> Seq<char> {
    match c {
        ShortcutCategory::All => "shortcut_dictionary.category_all"@,
        ShortcutCategory::Editing => "shortcut_dictionary.category_editing"@,
        ShortcutCategory::Navigation => "shortcut_dictionary.category_navigation"@,
        ShortcutCategory::Search => "shortcut_dictionary.category_search"@,
        ShortcutCategory::Debug => "shortcut_dictionary.category_debug"@,
        ShortcutCategory::Terminal => "shortcut_dictionary.category_terminal"@,
        ShortcutCategory::View => "shortcut_dictionary.category_view"@,
        ShortcutCategory::File => "shortcut_dictionary.category_file"@,
    }
}

impl ShortcutCategory {
    /// The groups in the order of their buttons.
    pub fn all() -> (r: Vec<ShortcutCategory>)
        ensures
            r@ == seq![
                ShortcutCategory::All,
                ShortcutCategory::Editing,
                ShortcutCategory::Navigation,
                ShortcutCategory::Search,
                ShortcutCategory::Debug,
                ShortcutCategory::Terminal,
                ShortcutCategory::View,
                ShortcutCategory::File,
            ],
    {
        let r = vec![
            ShortcutCategory::All,
            ShortcutCategory::Editing,
            ShortcutCategory::Navigation,
            ShortcutCategory::Search,
            ShortcutCategory::Debug,
            ShortcutCategory::Terminal,
            ShortcutCategory::View,
            ShortcutCategory::File,
        ];
        assert(r@ =~= seq![
            ShortcutCategory::All,
            ShortcutCategory::Editing,
            ShortcutCategory::Navigation,
            ShortcutCategory::Search,
            ShortcutCategory::Debug,
            ShortcutCategory::Terminal,
            ShortcutCategory::View,
            ShortcutCategory::File,
        ]);
        r
    }

    /// The translation key of the group's name.
    pub fn translation_key(&self) -> (s: &'static str)
        ensures
            s@ == shortcut_category_key(*self),
    {
        match self {
            ShortcutCategory::All => "shortcut_dictionary.category_all",
            ShortcutCategory::Editing => "shortcut_dictionary.category_editing",
            ShortcutCategory::Navigation => "shortcut_dictionary.category_navigation",
            ShortcutCategory::Search => "shortcut_dictionary.category_search",
            ShortcutCategory::Debug => "shortcut_dictionary.category_debug",
            ShortcutCategory::Terminal => "shortcut_dictionary.category_terminal",
            ShortcutCategory::View => "shortcut_dictionary.category_view",
            ShortcutCategory::File => "shortcut_dictionary.category_file",
        }
    }
}

/// One shortcut: the action in English and Japanese, the keys on each
/// system, and its group.
#[derive(Clone, Copy)]
pub struct ShortcutEntry {
    pub action_en: &'static str,
    pub action_ja: &'static str,
    pub key_mac: &'static str,
    pub key_win: &'static str,
    pub key_linux: &'static str,
    pub category: ShortcutCategory,
}

/// A shortcut as values.
pub struct ShortcutView {
    pub action_en: Seq<char>,
    pub action_ja: Seq<char>,
    pub key_mac: Seq<char>,
    pub key_win: Seq<char>,
    pub key_linux: Seq<char>,
    pub category: ShortcutCategory,
}

impl View for ShortcutEntry {
    type V = ShortcutView;

    open spec fn view(&self) -> ShortcutView {
        ShortcutView {
            action_en: self.action_en@,
            action_ja: self.action_ja@,
            key_mac: self.key_mac@,
            key_win: self.key_win@,
            key_linux: self.key_linux@,
            category: self.category,
        }
    }
}

/// The views of a list of shortcuts.
pub open spec fn shortcut_views(v: Seq<ShortcutEntry>) -> Seq<ShortcutView> {
    v.map_values(|e: ShortcutEntry| e@)
}

/// A shortcut from its parts.
pub open spec fn sc(
    action_en: &str,
    action_ja: &str,
    key_mac: &str,
    key_win: &str,
    key_linux: &str,
    category: ShortcutCategory,
) -> ShortcutView {
    ShortcutView {
        action_en: action_en@,
        action_ja: action_ja@,
        key_mac: key_mac@,
        key_win: key_win@,
        key_linux: key_linux@,
        category,
    }
}

/// One shortcut.
fn entry(
    action_en: &'static str,
    action_ja: &'static str,
    key_mac: &'static str,
    key_win: &'static str,
    key_linux: &'static str,
    category: ShortcutCategory,
) -> (e: ShortcutEntry)
    ensures
        e@ == sc(action_en, action_ja, key_mac, key_win, key_linux, category),
{
    ShortcutEntry { action_en, action_ja, key_mac, key_win, key_linux, category }
}


/// The shortcuts of VS Code, in the order listed.
pub open spec fn vscode_table() -> Seq<ShortcutView> {
    seq![
        sc("Cut line", "行の切り取り", "Cmd+X", "Ctrl+X", "Ctrl+X", ShortcutCategory::Editing),
        sc("Copy line", "行のコピー", "Cmd+C", "Ctrl+C", "Ctrl+C", ShortcutCategory::Editing),
        sc("Move line up", "行を上に移動", "Option+\u{2191}", "Alt+\u{2191}", "Alt+\u{2191}", ShortcutCategory::Editing),
        sc("Move line down", "行を下に移動", "Option+\u{2193}", "Alt+\u{2193}", "Alt+\u{2193}", ShortcutCategory::Editing),
        sc("Copy line up", "行を上にコピー", "Shift+Option+\u{2191}", "Shift+Alt+\u{2191}", "Shift+Alt+\u{2191}", ShortcutCategory::Editing),
        sc("Copy line down", "行を下にコピー", "Shift+Option+\u{2193}", "Shift+Alt+\u{2193}", "Shift+Alt+\u{2193}", ShortcutCategory::Editing),
        sc("Delete line", "行の削除", "Cmd+Shift+K", "Ctrl+Shift+K", "Ctrl+Shift+K", ShortcutCategory::Editing),
        sc("Insert line below", "下に空行を挿入", "Cmd+Enter", "Ctrl+Enter", "Ctrl+Enter", ShortcutCategory::Editing),
        sc("Insert line above", "上に空行を挿入", "Cmd+Shift+Enter", "Ctrl+Shift+Enter", "Ctrl+Shift+Enter", ShortcutCategory::Editing),
        sc("Indent line", "行のインデント", "Cmd+]", "Ctrl+]", "Ctrl+]", ShortcutCategory::Editing),
        sc("Outdent line", "行のアウトデント", "Cmd+[", "Ctrl+[", "Ctrl+[", ShortcutCategory::Editing),
        sc("Toggle comment", "コメントの切り替え", "Cmd+/", "Ctrl+/", "Ctrl+/", ShortcutCategory::Editing),
        sc("Block comment", "ブロックコメント", "Shift+Option+A", "Shift+Alt+A", "Shift+Alt+A", ShortcutCategory::Editing),
        sc("Undo", "元に戻す", "Cmd+Z", "Ctrl+Z", "Ctrl+Z", ShortcutCategory::Editing),
        sc("Redo", "やり直し", "Cmd+Shift+Z", "Ctrl+Y", "Ctrl+Shift+Z", ShortcutCategory::Editing),
        sc("Format document", "ドキュメントの整形", "Shift+Option+F", "Shift+Alt+F", "Shift+Alt+F", ShortcutCategory::Editing),
        sc("Multi-cursor", "マルチカーソル", "Option+Click", "Alt+Click", "Alt+Click", ShortcutCategory::Editing),
        sc("Select all occurrences", "同じ単語をすべて選択", "Cmd+Shift+L", "Ctrl+Shift+L", "Ctrl+Shift+L", ShortcutCategory::Editing),
        sc("Add cursor to next match", "次の一致にカーソル追加", "Cmd+D", "Ctrl+D", "Ctrl+D", ShortcutCategory::Editing),
        sc("Rename symbol", "シンボルの名前変更", "F2", "F2", "F2", ShortcutCategory::Editing),
        sc("Go to file", "ファイルに移動", "Cmd+P", "Ctrl+P", "Ctrl+P", ShortcutCategory::Navigation),
        sc("Go to line", "行に移動", "Ctrl+G", "Ctrl+G", "Ctrl+G", ShortcutCategory::Navigation),
        sc("Go to symbol", "シンボルに移動", "Cmd+Shift+O", "Ctrl+Shift+O", "Ctrl+Shift+O", ShortcutCategory::Navigation),
        sc("Go to definition", "定義に移動", "F12", "F12", "F12", ShortcutCategory::Navigation),
        sc("Peek definition", "定義をプレビュー", "Option+F12", "Alt+F12", "Alt+F12", ShortcutCategory::Navigation),
        sc("Go back", "前の位置に戻る", "Ctrl+-", "Alt+\u{2190}", "Alt+\u{2190}", ShortcutCategory::Navigation),
        sc("Go forward", "次の位置に進む", "Ctrl+Shift+-", "Alt+\u{2192}", "Alt+\u{2192}", ShortcutCategory::Navigation),
        sc("Go to bracket", "対応する括弧に移動", "Cmd+Shift+\\", "Ctrl+Shift+\\", "Ctrl+Shift+\\", ShortcutCategory::Navigation),
        sc("Find", "検索", "Cmd+F", "Ctrl+F", "Ctrl+F", ShortcutCategory::Search),
        sc("Replace", "置換", "Cmd+Option+F", "Ctrl+H", "Ctrl+H", ShortcutCategory::Search),
        sc("Find in files", "ファイル全体を検索", "Cmd+Shift+F", "Ctrl+Shift+F", "Ctrl+Shift+F", ShortcutCategory::Search),
        sc("Replace in files", "ファイル全体を置換", "Cmd+Shift+H", "Ctrl+Shift+H", "Ctrl+Shift+H", ShortcutCategory::Search),
        sc("Command palette", "コマンドパレット", "Cmd+Shift+P", "Ctrl+Shift+P", "Ctrl+Shift+P", ShortcutCategory::Search),
        sc("Start debugging", "デバッグ開始", "F5", "F5", "F5", ShortcutCategory::Debug),
        sc("Toggle breakpoint", "ブレークポイント切り替え", "F9", "F9", "F9", ShortcutCategory::Debug),
        sc("Step over", "ステップオーバー", "F10", "F10", "F10", ShortcutCategory::Debug),
        sc("Step into", "ステップイン", "F11", "F11", "F11", ShortcutCategory::Debug),
        sc("Step out", "ステップアウト", "Shift+F11", "Shift+F11", "Shift+F11", ShortcutCategory::Debug),
        sc("Stop debugging", "デバッグ停止", "Shift+F5", "Shift+F5", "Shift+F5", ShortcutCategory::Debug),
        sc("Toggle terminal", "ターミナル切り替え", "Ctrl+`", "Ctrl+`", "Ctrl+`", ShortcutCategory::Terminal),
        sc("New terminal", "新しいターミナル", "Ctrl+Shift+`", "Ctrl+Shift+`", "Ctrl+Shift+`", ShortcutCategory::Terminal),
        sc("Toggle sidebar", "サイドバー切り替え", "Cmd+B", "Ctrl+B", "Ctrl+B", ShortcutCategory::View),
        sc("Explorer", "エクスプローラー", "Cmd+Shift+E", "Ctrl+Shift+E", "Ctrl+Shift+E", ShortcutCategory::View),
        sc("Source control", "ソース管理", "Ctrl+Shift+G", "Ctrl+Shift+G", "Ctrl+Shift+G", ShortcutCategory::View),
        sc("Extensions", "拡張機能", "Cmd+Shift+X", "Ctrl+Shift+X", "Ctrl+Shift+X", ShortcutCategory::View),
        sc("Zoom in", "拡大", "Cmd+=", "Ctrl+=", "Ctrl+=", ShortcutCategory::View),
        sc("Zoom out", "縮小", "Cmd+-", "Ctrl+-", "Ctrl+-", ShortcutCategory::View),
        sc("Split editor", "エディター分割", "Cmd+\\", "Ctrl+\\", "Ctrl+\\", ShortcutCategory::View),
        sc("New file", "新規ファイル", "Cmd+N", "Ctrl+N", "Ctrl+N", ShortcutCategory::File),
        sc("Save", "保存", "Cmd+S", "Ctrl+S", "Ctrl+S", ShortcutCategory::File),
        sc("Save as", "名前を付けて保存", "Cmd+Shift+S", "Ctrl+Shift+S", "Ctrl+Shift+S", ShortcutCategory::File),
        sc("Close tab", "タブを閉じる", "Cmd+W", "Ctrl+W", "Ctrl+W", ShortcutCategory::File),
        sc("Reopen closed tab", "閉じたタブを再度開く", "Cmd+Shift+T", "Ctrl+Shift+T", "Ctrl+Shift+T", ShortcutCategory::File),
        sc("Open settings", "設定を開く", "Cmd+,", "Ctrl+,", "Ctrl+,", ShortcutCategory::File),
    ]
}

/// The shortcuts of VS Code, in the order listed.
pub fn get_vscode_shortcuts() -> (r: Vec<ShortcutEntry>)
    ensures
        shortcut_views(r@) == vscode_table(),
{
    let mut r: Vec<ShortcutEntry> = Vec::new();
    r.push(entry("Cut line", "行の切り取り", "Cmd+X", "Ctrl+X", "Ctrl+X", ShortcutCategory::Editing));
    r.push(entry("Copy line", "行のコピー", "Cmd+C", "Ctrl+C", "Ctrl+C", ShortcutCategory::Editing));
    r.push(entry("Move line up", "行を上に移動", "Option+\u{2191}", "Alt+\u{2191}", "Alt+\u{2191}", ShortcutCategory::Editing));
    r.push(entry("Move line down", "行を下に移動", "Option+\u{2193}", "Alt+\u{2193}", "Alt+\u{2193}", ShortcutCategory::Editing));
    r.push(entry("Copy line up", "行を上にコピー", "Shift+Option+\u{2191}", "Shift+Alt+\u{2191}", "Shift+Alt+\u{2191}", ShortcutCategory::Editing));
    r.push(entry("Copy line down", "行を下にコピー", "Shift+Option+\u{2193}", "Shift+Alt+\u{2193}", "Shift+Alt+\u{2193}", ShortcutCategory::Editing));
    r.push(entry("Delete line", "行の削除", "Cmd+Shift+K", "Ctrl+Shift+K", "Ctrl+Shift+K", ShortcutCategory::Editing));
    r.push(entry("Insert line below", "下に空行を挿入", "Cmd+Enter", "Ctrl+Enter", "Ctrl+Enter", ShortcutCategory::Editing));
    r.push(entry("Insert line above", "上に空行を挿入", "Cmd+Shift+Enter", "Ctrl+Shift+Enter", "Ctrl+Shift+Enter", ShortcutCategory::Editing));
    r.push(entry("Indent line", "行のインデント", "Cmd+]", "Ctrl+]", "Ctrl+]", ShortcutCategory::Editing));
    r.push(entry("Outdent line", "行のアウトデント", "Cmd+[", "Ctrl+[", "Ctrl+[", ShortcutCategory::Editing));
    r.push(entry("Toggle comment", "コメントの切り替え", "Cmd+/", "Ctrl+/", "Ctrl+/", ShortcutCategory::Editing));
    r.push(entry("Block comment", "ブロックコメント", "Shift+Option+A", "Shift+Alt+A", "Shift+Alt+A", ShortcutCategory::Editing));
    r.push(entry("Undo", "元に戻す", "Cmd+Z", "Ctrl+Z", "Ctrl+Z", ShortcutCategory::Editing));
    r.push(entry("Redo", "やり直し", "Cmd+Shift+Z", "Ctrl+Y", "Ctrl+Shift+Z", ShortcutCategory::Editing));
    r.push(entry("Format document", "ドキュメントの整形", "Shift+Option+F", "Shift+Alt+F", "Shift+Alt+F", ShortcutCategory::Editing));
    r.push(entry("Multi-cursor", "マルチカーソル", "Option+Click", "Alt+Click", "Alt+Click", ShortcutCategory::Editing));
    r.push(entry("Select all occurrences", "同じ単語をすべて選択", "Cmd+Shift+L", "Ctrl+Shift+L", "Ctrl+Shift+L", ShortcutCategory::Editing));
    r.push(entry("Add cursor to next match", "次の一致にカーソル追加", "Cmd+D", "Ctrl+D", "Ctrl+D", ShortcutCategory::Editing));
    r.push(entry("Rename symbol", "シンボルの名前変更", "F2", "F2", "F2", ShortcutCategory::Editing));
    r.push(entry("Go to file", "ファイルに移動", "Cmd+P", "Ctrl+P", "Ctrl+P", ShortcutCategory::Navigation));
    r.push(entry("Go to line", "行に移動", "Ctrl+G", "Ctrl+G", "Ctrl+G", ShortcutCategory::Navigation));
    r.push(entry("Go to symbol", "シンボルに移動", "Cmd+Shift+O", "Ctrl+Shift+O", "Ctrl+Shift+O", ShortcutCategory::Navigation));
    r.push(entry("Go to definition", "定義に移動", "F12", "F12", "F12", ShortcutCategory::Navigation));
    r.push(entry("Peek definition", "定義をプレビュー", "Option+F12", "Alt+F12", "Alt+F12", ShortcutCategory::Navigation));
    r.push(entry("Go back", "前の位置に戻る", "Ctrl+-", "Alt+\u{2190}", "Alt+\u{2190}", ShortcutCategory::Navigation));
    r.push(entry("Go forward", "次の位置に進む", "Ctrl+Shift+-", "Alt+\u{2192}", "Alt+\u{2192}", ShortcutCategory::Navigation));
    r.push(entry("Go to bracket", "対応する括弧に移動", "Cmd+Shift+\\", "Ctrl+Shift+\\", "Ctrl+Shift+\\", ShortcutCategory::Navigation));
    r.push(entry("Find", "検索", "Cmd+F", "Ctrl+F", "Ctrl+F", ShortcutCategory::Search));
    r.push(entry("Replace", "置換", "Cmd+Option+F", "Ctrl+H", "Ctrl+H", ShortcutCategory::Search));
    r.push(entry("Find in files", "ファイル全体を検索", "Cmd+Shift+F", "Ctrl+Shift+F", "Ctrl+Shift+F", ShortcutCategory::Search));
    r.push(entry("Replace in files", "ファイル全体を置換", "Cmd+Shift+H", "Ctrl+Shift+H", "Ctrl+Shift+H", ShortcutCategory::Search));
    r.push(entry("Command palette", "コマンドパレット", "Cmd+Shift+P", "Ctrl+Shift+P", "Ctrl+Shift+P", ShortcutCategory::Search));
    r.push(entry("Start debugging", "デバッグ開始", "F5", "F5", "F5", ShortcutCategory::Debug));
    r.push(entry("Toggle breakpoint", "ブレークポイント切り替え", "F9", "F9", "F9", ShortcutCategory::Debug));
    r.push(entry("Step over", "ステップオーバー", "F10", "F10", "F10", ShortcutCategory::Debug));
    r.push(entry("Step into", "ステップイン", "F11", "F11", "F11", ShortcutCategory::Debug));
    r.push(entry("Step out", "ステップアウト", "Shift+F11", "Shift+F11", "Shift+F11", ShortcutCategory::Debug));
    r.push(entry("Stop debugging", "デバッグ停止", "Shift+F5", "Shift+F5", "Shift+F5", ShortcutCategory::Debug));
    r.push(entry("Toggle terminal", "ターミナル切り替え", "Ctrl+`", "Ctrl+`", "Ctrl+`", ShortcutCategory::Terminal));
    r.push(entry("New terminal", "新しいターミナル", "Ctrl+Shift+`", "Ctrl+Shift+`", "Ctrl+Shift+`", ShortcutCategory::Terminal));
    r.push(entry("Toggle sidebar", "サイドバー切り替え", "Cmd+B", "Ctrl+B", "Ctrl+B", ShortcutCategory::View));
    r.push(entry("Explorer", "エクスプローラー", "Cmd+Shift+E", "Ctrl+Shift+E", "Ctrl+Shift+E", ShortcutCategory::View));
    r.push(entry("Source control", "ソース管理", "Ctrl+Shift+G", "Ctrl+Shift+G", "Ctrl+Shift+G", ShortcutCategory::View));
    r.push(entry("Extensions", "拡張機能", "Cmd+Shift+X", "Ctrl+Shift+X", "Ctrl+Shift+X", ShortcutCategory::View));
    r.push(entry("Zoom in", "拡大", "Cmd+=", "Ctrl+=", "Ctrl+=", ShortcutCategory::View));
    r.push(entry("Zoom out", "縮小", "Cmd+-", "Ctrl+-", "Ctrl+-", ShortcutCategory::View));
    r.push(entry("Split editor", "エディター分割", "Cmd+\\", "Ctrl+\\", "Ctrl+\\", ShortcutCategory::View));
    r.push(entry("New file", "新規ファイル", "Cmd+N", "Ctrl+N", "Ctrl+N", ShortcutCategory::File));
    r.push(entry("Save", "保存", "Cmd+S", "Ctrl+S", "Ctrl+S", ShortcutCategory::File));
    r.push(entry("Save as", "名前を付けて保存", "Cmd+Shift+S", "Ctrl+Shift+S", "Ctrl+Shift+S", ShortcutCategory::File));
    r.push(entry("Close tab", "タブを閉じる", "Cmd+W", "Ctrl+W", "Ctrl+W", ShortcutCategory::File));
    r.push(entry("Reopen closed tab", "閉じたタブを再度開く", "Cmd+Shift+T", "Ctrl+Shift+T", "Ctrl+Shift+T", ShortcutCategory::File));
    r.push(entry("Open settings", "設定を開く", "Cmd+,", "Ctrl+,", "Ctrl+,", ShortcutCategory::File));
    assert(shortcut_views(r@) =~= vscode_table());
    r
}


/// The shortcuts of IntelliJ, in the order listed.
pub open spec fn intellij_table() -> Seq<ShortcutView> {
    seq![
        sc("Duplicate line", "行の複製", "Cmd+D", "Ctrl+D", "Ctrl+D", ShortcutCategory::Editing),
        sc("Delete line", "行の削除", "Cmd+Backspace", "Ctrl+Y", "Ctrl+Y", ShortcutCategory::Editing),
        sc("Move line up", "行を上に移動", "Shift+Option+\u{2191}", "Shift+Alt+\u{2191}", "Shift+Alt+\u{2191}", ShortcutCategory::Editing),
        sc("Move line down", "行を下に移動", "Shift+Option+\u{2193}", "Shift+Alt+\u{2193}", "Shift+Alt+\u{2193}", ShortcutCategory::Editing),
        sc("Comment line", "行コメント", "Cmd+/", "Ctrl+/", "Ctrl+/", ShortcutCategory::Editing),
        sc("Block comment", "ブロックコメント", "Cmd+Shift+/", "Ctrl+Shift+/", "Ctrl+Shift+/", ShortcutCategory::Editing),
        sc("Reformat code", "コード整形", "Cmd+Option+L", "Ctrl+Alt+L", "Ctrl+Alt+L", ShortcutCategory::Editing),
        sc("Optimize imports", "インポート最適化", "Ctrl+Option+O", "Ctrl+Alt+O", "Ctrl+Alt+O", ShortcutCategory::Editing),
        sc("Complete code", "コード補完", "Ctrl+Space", "Ctrl+Space", "Ctrl+Space", ShortcutCategory::Editing),
        sc("Smart completion", "スマート補完", "Ctrl+Shift+Space", "Ctrl+Shift+Space", "Ctrl+Shift+Space", ShortcutCategory::Editing),
        sc("Generate code", "コード生成", "Cmd+N", "Alt+Insert", "Alt+Insert", ShortcutCategory::Editing),
        sc("Surround with", "囲む", "Cmd+Option+T", "Ctrl+Alt+T", "Ctrl+Alt+T", ShortcutCategory::Editing),
        sc("Rename", "名前変更", "Shift+F6", "Shift+F6", "Shift+F6", ShortcutCategory::Editing),
        sc("Extract variable", "変数の抽出", "Cmd+Option+V", "Ctrl+Alt+V", "Ctrl+Alt+V", ShortcutCategory::Editing),
        sc("Extract method", "メソッドの抽出", "Cmd+Option+M", "Ctrl+Alt+M", "Ctrl+Alt+M", ShortcutCategory::Editing),
        sc("Go to class", "クラスに移動", "Cmd+O", "Ctrl+N", "Ctrl+N", ShortcutCategory::Navigation),
        sc("Go to file", "ファイルに移動", "Cmd+Shift+O", "Ctrl+Shift+N", "Ctrl+Shift+N", ShortcutCategory::Navigation),
        sc("Go to symbol", "シンボルに移動", "Cmd+Option+O", "Ctrl+Alt+Shift+N", "Ctrl+Alt+Shift+N", ShortcutCategory::Navigation),
        sc("Go to declaration", "宣言に移動", "Cmd+B", "Ctrl+B", "Ctrl+B", ShortcutCategory::Navigation),
        sc("Go to implementation", "実装に移動", "Cmd+Option+B", "Ctrl+Alt+B", "Ctrl+Alt+B", ShortcutCategory::Navigation),
        sc("Go to line", "行に移動", "Cmd+L", "Ctrl+G", "Ctrl+G", ShortcutCategory::Navigation),
        sc("Recent files", "最近のファイル", "Cmd+E", "Ctrl+E", "Ctrl+E", ShortcutCategory::Navigation),
        sc("Navigate back", "前の位置に戻る", "Cmd+[", "Ctrl+Alt+\u{2190}", "Ctrl+Alt+\u{2190}", ShortcutCategory::Navigation),
        sc("Navigate forward", "次の位置に進む", "Cmd+]", "Ctrl+Alt+\u{2192}", "Ctrl+Alt+\u{2192}", ShortcutCategory::Navigation),
        sc("Find usages", "使用箇所を検索", "Option+F7", "Alt+F7", "Alt+F7", ShortcutCategory::Navigation),
        sc("Search everywhere", "どこでも検索", "Shift+Shift", "Shift+Shift", "Shift+Shift", ShortcutCategory::Search),
        sc("Find", "検索", "Cmd+F", "Ctrl+F", "Ctrl+F", ShortcutCategory::Search),
        sc("Replace", "置換", "Cmd+R", "Ctrl+R", "Ctrl+R", ShortcutCategory::Search),
        sc("Find in path", "パス内を検索", "Cmd+Shift+F", "Ctrl+Shift+F", "Ctrl+Shift+F", ShortcutCategory::Search),
        sc("Replace in path", "パス内を置換", "Cmd+Shift+R", "Ctrl+Shift+R", "Ctrl+Shift+R", ShortcutCategory::Search),
        sc("Find action", "アクション検索", "Cmd+Shift+A", "Ctrl+Shift+A", "Ctrl+Shift+A", ShortcutCategory::Search),
        sc("Debug", "デバッグ実行", "Ctrl+D", "Shift+F9", "Shift+F9", ShortcutCategory::Debug),
        sc("Run", "実行", "Ctrl+R", "Shift+F10", "Shift+F10", ShortcutCategory::Debug),
        sc("Toggle breakpoint", "ブレークポイント切り替え", "Cmd+F8", "Ctrl+F8", "Ctrl+F8", ShortcutCategory::Debug),
        sc("Step over", "ステップオーバー", "F8", "F8", "F8", ShortcutCategory::Debug),
        sc("Step into", "ステップイン", "F7", "F7", "F7", ShortcutCategory::Debug),
        sc("Step out", "ステップアウト", "Shift+F8", "Shift+F8", "Shift+F8", ShortcutCategory::Debug),
        sc("Resume program", "プログラム再開", "Cmd+Option+R", "F9", "F9", ShortcutCategory::Debug),
        sc("Project view", "プロジェクトビュー", "Cmd+1", "Alt+1", "Alt+1", ShortcutCategory::View),
        sc("Structure view", "構造ビュー", "Cmd+7", "Alt+7", "Alt+7", ShortcutCategory::View),
        sc("Terminal", "ターミナル", "Option+F12", "Alt+F12", "Alt+F12", ShortcutCategory::Terminal),
        sc("Version control", "バージョン管理", "Cmd+9", "Alt+9", "Alt+9", ShortcutCategory::View),
        sc("Save all", "すべて保存", "Cmd+S", "Ctrl+S", "Ctrl+S", ShortcutCategory::File),
        sc("Close tab", "タブを閉じる", "Cmd+W", "Ctrl+F4", "Ctrl+F4", ShortcutCategory::File),
        sc("Open settings", "設定を開く", "Cmd+,", "Ctrl+Alt+S", "Ctrl+Alt+S", ShortcutCategory::File),
    ]
}

/// The shortcuts of IntelliJ, in the order listed.
pub fn get_intellij_shortcuts() -> (r: Vec<ShortcutEntry>)
    ensures
        shortcut_views(r@) == intellij_table(),
{
    let mut r: Vec<ShortcutEntry> = Vec::new();
    r.push(entry("Duplicate line", "行の複製", "Cmd+D", "Ctrl+D", "Ctrl+D", ShortcutCategory::Editing));
    r.push(entry("Delete line", "行の削除", "Cmd+Backspace", "Ctrl+Y", "Ctrl+Y", ShortcutCategory::Editing));
    r.push(entry("Move line up", "行を上に移動", "Shift+Option+\u{2191}", "Shift+Alt+\u{2191}", "Shift+Alt+\u{2191}", ShortcutCategory::Editing));
    r.push(entry("Move line down", "行を下に移動", "Shift+Option+\u{2193}", "Shift+Alt+\u{2193}", "Shift+Alt+\u{2193}", ShortcutCategory::Editing));
    r.push(entry("Comment line", "行コメント", "Cmd+/", "Ctrl+/", "Ctrl+/", ShortcutCategory::Editing));
    r.push(entry("Block comment", "ブロックコメント", "Cmd+Shift+/", "Ctrl+Shift+/", "Ctrl+Shift+/", ShortcutCategory::Editing));
    r.push(entry("Reformat code", "コード整形", "Cmd+Option+L", "Ctrl+Alt+L", "Ctrl+Alt+L", ShortcutCategory::Editing));
    r.push(entry("Optimize imports", "インポート最適化", "Ctrl+Option+O", "Ctrl+Alt+O", "Ctrl+Alt+O", ShortcutCategory::Editing));
    r.push(entry("Complete code", "コード補完", "Ctrl+Space", "Ctrl+Space", "Ctrl+Space", ShortcutCategory::Editing));
    r.push(entry("Smart completion", "スマート補完", "Ctrl+Shift+Space", "Ctrl+Shift+Space", "Ctrl+Shift+Space", ShortcutCategory::Editing));
    r.push(entry("Generate code", "コード生成", "Cmd+N", "Alt+Insert", "Alt+Insert", ShortcutCategory::Editing));
    r.push(entry("Surround with", "囲む", "Cmd+Option+T", "Ctrl+Alt+T", "Ctrl+Alt+T", ShortcutCategory::Editing));
    r.push(entry("Rename", "名前変更", "Shift+F6", "Shift+F6", "Shift+F6", ShortcutCategory::Editing));
    r.push(entry("Extract variable", "変数の抽出", "Cmd+Option+V", "Ctrl+Alt+V", "Ctrl+Alt+V", ShortcutCategory::Editing));
    r.push(entry("Extract method", "メソッドの抽出", "Cmd+Option+M", "Ctrl+Alt+M", "Ctrl+Alt+M", ShortcutCategory::Editing));
    r.push(entry("Go to class", "クラスに移動", "Cmd+O", "Ctrl+N", "Ctrl+N", ShortcutCategory::Navigation));
    r.push(entry("Go to file", "ファイルに移動", "Cmd+Shift+O", "Ctrl+Shift+N", "Ctrl+Shift+N", ShortcutCategory::Navigation));
    r.push(entry("Go to symbol", "シンボルに移動", "Cmd+Option+O", "Ctrl+Alt+Shift+N", "Ctrl+Alt+Shift+N", ShortcutCategory::Navigation));
    r.push(entry("Go to declaration", "宣言に移動", "Cmd+B", "Ctrl+B", "Ctrl+B", ShortcutCategory::Navigation));
    r.push(entry("Go to implementation", "実装に移動", "Cmd+Option+B", "Ctrl+Alt+B", "Ctrl+Alt+B", ShortcutCategory::Navigation));
    r.push(entry("Go to line", "行に移動", "Cmd+L", "Ctrl+G", "Ctrl+G", ShortcutCategory::Navigation));
    r.push(entry("Recent files", "最近のファイル", "Cmd+E", "Ctrl+E", "Ctrl+E", ShortcutCategory::Navigation));
    r.push(entry("Navigate back", "前の位置に戻る", "Cmd+[", "Ctrl+Alt+\u{2190}", "Ctrl+Alt+\u{2190}", ShortcutCategory::Navigation));
    r.push(entry("Navigate forward", "次の位置に進む", "Cmd+]", "Ctrl+Alt+\u{2192}", "Ctrl+Alt+\u{2192}", ShortcutCategory::Navigation));
    r.push(entry("Find usages", "使用箇所を検索", "Option+F7", "Alt+F7", "Alt+F7", ShortcutCategory::Navigation));
    r.push(entry("Search everywhere", "どこでも検索", "Shift+Shift", "Shift+Shift", "Shift+Shift", ShortcutCategory::Search));
    r.push(entry("Find", "検索", "Cmd+F", "Ctrl+F", "Ctrl+F", ShortcutCategory::Search));
    r.push(entry("Replace", "置換", "Cmd+R", "Ctrl+R", "Ctrl+R", ShortcutCategory::Search));
    r.push(entry("Find in path", "パス内を検索", "Cmd+Shift+F", "Ctrl+Shift+F", "Ctrl+Shift+F", ShortcutCategory::Search));
    r.push(entry("Replace in path", "パス内を置換", "Cmd+Shift+R", "Ctrl+Shift+R", "Ctrl+Shift+R", ShortcutCategory::Search));
    r.push(entry("Find action", "アクション検索", "Cmd+Shift+A", "Ctrl+Shift+A", "Ctrl+Shift+A", ShortcutCategory::Search));
    r.push(entry("Debug", "デバッグ実行", "Ctrl+D", "Shift+F9", "Shift+F9", ShortcutCategory::Debug));
    r.push(entry("Run", "実行", "Ctrl+R", "Shift+F10", "Shift+F10", ShortcutCategory::Debug));
    r.push(entry("Toggle breakpoint", "ブレークポイント切り替え", "Cmd+F8", "Ctrl+F8", "Ctrl+F8", ShortcutCategory::Debug));
    r.push(entry("Step over", "ステップオーバー", "F8", "F8", "F8", ShortcutCategory::Debug));
    r.push(entry("Step into", "ステップイン", "F7", "F7", "F7", ShortcutCategory::Debug));
    r.push(entry("Step out", "ステップアウト", "Shift+F8", "Shift+F8", "Shift+F8", ShortcutCategory::Debug));
    r.push(entry("Resume program", "プログラム再開", "Cmd+Option+R", "F9", "F9", ShortcutCategory::Debug));
    r.push(entry("Project view", "プロジェクトビュー", "Cmd+1", "Alt+1", "Alt+1", ShortcutCategory::View));
    r.push(entry("Structure view", "構造ビュー", "Cmd+7", "Alt+7", "Alt+7", ShortcutCategory::View));
    r.push(entry("Terminal", "ターミナル", "Option+F12", "Alt+F12", "Alt+F12", ShortcutCategory::Terminal));
    r.push(entry("Version control", "バージョン管理", "Cmd+9", "Alt+9", "Alt+9", ShortcutCategory::View));
    r.push(entry("Save all", "すべて保存", "Cmd+S", "Ctrl+S", "Ctrl+S", ShortcutCategory::File));
    r.push(entry("Close tab", "タブを閉じる", "Cmd+W", "Ctrl+F4", "Ctrl+F4", ShortcutCategory::File));
    r.push(entry("Open settings", "設定を開く", "Cmd+,", "Ctrl+Alt+S", "Ctrl+Alt+S", ShortcutCategory::File));
    assert(shortcut_views(r@) =~= intellij_table());
    r
}


/// The shortcuts of Vim, in the order listed.
pub open spec fn vim_table() -> Seq<ShortcutView> {
    seq![
        sc("Insert mode", "挿入モード", "i", "i", "i", ShortcutCategory::Editing),
        sc("Append after cursor", "カーソルの後に追加", "a", "a", "a", ShortcutCategory::Editing),
        sc("Open line below", "下に行を追加", "o", "o", "o", ShortcutCategory::Editing),
        sc("Open line above", "上に行を追加", "O", "O", "O", ShortcutCategory::Editing),
        sc("Delete character", "文字削除", "x", "x", "x", ShortcutCategory::Editing),
        sc("Delete word", "単語削除", "dw", "dw", "dw", ShortcutCategory::Editing),
        sc("Delete line", "行削除", "dd", "dd", "dd", ShortcutCategory::Editing),
        sc("Yank (copy) line", "行をコピー", "yy", "yy", "yy", ShortcutCategory::Editing),
        sc("Paste after", "後に貼り付け", "p", "p", "p", ShortcutCategory::Editing),
        sc("Paste before", "前に貼り付け", "P", "P", "P", ShortcutCategory::Editing),
        sc("Undo", "元に戻す", "u", "u", "u", ShortcutCategory::Editing),
        sc("Redo", "やり直し", "Ctrl+R", "Ctrl+R", "Ctrl+R", ShortcutCategory::Editing),
        sc("Replace character", "文字置換", "r", "r", "r", ShortcutCategory::Editing),
        sc("Change word", "単語を変更", "cw", "cw", "cw", ShortcutCategory::Editing),
        sc("Change line", "行を変更", "cc", "cc", "cc", ShortcutCategory::Editing),
        sc("Visual mode", "ビジュアルモード", "v", "v", "v", ShortcutCategory::Editing),
        sc("Visual line mode", "ビジュアル行モード", "V", "V", "V", ShortcutCategory::Editing),
        sc("Visual block mode", "ビジュアルブロックモード", "Ctrl+V", "Ctrl+V", "Ctrl+V", ShortcutCategory::Editing),
        sc("Indent", "インデント", ">>", ">>", ">>", ShortcutCategory::Editing),
        sc("Outdent", "アウトデント", "<<", "<<", "<<", ShortcutCategory::Editing),
        sc("Move to line start", "行頭に移動", "0", "0", "0", ShortcutCategory::Navigation),
        sc("Move to first non-blank", "最初の非空白文字", "^", "^", "^", ShortcutCategory::Navigation),
        sc("Move to line end", "行末に移動", "$", "$", "$", ShortcutCategory::Navigation),
        sc("Next word", "次の単語", "w", "w", "w", ShortcutCategory::Navigation),
        sc("Previous word", "前の単語", "b", "b", "b", ShortcutCategory::Navigation),
        sc("Go to file top", "ファイル先頭に移動", "gg", "gg", "gg", ShortcutCategory::Navigation),
        sc("Go to file bottom", "ファイル末尾に移動", "G", "G", "G", ShortcutCategory::Navigation),
        sc("Go to line N", "N行目に移動", ":N", ":N", ":N", ShortcutCategory::Navigation),
        sc("Match bracket", "対応する括弧に移動", "%", "%", "%", ShortcutCategory::Navigation),
        sc("Page down", "ページダウン", "Ctrl+F", "Ctrl+F", "Ctrl+F", ShortcutCategory::Navigation),
        sc("Page up", "ページアップ", "Ctrl+B", "Ctrl+B", "Ctrl+B", ShortcutCategory::Navigation),
        sc("Search forward", "前方検索", "/pattern", "/pattern", "/pattern", ShortcutCategory::Search),
        sc("Search backward", "後方検索", "?pattern", "?pattern", "?pattern", ShortcutCategory::Search),
        sc("Next match", "次の一致", "n", "n", "n", ShortcutCategory::Search),
        sc("Previous match", "前の一致", "N", "N", "N", ShortcutCategory::Search),
        sc("Search & replace", "検索と置換", ":%s/old/new/g", ":%s/old/new/g", ":%s/old/new/g", ShortcutCategory::Search),
        sc("Search word under cursor", "カーソル下の単語を検索", "*", "*", "*", ShortcutCategory::Search),
        sc("Save", "保存", ":w", ":w", ":w", ShortcutCategory::File),
        sc("Quit", "終了", ":q", ":q", ":q", ShortcutCategory::File),
        sc("Save & quit", "保存して終了", ":wq", ":wq", ":wq", ShortcutCategory::File),
        sc("Force quit", "強制終了", ":q!", ":q!", ":q!", ShortcutCategory::File),
        sc("Open file", "ファイルを開く", ":e filename", ":e filename", ":e filename", ShortcutCategory::File),
        sc("Split horizontal", "水平分割", ":sp", ":sp", ":sp", ShortcutCategory::View),
        sc("Split vertical", "垂直分割", ":vsp", ":vsp", ":vsp", ShortcutCategory::View),
        sc("Switch window", "ウィンドウ切り替え", "Ctrl+W, W", "Ctrl+W, W", "Ctrl+W, W", ShortcutCategory::View),
    ]
}

/// The shortcuts of Vim, in the order listed.
pub fn get_vim_shortcuts() -> (r: Vec<ShortcutEntry>)
    ensures
        shortcut_views(r@) == vim_table(),
{
    let mut r: Vec<ShortcutEntry> = Vec::new();
    r.push(entry("Insert mode", "挿入モード", "i", "i", "i", ShortcutCategory::Editing));
    r.push(entry("Append after cursor", "カーソルの後に追加", "a", "a", "a", ShortcutCategory::Editing));
    r.push(entry("Open line below", "下に行を追加", "o", "o", "o", ShortcutCategory::Editing));
    r.push(entry("Open line above", "上に行を追加", "O", "O", "O", ShortcutCategory::Editing));
    r.push(entry("Delete character", "文字削除", "x", "x", "x", ShortcutCategory::Editing));
    r.push(entry("Delete word", "単語削除", "dw", "dw", "dw", ShortcutCategory::Editing));
    r.push(entry("Delete line", "行削除", "dd", "dd", "dd", ShortcutCategory::Editing));
    r.push(entry("Yank (copy) line", "行をコピー", "yy", "yy", "yy", ShortcutCategory::Editing));
    r.push(entry("Paste after", "後に貼り付け", "p", "p", "p", ShortcutCategory::Editing));
    r.push(entry("Paste before", "前に貼り付け", "P", "P", "P", ShortcutCategory::Editing));
    r.push(entry("Undo", "元に戻す", "u", "u", "u", ShortcutCategory::Editing));
    r.push(entry("Redo", "やり直し", "Ctrl+R", "Ctrl+R", "Ctrl+R", ShortcutCategory::Editing));
    r.push(entry("Replace character", "文字置換", "r", "r", "r", ShortcutCategory::Editing));
    r.push(entry("Change word", "単語を変更", "cw", "cw", "cw", ShortcutCategory::Editing));
    r.push(entry("Change line", "行を変更", "cc", "cc", "cc", ShortcutCategory::Editing));
    r.push(entry("Visual mode", "ビジュアルモード", "v", "v", "v", ShortcutCategory::Editing));
    r.push(entry("Visual line mode", "ビジュアル行モード", "V", "V", "V", ShortcutCategory::Editing));
    r.push(entry("Visual block mode", "ビジュアルブロックモード", "Ctrl+V", "Ctrl+V", "Ctrl+V", ShortcutCategory::Editing));
    r.push(entry("Indent", "インデント", ">>", ">>", ">>", ShortcutCategory::Editing));
    r.push(entry("Outdent", "アウトデント", "<<", "<<", "<<", ShortcutCategory::Editing));
    r.push(entry("Move to line start", "行頭に移動", "0", "0", "0", ShortcutCategory::Navigation));
    r.push(entry("Move to first non-blank", "最初の非空白文字", "^", "^", "^", ShortcutCategory::Navigation));
    r.push(entry("Move to line end", "行末に移動", "$", "$", "$", ShortcutCategory::Navigation));
    r.push(entry("Next word", "次の単語", "w", "w", "w", ShortcutCategory::Navigation));
    r.push(entry("Previous word", "前の単語", "b", "b", "b", ShortcutCategory::Navigation));
    r.push(entry("Go to file top", "ファイル先頭に移動", "gg", "gg", "gg", ShortcutCategory::Navigation));
    r.push(entry("Go to file bottom", "ファイル末尾に移動", "G", "G", "G", ShortcutCategory::Navigation));
    r.push(entry("Go to line N", "N行目に移動", ":N", ":N", ":N", ShortcutCategory::Navigation));
    r.push(entry("Match bracket", "対応する括弧に移動", "%", "%", "%", ShortcutCategory::Navigation));
    r.push(entry("Page down", "ページダウン", "Ctrl+F", "Ctrl+F", "Ctrl+F", ShortcutCategory::Navigation));
    r.push(entry("Page up", "ページアップ", "Ctrl+B", "Ctrl+B", "Ctrl+B", ShortcutCategory::Navigation));
    r.push(entry("Search forward", "前方検索", "/pattern", "/pattern", "/pattern", ShortcutCategory::Search));
    r.push(entry("Search backward", "後方検索", "?pattern", "?pattern", "?pattern", ShortcutCategory::Search));
    r.push(entry("Next match", "次の一致", "n", "n", "n", ShortcutCategory::Search));
    r.push(entry("Previous match", "前の一致", "N", "N", "N", ShortcutCategory::Search));
    r.push(entry("Search & replace", "検索と置換", ":%s/old/new/g", ":%s/old/new/g", ":%s/old/new/g", ShortcutCategory::Search));
    r.push(entry("Search word under cursor", "カーソル下の単語を検索", "*", "*", "*", ShortcutCategory::Search));
    r.push(entry("Save", "保存", ":w", ":w", ":w", ShortcutCategory::File));
    r.push(entry("Quit", "終了", ":q", ":q", ":q", ShortcutCategory::File));
    r.push(entry("Save & quit", "保存して終了", ":wq", ":wq", ":wq", ShortcutCategory::File));
    r.push(entry("Force quit", "強制終了", ":q!", ":q!", ":q!", ShortcutCategory::File));
    r.push(entry("Open file", "ファイルを開く", ":e filename", ":e filename", ":e filename", ShortcutCategory::File));
    r.push(entry("Split horizontal", "水平分割", ":sp", ":sp", ":sp", ShortcutCategory::View));
    r.push(entry("Split vertical", "垂直分割", ":vsp", ":vsp", ":vsp", ShortcutCategory::View));
    r.push(entry("Switch window", "ウィンドウ切り替え", "Ctrl+W, W", "Ctrl+W, W", "Ctrl+W, W", ShortcutCategory::View));
    assert(shortcut_views(r@) =~= vim_table());
    r
}


/// The shortcuts of the terminal, in the order listed.
pub open spec fn terminal_table() -> Seq<ShortcutView> {
    seq![
        sc("Move to line start", "行頭に移動", "Ctrl+A", "Home", "Ctrl+A", ShortcutCategory::Navigation),
        sc("Move to line end", "行末に移動", "Ctrl+E", "End", "Ctrl+E", ShortcutCategory::Navigation),
        sc("Move forward word", "次の単語に移動", "Option+F", "Ctrl+\u{2192}", "Alt+F", ShortcutCategory::Navigation),
        sc("Move backward word", "前の単語に移動", "Option+B", "Ctrl+\u{2190}", "Alt+B", ShortcutCategory::Navigation),
        sc("Previous command", "前のコマンド", "Ctrl+P / \u{2191}", "\u{2191}", "Ctrl+P / \u{2191}", ShortcutCategory::Navigation),
        sc("Next command", "次のコマンド", "Ctrl+N / \u{2193}", "\u{2193}", "Ctrl+N / \u{2193}", ShortcutCategory::Navigation),
        sc("Delete char before cursor", "カーソル前の文字を削除", "Ctrl+H", "Backspace", "Ctrl+H", ShortcutCategory::Editing),
        sc("Delete char after cursor", "カーソル後の文字を削除", "Ctrl+D", "Delete", "Ctrl+D", ShortcutCategory::Editing),
        sc("Delete word before cursor", "カーソル前の単語を削除", "Ctrl+W", "Ctrl+Backspace", "Ctrl+W", ShortcutCategory::Editing),
        sc("Delete to line start", "行頭まで削除", "Ctrl+U", "Ctrl+U", "Ctrl+U", ShortcutCategory::Editing),
        sc("Delete to line end", "行末まで削除", "Ctrl+K", "Ctrl+K", "Ctrl+K", ShortcutCategory::Editing),
        sc("Paste (yank)", "貼り付け（ヤンク）", "Ctrl+Y", "Ctrl+Y", "Ctrl+Y", ShortcutCategory::Editing),
        sc("Swap characters", "文字の入れ替え", "Ctrl+T", "Ctrl+T", "Ctrl+T", ShortcutCategory::Editing),
        sc("Uppercase word", "単語を大文字に", "Option+U", "Alt+U", "Alt+U", ShortcutCategory::Editing),
        sc("Lowercase word", "単語を小文字に", "Option+L", "Alt+L", "Alt+L", ShortcutCategory::Editing),
        sc("Reverse search history", "履歴を逆方向検索", "Ctrl+R", "Ctrl+R", "Ctrl+R", ShortcutCategory::Search),
        sc("Forward search history", "履歴を順方向検索", "Ctrl+S", "Ctrl+S", "Ctrl+S", ShortcutCategory::Search),
        sc("Clear screen", "画面クリア", "Ctrl+L", "cls", "Ctrl+L", ShortcutCategory::Terminal),
        sc("Cancel command", "コマンド中止", "Ctrl+C", "Ctrl+C", "Ctrl+C", ShortcutCategory::Terminal),
        sc("EOF / Exit", "EOF / 終了", "Ctrl+D", "Ctrl+D", "Ctrl+D", ShortcutCategory::Terminal),
        sc("Suspend process", "プロセスの一時停止", "Ctrl+Z", "Ctrl+Z", "Ctrl+Z", ShortcutCategory::Terminal),
        sc("New tab", "新しいタブ", "Cmd+T", "Ctrl+Shift+T", "Ctrl+Shift+T", ShortcutCategory::Terminal),
        sc("Close tab", "タブを閉じる", "Cmd+W", "Ctrl+Shift+W", "Ctrl+Shift+W", ShortcutCategory::Terminal),
        sc("Copy", "コピー", "Cmd+C", "Ctrl+Shift+C", "Ctrl+Shift+C", ShortcutCategory::Terminal),
        sc("Paste", "貼り付け", "Cmd+V", "Ctrl+Shift+V", "Ctrl+Shift+V", ShortcutCategory::Terminal),
    ]
}

/// The shortcuts of the terminal, in the order listed.
pub fn get_terminal_shortcuts() -> (r: Vec<ShortcutEntry>)
    ensures
        shortcut_views(r@) == terminal_table(),
{
    let mut r: Vec<ShortcutEntry> = Vec::new();
    r.push(entry("Move to line start", "行頭に移動", "Ctrl+A", "Home", "Ctrl+A", ShortcutCategory::Navigation));
    r.push(entry("Move to line end", "行末に移動", "Ctrl+E", "End", "Ctrl+E", ShortcutCategory::Navigation));
    r.push(entry("Move forward word", "次の単語に移動", "Option+F", "Ctrl+\u{2192}", "Alt+F", ShortcutCategory::Navigation));
    r.push(entry("Move backward word", "前の単語に移動", "Option+B", "Ctrl+\u{2190}", "Alt+B", ShortcutCategory::Navigation));
    r.push(entry("Previous command", "前のコマンド", "Ctrl+P / \u{2191}", "\u{2191}", "Ctrl+P / \u{2191}", ShortcutCategory::Navigation));
    r.push(entry("Next command", "次のコマンド", "Ctrl+N / \u{2193}", "\u{2193}", "Ctrl+N / \u{2193}", ShortcutCategory::Navigation));
    r.push(entry("Delete char before cursor", "カーソル前の文字を削除", "Ctrl+H", "Backspace", "Ctrl+H", ShortcutCategory::Editing));
    r.push(entry("Delete char after cursor", "カーソル後の文字を削除", "Ctrl+D", "Delete", "Ctrl+D", ShortcutCategory::Editing));
    r.push(entry("Delete word before cursor", "カーソル前の単語を削除", "Ctrl+W", "Ctrl+Backspace", "Ctrl+W", ShortcutCategory::Editing));
    r.push(entry("Delete to line start", "行頭まで削除", "Ctrl+U", "Ctrl+U", "Ctrl+U", ShortcutCategory::Editing));
    r.push(entry("Delete to line end", "行末まで削除", "Ctrl+K", "Ctrl+K", "Ctrl+K", ShortcutCategory::Editing));
    r.push(entry("Paste (yank)", "貼り付け（ヤンク）", "Ctrl+Y", "Ctrl+Y", "Ctrl+Y", ShortcutCategory::Editing));
    r.push(entry("Swap characters", "文字の入れ替え", "Ctrl+T", "Ctrl+T", "Ctrl+T", ShortcutCategory::Editing));
    r.push(entry("Uppercase word", "単語を大文字に", "Option+U", "Alt+U", "Alt+U", ShortcutCategory::Editing));
    r.push(entry("Lowercase word", "単語を小文字に", "Option+L", "Alt+L", "Alt+L", ShortcutCategory::Editing));
    r.push(entry("Reverse search history", "履歴を逆方向検索", "Ctrl+R", "Ctrl+R", "Ctrl+R", ShortcutCategory::Search));
    r.push(entry("Forward search history", "履歴を順方向検索", "Ctrl+S", "Ctrl+S", "Ctrl+S", ShortcutCategory::Search));
    r.push(entry("Clear screen", "画面クリア", "Ctrl+L", "cls", "Ctrl+L", ShortcutCategory::Terminal));
    r.push(entry("Cancel command", "コマンド中止", "Ctrl+C", "Ctrl+C", "Ctrl+C", ShortcutCategory::Terminal));
    r.push(entry("EOF / Exit", "EOF / 終了", "Ctrl+D", "Ctrl+D", "Ctrl+D", ShortcutCategory::Terminal));
    r.push(entry("Suspend process", "プロセスの一時停止", "Ctrl+Z", "Ctrl+Z", "Ctrl+Z", ShortcutCategory::Terminal));
    r.push(entry("New tab", "新しいタブ", "Cmd+T", "Ctrl+Shift+T", "Ctrl+Shift+T", ShortcutCategory::Terminal));
    r.push(entry("Close tab", "タブを閉じる", "Cmd+W", "Ctrl+Shift+W", "Ctrl+Shift+W", ShortcutCategory::Terminal));
    r.push(entry("Copy", "コピー", "Cmd+C", "Ctrl+Shift+C", "Ctrl+Shift+C", ShortcutCategory::Terminal));
    r.push(entry("Paste", "貼り付け", "Cmd+V", "Ctrl+Shift+V", "Ctrl+Shift+V", ShortcutCategory::Terminal));
    assert(shortcut_views(r@) =~= terminal_table());
    r
}


/// The shortcuts of an application.
pub open spec fn shortcuts_of(app: AppType) -> Seq<ShortcutView> {
    match app {
        AppType::VSCode => vscode_table(),
        AppType::IntelliJ => intellij_table(),
        AppType::Vim => vim_table(),
        AppType::Terminal => terminal_table(),
    }
}

/// The shortcuts of an application.
pub fn get_shortcuts(app: AppType) -> (r: Vec<ShortcutEntry>)
    ensures
        shortcut_views(r@) == shortcuts_of(app),
{
    match app {
        AppType::VSCode => get_vscode_shortcuts(),
        AppType::IntelliJ => get_intellij_shortcuts(),
        AppType::Vim => get_vim_shortcuts(),
        AppType::Terminal => get_terminal_shortcuts(),
    }
}

/// The keys of a shortcut on a system.
pub open spec fn key_for(e: ShortcutView, os: OsType) -> Seq<char> {
    match os {
        OsType::Mac => e.key_mac,
        OsType::Windows => e.key_win,
        OsType::Linux => e.key_linux,
    }
}

/// The keys of a shortcut on a system.
pub fn get_key_for_os(e: &ShortcutEntry, os: OsType) -> (s: &'static str)
    ensures
        s@ == key_for(e@, os),
{
    match os {
        OsType::Mac => e.key_mac,
        OsType::Windows => e.key_win,
        OsType::Linux => e.key_linux,
    }
}

/// The action of a shortcut in a language: Japanese for `ja`, else English.
pub open spec fn action_for(e: ShortcutView, lang: Seq<char>) -> Seq<char> {
    if lang == "ja"@ {
        e.action_ja
    } else {
        e.action_en
    }
}

/// The action of a shortcut in a language.
pub fn get_action_for_lang(e: &ShortcutEntry, lang: &str) -> (s: String)
    ensures
        s@ == action_for(e@, lang@),
{
    if same_text(lang, "ja") {
        e.action_ja.to_string()
    } else {
        e.action_en.to_string()
    }
}

/// The language of the page, told by how it translates the copy button:
/// `ja` for "コピー", else `en`.
pub open spec fn page_lang(copy_label: Seq<char>) -> Seq<char> {
    if copy_label == "コピー"@ {
        "ja"@
    } else {
        "en"@
    }
}

/// The language of the page, told by how it translates the copy button.
pub fn lang_of_copy_label(copy_label: &str) -> (s: &'static str)
    ensures
        s@ == page_lang(copy_label@),
{
    if same_text(copy_label, "コピー") {
        "ja"
    } else {
        "en"
    }
}

/// Whether a shortcut is listed: it is in the chosen group (any for `All`),
/// and for a search, its action in the page's language, its English action
/// or its keys on the chosen system contain the search, all lower-cased.
pub open spec fn shortcut_shown(
    e: ShortcutView,
    category: ShortcutCategory,
    query: Seq<char>,
    os: OsType,
    lang: Seq<char>,
) -> bool {
    &&& (category == ShortcutCategory::All || e.category == category)
    &&& (query.len() > 0 ==> {
        let q = lower(query);
        contains(lower(action_for(e, lang)), q) || contains(lower(e.action_en), q) || contains(
            lower(key_for(e, os)),
            q,
        )
    })
}

/// The places, in order, of the listed shortcuts.
pub open spec fn shown_shortcuts(
    es: Seq<ShortcutView>,
    category: ShortcutCategory,
    query: Seq<char>,
    os: OsType,
    lang: Seq<char>,
) -> Seq<nat>
    decreases es.len(),
{
    if es.len() == 0 {
        Seq::empty()
    } else {
        let rest = shown_shortcuts(es.drop_last(), category, query, os, lang);
        if shortcut_shown(es.last(), category, query, os, lang) {
            rest.push((es.len() - 1) as nat)
        } else {
            rest
        }
    }
}

/// Every listed place is a place of the list, and the entry at place `k` is
/// listed exactly when `shortcut_shown` holds of it.
proof fn lemma_shown_shortcuts_members(
    es: Seq<ShortcutView>,
    category: ShortcutCategory,
    query: Seq<char>,
    os: OsType,
    lang: Seq<char>,
)
    ensures
        forall|j: int|
            0 <= j < shown_shortcuts(es, category, query, os, lang).len() ==> #[trigger] shown_shortcuts(es, category, query, os, lang)[j]
                < es.len(),
        forall|k: int|
            0 <= k < es.len() ==> (shown_shortcuts(es, category, query, os, lang).contains(k as nat) <==> shortcut_shown(
                #[trigger] es[k],
                category, query, os, lang,
            )),
    decreases es.len(),
{
    if es.len() > 0 {
        let init = es.drop_last();
        let rest = shown_shortcuts(init, category, query, os, lang);
        lemma_shown_shortcuts_members(init, category, query, os, lang);
        let r = shown_shortcuts(es, category, query, os, lang);
        assert forall|j: int| 0 <= j < r.len() implies #[trigger] r[j] < es.len() by {
            if j < rest.len() {
                assert(r[j] == rest[j]);
            }
        }
        assert forall|k: int| 0 <= k < es.len() implies (r.contains(k as nat) <==> shortcut_shown(
            #[trigger] es[k],
            category, query, os, lang,
        )) by {
            if k < es.len() - 1 {
                assert(init[k] == es[k]);
                if rest.contains(k as nat) {
                    let j = choose|j: int| 0 <= j < rest.len() && rest[j] == k as nat;
                    assert(r[j] == rest[j]);
                }
                if r.contains(k as nat) {
                    let j = choose|j: int| 0 <= j < r.len() && r[j] == k as nat;
                    if j < rest.len() {
                        assert(r[j] == rest[j]);
                    }
                }
            } else {
                if shortcut_shown(es.last(), category, query, os, lang) {
                    assert(r[r.len() - 1] == k as nat);
                } else if r.contains(k as nat) {
                    let j = choose|j: int| 0 <= j < r.len() && r[j] == k as nat;
                    assert(r[j] == rest[j]);
                }
            }
        }
    }
}

/// The shortcut at place `k` is listed exactly when it is in the chosen
/// group (any for `All`) and, for a search, its English action, its Japanese
/// action on a Japanese page, or its keys on the chosen system (the Mac keys
/// on a Mac, the Windows keys on Windows, the Linux keys on Linux) hold the
/// search, all compared in lower case.
pub proof fn law_shortcuts_listed(
    es: Seq<ShortcutView>,
    category: ShortcutCategory,
    query: Seq<char>,
    os: OsType,
    lang: Seq<char>,
    k: int,
)
    requires
        0 <= k < es.len(),
    ensures
        shown_shortcuts(es, category, query, os, lang).contains(k as nat) <==> {
            &&& (category == ShortcutCategory::All || es[k].category == category)
            &&& (query.len() == 0 || contains(lower(es[k].action_en), lower(query)) || (lang
                == "ja"@ && contains(lower(es[k].action_ja), lower(query))) || contains(
                lower(
                    match os {
                        OsType::Mac => es[k].key_mac,
                        OsType::Windows => es[k].key_win,
                        OsType::Linux => es[k].key_linux,
                    },
                ),
                lower(query),
            ))
        },
{
    lemma_shown_shortcuts_members(es, category, query, os, lang);
    assert(shortcut_shown(es[k], category, query, os, lang) == shown_shortcuts(es, category, query, os, lang).contains(k as nat));
}

/// Whether one shortcut is listed.
fn is_shown(
    e: &ShortcutEntry,
    category: ShortcutCategory,
    query: &str,
    os: OsType,
    lang: &str,
) -> (b: bool)
    ensures
        b == shortcut_shown(e@, category, query@, os, lang@),
{
    if category != ShortcutCategory::All && e.category != category {
        return false;
    }
    if !query.is_empty() {
        let q = lowercase(query);
        let action = lowercase(get_action_for_lang(e, lang).as_str());
        let action_en = lowercase(e.action_en);
        let key = lowercase(get_key_for_os(e, os));
        return contains_str(action.as_str(), q.as_str()) || contains_str(
            action_en.as_str(),
            q.as_str(),
        ) || contains_str(key.as_str(), q.as_str());
    }
    true
}

/// The places of the listed shortcuts.
pub fn filter_shortcuts(
    entries: &Vec<ShortcutEntry>,
    category: ShortcutCategory,
    query: &str,
    os: OsType,
    lang: &str,
) -> (r: Vec<usize>)
    ensures
        r@.map_values(|i: usize| i as nat) == shown_shortcuts(
            shortcut_views(entries@),
            category,
            query@,
            os,
            lang@,
        ),
{
    let ghost ev = shortcut_views(entries@);
    let mut r: Vec<usize> = Vec::new();
    let mut i: usize = 0;
    while i < entries.len()
        invariant
            i <= entries.len(),
            ev == shortcut_views(entries@),
            r@.map_values(|k: usize| k as nat) == shown_shortcuts(
                ev.take(i as int),
                category,
                query@,
                os,
                lang@,
            ),
        decreases entries.len() - i,
    {
        assert(ev.take(i + 1).drop_last() =~= ev.take(i as int));
        assert(ev.take(i + 1).last() == entries@[i as int]@);
        if is_shown(&entries[i], category, query, os, lang) {
            let ghost before = r@;
            r.push(i);
            assert(r@.map_values(|k: usize| k as nat) =~= before.map_values(|k: usize| k as nat).push(
                i as nat,
            ));
        }
        i += 1;
    }
    assert(ev.take(entries.len() as int) =~= ev);
    r
}

/// The count line: the translated template with `{count}` replaced by the
/// number of listed entries.
pub fn results_count_text(template: &str, count: usize) -> (s: String)
    ensures
        s@ == replace_all(template@, "{count}"@, decimal(count as nat)),
{
    let t = to_chars(template);
    let pat = to_chars("{count}");
    proof {
        reveal_strlit("{count}");
    }
    let d = decimal_chars(count as u64);
    from_chars(&replace_all_chars(&t, &pat, &d))
}

} // verus!
