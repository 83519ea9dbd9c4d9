use taurin::shortcuts::{
    filter_shortcuts, get_action_for_lang, get_key_for_os, get_shortcuts, lang_of_copy_label,
    results_count_text, AppType, OsType, ShortcutCategory,
};

#[test]
fn shortcut_tables() {
    assert_eq!(get_shortcuts(AppType::VSCode).len(), 54);
    assert_eq!(get_shortcuts(AppType::IntelliJ).len(), 45);
    assert_eq!(get_shortcuts(AppType::Vim).len(), 45);
    assert_eq!(get_shortcuts(AppType::Terminal).len(), 25);
    let first = get_shortcuts(AppType::VSCode)[0];
    assert_eq!(first.action_en, "Cut line");
    assert_eq!(get_key_for_os(&first, OsType::Mac), "Cmd+X");
    assert_eq!(get_key_for_os(&first, OsType::Linux), "Ctrl+X");
    assert_eq!(get_action_for_lang(&first, "ja"), "行の切り取り");
    assert_eq!(get_action_for_lang(&first, "en"), "Cut line");
}

#[test]
fn filtering() {
    let es = get_shortcuts(AppType::VSCode);
    let all = filter_shortcuts(&es, ShortcutCategory::All, "", OsType::Mac, "en");
    assert_eq!(all.len(), 54);
    let editing = filter_shortcuts(&es, ShortcutCategory::Editing, "", OsType::Mac, "en");
    assert!(editing.iter().all(|&i| es[i].category == ShortcutCategory::Editing));
    let cut = filter_shortcuts(&es, ShortcutCategory::All, "CUT LINE", OsType::Mac, "en");
    assert_eq!(cut, vec![0]);
    let by_key = filter_shortcuts(&es, ShortcutCategory::All, "cmd+x", OsType::Mac, "en");
    assert!(by_key.contains(&0));
    let ja = filter_shortcuts(&es, ShortcutCategory::All, "切り取り", OsType::Mac, "ja");
    assert!(ja.contains(&0));
    assert_eq!(lang_of_copy_label("コピー"), "ja");
    assert_eq!(lang_of_copy_label("Copy"), "en");
    assert_eq!(results_count_text("{count} results", 7), "7 results");
    assert_eq!(OsType::from_select("linux"), OsType::Linux);
    assert_eq!(OsType::from_select("other"), OsType::Mac);
    assert_eq!(AppType::Terminal.icon(), ">_");
    assert_eq!(ShortcutCategory::all().len(), 8);
}
