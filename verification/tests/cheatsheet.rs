use taurin::cheatsheet::{filter_commands, get_cheatsheet, get_desc_for_lang, CheatsheetCategory, CheatsheetState, ToolType};

#[test]
fn cheatsheet_tables() {
    assert_eq!(get_cheatsheet(ToolType::Git).len(), 39);
    assert_eq!(get_cheatsheet(ToolType::Docker).len(), 34);
    assert_eq!(get_cheatsheet(ToolType::Kubernetes).len(), 29);
    assert_eq!(get_cheatsheet(ToolType::Tmux).len(), 27);
    assert_eq!(get_cheatsheet(ToolType::Bash).len(), 45);
    let git = get_cheatsheet(ToolType::Git);
    assert_eq!(git[0].command, "git init");
    assert_eq!(get_desc_for_lang(&git[0], "ja"), "新しいリポジトリを初期化");
    assert_eq!(CheatsheetCategory::for_tool(ToolType::Bash)[2], CheatsheetCategory::TextProcessing);
}

#[test]
fn filtering_and_favourites() {
    let git = get_cheatsheet(ToolType::Git);
    assert_eq!(filter_commands(&git, CheatsheetCategory::All, "GIT INIT", "en"), vec![0]);
    let basic = filter_commands(&git, CheatsheetCategory::Basic, "", "en");
    assert!(basic.iter().all(|&i| git[i].category == CheatsheetCategory::Basic));
    let mut s = CheatsheetState::new();
    s.category = CheatsheetCategory::Basic;
    s.select_tool(ToolType::Docker);
    assert_eq!(s.category, CheatsheetCategory::All);
    assert!(!s.is_favorite("ls"));
    s.toggle_favorite("ls");
    s.toggle_favorite("pwd");
    assert!(s.is_favorite("ls"));
    s.toggle_favorite("ls");
    assert_eq!(s.favorites, vec!["pwd".to_string()]);
    s.toggle_favorite("ls");
    assert_eq!(s.favorites, vec!["pwd".to_string(), "ls".to_string()]);
}
