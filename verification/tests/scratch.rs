use taurin::scratch::{Note, PadViewMode, SaveStatus, ScratchPadData};

fn note(id: &str, content: &str) -> Note {
    Note { id: id.to_string(), content: content.to_string(), created_at: "t".to_string(), updated_at: "t".to_string() }
}

#[test]
fn titles() {
    assert_eq!(note("1", "").title(), "New Note");
    assert_eq!(note("1", "## Plan  \nbody").title(), "Plan");
    assert_eq!(note("1", "#   \nbody").title(), "New Note");
    let long = format!("# {}", "x".repeat(40));
    assert_eq!(note("1", &long).title(), format!("{}...", "x".repeat(27)));
    assert_eq!(note("1", &"y".repeat(30)).title(), "y".repeat(30));
}

#[test]
fn previews() {
    assert_eq!(note("1", "Title").preview(), "No additional text");
    assert_eq!(note("1", "Title\n second \nthird\nfourth").preview(), "second  third");
    assert_eq!(note("1", "T\n\n").preview(), "No additional text");
    let long = format!("T\n{}", "z".repeat(60));
    assert_eq!(note("1", &long).preview(), format!("{}...", "z".repeat(47)));
}

#[test]
fn counts() {
    let n = note("1", "ab\ncd");
    assert_eq!(n.char_count(), 5);
    assert_eq!(n.line_count(), 2);
    assert_eq!(note("1", "").line_count(), 1);
    assert_eq!(note("1", "é").char_count(), 2);
}

#[test]
fn pad_data() {
    let mut d = ScratchPadData::with_first_note("a".to_string(), "2024".to_string());
    assert_eq!(d.notes.len(), 1);
    assert_eq!(d.active_note().map(|n| n.id), Some("a".to_string()));
    assert!(!d.can_delete());
    d.add_created(note("b", "hello"));
    assert_eq!(d.notes[0].id, "b");
    assert_eq!(d.active_note().map(|n| n.content), Some("hello".to_string()));
    d.set_content("a", "changed".to_string());
    assert_eq!(d.notes[1].content, "changed");
    d.set_content("zz", "x".to_string());
    assert!(d.can_delete());
}

#[test]
fn save_status() {
    let mut s = SaveStatus::new();
    assert!(s.on_edit());
    assert_eq!(s.text, "Saving...");
    assert!(!s.on_edit());
    s.on_saved(false);
    assert_eq!(s.text, "Save failed");
    assert!(!s.pending);
    s.on_exported();
    assert_eq!(s.text, "Exported!");
    s.on_timeout();
    assert_eq!(s.text, "");
    assert_eq!(PadViewMode::Split.class(), "split-view");
    assert!(!PadViewMode::Preview.shows_editor());
    assert!(PadViewMode::Split.shows_preview());
    assert_eq!(PadViewMode::Edit.translation_key(), "common.edit");
}

#[test]
fn a_created_note_is_open() {
    let mut pad = ScratchPadData::with_first_note("a".to_string(), "t".to_string());
    pad.add_created(note("b", "# Fresh"));
    assert_eq!(pad.notes[0].id, "b");
    assert_eq!(pad.active_note().map(|n| n.id), Some("b".to_string()));
}
