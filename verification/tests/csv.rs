use taurin::csv::{filter_rows, row_count_text, save_button_class, CsvData, CsvState, SortOrder, SortState};

fn row(cells: &[&str]) -> Vec<String> {
    cells.iter().map(|c| c.to_string()).collect()
}

fn data() -> CsvData {
    CsvData {
        headers: row(&["Name", "City"]),
        rows: vec![row(&["Alice", "Tokyo"]), row(&["Bob", "Osaka"]), row(&["Carol", "Kyoto"])],
        total_rows: 3,
        total_columns: 2,
    }
}

#[test]
fn header_clicks_cycle_the_order() {
    let mut s = SortState::new();
    s.click(1);
    assert_eq!(s, SortState { column: Some(1), order: SortOrder::Asc });
    assert_eq!(s.indicator(1), " ↑");
    assert_eq!(s.indicator(0), "");
    s.click(1);
    assert_eq!(s.indicator(1), " ↓");
    s.click(1);
    assert_eq!(s, SortState::new());
    s.click(0);
    s.click(1);
    assert_eq!(s, SortState { column: Some(1), order: SortOrder::Asc });
}

#[test]
fn loading_and_editing() {
    let mut s = CsvState::new();
    s.open_file("/home/u/data/people.csv".to_string());
    assert!(s.is_loading);
    s.on_loaded(Some(data()));
    assert!(!s.is_loading);
    assert_eq!(s.info.as_ref().unwrap().file_name, "");
    s.open_file("/home/u/data/other.csv".to_string());
    assert_eq!(s.previous_path, "/home/u/data/people.csv");
    s.on_loaded(Some(data()));
    assert_eq!(s.info.as_ref().unwrap().file_name, "people.csv");
    assert_eq!(s.save_name(), "other.csv");
    assert_eq!(s.column_filters, vec![String::new(), String::new()]);
    s.start_edit(1, 0);
    s.change_cell(1, 0, "Bobby".to_string());
    assert_eq!(s.edited_rows[1][0], "Bobby");
    assert!(s.is_modified && s.editing_cell.is_none());
    s.on_saved();
    s.change_cell(7, 0, "x".to_string());
    assert!(!s.is_modified);
    s.add_row();
    assert_eq!(s.edited_rows[3], row(&["", ""]));
    s.delete_row(0);
    assert_eq!(s.edited_rows.len(), 3);
    assert_eq!(s.edited_rows[0][0], "Bobby");
    s.set_filter(1, "os".to_string());
    assert_eq!(s.column_filters[1], "os");
}

#[test]
fn search_and_filters_pick_rows() {
    let d = data();
    let none = row(&["", ""]);
    let all = filter_rows(&d.rows, "", &none);
    assert_eq!(all.iter().map(|r| r.index).collect::<Vec<_>>(), vec![0, 1, 2]);
    let to = filter_rows(&d.rows, "TO", &none);
    assert_eq!(to.iter().map(|r| r.index).collect::<Vec<_>>(), vec![0, 2]);
    let f = filter_rows(&d.rows, "", &row(&["", "osa"]));
    assert_eq!(f.iter().map(|r| r.index).collect::<Vec<_>>(), vec![1]);
    assert_eq!(f[0].cells, row(&["Bob", "Osaka"]));
    let short = vec![row(&["Dan"])];
    assert_eq!(filter_rows(&short, "", &row(&["", "zzz"])).len(), 1);
    assert_eq!(row_count_text(2, 3), "Showing 2 of 3 rows");
    assert_eq!(save_button_class(true), "toolbar-btn save-btn modified");
}
