use sqlk::config::settings::Config;
use sqlk::database::manager::DatabaseManager;
use sqlk::database::manager::SchemaCache;
use sqlk::database::query_result::ForeignKeyInfo;
use sqlk::database::query_result::QueryResult;
use sqlk::keys::KeyCode;
use sqlk::keys::KeyEvent;
use sqlk::table_viewer::chart::select_chart_items;
use sqlk::table_viewer::chart::sort_by_count;
use sqlk::table_viewer::data::CellPosition;
use sqlk::table_viewer::data::TableViewer;

fn strings(items: &[&str]) -> Vec<String> {
    items.iter().map(|s| s.to_string()).collect()
}

fn table(headers: &[&str], rows: Vec<Vec<String>>) -> QueryResult {
    QueryResult {
        headers: strings(headers),
        row_count: rows.len(),
        rows,
        execution_time: Some(std::time::Duration::from_millis(12)),
        column_types: headers.iter().map(|_| "TEXT".to_string()).collect(),
    }
}

fn schema() -> DatabaseManager {
    let mut cache = SchemaCache::new();
    cache.insert(ForeignKeyInfo {
        column_name: "owner_id".to_string(),
        referenced_table: "users".to_string(),
        referenced_column: "id".to_string(),
    });
    cache.insert(ForeignKeyInfo {
        column_name: "owner_id".to_string(),
        referenced_table: "people".to_string(),
        referenced_column: "pid".to_string(),
    });
    DatabaseManager::new(cache)
}

fn grid(rows: usize, cols: usize) -> TableViewer {
    let headers: Vec<String> = (0..cols).map(|c| format!("c{}", c)).collect();
    let header_refs: Vec<&str> = headers.iter().map(|s| s.as_str()).collect();
    let data = (0..rows).map(|r| (0..cols).map(|c| format!("r{}c{}", r, c)).collect()).collect();
    TableViewer::new(table(&header_refs, data), &Config::default(), &schema())
}

fn pets() -> TableViewer {
    let rows = vec![
        strings(&["Rex", "1", "dog"]),
        strings(&["Tom", "2", "cat"]),
        strings(&["Ace", "NULL", "dog"]),
        strings(&["Bo", "1", ""]),
        strings(&["Kit", "2", "Cat"]),
        strings(&["Max", "1", "dog"]),
    ];
    TableViewer::new(table(&["name", "owner_id", "kind"], rows), &Config::default(), &schema())
}

fn key(c: char) -> KeyEvent {
    KeyEvent::char(c)
}

fn keys(viewer: &mut TableViewer, text: &str) {
    for c in text.chars() {
        viewer.handle_key(key(c));
    }
}

#[test]
fn fresh_viewer() {
    let v = pets();
    assert_eq!((v.current_row, v.current_col), (0, 0));
    assert_eq!((v.scroll_offset_y, v.scroll_offset_x), (0, 0));
    assert_eq!(v.col_width, 20);
    assert!(!v.show_chart);
    assert!(v.chart_data.is_none());
    assert_eq!(v.movement_multiplier, None);
    assert_eq!(v.foreign_keys.len(), 1);
    assert_eq!(v.foreign_keys.get(&1).map(|f| f.referenced_table.clone()), Some("users".to_string()));
    assert_eq!(v.column_stats.len(), 3);
    assert_eq!(v.search_state.term, "");
    assert_eq!(v.get_column_type(1), Some(&"TEXT".to_string()));
    assert_eq!(v.get_column_type(3), None);
    assert_eq!(v.get_column_types(), &strings(&["TEXT", "TEXT", "TEXT"]));
    assert_eq!(v.get_current_cell_value(), Some("Rex".to_string()));
    let (headers, row) = v.get_current_row_with_headers().unwrap();
    assert_eq!(headers, &strings(&["name", "owner_id", "kind"]));
    assert_eq!(row, &strings(&["Rex", "1", "dog"]));
}

#[test]
fn column_statistics() {
    let v = pets();
    let owner = v.column_stats.get(&1).unwrap();
    assert_eq!(owner.data_type, Some("TEXT".to_string()));
    assert_eq!(owner.null_count, 1);
    assert_eq!(owner.unique_count, 2);
    assert_eq!(owner.value_counts, vec![("1".to_string(), 3), ("2".to_string(), 2)]);
    let kind = v.column_stats.get(&2).unwrap();
    assert_eq!(kind.null_count, 1);
    assert_eq!(
        kind.value_counts,
        vec![("dog".to_string(), 3), ("cat".to_string(), 1), ("Cat".to_string(), 1)]
    );
    let mut ragged = table(&["a", "b"], vec![strings(&["x"]), strings(&["y", "z"])]);
    ragged.column_types = strings(&["TEXT"]);
    let stats = TableViewer::compute_column_stats(&ragged, 1);
    assert_eq!(stats.data_type, None);
    assert_eq!(stats.value_counts, vec![("z".to_string(), 1)]);
    assert_eq!(stats.null_count, 0);
}

#[test]
fn movement_keys() {
    let mut v = grid(50, 12);
    keys(&mut v, "j");
    assert_eq!((v.current_row, v.scroll_offset_y), (1, 0));
    keys(&mut v, "25j");
    assert_eq!((v.current_row, v.scroll_offset_y), (26, 7));
    assert_eq!(v.movement_multiplier, None);
    keys(&mut v, "G");
    assert_eq!((v.current_row, v.scroll_offset_y), (49, 30));
    keys(&mut v, "9j");
    assert_eq!(v.current_row, 49);
    keys(&mut v, "3k");
    assert_eq!((v.current_row, v.scroll_offset_y), (46, 30));
    keys(&mut v, "g");
    assert_eq!((v.current_row, v.scroll_offset_y), (0, 0));
    keys(&mut v, "k");
    assert_eq!(v.current_row, 0);
    keys(&mut v, "7l");
    assert_eq!((v.current_col, v.scroll_offset_x), (7, 3));
    keys(&mut v, "$");
    assert_eq!((v.current_col, v.scroll_offset_x), (11, 7));
    keys(&mut v, "l");
    assert_eq!(v.current_col, 11);
    keys(&mut v, "2h");
    assert_eq!((v.current_col, v.scroll_offset_x), (9, 7));
    keys(&mut v, "_");
    assert_eq!((v.current_col, v.scroll_offset_x), (0, 0));
    v.handle_key(KeyEvent::plain(KeyCode::PageDown));
    assert_eq!(v.current_row, 10);
    keys(&mut v, "2");
    v.handle_key(KeyEvent { code: KeyCode::Char('d'), control: true });
    assert_eq!(v.current_row, 30);
    v.handle_key(KeyEvent { code: KeyCode::Char('u'), control: true });
    assert_eq!(v.current_row, 20);
    v.handle_key(KeyEvent::plain(KeyCode::PageUp));
    assert_eq!(v.current_row, 10);
    v.handle_key(KeyEvent::char('d'));
    v.handle_key(KeyEvent::char('u'));
    assert_eq!(v.current_row, 10);
    v.handle_key(KeyEvent::plain(KeyCode::End));
    assert_eq!(v.current_col, 11);
    v.handle_key(KeyEvent::plain(KeyCode::Home));
    assert_eq!(v.current_col, 0);
    v.handle_key(KeyEvent::plain(KeyCode::Right));
    v.handle_key(KeyEvent::plain(KeyCode::Down));
    assert_eq!((v.current_row, v.current_col), (11, 1));
    v.handle_key(KeyEvent::plain(KeyCode::Left));
    v.handle_key(KeyEvent::plain(KeyCode::Up));
    assert_eq!((v.current_row, v.current_col), (10, 0));
    keys(&mut v, "4");
    assert_eq!(v.movement_multiplier, Some(4));
    v.handle_key(KeyEvent::plain(KeyCode::Other));
    assert_eq!(v.movement_multiplier, None);
    assert_eq!((v.current_row, v.current_col), (10, 0));
}

#[test]
fn movement_on_an_empty_table() {
    let mut v = TableViewer::new(table(&[], Vec::new()), &Config::default(), &schema());
    keys(&mut v, "jlG$kh");
    assert_eq!((v.current_row, v.current_col), (0, 0));
    assert_eq!(v.get_current_cell_value(), None);
    assert!(v.get_current_row_with_headers().is_none());
}

#[test]
fn a_huge_repeat_count_is_capped() {
    let mut v = grid(3, 2);
    keys(&mut v, "99999999999999999999999999999999j");
    assert_eq!(v.current_row, 2);
    keys(&mut v, "99999999999999999999999999999999");
    assert_eq!(v.movement_multiplier, Some(usize::MAX));
    v.handle_key(KeyEvent::plain(KeyCode::PageUp));
    assert_eq!(v.current_row, 0);
}

#[test]
fn search_finds_cells_in_any_case() {
    let mut v = pets();
    v.search("CAT");
    assert_eq!(v.search_state.term, "CAT");
    assert_eq!(
        v.search_state.matches,
        vec![CellPosition { row: 1, col: 2 }, CellPosition { row: 4, col: 2 }]
    );
    assert_eq!(v.search_state.current_match, 0);
    assert_eq!((v.current_row, v.current_col), (1, 2));
    keys(&mut v, "n");
    assert_eq!((v.current_row, v.current_col, v.search_state.current_match), (4, 2, 1));
    keys(&mut v, "n");
    assert_eq!((v.current_row, v.search_state.current_match), (1, 0));
    keys(&mut v, "N");
    assert_eq!((v.current_row, v.search_state.current_match), (4, 1));
    keys(&mut v, "N");
    assert_eq!((v.current_row, v.search_state.current_match), (1, 0));
    v.prev_search_match(5);
    assert_eq!(v.search_state.current_match, 0);
    v.next_search_match(3);
    assert_eq!(v.search_state.current_match, 1);
    assert_eq!(v.get_visible_search_matches(1, 5, 2, 3), vec![
        CellPosition { row: 0, col: 0 },
        CellPosition { row: 3, col: 0 }
    ]);
    assert_eq!(v.get_visible_search_matches(2, 5, 0, 3), vec![CellPosition { row: 2, col: 2 }]);
    assert!(v.get_visible_search_matches(0, 6, 0, 2).is_empty());
}

#[test]
fn search_without_matches_or_term() {
    let mut v = pets();
    keys(&mut v, "jl");
    v.search("zebra");
    assert!(v.search_state.matches.is_empty());
    assert_eq!((v.current_row, v.current_col), (1, 1));
    keys(&mut v, "nN");
    assert_eq!((v.current_row, v.current_col), (1, 1));
    v.search("x");
    v.search("");
    assert_eq!(v.search_state.term, "");
    assert!(v.search_state.matches.is_empty());
    v.search("1");
    assert_eq!(v.search_state.matches.len(), 3);
    v.jump_to_match(2);
    assert_eq!((v.current_row, v.current_col), (5, 1));
    v.jump_to_match(3);
    assert_eq!((v.current_row, v.current_col), (5, 1));
}

#[test]
fn visible_data() {
    let mut v = grid(30, 8);
    keys(&mut v, "22j6l");
    assert_eq!((v.scroll_offset_y, v.scroll_offset_x), (3, 2));
    v.search("r5c3");
    assert_eq!((v.current_row, v.current_col), (5, 3));
    v.current_row = 22;
    v.current_col = 6;
    v.update_scroll();
    let data = v.get_visible_data(70, 15);
    assert_eq!(data.headers, strings(&["c2", "c3", "c4"]));
    assert_eq!(data.column_types.len(), 3);
    assert_eq!(data.rows.len(), 10);
    assert_eq!(data.rows[0], strings(&["r3c2", "r3c3", "r3c4"]));
    assert_eq!(data.rows[9], strings(&["r12c2", "r12c3", "r12c4"]));
    assert_eq!((data.start_row, data.start_col), (3, 2));
    assert_eq!((data.total_rows, data.total_cols), (30, 8));
    assert_eq!((data.current_row_relative, data.current_col_relative), (19, 4));
    assert_eq!(data.search_matches, vec![CellPosition { row: 2, col: 1 }]);
    assert_eq!(data.execution_time, Some(std::time::Duration::from_millis(12)));
    assert!(!data.show_chart);
    assert!(data.foreign_keys.is_empty());
    let narrow = v.get_visible_data(5, 3);
    assert_eq!(narrow.headers, strings(&["c2"]));
    assert!(narrow.rows.is_empty());
}

#[test]
fn visible_foreign_keys_are_counted_from_the_window() {
    let mut v = pets();
    assert_eq!(v.get_visible_data(200, 40).foreign_keys.len(), 1);
    assert!(v.get_visible_data(200, 40).foreign_keys.contains_key(&1));
    v.scroll_offset_x = 1;
    let shifted = v.get_visible_foreign_keys(1, 3);
    assert_eq!(shifted.len(), 1);
    assert_eq!(shifted.get(&0).map(|f| f.column_name.clone()), Some("owner_id".to_string()));
    assert!(v.get_visible_foreign_keys(2, 3).is_empty());
    assert!(v.get_visible_foreign_keys(3, 1).is_empty());
}

#[test]
fn format_cell_pads_and_truncates() {
    let mut v = pets();
    v.col_width = 8;
    assert_eq!(v.format_cell("abc"), "abc     ");
    assert_eq!(v.format_cell("abcdefgh"), "abcdefgh");
    assert_eq!(v.format_cell("abcdefghi"), "abcde...");
    assert_eq!(v.format_cell(""), "        ");
    assert_eq!(v.format_cell("日本語"), "日本語  ");
    assert_eq!(v.format_cell("日本語日本"), "日本... ");
    v.col_width = 2;
    assert_eq!(v.format_cell("abc"), "...");
}

#[test]
fn chart_of_a_column() {
    let mut v = pets();
    keys(&mut v, "ll");
    keys(&mut v, "c");
    assert!(v.show_chart);
    let chart = v.chart_data.as_ref().unwrap();
    assert_eq!(chart.title, "Distribution of 'kind'");
    assert_eq!(chart.column_name, "kind");
    assert_eq!(chart.data_type, "TEXT");
    assert_eq!((chart.total_count, chart.null_count, chart.unique_count), (6, 1, 3));
    assert_eq!(chart.bar_width, 30);
    let items: Vec<(String, usize)> = chart.items.iter().map(|i| (i.label.clone(), i.count)).collect();
    assert_eq!(items, vec![("dog".to_string(), 3), ("cat".to_string(), 1), ("Cat".to_string(), 1)]);
    keys(&mut v, "j");
    assert!(v.show_chart);
    keys(&mut v, "h");
    assert!(!v.show_chart);
    assert!(v.chart_data.is_none());
    keys(&mut v, "lc");
    assert!(v.show_chart);
    let items: Vec<String> = v.chart_data.as_ref().unwrap().items.iter().map(|i| i.label.clone()).collect();
    assert_eq!(items, strings(&["cat", "dog", "Cat"]));
    keys(&mut v, "c");
    assert!(!v.show_chart);
}

#[test]
fn no_chart_without_values() {
    let mut v = TableViewer::new(
        table(&["a"], vec![strings(&["NULL"]), strings(&[""])]),
        &Config::default(),
        &schema(),
    );
    v.toggle_chart(30);
    assert!(!v.show_chart);
    assert!(v.generate_chart_data(20, 30, "").is_none());
    v.current_col = 4;
    assert!(v.generate_chart_data(20, 30, "").is_none());
}

#[test]
fn chart_items_are_sorted_and_capped() {
    let counts: Vec<(String, usize)> =
        vec![("a", 2), ("b", 5), ("c", 2), ("d", 7), ("e", 1), ("f", 5)]
            .into_iter()
            .map(|(l, c)| (l.to_string(), c))
            .collect();
    let labels = |items: Vec<(String, usize)>| -> Vec<(String, usize)> { items };
    assert_eq!(
        labels(sort_by_count(&counts)),
        vec![
            ("d".to_string(), 7),
            ("b".to_string(), 5),
            ("f".to_string(), 5),
            ("a".to_string(), 2),
            ("c".to_string(), 2),
            ("e".to_string(), 1)
        ]
    );
    assert_eq!(
        select_chart_items(&counts, 6, "c"),
        vec![
            ("c".to_string(), 2),
            ("d".to_string(), 7),
            ("b".to_string(), 5),
            ("f".to_string(), 5),
            ("a".to_string(), 2),
            ("e".to_string(), 1)
        ]
    );
    assert_eq!(
        select_chart_items(&counts, 4, "b"),
        vec![
            ("b".to_string(), 5),
            ("d".to_string(), 7),
            ("f".to_string(), 5),
            ("<Others>".to_string(), 5)
        ]
    );
    assert_eq!(
        select_chart_items(&counts, 4, "e"),
        vec![
            ("e".to_string(), 1),
            ("d".to_string(), 7),
            ("b".to_string(), 5),
            ("<Others>".to_string(), 9)
        ]
    );
    assert!(select_chart_items(&counts, 4, "zzz").is_empty());
    assert_eq!(select_chart_items(&counts, 6, "zzz").len(), 6);
    assert_eq!(
        select_chart_items(&counts, 2, "e"),
        vec![("e".to_string(), 1), ("<Others>".to_string(), 21)]
    );
    assert_eq!(
        select_chart_items(&counts, 1, "e"),
        vec![("e".to_string(), 1), ("<Others>".to_string(), 21)]
    );
    assert_eq!(
        select_chart_items(&counts, 0, "d"),
        vec![("d".to_string(), 7), ("<Others>".to_string(), 15)]
    );
    assert!(select_chart_items(&Vec::new(), 5, "d").is_empty());
}

#[test]
fn cell_information() {
    let mut v = pets();
    keys(&mut v, "l");
    let info = v.get_cell_info(None);
    assert_eq!(info.value, "1");
    assert_eq!(info.column_name, "owner_id");
    assert_eq!((info.row_index, info.column_index), (0, 1));
    assert_eq!(info.data_type, Some("TEXT".to_string()));
    assert!(!info.is_null);
    assert_eq!(info.value_length, 1);
    assert_eq!(info.duplicate_count, 3);
    assert_eq!(info.unique_values_in_column, 2);
    assert_eq!(info.total_non_null_rows, 5);
    assert!(info.foreign_key_info.is_none());
    let lookup = table(&["id"], vec![strings(&["1"])]);
    let with_key = v.get_cell_info(Some(lookup));
    let found = with_key.foreign_key_info.unwrap();
    assert_eq!(found.foreign_key_info.referenced_table, "users");
    assert_eq!(found.foreign_key_info.referenced_column, "id");
    assert_eq!(found.lookup_data.headers, strings(&["id"]));
    keys(&mut v, "2j");
    let null = v.get_cell_info(Some(table(&["id"], Vec::new())));
    assert!(null.is_null);
    assert_eq!(null.value, "NULL");
    assert_eq!(null.duplicate_count, 0);
    assert!(null.foreign_key_info.is_none());
    keys(&mut v, "h");
    let plain = v.get_cell_info(Some(table(&["id"], Vec::new())));
    assert_eq!(plain.value, "Ace");
    assert_eq!(plain.value_length, 3);
    assert!(plain.foreign_key_info.is_none());
}

#[test]
fn foreign_key_requests() {
    let mut v = pets();
    let plain = v.lookup_foreign_key().unwrap();
    assert_eq!((plain.column.as_str(), plain.value.as_str()), ("name", "Rex"));
    assert!(v.lookup_foreign_key_info().is_none());
    keys(&mut v, "lj");
    let keyed = v.lookup_foreign_key_info().unwrap();
    assert_eq!((keyed.column.as_str(), keyed.value.as_str()), ("owner_id", "2"));
    keys(&mut v, "j");
    assert!(v.lookup_foreign_key().is_none());
    assert!(v.lookup_foreign_key_info().is_none());
    keys(&mut v, "jl");
    assert_eq!(v.get_current_cell_value(), Some(String::new()));
    assert!(v.lookup_foreign_key().is_none());
}
