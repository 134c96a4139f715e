use sqlk::application::app::App;
use sqlk::application::state::AppAction;
use sqlk::application::state::AppMessage;
use sqlk::application::state::AppMode;
use sqlk::application::state::StartupOutcome;
use sqlk::application::state::StartupResult;
use sqlk::args::Args;
use sqlk::config::settings::Config;
use sqlk::database::manager::DatabaseManager;
use sqlk::database::manager::SchemaCache;
use sqlk::database::query_result::ForeignKeyInfo;
use sqlk::database::query_result::QueryResult;
use sqlk::keys::KeyCode;
use sqlk::keys::KeyEvent;
use sqlk::table_viewer::data::TableViewer;
use sqlk::ui::toast::ToastType;

fn strings(items: &[&str]) -> Vec<String> {
    items.iter().map(|s| s.to_string()).collect()
}

fn table(headers: &[&str], rows: &[&[&str]]) -> QueryResult {
    QueryResult {
        headers: strings(headers),
        rows: rows.iter().map(|r| strings(r)).collect(),
        row_count: rows.len(),
        execution_time: None,
        column_types: headers.iter().map(|_| "TEXT".to_string()).collect(),
    }
}

fn schema() -> DatabaseManager {
    let mut cache = SchemaCache::new();
    cache.insert(ForeignKeyInfo {
        column_name: "owner_id".to_string(),
        referenced_table: "users".to_string(),
        referenced_column: "id".to_string(),
    });
    DatabaseManager::new(cache)
}

fn viewer(headers: &[&str], rows: &[&[&str]]) -> TableViewer {
    TableViewer::new(table(headers, rows), &Config::default(), &schema())
}

fn pets() -> TableViewer {
    viewer(&["name", "owner_id"], &[&["rex", "1"], &["tom", "2"], &["ace", "NULL"]])
}

fn session(file: Option<&str>, query: Option<&str>, matrix: bool) -> App {
    let args = Args {
        file: file.map(|s| s.to_string()),
        env: ".env".to_string(),
        no_matrix: !matrix,
        toast_level: "INFO".to_string(),
        query: query.map(|s| s.to_string()),
    };
    let mut config = Config::default();
    config.matrix.enabled = matrix;
    App::new(&args, config)
}

fn in_table_viewer() -> App {
    let mut app = session(None, None, false);
    app.startup_complete = true;
    app.current_mode = AppMode::TableViewer;
    app.table_viewer = Some(pets());
    app
}

fn key(c: char) -> KeyEvent {
    KeyEvent::char(c)
}

fn press(code: KeyCode) -> KeyEvent {
    KeyEvent::plain(code)
}

fn last_toast(app: &App) -> (String, ToastType) {
    let t = app.ui.toast_messages.last().unwrap();
    (t.message.clone(), t.message_type)
}

fn nothing(action: AppAction) -> bool {
    matches!(action, AppAction::Nothing)
}

#[test]
fn new_session_starts_on_the_loading_screen() {
    let app = session(Some("a.sql"), Some("SELECT 1"), true);
    assert_eq!(app.current_mode, AppMode::MatrixLoading);
    assert_eq!(app.current_file, Some("a.sql".to_string()));
    assert_eq!(app.pending_query, Some("SELECT 1".to_string()));
    assert!(!app.startup_complete);
    assert!(!app.should_quit);
    assert!(app.table_viewer.is_none());
    assert!(app.ui.toast_messages.is_empty());
}

#[test]
fn close_in_table_viewer_without_chart_leads_to_file_view() {
    let mut app = in_table_viewer();
    assert!(!app.table_viewer.as_ref().unwrap().show_chart);
    let action = app.handle_key_event(key('q'));
    assert!(nothing(action));
    assert_eq!(app.current_mode, AppMode::FileView);
    assert!(app.table_viewer.is_none());
}

#[test]
fn close_in_table_viewer_with_chart_only_hides_the_chart() {
    let mut app = in_table_viewer();
    assert!(nothing(app.handle_key_event(key('c'))));
    assert!(app.table_viewer.as_ref().unwrap().show_chart);
    assert!(app.table_viewer.as_ref().unwrap().chart_data.is_some());
    let action = app.handle_key_event(press(KeyCode::Esc));
    assert!(nothing(action));
    assert_eq!(app.current_mode, AppMode::TableViewer);
    let v = app.table_viewer.as_ref().unwrap();
    assert!(!v.show_chart);
    assert!(v.chart_data.is_none());
    assert_eq!(v.data.rows.len(), 3);
    assert!(nothing(app.handle_key_event(key('q'))));
    assert_eq!(app.current_mode, AppMode::FileView);
    assert!(app.table_viewer.is_none());
}

#[test]
fn two_results_before_one_drain_apply_in_order() {
    let mut app = session(None, None, false);
    app.startup_complete = true;
    app.current_mode = AppMode::FileView;
    app.is_querying = true;
    let first = viewer(&["a"], &[&["first"]]);
    let second = viewer(&["b"], &[&["second"], &["row"]]);
    let spawn = app.update_at(
        vec![AppMessage::QueryResult(Ok(first)), AppMessage::QueryResult(Ok(second))],
        0,
    );
    assert!(!spawn);
    assert!(!app.is_querying);
    assert_eq!(app.current_mode, AppMode::TableViewer);
    let shown = app.table_viewer.as_ref().unwrap();
    assert_eq!(shown.data.headers, strings(&["b"]));
    assert_eq!(shown.data.rows, vec![strings(&["second"]), strings(&["row"])]);
    assert_eq!(app.ui.toast_messages.len(), 2);
    assert_eq!(last_toast(&app), ("Query executed successfully".to_string(), ToastType::Success));
}

#[test]
fn a_failure_after_a_result_wins() {
    let mut app = session(None, None, false);
    app.startup_complete = true;
    app.is_querying = true;
    app.drain_messages(vec![
        AppMessage::QueryResult(Ok(pets())),
        AppMessage::QueryResult(Err("Query execution failed: boom".to_string())),
    ]);
    assert!(!app.is_querying);
    assert_eq!(app.current_mode, AppMode::FileView);
    assert!(app.table_viewer.is_some());
    assert_eq!(last_toast(&app), ("Query execution failed: boom".to_string(), ToastType::Error));
}

#[test]
fn a_background_failure_is_told_in_words() {
    let mut app = session(None, None, false);
    app.is_querying = true;
    app.apply_message(AppMessage::query_result(Err("syntax error".to_string())));
    assert!(!app.is_querying);
    assert_eq!(app.current_mode, AppMode::FileView);
    assert_eq!(
        last_toast(&app),
        ("Query execution failed: syntax error".to_string(), ToastType::Error)
    );
    app.apply_message(AppMessage::query_result(Ok(pets())));
    assert_eq!(app.current_mode, AppMode::TableViewer);
}

#[test]
fn drain_of_no_messages_changes_nothing() {
    let mut app = session(None, None, false);
    app.is_querying = true;
    app.current_mode = AppMode::FileView;
    app.drain_messages(Vec::new());
    assert!(app.is_querying);
    assert_eq!(app.current_mode, AppMode::FileView);
    assert!(app.ui.toast_messages.is_empty());
}

#[test]
fn execute_current_dispatches_the_block_under_the_cursor() {
    let mut app = session(Some("q.sql"), None, false);
    app.perform_startup_tasks_sync(
        Some(Ok("SELECT 1;\n\nSELECT 2\nFROM t;\n".to_string())),
        None,
    );
    assert_eq!(app.current_mode, AppMode::FileView);
    assert!(app.startup_complete);
    assert!(app.file_loading_complete);
    assert_eq!(app.query_blocks.len(), 2);
    assert!(nothing(app.handle_key_event(key('3'))));
    assert!(nothing(app.handle_key_event(key('j'))));
    assert_eq!(app.cursor_line, 3);
    let action = app.handle_key_event(key('e'));
    match action {
        AppAction::ExecuteQuery(text) => assert_eq!(text, "SELECT 2\nFROM t"),
        _ => panic!("no query was dispatched"),
    }
    assert!(app.is_querying);
    assert_eq!(app.current_mode, AppMode::FileView);
}

#[test]
fn execute_current_on_a_loaded_file_dispatches_the_second_statement() {
    let mut app = session(None, None, false);
    app.load_file("q.sql", Ok("SELECT 1;\n\nSELECT a\nFROM t;\n".to_string()));
    let toasts = app.ui.toast_messages.len();
    app.cursor_line = 3;
    match app.execute_current_query() {
        AppAction::ExecuteQuery(text) => assert_eq!(text, "SELECT a\nFROM t"),
        _ => panic!("no query was dispatched"),
    }
    assert!(app.is_querying);
    assert_eq!(app.ui.toast_messages.len(), toasts);
    assert!(app.ui.toast_messages.iter().all(|t| t.message_type != ToastType::Error));
    app.cursor_line = 2;
    assert!(matches!(app.execute_current_query(), AppAction::ExecuteQuery(_)));
    app.cursor_line = 0;
    match app.execute_current_query() {
        AppAction::ExecuteQuery(text) => assert_eq!(text, "SELECT 1"),
        _ => panic!("no query was dispatched"),
    }
}

#[test]
fn execute_current_outside_every_block_reports_an_error() {
    let mut app = session(Some("q.sql"), None, false);
    app.perform_startup_tasks_sync(Some(Ok("SELECT 1;\n\nSELECT 2;\n".to_string())), None);
    assert!(nothing(app.handle_key_event(key('j'))));
    assert_eq!(app.cursor_line, 1);
    let action = app.handle_key_event(key('e'));
    assert!(nothing(action));
    assert!(!app.is_querying);
    assert_eq!(
        last_toast(&app),
        ("No query found at current cursor position".to_string(), ToastType::Error)
    );
}

#[test]
fn execute_query_tells_the_user_only_once_startup_is_done() {
    let mut app = session(None, None, true);
    assert!(matches!(app.execute_query("SELECT 1"), AppAction::ExecuteQuery(_)));
    assert!(app.is_querying);
    assert!(app.ui.toast_messages.is_empty());
    app.startup_complete = true;
    assert!(matches!(app.execute_query("SELECT 1"), AppAction::ExecuteQuery(_)));
    assert_eq!(last_toast(&app), ("Executing query".to_string(), ToastType::Info));
}

#[test]
fn help_restores_the_mode_it_was_opened_over() {
    let mut app = in_table_viewer();
    assert!(nothing(app.handle_key_event(key('?'))));
    assert_eq!(app.current_mode, AppMode::Help);
    assert_eq!(app.previous_mode, Some(AppMode::TableViewer));
    assert!(nothing(app.handle_key_event(key('x'))));
    assert_eq!(app.current_mode, AppMode::Help);
    assert!(nothing(app.handle_key_event(key('?'))));
    assert_eq!(app.current_mode, AppMode::TableViewer);
    assert_eq!(app.previous_mode, None);
}

#[test]
fn help_without_a_recorded_mode_closes_to_file_view() {
    let mut app = session(None, None, false);
    app.current_mode = AppMode::Help;
    app.previous_mode = None;
    assert!(nothing(app.handle_key_event(press(KeyCode::Esc))));
    assert_eq!(app.current_mode, AppMode::FileView);
}

#[test]
fn search_is_typed_confirmed_and_cancelled() {
    let mut app = in_table_viewer();
    app.search_input = "old".to_string();
    assert!(nothing(app.handle_key_event(key('/'))));
    assert_eq!(app.current_mode, AppMode::Searching);
    assert_eq!(app.search_input, "");
    for c in ['T', 'O', 'x'] {
        assert!(nothing(app.handle_key_event(key(c))));
    }
    assert!(nothing(app.handle_key_event(press(KeyCode::Backspace))));
    assert_eq!(app.search_input, "TO");
    assert!(nothing(app.handle_key_event(press(KeyCode::Enter))));
    assert_eq!(app.current_mode, AppMode::TableViewer);
    let v = app.table_viewer.as_ref().unwrap();
    assert_eq!(v.search_state.term, "TO");
    assert_eq!(v.search_state.matches.len(), 1);
    assert_eq!((v.current_row, v.current_col), (1, 0));

    assert!(nothing(app.handle_key_event(key('/'))));
    assert!(nothing(app.handle_key_event(key('r'))));
    assert!(nothing(app.handle_key_event(press(KeyCode::Esc))));
    assert_eq!(app.current_mode, AppMode::TableViewer);
    assert_eq!(app.search_input, "");
    assert_eq!(app.table_viewer.as_ref().unwrap().search_state.term, "TO");
}

#[test]
fn backspace_on_an_empty_search_does_nothing() {
    let mut app = in_table_viewer();
    app.current_mode = AppMode::Searching;
    assert!(nothing(app.handle_key_event(press(KeyCode::Backspace))));
    assert_eq!(app.search_input, "");
    assert_eq!(app.current_mode, AppMode::Searching);
}

#[test]
fn yank_row_chord_copies_the_row_with_its_headers() {
    let mut app = in_table_viewer();
    assert!(nothing(app.handle_key_event(key('j'))));
    assert!(nothing(app.handle_key_event(key('y'))));
    assert_eq!(app.yank_sequence, "y");
    let action = app.handle_key_event(key('y'));
    assert_eq!(app.yank_sequence, "");
    match action {
        AppAction::Copy(text) => {
            assert_eq!(text, "name: tom, owner_id: 2");
            app.clipboard_done(&text, Ok(()));
        }
        _ => panic!("nothing was copied"),
    }
    assert_eq!(last_toast(&app), ("Yanked: name: tom, owner_id: 2".to_string(), ToastType::Success));
    app.clipboard_done("x", Err("no display".to_string()));
    assert_eq!(
        last_toast(&app),
        ("Failed to copy to clipboard: no display".to_string(), ToastType::Error)
    );
}

#[test]
fn yank_cell_chord_copies_the_cell() {
    let mut app = in_table_viewer();
    assert!(nothing(app.handle_key_event(key('l'))));
    assert!(nothing(app.handle_key_event(key('y'))));
    assert!(nothing(app.handle_key_event(key('i'))));
    assert_eq!(app.yank_sequence, "yi");
    match app.handle_key_event(key('w')) {
        AppAction::Copy(text) => assert_eq!(text, "1"),
        _ => panic!("nothing was copied"),
    }
    assert_eq!(app.yank_sequence, "");
}

#[test]
fn a_pending_chord_suppresses_other_keys_and_is_given_up() {
    let mut app = in_table_viewer();
    assert!(nothing(app.handle_key_event(key('y'))));
    assert!(nothing(app.handle_key_event(key('q'))));
    assert_eq!(app.yank_sequence, "");
    assert_eq!(app.current_mode, AppMode::TableViewer);
    assert!(app.table_viewer.is_some());
    assert!(app.ui.toast_messages.is_empty());

    assert!(nothing(app.handle_key_event(key('y'))));
    assert!(nothing(app.handle_key_event(press(KeyCode::Down))));
    assert_eq!(app.yank_sequence, "");
    assert_eq!(app.table_viewer.as_ref().unwrap().current_row, 0);

    assert!(nothing(app.handle_key_event(key('y'))));
    assert!(nothing(app.handle_key_event(key('i'))));
    assert!(nothing(app.handle_key_event(key('x'))));
    assert_eq!(app.yank_sequence, "");
}

#[test]
fn yank_in_the_foreign_key_viewer() {
    let mut app = in_table_viewer();
    app.foreign_key_viewer = Some(viewer(&["id", "name"], &[&["1", "ann"]]));
    app.current_mode = AppMode::ForeignKeyView;
    assert!(nothing(app.handle_key_event(key('y'))));
    match app.handle_key_event(key('y')) {
        AppAction::Copy(text) => assert_eq!(text, "id: 1, name: ann"),
        _ => panic!("nothing was copied"),
    }
    app.foreign_key_viewer = Some(viewer(&["id"], &[]));
    assert!(nothing(app.handle_key_event(key('y'))));
    assert!(nothing(app.handle_key_event(key('y'))));
    assert_eq!(last_toast(&app), ("No row to yank".to_string(), ToastType::Info));
    assert!(nothing(app.handle_key_event(key('y'))));
    assert!(nothing(app.handle_key_event(key('i'))));
    assert!(nothing(app.handle_key_event(key('w'))));
    assert_eq!(last_toast(&app), ("No cell to yank".to_string(), ToastType::Info));
}

#[test]
fn foreign_key_viewer_closes_to_the_table_viewer() {
    let mut app = in_table_viewer();
    app.foreign_key_viewer = Some(viewer(&["id"], &[&["1"], &["2"]]));
    app.current_mode = AppMode::ForeignKeyView;
    assert!(nothing(app.handle_key_event(key('j'))));
    assert_eq!(app.foreign_key_viewer.as_ref().unwrap().current_row, 1);
    assert_eq!(app.table_viewer.as_ref().unwrap().current_row, 0);
    assert!(nothing(app.handle_key_event(key('q'))));
    assert_eq!(app.current_mode, AppMode::TableViewer);
    assert!(app.foreign_key_viewer.is_none());
    assert_eq!(app.table_viewer.as_ref().unwrap().data.rows.len(), 3);
}

#[test]
fn following_a_foreign_key() {
    let mut app = in_table_viewer();
    assert!(nothing(app.handle_key_event(key('l'))));
    match app.handle_key_event(key('F')) {
        AppAction::LookupForeignKey(request) => {
            assert_eq!(request.column, "owner_id");
            assert_eq!(request.value, "1");
        }
        _ => panic!("no lookup was asked for"),
    }
    assert_eq!(app.current_mode, AppMode::TableViewer);
    app.foreign_key_done(Err("no such table".to_string()));
    assert_eq!(app.current_mode, AppMode::TableViewer);
    assert_eq!(last_toast(&app), ("FK lookup failed: no such table".to_string(), ToastType::Error));
    app.foreign_key_done(Ok(viewer(&["id", "name"], &[&["1", "ann"]])));
    assert_eq!(app.current_mode, AppMode::ForeignKeyView);
    assert_eq!(app.foreign_key_viewer.as_ref().unwrap().data.headers, strings(&["id", "name"]));
}

#[test]
fn a_foreign_key_viewer_never_outlives_its_table_viewer() {
    let mut app = in_table_viewer();
    app.foreign_key_done(Ok(viewer(&["id"], &[&["1"]])));
    assert_eq!(app.current_mode, AppMode::ForeignKeyView);
    app.apply_message(AppMessage::QueryResult(Ok(pets())));
    assert_eq!(app.current_mode, AppMode::TableViewer);
    assert!(app.foreign_key_viewer.is_some());
    assert!(nothing(app.handle_key_event(key('q'))));
    assert_eq!(app.current_mode, AppMode::FileView);
    assert!(app.table_viewer.is_none());
    assert!(app.foreign_key_viewer.is_none());
    app.foreign_key_done(Ok(viewer(&["id"], &[&["1"]])));
    assert_eq!(app.current_mode, AppMode::FileView);
    assert!(app.foreign_key_viewer.is_none());
    assert!(app.ui.toast_messages.len() == 1);
}

#[test]
fn following_a_null_cell_finds_nothing() {
    let mut app = in_table_viewer();
    for k in ['l', 'G'] {
        assert!(nothing(app.handle_key_event(key(k))));
    }
    assert!(nothing(app.handle_key_event(key('F'))));
    assert_eq!(
        last_toast(&app),
        ("No foreign key data found for this cell".to_string(), ToastType::Info)
    );
    assert_eq!(app.current_mode, AppMode::TableViewer);
}

#[test]
fn cell_info_without_a_foreign_key_is_there_at_once() {
    let mut app = in_table_viewer();
    assert!(nothing(app.handle_key_event(key('K'))));
    assert_eq!(app.current_mode, AppMode::CellInfoView);
    let info = app.cell_info.as_ref().unwrap();
    assert_eq!(info.value, "rex");
    assert_eq!(info.column_name, "name");
    assert!(info.foreign_key_info.is_none());
    assert!(nothing(app.handle_key_event(key('F'))));
    assert_eq!(app.current_mode, AppMode::CellInfoView);
    assert!(nothing(app.handle_key_event(key('q'))));
    assert_eq!(app.current_mode, AppMode::TableViewer);
    assert!(app.cell_info.is_none());
}

#[test]
fn cell_info_of_a_foreign_key_asks_the_database_first() {
    let mut app = in_table_viewer();
    assert!(nothing(app.handle_key_event(key('l'))));
    match app.handle_key_event(key('K')) {
        AppAction::DescribeForeignKey(request) => {
            assert_eq!(request.column, "owner_id");
            assert_eq!(request.value, "1");
        }
        _ => panic!("the database was not asked"),
    }
    assert_eq!(app.current_mode, AppMode::TableViewer);
    app.cell_info_done(Some(table(&["id", "name"], &[&["1", "ann"]])));
    assert_eq!(app.current_mode, AppMode::CellInfoView);
    let info = app.cell_info.as_ref().unwrap();
    let lookup = info.foreign_key_info.as_ref().unwrap();
    assert_eq!(lookup.foreign_key_info.referenced_table, "users");
    assert_eq!(lookup.lookup_data.rows.len(), 1);
    assert!(matches!(app.handle_key_event(key('F')), AppAction::LookupForeignKey(_)));
    assert!(nothing(app.handle_key_event(key('?'))));
    assert_eq!(app.current_mode, AppMode::Help);
    assert!(nothing(app.handle_key_event(key('q'))));
    assert_eq!(app.current_mode, AppMode::CellInfoView);
}

#[test]
fn file_view_cursor_and_scrolling() {
    let mut app = session(Some("q.sql"), None, false);
    let text: String = (0..100).map(|i| format!("SELECT {};\n", i)).collect();
    app.perform_startup_tasks_sync(Some(Ok(text)), None);
    assert_eq!((app.cursor_line, app.scroll_offset), (0, 0));
    assert!(nothing(app.handle_key_event(press(KeyCode::Down))));
    assert_eq!((app.cursor_line, app.scroll_offset), (1, 0));
    for c in ['2', '5'] {
        assert!(nothing(app.handle_key_event(key(c))));
    }
    assert_eq!(app.movement_multiplier, Some(25));
    assert!(nothing(app.handle_key_event(key('j'))));
    assert_eq!(app.movement_multiplier, None);
    assert_eq!((app.cursor_line, app.scroll_offset), (26, 7));
    assert!(nothing(app.handle_key_event(press(KeyCode::PageDown))));
    assert_eq!((app.cursor_line, app.scroll_offset), (36, 17));
    assert!(nothing(app.handle_key_event(key('3'))));
    assert!(nothing(app.handle_key_event(press(KeyCode::PageUp))));
    assert_eq!((app.cursor_line, app.scroll_offset), (6, 6));
    assert!(nothing(app.handle_key_event(press(KeyCode::End))));
    assert_eq!((app.cursor_line, app.scroll_offset), (99, 80));
    assert!(nothing(app.handle_key_event(key('j'))));
    assert_eq!(app.cursor_line, 99);
    assert!(nothing(app.handle_key_event(key('k'))));
    assert_eq!((app.cursor_line, app.scroll_offset), (98, 80));
    assert!(nothing(app.handle_key_event(press(KeyCode::Home))));
    assert_eq!((app.cursor_line, app.scroll_offset), (0, 0));
    assert!(nothing(app.handle_key_event(press(KeyCode::Up))));
    assert_eq!(app.cursor_line, 0);
    assert!(nothing(app.handle_key_event(key('5'))));
    assert!(nothing(app.handle_key_event(key('x'))));
    assert_eq!(app.movement_multiplier, None);
    assert_eq!(app.get_visible_file_content(2), strings(&["SELECT 0;", "SELECT 1;"]));
    assert!(!app.should_quit);
    assert!(nothing(app.handle_key_event(key('q'))));
    assert!(app.should_quit);
}

#[test]
fn visible_file_content_near_the_end() {
    let mut app = session(Some("q.sql"), None, false);
    app.perform_startup_tasks_sync(Some(Ok("a\nb\nc".to_string())), None);
    app.scroll_offset = 2;
    assert_eq!(app.get_visible_file_content(20), strings(&["c"]));
    app.scroll_offset = 7;
    assert!(app.get_visible_file_content(20).is_empty());
    assert!(app.get_visible_file_content(0).is_empty());
}

#[test]
fn loading_screen_keys() {
    let mut app = session(Some("q.sql"), Some("SELECT 1"), true);
    assert!(nothing(app.run(80, 24)));
    assert!(app.matrix_animation.is_some());
    assert!(nothing(app.handle_key_event(key('x'))));
    assert!(!app.should_quit);
    match app.handle_key_event(press(KeyCode::Enter)) {
        AppAction::RunStartup(plan) => {
            assert_eq!(plan.file, Some("q.sql".to_string()));
            assert_eq!(plan.query, Some("SELECT 1".to_string()));
        }
        _ => panic!("the startup was not asked for"),
    }
    assert!(app.matrix_animation.is_none());
    app.perform_startup_tasks_sync(Some(Ok("SELECT 1;\n".to_string())), Some(Ok(pets())));
    assert!(app.startup_complete);
    assert_eq!(app.current_mode, AppMode::TableViewer);
    assert_eq!(app.query_blocks.len(), 1);
    app.current_mode = AppMode::MatrixLoading;
    assert!(nothing(app.handle_key_event(key(' '))));
    assert!(nothing(app.handle_key_event(press(KeyCode::Esc))));
    assert!(app.should_quit);
}

#[test]
fn run_without_the_sequence_asks_for_the_startup() {
    let mut app = session(None, Some("   "), false);
    match app.run(80, 24) {
        AppAction::RunStartup(plan) => {
            assert_eq!(plan.file, None);
            assert_eq!(plan.query, None);
        }
        _ => panic!("the startup was not asked for"),
    }
    assert!(app.matrix_animation.is_none());
    app.perform_startup_tasks_sync(None, None);
    assert!(app.startup_complete);
    assert_eq!(app.current_mode, AppMode::FileView);
    assert_eq!(
        last_toast(&app),
        ("Query validation failed: Query is empty".to_string(), ToastType::Error)
    );
}

#[test]
fn startup_now_with_a_failing_query_and_a_missing_file() {
    let mut app = session(Some("gone.sql"), Some("SELECT x"), false);
    app.perform_startup_tasks_sync(
        Some(Err("No such file".to_string())),
        Some(Err("relation missing".to_string())),
    );
    assert!(app.startup_complete);
    assert!(app.file_loading_complete);
    assert_eq!(app.current_mode, AppMode::FileView);
    assert_eq!(app.file_content, "");
    assert!(!app.is_querying);
    let messages: Vec<String> = app.ui.toast_messages.iter().map(|t| t.message.clone()).collect();
    assert_eq!(
        messages,
        strings(&["Failed to load file: No such file", "Query execution failed: relation missing"])
    );
}

#[test]
fn load_file_reports_and_parses() {
    let mut app = session(None, None, false);
    app.cursor_line = 5;
    app.scroll_offset = 3;
    app.load_file("q.sql", Ok("SELECT 1;\nSELECT 2;\n".to_string()));
    assert_eq!(app.file_content, "SELECT 1;\nSELECT 2;\n");
    assert_eq!(app.current_file, Some("q.sql".to_string()));
    assert_eq!((app.cursor_line, app.scroll_offset), (0, 0));
    assert_eq!(app.query_blocks.len(), 2);
    assert_eq!(last_toast(&app), ("Loaded file q.sql".to_string(), ToastType::Info));
    app.load_file("gone.sql", Err("denied".to_string()));
    assert_eq!(app.file_content, "SELECT 1;\nSELECT 2;\n");
    assert_eq!(app.current_file, Some("q.sql".to_string()));
    assert_eq!(last_toast(&app), ("Failed to load file: denied".to_string(), ToastType::Error));
}

#[test]
fn a_blank_first_query_is_refused_and_nothing_else_changes() {
    let mut app = in_table_viewer();
    app.is_querying = true;
    app.execute_query_internal("  \n", Some(Ok(viewer(&["x"], &[&["other"]]))));
    assert!(!app.is_querying);
    assert_eq!(app.current_mode, AppMode::TableViewer);
    assert_eq!(app.table_viewer.as_ref().unwrap().data.rows.len(), 3);
    assert_eq!(app.ui.toast_messages.len(), 1);
    assert_eq!(
        last_toast(&app),
        ("Query validation failed: Query is empty".to_string(), ToastType::Error)
    );
    app.current_mode = AppMode::Help;
    app.execute_query_internal("", None);
    assert_eq!(app.current_mode, AppMode::Help);
    assert!(app.table_viewer.is_some());
    assert_eq!(app.ui.toast_messages.len(), 2);
}

#[test]
fn a_first_query_without_an_outcome_shows_nothing() {
    let mut app = in_table_viewer();
    app.is_querying = true;
    app.execute_query_internal("SELECT 1", None);
    assert!(!app.is_querying);
    assert_eq!(app.current_mode, AppMode::TableViewer);
    assert_eq!(app.table_viewer.as_ref().unwrap().data.rows.len(), 3);
    assert!(app.ui.toast_messages.is_empty());
    app.execute_query_internal("SELECT 1", Some(Err("down".to_string())));
    assert_eq!(app.current_mode, AppMode::FileView);
    assert_eq!(last_toast(&app), ("Query execution failed: down".to_string(), ToastType::Error));
    app.execute_query_internal("SELECT 1", Some(Ok(viewer(&["x"], &[&["one"]]))));
    assert_eq!(app.current_mode, AppMode::TableViewer);
    assert_eq!(app.table_viewer.as_ref().unwrap().data.rows.len(), 1);
    assert_eq!(last_toast(&app), ("Query executed successfully".to_string(), ToastType::Success));
}

#[test]
fn startup_now_with_a_query_that_was_not_run_ends_in_the_file_view() {
    let mut app = session(None, Some("SELECT 1"), false);
    app.perform_startup_tasks_sync(None, None);
    assert!(app.startup_complete);
    assert_eq!(app.current_mode, AppMode::FileView);
    assert!(app.ui.toast_messages.is_empty());
    let mut blank = session(None, Some(" "), false);
    blank.perform_startup_tasks_sync(None, Some(Ok(pets())));
    assert_eq!(blank.current_mode, AppMode::FileView);
    assert!(blank.table_viewer.is_none());
    assert!(!blank.is_querying);
}

#[test]
fn validate_query_refuses_blank_text() {
    let app = session(None, None, false);
    assert_eq!(app.validate_query("  \n\t"), Err("Query is empty".to_string()));
    assert_eq!(app.validate_query(""), Err("Query is empty".to_string()));
    assert_eq!(app.validate_query(" SELECT 1 "), Ok(()));
}

#[test]
fn the_startup_task_is_spawned_once_at_three_tenths() {
    let mut app = session(Some("q.sql"), None, true);
    assert!(nothing(app.run(80, 24)));
    assert!(!app.update_at(Vec::new(), 0));
    assert!(!app.update_at(Vec::new(), 1199));
    assert!(app.startup_task.is_none());
    assert!(app.update_at(Vec::new(), 1200));
    assert!(app.startup_task.is_some());
    assert!(!app.update_at(Vec::new(), 1300));
    let plan = app.spawn_startup_tasks();
    assert_eq!(plan.file, Some("q.sql".to_string()));
    assert_eq!(plan.query, None);
    let result = StartupResult::build(Some("q.sql"), Some(Ok("SELECT 1;\n".to_string())), None);
    assert_eq!(result.success_message, Some("Loaded and parsed file q.sql".to_string()));
    assert_eq!(result.query_blocks.len(), 1);
    app.finish_startup(StartupOutcome::Finished(result));
    assert!(app.startup_task.is_none());
    assert!(app.startup_complete);
    assert_eq!(app.file_content, "SELECT 1;\n");
    assert_eq!(app.current_mode, AppMode::FileView);
    assert!(!app.update_at(Vec::new(), 2000));
    assert!(app.startup_task.is_none());
}

#[test]
fn the_sequence_hands_over_only_when_both_are_done() {
    let mut app = session(None, Some("SELECT 1"), true);
    assert!(nothing(app.run(80, 24)));
    app.finish_animation_at(5000);
    assert!(app.matrix_animation.is_some());
    assert_eq!(app.current_mode, AppMode::MatrixLoading);
    let result = StartupResult::build(None, None, Some(Ok(pets())));
    assert_eq!(result.success_message, Some("Query executed successfully".to_string()));
    app.finish_startup(StartupOutcome::Finished(result));
    assert!(app.startup_complete);
    assert_eq!(app.current_mode, AppMode::MatrixLoading);
    app.finish_animation_at(3999);
    assert!(app.matrix_animation.is_some());
    app.finish_animation_at(4000);
    assert!(app.matrix_animation.is_none());
    assert_eq!(app.current_mode, AppMode::TableViewer);
}

#[test]
fn a_failed_startup_task_still_completes_the_startup() {
    let mut app = session(None, None, true);
    assert!(nothing(app.run(80, 24)));
    assert!(app.update_at(Vec::new(), 4000));
    app.finish_startup(StartupOutcome::Panicked("task 7 panicked".to_string()));
    assert!(app.startup_complete);
    assert!(app.startup_task.is_none());
    assert_eq!(
        last_toast(&app),
        ("Startup task panicked: task 7 panicked".to_string(), ToastType::Error)
    );
    app.finish_startup(StartupOutcome::Failed("no luck".to_string()));
    assert_eq!(last_toast(&app), ("Startup task failed: no luck".to_string(), ToastType::Error));
    app.finish_animation_at(4000);
    assert_eq!(app.current_mode, AppMode::FileView);
}

#[test]
fn a_result_during_the_sequence_is_held_back() {
    let mut app = session(None, None, true);
    assert!(nothing(app.run(80, 24)));
    app.apply_message(AppMessage::QueryResult(Ok(pets())));
    assert_eq!(app.current_mode, AppMode::MatrixLoading);
    assert!(app.table_viewer.is_some());
    assert!(app.ui.toast_messages.is_empty());
    app.apply_message(AppMessage::QueryResult(Err("bad".to_string())));
    assert_eq!(app.current_mode, AppMode::FileView);
    assert!(app.matrix_animation.is_none());
    assert_eq!(last_toast(&app), ("bad".to_string(), ToastType::Error));
}

#[test]
fn startup_result_with_errors() {
    let result = StartupResult::build(
        Some("gone.sql"),
        Some(Err("denied".to_string())),
        Some(Err("down".to_string())),
    );
    assert_eq!(result.file_content, None);
    assert!(result.table_viewer.is_none());
    assert_eq!(result.success_message, None);
    assert_eq!(result.error_message, Some("Query execution failed: down".to_string()));
    let only_file = StartupResult::build(Some("gone.sql"), Some(Err("denied".to_string())), None);
    assert_eq!(only_file.error_message, Some("Failed to load file: denied".to_string()));
}

#[test]
fn at_most_five_notifications_are_kept() {
    let mut app = session(None, None, false);
    for i in 0..7 {
        app.notify(format!("n{}", i), ToastType::Info);
    }
    let messages: Vec<String> = app.ui.toast_messages.iter().map(|t| t.message.clone()).collect();
    assert_eq!(messages, strings(&["n2", "n3", "n4", "n5", "n6"]));
}
