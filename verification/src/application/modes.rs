use crate::application::app::App;
use crate::application::clipboard::ClipboardManager;
use crate::application::state::AppAction;
use crate::application::state::AppMode;
use crate::application::state::outcome_view;
use crate::database::query_result::QueryResult;
use crate::keys::push_digit;
use crate::keys::times_ten_capped;
use crate::keys::KeyCode;
use crate::keys::KeyEvent;
use crate::table_viewer::data::TableViewer;
use crate::text::str_concat;
use crate::text::lines;
use crate::text::push_char;
use crate::text::split_lines;
use crate::text::str_chars;
use crate::text::str_equal;
use crate::text::string_of_range;
use crate::ui::toast::ToastType;
use vstd::prelude::*;

verus! {

/// Whether a key quits or closes.
pub fn is_close(key: &KeyEvent) -> (r: bool)
    ensures
        r == crate::application::model::is_close_key(*key),
{
    match key.code {
        KeyCode::Esc => true,
        KeyCode::Char(c) => c == 'q',
        _ => false,
    }
}

/// Whether a key types the character `c`.
pub fn is_char(key: &KeyEvent, c: char) -> (r: bool)
    ensures
        r == (key.code == KeyCode::Char(c)),
{
    match key.code {
        KeyCode::Char(d) => d == c,
        _ => false,
    }
}

impl App {
    /// The number of the last line of the file; 0 for an empty file.
    fn max_line(&self) -> (r: usize)
        ensures
            r == self@.max_line(),
    {
        let chars = str_chars(self.file_content.as_str());
        let all = split_lines(&chars);
        if all.len() > 0 {
            all.len() - 1
        } else {
            0
        }
    }

    /// Puts the cursor on a line.
    fn put_cursor(&mut self, line: usize)
        ensures
            final(self)@ == old(self)@.cursor_at(line),
    {
        self.cursor_line = line;
        self.adjust_scroll();
    }

    /// Moves the cursor up by `count` lines.
    fn cursor_up(&mut self, count: usize)
        ensures
            final(self)@ == old(self)@.cursor_at(
                crate::table_viewer::navigation::minus(
                    old(self).cursor_line as int,
                    count as int,
                ),
            ),
    {
        let line = if self.cursor_line >= count {
            self.cursor_line - count
        } else {
            0
        };
        self.put_cursor(line);
    }

    /// Moves the cursor down by `count` lines, but not past the last line.
    fn cursor_down(&mut self, count: usize)
        ensures
            final(self)@ == old(self)@.cursor_at(
                crate::table_viewer::navigation::plus_up_to(
                    old(self).cursor_line as int,
                    count as int,
                    old(self)@.max_line(),
                ),
            ),
    {
        let max_line = self.max_line();
        let line = if self.cursor_line > max_line || count > max_line - self.cursor_line {
            max_line
        } else {
            self.cursor_line + count
        };
        self.put_cursor(line);
    }

    /// Handles a key press while a search is typed.
    pub fn handle_searching_keys(&mut self, key: KeyEvent)
        ensures
            final(self)@ == old(self)@.after_searching_key(key),
    {
        match key.code {
            KeyCode::Enter => {
                match &mut self.table_viewer {
                    Some(viewer) => {
                        viewer.search(self.search_input.as_str());
                    },
                    None => {},
                }
                self.current_mode = AppMode::TableViewer;
            },
            KeyCode::Char(c) => {
                push_char(&mut self.search_input, c);
            },
            KeyCode::Backspace => {
                let chars = str_chars(self.search_input.as_str());
                if chars.len() > 0 {
                    self.search_input = string_of_range(&chars, 0, chars.len() - 1);
                    assert(self.search_input@ =~= old(self).search_input@.drop_last());
                }
            },
            KeyCode::Esc => {
                self.search_input = String::new();
                self.current_mode = AppMode::TableViewer;
            },
            _ => {},
        }
    }

    /// The step that yanking the row under the cursor of a viewer leads to.
    fn yank_row(&mut self, in_table: bool) -> (action: AppAction)
        ensures
            final(self)@ == old(self)@.row_yanked(
                if in_table {
                    old(self)@.table_viewer
                } else {
                    old(self)@.foreign_key_viewer
                },
                in_table,
            ).state,
            action@ == old(self)@.row_yanked(
                if in_table {
                    old(self)@.table_viewer
                } else {
                    old(self)@.foreign_key_viewer
                },
                in_table,
            ).action,
    {
        let viewer = if in_table {
            &self.table_viewer
        } else {
            &self.foreign_key_viewer
        };
        let text = match viewer {
            Some(v) => match v.get_current_row_with_headers() {
                Some((headers, row_values)) => Some(
                    Some(ClipboardManager::new().copy_row(headers, row_values)),
                ),
                None => Some(None),
            },
            None => None,
        };
        match text {
            Some(Some(formatted_row)) => AppAction::Copy(formatted_row),
            Some(None) => {
                if !in_table {
                    self.notify("No row to yank".to_owned(), ToastType::Info);
                }
                AppAction::Nothing
            },
            None => {
                if in_table {
                    self.notify("No row to yank".to_owned(), ToastType::Info);
                }
                AppAction::Nothing
            },
        }
    }

    /// The step that yanking the cell under the cursor of a viewer leads to.
    fn yank_cell(&mut self, in_table: bool) -> (action: AppAction)
        ensures
            final(self)@ == old(self)@.cell_yanked(
                if in_table {
                    old(self)@.table_viewer
                } else {
                    old(self)@.foreign_key_viewer
                },
                in_table,
            ).state,
            action@ == old(self)@.cell_yanked(
                if in_table {
                    old(self)@.table_viewer
                } else {
                    old(self)@.foreign_key_viewer
                },
                in_table,
            ).action,
    {
        let viewer = if in_table {
            &self.table_viewer
        } else {
            &self.foreign_key_viewer
        };
        let text = match viewer {
            Some(v) => Some(v.get_current_cell_value()),
            None => None,
        };
        match text {
            Some(Some(cell_value)) => AppAction::Copy(cell_value),
            Some(None) => {
                if !in_table {
                    self.notify("No cell to yank".to_owned(), ToastType::Info);
                }
                AppAction::Nothing
            },
            None => {
                if in_table {
                    self.notify("No cell to yank".to_owned(), ToastType::Info);
                }
                AppAction::Nothing
            },
        }
    }

    /// Handles a key press while a chord is pending.
    fn handle_chord_keys(&mut self, key: KeyEvent, in_table: bool) -> (action: AppAction)
        ensures
            final(self)@ == old(self)@.after_chord_key(
                key,
                if in_table {
                    old(self)@.table_viewer
                } else {
                    old(self)@.foreign_key_viewer
                },
                in_table,
            ).state,
            action@ == old(self)@.after_chord_key(
                key,
                if in_table {
                    old(self)@.table_viewer
                } else {
                    old(self)@.foreign_key_viewer
                },
                in_table,
            ).action,
    {
        match key.code {
            KeyCode::Char(c) => {
                push_char(&mut self.yank_sequence, c);
            },
            _ => {
                self.yank_sequence = String::new();
                return AppAction::Nothing;
            },
        }
        let sequence = self.yank_sequence.clone();
        let should_reset = !(str_equal(sequence.as_str(), "y") || str_equal(
            sequence.as_str(),
            "yi",
        ));
        if should_reset {
            self.yank_sequence = String::new();
            if str_equal(sequence.as_str(), "yy") {
                return self.yank_row(in_table);
            } else if str_equal(sequence.as_str(), "yiw") {
                return self.yank_cell(in_table);
            }
        }
        AppAction::Nothing
    }

    /// Handles a key press in the foreign-key viewer.
    pub fn handle_foreign_key_viewer_keys(&mut self, key: KeyEvent) -> (action: AppAction)
        ensures
            final(self)@ == old(self)@.after_foreign_key_viewer_key(key).state,
            action@ == old(self)@.after_foreign_key_viewer_key(key).action,
    {
        if !self.yank_sequence.as_str().is_empty() {
            return self.handle_chord_keys(key, false);
        }
        if is_char(&key, 'y') {
            push_char(&mut self.yank_sequence, 'y');
        } else if is_close(&key) {
            self.foreign_key_viewer = None;
            self.current_mode = AppMode::TableViewer;
        } else if is_char(&key, '?') {
            self.open_help();
        } else {
            match &mut self.foreign_key_viewer {
                Some(viewer) => {
                    viewer.handle_key(key);
                },
                None => {},
            }
        }
        AppAction::Nothing
    }

    /// Handles a key press in the file view.
    pub fn handle_file_view_keys(&mut self, key: KeyEvent) -> (action: AppAction)
        ensures
            final(self)@ == old(self)@.after_file_view_key(key).state,
            action@ == old(self)@.after_file_view_key(key).action,
    {
        if let Some(digit) = key.as_digit() {
            self.movement_multiplier = Some(push_digit(self.movement_multiplier, digit));
            return AppAction::Nothing;
        }
        let count = match self.movement_multiplier {
            Some(n) => n,
            None => 1,
        };
        self.movement_multiplier = None;
        match key.code {
            KeyCode::Up => {
                self.cursor_up(count);
            },
            KeyCode::Down => {
                self.cursor_down(count);
            },
            KeyCode::PageUp => {
                self.cursor_up(times_ten_capped(count));
            },
            KeyCode::PageDown => {
                self.cursor_down(times_ten_capped(count));
            },
            KeyCode::Home => {
                self.put_cursor(0);
            },
            KeyCode::End => {
                let last = self.max_line();
                self.put_cursor(last);
            },
            KeyCode::Esc => {
                self.should_quit = true;
            },
            KeyCode::Char(c) => {
                if c == 'k' {
                    self.cursor_up(count);
                } else if c == 'j' {
                    self.cursor_down(count);
                } else if c == 'q' {
                    self.should_quit = true;
                } else if c == 'e' {
                    return self.execute_current_query();
                } else if c == '?' {
                    self.open_help();
                }
            },
            _ => {},
        }
        AppAction::Nothing
    }

    /// The step that asks for a description of the cell under the cursor.
    fn inspect_cell(&mut self) -> (action: AppAction)
        ensures
            final(self)@ == old(self)@.cell_inspected().state,
            action@ == old(self)@.cell_inspected().action,
    {
        let request = match &self.table_viewer {
            Some(viewer) => Some(viewer.lookup_foreign_key_info()),
            None => None,
        };
        match request {
            Some(Some(r)) => AppAction::DescribeForeignKey(r),
            Some(None) => {
                self.cell_info_done(None);
                AppAction::Nothing
            },
            None => AppAction::Nothing,
        }
    }

    /// The step that follows the foreign key of the cell under the cursor
    /// of the table viewer.
    fn follow_key(&mut self, tell_if_none: bool) -> (action: AppAction)
        ensures
            final(self)@ == old(self)@.key_followed(tell_if_none).state,
            action@ == old(self)@.key_followed(tell_if_none).action,
    {
        let request = match &self.table_viewer {
            Some(viewer) => Some(viewer.lookup_foreign_key()),
            None => None,
        };
        match request {
            Some(Some(r)) => AppAction::LookupForeignKey(r),
            Some(None) => {
                if tell_if_none {
                    self.notify(
                        "No foreign key data found for this cell".to_owned(),
                        ToastType::Info,
                    );
                }
                AppAction::Nothing
            },
            None => AppAction::Nothing,
        }
    }

    /// Handles the close key in the table viewer.
    fn close_table(&mut self)
        ensures
            final(self)@ == old(self)@.table_closed(),
    {
        let chart_shown = match &self.table_viewer {
            Some(viewer) => Some(viewer.show_chart),
            None => None,
        };
        match chart_shown {
            Some(true) => {
                match &mut self.table_viewer {
                    Some(viewer) => {
                        viewer.toggle_chart(0);
                    },
                    None => {},
                }
            },
            Some(false) => {
                self.current_mode = AppMode::FileView;
                self.table_viewer = None;
                self.foreign_key_viewer = None;
            },
            None => {},
        }
    }

    /// Handles a key press in the table viewer.
    pub fn handle_table_viewer_keys(&mut self, key: KeyEvent) -> (action: AppAction)
        ensures
            final(self)@ == old(self)@.after_table_viewer_key(key).state,
            action@ == old(self)@.after_table_viewer_key(key).action,
    {
        if !self.yank_sequence.as_str().is_empty() {
            return self.handle_chord_keys(key, true);
        }
        if is_char(&key, 'y') {
            push_char(&mut self.yank_sequence, 'y');
            AppAction::Nothing
        } else if is_char(&key, 'K') {
            self.inspect_cell()
        } else if is_char(&key, 'F') {
            self.follow_key(true)
        } else if is_char(&key, '/') {
            self.search_input = String::new();
            self.current_mode = AppMode::Searching;
            AppAction::Nothing
        } else {
            if self.table_viewer.is_some() {
                if is_close(&key) {
                    self.close_table();
                } else if is_char(&key, '?') {
                    self.open_help();
                } else {
                    match &mut self.table_viewer {
                        Some(viewer) => {
                            viewer.handle_key(key);
                        },
                        None => {},
                    }
                }
            }
            AppAction::Nothing
        }
    }

    /// Handles a key press on the help screen.
    pub fn handle_help_keys(&mut self, key: KeyEvent)
        ensures
            final(self)@ == old(self)@.after_help_key(key),
    {
        if is_close(&key) || is_char(&key, '?') {
            self.current_mode = match self.previous_mode {
                Some(m) => m,
                None => AppMode::FileView,
            };
            self.previous_mode = None;
        }
    }

    /// Handles a key press on the description of a cell.
    pub fn handle_cell_info_keys(&mut self, key: KeyEvent) -> (action: AppAction)
        ensures
            final(self)@ == old(self)@.after_cell_info_key(key).state,
            action@ == old(self)@.after_cell_info_key(key).action,
    {
        if is_close(&key) {
            self.cell_info = None;
            self.current_mode = AppMode::TableViewer;
            AppAction::Nothing
        } else if is_char(&key, 'F') {
            let has_key = match &self.cell_info {
                Some(cell_info) => cell_info.foreign_key_info.is_some(),
                None => false,
            };
            if has_key {
                self.follow_key(false)
            } else {
                AppAction::Nothing
            }
        } else if is_char(&key, '?') {
            self.open_help();
            AppAction::Nothing
        } else {
            AppAction::Nothing
        }
    }

    /// Takes in the host's report of how the copying of `text` went.
    pub fn clipboard_done(&mut self, text: &str, outcome: Result<(), String>)
        ensures
            final(self)@ == old(self)@.after_copy(text@, outcome),
    {
        ClipboardManager::new().copy_text(text, outcome, &mut self.ui);
    }

    /// Takes in the host's report of what following a foreign key gave.
    pub fn foreign_key_done(&mut self, outcome: Result<TableViewer, String>)
        ensures
            final(self)@ == old(self)@.after_key_lookup(outcome_view(outcome)),
    {
        match outcome {
            Ok(new_viewer) => {
                if self.table_viewer.is_some() {
                    self.foreign_key_viewer = Some(new_viewer);
                    self.current_mode = AppMode::ForeignKeyView;
                }
            },
            Err(e) => {
                self.notify(str_concat("FK lookup failed: ", e.as_str()), ToastType::Error);
            },
        }
    }

    /// Takes in the host's report of what the database knows of the foreign
    /// key of the cell under the cursor, and shows the description of the
    /// cell.
    pub fn cell_info_done(&mut self, lookup: Option<QueryResult>)
        ensures
            final(self)@ == old(self)@.after_cell_lookup(lookup),
    {
        let info = match &self.table_viewer {
            Some(viewer) => Some(viewer.get_cell_info(lookup)),
            None => None,
        };
        match info {
            Some(cell_info) => {
                self.cell_info = Some(cell_info);
                self.current_mode = AppMode::CellInfoView;
            },
            None => {},
        }
    }
}

} // verus!
