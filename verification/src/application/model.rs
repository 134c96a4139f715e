//! The session as a state machine: its mathematical state, and what each
//! event makes of it.

use crate::application::clipboard::copy_report;
use crate::application::clipboard::row_text;
use crate::application::state::ActionView;
use crate::application::state::AppMode;
use crate::application::state::OutcomeView;
use crate::application::state::PlanView;
use crate::application::state::StartupOutcomeView;
use crate::application::state::StartupView;
use crate::config::settings::Config;
use crate::database::query_result::QueryResult;
use crate::keys::capped_mul;
use crate::keys::with_digit;
use crate::keys::KeyCode;
use crate::keys::KeyEvent;
use crate::matrix::animation::finished_after;
use crate::matrix::animation::startup_due_after;
use crate::query_parser::block::BlockView;
use crate::query_parser::parser::find_index;
use crate::query_parser::parser::parse;
use crate::table_viewer::cell_info::CellInfoView;
use crate::table_viewer::data::ViewerView;
use crate::table_viewer::navigation::minus;
use crate::table_viewer::navigation::plus_up_to;
use crate::table_viewer::navigation::scroll_to;
use crate::table_viewer::visible::window;
use crate::text::is_blank;
use crate::text::lines;
use crate::ui::toast::toast;
use crate::ui::toast::with_toast;
use crate::ui::toast::ToastType;
use crate::ui::toast::ToastView;
use vstd::prelude::*;

verus! {

/// The number of lines of the file that are shown at once.
pub const VISIBLE_LINES: usize = 20;

/// The number of lines that a page key moves the cursor by.
pub const PAGE_SIZE: usize = 10;

/// The mathematical state of a session.
pub ghost struct AppView {
    pub config: Config,
    pub current_mode: AppMode,
    pub previous_mode: Option<AppMode>,
    pub current_file: Option<Seq<char>>,
    pub file_content: Seq<char>,
    /// The length in milliseconds of the decorative sequence, while it runs.
    pub matrix_animation: Option<u64>,
    pub table_viewer: Option<ViewerView>,
    pub foreign_key_viewer: Option<ViewerView>,
    pub search_input: Seq<char>,
    pub search_cursor_position: u16,
    pub movement_multiplier: Option<usize>,
    pub toasts: Seq<ToastView>,
    pub last_mouse_position: Option<(u16, u16)>,
    pub spinner_frame: usize,
    pub should_quit: bool,
    pub cursor_line: usize,
    pub scroll_offset: usize,
    pub yank_sequence: Seq<char>,
    pub is_querying: bool,
    pub startup_complete: bool,
    pub pending_query: Option<Seq<char>>,
    pub file_loading_complete: bool,
    /// Whether a startup task runs in the background.
    pub startup_task: bool,
    pub cell_info: Option<CellInfoView>,
    pub query_blocks: Seq<BlockView>,
}

/// What a step of the session leads to: the next state, and the work that
/// the host is to do.
pub ghost struct Step {
    pub state: AppView,
    pub action: ActionView,
}

/// Whether a key quits or closes: `q` or escape.
pub open spec fn is_close_key(key: KeyEvent) -> bool {
    key.code == KeyCode::Char('q') || key.code == KeyCode::Esc
}

/// Whether a key skips the decorative sequence: enter or space.
pub open spec fn is_skip_key(key: KeyEvent) -> bool {
    key.code == KeyCode::Enter || key.code == KeyCode::Char(' ')
}

/// Whether a chord of keys is the start of a longer one.
pub open spec fn is_chord_prefix(chord: Seq<char>) -> bool {
    chord == "y"@ || chord == "yi"@
}

impl AppView {
    /// The state with nothing for the host to do.
    pub open spec fn idle(self) -> Step {
        Step { state: self, action: ActionView::Nothing }
    }

    /// The state with one more notification.
    pub open spec fn notified(self, message: Seq<char>, kind: ToastType) -> AppView {
        AppView { toasts: with_toast(self.toasts, toast(message, kind)), ..self }
    }

    /// The state with the help screen opened over the present mode.
    pub open spec fn help_opened(self) -> AppView {
        AppView { previous_mode: Some(self.current_mode), current_mode: AppMode::Help, ..self }
    }

    /// The state with the help screen closed: back in the mode that it was
    /// opened over, or in the file view where none is recorded.
    pub open spec fn help_closed(self) -> AppView {
        AppView {
            current_mode: match self.previous_mode {
                Some(m) => m,
                None => AppMode::FileView,
            },
            previous_mode: None,
            ..self
        }
    }

    /// The index of the last line of the file; 0 for an empty file.
    pub open spec fn max_line(self) -> int {
        minus(lines(self.file_content).len() as int, 1) as int
    }

    /// The state with the scroll offset brought up to the cursor.
    pub open spec fn scroll_adjusted(self) -> AppView {
        AppView {
            scroll_offset: scroll_to(self.scroll_offset, self.cursor_line, VISIBLE_LINES),
            ..self
        }
    }

    /// The state with the cursor on line `line`.
    pub open spec fn cursor_at(self, line: usize) -> AppView {
        AppView { cursor_line: line, ..self }.scroll_adjusted()
    }

    /// The block under the cursor.
    pub open spec fn current_block(self) -> Option<BlockView> {
        match find_index(self.query_blocks, self.cursor_line + 1) {
            Some(k) => Some(self.query_blocks[k]),
            None => None,
        }
    }

    /// Whether a notification of routine work is due: not while the
    /// decorative sequence still hides the first content.
    pub open spec fn reports_progress(self) -> bool {
        self.startup_complete || !self.config.matrix.enabled
    }

    /// The step that starts `query` in the background: the session is busy
    /// from now on.
    pub open spec fn query_started(self, query: Seq<char>) -> Step {
        let busy = AppView { is_querying: true, ..self };
        Step {
            state: if self.config.matrix.enabled && self.startup_complete {
                busy.notified("Executing query"@, ToastType::Info)
            } else {
                busy
            },
            action: ActionView::ExecuteQuery(query),
        }
    }

    /// The step that executes the block under the cursor: its text, and no
    /// other, is started; where no block with text is under the cursor the
    /// user is told so.
    pub open spec fn current_query_executed(self) -> Step {
        match self.current_block() {
            Some(b) => if !is_blank(b.text) {
                self.query_started(b.text)
            } else {
                self.notified(
                    "No query found at current cursor position"@,
                    ToastType::Error,
                ).idle()
            },
            None => self.notified(
                "No query found at current cursor position"@,
                ToastType::Error,
            ).idle(),
        }
    }

    /// The step that a key press leads to in the file view.
    pub open spec fn after_file_view_key(self, key: KeyEvent) -> Step {
        match key.digit() {
            Some(d) => AppView {
                movement_multiplier: Some(with_digit(self.movement_multiplier, d)),
                ..self
            }.idle(),
            None => {
                let count = match self.movement_multiplier {
                    Some(n) => n,
                    None => 1usize,
                };
                let page = capped_mul(count as int, PAGE_SIZE as int);
                let s = AppView { movement_multiplier: None, ..self };
                let up = s.cursor_at(minus(s.cursor_line as int, count as int));
                let down = s.cursor_at(plus_up_to(s.cursor_line as int, count as int, s.max_line()));
                match key.code {
                    KeyCode::Up => up.idle(),
                    KeyCode::Down => down.idle(),
                    KeyCode::PageUp => s.cursor_at(minus(s.cursor_line as int, page as int)).idle(),
                    KeyCode::PageDown => s.cursor_at(
                        plus_up_to(s.cursor_line as int, page as int, s.max_line()),
                    ).idle(),
                    KeyCode::Home => s.cursor_at(0).idle(),
                    KeyCode::End => s.cursor_at(s.max_line() as usize).idle(),
                    KeyCode::Esc => AppView { should_quit: true, ..s }.idle(),
                    KeyCode::Char(c) => if c == 'k' {
                        up.idle()
                    } else if c == 'j' {
                        down.idle()
                    } else if c == 'q' {
                        AppView { should_quit: true, ..s }.idle()
                    } else if c == 'e' {
                        s.current_query_executed()
                    } else if c == '?' {
                        s.help_opened().idle()
                    } else {
                        s.idle()
                    },
                    _ => s.idle(),
                }
            },
        }
    }

    /// The step that yanking the row under the cursor of `viewer` leads to.
    /// `in_table` tells the table viewer from the foreign-key viewer.
    pub open spec fn row_yanked(self, viewer: Option<ViewerView>, in_table: bool) -> Step {
        match viewer {
            Some(v) => if v.current_row < v.data.rows.len() {
                Step {
                    state: self,
                    action: ActionView::Copy(
                        row_text(v.data.headers, v.data.rows[v.current_row as int]),
                    ),
                }
            } else if in_table {
                self.idle()
            } else {
                self.notified("No row to yank"@, ToastType::Info).idle()
            },
            None => if in_table {
                self.notified("No row to yank"@, ToastType::Info).idle()
            } else {
                self.idle()
            },
        }
    }

    /// The step that yanking the cell under the cursor of `viewer` leads to.
    pub open spec fn cell_yanked(self, viewer: Option<ViewerView>, in_table: bool) -> Step {
        match viewer {
            Some(v) => match v.current_cell() {
                Some(value) => Step { state: self, action: ActionView::Copy(value) },
                None => if in_table {
                    self.idle()
                } else {
                    self.notified("No cell to yank"@, ToastType::Info).idle()
                },
            },
            None => if in_table {
                self.notified("No cell to yank"@, ToastType::Info).idle()
            } else {
                self.idle()
            },
        }
    }

    /// The step that a key press leads to while a chord is pending. A
    /// character extends the chord; the chord is kept while it is the start
    /// of a longer one, and else given up, after its work is done where it is
    /// a whole chord. Any other key gives the chord up.
    pub open spec fn after_chord_key(self, key: KeyEvent, viewer: Option<ViewerView>, in_table: bool) -> Step {
        match key.code {
            KeyCode::Char(c) => {
                let chord = self.yank_sequence.push(c);
                if is_chord_prefix(chord) {
                    AppView { yank_sequence: chord, ..self }.idle()
                } else {
                    let s = AppView { yank_sequence: Seq::empty(), ..self };
                    if chord == "yy"@ {
                        s.row_yanked(viewer, in_table)
                    } else if chord == "yiw"@ {
                        s.cell_yanked(viewer, in_table)
                    } else {
                        s.idle()
                    }
                }
            },
            _ => AppView { yank_sequence: Seq::empty(), ..self }.idle(),
        }
    }

    /// The step that asks for a description of the cell under the cursor of
    /// the table viewer: where the database must be asked first, the host is
    /// to ask it; else the description is there at once.
    pub open spec fn cell_inspected(self) -> Step {
        match self.table_viewer {
            Some(v) => match v.key_info_request() {
                Some(request) => Step {
                    state: self,
                    action: ActionView::DescribeForeignKey(request),
                },
                None => AppView {
                    cell_info: Some(v.cell_info(None)),
                    current_mode: AppMode::CellInfoView,
                    ..self
                }.idle(),
            },
            None => self.idle(),
        }
    }

    /// The step that follows the foreign key of the cell under the cursor of
    /// the table viewer.
    pub open spec fn key_followed(self, tell_if_none: bool) -> Step {
        match self.table_viewer {
            Some(v) => match v.key_request() {
                Some(request) => Step {
                    state: self,
                    action: ActionView::LookupForeignKey(request),
                },
                None => if tell_if_none {
                    self.notified(
                        "No foreign key data found for this cell"@,
                        ToastType::Info,
                    ).idle()
                } else {
                    self.idle()
                },
            },
            None => self.idle(),
        }
    }

    /// The state after the close key in the table viewer: a chart that is
    /// shown is hidden, and nothing else; where none is shown the viewer is
    /// dropped, with any viewer that was opened from it, and the session is
    /// back in the file view.
    pub open spec fn table_closed(self) -> AppView {
        match self.table_viewer {
            Some(v) => if v.show_chart {
                AppView { table_viewer: Some(v.chart_toggled(0)), ..self }
            } else {
                AppView {
                    current_mode: AppMode::FileView,
                    table_viewer: None,
                    foreign_key_viewer: None,
                    ..self
                }
            },
            None => self,
        }
    }

    /// The step that a key press leads to in the table viewer.
    pub open spec fn after_table_viewer_key(self, key: KeyEvent) -> Step {
        if self.yank_sequence.len() > 0 {
            self.after_chord_key(key, self.table_viewer, true)
        } else if key.code == KeyCode::Char('y') {
            AppView { yank_sequence: self.yank_sequence.push('y'), ..self }.idle()
        } else if key.code == KeyCode::Char('K') {
            self.cell_inspected()
        } else if key.code == KeyCode::Char('F') {
            self.key_followed(true)
        } else if key.code == KeyCode::Char('/') {
            AppView { search_input: Seq::empty(), current_mode: AppMode::Searching, ..self }.idle()
        } else {
            match self.table_viewer {
                Some(v) => if is_close_key(key) {
                    self.table_closed().idle()
                } else if key.code == KeyCode::Char('?') {
                    self.help_opened().idle()
                } else {
                    AppView { table_viewer: Some(v.after_key(key)), ..self }.idle()
                },
                None => self.idle(),
            }
        }
    }

    /// The step that a key press leads to in the foreign-key viewer.
    pub open spec fn after_foreign_key_viewer_key(self, key: KeyEvent) -> Step {
        if self.yank_sequence.len() > 0 {
            self.after_chord_key(key, self.foreign_key_viewer, false)
        } else if key.code == KeyCode::Char('y') {
            AppView { yank_sequence: self.yank_sequence.push('y'), ..self }.idle()
        } else if is_close_key(key) {
            AppView {
                foreign_key_viewer: None,
                current_mode: AppMode::TableViewer,
                ..self
            }.idle()
        } else if key.code == KeyCode::Char('?') {
            self.help_opened().idle()
        } else {
            match self.foreign_key_viewer {
                Some(v) => AppView { foreign_key_viewer: Some(v.after_key(key)), ..self }.idle(),
                None => self.idle(),
            }
        }
    }

    /// The state that a key press leads to while a search is typed: enter
    /// runs the search over the rows of the table viewer, escape discards
    /// what was typed, and both lead back to the table viewer.
    pub open spec fn after_searching_key(self, key: KeyEvent) -> AppView {
        match key.code {
            KeyCode::Enter => AppView {
                table_viewer: match self.table_viewer {
                    Some(v) => Some(v.searched(self.search_input)),
                    None => None,
                },
                current_mode: AppMode::TableViewer,
                ..self
            },
            KeyCode::Char(c) => AppView { search_input: self.search_input.push(c), ..self },
            KeyCode::Backspace => AppView {
                search_input: if self.search_input.len() > 0 {
                    self.search_input.drop_last()
                } else {
                    self.search_input
                },
                ..self
            },
            KeyCode::Esc => AppView {
                search_input: Seq::empty(),
                current_mode: AppMode::TableViewer,
                ..self
            },
            _ => self,
        }
    }

    /// The state that a key press leads to on the help screen.
    pub open spec fn after_help_key(self, key: KeyEvent) -> AppView {
        if is_close_key(key) || key.code == KeyCode::Char('?') {
            self.help_closed()
        } else {
            self
        }
    }

    /// The step that a key press leads to on the description of a cell.
    pub open spec fn after_cell_info_key(self, key: KeyEvent) -> Step {
        if is_close_key(key) {
            AppView { cell_info: None, current_mode: AppMode::TableViewer, ..self }.idle()
        } else if key.code == KeyCode::Char('F') {
            match self.cell_info {
                Some(info) => if info.foreign_key_info is Some {
                    self.key_followed(false)
                } else {
                    self.idle()
                },
                None => self.idle(),
            }
        } else if key.code == KeyCode::Char('?') {
            self.help_opened().idle()
        } else {
            self.idle()
        }
    }

    /// What the startup work is to do: read the file, where one is named,
    /// and run the first query, where one is given and is not blank.
    pub open spec fn startup_plan(self) -> PlanView {
        PlanView {
            file: self.current_file,
            query: match self.pending_query {
                Some(q) => if is_blank(q) {
                    None
                } else {
                    Some(q)
                },
                None => None,
            },
        }
    }

    /// The step that a key press leads to while the decorative sequence
    /// runs: the quit key asks for the end of the session; the skip key,
    /// while the startup work is not done, ends the sequence and has the work
    /// done at once.
    pub open spec fn after_loading_key(self, key: KeyEvent) -> Step {
        let s = if is_close_key(key) {
            AppView { should_quit: true, ..self }
        } else {
            self
        };
        if !s.startup_complete && is_skip_key(key) {
            Step {
                state: AppView { matrix_animation: None, ..s },
                action: ActionView::RunStartup(s.startup_plan()),
            }
        } else {
            s.idle()
        }
    }

    /// The step that a key press leads to: what the key means depends on the
    /// mode.
    pub open spec fn after_key(self, key: KeyEvent) -> Step {
        match self.current_mode {
            AppMode::FileView => self.after_file_view_key(key),
            AppMode::TableViewer => self.after_table_viewer_key(key),
            AppMode::ForeignKeyView => self.after_foreign_key_viewer_key(key),
            AppMode::Searching => self.after_searching_key(key).idle(),
            AppMode::CellInfoView => self.after_cell_info_key(key),
            AppMode::MatrixLoading => self.after_loading_key(key),
            AppMode::Help => self.after_help_key(key).idle(),
        }
    }

    /// The state after the host has reported how the copying of `text` went.
    pub open spec fn after_copy(self, text: Seq<char>, outcome: Result<(), String>) -> AppView {
        AppView { toasts: with_toast(self.toasts, copy_report(text, outcome)), ..self }
    }

    /// The state after the host has reported what following a foreign key
    /// gave: a viewer on the rows, which the session then shows beside the
    /// table viewer that it was opened from, or an error. Without a table
    /// viewer there is nothing to open a viewer from, and the rows are let
    /// go.
    pub open spec fn after_key_lookup(self, outcome: OutcomeView) -> AppView {
        match outcome {
            OutcomeView::Viewer(v) => if self.table_viewer is Some {
                AppView {
                    foreign_key_viewer: Some(v),
                    current_mode: AppMode::ForeignKeyView,
                    ..self
                }
            } else {
                self
            },
            OutcomeView::Failure(e) => self.notified("FK lookup failed: "@ + e, ToastType::Error),
        }
    }

    /// The state after the host has reported what the database knows of the
    /// foreign key of the cell under the cursor: the session shows the
    /// description of the cell.
    pub open spec fn after_cell_lookup(self, lookup: Option<QueryResult>) -> AppView {
        match self.table_viewer {
            Some(v) => AppView {
                cell_info: Some(v.cell_info(lookup)),
                current_mode: AppMode::CellInfoView,
                ..self
            },
            None => self,
        }
    }

    /// The state once a query has ended with a viewer. The viewer takes the
    /// place of the one before; it is shown at once unless the decorative
    /// sequence still runs.
    pub open spec fn with_result(self, viewer: ViewerView) -> AppView {
        let s = AppView {
            table_viewer: Some(viewer),
            current_mode: if self.matrix_animation is None {
                AppMode::TableViewer
            } else {
                self.current_mode
            },
            ..self
        };
        if s.reports_progress() {
            s.notified("Query executed successfully"@, ToastType::Success)
        } else {
            s
        }
    }

    /// The state once a query has failed: the user is told, the session is
    /// back in the file view, and the decorative sequence is over.
    pub open spec fn with_failure(self, message: Seq<char>) -> AppView {
        AppView {
            current_mode: AppMode::FileView,
            matrix_animation: None,
            ..self.notified(message, ToastType::Error)
        }
    }

    /// The state after one message of a background query: the session is no
    /// longer busy, and shows the viewer or the error.
    pub open spec fn after_message(self, message: OutcomeView) -> AppView {
        let s = AppView { is_querying: false, ..self };
        match message {
            OutcomeView::Viewer(v) => s.with_result(v),
            OutcomeView::Failure(e) => s.with_failure(e),
        }
    }

    /// The state after a run of messages, each applied in the order of its
    /// arrival.
    pub open spec fn after_messages(self, messages: Seq<OutcomeView>) -> AppView
        decreases messages.len(),
    {
        if messages.len() == 0 {
            self
        } else {
            self.after_messages(messages.drop_last()).after_message(messages.last())
        }
    }

    /// Whether the startup task is to be spawned `elapsed_ms` milliseconds
    /// into the decorative sequence: once, when the sequence has come three
    /// tenths of its way.
    pub open spec fn startup_due(self, elapsed_ms: u128) -> bool {
        match self.matrix_animation {
            Some(duration_ms) => !self.startup_complete && !self.startup_task && startup_due_after(
                elapsed_ms,
                duration_ms,
            ),
            None => false,
        }
    }

    /// The state after the first part of a tick, `elapsed_ms` milliseconds
    /// into the decorative sequence: the messages are applied, and the
    /// startup task is marked as running where it is due.
    pub open spec fn after_tick(self, messages: Seq<OutcomeView>, elapsed_ms: u128) -> AppView {
        let s = self.after_messages(messages);
        AppView { startup_task: s.startup_task || s.startup_due(elapsed_ms), ..s }
    }

    /// The state after a file was read, or could not be.
    pub open spec fn after_file_read(self, path: Seq<char>, read: Result<String, String>) -> AppView {
        match read {
            Ok(content) => {
                let s = AppView {
                    file_content: content@,
                    current_file: Some(path),
                    cursor_line: 0,
                    scroll_offset: 0,
                    query_blocks: parse(content@),
                    ..self
                };
                if s.reports_progress() {
                    s.notified("Loaded file "@ + path, ToastType::Info)
                } else {
                    s
                }
            },
            Err(e) => self.notified("Failed to load file: "@ + e@, ToastType::Error),
        }
    }

    /// The state after the first query of a session was taken in. A blank
    /// query is refused and never run: the user is told, and nothing else
    /// changes. For any other query `outcome` is how its run ended, and the
    /// session shows the viewer or the failure; without an outcome nothing
    /// was run, and nothing is shown. Either way the session is not busy
    /// afterwards.
    pub open spec fn after_first_query(self, query: Seq<char>, outcome: Option<OutcomeView>) -> AppView {
        if is_blank(query) {
            AppView {
                is_querying: false,
                ..self.notified(
                    "Query validation failed: "@ + "Query is empty"@,
                    ToastType::Error,
                )
            }
        } else {
            match outcome {
                Some(OutcomeView::Viewer(v)) => AppView { is_querying: false, ..self.with_result(v) },
                Some(OutcomeView::Failure(e)) => AppView {
                    is_querying: false,
                    ..self.with_failure("Query execution failed: "@ + e)
                },
                None => AppView { is_querying: false, ..self },
            }
        }
    }

    /// Whether the first query of a session was run: it is not blank, and
    /// there is an outcome of its run.
    pub open spec fn was_run(query: Seq<char>, outcome: Option<OutcomeView>) -> bool {
        !is_blank(query) && outcome is Some
    }

    /// The state after the startup work was done at once: the file is
    /// loaded, the first query is taken in, and the startup is done. A
    /// session without a first query, or with one that was not run, is in
    /// the file view afterwards; one whose query was run shows the viewer
    /// or, after a failure, the file.
    pub open spec fn after_startup_now(
        self,
        file_read: Option<Result<String, String>>,
        query_outcome: Option<OutcomeView>,
    ) -> AppView {
        let loaded = match (self.current_file, file_read) {
            (Some(path), Some(read)) => self.after_file_read(path, read),
            _ => self,
        };
        let ready = AppView { file_loading_complete: true, ..loaded };
        let queried = match ready.pending_query {
            Some(q) => {
                let taken = ready.after_first_query(q, query_outcome);
                if Self::was_run(q, query_outcome) {
                    taken
                } else {
                    AppView { current_mode: AppMode::FileView, ..taken }
                }
            },
            None => AppView { current_mode: AppMode::FileView, ..ready },
        };
        AppView { startup_complete: true, ..queried }
    }

    /// The state with what the startup task handed back put in.
    pub open spec fn with_startup_result(self, result: StartupView) -> AppView {
        let loaded = match result.file_content {
            Some(content) => AppView {
                file_content: content,
                query_blocks: result.query_blocks,
                cursor_line: 0,
                scroll_offset: 0,
                file_loading_complete: true,
                ..self
            },
            None => self,
        };
        let shown = match result.table_viewer {
            Some(v) => AppView { table_viewer: Some(v), ..loaded },
            None => if loaded.pending_query is None {
                AppView { current_mode: AppMode::FileView, ..loaded }
            } else {
                loaded
            },
        };
        let praised = match result.success_message {
            Some(m) => shown.notified(m, ToastType::Success),
            None => shown,
        };
        match result.error_message {
            Some(m) => praised.notified(m, ToastType::Error),
            None => praised,
        }
    }

    /// The state after the startup task was seen to have ended: its mark is
    /// gone, the startup counts as done however the task ended, and the user
    /// is told where it did not end well.
    pub open spec fn after_startup_task(self, outcome: StartupOutcomeView) -> AppView {
        let s = AppView { startup_task: false, ..self };
        let applied = match outcome {
            StartupOutcomeView::Finished(result) => s.with_startup_result(result),
            StartupOutcomeView::Failed(e) => s.notified(
                "Startup task failed: "@ + e,
                ToastType::Error,
            ),
            StartupOutcomeView::Panicked(e) => s.notified(
                "Startup task panicked: "@ + e,
                ToastType::Error,
            ),
        };
        AppView { startup_complete: true, ..applied }
    }

    /// The state at the end of a tick, `elapsed_ms` milliseconds into the
    /// decorative sequence: the sequence hands over to the viewer, or to the
    /// file view where there is no viewer, once its time is up and the
    /// startup is done, and not before.
    pub open spec fn after_sequence_check(self, elapsed_ms: u128) -> AppView {
        match self.matrix_animation {
            Some(duration_ms) => if self.startup_complete && finished_after(
                elapsed_ms,
                duration_ms,
            ) {
                AppView {
                    matrix_animation: None,
                    current_mode: if self.table_viewer is Some {
                        AppMode::TableViewer
                    } else {
                        AppMode::FileView
                    },
                    ..self
                }
            } else {
                self
            },
            None => self,
        }
    }

    /// The lines of the file that a window of `height` lines shows.
    pub open spec fn visible_lines(self, height: usize) -> Seq<Seq<char>> {
        window(lines(self.file_content), self.scroll_offset as int, self.scroll_offset + height)
    }
}

} // verus!
