use crate::application::model::AppView;
use crate::application::model::VISIBLE_LINES;
use crate::application::state::viewer_view;
use crate::application::state::ActionView;
use crate::application::state::AppAction;
use crate::application::state::AppMode;
use crate::application::state::StartupPlan;
use crate::application::state::TaskHandle;
use crate::args::Args;
use crate::config::matrix::MatrixConfig;
use crate::config::settings::Config;
use crate::matrix::animation::MatrixAnimation;
use crate::query_parser::block::QueryBlock;
use crate::query_parser::parser::block_views;
use crate::query_parser::parser::find_index;
use crate::query_parser::parser::QueryParser;
use crate::table_viewer::cell_info::CellInfo;
use crate::table_viewer::cell_info::CellInfoView;
use crate::table_viewer::data::TableViewer;
use crate::table_viewer::navigation::scroll_offset_for;
use crate::table_viewer::visible::window;
use crate::text::lines;
use crate::text::split_lines;
use crate::text::str_chars;
use crate::text::str_is_blank;
use crate::text::string_of_chars;
use crate::ui::toast::ToastType;
use crate::ui::toast::UI;
use vstd::prelude::*;

verus! {

/// The view of an optional description of a cell.
pub open spec fn cell_info_view(c: Option<CellInfo>) -> Option<CellInfoView> {
    match c {
        Some(i) => Some(i@),
        None => None,
    }
}

/// The length of an optional animation.
pub open spec fn animation_view(a: Option<MatrixAnimation>) -> Option<u64> {
    match a {
        Some(m) => Some(m.config.duration_ms),
        None => None,
    }
}

/// A session: the one owner of all that the screens show and the keys change.
pub struct App {
    pub config: Config,
    pub current_mode: AppMode,
    pub previous_mode: Option<AppMode>,
    pub current_file: Option<String>,
    pub file_content: String,
    pub matrix_animation: Option<MatrixAnimation>,
    pub table_viewer: Option<TableViewer>,
    pub foreign_key_viewer: Option<TableViewer>,
    pub search_input: String,
    pub search_cursor_position: u16,
    pub movement_multiplier: Option<usize>,
    pub ui: UI,
    pub should_quit: bool,
    pub cursor_line: usize,
    pub scroll_offset: usize,
    pub yank_sequence: String,
    pub is_querying: bool,
    pub startup_complete: bool,
    pub pending_query: Option<String>,
    pub file_loading_complete: bool,
    pub startup_task: Option<TaskHandle>,
    pub cell_info: Option<CellInfo>,
    pub query_parser: QueryParser,
    pub query_blocks: Vec<QueryBlock>,
}

impl View for App {
    type V = AppView;

    open spec fn view(&self) -> AppView {
        AppView {
            config: self.config,
            current_mode: self.current_mode,
            previous_mode: self.previous_mode,
            current_file: self.current_file.deep_view(),
            file_content: self.file_content@,
            matrix_animation: animation_view(self.matrix_animation),
            table_viewer: viewer_view(self.table_viewer),
            foreign_key_viewer: viewer_view(self.foreign_key_viewer),
            search_input: self.search_input@,
            search_cursor_position: self.search_cursor_position,
            movement_multiplier: self.movement_multiplier,
            toasts: self.ui.toasts(),
            last_mouse_position: self.ui.last_mouse_position,
            spinner_frame: self.ui.spinner_frame,
            should_quit: self.should_quit,
            cursor_line: self.cursor_line,
            scroll_offset: self.scroll_offset,
            yank_sequence: self.yank_sequence@,
            is_querying: self.is_querying,
            startup_complete: self.startup_complete,
            pending_query: self.pending_query.deep_view(),
            file_loading_complete: self.file_loading_complete,
            startup_task: self.startup_task is Some,
            cell_info: cell_info_view(self.cell_info),
            query_blocks: block_views(self.query_blocks@),
        }
    }
}

/// The state of a session that has just been made: on the loading screen,
/// with nothing loaded, nothing shown, and nothing pending but the first
/// query.
pub open spec fn initial_state(
    config: Config,
    file: Option<Seq<char>>,
    query: Option<Seq<char>>,
) -> AppView {
    AppView {
        config,
        current_mode: AppMode::MatrixLoading,
        previous_mode: None,
        current_file: file,
        file_content: Seq::empty(),
        matrix_animation: None,
        table_viewer: None,
        foreign_key_viewer: None,
        search_input: Seq::empty(),
        search_cursor_position: 0,
        movement_multiplier: None,
        toasts: Seq::empty(),
        last_mouse_position: None,
        spinner_frame: 0,
        should_quit: false,
        cursor_line: 0,
        scroll_offset: 0,
        yank_sequence: Seq::empty(),
        is_querying: false,
        startup_complete: false,
        pending_query: query,
        file_loading_complete: false,
        startup_task: false,
        cell_info: None,
        query_blocks: Seq::empty(),
    }
}

/// A copy of an optional string.
pub fn clone_option(s: &Option<String>) -> (r: Option<String>)
    ensures
        r == *s,
{
    match s {
        Some(t) => Some(t.clone()),
        None => None,
    }
}

impl App {
    /// A new session for the given arguments and settings.
    pub fn new(args: &Args, config: Config) -> (r: Self)
        ensures
            r@ == initial_state(config, args.file.deep_view(), args.query.deep_view()),
    {
        let r = Self {
            config,
            current_mode: AppMode::MatrixLoading,
            previous_mode: None,
            current_file: clone_option(&args.file),
            file_content: String::new(),
            matrix_animation: None,
            table_viewer: None,
            foreign_key_viewer: None,
            search_input: String::new(),
            search_cursor_position: 0,
            movement_multiplier: None,
            ui: UI::new(),
            should_quit: false,
            cursor_line: 0,
            scroll_offset: 0,
            yank_sequence: String::new(),
            is_querying: false,
            startup_complete: false,
            pending_query: clone_option(&args.query),
            file_loading_complete: false,
            startup_task: None,
            cell_info: None,
            query_parser: QueryParser::new(),
            query_blocks: Vec::new(),
        };
        assert(block_views(r.query_blocks@) =~= Seq::empty());
        r
    }

    /// The first step of a session on a terminal of the given size: with the
    /// decorative sequence enabled it starts the sequence over the whole
    /// screen, and else it has the startup work done at once.
    pub fn run(&mut self, terminal_width: u16, terminal_height: u16) -> (action: AppAction)
        ensures
            old(self).config.matrix.enabled ==> final(self)@ == (AppView {
                matrix_animation: Some(4000u64),
                ..old(self)@
            }) && action@ == ActionView::Nothing,
            !old(self).config.matrix.enabled ==> final(self)@ == old(self)@ && action@
                == ActionView::RunStartup(old(self)@.startup_plan()),
    {
        if self.config.matrix.enabled {
            let full_screen_config = MatrixConfig::for_full_screen(terminal_width, terminal_height);
            self.matrix_animation = Some(MatrixAnimation::new(&full_screen_config));
            AppAction::Nothing
        } else {
            AppAction::RunStartup(self.spawn_startup_tasks())
        }
    }

    /// What the startup task is to do, for the host to spawn it: the file to
    /// read and the query to run. What the task read and ran is put together
    /// by `StartupResult::build`.
    pub fn spawn_startup_tasks(&self) -> (r: StartupPlan)
        ensures
            r@ == self@.startup_plan(),
    {
        let query = match &self.pending_query {
            Some(q) => if str_is_blank(q.as_str()) {
                None
            } else {
                Some(q.clone())
            },
            None => None,
        };
        StartupPlan { file: clone_option(&self.current_file), query }
    }

    /// Adds a notification.
    pub fn notify(&mut self, message: String, kind: ToastType)
        ensures
            final(self)@ == old(self)@.notified(message@, kind),
    {
        self.ui.add_toast(message, kind);
    }

    /// Opens the help screen over the present mode.
    pub fn open_help(&mut self)
        ensures
            final(self)@ == old(self)@.help_opened(),
    {
        self.previous_mode = Some(self.current_mode);
        self.current_mode = AppMode::Help;
    }

    /// The lines of the file that a window of `height` lines shows.
    pub fn get_visible_file_content(&self, height: usize) -> (r: Vec<String>)
        ensures
            r.deep_view() == self@.visible_lines(height),
    {
        let chars = str_chars(self.file_content.as_str());
        let all = split_lines(&chars);
        let start = self.scroll_offset;
        let end = if height >= all.len() || start >= all.len() - height {
            all.len()
        } else {
            start + height
        };
        let mut r: Vec<String> = Vec::new();
        if start > end {
            assert(r.deep_view() =~= Seq::empty());
            return r;
        }
        let mut i: usize = start;
        while i < end
            invariant
                start <= i <= end <= all.len(),
                r@.len() == i - start,
                forall|k: int| 0 <= k < r@.len() ==> (#[trigger] r@[k])@ == all@[start + k]@,
            decreases end - i,
        {
            r.push(string_of_chars(&all[i]));
            i += 1;
        }
        assert(r.deep_view() =~= lines(self.file_content@).subrange(start as int, end as int));
        r
    }

    /// The block under the cursor.
    pub fn get_current_query_block(&self) -> (r: Option<&QueryBlock>)
        ensures
            match r {
                Some(b) => self@.current_block() == Some(b@),
                None => self@.current_block() is None,
            },
    {
        if self.cursor_line == usize::MAX {
            proof {
                crate::query_parser::parser::lemma_find_index(
                    self@.query_blocks,
                    self.cursor_line + 1,
                );
                assert forall|j: int| 0 <= j < self@.query_blocks.len() implies !(
                #[trigger] self@.query_blocks[j]).covers(self.cursor_line + 1) by {
                    assert(self@.query_blocks[j] == self.query_blocks@[j]@);
                }
            }
            return None;
        }
        let current_line_1_based = self.cursor_line + 1;
        let r = self.query_parser.find_query_at_line(&self.query_blocks, current_line_1_based);
        proof {
            match find_index(self@.query_blocks, current_line_1_based as int) {
                Some(k) => {
                    crate::query_parser::parser::lemma_find_index(
                        self@.query_blocks,
                        current_line_1_based as int,
                    );
                    assert(self@.query_blocks[k] == self.query_blocks@[k]@);
                },
                None => {},
            }
        }
        r
    }

    /// Brings the scroll offset up to the cursor.
    pub fn adjust_scroll(&mut self)
        ensures
            final(self)@ == old(self)@.scroll_adjusted(),
    {
        self.scroll_offset = scroll_offset_for(self.scroll_offset, self.cursor_line, VISIBLE_LINES);
    }
}

/// After the scroll offset is brought up to it, the cursor lies within the
/// window of visible lines: at or after its start, and before its end.
pub proof fn lemma_cursor_in_window(s: AppView)
    ensures
        s.scroll_adjusted().scroll_offset <= s.scroll_adjusted().cursor_line,
        s.scroll_adjusted().cursor_line < s.scroll_adjusted().scroll_offset + VISIBLE_LINES,
        s.scroll_adjusted().cursor_line == s.cursor_line,
{
}

} // verus!
