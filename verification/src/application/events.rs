use crate::application::app::App;
use crate::application::query_execution::optional_outcome;
use crate::application::state::AppMessage;
use crate::application::state::AppMode;
use crate::application::state::OutcomeView;
use crate::application::state::StartupOutcome;
use crate::application::state::StartupResult;
use crate::application::state::StartupView;
use crate::application::state::TaskHandle;
use crate::query_parser::block::BlockView;
use crate::query_parser::parser::block_views;
use crate::query_parser::parser::parse;
use crate::query_parser::parser::QueryParser;
use crate::table_viewer::data::TableViewer;
use crate::text::str_concat;
use crate::text::str_is_blank;
use crate::ui::toast::ToastType;
use vstd::prelude::*;

verus! {

/// What the startup task hands back for what it read and ran. The file's
/// text is parsed into blocks; of a file and a query that both went well, or
/// both went wrong, the query has the last word.
pub open spec fn startup_result(
    path: Option<Seq<char>>,
    file_read: Option<Result<String, String>>,
    query_outcome: Option<OutcomeView>,
) -> StartupView {
    let empty = StartupView {
        file_content: None,
        table_viewer: None,
        success_message: None,
        query_blocks: Seq::empty(),
        error_message: None,
    };
    let loaded = match (path, file_read) {
        (Some(p), Some(Ok(content))) => StartupView {
            file_content: Some(content@),
            query_blocks: parse(content@),
            success_message: Some("Loaded and parsed file "@ + p),
            ..empty
        },
        (Some(p), Some(Err(e))) => StartupView {
            error_message: Some("Failed to load file: "@ + e@),
            ..empty
        },
        _ => empty,
    };
    match query_outcome {
        Some(OutcomeView::Viewer(v)) => StartupView {
            table_viewer: Some(v),
            success_message: Some("Query executed successfully"@),
            ..loaded
        },
        Some(OutcomeView::Failure(e)) => StartupView {
            error_message: Some("Query execution failed: "@ + e),
            ..loaded
        },
        None => loaded,
    }
}

impl StartupResult {
    /// What the startup task hands back, from what it read and ran: `path`
    /// is the file it was to read and `file_read` what reading gave;
    /// `query_outcome` is how the first query ended.
    pub fn build(
        path: Option<&str>,
        file_read: Option<Result<String, String>>,
        query_outcome: Option<Result<TableViewer, String>>,
    ) -> (r: StartupResult)
        ensures
            r@ == startup_result(
                match path {
                    Some(p) => Some(p@),
                    None => None,
                },
                file_read,
                optional_outcome(query_outcome),
            ),
    {
        let mut result = StartupResult {
            file_content: None,
            query_blocks: Vec::new(),
            table_viewer: None,
            success_message: None,
            error_message: None,
        };
        assert(block_views(result.query_blocks@) =~= Seq::<BlockView>::empty());
        match (path, file_read) {
            (Some(file_path), Some(Ok(content))) => {
                result.query_blocks = QueryParser::new().parse_query_blocks(content.as_str());
                result.success_message = Some(str_concat("Loaded and parsed file ", file_path));
                result.file_content = Some(content);
            },
            (Some(_), Some(Err(e))) => {
                result.error_message = Some(str_concat("Failed to load file: ", e.as_str()));
            },
            _ => {},
        }
        match query_outcome {
            Some(Ok(viewer)) => {
                result.table_viewer = Some(viewer);
                result.success_message = Some("Query executed successfully".to_owned());
            },
            Some(Err(e)) => {
                result.error_message = Some(str_concat("Query execution failed: ", e.as_str()));
            },
            None => {},
        }
        result
    }
}

impl App {
    /// Applies one message of a background query.
    pub fn apply_message(&mut self, message: AppMessage)
        ensures
            final(self)@ == old(self)@.after_message(message@),
    {
        match message {
            AppMessage::QueryResult(result) => {
                self.is_querying = false;
                match result {
                    Ok(viewer) => {
                        self.show_result(viewer);
                    },
                    Err(e) => {
                        self.show_failure(e);
                    },
                }
            },
        }
    }

    /// Applies every message that has arrived, in the order of arrival.
    pub fn drain_messages(&mut self, messages: Vec<AppMessage>)
        ensures
            final(self)@ == old(self)@.after_messages(messages.deep_view()),
    {
        let mut queue = messages;
        let ghost all = messages.deep_view();
        let ghost mut done: Seq<OutcomeView> = Seq::empty();
        while queue.len() > 0
            invariant
                done + queue.deep_view() == all,
                self@ == old(self)@.after_messages(done),
            decreases queue.len(),
        {
            let ghost rest = queue.deep_view();
            let message = queue.remove(0);
            proof {
                assert(queue.deep_view() =~= rest.drop_first());
                assert(message@ == rest[0]);
                let next = done.push(message@);
                assert(next.drop_last() =~= done);
                assert(next + queue.deep_view() =~= done + rest);
                done = next;
            }
            self.apply_message(message);
        }
        assert(done =~= all);
    }

    /// The first part of a tick, going by the clock: applies the messages
    /// that have arrived, moves the decorative sequence on, and says whether
    /// the host is to spawn the startup task now. The task is then marked as
    /// running.
    pub fn update(&mut self, messages: Vec<AppMessage>) -> (spawn: bool)
        ensures
            exists|elapsed_ms: u128|
                final(self)@ == #[trigger] old(self)@.after_tick(messages.deep_view(), elapsed_ms)
                    && spawn == old(self)@.after_messages(messages.deep_view()).startup_due(
                    elapsed_ms,
                ),
    {
        let elapsed_ms = match &self.matrix_animation {
            Some(matrix) => matrix.elapsed_ms(),
            None => 0,
        };
        self.update_at(messages, elapsed_ms)
    }

    /// The first part of a tick, `elapsed_ms` milliseconds into the
    /// decorative sequence.
    pub fn update_at(&mut self, messages: Vec<AppMessage>, elapsed_ms: u128) -> (spawn: bool)
        ensures
            final(self)@ == old(self)@.after_tick(messages.deep_view(), elapsed_ms),
            spawn == old(self)@.after_messages(messages.deep_view()).startup_due(elapsed_ms),
    {
        self.drain_messages(messages);
        let due = match &mut self.matrix_animation {
            Some(matrix) => {
                matrix.update();
                matrix.startup_due_after(elapsed_ms)
            },
            None => false,
        };
        if due && !self.startup_complete && self.startup_task.is_none() {
            self.startup_task = Some(TaskHandle);
            true
        } else {
            false
        }
    }

    /// Takes in what the startup task handed back.
    pub fn apply_startup_result(&mut self, result: StartupResult)
        ensures
            final(self)@ == old(self)@.with_startup_result(result@),
    {
        let StartupResult { file_content, table_viewer, success_message, query_blocks, error_message } =
            result;
        if let Some(content) = file_content {
            self.file_content = content;
            self.query_blocks = query_blocks;
            self.cursor_line = 0;
            self.scroll_offset = 0;
            self.file_loading_complete = true;
        }
        if let Some(viewer) = table_viewer {
            self.table_viewer = Some(viewer);
        } else if self.pending_query.is_none() {
            self.current_mode = AppMode::FileView;
        }
        if let Some(success_msg) = success_message {
            self.notify(success_msg, ToastType::Success);
        }
        if let Some(error_msg) = error_message {
            self.notify(error_msg, ToastType::Error);
        }
    }

    /// Takes in the end of the startup task, once the host has seen it.
    pub fn finish_startup(&mut self, outcome: StartupOutcome)
        ensures
            final(self)@ == old(self)@.after_startup_task(outcome@),
    {
        self.startup_task = None;
        match outcome {
            StartupOutcome::Finished(result) => {
                self.apply_startup_result(result);
            },
            StartupOutcome::Failed(e) => {
                self.notify(str_concat("Startup task failed: ", e.as_str()), ToastType::Error);
            },
            StartupOutcome::Panicked(e) => {
                self.notify(str_concat("Startup task panicked: ", e.as_str()), ToastType::Error);
            },
        }
        self.startup_complete = true;
    }

    /// The end of a tick, going by the clock: the decorative sequence hands
    /// over once its time is up and the startup is done.
    pub fn finish_animation(&mut self)
        ensures
            exists|elapsed_ms: u128|
                final(self)@ == #[trigger] old(self)@.after_sequence_check(elapsed_ms),
    {
        let elapsed_ms = match &self.matrix_animation {
            Some(matrix) => matrix.elapsed_ms(),
            None => 0,
        };
        self.finish_animation_at(elapsed_ms)
    }

    /// The end of a tick, `elapsed_ms` milliseconds into the decorative
    /// sequence.
    pub fn finish_animation_at(&mut self, elapsed_ms: u128)
        ensures
            final(self)@ == old(self)@.after_sequence_check(elapsed_ms),
    {
        let finished = match &self.matrix_animation {
            Some(matrix) => self.startup_complete && matrix.is_finished_after(elapsed_ms),
            None => false,
        };
        if finished {
            self.matrix_animation = None;
            self.current_mode = if self.table_viewer.is_some() {
                AppMode::TableViewer
            } else {
                AppMode::FileView
            };
        }
    }

    /// Takes in the startup work that the host has done at once: what
    /// reading the file gave, where one was to be read, and how the first
    /// query ended, where one was to be run. Without a first query that was
    /// run the session is in the file view afterwards.
    pub fn perform_startup_tasks_sync(
        &mut self,
        file_read: Option<Result<String, String>>,
        query_outcome: Option<Result<TableViewer, String>>,
    )
        ensures
            final(self)@ == old(self)@.after_startup_now(file_read, optional_outcome(query_outcome)),
    {
        let path = crate::application::app::clone_option(&self.current_file);
        match (path, file_read) {
            (Some(file_path), Some(read)) => {
                self.load_file(file_path.as_str(), read);
            },
            _ => {},
        }
        self.file_loading_complete = true;
        let query = crate::application::app::clone_option(&self.pending_query);
        match query {
            Some(q) => {
                let was_run = !str_is_blank(q.as_str()) && query_outcome.is_some();
                self.execute_query_internal(q.as_str(), query_outcome);
                if !was_run {
                    self.current_mode = AppMode::FileView;
                }
            },
            None => {
                self.current_mode = AppMode::FileView;
            },
        }
        self.startup_complete = true;
    }
}

} // verus!
