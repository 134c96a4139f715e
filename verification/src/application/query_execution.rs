use crate::application::app::App;
use crate::application::state::outcome_view;
use crate::application::state::AppAction;
use crate::application::state::AppMode;
use crate::application::state::OutcomeView;
use crate::table_viewer::data::TableViewer;
use crate::text::str_concat;
use crate::text::is_blank;
use crate::text::str_is_blank;
use crate::ui::toast::ToastType;
use vstd::prelude::*;

verus! {

/// The view of an optional outcome of a query.
pub open spec fn optional_outcome(o: Option<Result<TableViewer, String>>) -> Option<OutcomeView> {
    match o {
        Some(r) => Some(outcome_view(r)),
        None => None,
    }
}

impl App {
    /// Starts `query` in the background: the session is busy from now on,
    /// and the host is to run the query.
    pub fn execute_query(&mut self, query: &str) -> (action: AppAction)
        ensures
            final(self)@ == old(self)@.query_started(query@).state,
            action@ == old(self)@.query_started(query@).action,
    {
        self.is_querying = true;
        if self.config.matrix.enabled && self.startup_complete {
            self.notify("Executing query".to_owned(), ToastType::Info);
        }
        AppAction::ExecuteQuery(query.to_owned())
    }

    /// Shows the viewer that a query has ended with.
    pub fn show_result(&mut self, viewer: TableViewer)
        ensures
            final(self)@ == old(self)@.with_result(viewer@),
    {
        self.table_viewer = Some(viewer);
        if self.matrix_animation.is_none() {
            self.current_mode = AppMode::TableViewer;
        }
        if self.startup_complete || !self.config.matrix.enabled {
            self.notify("Query executed successfully".to_owned(), ToastType::Success);
        }
    }

    /// Reports the failure that a query has ended with.
    pub fn show_failure(&mut self, message: String)
        ensures
            final(self)@ == old(self)@.with_failure(message@),
    {
        self.notify(message, ToastType::Error);
        self.current_mode = AppMode::FileView;
        self.matrix_animation = None;
    }

    /// Takes in the first query of a session, run at startup. A blank query
    /// is refused with a notification, and nothing else changes; for any
    /// other, `outcome` is how the host's run of it ended. The session is
    /// not busy afterwards.
    pub fn execute_query_internal(&mut self, query: &str, outcome: Option<Result<TableViewer, String>>)
        ensures
            final(self)@ == old(self)@.after_first_query(query@, optional_outcome(outcome)),
    {
        if let Err(e) = self.validate_query(query) {
            self.notify(str_concat("Query validation failed: ", e.as_str()), ToastType::Error);
            self.is_querying = false;
            return ;
        }
        match outcome {
            Some(Ok(viewer)) => {
                self.show_result(viewer);
                self.is_querying = false;
            },
            Some(Err(e)) => {
                self.show_failure(str_concat("Query execution failed: ", e.as_str()));
                self.is_querying = false;
            },
            None => {
                self.is_querying = false;
            },
        }
    }

    /// Refuses a query that holds nothing but whitespace.
    pub fn validate_query(&self, query: &str) -> (r: Result<(), String>)
        ensures
            match r {
                Ok(_) => !is_blank(query@),
                Err(e) => is_blank(query@) && e@ == "Query is empty"@,
            },
    {
        if str_is_blank(query) {
            Err("Query is empty".to_owned())
        } else {
            Ok(())
        }
    }

    /// Executes the block under the cursor.
    pub fn execute_current_query(&mut self) -> (action: AppAction)
        ensures
            final(self)@ == old(self)@.current_query_executed().state,
            action@ == old(self)@.current_query_executed().action,
    {
        let query_text = match self.get_current_query_block() {
            Some(query_block) => Some(query_block.text.clone()),
            None => None,
        };
        match query_text {
            Some(text) => {
                if !str_is_blank(text.as_str()) {
                    self.execute_query(text.as_str())
                } else {
                    self.notify(
                        "No query found at current cursor position".to_owned(),
                        ToastType::Error,
                    );
                    AppAction::Nothing
                }
            },
            None => {
                self.notify(
                    "No query found at current cursor position".to_owned(),
                    ToastType::Error,
                );
                AppAction::Nothing
            },
        }
    }
}

} // verus!
