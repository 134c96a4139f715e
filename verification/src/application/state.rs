use crate::query_parser::block::BlockView;
use crate::query_parser::block::QueryBlock;
use crate::query_parser::parser::block_views;
use crate::table_viewer::data::TableViewer;
use crate::table_viewer::data::ViewerView;
use crate::table_viewer::fk::ForeignKeyRequest;
use crate::table_viewer::fk::RequestView;
use vstd::prelude::*;

verus! {

/// What the keys mean at the moment: which screen the session is on.
#[derive(Debug, Clone, Copy, PartialEq, Eq, Structural)]
pub enum AppMode {
    FileView,
    TableViewer,
    MatrixLoading,
    Help,
    ForeignKeyView,
    CellInfoView,
    Searching,
}

/// The view of an optional viewer.
pub open spec fn viewer_view(v: Option<TableViewer>) -> Option<ViewerView> {
    match v {
        Some(t) => Some(t@),
        None => None,
    }
}

/// What the startup work hands back: the text of the file and its blocks,
/// the viewer of the first query, and what to tell the user.
#[derive(Debug)]
pub struct StartupResult {
    pub file_content: Option<String>,
    pub table_viewer: Option<TableViewer>,
    pub success_message: Option<String>,
    pub query_blocks: Vec<QueryBlock>,
    pub error_message: Option<String>,
}

/// The mathematical content of a [`StartupResult`].
pub ghost struct StartupView {
    pub file_content: Option<Seq<char>>,
    pub table_viewer: Option<ViewerView>,
    pub success_message: Option<Seq<char>>,
    pub query_blocks: Seq<BlockView>,
    pub error_message: Option<Seq<char>>,
}

impl View for StartupResult {
    type V = StartupView;

    open spec fn view(&self) -> StartupView {
        StartupView {
            file_content: self.file_content.deep_view(),
            table_viewer: viewer_view(self.table_viewer),
            success_message: self.success_message.deep_view(),
            query_blocks: block_views(self.query_blocks@),
            error_message: self.error_message.deep_view(),
        }
    }
}

/// How a query ended: with a viewer on its result, or with the text of an
/// error.
pub ghost enum OutcomeView {
    Viewer(ViewerView),
    Failure(Seq<char>),
}

/// The view of the outcome of a query.
pub open spec fn outcome_view(r: Result<TableViewer, String>) -> OutcomeView {
    match r {
        Ok(v) => OutcomeView::Viewer(v@),
        Err(e) => OutcomeView::Failure(e@),
    }
}

/// What background work sends to the session.
#[derive(Debug)]
pub enum AppMessage {
    QueryResult(Result<TableViewer, String>),
}

/// How a query that ran in the background ended, as its message tells it:
/// a failure is told with the words that say what failed.
pub open spec fn reported(outcome: OutcomeView) -> OutcomeView {
    match outcome {
        OutcomeView::Viewer(v) => OutcomeView::Viewer(v),
        OutcomeView::Failure(e) => OutcomeView::Failure("Query execution failed: "@ + e),
    }
}

impl AppMessage {
    /// The message that a background query sends when it has ended:
    /// `outcome` is the viewer on its result, or the text of the database's
    /// error.
    pub fn query_result(outcome: Result<TableViewer, String>) -> (r: AppMessage)
        ensures
            r@ == reported(outcome_view(outcome)),
    {
        match outcome {
            Ok(viewer) => AppMessage::QueryResult(Ok(viewer)),
            Err(e) => AppMessage::QueryResult(
                Err(crate::text::str_concat("Query execution failed: ", e.as_str())),
            ),
        }
    }
}

impl View for AppMessage {
    type V = OutcomeView;

    open spec fn view(&self) -> OutcomeView {
        match self {
            AppMessage::QueryResult(r) => outcome_view(*r),
        }
    }
}

impl DeepView for AppMessage {
    type V = OutcomeView;

    open spec fn deep_view(&self) -> OutcomeView {
        self@
    }
}

/// The mark of a startup task that runs in the background.
#[derive(Debug, Clone, Copy, PartialEq, Eq, Structural)]
pub struct TaskHandle;

/// How the startup task ended.
#[derive(Debug)]
pub enum StartupOutcome {
    /// The task ran to its end.
    Finished(StartupResult),
    /// The task gave up, with the text of an error.
    Failed(String),
    /// The task was aborted or panicked, with the text of the fault.
    Panicked(String),
}

/// The view of how the startup task ended.
pub ghost enum StartupOutcomeView {
    Finished(StartupView),
    Failed(Seq<char>),
    Panicked(Seq<char>),
}

impl View for StartupOutcome {
    type V = StartupOutcomeView;

    open spec fn view(&self) -> StartupOutcomeView {
        match self {
            StartupOutcome::Finished(r) => StartupOutcomeView::Finished(r@),
            StartupOutcome::Failed(e) => StartupOutcomeView::Failed(e@),
            StartupOutcome::Panicked(e) => StartupOutcomeView::Panicked(e@),
        }
    }
}

/// What the startup work is to do: the file to read and the query to run,
/// where there are any.
#[derive(Debug)]
pub struct StartupPlan {
    pub file: Option<String>,
    pub query: Option<String>,
}

/// The mathematical content of a [`StartupPlan`].
pub ghost struct PlanView {
    pub file: Option<Seq<char>>,
    pub query: Option<Seq<char>>,
}

impl View for StartupPlan {
    type V = PlanView;

    open spec fn view(&self) -> PlanView {
        PlanView { file: self.file.deep_view(), query: self.query.deep_view() }
    }
}

/// What the host of the session is to do after a step of the session. Each
/// piece of work is reported back by the call that its variant names.
#[derive(Debug)]
pub enum AppAction {
    /// Nothing.
    Nothing,
    /// Put the text on the clipboard; report with `App::clipboard_done`.
    Copy(String),
    /// Run the query in the background; send its outcome as an
    /// [`AppMessage::QueryResult`].
    ExecuteQuery(String),
    /// Ask the database for the rows that a foreign key points to, and open
    /// a viewer on them; report with `App::foreign_key_done`.
    LookupForeignKey(ForeignKeyRequest),
    /// Ask the database for the rows that a foreign key points to; report
    /// with `App::cell_info_done`.
    DescribeForeignKey(ForeignKeyRequest),
    /// Do the startup work now; report with
    /// `App::perform_startup_tasks_sync`.
    RunStartup(StartupPlan),
}

/// The mathematical content of an [`AppAction`].
pub ghost enum ActionView {
    Nothing,
    Copy(Seq<char>),
    ExecuteQuery(Seq<char>),
    LookupForeignKey(RequestView),
    DescribeForeignKey(RequestView),
    RunStartup(PlanView),
}

impl View for AppAction {
    type V = ActionView;

    open spec fn view(&self) -> ActionView {
        match self {
            AppAction::Nothing => ActionView::Nothing,
            AppAction::Copy(t) => ActionView::Copy(t@),
            AppAction::ExecuteQuery(q) => ActionView::ExecuteQuery(q@),
            AppAction::LookupForeignKey(r) => ActionView::LookupForeignKey(r@),
            AppAction::DescribeForeignKey(r) => ActionView::DescribeForeignKey(r@),
            AppAction::RunStartup(p) => ActionView::RunStartup(p@),
        }
    }
}

} // verus!
