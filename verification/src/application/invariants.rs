//! What holds of the session's state machine whatever happens.

use crate::application::model::is_chord_prefix;
use crate::application::model::is_close_key;
use crate::application::model::AppView;
use crate::application::model::VISIBLE_LINES;
use crate::application::state::ActionView;
use crate::application::state::AppMode;
use crate::application::state::OutcomeView;
use crate::application::state::StartupOutcomeView;
use crate::database::query_result::QueryResult;
use crate::keys::KeyCode;
use crate::keys::KeyEvent;
use crate::matrix::animation::finished_after;
use crate::query_parser::parser::find_index;
use crate::query_parser::parser::lemma_cover_unique;
use crate::query_parser::parser::lemma_find_index;
use crate::query_parser::parser::well_ordered;
use crate::table_viewer::data::ViewerView;
use crate::text::is_blank;
use crate::query_parser::parser::parse;
use crate::ui::toast::ToastType;
use vstd::prelude::*;

verus! {

/// In the table viewer, with no chord pending, the close key on a viewer
/// that shows no chart leads to the file view and drops the viewer; on a
/// viewer that shows a chart it hides the chart and does nothing else: the
/// mode stays, and so does the viewer.
pub proof fn lemma_close_in_table_viewer(s: AppView, key: KeyEvent, v: ViewerView)
    requires
        s.current_mode == AppMode::TableViewer,
        s.yank_sequence.len() == 0,
        is_close_key(key),
        s.table_viewer == Some(v),
    ensures
        s.after_key(key).action == ActionView::Nothing,
        !v.show_chart ==> s.after_key(key).state == (AppView {
            current_mode: AppMode::FileView,
            table_viewer: None,
            foreign_key_viewer: None,
            ..s
        }),
        v.show_chart ==> s.after_key(key).state == (AppView {
            table_viewer: Some(ViewerView { show_chart: false, chart_data: None, ..v }),
            ..s
        }),
{
}

/// Closing the help screen leads back to the mode that it was opened over,
/// whichever that was, and forgets it.
pub proof fn lemma_help_restores_mode(s: AppView)
    ensures
        s.help_opened().help_closed().current_mode == s.current_mode,
        s.help_opened().help_closed().previous_mode is None,
        s.help_opened().current_mode == AppMode::Help,
{
}

/// Closing a help screen that was opened over no recorded mode leads to the
/// file view.
pub proof fn lemma_help_defaults_to_file_view(s: AppView)
    requires
        s.previous_mode is None,
    ensures
        s.help_closed().current_mode == AppMode::FileView,
{
}

/// Messages are applied one after the other, in the order of their arrival:
/// two of them give what the second makes of what the first made.
pub proof fn lemma_two_messages_in_order(s: AppView, first: OutcomeView, second: OutcomeView)
    ensures
        s.after_messages(seq![first, second]) == s.after_message(first).after_message(second),
{
    let both = seq![first, second];
    assert(both.drop_last() =~= seq![first]);
    assert(seq![first].drop_last() =~= Seq::<OutcomeView>::empty());
    assert(s.after_messages(Seq::<OutcomeView>::empty()) == s);
    assert(s.after_messages(seq![first]) == s.after_message(first));
}

/// After any run of messages that is not empty the session is no longer
/// busy, and where the last message brought a viewer, that viewer is the one
/// of the session.
pub proof fn lemma_last_message_wins(s: AppView, messages: Seq<OutcomeView>)
    requires
        messages.len() > 0,
    ensures
        !s.after_messages(messages).is_querying,
        messages.last() matches OutcomeView::Viewer(v) ==> s.after_messages(messages).table_viewer
            == Some(v),
        messages.last() is Failure ==> s.after_messages(messages).current_mode
            == AppMode::FileView && s.after_messages(messages).matrix_animation is None,
{
}

/// Of two results that arrive before one drain, the second is the one that
/// the session shows afterwards, and the session is not busy.
pub proof fn lemma_second_result_shown(s: AppView, first: ViewerView, second: ViewerView)
    ensures
        s.after_messages(
            seq![OutcomeView::Viewer(first), OutcomeView::Viewer(second)],
        ).table_viewer == Some(second),
        !s.after_messages(
            seq![OutcomeView::Viewer(first), OutcomeView::Viewer(second)],
        ).is_querying,
{
    let both = seq![OutcomeView::Viewer(first), OutcomeView::Viewer(second)];
    lemma_last_message_wins(s, both);
}

/// With the cursor on any line of a block, executing the current query
/// starts the text of that block and of no other, provided the blocks are
/// well ordered and the text is not blank.
pub proof fn lemma_current_block_is_executed(s: AppView, line_count: int, k: int)
    requires
        well_ordered(s.query_blocks, line_count),
        0 <= k < s.query_blocks.len(),
        s.query_blocks[k].covers(s.cursor_line + 1),
        !is_blank(s.query_blocks[k].text),
    ensures
        s.current_block() == Some(s.query_blocks[k]),
        s.current_query_executed().action == ActionView::ExecuteQuery(s.query_blocks[k].text),
        s.current_query_executed().state.is_querying,
{
    lemma_find_index(s.query_blocks, s.cursor_line + 1);
    let found = find_index(s.query_blocks, s.cursor_line + 1);
    assert(found is Some);
    lemma_cover_unique(s.query_blocks, line_count, found->0, k, s.cursor_line + 1);
}

/// With the cursor on a line that no block covers, executing the current
/// query starts nothing.
pub proof fn lemma_nothing_to_execute(s: AppView)
    requires
        forall|j: int|
            0 <= j < s.query_blocks.len() ==> !(#[trigger] s.query_blocks[j]).covers(
                s.cursor_line + 1,
            ),
    ensures
        s.current_query_executed().action == ActionView::Nothing,
        s.current_query_executed().state.is_querying == s.is_querying,
{
    lemma_find_index(s.query_blocks, s.cursor_line + 1);
}

/// Once the startup is done it stays done: no key, message, tick or report
/// of the host undoes it.
pub proof fn lemma_startup_stays_complete(s: AppView, key: KeyEvent, messages: Seq<OutcomeView>, elapsed_ms: u128)
    requires
        s.startup_complete,
    ensures
        s.after_key(key).state.startup_complete,
        s.after_messages(messages).startup_complete,
        s.after_tick(messages, elapsed_ms).startup_complete,
        s.after_sequence_check(elapsed_ms).startup_complete,
    decreases messages.len(),
{
    if messages.len() > 0 {
        lemma_startup_stays_complete(s, key, messages.drop_last(), elapsed_ms);
    }
}

/// However the startup task ends, the startup is done afterwards and the
/// task's mark is gone.
pub proof fn lemma_startup_always_completes(s: AppView, outcome: StartupOutcomeView)
    ensures
        s.after_startup_task(outcome).startup_complete,
        !s.after_startup_task(outcome).startup_task,
{
}

/// The decorative sequence does not hand over before the startup is done,
/// however much time has passed; nor before its time is up.
pub proof fn lemma_sequence_waits(s: AppView, elapsed_ms: u128)
    requires
        s.matrix_animation is Some,
        !s.startup_complete || !finished_after(elapsed_ms, s.matrix_animation->0),
    ensures
        s.after_sequence_check(elapsed_ms) == s,
{
}

/// Once the startup is done and its time is up, the decorative sequence
/// hands over: to the table viewer where there is a viewer, else to the file
/// view.
pub proof fn lemma_sequence_hands_over(s: AppView, elapsed_ms: u128)
    requires
        s.matrix_animation is Some,
        s.startup_complete,
        finished_after(elapsed_ms, s.matrix_animation->0),
    ensures
        s.after_sequence_check(elapsed_ms).matrix_animation is None,
        s.after_sequence_check(elapsed_ms).current_mode == if s.table_viewer is Some {
            AppMode::TableViewer
        } else {
            AppMode::FileView
        },
{
}

/// The startup task is spawned at most once: not while one runs, and not
/// after the startup is done.
pub proof fn lemma_startup_spawned_once(s: AppView, elapsed_ms: u128)
    requires
        s.startup_task || s.startup_complete,
    ensures
        !s.startup_due(elapsed_ms),
{
}

/// In the file view, a key that is no digit uses the repeat count up.
pub proof fn lemma_file_view_key_uses_count(s: AppView, key: KeyEvent)
    requires
        key.digit() is None,
    ensures
        s.after_file_view_key(key).state.movement_multiplier is None,
{
}

/// Wherever the cursor is put, it lies within the window of visible lines
/// afterwards.
pub proof fn lemma_cursor_keys_keep_window(s: AppView, line: usize)
    ensures
        s.cursor_at(line).cursor_line == line,
        s.cursor_at(line).scroll_offset <= line < s.cursor_at(line).scroll_offset + VISIBLE_LINES,
{
}

/// While a chord is pending in a viewer, a key that neither extends it to
/// the start of a chord nor completes one gives the chord up and does nothing
/// else.
pub proof fn lemma_chord_given_up(s: AppView, key: KeyEvent)
    requires
        s.current_mode == AppMode::TableViewer || s.current_mode == AppMode::ForeignKeyView,
        s.yank_sequence.len() > 0,
        match key.code {
            KeyCode::Char(c) => !is_chord_prefix(s.yank_sequence.push(c)) && s.yank_sequence.push(c)
                != "yy"@ && s.yank_sequence.push(c) != "yiw"@,
            _ => true,
        },
    ensures
        s.after_key(key).state == (AppView { yank_sequence: Seq::empty(), ..s }),
        s.after_key(key).action == ActionView::Nothing,
{
}

/// A search that is cancelled runs no search: the viewer is as it was, what
/// was typed is gone, and the session is back in the table viewer.
pub proof fn lemma_search_cancelled(s: AppView)
    ensures
        s.after_searching_key(KeyEvent { code: KeyCode::Esc, control: false }) == (AppView {
            search_input: Seq::empty(),
            current_mode: AppMode::TableViewer,
            ..s
        }),
{
}

/// Whether the cursor of the file view lies within the window of visible
/// lines.
pub open spec fn cursor_in_window(s: AppView) -> bool {
    s.scroll_offset <= s.cursor_line < s.scroll_offset + VISIBLE_LINES
}

/// Only the keys of the file view move its cursor or its window: in every
/// other mode a key leaves both as they are.
pub proof fn lemma_other_modes_leave_cursor(s: AppView, key: KeyEvent)
    requires
        s.current_mode != AppMode::FileView,
    ensures
        s.after_key(key).state.cursor_line == s.cursor_line,
        s.after_key(key).state.scroll_offset == s.scroll_offset,
{
    match s.current_mode {
        AppMode::TableViewer => {
            lemma_chord_leaves_cursor(s, key, s.table_viewer, true);
        },
        AppMode::ForeignKeyView => {
            lemma_chord_leaves_cursor(s, key, s.foreign_key_viewer, false);
        },
        _ => {},
    }
}

/// A key that is pressed while a chord is pending leaves the cursor and the
/// window of the file view as they are.
pub proof fn lemma_chord_leaves_cursor(s: AppView, key: KeyEvent, viewer: Option<ViewerView>, in_table: bool)
    ensures
        s.after_chord_key(key, viewer, in_table).state.cursor_line == s.cursor_line,
        s.after_chord_key(key, viewer, in_table).state.scroll_offset == s.scroll_offset,
{
}

/// In the file view a cursor that lies within the window of visible lines
/// stays within it whatever key is pressed.
pub proof fn lemma_file_view_keeps_cursor_in_window(s: AppView, key: KeyEvent)
    requires
        cursor_in_window(s),
    ensures
        cursor_in_window(s.after_file_view_key(key).state),
{
    match key.digit() {
        Some(d) => {},
        None => {
            let t = AppView { movement_multiplier: None, ..s };
            assert(cursor_in_window(t));
            assert(forall|line: usize| cursor_in_window(#[trigger] t.cursor_at(line)));
            assert(cursor_in_window(t.current_query_executed().state));
            assert(cursor_in_window(t.help_opened()));
        },
    }
}

/// A cursor that lies within the window of visible lines stays within it,
/// whatever key is pressed in whatever mode.
pub proof fn lemma_keys_keep_cursor_in_window(s: AppView, key: KeyEvent)
    requires
        cursor_in_window(s),
    ensures
        cursor_in_window(s.after_key(key).state),
{
    if s.current_mode == AppMode::FileView {
        lemma_file_view_keeps_cursor_in_window(s, key);
    } else {
        lemma_other_modes_leave_cursor(s, key);
    }
}

/// A cursor that lies within the window of visible lines stays within it
/// through every message, tick and report of the host.
pub proof fn lemma_events_keep_cursor_in_window(
    s: AppView,
    messages: Seq<OutcomeView>,
    elapsed_ms: u128,
    outcome: StartupOutcomeView,
    file_read: Option<Result<String, String>>,
    query_outcome: Option<OutcomeView>,
    lookup: Option<QueryResult>,
)
    requires
        cursor_in_window(s),
    ensures
        cursor_in_window(s.after_messages(messages)),
        cursor_in_window(s.after_tick(messages, elapsed_ms)),
        cursor_in_window(s.after_sequence_check(elapsed_ms)),
        cursor_in_window(s.after_startup_task(outcome)),
        cursor_in_window(s.after_startup_now(file_read, query_outcome)),
        cursor_in_window(s.after_cell_lookup(lookup)),
        query_outcome matches Some(o) ==> cursor_in_window(s.after_key_lookup(o)),
    decreases messages.len(),
{
    if messages.len() > 0 {
        lemma_events_keep_cursor_in_window(
            s,
            messages.drop_last(),
            elapsed_ms,
            outcome,
            file_read,
            query_outcome,
            lookup,
        );
    }
}

/// The startup, once done, stays done through every report of the host; and
/// startup work that is done at once completes the startup.
pub proof fn lemma_reports_keep_startup_complete(
    s: AppView,
    outcome: OutcomeView,
    lookup: Option<QueryResult>,
    text: Seq<char>,
    copied: Result<(), String>,
    file_read: Option<Result<String, String>>,
    query_outcome: Option<OutcomeView>,
)
    ensures
        s.after_startup_now(file_read, query_outcome).startup_complete,
        s.startup_complete ==> s.after_key_lookup(outcome).startup_complete,
        s.startup_complete ==> s.after_cell_lookup(lookup).startup_complete,
        s.startup_complete ==> s.after_copy(text, copied).startup_complete,
{
}

/// After startup work that is done at once, the session shows the viewer or
/// the file, and nothing else.
pub proof fn lemma_startup_now_settles_mode(
    s: AppView,
    file_read: Option<Result<String, String>>,
    query_outcome: Option<OutcomeView>,
)
    requires
        s.matrix_animation is None,
    ensures
        s.after_startup_now(file_read, query_outcome).current_mode == AppMode::TableViewer
            || s.after_startup_now(file_read, query_outcome).current_mode == AppMode::FileView,
        s.after_startup_now(file_read, query_outcome).current_mode == AppMode::TableViewer
            ==> s.after_startup_now(file_read, query_outcome).table_viewer is Some,
{
}

/// Whether every viewer that was opened from the table viewer still has
/// the table viewer to go back to.
pub open spec fn child_has_parent(s: AppView) -> bool {
    s.foreign_key_viewer is Some ==> s.table_viewer is Some
}

/// A viewer on the rows of a foreign key never outlives the table viewer
/// that it was opened from, whatever key is pressed.
pub proof fn lemma_keys_keep_parent(s: AppView, key: KeyEvent)
    requires
        child_has_parent(s),
    ensures
        child_has_parent(s.after_key(key).state),
{
    match s.current_mode {
        AppMode::FileView => {
            lemma_file_view_leaves_viewers(s, key);
        },
        AppMode::TableViewer => {
            lemma_chord_leaves_viewers(s, key, s.table_viewer, true);
        },
        AppMode::ForeignKeyView => {
            lemma_chord_leaves_viewers(s, key, s.foreign_key_viewer, false);
        },
        _ => {},
    }
}

/// The keys of the file view leave the viewers as they are.
pub proof fn lemma_file_view_leaves_viewers(s: AppView, key: KeyEvent)
    ensures
        s.after_file_view_key(key).state.table_viewer == s.table_viewer,
        s.after_file_view_key(key).state.foreign_key_viewer == s.foreign_key_viewer,
{
    match key.digit() {
        Some(d) => {},
        None => {
            let t = AppView { movement_multiplier: None, ..s };
            assert(forall|line: usize| (#[trigger] t.cursor_at(line)).table_viewer == s.table_viewer);
            assert(forall|line: usize|
                (#[trigger] t.cursor_at(line)).foreign_key_viewer == s.foreign_key_viewer);
            assert(t.current_query_executed().state.table_viewer == s.table_viewer);
            assert(t.current_query_executed().state.foreign_key_viewer == s.foreign_key_viewer);
        },
    }
}

/// A key that is pressed while a chord is pending leaves the viewers as they
/// are.
pub proof fn lemma_chord_leaves_viewers(s: AppView, key: KeyEvent, viewer: Option<ViewerView>, in_table: bool)
    ensures
        s.after_chord_key(key, viewer, in_table).state.table_viewer == s.table_viewer,
        s.after_chord_key(key, viewer, in_table).state.foreign_key_viewer == s.foreign_key_viewer,
{
}

/// A viewer on the rows of a foreign key never outlives the table viewer
/// that it was opened from, through every message, tick and report of the
/// host.
pub proof fn lemma_events_keep_parent(
    s: AppView,
    messages: Seq<OutcomeView>,
    elapsed_ms: u128,
    outcome: StartupOutcomeView,
    file_read: Option<Result<String, String>>,
    query_outcome: Option<OutcomeView>,
    lookup: Option<QueryResult>,
)
    requires
        child_has_parent(s),
    ensures
        child_has_parent(s.after_messages(messages)),
        child_has_parent(s.after_tick(messages, elapsed_ms)),
        child_has_parent(s.after_sequence_check(elapsed_ms)),
        child_has_parent(s.after_startup_task(outcome)),
        child_has_parent(s.after_startup_now(file_read, query_outcome)),
        child_has_parent(s.after_cell_lookup(lookup)),
        query_outcome matches Some(o) ==> child_has_parent(s.after_key_lookup(o)),
    decreases messages.len(),
{
    if messages.len() > 0 {
        lemma_events_keep_parent(
            s,
            messages.drop_last(),
            elapsed_ms,
            outcome,
            file_read,
            query_outcome,
            lookup,
        );
    }
}

/// Whether the pending chord is the start of a chord, or no chord is
/// pending.
pub open spec fn chord_is_pending_or_none(s: AppView) -> bool {
    s.yank_sequence.len() == 0 || is_chord_prefix(s.yank_sequence)
}

/// Between two keys the session holds no chord, or the start of one: a whole
/// chord is used up by the key that completes it, and a broken one is given
/// up.
pub proof fn lemma_keys_keep_chord_short(s: AppView, key: KeyEvent)
    requires
        chord_is_pending_or_none(s),
    ensures
        chord_is_pending_or_none(s.after_key(key).state),
{
    reveal_strlit("y");
    assert("y"@ =~= seq!['y']);
    match s.current_mode {
        AppMode::FileView => {
            lemma_file_view_leaves_chord(s, key);
        },
        AppMode::TableViewer => {
            lemma_chord_stays_short(s, key, s.table_viewer, true);
            if s.yank_sequence.len() == 0 && key.code == KeyCode::Char('y') {
                assert(s.yank_sequence.push('y') =~= seq!['y']);
            }
        },
        AppMode::ForeignKeyView => {
            lemma_chord_stays_short(s, key, s.foreign_key_viewer, false);
            if s.yank_sequence.len() == 0 && key.code == KeyCode::Char('y') {
                assert(s.yank_sequence.push('y') =~= seq!['y']);
            }
        },
        _ => {},
    }
}

/// The keys of the file view leave the chord as it is.
pub proof fn lemma_file_view_leaves_chord(s: AppView, key: KeyEvent)
    ensures
        s.after_file_view_key(key).state.yank_sequence == s.yank_sequence,
{
    match key.digit() {
        Some(d) => {},
        None => {
            let t = AppView { movement_multiplier: None, ..s };
            assert(forall|line: usize| (#[trigger] t.cursor_at(line)).yank_sequence == s.yank_sequence);
            assert(t.current_query_executed().state.yank_sequence == s.yank_sequence);
        },
    }
}

/// A key that is pressed while a chord is pending leaves the start of a
/// chord, or no chord.
pub proof fn lemma_chord_stays_short(s: AppView, key: KeyEvent, viewer: Option<ViewerView>, in_table: bool)
    ensures
        chord_is_pending_or_none(s.after_chord_key(key, viewer, in_table).state),
{
}

/// The first query of a session is set when the session is made and never
/// changes: no key touches it.
pub proof fn lemma_keys_keep_pending_query(s: AppView, key: KeyEvent)
    ensures
        s.after_key(key).state.pending_query == s.pending_query,
{
    match s.current_mode {
        AppMode::FileView => {
            match key.digit() {
                Some(d) => {},
                None => {
                    let t = AppView { movement_multiplier: None, ..s };
                    assert(forall|line: usize|
                        (#[trigger] t.cursor_at(line)).pending_query == s.pending_query);
                    assert(t.current_query_executed().state.pending_query == s.pending_query);
                },
            }
        },
        AppMode::TableViewer => {
            assert(s.after_chord_key(key, s.table_viewer, true).state.pending_query
                == s.pending_query);
        },
        AppMode::ForeignKeyView => {
            assert(s.after_chord_key(key, s.foreign_key_viewer, false).state.pending_query
                == s.pending_query);
        },
        _ => {},
    }
}

/// The first query of a session is set when the session is made and never
/// changes: no message, tick or report of the host touches it.
pub proof fn lemma_events_keep_pending_query(
    s: AppView,
    messages: Seq<OutcomeView>,
    elapsed_ms: u128,
    outcome: StartupOutcomeView,
    file_read: Option<Result<String, String>>,
    query_outcome: Option<OutcomeView>,
    lookup: Option<QueryResult>,
)
    ensures
        s.after_messages(messages).pending_query == s.pending_query,
        s.after_tick(messages, elapsed_ms).pending_query == s.pending_query,
        s.after_sequence_check(elapsed_ms).pending_query == s.pending_query,
        s.after_startup_task(outcome).pending_query == s.pending_query,
        s.after_startup_now(file_read, query_outcome).pending_query == s.pending_query,
        s.after_cell_lookup(lookup).pending_query == s.pending_query,
        query_outcome matches Some(o) ==> s.after_key_lookup(o).pending_query == s.pending_query,
    decreases messages.len(),
{
    if messages.len() > 0 {
        lemma_events_keep_pending_query(
            s,
            messages.drop_last(),
            elapsed_ms,
            outcome,
            file_read,
            query_outcome,
            lookup,
        );
    }
}

/// A blank first query is refused on the spot: the user is told, the
/// session is not busy, and nothing else changes, whatever outcome is handed
/// in with it. The mode and the viewer stay as they were.
pub proof fn lemma_blank_query_is_refused(s: AppView, query: Seq<char>, outcome: Option<OutcomeView>)
    requires
        is_blank(query),
    ensures
        s.after_first_query(query, outcome) == (AppView {
            is_querying: false,
            ..s.notified("Query validation failed: "@ + "Query is empty"@, ToastType::Error)
        }),
        s.after_first_query(query, outcome).current_mode == s.current_mode,
        s.after_first_query(query, outcome).table_viewer == s.table_viewer,
        !s.after_first_query(query, outcome).is_querying,
{
}

/// After the first query is taken in the session is not busy, whatever the
/// query and its outcome.
pub proof fn lemma_first_query_clears_busy(s: AppView, query: Seq<char>, outcome: Option<OutcomeView>)
    ensures
        !s.after_first_query(query, outcome).is_querying,
{
}

/// With a file loaded and the cursor on any line of one of its blocks,
/// executing the current query starts the text of that block, and of no
/// other: not that of another block, and not the whole file.
pub proof fn lemma_loaded_block_is_executed(
    s: AppView,
    path: Seq<char>,
    content: String,
    cursor: usize,
    k: int,
)
    requires
        0 <= k < parse(content@).len(),
        parse(content@)[k].covers(cursor + 1),
    ensures
        ({
            let loaded = s.after_file_read(path, Ok(content));
            let placed = AppView { cursor_line: cursor, ..loaded };
            &&& loaded.query_blocks == parse(content@)
            &&& placed.current_query_executed().action == ActionView::ExecuteQuery(
                parse(content@)[k].text,
            )
            &&& placed.current_query_executed().state.is_querying
        }),
{
    let loaded = s.after_file_read(path, Ok(content));
    let placed = AppView { cursor_line: cursor, ..loaded };
    let blocks = parse(content@);
    assert(placed.query_blocks == blocks);
    crate::query_parser::parser::lemma_parse_well_ordered(content@);
    crate::query_parser::parser::lemma_parse_tidy(content@);
    assert(crate::query_parser::parser::is_tidy(blocks[k]));
    assert(!is_blank(blocks[k].text)) by {
        assert(!crate::text::is_whitespace(blocks[k].text[0]));
    }
    lemma_current_block_is_executed(placed, crate::text::lines(content@).len() as int, k);
}

} // verus!
