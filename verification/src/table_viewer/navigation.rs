use crate::keys::capped_mul;
use crate::keys::push_digit;
use crate::keys::ten_times_capped;
use crate::keys::with_digit;
use crate::keys::KeyCode;
use crate::keys::KeyEvent;
use crate::table_viewer::data::TableViewer;
use crate::table_viewer::data::ViewerView;
use vstd::prelude::*;

verus! {

/// The number of rows that a viewer shows at once.
pub const VISIBLE_ROWS: usize = 20;

/// The number of columns that a viewer shows at once.
pub const VISIBLE_COLS: usize = 5;

/// The width of the bars of a chart that a key press opens.
pub const CHART_BAR_WIDTH: usize = 30;

/// Where a window of `visible` items that starts at `offset` must start to
/// show `cursor`: unchanged where it shows it already, else moved no further
/// than needed.
pub open spec fn scroll_to(offset: usize, cursor: usize, visible: usize) -> usize {
    if cursor < offset {
        cursor
    } else if cursor - offset >= visible {
        (cursor - visible + 1) as usize
    } else {
        offset
    }
}

/// `a - b`, or 0 where `b` is the larger.
pub open spec fn minus(a: int, b: int) -> usize {
    if a >= b {
        (a - b) as usize
    } else {
        0
    }
}

/// `a + b`, but no more than `cap`.
pub open spec fn plus_up_to(a: int, b: int, cap: int) -> usize {
    if a + b <= cap {
        (a + b) as usize
    } else {
        cap as usize
    }
}

impl ViewerView {
    /// The viewer with both scroll offsets brought up to the cursor.
    pub open spec fn scrolled(self) -> ViewerView {
        ViewerView {
            scroll_offset_y: scroll_to(self.scroll_offset_y, self.current_row, VISIBLE_ROWS),
            scroll_offset_x: scroll_to(self.scroll_offset_x, self.current_col, VISIBLE_COLS),
            ..self
        }
    }

    /// The viewer without its chart.
    pub open spec fn chart_closed(self) -> ViewerView {
        ViewerView { show_chart: false, chart_data: None, ..self }
    }

    /// The viewer without its chart, where it shows one.
    pub open spec fn chart_dropped(self) -> ViewerView {
        if self.show_chart {
            self.chart_closed()
        } else {
            self
        }
    }

    /// The cursor moved down by `count` rows, but not past the last row.
    pub open spec fn moved_down(self, count: usize) -> ViewerView {
        if self.data.rows.len() > 0 {
            ViewerView {
                current_row: plus_up_to(
                    self.current_row as int,
                    count as int,
                    self.data.rows.len() - 1,
                ),
                ..self
            }.scrolled()
        } else {
            self
        }
    }

    /// The cursor moved up by `count` rows, but not past the first row.
    pub open spec fn moved_up(self, count: usize) -> ViewerView {
        ViewerView { current_row: minus(self.current_row as int, count as int), ..self }.scrolled()
    }

    /// The cursor moved left by `count` columns, but not past the first
    /// column; a chart is closed.
    pub open spec fn moved_left(self, count: usize) -> ViewerView {
        ViewerView {
            current_col: minus(self.current_col as int, count as int),
            ..self
        }.scrolled().chart_dropped()
    }

    /// The cursor moved right by `count` columns, but not past the last
    /// column; a chart is closed.
    pub open spec fn moved_right(self, count: usize) -> ViewerView {
        if self.data.headers.len() > 0 {
            ViewerView {
                current_col: plus_up_to(
                    self.current_col as int,
                    count as int,
                    self.data.headers.len() - 1,
                ),
                ..self
            }.scrolled().chart_dropped()
        } else {
            self
        }
    }

    /// The cursor on row `row`.
    pub open spec fn at_row(self, row: usize) -> ViewerView {
        ViewerView { current_row: row, ..self }.scrolled()
    }

    /// The cursor on column `col`.
    pub open spec fn at_col(self, col: usize) -> ViewerView {
        ViewerView { current_col: col, ..self }.scrolled()
    }

    /// The viewer after a key press. A digit extends the repeat count; any
    /// other key uses the count up (1 where none was typed) and moves the
    /// cursor, walks the search matches, toggles the chart, or does nothing.
    pub open spec fn after_key(self, key: KeyEvent) -> ViewerView {
        match key.digit() {
            Some(d) => ViewerView {
                movement_multiplier: Some(with_digit(self.movement_multiplier, d)),
                ..self
            },
            None => {
                let count = match self.movement_multiplier {
                    Some(n) => n,
                    None => 1usize,
                };
                let v = ViewerView { movement_multiplier: None, ..self };
                match key.code {
                    KeyCode::Down => v.moved_down(count),
                    KeyCode::Up => v.moved_up(count),
                    KeyCode::Left => v.moved_left(count),
                    KeyCode::Right => v.moved_right(count),
                    KeyCode::PageDown => v.moved_down(capped_mul(10, count as int)),
                    KeyCode::PageUp => v.moved_up(capped_mul(10, count as int)),
                    KeyCode::Home => v.at_col(0),
                    KeyCode::End => v.at_col(minus(v.data.headers.len() as int, 1)),
                    KeyCode::Char(c) => if c == 'j' {
                        v.moved_down(count)
                    } else if c == 'k' {
                        v.moved_up(count)
                    } else if c == 'h' {
                        v.moved_left(count)
                    } else if c == 'l' {
                        v.moved_right(count)
                    } else if c == 'd' && key.control {
                        v.moved_down(capped_mul(10, count as int))
                    } else if c == 'u' && key.control {
                        v.moved_up(capped_mul(10, count as int))
                    } else if c == 'g' {
                        v.at_row(0)
                    } else if c == 'G' {
                        v.at_row(minus(v.data.rows.len() as int, 1))
                    } else if c == '_' {
                        v.at_col(0)
                    } else if c == '$' {
                        v.at_col(minus(v.data.headers.len() as int, 1))
                    } else if c == 'n' {
                        v.at_next_match(1)
                    } else if c == 'N' {
                        v.at_prev_match(1)
                    } else if c == 'c' {
                        v.chart_toggled(CHART_BAR_WIDTH)
                    } else {
                        v
                    },
                    _ => v,
                }
            },
        }
    }
}

/// Where a window must start to show the cursor.
pub(crate) fn scroll_offset_for(offset: usize, cursor: usize, visible: usize) -> (r: usize)
    requires
        visible >= 1,
    ensures
        r == scroll_to(offset, cursor, visible),
{
    if cursor < offset {
        cursor
    } else if cursor - offset >= visible {
        cursor - visible + 1
    } else {
        offset
    }
}

impl TableViewer {
    /// Handles a key press in the viewer.
    pub fn handle_key(&mut self, key: KeyEvent)
        ensures
            final(self)@ == old(self)@.after_key(key),
    {
        if let Some(digit) = key.as_digit() {
            self.movement_multiplier = Some(push_digit(self.movement_multiplier, digit));
            return ;
        }
        let count = match self.movement_multiplier {
            Some(n) => n,
            None => 1,
        };
        self.movement_multiplier = None;
        match key.code {
            KeyCode::Down => self.move_cursor_down(count),
            KeyCode::Up => self.move_cursor_up(count),
            KeyCode::Left => self.move_cursor_left(count),
            KeyCode::Right => self.move_cursor_right(count),
            KeyCode::PageDown => self.move_cursor_down(ten_times_capped(count)),
            KeyCode::PageUp => self.move_cursor_up(ten_times_capped(count)),
            KeyCode::Home => {
                self.current_col = 0;
                self.update_scroll();
            },
            KeyCode::End => {
                self.current_col = if self.data.headers.len() > 0 {
                    self.data.headers.len() - 1
                } else {
                    0
                };
                self.update_scroll();
            },
            KeyCode::Char(c) => {
                if c == 'j' {
                    self.move_cursor_down(count)
                } else if c == 'k' {
                    self.move_cursor_up(count)
                } else if c == 'h' {
                    self.move_cursor_left(count)
                } else if c == 'l' {
                    self.move_cursor_right(count)
                } else if c == 'd' && key.control {
                    self.move_cursor_down(ten_times_capped(count))
                } else if c == 'u' && key.control {
                    self.move_cursor_up(ten_times_capped(count))
                } else if c == 'g' {
                    self.current_row = 0;
                    self.update_scroll();
                } else if c == 'G' {
                    self.current_row = if self.data.rows.len() > 0 {
                        self.data.rows.len() - 1
                    } else {
                        0
                    };
                    self.update_scroll();
                } else if c == '_' {
                    self.current_col = 0;
                    self.update_scroll();
                } else if c == '$' {
                    self.current_col = if self.data.headers.len() > 0 {
                        self.data.headers.len() - 1
                    } else {
                        0
                    };
                    self.update_scroll();
                } else if c == 'n' {
                    self.next_search_match(1)
                } else if c == 'N' {
                    self.prev_search_match(1)
                } else if c == 'c' {
                    self.toggle_chart(CHART_BAR_WIDTH)
                }
            },
            _ => {},
        }
    }

    /// Moves the cursor down by `count` rows, but not past the last row.
    pub fn move_cursor_down(&mut self, count: usize)
        ensures
            final(self)@ == old(self)@.moved_down(count),
    {
        let n = self.data.rows.len();
        if n > 0 {
            self.current_row = if self.current_row >= n - 1 || count >= n - 1 - self.current_row {
                n - 1
            } else {
                self.current_row + count
            };
            self.update_scroll();
        }
    }

    /// Moves the cursor up by `count` rows, but not past the first row.
    pub fn move_cursor_up(&mut self, count: usize)
        ensures
            final(self)@ == old(self)@.moved_up(count),
    {
        self.current_row = if self.current_row >= count {
            self.current_row - count
        } else {
            0
        };
        self.update_scroll();
    }

    /// Moves the cursor left by `count` columns, but not past the first column;
    /// closes a chart.
    pub fn move_cursor_left(&mut self, count: usize)
        ensures
            final(self)@ == old(self)@.moved_left(count),
    {
        self.current_col = if self.current_col >= count {
            self.current_col - count
        } else {
            0
        };
        self.update_scroll();
        if self.show_chart {
            self.show_chart = false;
            self.chart_data = None;
        }
    }

    /// Moves the cursor right by `count` columns, but not past the last column;
    /// closes a chart.
    pub fn move_cursor_right(&mut self, count: usize)
        ensures
            final(self)@ == old(self)@.moved_right(count),
    {
        let n = self.data.headers.len();
        if n > 0 {
            self.current_col = if self.current_col >= n - 1 || count >= n - 1 - self.current_col {
                n - 1
            } else {
                self.current_col + count
            };
            self.update_scroll();
            if self.show_chart {
                self.show_chart = false;
                self.chart_data = None;
            }
        }
    }

    /// Brings both scroll offsets up to the cursor.
    pub fn update_scroll(&mut self)
        ensures
            final(self)@ == old(self)@.scrolled(),
    {
        self.scroll_offset_y = scroll_offset_for(
            self.scroll_offset_y,
            self.current_row,
            VISIBLE_ROWS,
        );
        self.scroll_offset_x = scroll_offset_for(
            self.scroll_offset_x,
            self.current_col,
            VISIBLE_COLS,
        );
    }
}

/// After the scroll offsets are brought up to it, the cursor lies within the
/// window: at or after its start, and before its end.
pub proof fn lemma_scrolled_shows_cursor(v: ViewerView)
    ensures
        v.scrolled().scroll_offset_y <= v.scrolled().current_row < v.scrolled().scroll_offset_y
            + VISIBLE_ROWS,
        v.scrolled().scroll_offset_x <= v.scrolled().current_col < v.scrolled().scroll_offset_x
            + VISIBLE_COLS,
        v.scrolled().current_row == v.current_row,
        v.scrolled().current_col == v.current_col,
{
}

/// Whether the cursor of a viewer lies within the window that the viewer
/// shows.
pub open spec fn viewer_cursor_in_window(v: ViewerView) -> bool {
    &&& v.scroll_offset_y <= v.current_row < v.scroll_offset_y + VISIBLE_ROWS
    &&& v.scroll_offset_x <= v.current_col < v.scroll_offset_x + VISIBLE_COLS
}

/// Bringing the scroll offsets up to the cursor puts the cursor within the
/// window, and leaves the cursor where it is.
pub proof fn lemma_scrolled_in_window(v: ViewerView)
    ensures
        viewer_cursor_in_window(v.scrolled()),
        v.scrolled().current_row == v.current_row,
        v.scrolled().current_col == v.current_col,
        v.scrolled().data == v.data,
{
}

/// The keys that move the cursor leave it within the window.
pub proof fn lemma_moves_keep_cursor_in_window(v: ViewerView, count: usize)
    requires
        viewer_cursor_in_window(v),
    ensures
        viewer_cursor_in_window(v.moved_down(count)),
        viewer_cursor_in_window(v.moved_up(count)),
        viewer_cursor_in_window(v.moved_left(count)),
        viewer_cursor_in_window(v.moved_right(count)),
        viewer_cursor_in_window(v.at_row(count)),
        viewer_cursor_in_window(v.at_col(count)),
{
    if v.data.rows.len() > 0 {
        lemma_scrolled_in_window(
            ViewerView {
                current_row: plus_up_to(
                    v.current_row as int,
                    count as int,
                    v.data.rows.len() - 1,
                ),
                ..v
            },
        );
    }
    lemma_scrolled_in_window(
        ViewerView { current_row: minus(v.current_row as int, count as int), ..v },
    );
    lemma_scrolled_in_window(
        ViewerView { current_col: minus(v.current_col as int, count as int), ..v },
    );
    if v.data.headers.len() > 0 {
        lemma_scrolled_in_window(
            ViewerView {
                current_col: plus_up_to(
                    v.current_col as int,
                    count as int,
                    v.data.headers.len() - 1,
                ),
                ..v
            },
        );
    }
    lemma_scrolled_in_window(ViewerView { current_row: count, ..v });
    lemma_scrolled_in_window(ViewerView { current_col: count, ..v });
}

/// Putting the cursor on a match, and walking the matches, leaves the cursor
/// within the window.
pub proof fn lemma_matches_keep_cursor_in_window(v: ViewerView, idx: usize, offset: usize)
    requires
        viewer_cursor_in_window(v),
    ensures
        viewer_cursor_in_window(v.at_match(idx as int)),
        viewer_cursor_in_window(v.with_current_match(idx)),
        viewer_cursor_in_window(v.at_next_match(offset)),
        viewer_cursor_in_window(v.at_prev_match(offset)),
{
    if 0 <= idx < v.search_state.matches.len() {
        lemma_scrolled_in_window(
            ViewerView {
                current_row: v.search_state.matches[idx as int].row,
                current_col: v.search_state.matches[idx as int].col,
                ..v
            },
        );
    }
    let n = v.search_state.matches.len() as int;
    if n > 0 {
        let next = crate::table_viewer::search::next_match(v.search_state.current_match, offset, n);
        let prev = crate::table_viewer::search::prev_match(v.search_state.current_match, offset, n);
        if 0 <= next < n {
            lemma_scrolled_in_window(
                ViewerView {
                    current_row: v.search_state.matches[next as int].row,
                    current_col: v.search_state.matches[next as int].col,
                    ..v
                },
            );
        }
        if 0 <= prev < n {
            lemma_scrolled_in_window(
                ViewerView {
                    current_row: v.search_state.matches[prev as int].row,
                    current_col: v.search_state.matches[prev as int].col,
                    ..v
                },
            );
        }
    }
}

/// A cursor that lies within the window of a viewer stays within it whatever
/// key is pressed.
pub proof fn lemma_viewer_keeps_cursor_in_window(v: ViewerView, key: KeyEvent)
    requires
        viewer_cursor_in_window(v),
    ensures
        viewer_cursor_in_window(v.after_key(key)),
{
    match key.digit() {
        Some(d) => {},
        None => {
            let count = match v.movement_multiplier {
                Some(n) => n,
                None => 1usize,
            };
            let w = ViewerView { movement_multiplier: None, ..v };
            lemma_moves_keep_cursor_in_window(w, count);
            lemma_moves_keep_cursor_in_window(w, capped_mul(10, count as int));
            lemma_moves_keep_cursor_in_window(w, 0);
            lemma_moves_keep_cursor_in_window(w, minus(w.data.rows.len() as int, 1));
            lemma_moves_keep_cursor_in_window(w, minus(w.data.headers.len() as int, 1));
            lemma_matches_keep_cursor_in_window(w, 0, 1);
        },
    }
}

/// A search leaves the cursor within the window.
pub proof fn lemma_search_keeps_cursor_in_window(v: ViewerView, term: Seq<char>)
    requires
        viewer_cursor_in_window(v),
    ensures
        viewer_cursor_in_window(v.searched(term)),
{
    let matches = if term.len() == 0 {
        Seq::empty()
    } else {
        crate::table_viewer::search::table_matches(
            v.data.rows,
            crate::text::lowercase_of(term),
            v.data.rows.len() as int,
        )
    };
    let w = ViewerView {
        search_state: crate::table_viewer::data::SearchView { term, matches, current_match: 0 },
        ..v
    };
    lemma_matches_keep_cursor_in_window(w, 0, 0);
}

/// No key moves the cursor of a viewer out of its table: within a table that
/// has rows and columns, a cursor on a cell stays on a cell, and moves the way
/// the key says.
pub proof fn lemma_cursor_keys_stay_in_table(v: ViewerView, count: usize)
    requires
        v.current_row < v.data.rows.len() <= usize::MAX,
        v.current_col < v.data.headers.len() <= usize::MAX,
    ensures
        v.current_row <= v.moved_down(count).current_row < v.data.rows.len(),
        v.moved_up(count).current_row <= v.current_row,
        v.moved_left(count).current_col <= v.current_col,
        v.current_col <= v.moved_right(count).current_col < v.data.headers.len(),
{
    let down = ViewerView {
        current_row: plus_up_to(v.current_row as int, count as int, v.data.rows.len() - 1),
        ..v
    };
    assert(v.moved_down(count) == down.scrolled());
    assert(down.scrolled().current_row == down.current_row);
    let right = ViewerView {
        current_col: plus_up_to(v.current_col as int, count as int, v.data.headers.len() - 1),
        ..v
    };
    assert(v.moved_right(count) == right.scrolled().chart_dropped());
    assert(right.scrolled().chart_dropped().current_col == right.current_col);
}

/// A digit extends the repeat count of a viewer and does nothing else; any
/// other key uses the count up.
pub proof fn lemma_viewer_key_uses_count(v: ViewerView, key: KeyEvent)
    ensures
        key.digit() matches Some(d) ==> v.after_key(key) == (ViewerView {
            movement_multiplier: Some(with_digit(v.movement_multiplier, d)),
            ..v
        }),
        key.digit() is None ==> v.after_key(key).movement_multiplier is None,
{
    if key.digit() is None {
        let w = ViewerView { movement_multiplier: None, ..v };
        assert(forall|n: usize| (#[trigger] w.moved_down(n)).movement_multiplier is None);
        assert(forall|n: usize| (#[trigger] w.moved_up(n)).movement_multiplier is None);
        assert(forall|n: usize| (#[trigger] w.moved_left(n)).movement_multiplier is None);
        assert(forall|n: usize| (#[trigger] w.moved_right(n)).movement_multiplier is None);
        assert(forall|n: usize| (#[trigger] w.at_row(n)).movement_multiplier is None);
        assert(forall|n: usize| (#[trigger] w.at_col(n)).movement_multiplier is None);
        assert(w.at_next_match(1).movement_multiplier is None);
        assert(w.at_prev_match(1).movement_multiplier is None);
        assert(w.chart_toggled(CHART_BAR_WIDTH).movement_multiplier is None);
    }
}

} // verus!
