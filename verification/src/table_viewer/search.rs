use crate::table_viewer::data::CellPosition;
use crate::table_viewer::data::SearchView;
use crate::table_viewer::data::TableViewer;
use crate::table_viewer::data::ViewerView;
use crate::text::chars_contain;
use crate::text::contains;
use crate::text::lowercase_of;
use crate::text::str_chars;
use crate::text::to_lowercase;
use vstd::prelude::*;

verus! {

/// Whether a cell holds the search text `needle`, given in lower case: the
/// cell's text in lower case contains it.
pub open spec fn cell_matches(cell: Seq<char>, needle: Seq<char>) -> bool {
    contains(lowercase_of(cell), needle)
}

/// The matching cells among the first `n` cells of row number `r`, from left
/// to right.
pub open spec fn row_matches(row: Seq<Seq<char>>, r: usize, needle: Seq<char>, n: int) -> Seq<
    CellPosition,
>
    decreases n,
{
    if n <= 0 {
        Seq::empty()
    } else if n - 1 < row.len() && cell_matches(row[n - 1], needle) {
        row_matches(row, r, needle, n - 1).push(CellPosition { row: r, col: (n - 1) as usize })
    } else {
        row_matches(row, r, needle, n - 1)
    }
}

/// The matching cells of the first `n` rows, row by row and from left to
/// right within a row.
pub open spec fn table_matches(rows: Seq<Seq<Seq<char>>>, needle: Seq<char>, n: int) -> Seq<
    CellPosition,
>
    decreases n,
{
    if n <= 0 || n > rows.len() {
        Seq::empty()
    } else {
        table_matches(rows, needle, n - 1) + row_matches(
            rows[n - 1],
            (n - 1) as usize,
            needle,
            rows[n - 1].len() as int,
        )
    }
}

/// The positions among `matches` that lie in the window of rows
/// `start_row..end_row` and columns `start_col..end_col`, counted from the
/// window's corner.
pub open spec fn visible_matches(
    matches: Seq<CellPosition>,
    start_row: usize,
    end_row: usize,
    start_col: usize,
    end_col: usize,
) -> Seq<CellPosition>
    decreases matches.len(),
{
    if matches.len() == 0 {
        Seq::empty()
    } else {
        let before = visible_matches(matches.drop_last(), start_row, end_row, start_col, end_col);
        let pos = matches.last();
        if pos.row >= start_row && pos.row < end_row && pos.col >= start_col && pos.col < end_col {
            before.push(
                CellPosition {
                    row: (pos.row - start_row) as usize,
                    col: (pos.col - start_col) as usize,
                },
            )
        } else {
            before
        }
    }
}

/// The match that comes `offset` places after match number `current`, going
/// round from the last to the first.
pub open spec fn next_match(current: usize, offset: usize, len: int) -> usize {
    ((current + offset) % len) as usize
}

/// The match that comes `offset` places before match number `current`.
pub open spec fn prev_match(current: usize, offset: usize, len: int) -> usize {
    if current < offset {
        if len >= offset - current {
            (len - (offset - current)) as usize
        } else {
            0
        }
    } else {
        (current - offset) as usize
    }
}

impl ViewerView {
    /// The cursor on match number `idx`, where there is such a match.
    pub open spec fn at_match(self, idx: int) -> ViewerView {
        if 0 <= idx < self.search_state.matches.len() {
            ViewerView {
                current_row: self.search_state.matches[idx].row,
                current_col: self.search_state.matches[idx].col,
                ..self
            }.scrolled()
        } else {
            self
        }
    }

    /// The viewer with match number `idx` as its current match, and the
    /// cursor on it where there is such a match.
    pub open spec fn with_current_match(self, idx: usize) -> ViewerView {
        let moved = self.at_match(idx as int);
        ViewerView {
            search_state: SearchView { current_match: idx, ..moved.search_state },
            ..moved
        }
    }

    /// The viewer after a search for `term`: every cell whose text holds the
    /// term, whatever the case of either, is a match, and the cursor stands
    /// on the first of them. The empty term matches nothing.
    pub open spec fn searched(self, term: Seq<char>) -> ViewerView {
        let matches = if term.len() == 0 {
            Seq::empty()
        } else {
            table_matches(self.data.rows, lowercase_of(term), self.data.rows.len() as int)
        };
        ViewerView {
            search_state: SearchView { term, matches, current_match: 0 },
            ..self
        }.at_match(0)
    }

    /// The viewer after a step of `offset` matches forward.
    pub open spec fn at_next_match(self, offset: usize) -> ViewerView {
        if self.search_state.matches.len() > 0 {
            self.with_current_match(
                next_match(
                    self.search_state.current_match,
                    offset,
                    self.search_state.matches.len() as int,
                ),
            )
        } else {
            self
        }
    }

    /// The viewer after a step of `offset` matches backward.
    pub open spec fn at_prev_match(self, offset: usize) -> ViewerView {
        if self.search_state.matches.len() > 0 {
            self.with_current_match(
                prev_match(
                    self.search_state.current_match,
                    offset,
                    self.search_state.matches.len() as int,
                ),
            )
        } else {
            self
        }
    }
}

impl TableViewer {
    /// Searches every cell for `term`, whatever the case, and puts the cursor
    /// on the first match.
    pub fn search(&mut self, term: &str)
        ensures
            final(self)@ == old(self)@.searched(term@),
    {
        self.search_state.term = term.to_owned();
        self.search_state.matches.clear();
        self.search_state.current_match = 0;
        if term.is_empty() {
            return ;
        }
        let lowered = to_lowercase(term);
        let needle = str_chars(lowered.as_str());
        let ghost rows = self.data.rows.deep_view();
        let mut row_idx: usize = 0;
        let mut found: Vec<CellPosition> = Vec::new();
        while row_idx < self.data.rows.len()
            invariant
                0 <= row_idx <= self.data.rows.len(),
                rows == self.data.rows.deep_view(),
                needle@ == lowercase_of(term@),
                found@ == table_matches(rows, needle@, row_idx as int),
            decreases self.data.rows.len() - row_idx,
        {
            let row = &self.data.rows[row_idx];
            assert(rows[row_idx as int] == row.deep_view());
            let ghost before = found@;
            let mut col_idx: usize = 0;
            while col_idx < row.len()
                invariant
                    0 <= col_idx <= row.len(),
                    found@ == before + row_matches(
                        row.deep_view(),
                        row_idx,
                        needle@,
                        col_idx as int,
                    ),
                decreases row.len() - col_idx,
            {
                assert(row.deep_view()[col_idx as int] == row@[col_idx as int]@);
                let cell = to_lowercase(row[col_idx].as_str());
                let cell_chars = str_chars(cell.as_str());
                if chars_contain(&cell_chars, &needle) {
                    found.push(CellPosition { row: row_idx, col: col_idx });
                }
                col_idx += 1;
                assert(found@ =~= before + row_matches(
                    row.deep_view(),
                    row_idx,
                    needle@,
                    col_idx as int,
                ));
            }
            row_idx += 1;
        }
        self.search_state.matches = found;
        if self.search_state.matches.len() > 0 {
            self.jump_to_match(0);
        }
    }

    /// Steps `offset` matches forward, going round after the last.
    pub fn next_search_match(&mut self, offset: usize)
        ensures
            final(self)@ == old(self)@.at_next_match(offset),
    {
        let len = self.search_state.matches.len();
        if len > 0 {
            let sum: u128 = self.search_state.current_match as u128 + offset as u128;
            let next_match: usize = (sum % (len as u128)) as usize;
            self.jump_to_match(next_match);
            self.search_state.current_match = next_match;
        }
    }

    /// Steps `offset` matches backward.
    pub fn prev_search_match(&mut self, offset: usize)
        ensures
            final(self)@ == old(self)@.at_prev_match(offset),
    {
        let len = self.search_state.matches.len();
        if len > 0 {
            let current = self.search_state.current_match;
            let prev_match = if current < offset {
                if len >= offset - current {
                    len - (offset - current)
                } else {
                    0
                }
            } else {
                current - offset
            };
            self.jump_to_match(prev_match);
            self.search_state.current_match = prev_match;
        }
    }

    /// Puts the cursor on match number `match_idx`, where there is such a
    /// match.
    pub fn jump_to_match(&mut self, match_idx: usize)
        ensures
            final(self)@ == old(self)@.at_match(match_idx as int),
    {
        if match_idx < self.search_state.matches.len() {
            let position = self.search_state.matches[match_idx];
            self.current_row = position.row;
            self.current_col = position.col;
            self.update_scroll();
        }
    }

    /// The matches that lie in a window, counted from the window's corner.
    pub fn get_visible_search_matches(
        &self,
        start_row: usize,
        end_row: usize,
        start_col: usize,
        end_col: usize,
    ) -> (r: Vec<CellPosition>)
        ensures
            r@ == visible_matches(
                self@.search_state.matches,
                start_row,
                end_row,
                start_col,
                end_col,
            ),
    {
        let mut r: Vec<CellPosition> = Vec::new();
        let ghost all = self.search_state.matches@;
        let mut i: usize = 0;
        assert(all.take(0) =~= Seq::empty());
        while i < self.search_state.matches.len()
            invariant
                0 <= i <= self.search_state.matches.len(),
                all == self.search_state.matches@,
                r@ == visible_matches(all.take(i as int), start_row, end_row, start_col, end_col),
            decreases self.search_state.matches.len() - i,
        {
            let pos = self.search_state.matches[i];
            proof {
                let head = all.take(i + 1);
                assert(head.drop_last() =~= all.take(i as int));
                assert(head.last() == pos);
            }
            if pos.row >= start_row && pos.row < end_row && pos.col >= start_col && pos.col
                < end_col {
                r.push(CellPosition { row: pos.row - start_row, col: pos.col - start_col });
            }
            i += 1;
        }
        assert(all.take(i as int) =~= all);
        r
    }
}

} // verus!
