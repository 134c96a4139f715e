use crate::clock::elapsed_millis;
use crate::clock::now;
use crate::config::matrix::MatrixConfig;
use crate::matrix::colours::char_color;
use crate::matrix::colours::overlay_color;
use crate::matrix::colours::Color;
use crate::matrix::colours::ColorCalculator;
use crate::matrix::column::random_in;
use crate::matrix::column::ticked;
use crate::matrix::column::MatrixColumn;
use crate::matrix::text_overlay::overlay_char;
use crate::matrix::text_overlay::TextOverlay;
use crate::text::string_of_chars;
use std::time::Instant;
use vstd::prelude::*;

verus! {

/// How far a sequence of `duration_ms` milliseconds has come after
/// `elapsed_ms`, in thousandths: the whole thousandths of the time that has
/// passed, 1000 from the end on. A sequence of no length is at its end from
/// the start.
pub open spec fn progress_permille(elapsed_ms: u128, duration_ms: u64) -> u16 {
    if elapsed_ms >= duration_ms {
        1000
    } else {
        (elapsed_ms * 1000 / duration_ms as int) as u16
    }
}

/// Whether a sequence of `duration_ms` milliseconds is over after
/// `elapsed_ms`.
pub open spec fn finished_after(elapsed_ms: u128, duration_ms: u64) -> bool {
    elapsed_ms >= duration_ms
}

/// Whether a sequence of `duration_ms` milliseconds has come three tenths of
/// its way after `elapsed_ms`.
pub open spec fn startup_due_after(elapsed_ms: u128, duration_ms: u64) -> bool {
    10 * elapsed_ms >= 3 * duration_ms
}

/// The decorative loading sequence: columns of falling glyphs with a block of
/// text laid over them, running for a set time from its start.
pub struct MatrixAnimation {
    pub columns: Vec<MatrixColumn>,
    pub config: MatrixConfig,
    pub start_time: Instant,
    pub matrix_chars: Vec<char>,
    pub text_overlay: TextOverlay,
    pub color_calculator: ColorCalculator,
}

impl MatrixAnimation {
    /// The columns of a new animation: one for each cell of the screen's
    /// width, each with up to a third of the screen's height in glyphs.
    fn fresh_columns(config: &MatrixConfig, matrix_chars: &Vec<char>) -> (columns: Vec<MatrixColumn>)
        ensures
            columns@.len() == config.width,
            forall|i: int|
                0 <= i < columns@.len() ==> (#[trigger] columns@[i]).chars@.len() <= config.height
                    / 3,
    {
        let mut columns: Vec<MatrixColumn> = Vec::new();
        let mut col_idx: u16 = 0;
        let limit: usize = (config.height / 3) as usize;
        while col_idx < config.width
            invariant
                0 <= col_idx <= config.width,
                limit == config.height / 3,
                columns@.len() == col_idx,
                forall|i: int|
                    0 <= i < columns@.len() ==> (#[trigger] columns@[i]).chars@.len()
                        <= config.height / 3,
            decreases config.width - col_idx,
        {
            let initial_length = random_in(0, limit);
            columns.push(MatrixColumn::new(initial_length, matrix_chars));
            col_idx += 1;
        }
        columns
    }

    /// A new animation, started now, with the overlay that names the program.
    pub fn new(config: &MatrixConfig) -> (r: Self)
        ensures
            r.config == *config,
            r.matrix_chars@ == config.chars@,
            r.columns@.len() == config.width,
            forall|i: int|
                0 <= i < r.columns@.len() ==> (#[trigger] r.columns@[i]).chars@.len()
                    <= config.height / 3,
            r.text_overlay.lines() == crate::matrix::text_overlay::banner(),
    {
        let matrix_chars = config.get_character_set();
        let columns = Self::fresh_columns(config, &matrix_chars);
        Self {
            columns,
            config: config.clone(),
            start_time: now(),
            matrix_chars,
            text_overlay: TextOverlay::new(),
            color_calculator: ColorCalculator::new(),
        }
    }

    /// A new animation with a text of one's own laid over it.
    pub fn with_custom_text(config: &MatrixConfig, text_lines: Vec<&str>) -> (r: Self)
        ensures
            r.config == *config,
            r.matrix_chars@ == config.chars@,
            r.columns@.len() == config.width,
            forall|i: int|
                0 <= i < r.columns@.len() ==> (#[trigger] r.columns@[i]).chars@.len()
                    <= config.height / 3,
            r.text_overlay.lines() == text_lines.deep_view(),
    {
        let mut animation = Self::new(config);
        animation.text_overlay = TextOverlay::with_text(text_lines);
        animation
    }

    /// One tick of every column: each column is what a tick makes of it, with
    /// the glyphs of the animation to draw from. Nothing else changes.
    pub fn update(&mut self)
        ensures
            final(self).config == old(self).config,
            final(self).start_time == old(self).start_time,
            final(self).matrix_chars == old(self).matrix_chars,
            final(self).columns@.len() == old(self).columns@.len(),
            final(self).text_overlay == old(self).text_overlay,
            forall|i: int|
                0 <= i < final(self).columns@.len() ==> ticked(
                    old(self).columns@[i],
                    #[trigger] final(self).columns@[i],
                    old(self).matrix_chars@,
                ),
    {
        let n = self.columns.len();
        let mut i: usize = 0;
        while i < n
            invariant
                0 <= i <= n,
                n == self.columns@.len(),
                n == old(self).columns@.len(),
                self.config == old(self).config,
                self.start_time == old(self).start_time,
                self.matrix_chars == old(self).matrix_chars,
                self.text_overlay == old(self).text_overlay,
                forall|k: int|
                    0 <= k < i ==> ticked(
                        old(self).columns@[k],
                        #[trigger] self.columns@[k],
                        old(self).matrix_chars@,
                    ),
                forall|k: int| i <= k < n ==> #[trigger] self.columns@[k] == old(self).columns@[k],
            decreases n - i,
        {
            self.columns[i].update(&self.matrix_chars);
            i += 1;
        }
    }

    /// The character that the animation shows at a place of the screen: the
    /// glyph of the column there, or a space where the column has none.
    pub open spec fn frame_char(&self, row: int, col: int) -> char {
        if row < self.columns@[col].chars@.len() {
            self.columns@[col].chars@[row].character
        } else {
            ' '
        }
    }

    /// The glyphs on the screen, line by line.
    pub fn get_frame(&self) -> (lines: Vec<String>)
        ensures
            lines@.len() == self.config.height,
            forall|row: int|
                0 <= row < lines@.len() ==> (#[trigger] lines@[row])@.len() == self.columns@.len(),
            forall|row: int, col: int|
                0 <= row < lines@.len() && 0 <= col < self.columns@.len() ==> #[trigger] lines@[row]@[col]
                    == self.frame_char(row, col),
    {
        let mut lines: Vec<String> = Vec::new();
        let height = self.config.height as usize;
        let mut row_idx: usize = 0;
        while row_idx < height
            invariant
                0 <= row_idx <= height,
                height == self.config.height,
                lines@.len() == row_idx,
                forall|row: int|
                    0 <= row < lines@.len() ==> (#[trigger] lines@[row])@.len()
                        == self.columns@.len(),
                forall|row: int, col: int|
                    0 <= row < lines@.len() && 0 <= col < self.columns@.len() ==> #[trigger] lines@[row]@[col]
                        == self.frame_char(row, col),
            decreases height - row_idx,
        {
            let mut line: Vec<char> = Vec::new();
            let mut c: usize = 0;
            while c < self.columns.len()
                invariant
                    0 <= c <= self.columns.len(),
                    line@.len() == c,
                    forall|k: int| 0 <= k < c ==> line@[k] == self.frame_char(row_idx as int, k),
                decreases self.columns.len() - c,
            {
                match self.columns[c].get_char_at(row_idx) {
                    Some(char_data) => line.push(char_data.character),
                    None => line.push(' '),
                }
                c += 1;
            }
            lines.push(string_of_chars(&line));
            row_idx += 1;
        }
        lines
    }

    /// The colour of the glyph at a place of the screen; black where there is
    /// none.
    pub fn get_char_color(&self, row: usize, col: usize) -> (r: Color)
        ensures
            r == if col < self.columns@.len() && row < self.columns@[col as int].chars@.len() {
                char_color(
                    self.columns@[col as int].chars@[row as int],
                    self.columns@[col as int].intensity,
                )
            } else {
                Color::Black
            },
    {
        if col < self.columns.len() {
            let column = &self.columns[col];
            match column.get_char_at(row) {
                Some(char_data) => self.color_calculator.get_char_color(
                    char_data,
                    column.intensity(),
                ),
                None => Color::Black,
            }
        } else {
            Color::Black
        }
    }

    /// The character of the overlay at a place of the screen.
    pub fn get_overlay_char_at(&self, row: usize, col: usize) -> (r: Option<char>)
        ensures
            r == overlay_char(
                self.text_overlay.lines(),
                row as int,
                col as int,
                self.config.width as int,
                self.config.height as int,
            ),
    {
        self.text_overlay.get_char_at(
            row,
            col,
            self.config.width as usize,
            self.config.height as usize,
        )
    }

    /// The colour of the overlay, going by the clock.
    pub fn get_overlay_color(&self) -> (r: Color)
        ensures
            exists|p: u16| p <= 1000 && r == #[trigger] overlay_color(p),
    {
        let p = self.get_progress();
        self.color_calculator.get_overlay_color(p)
    }

    /// The milliseconds that have passed since the start, going by the clock.
    pub fn elapsed_ms(&self) -> u128 {
        elapsed_millis(&self.start_time)
    }

    /// Whether the sequence is over, going by the clock: whether it is over
    /// after the time that the clock says has passed. A sequence of no
    /// length is over whatever the clock says.
    pub fn is_finished(&self) -> (r: bool)
        ensures
            exists|elapsed_ms: u128| r == #[trigger] finished_after(elapsed_ms, self.config.duration_ms),
    {
        let elapsed = self.elapsed_ms();
        self.is_finished_after(elapsed)
    }

    /// Whether the sequence is over `elapsed_ms` milliseconds after its
    /// start.
    pub fn is_finished_after(&self, elapsed_ms: u128) -> (r: bool)
        ensures
            r == finished_after(elapsed_ms, self.config.duration_ms),
    {
        elapsed_ms >= self.config.duration_ms as u128
    }

    /// How far the sequence has come, in thousandths, going by the clock:
    /// how far it has come after the time that the clock says has passed. A
    /// sequence of no length is at its end whatever the clock says.
    pub fn get_progress(&self) -> (r: u16)
        ensures
            r <= 1000,
            exists|elapsed_ms: u128| r == #[trigger] progress_permille(elapsed_ms, self.config.duration_ms),
    {
        let elapsed = self.elapsed_ms();
        self.progress_after(elapsed)
    }

    /// How far the sequence has come `elapsed_ms` milliseconds after its
    /// start, in thousandths.
    pub fn progress_after(&self, elapsed_ms: u128) -> (r: u16)
        ensures
            r == progress_permille(elapsed_ms, self.config.duration_ms),
            r <= 1000,
    {
        let total = self.config.duration_ms as u128;
        if elapsed_ms >= total {
            1000
        } else {
            let scaled = elapsed_ms * 1000;
            let q = scaled / total;
            assert(q < 1000) by (nonlinear_arith)
                requires
                    q == scaled / total,
                    scaled == elapsed_ms * 1000,
                    0 <= elapsed_ms < total,
            ;
            q as u16
        }
    }

    /// Whether the sequence has come three tenths of its way `elapsed_ms`
    /// milliseconds after its start.
    pub fn startup_due_after(&self, elapsed_ms: u128) -> (r: bool)
        ensures
            r == startup_due_after(elapsed_ms, self.config.duration_ms),
    {
        if elapsed_ms > u64::MAX as u128 {
            true
        } else {
            10 * elapsed_ms >= 3 * (self.config.duration_ms as u128)
        }
    }

    /// Starts the sequence anew, with new columns.
    pub fn reset(&mut self)
        ensures
            final(self).config == old(self).config,
            final(self).matrix_chars == old(self).matrix_chars,
            final(self).columns@.len() == old(self).config.width,
            forall|i: int|
                0 <= i < final(self).columns@.len() ==> (#[trigger] final(self).columns@[i]).chars@.len()
                    <= old(self).config.height / 3,
            final(self).text_overlay == old(self).text_overlay,
    {
        self.start_time = now();
        self.columns = Self::fresh_columns(&self.config, &self.matrix_chars);
    }

    /// The width and the height of the animation.
    pub fn get_dimensions(&self) -> (r: (u16, u16))
        ensures
            r == (self.config.width, self.config.height),
    {
        (self.config.width, self.config.height)
    }
}

} // verus!
