use crate::text::str_chars;
use vstd::prelude::*;

verus! {

/// A block of text that is laid over the middle of the animation.
pub struct TextOverlay {
    pub block_text: Vec<Vec<char>>,
}

/// The block of text that names the program.
pub open spec fn banner() -> Seq<Seq<char>> {
    seq![
        "  ███████   ██████  ██       ██   ██"@,
        " ██     ██ ██    ██ ██       ██  ██ "@,
        " ██        ██    ██ ██       ██ ██  "@,
        "  ███████  ██    ██ ██       ████   "@,
        "        ██ ██ ▄▄ ██ ██       ██ ██  "@,
        " ██     ██ ██ ██ ██ ██       ██  ██ "@,
        "  ███████   ██████  ███████  ██   ██"@,
        "               ██                  "@,
        "               ██                  "@,
    ]
}

/// The width of a block of text: the length of its first line.
pub open spec fn block_width(block: Seq<Seq<char>>) -> int {
    if block.len() > 0 {
        block[0].len() as int
    } else {
        0
    }
}

/// The first row or column of a block of `size` cells that stands in the
/// middle of a screen of `screen` cells.
pub open spec fn centered_start(screen: int, size: int) -> int {
    if screen >= size {
        (screen - size) / 2
    } else {
        0
    }
}

/// The character of a block of text that stands at a place of the screen,
/// where the block reaches that place: a space where a line of the block is
/// shorter than the first.
pub open spec fn overlay_char(
    block: Seq<Seq<char>>,
    row: int,
    col: int,
    screen_width: int,
    screen_height: int,
) -> Option<char> {
    let start_row = centered_start(screen_height, block.len() as int);
    let start_col = centered_start(screen_width, block_width(block));
    if start_row <= row < start_row + block.len() && start_col <= col < start_col + block_width(
        block,
    ) {
        if col - start_col < block[row - start_row].len() {
            Some(block[row - start_row][col - start_col])
        } else {
            Some(' ')
        }
    } else {
        None
    }
}

impl TextOverlay {
    /// The lines of the block.
    pub open spec fn lines(&self) -> Seq<Seq<char>> {
        Seq::new(self.block_text@.len(), |i: int| self.block_text@[i]@)
    }

    /// The overlay that names the program.
    pub fn new() -> (r: Self)
        ensures
            r.lines() == banner(),
    {
        let mut block_text: Vec<Vec<char>> = Vec::new();
        block_text.push(str_chars("  ███████   ██████  ██       ██   ██"));
        block_text.push(str_chars(" ██     ██ ██    ██ ██       ██  ██ "));
        block_text.push(str_chars(" ██        ██    ██ ██       ██ ██  "));
        block_text.push(str_chars("  ███████  ██    ██ ██       ████   "));
        block_text.push(str_chars("        ██ ██ ▄▄ ██ ██       ██ ██  "));
        block_text.push(str_chars(" ██     ██ ██ ██ ██ ██       ██  ██ "));
        block_text.push(str_chars("  ███████   ██████  ███████  ██   ██"));
        block_text.push(str_chars("               ██                  "));
        block_text.push(str_chars("               ██                  "));
        let r = Self { block_text };
        assert(r.lines() =~= banner());
        r
    }

    /// An overlay with the given lines.
    pub fn with_text(text_lines: Vec<&str>) -> (r: Self)
        ensures
            r.lines() == text_lines.deep_view(),
    {
        let mut block_text: Vec<Vec<char>> = Vec::new();
        let mut i: usize = 0;
        while i < text_lines.len()
            invariant
                0 <= i <= text_lines.len(),
                block_text@.len() == i,
                forall|k: int| 0 <= k < i ==> (#[trigger] block_text@[k])@ == text_lines@[k]@,
            decreases text_lines.len() - i,
        {
            block_text.push(str_chars(text_lines[i]));
            i += 1;
        }
        let r = Self { block_text };
        assert(r.lines() =~= text_lines.deep_view());
        r
    }

    /// The character of the overlay at a place of the screen, where the
    /// overlay reaches that place.
    pub fn get_char_at(&self, row: usize, col: usize, screen_width: usize, screen_height: usize) -> (r:
        Option<char>)
        ensures
            r == overlay_char(
                self.lines(),
                row as int,
                col as int,
                screen_width as int,
                screen_height as int,
            ),
    {
        let text_height = self.block_text.len();
        let text_width = if text_height > 0 {
            self.block_text[0].len()
        } else {
            0
        };
        proof {
            assert(self.lines().len() == text_height);
            if text_height > 0 {
                assert(self.lines()[0] == self.block_text@[0]@);
            }
        }
        let start_row = if screen_height >= text_height {
            (screen_height - text_height) / 2
        } else {
            0
        };
        let start_col = if screen_width >= text_width {
            (screen_width - text_width) / 2
        } else {
            0
        };
        if row >= start_row && row - start_row < text_height && col >= start_col && col - start_col
            < text_width {
            let text_row = row - start_row;
            let text_col = col - start_col;
            assert(self.lines()[text_row as int] == self.block_text@[text_row as int]@);
            if text_col < self.block_text[text_row].len() {
                Some(self.block_text[text_row][text_col])
            } else {
                Some(' ')
            }
        } else {
            None
        }
    }

    /// The width and the height of the overlay.
    pub fn get_dimensions(&self) -> (r: (usize, usize))
        ensures
            r.0 == block_width(self.lines()),
            r.1 == self.lines().len(),
    {
        let height = self.block_text.len();
        let width = if height > 0 {
            self.block_text[0].len()
        } else {
            0
        };
        proof {
            if height > 0 {
                assert(self.lines()[0] == self.block_text@[0]@);
            }
        }
        (width, height)
    }

    /// Whether the overlay reaches a place of the screen.
    pub fn is_text_position(&self, row: usize, col: usize, screen_width: usize, screen_height: usize) -> (r:
        bool)
        ensures
            r == overlay_char(
                self.lines(),
                row as int,
                col as int,
                screen_width as int,
                screen_height as int,
            ) is Some,
    {
        self.get_char_at(row, col, screen_width, screen_height).is_some()
    }
}

impl Default for TextOverlay {
    fn default() -> (r: Self)
        ensures
            r.lines() == banner(),
    {
        Self::new()
    }
}

} // verus!
