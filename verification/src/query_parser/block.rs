use crate::text::is_blank;
use crate::text::str_chars;
use crate::text::char_is_whitespace;
use vstd::prelude::*;

verus! {

/// A block of executable SQL text found in a file.
#[derive(Debug)]
pub struct QueryBlock {
    /// The SQL text of the block.
    pub text: String,
    /// The line on which the block starts (1-based, inclusive).
    pub start_line: usize,
    /// The line on which the block ends (1-based, inclusive).
    pub end_line: usize,
}

/// The mathematical content of a [`QueryBlock`].
pub ghost struct BlockView {
    pub text: Seq<char>,
    pub start_line: int,
    pub end_line: int,
}

impl BlockView {
    /// Whether the block's line range holds `line`.
    pub open spec fn covers(self, line: int) -> bool {
        self.start_line <= line <= self.end_line
    }
}

impl View for QueryBlock {
    type V = BlockView;

    open spec fn view(&self) -> BlockView {
        BlockView {
            text: self.text@,
            start_line: self.start_line as int,
            end_line: self.end_line as int,
        }
    }
}

impl Clone for QueryBlock {
    fn clone(&self) -> (r: Self)
        ensures
            r@ == self@,
    {
        QueryBlock {
            text: self.text.clone(),
            start_line: self.start_line,
            end_line: self.end_line,
        }
    }
}

impl QueryBlock {
    /// A block with the given text and lines.
    pub fn new(text: String, start_line: usize, end_line: usize) -> (r: Self)
        ensures
            r.text == text,
            r.start_line == start_line,
            r.end_line == end_line,
    {
        Self { text, start_line, end_line }
    }

    /// Whether `line_number` lies within the block's line range.
    pub fn contains_line(&self, line_number: usize) -> (r: bool)
        ensures
            r == self@.covers(line_number as int),
    {
        line_number >= self.start_line && line_number <= self.end_line
    }

    /// Whether the block's text holds nothing but whitespace.
    pub fn is_empty(&self) -> (r: bool)
        ensures
            r == is_blank(self.text@),
    {
        let chars = str_chars(self.text.as_str());
        let mut i: usize = 0;
        while i < chars.len()
            invariant
                0 <= i <= chars.len(),
                chars@ == self.text@,
                forall|j: int| 0 <= j < i ==> crate::text::is_whitespace(#[trigger] chars@[j]),
            decreases chars.len() - i,
        {
            if !char_is_whitespace(chars[i]) {
                assert(!crate::text::is_whitespace(self.text@[i as int]));
                return false;
            }
            i += 1;
        }
        true
    }
}

} // verus!
