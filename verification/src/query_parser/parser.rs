use crate::query_parser::block::BlockView;
use crate::query_parser::block::QueryBlock;
use crate::query_parser::utils::chars_are_empty_query;
use crate::query_parser::utils::is_empty_query;
use crate::query_parser::utils::is_skippable;
use crate::text::comment_marker;
use crate::text::copy_range;
use crate::text::join_lines;
use crate::text::join_range;
use crate::text::last_index_of;
use crate::text::lines;
use crate::text::range_is_comment;
use crate::text::range_last_index_of;
use crate::text::range_starts_with;
use crate::text::skip_whitespace_back;
use crate::text::split_lines;
use crate::text::starts_with;
use crate::text::str_chars;
use crate::text::string_of_chars;
use crate::text::to_uppercase;
use crate::text::trim;
use crate::text::trim_bounds;
use crate::text::trim_end;
use crate::text::uppercase_of;
use crate::text::views_of;
use vstd::prelude::*;

verus! {

/// Whether a trimmed line opens a transaction: in upper case it begins with
/// `BEGIN`.
pub open spec fn begins_transaction(trimmed: Seq<char>) -> bool {
    starts_with(uppercase_of(trimmed), "BEGIN"@)
}

/// Whether a trimmed line closes a transaction: in upper case it begins with
/// `COMMIT;` or `ROLLBACK;`.
pub open spec fn closes_transaction(trimmed: Seq<char>) -> bool {
    starts_with(uppercase_of(trimmed), "COMMIT;"@) || starts_with(
        uppercase_of(trimmed),
        "ROLLBACK;"@,
    )
}

/// Whether a line ends a statement: after its last semicolon stands only
/// whitespace or a comment.
pub open spec fn ends_statement(line: Seq<char>) -> bool {
    let t = trim_end(line);
    let k = last_index_of(t, ';');
    k >= 0 && {
        let after = trim(t.skip(k + 1));
        after.len() == 0 || starts_with(after, comment_marker())
    }
}

/// Whether a trimmed line ends the open block. Inside a transaction only a
/// closing line does.
pub open spec fn ends_block(trimmed: Seq<char>, in_transaction: bool) -> bool {
    (ends_statement(trimmed) && !in_transaction) || closes_transaction(trimmed)
}

/// The text of a block over the lines `all[first..=last]` (0-based): the lines
/// joined and trimmed.
pub open spec fn joined_text(all: Seq<Seq<char>>, first: int, last: int) -> Seq<char> {
    trim(join_lines(all.subrange(first, last + 1)))
}

/// A text without its final character where that is a semicolon.
pub open spec fn strip_semicolon(text: Seq<char>) -> Seq<char> {
    if text.len() > 0 && text.last() == ';' {
        text.drop_last()
    } else {
        text
    }
}

/// The text of a block up to its end: up to the semicolon that ends the
/// statement where line `last` ends one, and else the whole text, less a
/// semicolon at its very end.
pub open spec fn cut_text(all: Seq<Seq<char>>, first: int, last: int) -> Seq<char> {
    let text = joined_text(all, first, last);
    if ends_statement(trim(all[last])) {
        let k = last_index_of(text, ';');
        if k >= 0 {
            text.take(k)
        } else {
            text
        }
    } else {
        strip_semicolon(text)
    }
}

/// The text of a block that ends with line `last`: the lines joined, up to
/// the semicolon that ends the statement, and trimmed. What follows that
/// semicolon on its line, a comment at most, is no part of the block.
pub open spec fn closed_text(all: Seq<Seq<char>>, first: int, last: int) -> Seq<char> {
    trim_end(cut_text(all, first, last))
}

/// The block that a terminated run of lines `all[first..=last]` gives, if it
/// holds any SQL.
pub open spec fn closed_block(all: Seq<Seq<char>>, first: int, last: int) -> Option<BlockView> {
    let text = closed_text(all, first, last);
    if is_empty_query(text) {
        None
    } else {
        Some(BlockView { text, start_line: first + 1, end_line: last + 1 })
    }
}

/// The first line of a text, trimmed; empty where the text has no line.
pub open spec fn first_line_trimmed(text: Seq<char>) -> Seq<char> {
    if lines(text).len() == 0 {
        Seq::empty()
    } else {
        trim(lines(text)[0])
    }
}

/// The block that the unterminated run of lines `all[first..]` gives at the
/// end of the input, unless its first line is blank or a comment.
pub open spec fn trailing_block(all: Seq<Seq<char>>, first: int) -> Option<BlockView> {
    let text = joined_text(all, first, all.len() - 1);
    if is_skippable(first_line_trimmed(text)) {
        None
    } else {
        Some(BlockView { text, start_line: first + 1, end_line: all.len() as int })
    }
}

/// Zero or one block as a sequence.
pub open spec fn emitted(b: Option<BlockView>) -> Seq<BlockView> {
    match b {
        Some(v) => seq![v],
        None => Seq::empty(),
    }
}

/// The blocks found from line `i` (0-based) on, where `open` is the first line
/// of the block being gathered, if one is, and `in_transaction` says whether
/// that block has opened a transaction.
pub open spec fn scan(
    all: Seq<Seq<char>>,
    i: int,
    open: Option<int>,
    in_transaction: bool,
) -> Seq<BlockView>
    decreases all.len() - i,
{
    if i < 0 || i >= all.len() {
        match open {
            Some(first) => emitted(trailing_block(all, first)),
            None => Seq::empty(),
        }
    } else {
        let trimmed = trim(all[i]);
        if open is None && is_skippable(trimmed) {
            scan(all, i + 1, open, in_transaction)
        } else {
            let first = match open {
                Some(f) => f,
                None => i,
            };
            let transaction = in_transaction || begins_transaction(trimmed);
            if ends_block(trimmed, transaction) {
                emitted(closed_block(all, first, i)) + scan(all, i + 1, None, false)
            } else {
                scan(all, i + 1, Some(first), transaction)
            }
        }
    }
}

/// The statement blocks of a text.
pub open spec fn parse(content: Seq<char>) -> Seq<BlockView> {
    scan(lines(content), 0, None, false)
}

/// The views of a sequence of blocks.
pub open spec fn block_views(blocks: Seq<QueryBlock>) -> Seq<BlockView> {
    Seq::new(blocks.len(), |i: int| blocks[i]@)
}

/// The index of the first block that covers `line`, if any does.
pub open spec fn find_index(blocks: Seq<BlockView>, line: int) -> Option<int>
    decreases blocks.len(),
{
    if blocks.len() == 0 {
        None
    } else if blocks[0].covers(line) {
        Some(0)
    } else {
        match find_index(blocks.drop_first(), line) {
            Some(k) => Some(k + 1),
            None => None,
        }
    }
}

/// Blocks in ascending order of lines, none overlapping another, each a
/// non-empty range within `1..=line_count`.
pub open spec fn well_ordered(blocks: Seq<BlockView>, line_count: int) -> bool {
    &&& forall|i: int|
        0 <= i < blocks.len() ==> 1 <= (#[trigger] blocks[i]).start_line <= blocks[i].end_line
            <= line_count
    &&& forall|i: int, j: int|
        0 <= i < j < blocks.len() ==> (#[trigger] blocks[i]).end_line < (
        #[trigger] blocks[j]).start_line
}

/// Splits the text of a file into statement blocks, and finds the block of a
/// line.
pub struct QueryParser;

impl Clone for QueryParser {
    fn clone(&self) -> Self {
        Self {  }
    }
}

impl Default for QueryParser {
    fn default() -> Self {
        Self::new()
    }
}

impl QueryParser {
    /// A parser.
    pub fn new() -> Self {
        Self {  }
    }

    /// Whether a trimmed line is passed over: it is blank or a comment, and no
    /// block is open.
    pub fn should_skip_line(&self, trimmed_line: &Vec<char>, block_open: bool) -> (r: bool)
        ensures
            r == (is_skippable(trimmed_line@) && !block_open),
    {
        assert(trimmed_line@.subrange(0, trimmed_line.len() as int) =~= trimmed_line@);
        (trimmed_line.len() == 0 || range_is_comment(trimmed_line, 0, trimmed_line.len()))
            && !block_open
    }

    /// Whether the upper-case form of `line` begins with `keyword`.
    fn upper_starts_with(&self, upper: &Vec<char>, keyword: &str) -> (r: bool)
        ensures
            r == starts_with(upper@, keyword@),
    {
        let k = str_chars(keyword);
        assert(upper@.subrange(0, upper.len() as int) =~= upper@);
        range_starts_with(upper, 0, upper.len(), &k)
    }

    /// The upper-case form of a line.
    fn upper_chars(&self, line: &Vec<char>) -> (r: Vec<char>)
        ensures
            r@ == uppercase_of(line@),
    {
        let s = string_of_chars(line);
        let u = to_uppercase(s.as_str());
        str_chars(u.as_str())
    }

    /// Whether a line opens a transaction.
    pub fn is_transaction_start(&self, line: &Vec<char>) -> (r: bool)
        ensures
            r == begins_transaction(line@),
    {
        let upper = self.upper_chars(line);
        self.upper_starts_with(&upper, "BEGIN")
    }

    /// Whether a line ends the open block.
    pub fn should_end_query_block(&self, line: &Vec<char>, in_transaction: bool) -> (r: bool)
        ensures
            r == ends_block(line@, in_transaction),
    {
        let upper = self.upper_chars(line);
        let is_commit_or_rollback = self.upper_starts_with(&upper, "COMMIT;")
            || self.upper_starts_with(&upper, "ROLLBACK;");
        (self.line_ends_statement(line) && !in_transaction) || is_commit_or_rollback
    }

    /// Whether a line ends a statement.
    pub fn line_ends_statement(&self, line: &Vec<char>) -> (r: bool)
        ensures
            r == ends_statement(line@),
    {
        let n = line.len();
        assert(line@.subrange(0, n as int) =~= line@);
        let end = skip_whitespace_back(line, 0, n);
        let ghost t = trim_end(line@);
        match range_last_index_of(line, 0, end, ';') {
            Some(pos) => {
                let (a, b) = trim_bounds(line, pos + 1, end);
                assert(t.skip(pos + 1) =~= line@.subrange(pos + 1, end as int));
                a == b || range_is_comment(line, a, b)
            },
            None => false,
        }
    }

    /// The block over the terminated lines `lines[first..=last]` (0-based), if
    /// there are such lines and they hold any SQL.
    pub fn build_query_block(&self, lines: &Vec<Vec<char>>, first: usize, last: usize) -> (r:
        Option<QueryBlock>)
        ensures
            first <= last < lines.len() ==> match r {
                Some(b) => closed_block(
                    views_of(lines@, 0, lines@.len() as int),
                    first as int,
                    last as int,
                ) == Some(b@),
                None => closed_block(
                    views_of(lines@, 0, lines@.len() as int),
                    first as int,
                    last as int,
                ) is None,
            },
            !(first <= last < lines.len()) ==> r is None,
    {
        if first > last || last >= lines.len() {
            return None;
        }
        let sep = vec!['\n'];
        let joined = join_range(lines, first, last + 1, &sep);
        proof {
            let all = views_of(lines@, 0, lines@.len() as int);
            assert(all.subrange(first as int, last + 1) =~= views_of(
                lines@,
                first as int,
                last + 1,
            ));
            assert(sep@ =~= seq!['\n']);
        }
        assert(joined@.subrange(0, joined.len() as int) =~= joined@);
        let (a, b) = trim_bounds(&joined, 0, joined.len());
        let last_line = &lines[last];
        assert(last_line@.subrange(0, last_line.len() as int) =~= last_line@);
        let (la, lb) = trim_bounds(last_line, 0, last_line.len());
        let trimmed_last = copy_range(last_line, la, lb);
        let ghost text = joined@.subrange(a as int, b as int);
        let end = if self.line_ends_statement(&trimmed_last) {
            match range_last_index_of(&joined, a, b, ';') {
                Some(pos) => a + pos,
                None => b,
            }
        } else if b > a && joined[b - 1] == ';' {
            b - 1
        } else {
            b
        };
        let stop = skip_whitespace_back(&joined, a, end);
        let body = copy_range(&joined, a, stop);
        proof {
            if b > a {
                assert(text.last() == joined@[b - 1]);
            }
            assert(joined@.subrange(a as int, end as int) =~= text.take(end - a));
            assert(text.take(b - a) =~= text);
            assert(joined@.subrange(a as int, end as int) =~= cut_text(
                views_of(lines@, 0, lines@.len() as int),
                first as int,
                last as int,
            ));
        }
        if !chars_are_empty_query(&body) {
            Some(QueryBlock::new(string_of_chars(&body), first + 1, last + 1))
        } else {
            None
        }
    }

    /// The block over the unterminated lines `lines[first..]` (0-based) at the
    /// end of the input, if there are such lines, unless the first of them is
    /// blank or a comment.
    pub fn build_final_query_block(&self, lines: &Vec<Vec<char>>, first: usize) -> (r: Option<
        QueryBlock,
    >)
        ensures
            first < lines.len() ==> match r {
                Some(b) => trailing_block(views_of(lines@, 0, lines@.len() as int), first as int)
                    == Some(b@),
                None => trailing_block(views_of(lines@, 0, lines@.len() as int), first as int)
                    is None,
            },
            first >= lines.len() ==> r is None,
    {
        if first >= lines.len() {
            return None;
        }
        let sep = vec!['\n'];
        let joined = join_range(lines, first, lines.len(), &sep);
        proof {
            let all = views_of(lines@, 0, lines@.len() as int);
            assert(all.subrange(first as int, all.len() as int) =~= views_of(
                lines@,
                first as int,
                lines@.len() as int,
            ));
            assert(sep@ =~= seq!['\n']);
        }
        assert(joined@.subrange(0, joined.len() as int) =~= joined@);
        let (a, b) = trim_bounds(&joined, 0, joined.len());
        let body = copy_range(&joined, a, b);
        let body_lines = split_lines(&body);
        let keep = if body_lines.len() == 0 {
            false
        } else {
            assert(body_lines@[0]@ == crate::text::lines(body@)[0]);
            !crate::query_parser::utils::line_is_skippable(&body_lines[0])
        };
        if keep {
            Some(QueryBlock::new(string_of_chars(&body), first + 1, lines.len()))
        } else {
            None
        }
    }

    /// Splits `content` into its statement blocks, in order.
    pub fn parse_query_blocks(&self, content: &str) -> (queries: Vec<QueryBlock>)
        ensures
            block_views(queries@) == parse(content@),
    {
        let chars = str_chars(content);
        let all_lines = split_lines(&chars);
        let n = all_lines.len();
        let ghost all = lines(content@);
        proof {
            assert(views_of(all_lines@, 0, all_lines@.len() as int) =~= all);
        }
        let mut queries: Vec<QueryBlock> = Vec::new();
        let mut start_line: Option<usize> = None;
        let mut in_transaction_block = false;
        let mut i: usize = 0;
        proof {
            assert(block_views(queries@) =~= Seq::empty());
            assert(Seq::<BlockView>::empty() + scan(all, 0, None, false) =~= scan(all, 0, None, false));
        }
        while i < n
            invariant
                n == all_lines.len(),
                0 <= i <= n,
                all == lines(content@),
                views_of(all_lines@, 0, all_lines@.len() as int) == all,
                match start_line {
                    Some(s) => s < i,
                    None => true,
                },
                parse(content@) == block_views(queries@) + scan(
                    all,
                    i as int,
                    match start_line {
                        Some(s) => Some(s as int),
                        None => None,
                    },
                    in_transaction_block,
                ),
            decreases n - i,
        {
            let line = &all_lines[i];
            assert(line@ == all[i as int]);
            assert(line@.subrange(0, line.len() as int) =~= line@);
            let (a, b) = trim_bounds(line, 0, line.len());
            let trimmed_line = copy_range(line, a, b);
            if self.should_skip_line(&trimmed_line, start_line.is_some()) {
                i += 1;
                continue ;
            }
            let first = match start_line {
                Some(s) => s,
                None => i,
            };
            if self.is_transaction_start(&trimmed_line) {
                in_transaction_block = true;
            }
            if self.should_end_query_block(&trimmed_line, in_transaction_block) {
                let ghost before = block_views(queries@);
                match self.build_query_block(&all_lines, first, i) {
                    Some(query_block) => {
                        queries.push(query_block);
                        proof {
                            assert(block_views(queries@) =~= before.push(query_block@));
                            assert(before + (seq![query_block@] + scan(all, i + 1, None, false))
                                =~= before.push(query_block@) + scan(all, i + 1, None, false));
                        }
                    },
                    None => {
                        proof {
                            assert(before + (Seq::<BlockView>::empty() + scan(
                                all,
                                i + 1,
                                None,
                                false,
                            )) =~= before + scan(all, i + 1, None, false));
                        }
                    },
                }
                start_line = None;
                in_transaction_block = false;
            } else {
                start_line = Some(first);
            }
            i += 1;
        }
        match start_line {
            Some(first) => {
                let ghost before = block_views(queries@);
                match self.build_final_query_block(&all_lines, first) {
                    Some(query_block) => {
                        queries.push(query_block);
                        proof {
                            assert(block_views(queries@) =~= before.push(query_block@));
                            assert(before + seq![query_block@] =~= before.push(query_block@));
                        }
                    },
                    None => {
                        proof {
                            assert(before + Seq::<BlockView>::empty() =~= before);
                        }
                    },
                }
            },
            None => {
                proof {
                    assert(block_views(queries@) + Seq::<BlockView>::empty() =~= block_views(
                        queries@,
                    ));
                }
            },
        }
        queries
    }

    /// The first block that covers `line_number`, if any does.
    pub fn find_query_at_line<'a>(&self, queries: &'a Vec<QueryBlock>, line_number: usize) -> (r:
        Option<&'a QueryBlock>)
        ensures
            match r {
                Some(b) => find_index(block_views(queries@), line_number as int) is Some && *b
                    == queries@[find_index(block_views(queries@), line_number as int)->0],
                None => find_index(block_views(queries@), line_number as int) is None,
            },
    {
        let mut i: usize = 0;
        let ghost views = block_views(queries@);
        proof {
            lemma_find_index(views, line_number as int);
        }
        while i < queries.len()
            invariant
                0 <= i <= queries.len(),
                views == block_views(queries@),
                forall|j: int| 0 <= j < i ==> !(#[trigger] views[j]).covers(line_number as int),
            decreases queries.len() - i,
        {
            assert(views[i as int] == queries@[i as int]@);
            if queries[i].contains_line(line_number) {
                proof {
                    lemma_find_index_is(views, line_number as int, i as int);
                }
                return Some(&queries[i]);
            }
            i += 1;
        }
        None
    }
}

/// What `find_index` returns: the least index of a covering block.
pub proof fn lemma_find_index(blocks: Seq<BlockView>, line: int)
    ensures
        match find_index(blocks, line) {
            Some(k) => 0 <= k < blocks.len() && blocks[k].covers(line) && forall|j: int|
                0 <= j < k ==> !(#[trigger] blocks[j]).covers(line),
            None => forall|j: int| 0 <= j < blocks.len() ==> !(#[trigger] blocks[j]).covers(line),
        },
    decreases blocks.len(),
{
    if blocks.len() == 0 {
    } else if blocks[0].covers(line) {
    } else {
        let rest = blocks.drop_first();
        lemma_find_index(rest, line);
        match find_index(rest, line) {
            Some(k) => {
                assert(blocks[k + 1] == rest[k]);
                assert forall|j: int| 0 <= j < k + 1 implies !(#[trigger] blocks[j]).covers(
                    line,
                ) by {
                    if j > 0 {
                        assert(blocks[j] == rest[j - 1]);
                    }
                }
            },
            None => {
                assert forall|j: int| 0 <= j < blocks.len() implies !(#[trigger] blocks[j]).covers(
                    line,
                ) by {
                    if j > 0 {
                        assert(blocks[j] == rest[j - 1]);
                    }
                }
            },
        }
    }
}

/// The least index of a covering block is what `find_index` returns.
pub proof fn lemma_find_index_is(blocks: Seq<BlockView>, line: int, k: int)
    requires
        0 <= k < blocks.len(),
        blocks[k].covers(line),
        forall|j: int| 0 <= j < k ==> !(#[trigger] blocks[j]).covers(line),
    ensures
        find_index(blocks, line) == Some(k),
{
    lemma_find_index(blocks, line);
}

/// Whether every block starts on line `low` or later.
pub open spec fn starts_from(blocks: Seq<BlockView>, low: int) -> bool {
    forall|k: int| 0 <= k < blocks.len() ==> (#[trigger] blocks[k]).start_line >= low
}

/// The blocks that a scan yields from line `i` on lie in ascending order, do
/// not overlap, and start no earlier than the open block does, or than line
/// `i` where none is open.
pub proof fn lemma_scan_well_ordered(
    all: Seq<Seq<char>>,
    i: int,
    open: Option<int>,
    in_transaction: bool,
)
    requires
        0 <= i <= all.len(),
        open matches Some(f) ==> 0 <= f < i,
    ensures
        well_ordered(scan(all, i, open, in_transaction), all.len() as int),
        starts_from(
            scan(all, i, open, in_transaction),
            match open {
                Some(f) => f + 1,
                None => i + 1,
            },
        ),
    decreases all.len() - i,
{
    if i >= all.len() {
    } else {
        let trimmed = trim(all[i]);
        if open is None && is_skippable(trimmed) {
            lemma_scan_well_ordered(all, i + 1, open, in_transaction);
        } else {
            let first = match open {
                Some(f) => f,
                None => i,
            };
            let transaction = in_transaction || begins_transaction(trimmed);
            if ends_block(trimmed, transaction) {
                lemma_scan_well_ordered(all, i + 1, None, false);
                let head = emitted(closed_block(all, first, i));
                let tail = scan(all, i + 1, None, false);
                let r = head + tail;
                assert forall|k: int| 0 <= k < r.len() implies 1 <= (#[trigger] r[k]).start_line
                    <= r[k].end_line <= all.len() && r[k].start_line >= first + 1 by {
                    if k >= head.len() {
                        assert(r[k] == tail[k - head.len()]);
                    }
                }
                assert forall|a: int, b: int| 0 <= a < b < r.len() implies (#[trigger] r[a]).end_line
                    < (#[trigger] r[b]).start_line by {
                    assert(r[b] == tail[b - head.len()]);
                    if a >= head.len() {
                        assert(r[a] == tail[a - head.len()]);
                    }
                }
            } else {
                lemma_scan_well_ordered(all, i + 1, Some(first), transaction);
            }
        }
    }
}

/// The blocks of any text lie in ascending order of lines, and no two of them
/// overlap: each ends before the next one starts, and each is a range within
/// the lines of the text.
pub proof fn lemma_parse_well_ordered(content: Seq<char>)
    ensures
        well_ordered(parse(content), lines(content).len() as int),
{
    lemma_scan_well_ordered(lines(content), 0, None, false);
}

/// The empty text has no blocks.
pub proof fn lemma_parse_empty()
    ensures
        parse(Seq::empty()) == Seq::<BlockView>::empty(),
{
    assert(lines(Seq::<char>::empty()) =~= Seq::empty());
}

/// Among well-ordered blocks, a search by the first or by the last line of a
/// block finds that very block.
pub proof fn lemma_find_at_boundaries(blocks: Seq<BlockView>, line_count: int, k: int)
    requires
        well_ordered(blocks, line_count),
        0 <= k < blocks.len(),
    ensures
        find_index(blocks, blocks[k].start_line) == Some(k),
        find_index(blocks, blocks[k].end_line) == Some(k),
{
    assert forall|j: int| 0 <= j < k implies !(#[trigger] blocks[j]).covers(
        blocks[k].start_line,
    ) && !blocks[j].covers(blocks[k].end_line) by {
        assert(blocks[j].end_line < blocks[k].start_line);
    }
    lemma_find_index_is(blocks, blocks[k].start_line, k);
    lemma_find_index_is(blocks, blocks[k].end_line, k);
}

/// A search by a line of a block finds a block that covers the line: the
/// block itself, or an earlier one where blocks overlap.
pub proof fn lemma_find_covering(blocks: Seq<BlockView>, k: int, line: int)
    requires
        0 <= k < blocks.len(),
        blocks[k].covers(line),
    ensures
        find_index(blocks, line) matches Some(j) && 0 <= j <= k && blocks[j].covers(line),
{
    lemma_find_index(blocks, line);
}

/// A search by a line that no block covers finds nothing, and a search that
/// finds nothing was by a line that no block covers.
pub proof fn lemma_find_outside(blocks: Seq<BlockView>, line: int)
    ensures
        find_index(blocks, line) is None <==> forall|j: int|
            0 <= j < blocks.len() ==> !(#[trigger] blocks[j]).covers(line),
{
    lemma_find_index(blocks, line);
}

/// Among well-ordered blocks at most one covers a given line.
pub proof fn lemma_cover_unique(blocks: Seq<BlockView>, line_count: int, a: int, b: int, line: int)
    requires
        well_ordered(blocks, line_count),
        0 <= a < blocks.len(),
        0 <= b < blocks.len(),
        blocks[a].covers(line),
        blocks[b].covers(line),
    ensures
        a == b,
{
    if a < b {
        assert(blocks[a].end_line < blocks[b].start_line);
    } else if b < a {
        assert(blocks[b].end_line < blocks[a].start_line);
    }
}

/// Whether a block's text is fit to be shown and run: it holds SQL, and
/// neither begins nor ends with whitespace, so that no blank line stands at
/// its start or at its end.
pub open spec fn is_tidy(b: BlockView) -> bool {
    &&& b.text.len() > 0
    &&& !crate::text::is_whitespace(b.text[0])
    &&& !crate::text::is_whitespace(b.text.last())
    &&& !is_empty_query(b.text)
}

/// The block that a terminated run of lines gives is tidy.
pub proof fn lemma_closed_block_tidy(all: Seq<Seq<char>>, first: int, last: int)
    requires
        0 <= first <= last < all.len(),
    ensures
        closed_block(all, first, last) matches Some(b) ==> is_tidy(b),
{
    let joined = joined_text(all, first, last);
    let cut = cut_text(all, first, last);
    let text = closed_text(all, first, last);
    crate::text::lemma_trim_shape(join_lines(all.subrange(first, last + 1)));
    crate::text::lemma_trim_end_shape(cut);
    if closed_block(all, first, last) is Some {
        if text.len() == 0 {
            assert(lines(text) =~= Seq::empty());
        }
        assert(text.len() > 0);
        assert(cut.len() > 0);
        assert(text[0] == cut[0]);
        if ends_statement(trim(all[last])) {
            let k = last_index_of(joined, ';');
            crate::text::lemma_last_index_of(joined, ';');
            if k >= 0 {
                assert(cut == joined.take(k));
                assert(cut[0] == joined[0]);
            }
        } else {
            if joined.len() > 0 && joined.last() == ';' {
                assert(cut == joined.drop_last());
            }
        }
        assert(cut[0] == joined[0]);
    }
}

/// The block that an unterminated run of lines gives is tidy.
pub proof fn lemma_trailing_block_tidy(all: Seq<Seq<char>>, first: int)
    requires
        0 <= first < all.len(),
    ensures
        trailing_block(all, first) matches Some(b) ==> is_tidy(b),
{
    let text = joined_text(all, first, all.len() - 1);
    crate::text::lemma_trim_shape(join_lines(all.subrange(first, all.len() as int)));
    if trailing_block(all, first) is Some {
        if text.len() == 0 {
            assert(lines(text) =~= Seq::empty());
        }
        assert(lines(text).len() > 0);
        assert(!is_skippable(trim(lines(text)[0])));
    }
}

/// Every block that a scan yields is tidy.
pub proof fn lemma_scan_tidy(all: Seq<Seq<char>>, i: int, open: Option<int>, in_transaction: bool)
    requires
        0 <= i <= all.len(),
        open matches Some(f) ==> 0 <= f < i,
    ensures
        forall|k: int|
            0 <= k < scan(all, i, open, in_transaction).len() ==> is_tidy(
                #[trigger] scan(all, i, open, in_transaction)[k],
            ),
    decreases all.len() - i,
{
    let whole = scan(all, i, open, in_transaction);
    if i >= all.len() {
        match open {
            Some(first) => {
                lemma_trailing_block_tidy(all, first);
                assert(whole == emitted(trailing_block(all, first)));
            },
            None => {
                assert(whole =~= Seq::empty());
            },
        }
    } else {
        let trimmed = trim(all[i]);
        if open is None && is_skippable(trimmed) {
            lemma_scan_tidy(all, i + 1, open, in_transaction);
            assert(whole == scan(all, i + 1, open, in_transaction));
        } else {
            let first = match open {
                Some(f) => f,
                None => i,
            };
            let transaction = in_transaction || begins_transaction(trimmed);
            if ends_block(trimmed, transaction) {
                lemma_scan_tidy(all, i + 1, None, false);
                lemma_closed_block_tidy(all, first, i);
                let head = emitted(closed_block(all, first, i));
                let tail = scan(all, i + 1, None, false);
                let r = head + tail;
                assert forall|k: int| 0 <= k < r.len() implies is_tidy(#[trigger] r[k]) by {
                    if k >= head.len() {
                        assert(r[k] == tail[k - head.len()]);
                    }
                }
                assert(whole == r);
            } else {
                lemma_scan_tidy(all, i + 1, Some(first), transaction);
                assert(whole == scan(all, i + 1, Some(first), transaction));
            }
        }
    }
}

/// The text of every block of any text holds SQL and neither begins nor
/// ends with whitespace: no blank line stands at its start or at its end.
pub proof fn lemma_parse_tidy(content: Seq<char>)
    ensures
        forall|k: int| 0 <= k < parse(content).len() ==> is_tidy(#[trigger] parse(content)[k]),
{
    lemma_scan_tidy(lines(content), 0, None, false);
}

} // verus!
