use crate::text::char_is_whitespace;
use crate::text::comment_marker;
use crate::text::copy_range;
use crate::text::is_whitespace;
use crate::text::join;
use crate::text::join_range;
use crate::text::string_of_chars;
use crate::text::views_of;
use crate::text::lines;
use crate::text::range_is_comment;
use crate::text::split_lines;
use crate::text::starts_with;
use crate::text::str_chars;
use crate::text::trim;
use crate::text::trim_bounds;
use vstd::prelude::*;

verus! {

/// Whether a trimmed line carries no SQL: it is empty or a comment.
pub open spec fn is_skippable(trimmed: Seq<char>) -> bool {
    trimmed.len() == 0 || starts_with(trimmed, comment_marker())
}

/// Whether every line of `query` is blank or a comment.
pub open spec fn is_empty_query(query: Seq<char>) -> bool {
    forall|i: int| 0 <= i < lines(query).len() ==> is_skippable(trim(#[trigger] lines(query)[i]))
}

/// Whether the whole of `line`, once trimmed, is empty or a comment.
pub fn line_is_skippable(line: &Vec<char>) -> (r: bool)
    ensures
        r == is_skippable(trim(line@)),
{
    assert(line@.subrange(0, line.len() as int) =~= line@);
    let (a, b) = trim_bounds(line, 0, line.len());
    a == b || range_is_comment(line, a, b)
}

/// Whether every line of the text `chars` is blank or a comment.
pub fn chars_are_empty_query(chars: &Vec<char>) -> (r: bool)
    ensures
        r == is_empty_query(chars@),
{
    let ls = split_lines(chars);
    let mut i: usize = 0;
    while i < ls.len()
        invariant
            0 <= i <= ls.len(),
            ls@.len() == lines(chars@).len(),
            forall|j: int| 0 <= j < ls@.len() ==> (#[trigger] ls@[j])@ == lines(chars@)[j],
            forall|j: int| 0 <= j < i ==> is_skippable(trim(#[trigger] lines(chars@)[j])),
        decreases ls.len() - i,
    {
        if !line_is_skippable(&ls[i]) {
            assert(ls@[i as int]@ == lines(chars@)[i as int]);
            return false;
        }
        assert(ls@[i as int]@ == lines(chars@)[i as int]);
        i += 1;
    }
    true
}

/// The lines that carry SQL, each trimmed, in order.
pub open spec fn kept_lines(ls: Seq<Seq<char>>) -> Seq<Seq<char>>
    decreases ls.len(),
{
    if ls.len() == 0 {
        Seq::empty()
    } else if is_skippable(trim(ls.last())) {
        kept_lines(ls.drop_last())
    } else {
        kept_lines(ls.drop_last()).push(trim(ls.last()))
    }
}

/// A query on one line: its lines that carry SQL, each trimmed, with one
/// space between each two.
pub open spec fn cleaned(query: Seq<char>) -> Seq<char> {
    join(kept_lines(lines(query)), seq![' '])
}

/// The words of a text: its longest runs of characters that are not
/// whitespace, in order.
pub open spec fn words(s: Seq<char>) -> Seq<Seq<char>>
    decreases s.len(),
{
    if s.len() == 0 {
        Seq::empty()
    } else {
        let before = words(s.drop_last());
        if is_whitespace(s.last()) {
            before
        } else if s.len() >= 2 && !is_whitespace(s[s.len() - 2]) && before.len() > 0 {
            before.drop_last().push(before.last().push(s.last()))
        } else {
            before.push(seq![s.last()])
        }
    }
}

/// A text with every run of whitespace turned into one space, and none at
/// either end.
pub open spec fn normalized(text: Seq<char>) -> Seq<char> {
    join(words(text), seq![' '])
}

/// Helpers for the text of queries.
pub struct StringUtils;

impl StringUtils {
    /// Whether `query` holds no SQL: each of its lines is blank or a comment.
    pub fn is_empty_query(query: &str) -> (r: bool)
        ensures
            r == is_empty_query(query@),
    {
        let chars = str_chars(query);
        chars_are_empty_query(&chars)
    }

    /// The query on one line, without its blank lines and comment lines.
    pub fn clean_query(query: &str) -> (r: String)
        ensures
            r@ == cleaned(query@),
    {
        let chars = str_chars(query);
        let ls = split_lines(&chars);
        let ghost all = lines(query@);
        let mut kept: Vec<Vec<char>> = Vec::new();
        let mut i: usize = 0;
        assert(all.take(0) =~= Seq::empty());
        assert(views_of(kept@, 0, 0) =~= Seq::empty());
        while i < ls.len()
            invariant
                0 <= i <= ls.len(),
                all == lines(query@),
                ls@.len() == all.len(),
                forall|j: int| 0 <= j < ls@.len() ==> (#[trigger] ls@[j])@ == all[j],
                views_of(kept@, 0, kept@.len() as int) == kept_lines(all.take(i as int)),
            decreases ls.len() - i,
        {
            let line = &ls[i];
            proof {
                let head = all.take(i + 1);
                assert(head.drop_last() =~= all.take(i as int));
                assert(head.last() == line@);
                assert(line@.subrange(0, line.len() as int) =~= line@);
            }
            let (a, b) = trim_bounds(line, 0, line.len());
            if !(a == b || range_is_comment(line, a, b)) {
                let ghost before = views_of(kept@, 0, kept@.len() as int);
                let trimmed = copy_range(line, a, b);
                kept.push(trimmed);
                assert(views_of(kept@, 0, kept@.len() as int) =~= before.push(trimmed@));
            }
            i += 1;
        }
        assert(all.take(i as int) =~= all);
        let sep = vec![' '];
        assert(sep@ =~= seq![' ']);
        let joined = join_range(&kept, 0, kept.len(), &sep);
        string_of_chars(&joined)
    }

    /// The text with every run of whitespace turned into one space, and none
    /// at either end.
    pub fn normalize_whitespace(text: &str) -> (r: String)
        ensures
            r@ == normalized(text@),
    {
        let chars = str_chars(text);
        let mut found: Vec<Vec<char>> = Vec::new();
        let mut i: usize = 0;
        assert(chars@.take(0) =~= Seq::empty());
        assert(views_of(found@, 0, 0) =~= Seq::empty());
        while i < chars.len()
            invariant
                0 <= i <= chars.len(),
                chars@ == text@,
                views_of(found@, 0, found@.len() as int) == words(chars@.take(i as int)),
            decreases chars.len() - i,
        {
            let c = chars[i];
            let ghost before = views_of(found@, 0, found@.len() as int);
            proof {
                let head = chars@.take(i + 1);
                assert(head.drop_last() =~= chars@.take(i as int));
                assert(head.last() == c);
                if i >= 1 {
                    assert(head[head.len() - 2] == chars@[i - 1]);
                }
            }
            if !char_is_whitespace(c) {
                if i >= 1 && !char_is_whitespace(chars[i - 1]) && found.len() > 0 {
                    let last = found.len() - 1;
                    let ghost word = found@[last as int]@;
                    found[last].push(c);
                    assert(views_of(found@, 0, found@.len() as int) =~= before.drop_last().push(
                        word.push(c),
                    ));
                } else {
                    let mut word: Vec<char> = Vec::new();
                    word.push(c);
                    found.push(word);
                    assert(views_of(found@, 0, found@.len() as int) =~= before.push(seq![c]));
                }
            }
            i += 1;
        }
        assert(chars@.take(i as int) =~= chars@);
        let sep = vec![' '];
        assert(sep@ =~= seq![' ']);
        let joined = join_range(&found, 0, found.len(), &sep);
        string_of_chars(&joined)
    }
}

} // verus!
