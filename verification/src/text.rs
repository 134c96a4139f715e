//! Text as sequences of characters: whitespace, trimming, prefixes, lines and
//! joining, each with a specification over `Seq<char>` and an executable
//! counterpart over `Vec<char>`.

use vstd::prelude::*;

verus! {

/// The characters that Unicode classes as `White_Space`.
pub open spec fn is_whitespace(c: char) -> bool {
    let n = c as u32;
    (0x09 <= n && n <= 0x0D) || n == 0x20 || n == 0x85 || n == 0xA0 || n == 0x1680 || (0x2000 <= n
        && n <= 0x200A) || n == 0x2028 || n == 0x2029 || n == 0x202F || n == 0x205F || n == 0x3000
}

/// `s` without its leading whitespace.
pub open spec fn trim_start(s: Seq<char>) -> Seq<char>
    decreases s.len(),
{
    if s.len() > 0 && is_whitespace(s[0]) {
        trim_start(s.drop_first())
    } else {
        s
    }
}

/// `s` without its trailing whitespace.
pub open spec fn trim_end(s: Seq<char>) -> Seq<char>
    decreases s.len(),
{
    if s.len() > 0 && is_whitespace(s.last()) {
        trim_end(s.drop_last())
    } else {
        s
    }
}

/// `s` without its leading and trailing whitespace.
pub open spec fn trim(s: Seq<char>) -> Seq<char> {
    trim_end(trim_start(s))
}

/// Whether every character of `s` is whitespace.
pub open spec fn is_blank(s: Seq<char>) -> bool {
    forall|i: int| 0 <= i < s.len() ==> is_whitespace(#[trigger] s[i])
}

/// Whether `s` begins with `prefix`.
pub open spec fn starts_with(s: Seq<char>, prefix: Seq<char>) -> bool {
    prefix.len() <= s.len() && s.take(prefix.len() as int) == prefix
}

/// The two-character marker that opens a comment.
pub open spec fn comment_marker() -> Seq<char> {
    seq!['-', '-']
}

/// The index of the first line feed in `s`, or `s.len()` where there is none.
pub open spec fn line_feed_index(s: Seq<char>) -> int
    decreases s.len(),
{
    if s.len() == 0 || s[0] == '\n' {
        0
    } else {
        1 + line_feed_index(s.drop_first())
    }
}

/// A line's content once its line feed is gone: a carriage return that stood
/// directly before the line feed goes with it.
pub open spec fn strip_carriage_return(s: Seq<char>) -> Seq<char> {
    if s.len() > 0 && s.last() == '\r' {
        s.drop_last()
    } else {
        s
    }
}

/// The lines of `s`. A line ends at a line feed, or at a carriage return
/// directly followed by one; the last line need not be terminated, and then
/// keeps a carriage return at its end. The empty text has no lines.
pub open spec fn lines(s: Seq<char>) -> Seq<Seq<char>>
    decreases s.len(),
{
    if s.len() == 0 {
        Seq::empty()
    } else {
        let k = line_feed_index(s);
        if k < 0 || k >= s.len() {
            seq![s]
        } else {
            seq![strip_carriage_return(s.take(k))] + lines(s.skip(k + 1))
        }
    }
}

/// The items of `parts` with `sep` between each two neighbours.
pub open spec fn join(parts: Seq<Seq<char>>, sep: Seq<char>) -> Seq<char>
    decreases parts.len(),
{
    if parts.len() == 0 {
        Seq::empty()
    } else if parts.len() == 1 {
        parts[0]
    } else {
        join(parts.drop_last(), sep) + sep + parts.last()
    }
}

/// The items of `parts` with a line feed between each two neighbours.
pub open spec fn join_lines(parts: Seq<Seq<char>>) -> Seq<char> {
    join(parts, seq!['\n'])
}

/// What `str::to_uppercase` of std makes of a text: each character replaced
/// by its Unicode upper-case mapping, which may be several characters long.
pub uninterp spec fn uppercase_of(s: Seq<char>) -> Seq<char>;

/// What `str::to_lowercase` of std makes of a text: its Unicode lower-case
/// mapping.
pub uninterp spec fn lowercase_of(s: Seq<char>) -> Seq<char>;

/// The index of the last occurrence of `c` in `s`, or -1 where there is none.
pub open spec fn last_index_of(s: Seq<char>, c: char) -> int
    decreases s.len(),
{
    if s.len() == 0 {
        -1
    } else if s.last() == c {
        s.len() - 1
    } else {
        last_index_of(s.drop_last(), c)
    }
}

/// The last occurrence of a character lies within the text, where there is
/// one, and is an occurrence.
pub proof fn lemma_last_index_of(s: Seq<char>, c: char)
    ensures
        -1 <= last_index_of(s, c) < s.len(),
        last_index_of(s, c) >= 0 ==> s[last_index_of(s, c)] == c,
    decreases s.len(),
{
    if s.len() > 0 && s.last() != c {
        lemma_last_index_of(s.drop_last(), c);
    }
}

/// The first line feed is where no earlier character is one.
pub proof fn lemma_line_feed_index_is(s: Seq<char>, k: int)
    requires
        0 <= k <= s.len(),
        forall|i: int| 0 <= i < k ==> s[i] != '\n',
        k < s.len() ==> s[k] == '\n',
    ensures
        line_feed_index(s) == k,
    decreases s.len(),
{
    if s.len() == 0 || s[0] == '\n' {
    } else {
        let t = s.drop_first();
        assert forall|i: int| 0 <= i < k - 1 implies t[i] != '\n' by {
            assert(t[i] == s[i + 1]);
        }
        lemma_line_feed_index_is(t, k - 1);
    }
}

/// `trim_start` drops exactly the longest whitespace prefix.
pub proof fn lemma_trim_start_is(s: Seq<char>, k: int)
    requires
        0 <= k <= s.len(),
        forall|i: int| 0 <= i < k ==> is_whitespace(#[trigger] s[i]),
        k < s.len() ==> !is_whitespace(s[k]),
    ensures
        trim_start(s) == s.skip(k),
    decreases k,
{
    if k == 0 {
        assert(s.skip(0) =~= s);
    } else {
        let t = s.drop_first();
        assert forall|i: int| 0 <= i < k - 1 implies is_whitespace(#[trigger] t[i]) by {
            assert(t[i] == s[i + 1]);
        }
        lemma_trim_start_is(t, k - 1);
        assert(t.skip(k - 1) =~= s.skip(k));
    }
}

/// `trim_end` drops exactly the longest whitespace suffix.
pub proof fn lemma_trim_end_is(s: Seq<char>, k: int)
    requires
        0 <= k <= s.len(),
        forall|i: int| k <= i < s.len() ==> is_whitespace(#[trigger] s[i]),
        k > 0 ==> !is_whitespace(s[k - 1]),
    ensures
        trim_end(s) == s.take(k),
    decreases s.len() - k,
{
    if k == s.len() {
        assert(s.take(k) =~= s);
    } else {
        let t = s.drop_last();
        lemma_trim_end_is(t, k);
        assert(t.take(k) =~= s.take(k));
    }
}

/// What `trim_start` leaves is a suffix that does not begin with whitespace.
pub proof fn lemma_trim_start_shape(s: Seq<char>)
    ensures
        trim_start(s).len() <= s.len(),
        trim_start(s) == s.skip(s.len() - trim_start(s).len()),
        trim_start(s).len() > 0 ==> !is_whitespace(trim_start(s)[0]),
        forall|i: int| 0 <= i < s.len() - trim_start(s).len() ==> is_whitespace(#[trigger] s[i]),
    decreases s.len(),
{
    if s.len() > 0 && is_whitespace(s[0]) {
        let t = s.drop_first();
        lemma_trim_start_shape(t);
        assert(t.skip(t.len() - trim_start(t).len()) =~= s.skip(s.len() - trim_start(s).len()));
        assert forall|i: int| 0 <= i < s.len() - trim_start(s).len() implies is_whitespace(
            #[trigger] s[i],
        ) by {
            if i > 0 {
                assert(s[i] == t[i - 1]);
            }
        }
    } else {
        assert(s.skip(0) =~= s);
    }
}

/// What `trim_end` leaves is a prefix that does not end with whitespace.
pub proof fn lemma_trim_end_shape(s: Seq<char>)
    ensures
        trim_end(s).len() <= s.len(),
        trim_end(s) == s.take(trim_end(s).len() as int),
        trim_end(s).len() > 0 ==> !is_whitespace(trim_end(s).last()),
        forall|i: int| trim_end(s).len() <= i < s.len() ==> is_whitespace(#[trigger] s[i]),
    decreases s.len(),
{
    if s.len() > 0 && is_whitespace(s.last()) {
        let t = s.drop_last();
        lemma_trim_end_shape(t);
        assert(t.take(trim_end(t).len() as int) =~= s.take(trim_end(s).len() as int));
        assert forall|i: int| trim_end(s).len() <= i < s.len() implies is_whitespace(
            #[trigger] s[i],
        ) by {
            if i < t.len() {
                assert(s[i] == t[i]);
            }
        }
    } else {
        assert(s.take(s.len() as int) =~= s);
    }
}

/// A trimmed text neither begins nor ends with whitespace.
pub proof fn lemma_trim_shape(s: Seq<char>)
    ensures
        trim(s).len() <= s.len(),
        trim(s).len() > 0 ==> !is_whitespace(trim(s)[0]) && !is_whitespace(trim(s).last()),
        trim(s).len() == 0 <==> is_blank(s),
{
    lemma_trim_start_shape(s);
    let t = trim_start(s);
    lemma_trim_end_shape(t);
    let u = trim_end(t);
    assert(u == t.take(u.len() as int));
    if u.len() > 0 {
        assert(u[0] == t[0]);
    }
    if u.len() == 0 {
        assert forall|i: int| 0 <= i < s.len() implies is_whitespace(#[trigger] s[i]) by {
            let d = s.len() - t.len();
            if i >= d {
                assert(t[i - d] == s[i]);
            }
        }
    }
    if is_blank(s) && u.len() > 0 {
        let d = s.len() - t.len();
        assert(t[0] == s[d]);
    }
}

/// Whether `c` is whitespace.
pub fn char_is_whitespace(c: char) -> (r: bool)
    ensures
        r == is_whitespace(c),
{
    let n: u32 = c as u32;
    (0x09 <= n && n <= 0x0D) || n == 0x20 || n == 0x85 || n == 0xA0 || n == 0x1680 || (0x2000 <= n
        && n <= 0x200A) || n == 0x2028 || n == 0x2029 || n == 0x202F || n == 0x205F || n == 0x3000
}

/// The characters of a string slice, in order.
pub fn str_chars(s: &str) -> (v: Vec<char>)
    ensures
        v@ == s@,
{
    let mut v: Vec<char> = Vec::new();
    for c in it: s.chars()
        invariant
            it.seq() == s@,
            v@ == s@.take(it.index() as int),
    {
        v.push(c);
    }
    v
}

/// `String::push` of std: appends one character to the end of the string.
#[verifier::external_body]
pub(crate) fn push_char(s: &mut String, c: char)
    ensures
        final(s)@ == old(s)@.push(c),
{
    s.push(c);
}

/// `str::to_uppercase` of std. The result is a function of the text alone;
/// the contract gives it a name and claims no more.
#[verifier::external_body]
pub(crate) fn to_uppercase(s: &str) -> (r: String)
    ensures
        r@ == uppercase_of(s@),
{
    s.to_uppercase()
}

/// `str::to_lowercase` of std. The result is a function of the text alone;
/// the contract gives it a name and claims no more.
#[verifier::external_body]
pub(crate) fn to_lowercase(s: &str) -> (r: String)
    ensures
        r@ == lowercase_of(s@),
{
    s.to_lowercase()
}

/// The string made of the characters `v[from..to]`.
pub(crate) fn string_of_range(v: &Vec<char>, from: usize, to: usize) -> (s: String)
    requires
        from <= to <= v.len(),
    ensures
        s@ == v@.subrange(from as int, to as int),
{
    let mut s = String::new();
    let mut i: usize = from;
    while i < to
        invariant
            from <= i <= to <= v.len(),
            s@ == v@.subrange(from as int, i as int),
        decreases to - i,
    {
        push_char(&mut s, v[i]);
        i += 1;
        assert(v@.subrange(from as int, i as int) =~= v@.subrange(from as int, i - 1).push(
            v@[i - 1],
        ));
    }
    s
}

/// The string made of the characters of `v`.
pub fn string_of_chars(v: &Vec<char>) -> (s: String)
    ensures
        s@ == v@,
{
    let s = string_of_range(v, 0, v.len());
    assert(v@.subrange(0, v.len() as int) =~= v@);
    s
}

/// The bounds of `v[from..to]` once trimmed of leading whitespace: the index
/// of its first character that is not whitespace, or `to`.
pub(crate) fn skip_whitespace(v: &Vec<char>, from: usize, to: usize) -> (k: usize)
    requires
        from <= to <= v.len(),
    ensures
        from <= k <= to,
        trim_start(v@.subrange(from as int, to as int)) == v@.subrange(k as int, to as int),
{
    let mut k: usize = from;
    while k < to && char_is_whitespace(v[k])
        invariant
            from <= k <= to <= v.len(),
            forall|i: int| from <= i < k ==> is_whitespace(#[trigger] v@[i]),
        decreases to - k,
    {
        k += 1;
    }
    proof {
        let s = v@.subrange(from as int, to as int);
        assert forall|i: int| 0 <= i < k - from implies is_whitespace(#[trigger] s[i]) by {
            assert(s[i] == v@[from + i]);
        }
        lemma_trim_start_is(s, k - from);
        assert(s.skip(k - from) =~= v@.subrange(k as int, to as int));
    }
    k
}

/// The end of `v[from..to]` once trimmed of trailing whitespace: one past the
/// index of its last character that is not whitespace, or `from`.
pub(crate) fn skip_whitespace_back(v: &Vec<char>, from: usize, to: usize) -> (k: usize)
    requires
        from <= to <= v.len(),
    ensures
        from <= k <= to,
        trim_end(v@.subrange(from as int, to as int)) == v@.subrange(from as int, k as int),
{
    let mut k: usize = to;
    while k > from && char_is_whitespace(v[k - 1])
        invariant
            from <= k <= to <= v.len(),
            forall|i: int| k <= i < to ==> is_whitespace(#[trigger] v@[i]),
        decreases k - from,
    {
        k -= 1;
    }
    proof {
        let s = v@.subrange(from as int, to as int);
        assert forall|i: int| k - from <= i < s.len() implies is_whitespace(#[trigger] s[i]) by {
            assert(s[i] == v@[from + i]);
        }
        if k > from {
            assert(s[k - from - 1] == v@[k - 1]);
        }
        lemma_trim_end_is(s, k - from);
        assert(s.take(k - from) =~= v@.subrange(from as int, k as int));
    }
    k
}

/// The bounds `(a, b)` of `v[from..to]` once trimmed on both sides.
pub(crate) fn trim_bounds(v: &Vec<char>, from: usize, to: usize) -> (r: (usize, usize))
    requires
        from <= to <= v.len(),
    ensures
        from <= r.0 <= r.1 <= to,
        trim(v@.subrange(from as int, to as int)) == v@.subrange(r.0 as int, r.1 as int),
{
    let a = skip_whitespace(v, from, to);
    let b = skip_whitespace_back(v, a, to);
    (a, b)
}

/// `v` trimmed on both sides.
pub fn trim_chars(v: &Vec<char>) -> (r: Vec<char>)
    ensures
        r@ == trim(v@),
{
    let (a, b) = trim_bounds(v, 0, v.len());
    assert(v@.subrange(0, v.len() as int) =~= v@);
    copy_range(v, a, b)
}

/// A copy of `v[from..to]`.
pub(crate) fn copy_range(v: &Vec<char>, from: usize, to: usize) -> (r: Vec<char>)
    requires
        from <= to <= v.len(),
    ensures
        r@ == v@.subrange(from as int, to as int),
{
    let mut r: Vec<char> = Vec::new();
    let mut i: usize = from;
    while i < to
        invariant
            from <= i <= to <= v.len(),
            r@ == v@.subrange(from as int, i as int),
        decreases to - i,
    {
        r.push(v[i]);
        i += 1;
        assert(v@.subrange(from as int, i as int) =~= v@.subrange(from as int, i - 1).push(
            v@[i - 1],
        ));
    }
    r
}

/// Whether `v[from..to]` begins with `prefix`.
pub(crate) fn range_starts_with(v: &Vec<char>, from: usize, to: usize, prefix: &Vec<char>) -> (r: bool)
    requires
        from <= to <= v.len(),
    ensures
        r == starts_with(v@.subrange(from as int, to as int), prefix@),
{
    let n = prefix.len();
    if n > to - from {
        return false;
    }
    let ghost s = v@.subrange(from as int, to as int);
    let mut i: usize = 0;
    while i < n
        invariant
            from <= to <= v.len(),
            n == prefix.len(),
            n <= to - from,
            0 <= i <= n,
            s == v@.subrange(from as int, to as int),
            forall|j: int| 0 <= j < i ==> s[j] == prefix@[j],
        decreases n - i,
    {
        if v[from + i] != prefix[i] {
            proof {
                assert(s[i as int] == v@[from + i]);
                assert(s.take(n as int)[i as int] != prefix@[i as int]);
            }
            return false;
        }
        assert(s[i as int] == v@[from + i]);
        i += 1;
    }
    assert(s.take(n as int) =~= prefix@);
    true
}

/// Whether `v` begins with `prefix`.
pub fn chars_start_with(v: &Vec<char>, prefix: &Vec<char>) -> (r: bool)
    ensures
        r == starts_with(v@, prefix@),
{
    assert(v@.subrange(0, v.len() as int) =~= v@);
    range_starts_with(v, 0, v.len(), prefix)
}

/// Whether `v[from..to]` begins with the comment marker.
pub(crate) fn range_is_comment(v: &Vec<char>, from: usize, to: usize) -> (r: bool)
    requires
        from <= to <= v.len(),
    ensures
        r == starts_with(v@.subrange(from as int, to as int), comment_marker()),
{
    let ghost s = v@.subrange(from as int, to as int);
    if to - from >= 2 && v[from] == '-' && v[from + 1] == '-' {
        assert(s[0] == v@[from as int] && s[1] == v@[from + 1]);
        assert(s.take(2) =~= comment_marker());
        true
    } else {
        proof {
            if to - from >= 2 {
                assert(s[0] == v@[from as int] && s[1] == v@[from + 1]);
                assert(s.take(2)[0] == s[0] && s.take(2)[1] == s[1]);
                assert(comment_marker()[0] == '-' && comment_marker()[1] == '-');
            }
        }
        false
    }
}

/// The index of the last `c` in `v[from..to]`, counted from `from`.
pub(crate) fn range_last_index_of(v: &Vec<char>, from: usize, to: usize, c: char) -> (r: Option<usize>)
    requires
        from <= to <= v.len(),
    ensures
        match r {
            Some(k) => k < to - from && last_index_of(v@.subrange(from as int, to as int), c) == k,
            None => last_index_of(v@.subrange(from as int, to as int), c) == -1,
        },
{
    let mut k: usize = to;
    while k > from
        invariant
            from <= k <= to <= v.len(),
            last_index_of(v@.subrange(from as int, to as int), c) == last_index_of(
                v@.subrange(from as int, k as int),
                c,
            ),
        decreases k - from,
    {
        let ghost s = v@.subrange(from as int, k as int);
        assert(s.last() == v@[k - 1]);
        if v[k - 1] == c {
            return Some(k - 1 - from);
        }
        assert(s.drop_last() =~= v@.subrange(from as int, k - 1));
        k -= 1;
    }
    None
}

/// The lines of `v`, each as its own vector.
pub fn split_lines(v: &Vec<char>) -> (r: Vec<Vec<char>>)
    ensures
        r@.len() == lines(v@).len(),
        forall|i: int| 0 <= i < r@.len() ==> (#[trigger] r@[i])@ == lines(v@)[i],
{
    let mut r: Vec<Vec<char>> = Vec::new();
    let n = v.len();
    let mut start: usize = 0;
    let mut i: usize = 0;
    let ghost mut done: Seq<Seq<char>> = Seq::empty();
    proof {
        assert(v@.skip(0) =~= v@);
    }
    while i < n
        invariant
            n == v.len(),
            0 <= start <= i <= n,
            forall|j: int| start <= j < i ==> v@[j] != '\n',
            r@.len() == done.len(),
            forall|j: int| 0 <= j < r@.len() ==> (#[trigger] r@[j])@ == done[j],
            lines(v@) == done + lines(v@.skip(start as int)),
        decreases n - i,
    {
        if v[i] == '\n' {
            let ghost rest = v@.skip(start as int);
            proof {
                assert forall|j: int| 0 <= j < i - start implies rest[j] != '\n' by {
                    assert(rest[j] == v@[start + j]);
                }
                assert(rest[i - start] == v@[i as int]);
                lemma_line_feed_index_is(rest, i - start);
                assert(rest.take(i - start) =~= v@.subrange(start as int, i as int));
                assert(rest.skip(i - start + 1) =~= v@.skip(i + 1));
            }
            let end: usize = if i > start && v[i - 1] == '\r' {
                i - 1
            } else {
                i
            };
            let line = copy_range(v, start, end);
            proof {
                let raw = v@.subrange(start as int, i as int);
                if i > start {
                    assert(raw.last() == v@[i - 1]);
                }
                assert(line@ =~= strip_carriage_return(raw));
                assert(done + (seq![line@] + lines(v@.skip(i + 1))) =~= done.push(line@) + lines(
                    v@.skip(i + 1),
                ));
                done = done.push(line@);
            }
            r.push(line);
            start = i + 1;
        }
        i += 1;
    }
    if start < n {
        let ghost rest = v@.skip(start as int);
        proof {
            assert forall|j: int| 0 <= j < rest.len() implies rest[j] != '\n' by {
                assert(rest[j] == v@[start + j]);
            }
            lemma_line_feed_index_is(rest, rest.len() as int);
            assert(rest =~= v@.subrange(start as int, n as int));
        }
        let line = copy_range(v, start, n);
        proof {
            assert(done + seq![line@] =~= done.push(line@));
            done = done.push(line@);
        }
        r.push(line);
    } else {
        proof {
            assert(v@.skip(start as int).len() == 0);
            assert(done + Seq::<Seq<char>>::empty() =~= done);
        }
    }
    proof {
        assert(lines(v@) == done);
    }
    r
}

/// The views of the items `v[from..to]`.
pub open spec fn views_of(v: Seq<Vec<char>>, from: int, to: int) -> Seq<Seq<char>> {
    Seq::new((to - from) as nat, |i: int| v[from + i]@)
}

/// The items `v[from..to]` with `sep` between each two neighbours.
pub(crate) fn join_range(v: &Vec<Vec<char>>, from: usize, to: usize, sep: &Vec<char>) -> (r: Vec<char>)
    requires
        from <= to <= v.len(),
    ensures
        r@ == join(views_of(v@, from as int, to as int), sep@),
{
    let mut r: Vec<char> = Vec::new();
    let mut i: usize = from;
    proof {
        assert(views_of(v@, from as int, from as int) =~= Seq::empty());
    }
    while i < to
        invariant
            from <= i <= to <= v.len(),
            r@ == join(views_of(v@, from as int, i as int), sep@),
        decreases to - i,
    {
        let ghost joined = r@;
        if i > from {
            append_chars(&mut r, sep);
        }
        let ghost before = r@;
        append_chars(&mut r, &v[i]);
        proof {
            let line = v@[i as int];
            let parts = views_of(v@, from as int, i + 1);
            assert(parts.last() == line@);
            assert(parts.drop_last() =~= views_of(v@, from as int, i as int));
            if i > from {
                assert(r@ =~= join(parts.drop_last(), sep@) + sep@ + line@);
            } else {
                assert(parts.len() == 1);
                assert(r@ =~= line@);
                assert(parts[0] == line@);
            }
        }
        i += 1;
    }
    r
}

/// Appends the characters of `tail` to `r`.
pub fn append_chars(r: &mut Vec<char>, tail: &Vec<char>)
    ensures
        final(r)@ == old(r)@ + tail@,
{
    let ghost before = r@;
    let m = tail.len();
    let mut j: usize = 0;
    while j < m
        invariant
            m == tail.len(),
            0 <= j <= m,
            r@ == before + tail@.take(j as int),
        decreases m - j,
    {
        r.push(tail[j]);
        j += 1;
        assert(tail@.take(j as int) =~= tail@.take(j - 1).push(tail@[j - 1]));
    }
    assert(tail@.take(m as int) =~= tail@);
}

/// The index of the first occurrence of `c` in `s`, or `s.len()` where there
/// is none.
pub open spec fn first_index_of(s: Seq<char>, c: char) -> int
    decreases s.len(),
{
    if s.len() == 0 || s[0] == c {
        0
    } else {
        1 + first_index_of(s.drop_first(), c)
    }
}

/// The first occurrence of `c` is where no earlier character is `c`.
pub proof fn lemma_first_index_of_is(s: Seq<char>, c: char, k: int)
    requires
        0 <= k <= s.len(),
        forall|i: int| 0 <= i < k ==> s[i] != c,
        k < s.len() ==> s[k] == c,
    ensures
        first_index_of(s, c) == k,
    decreases s.len(),
{
    if s.len() == 0 || s[0] == c {
    } else {
        let t = s.drop_first();
        assert forall|i: int| 0 <= i < k - 1 implies t[i] != c by {
            assert(t[i] == s[i + 1]);
        }
        lemma_first_index_of_is(t, c, k - 1);
    }
}

/// Whether `needle` occurs in `s` at index `i`.
pub open spec fn occurs_at(s: Seq<char>, needle: Seq<char>, i: int) -> bool {
    0 <= i && i + needle.len() <= s.len() && s.subrange(i, i + needle.len()) == needle
}

/// Whether `needle` occurs somewhere in `s`. The empty text occurs in every
/// text.
pub open spec fn contains(s: Seq<char>, needle: Seq<char>) -> bool {
    exists|i: int| occurs_at(s, needle, i)
}

/// Whether `s` ends with the character `c`.
pub open spec fn ends_with_char(s: Seq<char>, c: char) -> bool {
    s.len() > 0 && s.last() == c
}

/// Whether `s` begins with the character `c`.
pub open spec fn starts_with_char(s: Seq<char>, c: char) -> bool {
    s.len() > 0 && s[0] == c
}

/// The index of the first `c` in `v[from..to]`, counted from `from`, or
/// `to - from` where there is none.
pub(crate) fn range_first_index_of(v: &Vec<char>, from: usize, to: usize, c: char) -> (k: usize)
    requires
        from <= to <= v.len(),
    ensures
        k <= to - from,
        k == first_index_of(v@.subrange(from as int, to as int), c),
{
    let mut k: usize = from;
    let ghost s = v@.subrange(from as int, to as int);
    while k < to && v[k] != c
        invariant
            from <= k <= to <= v.len(),
            s == v@.subrange(from as int, to as int),
            forall|i: int| 0 <= i < k - from ==> s[i] != c,
        decreases to - k,
    {
        assert(s[k - from] == v@[k as int]);
        k += 1;
    }
    proof {
        if k < to {
            assert(s[k - from] == v@[k as int]);
        }
        lemma_first_index_of_is(s, c, k - from);
    }
    k - from
}

/// Whether `needle` occurs in `v` at index `i`.
pub fn chars_occur_at(v: &Vec<char>, needle: &Vec<char>, i: usize) -> (r: bool)
    ensures
        r == occurs_at(v@, needle@, i as int),
{
    let n = needle.len();
    if i > v.len() || n > v.len() - i {
        return false;
    }
    let ghost w = v@.subrange(i as int, i + n);
    let mut j: usize = 0;
    while j < n
        invariant
            n == needle.len(),
            i + n <= v.len(),
            0 <= j <= n,
            w == v@.subrange(i as int, i + n),
            forall|k: int| 0 <= k < j ==> w[k] == needle@[k],
        decreases n - j,
    {
        assert(w[j as int] == v@[i + j]);
        if v[i + j] != needle[j] {
            return false;
        }
        j += 1;
    }
    assert(w =~= needle@);
    true
}

/// Whether `needle` occurs somewhere in `v`.
pub fn chars_contain(v: &Vec<char>, needle: &Vec<char>) -> (r: bool)
    ensures
        r == contains(v@, needle@),
{
    if needle.len() == 0 {
        assert(v@.subrange(0, 0) =~= needle@);
        assert(occurs_at(v@, needle@, 0));
        return true;
    }
    let mut i: usize = 0;
    while i < v.len()
        invariant
            0 <= i <= v.len(),
            needle.len() > 0,
            forall|k: int| 0 <= k < i ==> !occurs_at(v@, needle@, k),
        decreases v.len() - i,
    {
        if chars_occur_at(v, needle, i) {
            return true;
        }
        i += 1;
    }
    assert forall|k: int| !occurs_at(v@, needle@, k) by {}
    false
}

/// Whether two vectors hold the same characters.
pub fn chars_equal(a: &Vec<char>, b: &Vec<char>) -> (r: bool)
    ensures
        r == (a@ == b@),
{
    if a.len() != b.len() {
        return false;
    }
    let mut i: usize = 0;
    while i < a.len()
        invariant
            a.len() == b.len(),
            0 <= i <= a.len(),
            forall|k: int| 0 <= k < i ==> a@[k] == b@[k],
        decreases a.len() - i,
    {
        if a[i] != b[i] {
            return false;
        }
        i += 1;
    }
    assert(a@ =~= b@);
    true
}

/// Whether two string slices hold the same text.
pub fn str_equal(a: &str, b: &str) -> (r: bool)
    ensures
        r == (a@ == b@),
{
    let x = str_chars(a);
    let y = str_chars(b);
    chars_equal(&x, &y)
}

/// Whether `s` begins with `prefix`.
pub fn str_starts_with(s: &str, prefix: &str) -> (r: bool)
    ensures
        r == starts_with(s@, prefix@),
{
    let x = str_chars(s);
    let y = str_chars(prefix);
    chars_start_with(&x, &y)
}

/// Whether `needle` occurs somewhere in `s`.
pub fn str_contains(s: &str, needle: &str) -> (r: bool)
    ensures
        r == contains(s@, needle@),
{
    let x = str_chars(s);
    let y = str_chars(needle);
    chars_contain(&x, &y)
}

/// `s` trimmed on both sides, as a string of its own.
pub fn str_trim(s: &str) -> (r: String)
    ensures
        r@ == trim(s@),
{
    let x = str_chars(s);
    assert(x@.subrange(0, x.len() as int) =~= x@);
    let (a, b) = trim_bounds(&x, 0, x.len());
    string_of_range(&x, a, b)
}

/// Whether `s` holds nothing but whitespace.
pub fn str_is_blank(s: &str) -> (r: bool)
    ensures
        r == is_blank(s@),
{
    let x = str_chars(s);
    assert(x@.subrange(0, x.len() as int) =~= x@);
    let (a, b) = trim_bounds(&x, 0, x.len());
    proof {
        lemma_trim_shape(x@);
    }
    a == b
}

/// `a` followed by `b`.
pub fn str_concat(a: &str, b: &str) -> (r: String)
    ensures
        r@ == a@ + b@,
{
    let mut r = a.to_owned();
    let y = str_chars(b);
    let mut i: usize = 0;
    while i < y.len()
        invariant
            0 <= i <= y.len(),
            r@ == a@ + y@.take(i as int),
        decreases y.len() - i,
    {
        push_char(&mut r, y[i]);
        i += 1;
        assert(y@.take(i as int) =~= y@.take(i - 1).push(y@[i - 1]));
    }
    assert(y@.take(y.len() as int) =~= y@);
    r
}

} // verus!
