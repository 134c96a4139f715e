use crate::keys::add_capped;
use crate::keys::capped_add;
use crate::table_viewer::data::ChartData;
use crate::table_viewer::data::ChartItem;
use crate::table_viewer::data::ChartView;
use crate::table_viewer::data::TableViewer;
use crate::table_viewer::data::ViewerView;
use crate::table_viewer::navigation::minus;
use crate::table_viewer::statistics::label_index;
use crate::table_viewer::statistics::lemma_label_index_is;
use crate::text::str_concat;
use crate::text::str_equal;
use vstd::prelude::*;

verus! {

broadcast use vstd::std_specs::hash::group_hash_axioms;

/// The number of values that a chart opened from the viewer shows at most.
pub const CHART_MAX_ITEMS: usize = 20;

/// A value with the number of its occurrences.
pub type Counted = (Seq<char>, usize);

/// Where an entry with `count` occurrences goes into a list in descending
/// order of counts: after every entry that occurs at least as often.
pub open spec fn insert_position(sorted: Seq<Counted>, count: usize) -> int
    decreases sorted.len(),
{
    if sorted.len() == 0 || sorted.last().1 >= count {
        sorted.len() as int
    } else {
        insert_position(sorted.drop_last(), count)
    }
}

/// The entries in descending order of counts; entries with equal counts keep
/// their order.
pub open spec fn sorted_by_count(items: Seq<Counted>) -> Seq<Counted>
    decreases items.len(),
{
    if items.len() == 0 {
        Seq::empty()
    } else {
        let before = sorted_by_count(items.drop_last());
        before.insert(insert_position(before, items.last().1), items.last())
    }
}

/// The sum of the counts of all entries.
pub open spec fn count_sum(items: Seq<Counted>) -> int
    decreases items.len(),
{
    if items.len() == 0 {
        0
    } else {
        count_sum(items.drop_last()) + items.last().1
    }
}

/// The entries without those for `label`.
pub open spec fn without_label(items: Seq<Counted>, label: Seq<char>) -> Seq<Counted>
    decreases items.len(),
{
    if items.len() == 0 {
        Seq::empty()
    } else if items.last().0 == label {
        without_label(items.drop_last(), label)
    } else {
        without_label(items.drop_last(), label).push(items.last())
    }
}

/// Whether some entry of `items` is for `label`.
pub open spec fn has_label(items: Seq<Counted>, label: Seq<char>) -> bool {
    label_index(items, label) < items.len()
}

/// The sum of the counts of the entries whose label is not shown.
pub open spec fn hidden_sum(items: Seq<Counted>, shown: Seq<Counted>) -> int
    decreases items.len(),
{
    if items.len() == 0 {
        0
    } else if has_label(shown, items.last().0) {
        hidden_sum(items.drop_last(), shown)
    } else {
        hidden_sum(items.drop_last(), shown) + items.last().1
    }
}

/// The entries with entry `k` moved to the front.
pub open spec fn front_moved(items: Seq<Counted>, k: int) -> Seq<Counted> {
    seq![items[k]] + items.remove(k)
}

/// The label of the bar that stands for all values not shown.
pub open spec fn others_label() -> Seq<char> {
    "<Others>"@
}

/// A sum as a count: capped at the largest count that fits.
pub open spec fn as_count(n: int) -> usize {
    capped_add(n, 0)
}

/// The bars of a chart of at most `max_items` values. The values stand in
/// descending order of their counts, with the highlighted value first. Where
/// there are more values than fit, one bar for the others takes the place of
/// the rarest; where then the highlighted value is not among the values at
/// all, the chart has no bars.
pub open spec fn chart_items(counts: Seq<Counted>, max_items: usize, highlight: Seq<char>) -> Seq<
    Counted,
> {
    let sorted = sorted_by_count(counts);
    let k = label_index(sorted, highlight);
    if sorted.len() <= max_items {
        if k < sorted.len() {
            front_moved(sorted, k)
        } else {
            sorted
        }
    } else if k < sorted.len() {
        let top = minus(max_items as int, 1) as int;
        let more = minus(max_items as int, 2) as int;
        if k < top {
            front_moved(sorted.take(top), k).push(
                (others_label(), as_count(count_sum(sorted.skip(top)))),
            )
        } else {
            let rest = without_label(sorted, highlight);
            let shown = seq![sorted[k]] + rest.take(
                if rest.len() < more {
                    rest.len() as int
                } else {
                    more
                },
            );
            let others = as_count(hidden_sum(counts, shown));
            if others > 0 {
                shown.push((others_label(), others))
            } else {
                shown
            }
        }
    } else {
        Seq::empty()
    }
}

/// The title of the chart of a column.
pub open spec fn chart_title(column_name: Seq<char>) -> Seq<char> {
    "Distribution of '"@ + column_name + "'"@
}

impl ViewerView {
    /// The chart of the column under the cursor, where the column is known
    /// and has values.
    pub open spec fn chart(self, max_items: usize, bar_width: usize, highlight: Seq<char>) -> Option<
        ChartView,
    > {
        if self.column_stats.contains_key(self.current_col) && self.current_col
            < self.data.headers.len() && self.column_stats[self.current_col].value_counts.len()
            > 0 {
            let stats = self.column_stats[self.current_col];
            Some(
                ChartView {
                    title: chart_title(self.data.headers[self.current_col as int]),
                    column_name: self.data.headers[self.current_col as int],
                    data_type: match stats.data_type {
                        Some(t) => t,
                        None => "UNKNOWN"@,
                    },
                    items: chart_items(stats.value_counts, max_items, highlight),
                    total_count: self.data.rows.len() as usize,
                    null_count: stats.null_count,
                    unique_count: stats.unique_count,
                    bar_width,
                },
            )
        } else {
            None
        }
    }

    /// The viewer with its chart closed where it was open, and opened on the
    /// column under the cursor where it was closed and there is something to
    /// chart.
    pub open spec fn chart_toggled(self, bar_width: usize) -> ViewerView {
        if self.show_chart {
            self.chart_closed()
        } else {
            let highlight = match self.current_cell() {
                Some(v) => v,
                None => Seq::empty(),
            };
            match self.chart(CHART_MAX_ITEMS, bar_width, highlight) {
                Some(c) => ViewerView { show_chart: true, chart_data: Some(c), ..self },
                None => self,
            }
        }
    }
}

/// A copy of the entries in descending order of counts.
pub fn sort_by_count(items: &Vec<(String, usize)>) -> (r: Vec<(String, usize)>)
    ensures
        r.deep_view() == sorted_by_count(items.deep_view()),
{
    let mut r: Vec<(String, usize)> = Vec::new();
    let ghost all = items.deep_view();
    let mut i: usize = 0;
    assert(all.take(0) =~= Seq::empty());
    assert(r.deep_view() =~= Seq::empty());
    while i < items.len()
        invariant
            0 <= i <= items.len(),
            all == items.deep_view(),
            r@.len() == i,
            r.deep_view() == sorted_by_count(all.take(i as int)),
        decreases items.len() - i,
    {
        let count = items[i].1;
        let ghost before = r.deep_view();
        let mut p: usize = r.len();
        assert(before.take(p as int) =~= before);
        while p > 0 && r[p - 1].1 < count
            invariant
                0 <= p <= r.len(),
                before == r.deep_view(),
                insert_position(before, count) == insert_position(before.take(p as int), count),
            decreases p,
        {
            proof {
                let head = before.take(p as int);
                assert(head.last() == before[p - 1]);
                assert(head.drop_last() =~= before.take(p - 1));
            }
            p -= 1;
        }
        proof {
            let head = before.take(p as int);
            if p > 0 {
                assert(head.last() == before[p - 1]);
            }
            assert(insert_position(before, count) == p);
            let next = all.take(i + 1);
            assert(next.drop_last() =~= all.take(i as int));
            assert(next.last() == (items@[i as int].0@, count));
        }
        r.insert(p, (items[i].0.clone(), count));
        assert(r.deep_view() =~= before.insert(p as int, (items@[i as int].0@, count)));
        i += 1;
    }
    assert(all.take(i as int) =~= all);
    r
}

/// The index of the first entry for `label`, or the number of entries.
pub fn find_label(items: &Vec<(String, usize)>, label: &str) -> (k: usize)
    ensures
        k <= items.len(),
        k == label_index(items.deep_view(), label@),
{
    let ghost all = items.deep_view();
    let mut i: usize = 0;
    while i < items.len()
        invariant
            0 <= i <= items.len(),
            all == items.deep_view(),
            forall|j: int| 0 <= j < i ==> all[j].0 != label@,
        decreases items.len() - i,
    {
        assert(all[i as int].0 == items@[i as int].0@);
        if str_equal(items[i].0.as_str(), label) {
            proof {
                lemma_label_index_is(all, label@, i as int);
            }
            return i;
        }
        i += 1;
    }
    proof {
        lemma_label_index_is(all, label@, all.len() as int);
    }
    i
}

/// A copy of `items[from..to]`.
fn copy_counts(items: &Vec<(String, usize)>, from: usize, to: usize) -> (r: Vec<(String, usize)>)
    requires
        from <= to <= items.len(),
    ensures
        r.deep_view() == items.deep_view().subrange(from as int, to as int),
{
    let mut r: Vec<(String, usize)> = Vec::new();
    let mut i: usize = from;
    while i < to
        invariant
            from <= i <= to <= items.len(),
            r@.len() == i - from,
            forall|j: int| 0 <= j < r@.len() ==> (#[trigger] r@[j]).0@ == items@[from + j].0@ && r@[j].1 == items@[from + j].1,
        decreases to - i,
    {
        r.push((items[i].0.clone(), items[i].1));
        i += 1;
    }
    assert(r.deep_view() =~= items.deep_view().subrange(from as int, to as int));
    r
}

/// The sum of the counts of `items[from..]`, capped.
fn sum_counts_from(items: &Vec<(String, usize)>, from: usize) -> (r: usize)
    requires
        from <= items.len(),
    ensures
        r == as_count(count_sum(items.deep_view().skip(from as int))),
{
    let ghost tail = items.deep_view().skip(from as int);
    let mut r: usize = 0;
    let mut i: usize = from;
    assert(tail.take(0) =~= Seq::empty());
    while i < items.len()
        invariant
            from <= i <= items.len(),
            tail == items.deep_view().skip(from as int),
            r == as_count(count_sum(tail.take(i - from))),
            count_sum(tail.take(i - from)) >= 0,
        decreases items.len() - i,
    {
        proof {
            let head = tail.take(i - from + 1);
            assert(head.drop_last() =~= tail.take(i - from));
            assert(head.last() == (items@[i as int].0@, items@[i as int].1));
        }
        r = add_capped(r, items[i].1);
        i += 1;
    }
    assert(tail.take(i - from) =~= tail);
    r
}

/// The entries that are not for `label`, in order.
fn remove_label(items: &Vec<(String, usize)>, label: &str) -> (r: Vec<(String, usize)>)
    ensures
        r.deep_view() == without_label(items.deep_view(), label@),
{
    let ghost all = items.deep_view();
    let mut r: Vec<(String, usize)> = Vec::new();
    let mut i: usize = 0;
    assert(all.take(0) =~= Seq::empty());
    assert(r.deep_view() =~= Seq::empty());
    while i < items.len()
        invariant
            0 <= i <= items.len(),
            all == items.deep_view(),
            r.deep_view() == without_label(all.take(i as int), label@),
        decreases items.len() - i,
    {
        let ghost before = r.deep_view();
        proof {
            let head = all.take(i + 1);
            assert(head.drop_last() =~= all.take(i as int));
            assert(head.last() == (items@[i as int].0@, items@[i as int].1));
        }
        if !str_equal(items[i].0.as_str(), label) {
            r.push((items[i].0.clone(), items[i].1));
            assert(r.deep_view() =~= before.push((items@[i as int].0@, items@[i as int].1)));
        }
        i += 1;
    }
    assert(all.take(i as int) =~= all);
    r
}

/// The sum of the counts of the entries of `items` whose label is not among
/// `shown`, capped.
fn sum_hidden(items: &Vec<(String, usize)>, shown: &Vec<(String, usize)>) -> (r: usize)
    ensures
        r == as_count(hidden_sum(items.deep_view(), shown.deep_view())),
{
    let ghost all = items.deep_view();
    let mut r: usize = 0;
    let mut i: usize = 0;
    assert(all.take(0) =~= Seq::empty());
    while i < items.len()
        invariant
            0 <= i <= items.len(),
            all == items.deep_view(),
            r == as_count(hidden_sum(all.take(i as int), shown.deep_view())),
            hidden_sum(all.take(i as int), shown.deep_view()) >= 0,
        decreases items.len() - i,
    {
        proof {
            let head = all.take(i + 1);
            assert(head.drop_last() =~= all.take(i as int));
            assert(head.last() == (items@[i as int].0@, items@[i as int].1));
        }
        if find_label(shown, items[i].0.as_str()) >= shown.len() {
            r = add_capped(r, items[i].1);
        }
        i += 1;
    }
    assert(all.take(i as int) =~= all);
    r
}

/// The entries with entry `k` moved to the front.
fn move_to_front(items: Vec<(String, usize)>, k: usize) -> (r: Vec<(String, usize)>)
    requires
        k < items.len(),
    ensures
        r.deep_view() == front_moved(items.deep_view(), k as int),
{
    let mut r = items;
    let ghost before = r.deep_view();
    let highlighted = r.remove(k);
    assert(r.deep_view() =~= before.remove(k as int));
    r.insert(0, highlighted);
    assert(r.deep_view() =~= front_moved(before, k as int));
    r
}

/// The bars of a chart; see [`chart_items`].
pub fn select_chart_items(counts: &Vec<(String, usize)>, max_items: usize, highlight: &str) -> (r:
    Vec<(String, usize)>)
    ensures
        r.deep_view() == chart_items(counts.deep_view(), max_items, highlight@),
{
    let sorted = sort_by_count(counts);
    let k = find_label(&sorted, highlight);
    if sorted.len() <= max_items {
        if k < sorted.len() {
            move_to_front(sorted, k)
        } else {
            sorted
        }
    } else if k < sorted.len() {
        let most: usize = if max_items >= 1 {
            max_items - 1
        } else {
            0
        };
        let more: usize = if max_items >= 2 {
            max_items - 2
        } else {
            0
        };
        if k < most {
            let top = copy_counts(&sorted, 0, most);
            assert(sorted.deep_view().take(most as int) =~= sorted.deep_view().subrange(
                0,
                most as int,
            ));
            let others_count = sum_counts_from(&sorted, most);
            assert(top@.len() == top.deep_view().len());
            let mut shown = move_to_front(top, k);
            let ghost before = shown.deep_view();
            shown.push(("<Others>".to_owned(), others_count));
            assert(shown.deep_view() =~= before.push((others_label(), others_count)));
            shown
        } else {
            let rest = remove_label(&sorted, highlight);
            let take = if rest.len() < more {
                rest.len()
            } else {
                more
            };
            let mut shown: Vec<(String, usize)> = Vec::new();
            shown.push((sorted[k].0.clone(), sorted[k].1));
            let ghost first = shown.deep_view();
            assert(first =~= seq![sorted.deep_view()[k as int]]);
            let mut j: usize = 0;
            while j < take
                invariant
                    0 <= j <= take <= rest.len(),
                    shown.deep_view() == first + rest.deep_view().take(j as int),
                decreases take - j,
            {
                let ghost before = shown.deep_view();
                shown.push((rest[j].0.clone(), rest[j].1));
                assert(shown.deep_view() =~= before.push(rest.deep_view()[j as int]));
                j += 1;
                assert(rest.deep_view().take(j as int) =~= rest.deep_view().take(j - 1).push(
                    rest.deep_view()[j - 1],
                ));
                assert(shown.deep_view() =~= first + rest.deep_view().take(j as int));
            }
            let others_count = sum_hidden(counts, &shown);
            if others_count > 0 {
                let ghost before = shown.deep_view();
                shown.push(("<Others>".to_owned(), others_count));
                assert(shown.deep_view() =~= before.push((others_label(), others_count)));
            }
            shown
        }
    } else {
        let r: Vec<(String, usize)> = Vec::new();
        assert(r.deep_view() =~= Seq::empty());
        r
    }
}

/// The entries as chart items.
fn into_items(entries: Vec<(String, usize)>) -> (r: Vec<ChartItem>)
    ensures
        r.deep_view() == entries.deep_view(),
{
    let mut r: Vec<ChartItem> = Vec::new();
    let mut i: usize = 0;
    while i < entries.len()
        invariant
            0 <= i <= entries.len(),
            r@.len() == i,
            forall|j: int| 0 <= j < i ==> (#[trigger] r@[j])@ == (entries@[j].0@, entries@[j].1),
        decreases entries.len() - i,
    {
        r.push(ChartItem { label: entries[i].0.clone(), count: entries[i].1 });
        i += 1;
    }
    assert(r.deep_view() =~= entries.deep_view());
    r
}

impl TableViewer {
    /// The chart of the column under the cursor, with at most `max_items`
    /// bars and the bar of `value_to_highlight` first. There is none where
    /// the column is unknown or holds no value.
    pub fn generate_chart_data(&self, max_items: usize, bar_width: usize, value_to_highlight: &str) -> (r:
        Option<ChartData>)
        ensures
            match r {
                Some(c) => self@.chart(max_items, bar_width, value_to_highlight@) == Some(c@),
                None => self@.chart(max_items, bar_width, value_to_highlight@) is None,
            },
    {
        let stats = match self.column_stats.get(&self.current_col) {
            Some(s) => s,
            None => {
                return None;
            },
        };
        assert(self@.column_stats[self.current_col] == stats@);
        if self.current_col >= self.data.headers.len() {
            return None;
        }
        let column_name = self.data.headers[self.current_col].clone();
        assert(self@.data.headers[self.current_col as int] == column_name@);
        let data_type = match &stats.data_type {
            Some(t) => t.clone(),
            None => "UNKNOWN".to_owned(),
        };
        let total_count = self.data.rows.len();
        if stats.value_counts.len() == 0 {
            return None;
        }
        let entries = select_chart_items(&stats.value_counts, max_items, value_to_highlight);
        let with_name = str_concat("Distribution of '", column_name.as_str());
        let title = str_concat(with_name.as_str(), "'");
        Some(
            ChartData {
                title,
                column_name,
                data_type,
                items: into_items(entries),
                total_count,
                null_count: stats.null_count,
                unique_count: stats.unique_count,
                bar_width,
            },
        )
    }

    /// Closes the chart where it is open, and opens it on the column under
    /// the cursor where it is closed and there is something to chart.
    pub fn toggle_chart(&mut self, bar_width: usize)
        ensures
            final(self)@ == old(self)@.chart_toggled(bar_width),
    {
        if self.show_chart {
            self.show_chart = false;
            self.chart_data = None;
        } else {
            let value_to_highlight = match self.get_current_cell_value() {
                Some(v) => v,
                None => String::new(),
            };
            if let Some(chart_data) = self.generate_chart_data(
                CHART_MAX_ITEMS,
                bar_width,
                value_to_highlight.as_str(),
            ) {
                self.chart_data = Some(chart_data);
                self.show_chart = true;
            }
        }
    }
}

/// Whether the counts of the entries never rise from one entry to a later
/// one.
pub open spec fn is_descending(s: Seq<Counted>) -> bool {
    forall|i: int, j: int| 0 <= i < j < s.len() ==> (#[trigger] s[i]).1 >= (#[trigger] s[j]).1
}

/// Where an entry goes into a list: every entry from there on occurs less
/// often than it, and the entry before occurs at least as often.
pub proof fn lemma_insert_position(s: Seq<Counted>, count: usize)
    ensures
        0 <= insert_position(s, count) <= s.len(),
        forall|i: int| insert_position(s, count) <= i < s.len() ==> (#[trigger] s[i]).1 < count,
        insert_position(s, count) > 0 ==> s[insert_position(s, count) - 1].1 >= count,
    decreases s.len(),
{
    if s.len() == 0 || s.last().1 >= count {
    } else {
        let t = s.drop_last();
        lemma_insert_position(t, count);
        assert forall|i: int| insert_position(s, count) <= i < s.len() implies (#[trigger] s[i]).1
            < count by {
            if i < t.len() {
                assert(s[i] == t[i]);
            }
        }
        if insert_position(s, count) > 0 {
            assert(s[insert_position(s, count) - 1] == t[insert_position(t, count) - 1]);
        }
    }
}

/// Sorting by count puts the entries in descending order of their counts,
/// and neither adds an entry nor loses one.
pub proof fn lemma_sorted_by_count(items: Seq<Counted>)
    ensures
        is_descending(sorted_by_count(items)),
        sorted_by_count(items).len() == items.len(),
        sorted_by_count(items).to_multiset() == items.to_multiset(),
    decreases items.len(),
{
    if items.len() == 0 {
        assert(sorted_by_count(items) =~= items);
    } else {
        let rest = items.drop_last();
        let x = items.last();
        lemma_sorted_by_count(rest);
        let before = sorted_by_count(rest);
        let p = insert_position(before, x.1);
        lemma_insert_position(before, x.1);
        let after = before.insert(p, x);
        assert forall|i: int, j: int| 0 <= i < j < after.len() implies (#[trigger] after[i]).1 >= (
        #[trigger] after[j]).1 by {
            if j < p {
                assert(after[i] == before[i] && after[j] == before[j]);
            } else if j == p {
                assert(after[i] == before[i]);
                if p > 0 && i < p - 1 {
                    assert(before[i].1 >= before[p - 1].1);
                }
            } else if i < p {
                assert(after[i] == before[i] && after[j] == before[j - 1]);
            } else if i == p {
                assert(after[j] == before[j - 1]);
            } else {
                assert(after[i] == before[i - 1] && after[j] == before[j - 1]);
            }
        }
        vstd::seq_lib::to_multiset_insert(before, p, x);
        assert(rest.push(x) =~= items);
        vstd::seq_lib::to_multiset_build(rest, x);
        assert(after.to_multiset() =~= items.to_multiset());
    }
}

} // verus!
