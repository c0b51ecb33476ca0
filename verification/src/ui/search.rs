//! The search modal's computed content: highlighted candidate text, the
//! window of visible rows, and the wrapping of category chips.

use vstd::prelude::*;
use crate::strings::{char_count, push_char};

verus! {

/// A piece of text with one style.
#[derive(Debug, Clone, PartialEq, Eq)]
pub struct StyledSpan<S> {
    pub content: String,
    pub style: S,
}

/// How far the walk through the highlight indices has come after the first
/// `i` characters: the walk advances past an index when the character at that
/// index is reached.
pub open spec fn highlight_cursor(highlight: Seq<usize>, i: int) -> int
    decreases i,
{
    if i <= 0 {
        0
    } else {
        let p = highlight_cursor(highlight, i - 1);
        if p < highlight.len() && highlight[p] == i - 1 {
            p + 1
        } else {
            p
        }
    }
}

/// Whether the character at index `i` is highlighted.
pub open spec fn is_highlighted(highlight: Seq<usize>, i: int) -> bool {
    let p = highlight_cursor(highlight, i);
    p < highlight.len() && highlight[p] == i
}

/// The maximal runs of characters of `s` with the same highlighting, in order,
/// each with whether it is highlighted.
pub open spec fn highlight_runs(s: Seq<char>, highlight: Seq<usize>) -> Seq<(Seq<char>, bool)>
    decreases s.len(),
{
    if s.len() == 0 {
        seq![]
    } else {
        let r = highlight_runs(s.drop_last(), highlight);
        let i = s.len() - 1;
        let h = is_highlighted(highlight, i);
        if r.len() > 0 && r.last().1 == h {
            r.update(r.len() - 1, (r.last().0.push(s[i]), h))
        } else {
            r.push((seq![s[i]], h))
        }
    }
}

/// Splits `text` into spans: runs of highlighted characters carry
/// `highlight_style`, the others `base_style`. `highlight` lists character
/// indices in increasing order; without any, the whole text is one span.
pub fn highlight_spans<S: Copy>(
    text: &str,
    highlight: &[usize],
    base_style: S,
    highlight_style: S,
) -> (spans: Vec<StyledSpan<S>>)
    ensures
        highlight@.len() == 0 ==> spans@.len() == 1 && spans@[0].content@ == text@
            && spans@[0].style == base_style,
        highlight@.len() > 0 ==> {
            let runs = highlight_runs(text@, highlight@);
            &&& spans@.len() == runs.len()
            &&& forall|j: int|
                0 <= j < runs.len() ==> {
                    &&& (#[trigger] spans@[j]).content@ == runs[j].0
                    &&& spans@[j].style == if runs[j].1 {
                        highlight_style
                    } else {
                        base_style
                    }
                }
        },
{
    if highlight.len() == 0 {
        let mut one: Vec<StyledSpan<S>> = Vec::new();
        one.push(StyledSpan { content: String::from_str(text), style: base_style });
        return one;
    }
    let ghost s = text@;
    let ghost hl = highlight@;
    let n = char_count(text);
    let mut spans: Vec<StyledSpan<S>> = Vec::new();
    let mut buf = String::new();
    let mut buf_is_highlight = false;
    let mut p: usize = 0;
    let mut i: usize = 0;
    while i < n
        invariant
            i <= n == s.len(),
            s == text@,
            hl == highlight@,
            p == highlight_cursor(hl, i as int),
            p <= hl.len(),
            ({
                let runs = highlight_runs(s.take(i as int), hl);
                &&& i == 0 ==> runs.len() == 0 && spans@.len() == 0 && buf@.len() == 0
                &&& i > 0 ==> {
                    &&& runs.len() == spans@.len() + 1
                    &&& buf@ == runs.last().0
                    &&& buf_is_highlight == runs.last().1
                }
                &&& forall|j: int|
                    0 <= j < spans@.len() ==> {
                        &&& (#[trigger] spans@[j]).content@ == runs[j].0
                        &&& spans@[j].style == if runs[j].1 {
                            highlight_style
                        } else {
                            base_style
                        }
                    }
            }),
        decreases n - i,
    {
        let ch = text.get_char(i);
        let is_hi = p < highlight.len() && highlight[p] == i;
        let ghost before = highlight_runs(s.take(i as int), hl);
        let ghost spans_before = spans@;
        if is_hi {
            p = p + 1;
        }
        assert(s.take(i + 1).drop_last() =~= s.take(i as int));
        if i > 0 && is_hi != buf_is_highlight {
            let style = if buf_is_highlight {
                highlight_style
            } else {
                base_style
            };
            let done = buf;
            buf = String::new();
            spans.push(StyledSpan { content: done, style });
        }
        push_char(&mut buf, ch);
        buf_is_highlight = is_hi;
        proof {
            let after = highlight_runs(s.take(i + 1), hl);
            assert(s.take(i + 1).last() == ch);
            if i > 0 && is_hi == before.last().1 {
                assert(after == before.update(before.len() - 1, (before.last().0.push(ch), is_hi)));
                assert forall|j: int| 0 <= j < spans@.len() implies (#[trigger] spans@[j]).content@
                    == after[j].0 && spans@[j].style == if after[j].1 {
                    highlight_style
                } else {
                    base_style
                } by {
                    assert(spans@[j] == spans_before[j]);
                }
            } else {
                assert(after == before.push((seq![ch], is_hi)));
                assert forall|j: int| 0 <= j < spans@.len() implies (#[trigger] spans@[j]).content@
                    == after[j].0 && spans@[j].style == if after[j].1 {
                    highlight_style
                } else {
                    base_style
                } by {
                    if j < spans_before.len() {
                        assert(spans@[j] == spans_before[j]);
                    }
                }
            }
        }
        assert(buf@ =~= highlight_runs(s.take(i + 1), hl).last().0);
        i = i + 1;
    }
    if i > 0 {
        let style = if buf_is_highlight {
            highlight_style
        } else {
            base_style
        };
        spans.push(StyledSpan { content: buf, style });
    }
    assert(s.take(n as int) =~= s);
    spans
}

/// A category chip of the search modal.
#[derive(Debug, Clone, Copy, PartialEq, Eq)]
pub struct SearchModalCategory<'a> {
    pub label: &'a str,
    pub active: bool,
}

/// The rows of the candidate list that are shown.
#[derive(Debug, Clone, Copy, PartialEq, Eq, Structural)]
pub struct VisibleRows {
    /// The selected row, clamped to the list.
    pub selected: usize,
    /// The first row shown.
    pub start: usize,
    /// One past the last row shown.
    pub end: usize,
}

/// Which of `total` rows are shown in `capacity` lines with `selected`
/// selected: the selection is clamped to the list, and the window scrolls
/// just far enough to keep it on the last line. With no room at all the
/// window starts at the selection and shows nothing.
pub fn visible_rows(total: usize, selected: usize, capacity: usize) -> (r: VisibleRows)
    requires
        total > 0,
    ensures
        r.selected == if selected < total {
            selected
        } else {
            (total - 1) as usize
        },
        r.start == if capacity == 0 {
            r.selected as int
        } else if r.selected >= capacity - 1 {
            r.selected - (capacity - 1)
        } else {
            0
        },
        r.end == if r.start + capacity < total {
            r.start + capacity
        } else {
            total as int
        },
{
    let sel = if selected < total {
        selected
    } else {
        total - 1
    };
    let start = if capacity == 0 {
        sel
    } else if sel >= capacity - 1 {
        sel - (capacity - 1)
    } else {
        0
    };
    let end = if capacity < total - start {
        start + capacity
    } else {
        total
    };
    VisibleRows { selected: sel, start, end }
}

/// The columns a category chip takes: its label, a space on each side, and
/// a separating space.
pub open spec fn chip_width(label: Seq<char>) -> nat {
    label.len() + 3
}

/// The rows that greedy wrapping makes of items `widths` wide in lines of
/// `max_width` columns: finished rows, the open row, and its width.
pub open spec fn ribbon_state(widths: Seq<nat>, max_width: nat) -> (Seq<Seq<int>>, Seq<int>, nat)
    decreases widths.len(),
{
    if widths.len() == 0 {
        (seq![], seq![], 0)
    } else {
        let (done, row, row_w) = ribbon_state(widths.drop_last(), max_width);
        let i = widths.len() - 1;
        let w = widths[i];
        if row_w + w > max_width && row.len() > 0 {
            (done.push(row), seq![i], w)
        } else {
            (done, row.push(i), row_w + w)
        }
    }
}

/// The rows of item indices that greedy wrapping makes: an item goes on the
/// current row unless it would pass `max_width` on a row that already has an
/// item, in which case it starts the next row.
pub open spec fn ribbon_rows(widths: Seq<nat>, max_width: nat) -> Seq<Seq<int>> {
    let (done, row, _w) = ribbon_state(widths, max_width);
    if row.len() > 0 {
        done.push(row)
    } else {
        done
    }
}

/// The chip widths of `categories`.
pub open spec fn category_widths(categories: Seq<SearchModalCategory>) -> Seq<nat> {
    Seq::new(categories.len(), |i: int| chip_width(categories[i].label@))
}

/// Wraps the category chips into rows at most `max_width` columns wide (a
/// chip wider than that stands on a row of its own); each row lists the
/// indices of its categories.
pub fn category_ribbon_rows(categories: &[SearchModalCategory], max_width: usize) -> (rows: Vec<
    Vec<usize>,
>)
    requires
        forall|i: int|
            0 <= i < categories@.len() ==> chip_width(#[trigger] categories@[i].label@)
                <= usize::MAX,
    ensures
        ({
            let spec_rows = ribbon_rows(category_widths(categories@), max_width as nat);
            &&& rows@.len() == spec_rows.len()
            &&& forall|j: int|
                0 <= j < rows@.len() ==> (#[trigger] rows@[j])@.len() == spec_rows[j].len()
                    && forall|k: int| 0 <= k < rows@[j]@.len() ==> rows@[j]@[k] == spec_rows[j][k]
        }),
{
    let ghost ws = category_widths(categories@);
    let n = categories.len();
    let mut out: Vec<Vec<usize>> = Vec::new();
    let mut row: Vec<usize> = Vec::new();
    let mut row_w: usize = 0;
    let mut i: usize = 0;
    while i < n
        invariant
            i <= n == categories@.len() == ws.len(),
            ws == category_widths(categories@),
            forall|k: int|
                0 <= k < categories@.len() ==> chip_width(#[trigger] categories@[k].label@)
                    <= usize::MAX,
            ({
                let (done, spec_row, spec_w) = ribbon_state(ws.take(i as int), max_width as nat);
                &&& out@.len() == done.len()
                &&& forall|j: int|
                    0 <= j < out@.len() ==> (#[trigger] out@[j])@.len() == done[j].len()
                        && forall|k: int| 0 <= k < out@[j]@.len() ==> out@[j]@[k] == done[j][k]
                &&& row@.len() == spec_row.len()
                &&& forall|k: int| 0 <= k < row@.len() ==> row@[k] == spec_row[k]
                &&& row_w == spec_w
                &&& (row@.len() > 0 ==> row_w <= max_width || row@.len() == 1)
                &&& (row@.len() == 0 ==> row_w == 0)
            }),
        decreases n - i,
    {
        let ghost before = ribbon_state(ws.take(i as int), max_width as nat);
        let ghost out_before = out@;
        assert(ws.take(i + 1).drop_last() =~= ws.take(i as int));
        let w = char_count(categories[i].label) + 3;
        assert(w == ws[i as int]);
        if row.len() > 0 && (w > max_width || row_w > max_width - w) {
            let finished = row;
            row = Vec::new();
            out.push(finished);
            row.push(i);
            row_w = w;
            proof {
                let (done, spec_row, spec_w) = ribbon_state(ws.take(i + 1), max_width as nat);
                assert(done == before.0.push(before.1));
                assert forall|j: int| 0 <= j < out@.len() implies (#[trigger] out@[j])@.len()
                    == done[j].len() && forall|k: int|
                    0 <= k < out@[j]@.len() ==> out@[j]@[k] == done[j][k] by {
                    if j < out_before.len() {
                        assert(out@[j] == out_before[j]);
                    }
                }
            }
        } else {
            row.push(i);
            row_w = row_w + w;
            proof {
                let (done, spec_row, spec_w) = ribbon_state(ws.take(i + 1), max_width as nat);
                assert(done == before.0);
                assert(spec_row == before.1.push(i as int));
                assert forall|j: int| 0 <= j < out@.len() implies (#[trigger] out@[j])@.len()
                    == done[j].len() && forall|k: int|
                    0 <= k < out@[j]@.len() ==> out@[j]@[k] == done[j][k] by {
                    assert(out@[j] == out_before[j]);
                }
            }
        }
        i = i + 1;
    }
    if row.len() > 0 {
        out.push(row);
    }
    assert(ws.take(n as int) =~= ws);
    out
}

/// The texts of `runs` one after the other.
pub open spec fn run_texts(runs: Seq<(Seq<char>, bool)>) -> Seq<char>
    decreases runs.len(),
{
    if runs.len() == 0 {
        seq![]
    } else {
        run_texts(runs.drop_last()) + runs.last().0
    }
}

/// The runs of a text hold the text itself, in order: no character is lost
/// or repeated. Each run is non-empty and neighbouring runs differ in
/// highlighting.
pub proof fn law_highlight_runs_cover_text(s: Seq<char>, highlight: Seq<usize>)
    ensures
        run_texts(highlight_runs(s, highlight)) == s,
        forall|j: int|
            0 <= j < highlight_runs(s, highlight).len() ==> (#[trigger] highlight_runs(
                s,
                highlight,
            )[j]).0.len() > 0,
        forall|j: int|
            0 < j < highlight_runs(s, highlight).len() ==> (#[trigger] highlight_runs(
                s,
                highlight,
            )[j]).1 != highlight_runs(s, highlight)[j - 1].1,
    decreases s.len(),
{
    if s.len() > 0 {
        let t = s.drop_last();
        law_highlight_runs_cover_text(t, highlight);
        let r = highlight_runs(t, highlight);
        let i = s.len() - 1;
        let h = is_highlighted(highlight, i);
        let rr = highlight_runs(s, highlight);
        if r.len() > 0 && r.last().1 == h {
            assert(rr.drop_last() =~= r.drop_last());
            assert(run_texts(rr) =~= run_texts(r).push(s[i]));
        } else {
            assert(rr.drop_last() =~= r);
        }
        assert(t.push(s[i]) =~= s);
    }
}

/// The highlighting of each character covered by `runs`, in order.
pub open spec fn run_flags(runs: Seq<(Seq<char>, bool)>) -> Seq<bool>
    decreases runs.len(),
{
    if runs.len() == 0 {
        seq![]
    } else {
        run_flags(runs.drop_last()) + Seq::new(runs.last().0.len(), |_k: int| runs.last().1)
    }
}

/// Each character of the text lies in a run that is highlighted exactly when
/// the character is: the runs' flags, character by character, are the
/// highlighting of the text's characters.
pub proof fn law_highlight_runs_follow_characters(s: Seq<char>, highlight: Seq<usize>)
    ensures
        run_flags(highlight_runs(s, highlight)) == Seq::new(
            s.len(),
            |i: int| is_highlighted(highlight, i),
        ),
    decreases s.len(),
{
    if s.len() > 0 {
        let t = s.drop_last();
        law_highlight_runs_follow_characters(t, highlight);
        let r = highlight_runs(t, highlight);
        let i = s.len() - 1;
        let h = is_highlighted(highlight, i);
        let rr = highlight_runs(s, highlight);
        if r.len() > 0 && r.last().1 == h {
            assert(rr.drop_last() =~= r.drop_last());
            assert(rr.last() == (r.last().0.push(s[i]), h));
            assert(run_flags(rr) =~= run_flags(r).push(h));
        } else {
            assert(rr.drop_last() =~= r);
            assert(run_flags(rr) =~= run_flags(r).push(h));
        }
        assert(run_flags(rr) =~= Seq::new(s.len(), |k: int| is_highlighted(highlight, k)));
    }
}

/// How far the walk through increasing indices has come after `i`
/// characters: past exactly the indices below `i`.
proof fn lemma_highlight_cursor_counts_below(highlight: Seq<usize>, i: int)
    requires
        0 <= i,
        forall|a: int, b: int| 0 <= a < b < highlight.len() ==> highlight[a] < highlight[b],
    ensures
        0 <= highlight_cursor(highlight, i) <= highlight.len(),
        forall|k: int| 0 <= k < highlight_cursor(highlight, i) ==> highlight[k] < i,
        forall|k: int| highlight_cursor(highlight, i) <= k < highlight.len() ==> highlight[k] >= i,
    decreases i,
{
    if i > 0 {
        lemma_highlight_cursor_counts_below(highlight, i - 1);
    }
}

/// For indices listed in increasing order, as the search passes them, a
/// character is highlighted exactly when its index is listed.
pub proof fn law_listed_indices_are_highlighted(highlight: Seq<usize>, i: usize)
    requires
        forall|a: int, b: int| 0 <= a < b < highlight.len() ==> highlight[a] < highlight[b],
    ensures
        is_highlighted(highlight, i as int) <==> highlight.contains(i),
{
    lemma_highlight_cursor_counts_below(highlight, i as int);
    let c = highlight_cursor(highlight, i as int);
    if highlight.contains(i) {
        let k = choose|k: int| 0 <= k < highlight.len() && highlight[k] == i;
        if k > c {
            assert(highlight[c] < highlight[k]);
        }
    }
    if is_highlighted(highlight, i as int) {
        assert(highlight[c] == i);
    }
}

/// With room for at least one row, the selected row is shown, and no more
/// rows than fit are shown.
pub proof fn law_selection_is_visible(total: usize, selected: usize, capacity: usize, r: VisibleRows)
    requires
        total > 0,
        capacity > 0,
        r.selected == (if selected < total {
            selected
        } else {
            (total - 1) as usize
        }),
        r.start == (if r.selected >= capacity - 1 {
            r.selected - (capacity - 1)
        } else {
            0
        }),
        r.end == (if r.start + capacity < total {
            r.start + capacity
        } else {
            total as int
        }),
    ensures
        r.start <= r.selected < r.end <= total,
        r.end - r.start <= capacity,
{
}

/// The rows of item indices one after the other.
pub open spec fn flat_rows(rows: Seq<Seq<int>>) -> Seq<int>
    decreases rows.len(),
{
    if rows.len() == 0 {
        seq![]
    } else {
        flat_rows(rows.drop_last()) + rows.last()
    }
}

/// The columns that the items `row` of `widths` take together.
pub open spec fn row_width(widths: Seq<nat>, row: Seq<int>) -> nat
    decreases row.len(),
{
    if row.len() == 0 {
        0
    } else {
        row_width(widths, row.drop_last()) + widths[row.last()]
    }
}

/// A row fits in `max_width` columns, or holds a single item.
pub open spec fn row_fits(widths: Seq<nat>, row: Seq<int>, max_width: nat) -> bool {
    row_width(widths, row) <= max_width || row.len() == 1
}

proof fn lemma_ribbon_prefix(widths: Seq<nat>, max_width: nat, n: int)
    requires
        0 <= n <= widths.len(),
    ensures
        ({
            let (done, row, row_w) = ribbon_state(widths.take(n), max_width);
            &&& flat_rows(done) + row == Seq::new(n as nat, |k: int| k)
            &&& forall|j: int| 0 <= j < done.len() ==> (#[trigger] done[j]).len() > 0
            &&& forall|j: int|
                0 <= j < done.len() ==> row_fits(widths, #[trigger] done[j], max_width)
            &&& (n > 0 <==> row.len() > 0)
            &&& row_w == row_width(widths, row)
            &&& (row.len() > 0 ==> row_fits(widths, row, max_width))
            &&& forall|j: int|
                0 <= j < done.len() - 1 ==> row_width(widths, #[trigger] done[j]) + widths[done[j
                    + 1][0]] > max_width
            &&& done.len() > 0 ==> row_width(widths, done.last()) + widths[row[0]] > max_width
        }),
    decreases n,
{
    if n > 0 {
        lemma_ribbon_prefix(widths, max_width, n - 1);
        let t = widths.take(n);
        assert(t.drop_last() =~= widths.take(n - 1));
        let (done0, row0, w0) = ribbon_state(widths.take(n - 1), max_width);
        let i = n - 1;
        let w = widths[i];
        assert(t[i] == w);
        let (done, row, row_w) = ribbon_state(t, max_width);
        if w0 + w > max_width && row0.len() > 0 {
            assert(done == done0.push(row0));
            assert(done.drop_last() =~= done0);
            assert(flat_rows(done) =~= flat_rows(done0) + row0);
            assert(row == seq![i]);
            assert(row.drop_last() =~= Seq::<int>::empty());
            assert(row_width(widths, Seq::<int>::empty()) == 0);
            assert(row.last() == i);
            assert(row_width(widths, row) == w);
            assert(flat_rows(done) + row =~= Seq::new(n as nat, |k: int| k));
            assert forall|j: int| 0 <= j < done.len() implies (#[trigger] done[j]).len() > 0
                && row_fits(widths, done[j], max_width) by {
                if j < done0.len() {
                    assert(done[j] == done0[j]);
                }
            }
            assert forall|j: int| 0 <= j < done.len() - 1 implies row_width(
                widths,
                #[trigger] done[j],
            ) + widths[done[j + 1][0]] > max_width by {
                assert(done[j] == done0[j]);
                if j < done0.len() - 1 {
                    assert(done[j + 1] == done0[j + 1]);
                }
            }
        } else {
            assert(done == done0);
            assert(row == row0.push(i));
            assert(row.drop_last() =~= row0);
            assert(row_width(widths, row) == w0 + w);
            assert(flat_rows(done0) + row0 == Seq::new((n - 1) as nat, |k: int| k));
            assert(flat_rows(done) + row =~= (flat_rows(done0) + row0).push(i));
            assert(flat_rows(done) + row =~= Seq::new(n as nat, |k: int| k));
        }
    }
}

/// Wrapping keeps every category, once and in order, on non-empty rows; a
/// row is no wider than the line unless it holds a single chip; and the
/// wrapping is greedy: a row ends only where its next chip would not fit.
pub proof fn law_ribbon_keeps_every_category(widths: Seq<nat>, max_width: nat)
    ensures
        flat_rows(ribbon_rows(widths, max_width)) == Seq::new(widths.len(), |k: int| k),
        forall|j: int|
            0 <= j < ribbon_rows(widths, max_width).len() ==> (#[trigger] ribbon_rows(
                widths,
                max_width,
            )[j]).len() > 0 && row_fits(widths, ribbon_rows(widths, max_width)[j], max_width),
        forall|j: int|
            0 <= j < ribbon_rows(widths, max_width).len() - 1 ==> row_width(
                widths,
                #[trigger] ribbon_rows(widths, max_width)[j],
            ) + widths[ribbon_rows(widths, max_width)[j + 1][0]] > max_width,
{
    lemma_ribbon_prefix(widths, max_width, widths.len() as int);
    assert(widths.take(widths.len() as int) =~= widths);
    let (done, row, _w) = ribbon_state(widths, max_width);
    if row.len() > 0 {
        let rows = done.push(row);
        assert forall|j: int| 0 <= j < rows.len() - 1 implies row_width(
            widths,
            #[trigger] rows[j],
        ) + widths[rows[j + 1][0]] > max_width by {
            assert(rows[j] == done[j]);
            if j < done.len() - 1 {
                assert(rows[j + 1] == done[j + 1]);
            }
        }
        assert(done.push(row).drop_last() =~= done);
        assert(flat_rows(done.push(row)) =~= flat_rows(done) + row);
        assert forall|j: int| 0 <= j < done.push(row).len() implies (#[trigger] done.push(row)[j]).len()
            > 0 && row_fits(widths, done.push(row)[j], max_width) by {
            if j < done.len() {
                assert(done.push(row)[j] == done[j]);
            }
        }
    } else {
        assert(flat_rows(done) + row =~= flat_rows(done));
    }
}

} // verus!
