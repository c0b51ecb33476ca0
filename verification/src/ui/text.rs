//! Text shaping for fixed-width cells: collapsing white space, fitting text
//! into a number of columns, and the text of an input line.

use vstd::prelude::*;
use crate::strings::{char_count, is_white_space, is_whitespace_char, pad_right, pad_right_string,
    push_char, repeat_char, repeat_string, substring, trim_end, trim_end_string};
use crate::ui::width::{display_width, str_width};

verus! {

/// The white-space separated words of `s`, in order.
pub open spec fn words(s: Seq<char>) -> Seq<Seq<char>>
    decreases s.len(),
{
    if s.len() == 0 {
        seq![]
    } else {
        let w = words(s.drop_last());
        let c = s.last();
        if is_white_space(c) {
            w
        } else if s.len() >= 2 && !is_white_space(s[s.len() - 2]) {
            w.update(w.len() - 1, w.last().push(c))
        } else {
            w.push(seq![c])
        }
    }
}

/// `parts` joined by single spaces.
pub open spec fn join_with_space(parts: Seq<Seq<char>>) -> Seq<char>
    decreases parts.len(),
{
    if parts.len() == 0 {
        seq![]
    } else if parts.len() == 1 {
        parts[0]
    } else {
        join_with_space(parts.drop_last()) + seq![' '] + parts.last()
    }
}

proof fn lemma_words_end_in_word(s: Seq<char>)
    requires
        s.len() > 0,
        !is_white_space(s.last()),
    ensures
        words(s).len() > 0,
    decreases s.len(),
{
    if s.len() >= 2 && !is_white_space(s[s.len() - 2]) {
        lemma_words_end_in_word(s.drop_last());
    }
}

proof fn lemma_join_extend_last(parts: Seq<Seq<char>>, c: char)
    requires
        parts.len() > 0,
    ensures
        join_with_space(parts.update(parts.len() - 1, parts.last().push(c))) == join_with_space(
            parts,
        ).push(c),
{
    let u = parts.update(parts.len() - 1, parts.last().push(c));
    if parts.len() > 1 {
        assert(u.drop_last() =~= parts.drop_last());
        assert(join_with_space(u) =~= join_with_space(parts).push(c));
    }
}

/// `value` on one line: its words separated by single spaces, as
/// `split_whitespace` and `join(" ")` give it.
pub fn to_single_line(value: &str) -> (r: String)
    ensures
        r@ == join_with_space(words(value@)),
{
    let n = char_count(value);
    let ghost s = value@;
    let mut out = String::new();
    let mut started = false;
    let mut prev_space = true;
    let mut i: usize = 0;
    while i < n
        invariant
            i <= n == s.len(),
            s == value@,
            out@ == join_with_space(words(s.take(i as int))),
            started == (words(s.take(i as int)).len() > 0),
            prev_space == (i == 0 || is_white_space(s[i - 1])),
        decreases n - i,
    {
        let c = value.get_char(i);
        let ghost before = s.take(i as int);
        let ghost after = s.take(i + 1);
        assert(after.drop_last() =~= before);
        assert(after.last() == c);
        if is_whitespace_char(c) {
            prev_space = true;
        } else {
            if prev_space {
                if started {
                    push_char(&mut out, ' ');
                }
                push_char(&mut out, c);
                let ghost w = words(before);
                assert(words(after) == w.push(seq![c]));
                assert(w.push(seq![c]).drop_last() =~= w);
                assert(out@ =~= join_with_space(w.push(seq![c])));
            } else {
                proof {
                    assert(before.len() > 0 && before.last() == s[i - 1]);
                    lemma_words_end_in_word(before);
                    lemma_join_extend_last(words(before), c);
                }
                push_char(&mut out, c);
            }
            started = true;
            prev_space = false;
        }
        i = i + 1;
    }
    assert(s.take(n as int) =~= s);
    out
}

/// How many leading characters of `s`, from index `i` on, can be kept while
/// the kept prefix stays within `limit` columns.
pub open spec fn fit_len(s: Seq<char>, limit: int, i: int) -> int
    decreases s.len() - i,
{
    if 0 <= i < s.len() && display_width(s.take(i)) + display_width(s.subrange(i, i + 1))
        <= limit {
        fit_len(s, limit, i + 1)
    } else {
        i
    }
}

/// `s` fitted into exactly `width` columns: padded with spaces when it fits,
/// otherwise cut, marked with `…`, then padded.
pub open spec fn fitted(s: Seq<char>, width: nat) -> Seq<char> {
    if width == 0 {
        seq![]
    } else if display_width(s) <= width {
        pad_right(s, width)
    } else {
        let t = s.take(fit_len(s, width - 1, 0)).push('…');
        if display_width(t) < width {
            t + repeat_char(' ', (width - display_width(t)) as nat)
        } else {
            t
        }
    }
}

/// `s` fitted into `width` columns without trailing white space.
pub open spec fn truncated(s: Seq<char>, width: nat) -> Seq<char> {
    trim_end(fitted(s, width))
}

proof fn lemma_fit_len_bounds(s: Seq<char>, limit: int, i: int)
    requires
        0 <= i <= s.len(),
    ensures
        i <= fit_len(s, limit, i) <= s.len(),
    decreases s.len() - i,
{
    if i < s.len() && display_width(s.take(i)) + display_width(s.subrange(i, i + 1)) <= limit {
        lemma_fit_len_bounds(s, limit, i + 1);
    }
}

/// Fits `value` into `width` columns: when it fits it is padded with spaces
/// to `width` characters; otherwise it is cut before the first character
/// that would pass `width - 1` columns, `…` is appended, and spaces fill the
/// remaining columns.
///
/// The padding of a cut text is computed once from the width of the text: a
/// space at the end of a string adds exactly one column in `unicode-width`.
pub fn fit_text(value: &str, width: usize) -> (r: String)
    ensures
        r@ == fitted(value@, width as nat),
{
    if width == 0 {
        return String::new();
    }
    if str_width(value) <= width {
        return pad_right_string(value, width);
    }
    let ghost s = value@;
    let limit = width - 1;
    let n = char_count(value);
    let mut result = String::new();
    let mut i: usize = 0;
    proof {
        lemma_fit_len_bounds(s, limit as int, 0);
    }
    while i < n
        invariant
            i <= n == s.len(),
            s == value@,
            result@ == s.take(i as int),
            fit_len(s, limit as int, 0) == fit_len(s, limit as int, i as int),
        ensures
            i <= n,
            result@ == s.take(i as int),
            fit_len(s, limit as int, 0) == i,
        decreases n - i,
    {
        let used = str_width(result.as_str());
        let one = substring(value, i, i + 1);
        let next = str_width(one.as_str());
        if used > limit || next > limit - used {
            assert(fit_len(s, limit as int, i as int) == i as int);
            break;
        }
        push_char(&mut result, value.get_char(i));
        assert(result@ =~= s.take(i + 1));
        i = i + 1;
    }
    push_char(&mut result, '…');
    let w = str_width(result.as_str());
    if w < width {
        let pad = repeat_string(' ', width - w);
        result.append(pad.as_str());
    }
    result
}

/// `value` fitted into `width` columns, without trailing white space.
pub fn truncate_text(value: &str, width: usize) -> (r: String)
    ensures
        r@ == truncated(value@, width as nat),
{
    let fitted_text = fit_text(value, width);
    trim_end_string(fitted_text.as_str())
}

/// The text of an input line: the value (masked with `*` when `mask`), with
/// a `_` cursor mark appended when the cursor is at or past its end; a lone
/// `_` for an empty value.
pub fn render_input_text(value: &str, cursor: usize, mask: bool) -> (r: String)
    ensures
        ({
            let shown = if mask {
                repeat_char('*', value@.len())
            } else {
                value@
            };
            r@ == if shown.len() == 0 {
                seq!['_']
            } else if cursor >= shown.len() {
                shown.push('_')
            } else {
                shown
            }
        }),
{
    let n = char_count(value);
    let mut shown = if mask {
        repeat_string('*', n)
    } else {
        String::from_str(value)
    };
    if n == 0 {
        let mut mark = String::new();
        push_char(&mut mark, '_');
        return mark;
    }
    if cursor >= n {
        push_char(&mut shown, '_');
    }
    shown
}

/// The pieces of a line that shows `left` text and right-aligned `right` text.
#[derive(Debug, Clone, PartialEq, Eq)]
pub enum RightAlignedLine {
    /// Only the left text, truncated to the line.
    Left(String),
    /// Only the right text, truncated to the line; the line is too narrow for both.
    Right(String),
    /// The truncated left text, `gap` spaces, then the right text.
    Both { left: String, gap: usize, right: String },
}

/// Lays out `left` and right-aligned `right` text on a line `width` columns wide.
///
/// With no right text the left text is truncated to the line. When the right
/// text needs the whole line (`width` at most its width plus one) it is
/// truncated to the line alone. Otherwise the left text is truncated to
/// leave one column and the right text, and the gap between them makes up
/// the rest of the line.
pub fn line_with_right_parts(left: &str, right: &str, width: usize) -> (r: RightAlignedLine)
    ensures
        right@.len() == 0 ==> (r matches RightAlignedLine::Left(t) && t@ == truncated(
            left@,
            width as nat,
        )),
        right@.len() > 0 && width <= display_width(right@) + 1 ==> (
        r matches RightAlignedLine::Right(t) && t@ == truncated(right@, width as nat)),
        right@.len() > 0 && width > display_width(right@) + 1 ==> (
        r matches RightAlignedLine::Both { left: l, gap, right: rt } && l@ == truncated(
            left@,
            (width - display_width(right@) - 1) as nat,
        ) && rt@ == right@ && gap == if display_width(l@) + display_width(right@) < width {
            width - display_width(l@) - display_width(right@)
        } else {
            0
        }),
{
    if char_count(right) == 0 {
        return RightAlignedLine::Left(truncate_text(left, width));
    }
    let right_width = str_width(right);
    if width <= right_width || width - right_width == 1 {
        return RightAlignedLine::Right(truncate_text(right, width));
    }
    let max_left_width = width - right_width - 1;
    let left_text = truncate_text(left, max_left_width);
    let left_width = str_width(left_text.as_str());
    let gap = if left_width >= width {
        0
    } else if width - left_width > right_width {
        width - left_width - right_width
    } else {
        0
    };
    RightAlignedLine::Both { left: left_text, gap, right: String::from_str(right) }
}

/// Every word is non-empty and holds no white space.
proof fn lemma_words_are_words(s: Seq<char>)
    ensures
        forall|j: int|
            0 <= j < words(s).len() ==> (#[trigger] words(s)[j]).len() > 0 && forall|k: int|
                0 <= k < words(s)[j].len() ==> !is_white_space(#[trigger] words(s)[j][k]),
    decreases s.len(),
{
    if s.len() > 0 {
        lemma_words_are_words(s.drop_last());
        let w = words(s.drop_last());
        let c = s.last();
        if !is_white_space(c) && s.len() >= 2 && !is_white_space(s[s.len() - 2]) {
            lemma_words_end_in_word(s.drop_last());
            let u = w.update(w.len() - 1, w.last().push(c));
            assert forall|j: int| 0 <= j < u.len() implies (#[trigger] u[j]).len() > 0 && forall|
                k: int,
            | 0 <= k < u[j].len() ==> !is_white_space(#[trigger] u[j][k]) by {
                if j < w.len() - 1 {
                    assert(u[j] == w[j]);
                }
            }
        } else if !is_white_space(c) {
            let u = w.push(seq![c]);
            assert forall|j: int| 0 <= j < u.len() implies (#[trigger] u[j]).len() > 0 && forall|
                k: int,
            | 0 <= k < u[j].len() ==> !is_white_space(#[trigger] u[j][k]) by {
                if j < w.len() {
                    assert(u[j] == w[j]);
                }
            }
        }
    }
}

/// Joining non-empty words without white space puts white space only
/// between two words: a single space with a word character on each side.
proof fn lemma_join_spacing(parts: Seq<Seq<char>>)
    requires
        forall|j: int|
            0 <= j < parts.len() ==> (#[trigger] parts[j]).len() > 0 && forall|k: int|
                0 <= k < parts[j].len() ==> !is_white_space(#[trigger] parts[j][k]),
    ensures
        parts.len() > 0 ==> join_with_space(parts).len() > 0,
        forall|i: int|
            0 <= i < join_with_space(parts).len() && is_white_space(
                #[trigger] join_with_space(parts)[i],
            ) ==> {
                &&& join_with_space(parts)[i] == ' '
                &&& 0 < i < join_with_space(parts).len() - 1
                &&& !is_white_space(join_with_space(parts)[i - 1])
                &&& !is_white_space(join_with_space(parts)[i + 1])
            },
    decreases parts.len(),
{
    if parts.len() > 1 {
        let init = parts.drop_last();
        lemma_join_spacing(init);
        let a = join_with_space(init);
        let b = parts.last();
        let r = join_with_space(parts);
        assert(r == a + seq![' '] + b);
        assert forall|i: int| 0 <= i < r.len() && is_white_space(#[trigger] r[i]) implies {
            &&& r[i] == ' '
            &&& 0 < i < r.len() - 1
            &&& !is_white_space(r[i - 1])
            &&& !is_white_space(r[i + 1])
        } by {
            if i < a.len() {
                assert(r[i] == a[i]);
                if i + 1 < a.len() {
                    assert(r[i + 1] == a[i + 1]);
                }
                if i > 0 {
                    assert(r[i - 1] == a[i - 1]);
                }
            } else if i == a.len() {
                assert(r[i - 1] == a[a.len() - 1]);
                assert(r[i + 1] == b[0]);
            } else {
                assert(r[i] == b[i - a.len() - 1]);
            }
        }
    } else if parts.len() == 1 {
        assert forall|i: int| 0 <= i < join_with_space(parts).len() implies !is_white_space(
            #[trigger] join_with_space(parts)[i],
        ) by {
            assert(join_with_space(parts)[i] == parts[0][i]);
        }
    }
}

/// A text on one line has no white space at its ends and no white space
/// besides single spaces between words.
pub proof fn law_single_line_spacing(s: Seq<char>)
    ensures
        ({
            let r = join_with_space(words(s));
            forall|i: int|
                0 <= i < r.len() && is_white_space(#[trigger] r[i]) ==> {
                    &&& r[i] == ' '
                    &&& 0 < i < r.len() - 1
                    &&& !is_white_space(r[i - 1])
                    &&& !is_white_space(r[i + 1])
                }
        }),
{
    lemma_words_are_words(s);
    lemma_join_spacing(words(s));
}

/// The words of two texts with white space between them are the words of the
/// first followed by those of the second.
proof fn lemma_words_split(a: Seq<char>, c: char, b: Seq<char>)
    requires
        is_white_space(c),
    ensures
        words(a + seq![c] + b) == words(a) + words(b),
    decreases b.len(),
{
    let s = a + seq![c] + b;
    if b.len() == 0 {
        assert(s.drop_last() =~= a);
        assert(words(a) + words(b) =~= words(a));
    } else {
        let b0 = b.drop_last();
        lemma_words_split(a, c, b0);
        assert(s.drop_last() =~= a + seq![c] + b0);
        let x = b.last();
        assert(s.last() == x);
        if is_white_space(x) {
            assert(words(a) + words(b) =~= words(a) + words(b0));
        } else if b.len() >= 2 && !is_white_space(b[b.len() - 2]) {
            assert(s[s.len() - 2] == b[b.len() - 2]);
            assert(b0.last() == b[b.len() - 2]);
            lemma_words_end_in_word(b0);
            let wa = words(a);
            let wb = words(b0);
            assert((wa + wb).update((wa + wb).len() - 1, (wa + wb).last().push(x)) =~= wa + wb.update(
                wb.len() - 1,
                wb.last().push(x),
            ));
        } else {
            if b.len() >= 2 {
                assert(s[s.len() - 2] == b[b.len() - 2]);
            } else {
                assert(s[s.len() - 2] == c);
            }
            assert((words(a) + words(b0)).push(seq![x]) =~= words(a) + words(b0).push(seq![x]));
        }
    }
}

/// Joining two lists of parts puts one space between their joins, unless one
/// of them is empty.
proof fn lemma_join_concat(p: Seq<Seq<char>>, q: Seq<Seq<char>>)
    ensures
        join_with_space(p + q) == if p.len() == 0 {
            join_with_space(q)
        } else if q.len() == 0 {
            join_with_space(p)
        } else {
            join_with_space(p) + seq![' '] + join_with_space(q)
        },
    decreases q.len(),
{
    if p.len() == 0 {
        assert(p + q =~= q);
    } else if q.len() == 0 {
        assert(p + q =~= p);
    } else if q.len() == 1 {
        assert((p + q).drop_last() =~= p);
        assert((p + q).last() == q[0]);
    } else {
        let q0 = q.drop_last();
        lemma_join_concat(p, q0);
        assert((p + q).drop_last() =~= p + q0);
        assert((p + q).last() == q.last());
        assert(join_with_space(p + q) =~= join_with_space(p) + seq![' '] + join_with_space(q));
    }
}

/// The words of a text without white space: the text itself, or none when
/// it is empty.
proof fn lemma_words_of_word(s: Seq<char>)
    requires
        forall|i: int| 0 <= i < s.len() ==> !is_white_space(#[trigger] s[i]),
    ensures
        words(s) == if s.len() == 0 {
            Seq::<Seq<char>>::empty()
        } else {
            seq![s]
        },
    decreases s.len(),
{
    if s.len() > 0 {
        let t = s.drop_last();
        lemma_words_of_word(t);
        assert(s.last() == s[s.len() - 1]);
        if s.len() >= 2 {
            assert(s[s.len() - 2] == t.last());
            assert(t.push(s.last()) =~= s);
            assert(seq![t].update(0, t.push(s.last())) =~= seq![s]);
        } else {
            assert(seq![s.last()] =~= s);
        }
    }
}

/// A text on one line keeps the text's words and puts exactly one space
/// where white space stood between two of them: at any white-space character
/// the text splits into the line of what comes before and the line of what
/// comes after, joined by one space when both hold a word.
pub proof fn law_single_line_splits_at_white_space(a: Seq<char>, c: char, b: Seq<char>)
    requires
        is_white_space(c),
    ensures
        ({
            let x = join_with_space(words(a));
            let y = join_with_space(words(b));
            join_with_space(words(a + seq![c] + b)) == if x.len() == 0 {
                y
            } else if y.len() == 0 {
                x
            } else {
                x + seq![' '] + y
            }
        }),
{
    lemma_words_split(a, c, b);
    lemma_join_concat(words(a), words(b));
    lemma_words_are_words(a);
    lemma_words_are_words(b);
    lemma_join_spacing(words(a));
    lemma_join_spacing(words(b));
}

/// A text without white space is its own line, and a text of white space
/// alone gives an empty line.
pub proof fn law_single_line_of_one_word(s: Seq<char>)
    ensures
        (forall|i: int| 0 <= i < s.len() ==> !is_white_space(#[trigger] s[i])) ==> join_with_space(
            words(s),
        ) == s,
        (forall|i: int| 0 <= i < s.len() ==> is_white_space(#[trigger] s[i])) ==> join_with_space(
            words(s),
        ).len() == 0,
{
    if forall|i: int| 0 <= i < s.len() ==> !is_white_space(#[trigger] s[i]) {
        lemma_words_of_word(s);
    }
    if forall|i: int| 0 <= i < s.len() ==> is_white_space(#[trigger] s[i]) {
        lemma_words_of_spaces(s);
    }
}

/// A text of white space alone has no words.
proof fn lemma_words_of_spaces(s: Seq<char>)
    requires
        forall|i: int| 0 <= i < s.len() ==> is_white_space(#[trigger] s[i]),
    ensures
        words(s).len() == 0,
    decreases s.len(),
{
    if s.len() > 0 {
        lemma_words_of_spaces(s.drop_last());
        assert(s.last() == s[s.len() - 1]);
    }
}

/// The part of a text that fits: from `i` on, characters are kept one after
/// another while the kept prefix and the next character together stay within
/// `limit` columns; the first character that would pass it, and all after it,
/// are cut.
pub proof fn law_fit_len_keeps_longest_fitting_prefix(s: Seq<char>, limit: int, i: int)
    requires
        0 <= i <= s.len(),
    ensures
        ({
            let k = fit_len(s, limit, i);
            &&& i <= k <= s.len()
            &&& forall|j: int|
                i <= j < k ==> #[trigger] display_width(s.take(j)) + display_width(
                    s.subrange(j, j + 1),
                ) <= limit
            &&& k < s.len() ==> display_width(s.take(k)) + display_width(s.subrange(k, k + 1))
                > limit
        }),
    decreases s.len() - i,
{
    if i < s.len() && display_width(s.take(i)) + display_width(s.subrange(i, i + 1)) <= limit {
        law_fit_len_keeps_longest_fitting_prefix(s, limit, i + 1);
    }
}

/// A text that fits in `width` columns is padded with spaces to `width`
/// characters; one that does not is cut to the characters that fit in one
/// column less, marked with `…`, and followed by spaces only.
pub proof fn law_fitted_shape(s: Seq<char>, width: nat)
    requires
        width > 0,
    ensures
        display_width(s) <= width ==> fitted(s, width) == pad_right(s, width),
        display_width(s) > width ==> {
            let k = fit_len(s, width - 1, 0);
            let t = fitted(s, width);
            &&& t.take(k + 1) == s.take(k).push('…')
            &&& forall|j: int| k + 1 <= j < t.len() ==> #[trigger] t[j] == ' '
        },
{
    if display_width(s) > width {
        lemma_fit_len_bounds(s, width - 1, 0);
        let k = fit_len(s, width - 1, 0);
        let u = s.take(k).push('…');
        let t = fitted(s, width);
        if display_width(u) < width {
            assert(t.take(k + 1) =~= u);
        } else {
            assert(t.take(k + 1) =~= u);
        }
    }
}

/// Truncated text never ends in white space and is a prefix of the fitted text.
pub proof fn law_truncated_has_no_trailing_space(s: Seq<char>, width: nat)
    ensures
        truncated(s, width).len() > 0 ==> !is_white_space(truncated(s, width).last()),
        truncated(s, width) == fitted(s, width).take(truncated(s, width).len() as int),
{
    crate::strings::law_trim_end(fitted(s, width));
}

} // verus!
