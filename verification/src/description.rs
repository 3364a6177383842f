//! Descriptions from documentation comments: the lines of a comment, each without the one space
//! that follows `///` and without trailing whitespace, with blank lines at either end dropped,
//! joined by newlines.
use vstd::prelude::*;

verus! {

/// Whether `c` has the Unicode `White_Space` property, which `char::is_whitespace` tests.
pub open spec fn is_white_space(c: char) -> bool {
    let v = c as u32;
    ||| 0x09 <= v <= 0x0D
    ||| v == 0x20
    ||| v == 0x85
    ||| v == 0xA0
    ||| v == 0x1680
    ||| 0x2000 <= v <= 0x200A
    ||| v == 0x2028
    ||| v == 0x2029
    ||| v == 0x202F
    ||| v == 0x205F
    ||| v == 0x3000
}

/// `s` without its trailing whitespace.
pub open spec fn trim_end_chars(s: Seq<char>) -> Seq<char>
    decreases s.len(),
{
    if s.len() > 0 && is_white_space(s.last()) {
        trim_end_chars(s.drop_last())
    } else {
        s
    }
}

/// One documentation line as a description line: without one leading space, if it has one, and
/// without trailing whitespace.
pub open spec fn doc_line(s: Seq<char>) -> Seq<char> {
    let rest = if s.len() > 0 && s[0] == ' ' {
        s.drop_first()
    } else {
        s
    };
    trim_end_chars(rest)
}

/// `lines` without its leading empty lines.
pub open spec fn drop_leading_empty(lines: Seq<Seq<char>>) -> Seq<Seq<char>>
    decreases lines.len(),
{
    if lines.len() > 0 && lines[0].len() == 0 {
        drop_leading_empty(lines.drop_first())
    } else {
        lines
    }
}

/// `lines` without its trailing empty lines.
pub open spec fn drop_trailing_empty(lines: Seq<Seq<char>>) -> Seq<Seq<char>>
    decreases lines.len(),
{
    if lines.len() > 0 && lines.last().len() == 0 {
        drop_trailing_empty(lines.drop_last())
    } else {
        lines
    }
}

/// The description lines of the documentation lines `lines`.
pub open spec fn description_lines(lines: Seq<Seq<char>>) -> Seq<Seq<char>> {
    drop_trailing_empty(drop_leading_empty(lines.map_values(|l: Seq<char>| doc_line(l))))
}

/// `lines` joined by newlines.
pub open spec fn join_lines(lines: Seq<Seq<char>>) -> Seq<char>
    decreases lines.len(),
{
    if lines.len() == 0 {
        Seq::empty()
    } else if lines.len() == 1 {
        lines[0]
    } else {
        join_lines(lines.drop_last()) + seq!['\n'] + lines.last()
    }
}

/// The characters of each string of `lines`.
pub open spec fn chars_of_lines(lines: Seq<&str>) -> Seq<Seq<char>> {
    lines.map_values(|l: &str| l@)
}

/// `String::push_str`: appends `s` to the end of `target`.
#[verifier::external_body]
fn push_str(target: &mut String, s: &str)
    ensures
        final(target)@ == old(target)@ + s@,
{
    target.push_str(s);
}

/// Whether `c` is whitespace, as `char::is_whitespace` decides.
pub fn is_whitespace(c: char) -> (r: bool)
    ensures
        r == is_white_space(c),
{
    let v = c as u32;
    (0x09 <= v && v <= 0x0D) || v == 0x20 || v == 0x85 || v == 0xA0 || v == 0x1680 || (0x2000
        <= v && v <= 0x200A) || v == 0x2028 || v == 0x2029 || v == 0x202F || v == 0x205F || v
        == 0x3000
}

/// Trimming the end of `s` keeps its first `k` characters, when those after `k` are whitespace
/// and the one before is not.
proof fn lemma_trim_end_at(s: Seq<char>, k: int)
    requires
        0 <= k <= s.len(),
        forall|j: int| k <= j < s.len() ==> is_white_space(#[trigger] s[j]),
        k == 0 || !is_white_space(s[k - 1]),
    ensures
        trim_end_chars(s) == s.subrange(0, k),
    decreases s.len(),
{
    if s.len() > k {
        lemma_trim_end_at(s.drop_last(), k);
        assert(s.drop_last().subrange(0, k) =~= s.subrange(0, k));
    } else {
        assert(s.subrange(0, k) =~= s);
    }
}

/// Dropping the leading empty lines of `lines` keeps them from `k` on, when those before `k`
/// are empty and the one at `k` is not.
proof fn lemma_drop_leading_at(lines: Seq<Seq<char>>, k: int)
    requires
        0 <= k <= lines.len(),
        forall|j: int| 0 <= j < k ==> (#[trigger] lines[j]).len() == 0,
        k == lines.len() || lines[k].len() > 0,
    ensures
        drop_leading_empty(lines) == lines.subrange(k, lines.len() as int),
    decreases k,
{
    if k > 0 {
        lemma_drop_leading_at(lines.drop_first(), k - 1);
        assert(lines.drop_first().subrange(k - 1, lines.len() - 1) =~= lines.subrange(
            k,
            lines.len() as int,
        ));
    } else {
        assert(lines.subrange(0, lines.len() as int) =~= lines);
    }
}

/// Dropping the trailing empty lines of `lines` keeps its first `k`, when those from `k` on are
/// empty and the one before `k` is not.
proof fn lemma_drop_trailing_at(lines: Seq<Seq<char>>, k: int)
    requires
        0 <= k <= lines.len(),
        forall|j: int| k <= j < lines.len() ==> (#[trigger] lines[j]).len() == 0,
        k == 0 || lines[k - 1].len() > 0,
    ensures
        drop_trailing_empty(lines) == lines.subrange(0, k),
    decreases lines.len(),
{
    if lines.len() > k {
        lemma_drop_trailing_at(lines.drop_last(), k);
        assert(lines.drop_last().subrange(0, k) =~= lines.subrange(0, k));
    } else {
        assert(lines.subrange(0, k) =~= lines);
    }
}

/// Trimming the end of a line keeps a prefix of it that is empty or ends in a character that is
/// not whitespace, and removes only whitespace.
pub proof fn law_trim_end_removes_trailing_whitespace_only(t: Seq<char>)
    ensures
        exists|k: int|
            0 <= k <= t.len() && trim_end_chars(t) == t.subrange(0, k) && (k == 0
                || !is_white_space(t[k - 1])) && (forall|j: int|
                k <= j < t.len() ==> is_white_space(#[trigger] t[j])),
    decreases t.len(),
{
    if t.len() > 0 && is_white_space(t.last()) {
        law_trim_end_removes_trailing_whitespace_only(t.drop_last());
        let k = choose|k: int|
            0 <= k <= t.drop_last().len() && trim_end_chars(t.drop_last()) == t.drop_last().subrange(
                0,
                k,
            ) && (k == 0 || !is_white_space(t.drop_last()[k - 1])) && (forall|j: int|
                k <= j < t.drop_last().len() ==> is_white_space(#[trigger] t.drop_last()[j]));
        assert(t.drop_last().subrange(0, k) =~= t.subrange(0, k));
        assert forall|j: int| k <= j < t.len() implies is_white_space(#[trigger] t[j]) by {
            if j < t.len() - 1 {
                assert(t.drop_last()[j] == t[j]);
            }
        }
        if k > 0 {
            assert(t.drop_last()[k - 1] == t[k - 1]);
        }
    } else {
        assert(t.subrange(0, t.len() as int) =~= t);
    }
}

/// A documentation line loses exactly the one space that follows `///`, if it starts with one,
/// and its trailing whitespace.
pub proof fn law_doc_line_drops_one_leading_space(t: Seq<char>)
    ensures
        doc_line(seq![' '] + t) == trim_end_chars(t),
        (t.len() == 0 || t[0] != ' ') ==> doc_line(t) == trim_end_chars(t),
{
    assert((seq![' '] + t).drop_first() =~= t);
}

/// Blank lines at the start or the end of a comment leave no trace, and a comment whose first
/// and last lines hold text keeps all its lines.
pub proof fn law_blank_ends_are_dropped(lines: Seq<Seq<char>>)
    ensures
        drop_leading_empty(seq![Seq::<char>::empty()] + lines) == drop_leading_empty(lines),
        drop_trailing_empty(lines.push(Seq::<char>::empty())) == drop_trailing_empty(lines),
        lines.len() > 0 && lines[0].len() > 0 ==> drop_leading_empty(lines) == lines,
        lines.len() > 0 && lines.last().len() > 0 ==> drop_trailing_empty(lines) == lines,
{
    assert((seq![Seq::<char>::empty()] + lines).drop_first() =~= lines);
    assert(lines.push(Seq::<char>::empty()).drop_last() =~= lines);
}

/// Joining lines puts exactly one newline between each line and the next: one line is itself,
/// and one more line adds a newline and that line.
pub proof fn law_lines_are_joined_by_newlines(lines: Seq<Seq<char>>, line: Seq<char>)
    ensures
        join_lines(seq![line]) == line,
        lines.len() > 0 ==> join_lines(lines.push(line)) == join_lines(lines) + seq!['\n'] + line,
{
    assert(lines.push(line).drop_last() =~= lines);
}

/// One documentation line as a description line.
pub fn trim_doc_line<'a>(line: &'a str) -> (r: &'a str)
    ensures
        r@ == doc_line(line@),
{
    let len = line.unicode_len();
    let start: usize = if len > 0 && line.get_char(0) == ' ' {
        1
    } else {
        0
    };
    let ghost rest = if line@.len() > 0 && line@[0] == ' ' {
        line@.drop_first()
    } else {
        line@
    };
    assert(rest =~= line@.subrange(start as int, len as int));
    let mut end: usize = len;
    while end > start && is_whitespace(line.get_char(end - 1))
        invariant
            start <= end <= len,
            len == line@.len(),
            forall|j: int| end <= j < len ==> is_white_space(#[trigger] line@[j]),
        decreases end,
    {
        end = end - 1;
    }
    proof {
        let k = (end - start) as int;
        assert forall|j: int| k <= j < rest.len() implies is_white_space(#[trigger] rest[j]) by {
            assert(rest[j] == line@[start + j]);
        }
        if k > 0 {
            assert(rest[k - 1] == line@[end - 1]);
        }
        lemma_trim_end_at(rest, k);
        assert(rest.subrange(0, k) =~= line@.subrange(start as int, end as int));
    }
    line.substring_char(start, end)
}

/// The description of a documented item from the lines of its documentation comment: the
/// description lines joined by newlines, or nothing when no line holds text.
pub fn description(doc_lines: &Vec<&str>) -> (r: Option<String>)
    ensures
        r is None <==> description_lines(chars_of_lines(doc_lines@)).len() == 0,
        r matches Some(s) ==> s@ == join_lines(description_lines(chars_of_lines(doc_lines@))),
{
    let ghost trimmed_view = chars_of_lines(doc_lines@).map_values(|l: Seq<char>| doc_line(l));
    let mut lines: Vec<&str> = Vec::new();
    let mut i: usize = 0;
    while i < doc_lines.len()
        invariant
            i <= doc_lines.len(),
            lines.len() == i,
            trimmed_view.len() == doc_lines.len(),
            trimmed_view == chars_of_lines(doc_lines@).map_values(|l: Seq<char>| doc_line(l)),
            forall|j: int| 0 <= j < i ==> (#[trigger] lines@[j])@ == trimmed_view[j],
        decreases doc_lines.len() - i,
    {
        let line = trim_doc_line(doc_lines[i]);
        lines.push(line);
        i = i + 1;
    }
    let n = lines.len();
    let mut lo: usize = 0;
    while lo < n && lines[lo].unicode_len() == 0
        invariant
            lo <= n,
            n == lines.len(),
            forall|j: int| 0 <= j < lo ==> (#[trigger] lines@[j])@.len() == 0,
        decreases n - lo,
    {
        lo = lo + 1;
    }
    let mut hi: usize = n;
    while hi > lo && lines[hi - 1].unicode_len() == 0
        invariant
            lo <= hi <= n,
            n == lines.len(),
            forall|j: int| hi <= j < n ==> (#[trigger] lines@[j])@.len() == 0,
        decreases hi,
    {
        hi = hi - 1;
    }
    let ghost all = trimmed_view;
    proof {
        assert forall|j: int| 0 <= j < lo implies (#[trigger] all[j]).len() == 0 by {
            assert(lines@[j]@ == all[j]);
        }
        if lo < n {
            assert(lines@[lo as int]@ == all[lo as int]);
        }
        lemma_drop_leading_at(all, lo as int);
        let front = all.subrange(lo as int, n as int);
        assert forall|j: int| (hi - lo) <= j < front.len() implies (#[trigger] front[j]).len()
            == 0 by {
            assert(lines@[lo + j]@ == all[lo + j]);
        }
        if hi > lo {
            assert(lines@[hi - 1]@ == all[hi - 1]);
            assert(front[hi - lo - 1] == all[hi - 1]);
        }
        lemma_drop_trailing_at(front, (hi - lo) as int);
        assert(front.subrange(0, (hi - lo) as int) =~= all.subrange(lo as int, hi as int));
    }
    let ghost kept = all.subrange(lo as int, hi as int);
    assert(description_lines(chars_of_lines(doc_lines@)) == kept);
    if lo == hi {
        return None;
    }
    let mut text = String::new();
    push_str(&mut text, lines[lo]);
    proof {
        assert(lines@[lo as int]@ == all[lo as int]);
        assert(kept.subrange(0, 1) =~= seq![all[lo as int]]);
    }
    let mut k: usize = lo + 1;
    while k < hi
        invariant
            lo < k <= hi <= n,
            n == lines.len(),
            all.len() == n,
            kept == all.subrange(lo as int, hi as int),
            forall|j: int| 0 <= j < n ==> (#[trigger] lines@[j])@ == all[j],
            text@ == join_lines(kept.subrange(0, k - lo)),
        decreases hi - k,
    {
        proof {
            reveal_strlit("\n");
        }
        push_str(&mut text, "\n");
        push_str(&mut text, lines[k]);
        proof {
            let prefix = kept.subrange(0, k + 1 - lo);
            assert(prefix.drop_last() =~= kept.subrange(0, k - lo));
            assert(prefix.last() == all[k as int]);
            assert(lines@[k as int]@ == all[k as int]);
        }
        k = k + 1;
    }
    assert(kept.subrange(0, hi - lo) =~= kept);
    Some(text)
}

} // verus!
