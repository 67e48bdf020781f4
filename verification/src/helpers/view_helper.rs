//! Text helpers for the pages: shortening a paste to its first lines.
use crate::text::{
    char_is_whitespace, chars_of, is_whitespace_char, lowercased, push_range, str_to_lowercase, string_of,
    string_of_range, trim_end_len, trim_end_view, trim_start_view,
};
pub use crate::helpers::time::format_timestamp;
use crate::helpers::time::{calendar_span, parts_of, rounded_span, span_between, span_rounded, RoundRelative, SpanParts, TimeUnit};
use vstd::prelude::*;

verus! {

/// The position of the first `c` in `s`, or -1 when there is none.
pub open spec fn first_index_of(s: Seq<char>, c: char) -> int
    decreases s.len(),
{
    if s.len() == 0 {
        -1
    } else if s[0] == c {
        0
    } else {
        let r = first_index_of(s.drop_first(), c);
        if r < 0 {
            -1
        } else {
            r + 1
        }
    }
}

/// `s` without one trailing carriage return.
pub open spec fn strip_cr(s: Seq<char>) -> Seq<char> {
    if s.len() > 0 && s.last() == '\r' {
        s.drop_last()
    } else {
        s
    }
}

/// The lines of `s`, as `str::lines` yields them: split at each '\n', with a '\r' right before
/// the '\n' removed, and no empty line after a final '\n'.
pub open spec fn lines_of(s: Seq<char>) -> Seq<Seq<char>>
    decreases s.len(),
{
    if s.len() == 0 {
        Seq::empty()
    } else {
        let i = first_index_of(s, '\n');
        proof {
            lemma_first_index_bound(s, '\n');
        }
        if i < 0 {
            seq![s]
        } else {
            seq![strip_cr(s.subrange(0, i))] + lines_of(s.subrange(i + 1, s.len() as int))
        }
    }
}

/// The lines `ls` joined by '\n'.
pub open spec fn join_lines(ls: Seq<Seq<char>>) -> Seq<char>
    decreases ls.len(),
{
    if ls.len() == 0 {
        Seq::empty()
    } else if ls.len() == 1 {
        ls[0]
    } else {
        join_lines(ls.drop_last()) + seq!['\n'] + ls.last()
    }
}

/// The first `n` lines of `s`, joined, with the `n`-th line marked by "..." when more follow.
pub open spec fn linewise_truncated(s: Seq<char>, n: nat) -> Seq<char>
    recommends
        n >= 1,
{
    let ls = lines_of(s);
    let k = (n - 1) as nat;
    let head = join_lines(ls.take(if k <= ls.len() { k as int } else { ls.len() as int }));
    if ls.len() > k + 1 {
        head + seq!['\n'] + trim_end_view(ls[k as int]) + "..."@
    } else if ls.len() == k + 1 {
        head + seq!['\n'] + ls[k as int]
    } else {
        head
    }
}

pub proof fn lemma_first_index_bound(s: Seq<char>, c: char)
    ensures
        -1 <= first_index_of(s, c) < s.len(),
        first_index_of(s, c) >= 0 ==> s[first_index_of(s, c)] == c,
    decreases s.len(),
{
    if s.len() > 0 {
        lemma_first_index_bound(s.drop_first(), c);
    }
}

proof fn lemma_first_index_no_char(s: Seq<char>, c: char)
    requires
        forall|i: int| 0 <= i < s.len() ==> s[i] != c,
    ensures
        first_index_of(s, c) == -1,
    decreases s.len(),
{
    if s.len() > 0 {
        lemma_first_index_no_char(s.drop_first(), c);
    }
}

proof fn lemma_first_index_after(a: Seq<char>, c: char, r: Seq<char>)
    requires
        forall|i: int| 0 <= i < a.len() ==> a[i] != c,
    ensures
        first_index_of(a + seq![c] + r, c) == a.len(),
    decreases a.len(),
{
    if a.len() > 0 {
        lemma_first_index_after(a.drop_first(), c, r);
        assert((a + seq![c] + r).drop_first() =~= a.drop_first() + seq![c] + r);
    }
}

/// The lines of `s`, as `str::lines` yields them.
pub fn split_lines(s: &Vec<char>) -> (ls: Vec<Vec<char>>)
    ensures
        ls@.map_values(|l: Vec<char>| l@) == lines_of(s@),
{
    let mut out: Vec<Vec<char>> = Vec::new();
    let mut cur: Vec<char> = Vec::new();
    let mut i: usize = 0;
    let ghost n = s@.len();
    assert(cur@ + s@.subrange(0, s@.len() as int) =~= s@);
    assert(out@.map_values(|l: Vec<char>| l@) + lines_of(s@) =~= lines_of(s@));
    while i < s.len()
        invariant
            i <= s.len(),
            forall|k: int| 0 <= k < cur@.len() ==> cur@[k] != '\n',
            out@.map_values(|l: Vec<char>| l@) + lines_of(cur@ + s@.subrange(i as int, s@.len() as int))
                == lines_of(s@),
        decreases s.len() - i,
    {
        let c = s[i];
        let ghost rest = s@.subrange(i + 1, s@.len() as int);
        assert(s@.subrange(i as int, s@.len() as int) =~= seq![c] + rest);
        if c == '\n' {
            proof {
                lemma_first_index_after(cur@, '\n', rest);
                let x = cur@ + seq!['\n'] + rest;
                assert(cur@ + s@.subrange(i as int, s@.len() as int) =~= x);
                assert(x.subrange(0, cur@.len() as int) =~= cur@);
                assert(x.subrange(cur@.len() as int + 1, x.len() as int) =~= rest);
            }
            let ghost old_out = out@.map_values(|l: Vec<char>| l@);
            let ghost cv = cur@;
            let mut line = cur;
            if line.len() > 0 && line[line.len() - 1] == '\r' {
                line.pop();
                assert(line@ =~= cv.drop_last());
            }
            let ghost lv = line@;
            assert(lv == strip_cr(cv));
            assert(lines_of(cv + s@.subrange(i as int, s@.len() as int)) == seq![lv] + lines_of(rest));
            out.push(line);
            proof {
                assert(out@.map_values(|l: Vec<char>| l@) =~= old_out.push(lv));
                assert(old_out.push(lv) + lines_of(rest) =~= old_out + (seq![lv] + lines_of(rest)));
            }
            cur = Vec::new();
            assert(cur@ + rest =~= rest);
            assert(out@.map_values(|l: Vec<char>| l@) + lines_of(cur@ + rest) == lines_of(s@));
        } else {
            let ghost cv0 = cur@;
            cur.push(c);
            assert(cur@ + rest =~= cv0 + s@.subrange(i as int, s@.len() as int));
            assert(out@.map_values(|l: Vec<char>| l@) + lines_of(cur@ + rest) == lines_of(s@));
        }
        i = i + 1;
    }
    proof {
        assert(cur@ + s@.subrange(i as int, s@.len() as int) =~= cur@);
        if cur@.len() > 0 {
            lemma_first_index_no_char(cur@, '\n');
        }
    }
    if cur.len() > 0 {
        let ghost cv = cur@;
        out.push(cur);
        proof {
            assert(out@.map_values(|l: Vec<char>| l@) =~= old_map_push(out@.drop_last(), cv));
            assert(lines_of(cv) =~= seq![cv]);
        }
    } else {
        assert(lines_of(cur@) =~= Seq::<Seq<char>>::empty());
    }
    assert(out@.map_values(|l: Vec<char>| l@) =~= lines_of(s@));
    out
}

/// The views of `v` followed by `x`.
pub open spec fn old_map_push(v: Seq<Vec<char>>, x: Seq<char>) -> Seq<Seq<char>> {
    v.map_values(|l: Vec<char>| l@).push(x)
}

/// Appends the characters of `v` to `s`.
fn push_all(s: &mut String, v: &Vec<char>)
    ensures
        final(s)@ == old(s)@ + v@,
{
    push_range(s, v, 0, v.len());
    assert(v@.subrange(0, v@.len() as int) =~= v@);
}

/// The first `n` lines of `s`, joined by '\n'. When more lines follow, the `n`-th is cut of its
/// trailing whitespace and marked with "...".
pub fn linewise_truncate(s: &str, n: usize) -> (r: String)
    requires
        n >= 1,
    ensures
        r@ == linewise_truncated(s@, n as nat),
{
    let ls = split_lines(&chars_of(s));
    let ghost lv = ls@.map_values(|l: Vec<char>| l@);
    let k = n - 1;
    let take = if k <= ls.len() {
        k
    } else {
        ls.len()
    };
    let mut out = String::new();
    let mut i: usize = 0;
    while i < take
        invariant
            i <= take <= ls@.len(),
            lv == ls@.map_values(|l: Vec<char>| l@),
            out@ == join_lines(lv.take(i as int)),
        decreases take - i,
    {
        proof {
            assert(lv.take(i + 1).drop_last() =~= lv.take(i as int));
            assert(lv.take(i + 1).last() == ls@[i as int]@);
            if i == 0 {
                assert(lv.take(1) =~= seq![ls@[0]@]);
                assert(out@ =~= Seq::<char>::empty());
            }
        }
        if i > 0 {
            push_char_ch(&mut out, '\n');
        }
        push_all(&mut out, &ls[i]);
        proof {
            if i == 0 {
                assert(out@ =~= ls@[0]@);
            }
        }
        i = i + 1;
    }
    if ls.len() > k {
        push_char_ch(&mut out, '\n');
        if ls.len() > k + 1 {
            let j = trim_end_len(&ls[k]);
            push_range(&mut out, &ls[k], 0, j);
            out.append("...");
        } else {
            push_all(&mut out, &ls[k]);
        }
    }
    out
}

/// Appends `c` to `s`.
fn push_char_ch(s: &mut String, c: char)
    ensures
        final(s)@ == old(s)@.push(c),
{
    crate::text::push_char(s, c)
}

/// The position of the first whitespace character of `s`, or its length when it has none.
pub open spec fn first_ws_index(s: Seq<char>) -> int
    decreases s.len(),
{
    if s.len() == 0 {
        0
    } else if is_whitespace_char(s[0]) {
        0
    } else {
        1 + first_ws_index(s.drop_first())
    }
}

/// The first whitespace-separated word of `tag`, or `tag` itself when it has none (what
/// `split_whitespace().next().unwrap_or(tag)` gives).
pub open spec fn first_word(tag: Seq<char>) -> Seq<char> {
    let t = trim_start_view(tag);
    if t.len() == 0 {
        tag
    } else {
        t.take(first_ws_index(t))
    }
}

/// The open elements after reading the inside of one tag (`tag` is what stands between '<' and
/// '>'): a closing tag closes the innermost element; any other tag that does not end in "/>"
/// opens its element, named in lower case.
pub open spec fn apply_tag(stack: Seq<Seq<char>>, tag: Seq<char>) -> Seq<Seq<char>> {
    if tag.len() > 0 && tag[0] == '/' {
        if stack.len() > 0 {
            stack.drop_last()
        } else {
            stack
        }
    } else if tag.len() >= 2 && tag[tag.len() - 2] == '/' && tag[tag.len() - 1] == '>' {
        stack
    } else {
        stack.push(lowercased(first_word(tag)))
    }
}

/// The start of the tag being read and the open elements, after the first `k` characters of
/// `line`, starting from the open elements `stack`.
pub open spec fn scan_line(line: Seq<char>, k: nat, stack: Seq<Seq<char>>) -> (Option<int>, Seq<Seq<char>>)
    decreases k,
{
    if k == 0 {
        (None, stack)
    } else {
        let prev = scan_line(line, (k - 1) as nat, stack);
        let c = line[k - 1];
        if c == '<' {
            (Some(k - 1), prev.1)
        } else if c == '>' {
            match prev.0 {
                Some(start) => (None, apply_tag(prev.1, line.subrange(start + 1, k - 1))),
                None => (None, prev.1),
            }
        } else {
            prev
        }
    }
}

/// The open elements after reading the first `m` lines.
pub open spec fn scan_lines(ls: Seq<Seq<char>>, m: nat) -> Seq<Seq<char>>
    decreases m,
{
    if m == 0 {
        Seq::empty()
    } else {
        scan_line(ls[m - 1], ls[m - 1].len(), scan_lines(ls, (m - 1) as nat)).1
    }
}

/// The closing tags of the open elements, innermost first.
pub open spec fn closing_tags(stack: Seq<Seq<char>>) -> Seq<char>
    decreases stack.len(),
{
    if stack.len() == 0 {
        Seq::empty()
    } else {
        "</"@ + stack.last() + ">"@ + closing_tags(stack.drop_last())
    }
}

/// The first `m` lines, each followed by '\n'.
pub open spec fn lines_with_newlines(ls: Seq<Seq<char>>, m: nat) -> Seq<char>
    decreases m,
{
    if m == 0 {
        Seq::empty()
    } else {
        lines_with_newlines(ls, (m - 1) as nat) + ls[m - 1] + seq!['\n']
    }
}

/// HTML `s` cut to its first `n` lines and one more marked with "...", with the elements left
/// open closed again; unchanged when it has at most `n + 1` lines.
pub open spec fn linewise_truncated_html(s: Seq<char>, n: nat) -> Seq<char> {
    let ls = lines_of(s);
    if ls.len() <= n + 1 {
        s
    } else {
        lines_with_newlines(ls, n) + trim_end_view(ls[n as int]) + "..."@ + closing_tags(
            scan_lines(ls, n),
        )
    }
}

/// A text of at most `n` lines, `n` being at least 2, comes out of `linewise_truncate` as its
/// lines joined again: nothing is cut and no "..." is added.
pub proof fn lemma_short_text_kept(s: Seq<char>, n: nat)
    requires
        n >= 2,
        lines_of(s).len() <= n,
    ensures
        linewise_truncated(s, n) == join_lines(lines_of(s)),
{
    let ls = lines_of(s);
    let k = (n - 1) as nat;
    if ls.len() <= k {
        assert(ls.take(ls.len() as int) =~= ls);
    } else {
        assert(ls.len() == k + 1);
        assert(ls.take(k as int) =~= ls.drop_last());
    }
}

/// The number of line breaks in `s`.
pub open spec fn newline_count(s: Seq<char>) -> nat
    decreases s.len(),
{
    if s.len() == 0 {
        0
    } else {
        newline_count(s.drop_last()) + (if s.last() == '\n' {
            1nat
        } else {
            0nat
        })
    }
}

/// Whether `s` holds no line break.
pub open spec fn no_newline(s: Seq<char>) -> bool {
    forall|k: int| 0 <= k < s.len() ==> s[k] != '\n'
}

proof fn lemma_newline_count_concat(a: Seq<char>, b: Seq<char>)
    ensures
        newline_count(a + b) == newline_count(a) + newline_count(b),
    decreases b.len(),
{
    if b.len() == 0 {
        assert(a + b =~= a);
    } else {
        lemma_newline_count_concat(a, b.drop_last());
        assert((a + b).drop_last() =~= a + b.drop_last());
    }
}

proof fn lemma_no_newline_count(s: Seq<char>)
    requires
        no_newline(s),
    ensures
        newline_count(s) == 0,
    decreases s.len(),
{
    if s.len() > 0 {
        lemma_no_newline_count(s.drop_last());
    }
}

proof fn lemma_first_index_before(s: Seq<char>, c: char)
    ensures
        forall|k: int|
            0 <= k < s.len() && (first_index_of(s, c) < 0 || k < first_index_of(s, c)) ==> s[k]
                != c,
    decreases s.len(),
{
    if s.len() > 0 {
        let t = s.drop_first();
        lemma_first_index_before(t, c);
        assert forall|k: int|
            0 <= k < s.len() && (first_index_of(s, c) < 0 || k < first_index_of(s, c)) implies s[k]
            != c by {
            if k > 0 {
                assert(s[k] == t[k - 1]);
            }
        }
    }
}

proof fn lemma_lines_have_no_newline(s: Seq<char>)
    ensures
        forall|i: int| 0 <= i < lines_of(s).len() ==> no_newline(#[trigger] lines_of(s)[i]),
    decreases s.len(),
{
    if s.len() > 0 {
        let i = first_index_of(s, '\n');
        lemma_first_index_bound(s, '\n');
        lemma_first_index_before(s, '\n');
        if i >= 0 {
            let rest = s.subrange(i + 1, s.len() as int);
            lemma_lines_have_no_newline(rest);
            let head = strip_cr(s.subrange(0, i));
            assert(no_newline(head)) by {
                assert forall|k: int| 0 <= k < head.len() implies head[k] != '\n' by {
                    assert(head[k] == s[k]);
                }
            }
            let ls = lines_of(s);
            assert(ls == seq![head] + lines_of(rest));
            assert forall|j: int| 0 <= j < ls.len() implies no_newline(#[trigger] ls[j]) by {
                if j > 0 {
                    assert(ls[j] == lines_of(rest)[j - 1]);
                }
            }
        }
    }
}

proof fn lemma_single_newline()
    ensures
        newline_count(seq!['\n']) == 1,
{
    let nl = seq!['\n'];
    assert(nl.drop_last() =~= Seq::<char>::empty());
    assert(newline_count(Seq::<char>::empty()) == 0);
    assert(nl.last() == '\n');
}

proof fn lemma_join_newlines(ls: Seq<Seq<char>>)
    requires
        forall|i: int| 0 <= i < ls.len() ==> no_newline(#[trigger] ls[i]),
    ensures
        newline_count(join_lines(ls)) == if ls.len() == 0 {
            0
        } else {
            ls.len() - 1
        },
    decreases ls.len(),
{
    if ls.len() == 1 {
        lemma_no_newline_count(ls[0]);
    } else if ls.len() > 1 {
        let d = ls.drop_last();
        assert forall|i: int| 0 <= i < d.len() implies no_newline(#[trigger] d[i]) by {
            assert(d[i] == ls[i]);
        }
        lemma_join_newlines(d);
        lemma_no_newline_count(ls.last());
        lemma_newline_count_concat(join_lines(d) + seq!['\n'], ls.last());
        lemma_newline_count_concat(join_lines(d), seq!['\n']);
        lemma_single_newline();
    }
}

proof fn lemma_trim_end_no_newline(s: Seq<char>)
    requires
        no_newline(s),
    ensures
        no_newline(trim_end_view(s)),
    decreases s.len(),
{
    if s.len() > 0 && is_whitespace_char(s.last()) {
        let d = s.drop_last();
        assert forall|k: int| 0 <= k < d.len() implies d[k] != '\n' by {
            assert(d[k] == s[k]);
        }
        lemma_trim_end_no_newline(d);
    }
}

/// For `n` of at least 2, `linewise_truncate` yields at most `n` lines: its text holds at most
/// `n - 1` line breaks.
pub proof fn lemma_truncated_line_count(s: Seq<char>, n: nat)
    requires
        n >= 2,
    ensures
        newline_count(linewise_truncated(s, n)) <= n - 1,
{
    let ls = lines_of(s);
    let k = (n - 1) as nat;
    lemma_lines_have_no_newline(s);
    let m = if k <= ls.len() {
        k as int
    } else {
        ls.len() as int
    };
    let taken = ls.take(m);
    assert forall|i: int| 0 <= i < taken.len() implies no_newline(#[trigger] taken[i]) by {
        assert(taken[i] == ls[i]);
    }
    lemma_join_newlines(taken);
    let head = join_lines(taken);
    let nl = seq!['\n'];
    lemma_single_newline();
    if ls.len() > k + 1 {
        let last = trim_end_view(ls[k as int]);
        lemma_trim_end_no_newline(ls[k as int]);
        lemma_no_newline_count(last);
        let dots = "..."@;
        assert(newline_count(dots) == 0) by {
            reveal_strlit("...");
            lemma_no_newline_count(dots);
        }
        lemma_newline_count_concat(head, nl);
        lemma_newline_count_concat(head + nl, last);
        lemma_newline_count_concat(head + nl + last, dots);
    } else if ls.len() == k + 1 {
        lemma_no_newline_count(ls[k as int]);
        lemma_newline_count_concat(head, nl);
        lemma_newline_count_concat(head + nl, ls[k as int]);
    }
}

/// HTML of at most `n + 1` lines comes out of `linewise_truncate_html` unchanged.
pub proof fn lemma_short_html_kept(s: Seq<char>, n: nat)
    requires
        lines_of(s).len() <= n + 1,
    ensures
        linewise_truncated_html(s, n) == s,
{
}

/// The first whitespace-separated word of `v[from..to]`, or all of it when it has none.
fn first_word_of(v: &Vec<char>, from: usize, to: usize) -> (r: String)
    requires
        from <= to <= v.len(),
    ensures
        r@ == first_word(v@.subrange(from as int, to as int)),
{
    let ghost tag = v@.subrange(from as int, to as int);
    let mut a = from;
    while a < to && char_is_whitespace(v[a])
        invariant
            from <= a <= to <= v.len(),
            forall|k: int| from <= k < a ==> is_whitespace_char(#[trigger] v@[k]),
        decreases to - a,
    {
        a = a + 1;
    }
    proof {
        assert forall|k: int| 0 <= k < a - from implies is_whitespace_char(#[trigger] tag[k]) by {
            assert(tag[k] == v@[k + from]);
        }
        if a < to {
            assert(tag[a - from] == v@[a as int]);
        }
        crate::text::lemma_trim_start_skip(tag, a - from);
    }
    let ghost t = tag.subrange(a - from, tag.len() as int);
    if a == to {
        return string_of_range(v, from, to);
    }
    let mut b = a;
    while b < to && !char_is_whitespace(v[b])
        invariant
            a <= b <= to <= v.len(),
            forall|k: int| a <= k < b ==> !is_whitespace_char(#[trigger] v@[k]),
        decreases to - b,
    {
        b = b + 1;
    }
    proof {
        assert(t =~= v@.subrange(a as int, to as int));
        lemma_first_ws_index(t, b - a);
        assert(t.take(b - a) =~= v@.subrange(a as int, b as int));
    }
    string_of_range(v, a, b)
}

proof fn lemma_first_ws_index(t: Seq<char>, j: int)
    requires
        0 <= j <= t.len(),
        forall|k: int| 0 <= k < j ==> !is_whitespace_char(#[trigger] t[k]),
        j == t.len() || is_whitespace_char(t[j]),
    ensures
        first_ws_index(t) == j,
    decreases j,
{
    if j > 0 {
        let d = t.drop_first();
        assert forall|k: int| 0 <= k < j - 1 implies !is_whitespace_char(#[trigger] d[k]) by {
            assert(d[k] == t[k + 1]);
        }
        assert(j - 1 == d.len() || d[j - 1] == t[j]);
        lemma_first_ws_index(d, j - 1);
    } else if t.len() > 0 {
    }
}

/// The open elements, as strings.
pub open spec fn stack_view(v: Seq<String>) -> Seq<Seq<char>> {
    v.map_values(|s: String| s@)
}

/// Reads the tags of one line, updating the open elements.
fn scan_tags(line: &Vec<char>, stack: &mut Vec<String>)
    ensures
        stack_view(final(stack)@) == scan_line(line@, line@.len(), stack_view(old(stack)@)).1,
{
    let ghost start = stack_view(stack@);
    let mut tag_start: Option<usize> = None;
    let mut i: usize = 0;
    while i < line.len()
        invariant
            i <= line.len(),
            (match tag_start {
                Some(t) => Some(t as int),
                None => None,
            }, stack_view(stack@)) == scan_line(line@, i as nat, start),
            tag_start matches Some(t) ==> t < i,
        decreases line.len() - i,
    {
        let c = line[i];
        if c == '<' {
            tag_start = Some(i);
        } else if c == '>' {
            if let Some(st) = tag_start {
                let ghost tag = line@.subrange(st + 1, i as int);
                let ghost before = stack_view(stack@);
                let n = i - st - 1;
                if n > 0 && line[st + 1] == '/' {
                    if stack.len() > 0 {
                        stack.pop();
                        assert(stack_view(stack@) =~= before.drop_last());
                    }
                } else if n >= 2 && line[i - 2] == '/' && line[i - 1] == '>' {
                } else {
                    let word = first_word_of(line, st + 1, i);
                    let lower = str_to_lowercase(word.as_str());
                    stack.push(lower);
                    assert(stack_view(stack@) =~= before.push(lowercased(first_word(tag))));
                }
            }
            tag_start = None;
        }
        i = i + 1;
    }
}

/// HTML `s` cut to its first `n` lines and one more marked with "...", closing again the
/// elements that those lines leave open; `s` itself when it has at most `n + 1` lines.
pub fn linewise_truncate_html(s: &str, n: usize) -> (r: String)
    requires
        n < usize::MAX,
    ensures
        r@ == linewise_truncated_html(s@, n as nat),
{
    let ls = split_lines(&chars_of(s));
    let ghost lv = ls@.map_values(|l: Vec<char>| l@);
    if ls.len() <= n + 1 {
        return crate::models::paste::owned(s);
    }
    let mut out = String::new();
    let mut open_tags: Vec<String> = Vec::new();
    let mut i: usize = 0;
    while i < n
        invariant
            i <= n < ls@.len(),
            lv == ls@.map_values(|l: Vec<char>| l@),
            out@ == lines_with_newlines(lv, i as nat),
            stack_view(open_tags@) == scan_lines(lv, i as nat),
        decreases n - i,
    {
        push_all(&mut out, &ls[i]);
        push_char_ch(&mut out, '\n');
        scan_tags(&ls[i], &mut open_tags);
        i = i + 1;
    }
    let j = trim_end_len(&ls[n]);
    push_range(&mut out, &ls[n], 0, j);
    out.append("...");
    let ghost prefix = out@;
    while open_tags.len() > 0
        invariant
            out@ + closing_tags(stack_view(open_tags@)) == prefix + closing_tags(scan_lines(lv, n as nat)),
        decreases open_tags@.len(),
    {
        let ghost before = stack_view(open_tags@);
        let ghost out0 = out@;
        let tag = open_tags.pop().unwrap();
        assert(stack_view(open_tags@) =~= before.drop_last());
        assert(tag@ == before.last());
        out.append("</");
        out.append(tag.as_str());
        out.append(">");
        assert(out@ + closing_tags(stack_view(open_tags@)) =~= out0 + closing_tags(before));
    }
    assert(out@ =~= out@ + closing_tags(stack_view(open_tags@)));
    out
}

/// `linewise_truncate_html(s, 10)`.
pub fn linewise_truncate_html_10(s: &str) -> (r: String)
    ensures
        r@ == linewise_truncated_html(s@, 10),
{
    linewise_truncate_html(s, 10)
}

/// Whether `s` holds neither '<' nor '>'.
pub open spec fn tag_free(s: Seq<char>) -> bool {
    forall|k: int| 0 <= k < s.len() ==> s[k] != '<' && s[k] != '>'
}

/// The tag `t` written out: '<', `t`, '>'.
pub open spec fn tag_text(t: Seq<char>) -> Seq<char> {
    seq!['<'] + t + seq!['>']
}

proof fn lemma_scan_start_bound(line: Seq<char>, k: nat, st: Seq<Seq<char>>)
    requires
        k <= line.len(),
    ensures
        scan_line(line, k, st).0 matches Some(p) ==> 0 <= p < k && line[p] == '<',
    decreases k,
{
    if k > 0 {
        lemma_scan_start_bound(line, (k - 1) as nat, st);
    }
}

proof fn lemma_scan_plain(line: Seq<char>, i: nat, j: nat, st: Seq<Seq<char>>)
    requires
        i <= j <= line.len(),
        forall|k: int| i <= k < j ==> line[k] != '<' && line[k] != '>',
    ensures
        scan_line(line, j, st) == scan_line(line, i, st),
    decreases j,
{
    if j > i {
        lemma_scan_plain(line, i, (j - 1) as nat, st);
    }
}

proof fn lemma_scan_same_prefix(a: Seq<char>, b: Seq<char>, k: nat, st: Seq<Seq<char>>)
    requires
        k <= a.len(),
        k <= b.len(),
        forall|m: int| 0 <= m < k ==> a[m] == b[m],
    ensures
        scan_line(a, k, st) == scan_line(b, k, st),
    decreases k,
{
    if k > 0 {
        lemma_scan_same_prefix(a, b, (k - 1) as nat, st);
        lemma_scan_start_bound(a, (k - 1) as nat, st);
        if let Some(p) = scan_line(a, (k - 1) as nat, st).0 {
            assert(a.subrange(p + 1, k - 1) =~= b.subrange(p + 1, k - 1));
        }
    }
}

/// Reading `a` and then `b` as one line, where `a` ends outside any tag, gives the open elements
/// that reading `b` gives from those that `a` leaves open; a tag begun in `b` is found at its
/// place after `a`.
pub proof fn lemma_scan_concat(a: Seq<char>, b: Seq<char>, j: nat, st: Seq<Seq<char>>)
    requires
        j <= b.len(),
        scan_line(a, a.len(), st).0 is None,
    ensures
        scan_line(a + b, a.len() + j, st).1 == scan_line(b, j, scan_line(a, a.len(), st).1).1,
        scan_line(a + b, a.len() + j, st).0 == (match scan_line(b, j, scan_line(a, a.len(), st).1).0 {
            Some(p) => Some(p + a.len()),
            None => None,
        }),
    decreases j,
{
    let s1 = scan_line(a, a.len(), st).1;
    let ab = a + b;
    if j == 0 {
        lemma_scan_same_prefix(ab, a, a.len(), st);
    } else {
        lemma_scan_concat(a, b, (j - 1) as nat, st);
        lemma_scan_start_bound(b, (j - 1) as nat, s1);
        let k = (a.len() + j) as nat;
        assert(ab[k - 1] == b[j - 1]);
        assert(((k - 1) as nat) == a.len() + (j - 1));
        if let Some(p) = scan_line(b, (j - 1) as nat, s1).0 {
            assert(ab.subrange(p + a.len() + 1, k - 1) =~= b.subrange(p + 1, j - 1));
        }
    }
}

proof fn lemma_scan_tag(line: Seq<char>, i: nat, j: nat, st: Seq<Seq<char>>)
    requires
        i < j < line.len(),
        line[i as int] == '<',
        line[j as int] == '>',
        forall|k: int| i < k < j ==> line[k] != '<' && line[k] != '>',
    ensures
        scan_line(line, j + 1, st) == (
        None::<int>,
        apply_tag(scan_line(line, i, st).1, line.subrange(i as int + 1, j as int)),
        ),
{
    lemma_scan_plain(line, i + 1, j, st);
}

proof fn lemma_scan_tag_text(t: Seq<char>, st: Seq<Seq<char>>)
    requires
        tag_free(t),
    ensures
        scan_line(tag_text(t), tag_text(t).len(), st) == (None::<int>, apply_tag(st, t)),
{
    let line = tag_text(t);
    assert forall|k: int| 0 < k < t.len() + 1 implies line[k] != '<' && line[k] != '>' by {
        assert(line[k] == t[k - 1]);
    }
    lemma_scan_tag(line, 0, t.len() + 1, st);
    assert(line.subrange(1, t.len() as int + 1) =~= t);
}

/// A closing tag closes the innermost open element: after `</...>` the open elements are those
/// before it without the last one (none stay open when none were).
pub proof fn lemma_closing_tag_closes_innermost(t: Seq<char>, st: Seq<Seq<char>>)
    requires
        t.len() > 0,
        t[0] == '/',
        tag_free(t),
    ensures
        scan_line(tag_text(t), tag_text(t).len(), st).0 is None,
        st.len() > 0 ==> scan_line(tag_text(t), tag_text(t).len(), st).1 == st.drop_last(),
        st.len() == 0 ==> scan_line(tag_text(t), tag_text(t).len(), st).1 == st,
        scan_line(tag_text(t), tag_text(t).len(), st).1.len() == if st.len() > 0 {
            st.len() - 1
        } else {
            0
        },
{
    lemma_scan_tag_text(t, st);
}

/// An opening tag opens one element, named by the tag's first word in lower case, inside those
/// already open.
pub proof fn lemma_opening_tag_opens(t: Seq<char>, st: Seq<Seq<char>>)
    requires
        t.len() == 0 || t[0] != '/',
        tag_free(t),
    ensures
        scan_line(tag_text(t), tag_text(t).len(), st).0 is None,
        scan_line(tag_text(t), tag_text(t).len(), st).1 == st.push(lowercased(first_word(t))),
{
    lemma_scan_tag_text(t, st);
}

/// An element opened and closed again on one line, with text between the tags, leaves the open
/// elements as they were.
pub proof fn lemma_balanced_tags_keep_stack(
    t: Seq<char>,
    x: Seq<char>,
    c: Seq<char>,
    st: Seq<Seq<char>>,
)
    requires
        t.len() == 0 || t[0] != '/',
        c.len() > 0,
        c[0] == '/',
        tag_free(t),
        tag_free(x),
        tag_free(c),
    ensures
        scan_line(tag_text(t) + x + tag_text(c), (tag_text(t) + x + tag_text(c)).len(), st).0 is None,
        scan_line(tag_text(t) + x + tag_text(c), (tag_text(t) + x + tag_text(c)).len(), st).1 == st,
{
    let open = tag_text(t);
    let close = tag_text(c);
    lemma_scan_tag_text(t, st);
    let s1 = st.push(lowercased(first_word(t)));
    lemma_scan_plain(x, 0, x.len(), s1);
    lemma_scan_concat(open, x, x.len(), st);
    let a = open + x;
    assert(scan_line(a, a.len(), st) == (None::<int>, s1));
    lemma_scan_tag_text(c, s1);
    lemma_scan_concat(a, close, close.len(), st);
    assert(s1.drop_last() =~= st);
}

/// Where each of the first `n` lines leaves the open elements as it found them, the truncated
/// HTML closes nothing: it is those lines, the next one cut and marked with "...", and no more.
pub proof fn lemma_balanced_lines_close_nothing(s: Seq<char>, n: nat)
    requires
        lines_of(s).len() > n + 1,
        forall|i: int, st: Seq<Seq<char>>|
            0 <= i < n ==> (#[trigger] scan_line(lines_of(s)[i], lines_of(s)[i].len(), st)).1 == st,
    ensures
        linewise_truncated_html(s, n) == lines_with_newlines(lines_of(s), n) + trim_end_view(
            lines_of(s)[n as int],
        ) + "..."@,
{
    let ls = lines_of(s);
    lemma_balanced_lines_empty(ls, n);
    let x = lines_with_newlines(ls, n) + trim_end_view(ls[n as int]) + "..."@;
    assert(x + closing_tags(Seq::<Seq<char>>::empty()) =~= x);
}

proof fn lemma_balanced_lines_empty(ls: Seq<Seq<char>>, m: nat)
    requires
        m <= ls.len(),
        forall|i: int, st: Seq<Seq<char>>|
            0 <= i < m ==> (#[trigger] scan_line(ls[i], ls[i].len(), st)).1 == st,
    ensures
        scan_lines(ls, m) == Seq::<Seq<char>>::empty(),
    decreases m,
{
    if m > 0 {
        lemma_balanced_lines_empty(ls, (m - 1) as nat);
        let st = scan_lines(ls, (m - 1) as nat);
        assert(scan_line(ls[m - 1], ls[m - 1].len(), st).1 == st);
    }
}

/// The decimal digit for `d` (0 to 9).
pub open spec fn digit_char(d: int) -> char {
    (d + 48) as char
}

/// The decimal digits of `n`, most significant first, without leading zeros.
pub open spec fn decimal_digits(n: nat) -> Seq<char>
    decreases n,
{
    if n < 10 {
        seq![digit_char(n as int)]
    } else {
        decimal_digits(n / 10).push(digit_char((n % 10) as int))
    }
}

/// `v` in decimal, with a '-' when it is negative.
pub open spec fn decimal(v: int) -> Seq<char> {
    if v < 0 {
        seq!['-'] + decimal_digits((-v) as nat)
    } else {
        decimal_digits(v as nat)
    }
}

/// `v` in decimal, as `format!("{}", v)` writes it.
pub fn decimal_string(v: i64) -> (s: String)
    ensures
        s@ == decimal(v as int),
{
    let mag: u64 = if v < 0 {
        (0i128 - (v as i128)) as u64
    } else {
        v as u64
    };
    let ghost m = mag as nat;
    let mut digits: Vec<char> = Vec::new();
    let mut cur = mag;
    assert(m as int == if v < 0 { -(v as int) } else { v as int });
    loop
        invariant_except_break
            decimal_digits(m) == decimal_digits(cur as nat) + digits@,
            cur as nat <= m,
        ensures
            decimal_digits(m) == digits@,
        decreases cur,
    {
        let d = (cur % 10) as u8;
        let c = (d + 48) as char;
        assert(c == digit_char((cur % 10) as int));
        if cur < 10 {
            let ghost old_digits = digits@;
            digits.insert(0, c);
            assert(decimal_digits(m) =~= digits@);
            break;
        }
        let ghost old_digits = digits@;
        digits.insert(0, c);
        assert(decimal_digits(cur as nat) == decimal_digits((cur / 10) as nat).push(c));
        assert(decimal_digits(cur as nat) + old_digits =~= decimal_digits((cur / 10) as nat) + digits@);
        cur = cur / 10;
    }
    let mut out = String::new();
    if v < 0 {
        crate::text::push_char(&mut out, '-');
    }
    let ghost before = out@;
    push_all(&mut out, &digits);
    if v < 0 {
        assert(out@ =~= seq!['-'] + decimal_digits(m));
    } else {
        assert(out@ =~= decimal_digits(m));
    }
    out
}

/// The unit that a span is told in: its largest unit that is positive, down to seconds; and
/// what it is rounded against.
pub open spec fn unit_for(sp: SpanParts) -> (TimeUnit, RoundRelative) {
    if sp.years > 0 {
        (TimeUnit::Year, RoundRelative::Now)
    } else if sp.months > 0 {
        (TimeUnit::Month, RoundRelative::Then)
    } else if sp.days > 0 {
        (TimeUnit::Day, RoundRelative::Now)
    } else if sp.hours > 0 {
        (TimeUnit::Hour, RoundRelative::Plain)
    } else if sp.minutes > 0 {
        (TimeUnit::Minute, RoundRelative::Plain)
    } else {
        (TimeUnit::Second, RoundRelative::Plain)
    }
}

/// The count of `unit` in a span.
pub open spec fn count_in(sp: SpanParts, unit: TimeUnit) -> i64 {
    match unit {
        TimeUnit::Year => sp.years,
        TimeUnit::Month => sp.months,
        TimeUnit::Day => sp.days,
        TimeUnit::Hour => sp.hours,
        TimeUnit::Minute => sp.minutes,
        TimeUnit::Second => sp.seconds,
    }
}

/// The English name of a unit.
pub open spec fn unit_name(unit: TimeUnit) -> Seq<char> {
    match unit {
        TimeUnit::Year => "year"@,
        TimeUnit::Month => "month"@,
        TimeUnit::Day => "day"@,
        TimeUnit::Hour => "hour"@,
        TimeUnit::Minute => "minute"@,
        TimeUnit::Second => "second"@,
    }
}

/// "`value` `unit`(s) ago", singular only for one.
pub open spec fn ago_phrase(value: i64, unit: TimeUnit) -> Seq<char> {
    decimal(value as int) + " "@ + unit_name(unit) + (if value == 1 {
        ""@
    } else {
        "s"@
    }) + " ago"@
}

/// How long before `now_ms` the instant `then_ms` was, in words; `None` when the calendar
/// arithmetic fails.
pub open spec fn relative_time_text(then_ms: i64, now_ms: i64) -> Option<Seq<char>> {
    match span_between(then_ms, now_ms) {
        None => None,
        Some(t) => {
            let (unit, relative) = unit_for(parts_of(t));
            match span_rounded(then_ms, now_ms, unit, relative) {
                None => None,
                Some(r) => Some(ago_phrase(count_in(parts_of(r), unit), unit)),
            }
        },
    }
}

/// The English name of a unit.
fn unit_name_str(unit: TimeUnit) -> (s: &'static str)
    ensures
        s@ == unit_name(unit),
{
    match unit {
        TimeUnit::Year => "year",
        TimeUnit::Month => "month",
        TimeUnit::Day => "day",
        TimeUnit::Hour => "hour",
        TimeUnit::Minute => "minute",
        TimeUnit::Second => "second",
    }
}

/// "`value` `unit`(s) ago", singular only for one.
pub fn ago_phrase_string(value: i64, unit: TimeUnit) -> (s: String)
    ensures
        s@ == ago_phrase(value, unit),
{
    let mut s = decimal_string(value);
    s.append(" ");
    s.append(unit_name_str(unit));
    if value != 1 {
        s.append("s");
    }
    s.append(" ago");
    proof {
        reveal_strlit("");
    }
    s
}

/// The unit that a span is told in, and what it is rounded against: years (against the later
/// instant) when it has any, else months (against the earlier one), else days (against the
/// later one), else hours, minutes or seconds (against neither).
pub fn unit_of_span(span: SpanParts) -> (r: (TimeUnit, RoundRelative))
    ensures
        r == unit_for(span),
{
    if span.years > 0 {
        (TimeUnit::Year, RoundRelative::Now)
    } else if span.months > 0 {
        (TimeUnit::Month, RoundRelative::Then)
    } else if span.days > 0 {
        (TimeUnit::Day, RoundRelative::Now)
    } else if span.hours > 0 {
        (TimeUnit::Hour, RoundRelative::Plain)
    } else if span.minutes > 0 {
        (TimeUnit::Minute, RoundRelative::Plain)
    } else {
        (TimeUnit::Second, RoundRelative::Plain)
    }
}

/// The phrase for a span already rounded to `unit`: its count of that unit, "ago".
pub fn phrase_of_rounded(rounded: SpanParts, unit: TimeUnit) -> (s: String)
    ensures
        s@ == ago_phrase(count_in(rounded, unit), unit),
{
    let value = match unit {
        TimeUnit::Year => rounded.years,
        TimeUnit::Month => rounded.months,
        TimeUnit::Day => rounded.days,
        TimeUnit::Hour => rounded.hours,
        TimeUnit::Minute => rounded.minutes,
        TimeUnit::Second => rounded.seconds,
    };
    ago_phrase_string(value, unit)
}

/// The calendar arithmetic on the timestamps failed.
#[derive(Debug, PartialEq, Eq, Structural)]
pub struct RelativeTimeError;

/// How long before `now_ms` the instant `then_ms` was, in words: the count of the largest unit
/// of the span between them that is positive, rounded to that unit, as in "3 years ago".
pub fn format_timestamp_relative_at(then_ms: i64, now_ms: i64) -> (r: Result<String, RelativeTimeError>)
    ensures
        match relative_time_text(then_ms, now_ms) {
            Some(t) => r matches Ok(s) && s@ == t,
            None => r is Err,
        },
{
    let sp = match calendar_span(then_ms, now_ms) {
        Some(t) => SpanParts { years: t.0, months: t.1, days: t.2, hours: t.3, minutes: t.4, seconds: t.5 },
        None => return Err(RelativeTimeError),
    };
    let (unit, relative) = unit_of_span(sp);
    let rounded = match rounded_span(then_ms, now_ms, unit, relative) {
        Some(t) => SpanParts { years: t.0, months: t.1, days: t.2, hours: t.3, minutes: t.4, seconds: t.5 },
        None => return Err(RelativeTimeError),
    };
    Ok(phrase_of_rounded(rounded, unit))
}

/// How long ago the instant `ts_ms` was, in words, measured from the current time. The clock is
/// read here, so the contract says only that the answer is the one for some reading of it.
pub fn format_timestamp_relative(ts_ms: i64) -> (r: Result<String, RelativeTimeError>)
    ensures
        exists|now: i64|
            match #[trigger] relative_time_text(ts_ms, now) {
                Some(t) => r matches Ok(s) && s@ == t,
                None => r is Err,
            },
{
    let now = crate::models::clock::now_millis();
    let r = format_timestamp_relative_at(ts_ms, now);
    assert(match relative_time_text(ts_ms, now) {
        Some(t) => r matches Ok(s) && s@ == t,
        None => r is Err,
    });
    r
}

} // verus!
