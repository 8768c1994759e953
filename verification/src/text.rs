//! Text as a sequence of characters: the searches and edits the rest of the
//! crate is built on.
//!
//! Every function here works on whole characters, never on bytes, so an index
//! is always a position in `s@`.

use vstd::prelude::*;

verus! {

/// `pat` occurs in `s` starting at index `i`.
pub open spec fn occurs_at(s: Seq<char>, pat: Seq<char>, i: int) -> bool {
    &&& 0 <= i
    &&& i + pat.len() <= s.len()
    &&& s.subrange(i, i + pat.len()) == pat
}

/// `s` begins with `pat`.
pub open spec fn begins_with(s: Seq<char>, pat: Seq<char>) -> bool {
    occurs_at(s, pat, 0)
}

/// `s` ends with `pat`.
pub open spec fn finishes_with(s: Seq<char>, pat: Seq<char>) -> bool {
    occurs_at(s, pat, s.len() - pat.len())
}

/// `pat` occurs somewhere in `s`.
pub open spec fn occurs_in(s: Seq<char>, pat: Seq<char>) -> bool {
    exists|i: int| occurs_at(s, pat, i)
}

/// The least index at or after `from` where `pat` occurs in `s`.
pub open spec fn find_from(s: Seq<char>, pat: Seq<char>, from: int) -> Option<int>
    decreases s.len() - from + 1,
{
    if from < 0 || from + pat.len() > s.len() {
        None
    } else if occurs_at(s, pat, from) {
        Some(from)
    } else {
        find_from(s, pat, from + 1)
    }
}

/// `find_from` returns the least occurrence at or after `from`, and `None`
/// exactly when there is none.
pub proof fn lemma_find_from(s: Seq<char>, pat: Seq<char>, from: int)
    requires
        0 <= from,
    ensures
        match find_from(s, pat, from) {
            Some(i) => {
                &&& from <= i
                &&& occurs_at(s, pat, i)
                &&& forall|j: int| from <= j < i ==> !occurs_at(s, pat, j)
            },
            None => forall|j: int| from <= j ==> !occurs_at(s, pat, j),
        },
    decreases s.len() - from + 1,
{
    if from + pat.len() > s.len() {
    } else if occurs_at(s, pat, from) {
    } else {
        lemma_find_from(s, pat, from + 1);
    }
}

/// The characters of `s`, in order.
pub fn chars_of(s: &str) -> (out: Vec<char>)
    ensures
        out@ == s@,
{
    broadcast use vstd::string::group_string_axioms;

    let mut out: Vec<char> = Vec::new();
    let chars = s.chars();
    for c in it: chars
        invariant
            it.seq() == s@,
            out@ == it.seq().subrange(0, it.index()),
    {
        out.push(c);
    }
    assert(out@ =~= s@);
    out
}

/// `String::push` of std: appends one character to the end of the string and
/// leaves the rest as it was.
#[verifier::external_body]
fn push_char(s: &mut String, c: char)
    ensures
        final(s)@ == old(s)@.push(c),
{
    s.push(c)
}

/// The string made of the characters `chars[from..to]`.
pub fn string_of_range(chars: &Vec<char>, from: usize, to: usize) -> (out: String)
    requires
        from <= to <= chars.len(),
    ensures
        out@ == chars@.subrange(from as int, to as int),
{
    let mut out = String::new();
    let mut i: usize = from;
    while i < to
        invariant
            from <= i <= to <= chars.len(),
            out@ == chars@.subrange(from as int, i as int),
        decreases to - i,
    {
        push_char(&mut out, chars[i]);
        i += 1;
        assert(out@ =~= chars@.subrange(from as int, i as int));
    }
    out
}

/// The string made of the characters `chars`.
pub fn string_of(chars: &Vec<char>) -> (out: String)
    ensures
        out@ == chars@,
{
    let out = string_of_range(chars, 0, chars.len());
    assert(chars@.subrange(0, chars.len() as int) =~= chars@);
    out
}

/// Appends the characters of `s` to `out`.
pub fn push_str(out: &mut Vec<char>, s: &str)
    ensures
        final(out)@ == old(out)@ + s@,
{
    broadcast use vstd::string::group_string_axioms;

    let chars = s.chars();
    assert(out@ =~= old(out)@ + s@.subrange(0, 0));
    for c in it: chars
        invariant
            it.seq() == s@,
            out@ == old(out)@ + it.seq().subrange(0, it.index()),
    {
        out.push(c);
        assert(out@ =~= old(out)@ + it.seq().subrange(0, it.index() + 1));
    }
    assert(s@.subrange(0, s@.len() as int) =~= s@);
}

/// Whether `pat` occurs in `s` at index `i`.
pub fn matches_at(s: &Vec<char>, pat: &Vec<char>, i: usize) -> (b: bool)
    ensures
        b == occurs_at(s@, pat@, i as int),
{
    if pat.len() > s.len() || i > s.len() - pat.len() {
        return false;
    }
    let mut k: usize = 0;
    while k < pat.len()
        invariant
            k <= pat.len(),
            i + pat.len() <= s.len(),
            forall|j: int| 0 <= j < k ==> s@[i + j] == pat@[j],
        decreases pat.len() - k,
    {
        if s[i + k] != pat[k] {
            assert(s@.subrange(i as int, i + pat.len())[k as int] == s@[i + k]);
            return false;
        }
        k += 1;
    }
    assert(s@.subrange(i as int, i + pat.len()) =~= pat@);
    true
}

/// The least index at or after `from` where `pat` occurs in `s`, if any.
pub fn find_in(s: &Vec<char>, pat: &Vec<char>, from: usize) -> (r: Option<usize>)
    ensures
        match r {
            Some(i) => find_from(s@, pat@, from as int) == Some(i as int),
            None => find_from(s@, pat@, from as int) is None,
        },
{
    if pat.len() > s.len() {
        return None;
    }
    let last = s.len() - pat.len();
    let mut i: usize = from;
    while i <= last
        invariant
            from <= i,
            last == s.len() - pat.len(),
            find_from(s@, pat@, from as int) == find_from(s@, pat@, i as int),
        decreases last - i,
    {
        if matches_at(s, pat, i) {
            return Some(i);
        }
        if i == last {
            assert(find_from(s@, pat@, i + 1) is None);
            return None;
        }
        i += 1;
    }
    None
}

/// Whether `a` and `b` hold the same characters.
pub fn same_chars(a: &Vec<char>, b: &Vec<char>) -> (eq: bool)
    ensures
        eq == (a@ == b@),
{
    if a.len() != b.len() {
        return false;
    }
    let eq = matches_at(a, b, 0);
    assert(a@.subrange(0, a.len() as int) =~= a@);
    eq
}

/// Whether `a` and `b` are the same text.
pub fn same_text(a: &str, b: &str) -> (eq: bool)
    ensures
        eq == (a@ == b@),
{
    let a_chars = chars_of(a);
    let b_chars = chars_of(b);
    same_chars(&a_chars, &b_chars)
}

/// The one-character pattern `c`.
pub fn single(c: char) -> (pat: Vec<char>)
    ensures
        pat@ == seq![c],
{
    let mut pat: Vec<char> = Vec::new();
    pat.push(c);
    assert(pat@ =~= seq![c]);
    pat
}

/// The least index at or after `from` where the character `c` stands in `s`.
pub fn find_char(s: &Vec<char>, c: char, from: usize) -> (r: Option<usize>)
    ensures
        match r {
            Some(i) => find_from(s@, seq![c], from as int) == Some(i as int),
            None => find_from(s@, seq![c], from as int) is None,
        },
{
    let pat = single(c);
    find_in(s, &pat, from)
}

/// Whether `s` begins with `pat`.
pub fn has_prefix(s: &Vec<char>, pat: &Vec<char>) -> (b: bool)
    ensures
        b == begins_with(s@, pat@),
{
    matches_at(s, pat, 0)
}

/// Whether `s` ends with `pat`.
pub fn has_suffix(s: &Vec<char>, pat: &Vec<char>) -> (b: bool)
    ensures
        b == finishes_with(s@, pat@),
{
    if pat.len() > s.len() {
        return false;
    }
    matches_at(s, pat, s.len() - pat.len())
}

/// Whether `pat` occurs somewhere in `s`.
pub fn has_infix(s: &Vec<char>, pat: &Vec<char>) -> (b: bool)
    ensures
        b == occurs_in(s@, pat@),
{
    proof {
        lemma_find_from(s@, pat@, 0);
    }
    find_in(s, pat, 0).is_some()
}

/// The pattern that ends a line.
pub open spec fn newline() -> Seq<char> {
    seq!['\n']
}

/// Where the line that starts at `from` ends: the index of the next line feed,
/// or the end of the text.
pub open spec fn line_end(s: Seq<char>, from: int) -> int {
    match find_from(s, newline(), from) {
        Some(i) => i,
        None => s.len() as int,
    }
}

/// The line that occupies `s[from..end]`. Where a line feed follows it and a
/// carriage return stands right before that line feed, the carriage return is
/// not part of the line.
pub open spec fn line_text(s: Seq<char>, from: int, end: int) -> Seq<char> {
    if from < end < s.len() && s[end - 1] == '\r' {
        s.subrange(from, end - 1)
    } else {
        s.subrange(from, end)
    }
}

/// The lines of `s` that start at or after index `from`.
pub open spec fn lines_from(s: Seq<char>, from: int) -> Seq<Seq<char>>
    decreases s.len() - from + 1,
{
    if from < 0 || from >= s.len() {
        Seq::empty()
    } else {
        let end = line_end(s, from);
        proof {
            lemma_find_from(s, newline(), from);
        }
        seq![line_text(s, from, end)] + lines_from(s, end + 1)
    }
}

/// The lines of `s`: the pieces between line feeds, each without its line
/// ending (`\n` or `\r\n`). A line feed at the very end of the text opens no
/// further line, and the empty text has no line.
pub open spec fn lines(s: Seq<char>) -> Seq<Seq<char>> {
    lines_from(s, 0)
}

/// The views of the rows of `rows`.
pub open spec fn rows_view(rows: Seq<Vec<char>>) -> Seq<Seq<char>> {
    rows.map_values(|row: Vec<char>| row@)
}

/// The pattern `newline()` as characters.
fn newline_chars() -> (pat: Vec<char>)
    ensures
        pat@ == newline(),
{
    let mut pat: Vec<char> = Vec::new();
    pat.push('\n');
    assert(pat@ =~= newline());
    pat
}

/// The characters `s[from..to]`.
pub fn slice_of(s: &Vec<char>, from: usize, to: usize) -> (out: Vec<char>)
    requires
        from <= to <= s.len(),
    ensures
        out@ == s@.subrange(from as int, to as int),
{
    let mut out: Vec<char> = Vec::new();
    let mut i: usize = from;
    while i < to
        invariant
            from <= i <= to <= s.len(),
            out@ == s@.subrange(from as int, i as int),
        decreases to - i,
    {
        out.push(s[i]);
        i += 1;
        assert(out@ =~= s@.subrange(from as int, i as int));
    }
    out
}

/// Splits `s` into its lines.
pub fn split_lines(s: &Vec<char>) -> (out: Vec<Vec<char>>)
    ensures
        rows_view(out@) == lines(s@),
{
    let nl = newline_chars();
    let mut out: Vec<Vec<char>> = Vec::new();
    let mut from: usize = 0;
    assert(rows_view(out@) + lines_from(s@, 0) =~= lines(s@));
    while from < s.len()
        invariant
            nl@ == newline(),
            from <= s.len(),
            rows_view(out@) + lines_from(s@, from as int) == lines(s@),
        decreases s.len() - from,
    {
        proof {
            lemma_find_from(s@, newline(), from as int);
        }
        let found = find_in(s, &nl, from);
        let end: usize = match found {
            Some(i) => i,
            None => s.len(),
        };
        assert(end as int == line_end(s@, from as int));
        let stop: usize = if from < end && end < s.len() && s[end - 1] == '\r' {
            end - 1
        } else {
            end
        };
        let line = slice_of(s, from, stop);
        assert(line@ == line_text(s@, from as int, end as int));
        let ghost before = rows_view(out@);
        out.push(line);
        assert(rows_view(out@) =~= before.push(line@));
        assert(before.push(line@) + lines_from(s@, end + 1) =~= before + (seq![line@]
            + lines_from(s@, end + 1)));
        if end == s.len() {
            assert(lines_from(s@, end + 1) =~= Seq::<Seq<char>>::empty());
            assert(lines_from(s@, s.len() as int) =~= Seq::<Seq<char>>::empty());
            from = s.len();
        } else {
            from = end + 1;
        }
    }
    assert(lines_from(s@, from as int) =~= Seq::<Seq<char>>::empty());
    assert(rows_view(out@) + Seq::<Seq<char>>::empty() =~= rows_view(out@));
    out
}

/// `s[from..]` with every occurrence of `pat` replaced by `to`, found from left
/// to right without overlap. An empty `pat` is found nowhere.
pub open spec fn replace_from(s: Seq<char>, pat: Seq<char>, to: Seq<char>, from: int) -> Seq<
    char,
>
    decreases s.len() - from + 1,
{
    if pat.len() == 0 || from < 0 || from > s.len() {
        s.subrange(from, s.len() as int)
    } else {
        match find_from(s, pat, from) {
            Some(i) => {
                proof {
                    lemma_find_from(s, pat, from);
                }
                s.subrange(from, i) + to + replace_from(s, pat, to, i + pat.len())
            },
            None => s.subrange(from, s.len() as int),
        }
    }
}

/// `s` with every occurrence of `pat` replaced by `to`, found from left to
/// right without overlap. An empty `pat` is found nowhere.
pub open spec fn replaced(s: Seq<char>, pat: Seq<char>, to: Seq<char>) -> Seq<char> {
    replace_from(s, pat, to, 0)
}

/// Appends `src[from..to]` to `dst`.
pub fn extend_from_range(dst: &mut Vec<char>, src: &Vec<char>, from: usize, to: usize)
    requires
        from <= to <= src.len(),
    ensures
        final(dst)@ == old(dst)@ + src@.subrange(from as int, to as int),
{
    let mut i: usize = from;
    assert(dst@ =~= old(dst)@ + src@.subrange(from as int, i as int));
    while i < to
        invariant
            from <= i <= to <= src.len(),
            dst@ == old(dst)@ + src@.subrange(from as int, i as int),
        decreases to - i,
    {
        dst.push(src[i]);
        i += 1;
        assert(dst@ =~= old(dst)@ + src@.subrange(from as int, i as int));
    }
}

/// Replaces every occurrence of `pat` in `s` by `to`.
pub fn replace_all(s: &Vec<char>, pat: &Vec<char>, to: &Vec<char>) -> (out: Vec<char>)
    ensures
        out@ == replaced(s@, pat@, to@),
{
    let mut out: Vec<char> = Vec::new();
    if pat.len() == 0 {
        extend_from_range(&mut out, s, 0, s.len());
        return out;
    }
    let mut from: usize = 0;
    assert(out@ + replace_from(s@, pat@, to@, 0) =~= replaced(s@, pat@, to@));
    loop
        invariant
            pat.len() > 0,
            from <= s.len(),
            out@ + replace_from(s@, pat@, to@, from as int) == replaced(s@, pat@, to@),
        decreases s.len() - from,
    {
        proof {
            lemma_find_from(s@, pat@, from as int);
        }
        match find_in(s, pat, from) {
            Some(i) => {
                let ghost before = out@;
                extend_from_range(&mut out, s, from, i);
                extend_from_range(&mut out, to, 0, to.len());
                assert(to@.subrange(0, to.len() as int) =~= to@);
                assert(out@ + replace_from(s@, pat@, to@, i + pat.len()) =~= before
                    + replace_from(s@, pat@, to@, from as int));
                from = i + pat.len();
            },
            None => {
                extend_from_range(&mut out, s, from, s.len());
                return out;
            },
        }
    }
}

/// `s` holds no line feed.
pub open spec fn is_one_line(s: Seq<char>) -> bool {
    forall|i: int| 0 <= i < s.len() ==> #[trigger] s[i] != '\n'
}

/// Where `pat` occurs at `i`, and nowhere from `from` up to `i`, the search
/// from `from` finds it at `i`.
pub proof fn lemma_find_from_is(s: Seq<char>, pat: Seq<char>, from: int, i: int)
    requires
        0 <= from <= i,
        occurs_at(s, pat, i),
        forall|j: int| from <= j < i ==> !occurs_at(s, pat, j),
    ensures
        find_from(s, pat, from) == Some(i),
{
    lemma_find_from(s, pat, from);
    match find_from(s, pat, from) {
        Some(k) => {
            if k < i {
                assert(!occurs_at(s, pat, k));
            }
            if i < k {
                assert(!occurs_at(s, pat, i));
            }
        },
        None => {
            assert(!occurs_at(s, pat, i));
        },
    }
}

/// A one-character pattern occurs exactly where its character stands.
pub proof fn lemma_occurs_single(s: Seq<char>, c: char, i: int)
    requires
        0 <= i < s.len(),
    ensures
        occurs_at(s, seq![c], i) <==> s[i] == c,
{
    if s[i] == c {
        assert(s.subrange(i, i + 1) =~= seq![c]);
    } else {
        assert(s.subrange(i, i + 1)[0] == s[i]);
    }
}

/// The line that starts at `from` and ends at the line feed at `end` is the
/// first of the lines from `from`; the others are those from behind the line
/// feed.
pub proof fn lemma_lines_from_step(s: Seq<char>, from: int, end: int)
    requires
        0 <= from <= end < s.len(),
        s[end] == '\n',
        forall|j: int| from <= j < end ==> s[j] != '\n',
    ensures
        lines_from(s, from) == seq![line_text(s, from, end)] + lines_from(s, end + 1),
{
    lemma_occurs_single(s, '\n', end);
    assert forall|j: int| from <= j < end implies !occurs_at(s, newline(), j) by {
        lemma_occurs_single(s, '\n', j);
    }
    lemma_find_from_is(s, newline(), from, end);
}

/// In a text that starts with three lines, each ended by a line feed, the
/// third of the lines is the third line as it stands, provided it does not end
/// in a carriage return.
pub proof fn lemma_third_line(a: Seq<char>, b: Seq<char>, c: Seq<char>, rest: Seq<char>)
    requires
        is_one_line(a),
        is_one_line(b),
        is_one_line(c),
        c.len() > 0 ==> c.last() != '\r',
    ensures
        lines(a + newline() + b + newline() + c + newline() + rest).len() >= 3,
        lines(a + newline() + b + newline() + c + newline() + rest)[2] == c,
{
    let s = a + newline() + b + newline() + c + newline() + rest;
    let e0 = a.len() as int;
    let e1 = e0 + 1 + b.len();
    let e2 = e1 + 1 + c.len();
    assert(s[e0] == '\n');
    assert(s[e1] == '\n');
    assert(s[e2] == '\n');
    assert forall|j: int| 0 <= j < e0 implies s[j] != '\n' by {
        assert(s[j] == a[j]);
    }
    assert forall|j: int| e0 + 1 <= j < e1 implies s[j] != '\n' by {
        assert(s[j] == b[j - e0 - 1]);
    }
    assert forall|j: int| e1 + 1 <= j < e2 implies s[j] != '\n' by {
        assert(s[j] == c[j - e1 - 1]);
    }
    lemma_lines_from_step(s, 0, e0);
    lemma_lines_from_step(s, e0 + 1, e1);
    lemma_lines_from_step(s, e1 + 1, e2);
    let l0 = line_text(s, 0, e0);
    let l1 = line_text(s, e0 + 1, e1);
    let l2 = line_text(s, e1 + 1, e2);
    let tail = lines_from(s, e2 + 1);
    if c.len() > 0 {
        assert(s[e2 - 1] == c.last());
    }
    assert(l2 =~= c);
    assert(lines(s) == seq![l0] + (seq![l1] + (seq![l2] + tail)));
    assert((seq![l0] + (seq![l1] + (seq![l2] + tail)))[2] == l2);
}

/// Where `pat` occurs first at `i`, the replacement keeps what stands before
/// `i`, puts `to` for the occurrence, and goes on behind it.
pub proof fn lemma_replace_first(s: Seq<char>, pat: Seq<char>, to: Seq<char>, i: int)
    requires
        pat.len() > 0,
        occurs_at(s, pat, i),
        forall|j: int| 0 <= j < i ==> !occurs_at(s, pat, j),
    ensures
        replaced(s, pat, to) == s.subrange(0, i) + to + replace_from(s, pat, to, i + pat.len()),
{
    lemma_find_from_is(s, pat, 0, i);
}

/// A text is split in one way only into a run of characters of one kind and a
/// rest that does not begin with a character of that kind.
pub proof fn lemma_split_is_unique(
    run1: Seq<char>,
    rest1: Seq<char>,
    run2: Seq<char>,
    rest2: Seq<char>,
    kind: spec_fn(char) -> bool,
)
    requires
        forall|i: int| 0 <= i < run1.len() ==> kind(#[trigger] run1[i]),
        forall|i: int| 0 <= i < run2.len() ==> kind(#[trigger] run2[i]),
        rest1.len() > 0 ==> !kind(rest1[0]),
        rest2.len() > 0 ==> !kind(rest2[0]),
        run1 + rest1 == run2 + rest2,
    ensures
        run1 == run2,
        rest1 == rest2,
{
    let text = run1 + rest1;
    assert(text.len() == run1.len() + rest1.len());
    assert((run2 + rest2).len() == run2.len() + rest2.len());
    if run1.len() < run2.len() {
        let k = run1.len() as int;
        assert((run1 + rest1)[k] == rest1[0]);
        assert((run2 + rest2)[k] == run2[k]);
        assert(kind(run2[k]));
        assert(false);
    }
    if run2.len() < run1.len() {
        let k = run2.len() as int;
        assert((run2 + rest2)[k] == rest2[0]);
        assert((run1 + rest1)[k] == run1[k]);
        assert(kind(run1[k]));
        assert(false);
    }
    assert(run1 =~= text.subrange(0, run1.len() as int));
    assert(run2 =~= (run2 + rest2).subrange(0, run2.len() as int));
    assert(rest1 =~= text.subrange(run1.len() as int, text.len() as int));
    assert(rest2 =~= (run2 + rest2).subrange(run2.len() as int, text.len() as int));
}

} // verus!
