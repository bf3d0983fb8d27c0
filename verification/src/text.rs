//! Line accounting over character buffers.
//!
//! Content is held as a vector of characters; a line is a maximal run of
//! characters not containing `'\n'`, and a trailing newline does not open an
//! extra empty line (matching the usual line-iteration convention).

use vstd::prelude::*;

verus! {

/// Index of the first `'\n'` at or after `i`, or the length when none follows.
pub open spec fn next_newline(s: Seq<char>, i: int) -> int
    decreases s.len() - i,
{
    if i < 0 || i >= s.len() {
        s.len() as int
    } else if s[i] == '\n' {
        i
    } else {
        next_newline(s, i + 1)
    }
}

pub proof fn lemma_next_newline(s: Seq<char>, i: int)
    requires
        0 <= i <= s.len(),
    ensures
        i <= next_newline(s, i) <= s.len(),
        next_newline(s, i) == s.len() || s[next_newline(s, i)] == '\n',
        forall|j: int| i <= j < next_newline(s, i) ==> s[j] != '\n',
    decreases s.len() - i,
{
    if i < s.len() && s[i] != '\n' {
        lemma_next_newline(s, i + 1);
    }
}

/// The sequence of lines of `s` starting at position `i`.
pub open spec fn lines_from(s: Seq<char>, i: int) -> Seq<Seq<char>>
    decreases s.len() - i,
        via lines_from_dec
{
    if i < 0 || i >= s.len() {
        Seq::empty()
    } else {
        let e = next_newline(s, i);
        seq![s.subrange(i, e)] + lines_from(s, if e < s.len() { e + 1 } else { e })
    }
}

#[via_fn]
proof fn lines_from_dec(s: Seq<char>, i: int) {
    if 0 <= i && i < s.len() {
        lemma_next_newline(s, i);
    }
}

/// All lines of `s`.
pub open spec fn spec_lines(s: Seq<char>) -> Seq<Seq<char>> {
    lines_from(s, 0)
}

/// Number of lines of `s`.
pub open spec fn spec_line_count(s: Seq<char>) -> int {
    spec_lines(s).len() as int
}

/// Index of the first `'\n'` at or after `from`, or the length when none
/// follows.
pub fn find_newline(s: &Vec<char>, from: usize) -> (r: usize)
    requires
        from <= s@.len(),
    ensures
        r == next_newline(s@, from as int),
        from <= r <= s@.len(),
{
    proof {
        lemma_next_newline(s@, from as int);
    }
    let mut i = from;
    while i < s.len()
        invariant
            from <= i <= s@.len(),
            next_newline(s@, from as int) == next_newline(s@, i as int),
        decreases s@.len() - i,
    {
        if s[i] == '\n' {
            return i;
        }
        i = i + 1;
    }
    i
}

/// Number of lines in `s`.
pub fn count_lines(s: &Vec<char>) -> (r: usize)
    ensures
        r == spec_line_count(s@),
{
    let mut i: usize = 0;
    let mut n: usize = 0;
    while i < s.len()
        invariant
            i <= s@.len(),
            n <= i,
            n + lines_from(s@, i as int).len() == spec_line_count(s@),
        decreases s@.len() - i,
    {
        let e = find_newline(s, i);
        n = n + 1;
        if e < s.len() {
            i = e + 1;
        } else {
            i = e;
        }
    }
    n
}

/// The pattern `m` occurs in `t` starting exactly at position `i`.
pub open spec fn occurs_at(t: Seq<char>, m: Seq<char>, i: int) -> bool {
    0 <= i && i + m.len() <= t.len() && t.subrange(i, i + m.len() as int) == m
}

/// Whether `m` occurs in `t` at exactly position `i`.
pub(crate) fn occurs_here(t: &Vec<char>, m: &Vec<char>, i: usize) -> (r: bool)
    requires
        i + m@.len() <= t@.len(),
    ensures
        r == occurs_at(t@, m@, i as int),
{
    assert(t@.len() == t.len());
    let mut j: usize = 0;
    while j < m.len()
        invariant
            j <= m@.len(),
            i + m@.len() <= t@.len(),
            t@.len() <= usize::MAX,
            forall|jj: int| 0 <= jj < j ==> t@[i + jj] == m@[jj],
        decreases m@.len() - j,
    {
        if t[i + j] != m[j] {
            proof {
                assert(t@.subrange(i as int, i + m@.len()) != m@) by {
                    assert(t@.subrange(i as int, i + m@.len())[j as int] == t@[i + j]);
                }
            }
            return false;
        }
        j = j + 1;
    }
    proof {
        assert(t@.subrange(i as int, i + m@.len()) =~= m@);
    }
    true
}

/// Copy of `s[from..to]`.
pub(crate) fn copy_range(s: &Vec<char>, from: usize, to: usize) -> (r: Vec<char>)
    requires
        from <= to <= s@.len(),
    ensures
        r@ == s@.subrange(from as int, to as int),
{
    let mut r: Vec<char> = Vec::new();
    let mut i = from;
    while i < to
        invariant
            from <= i <= to <= s@.len(),
            r@ == s@.subrange(from as int, i as int),
        decreases to - i,
    {
        r.push(s[i]);
        i = i + 1;
        proof {
            assert(r@ =~= s@.subrange(from as int, i as int));
        }
    }
    r
}

/// Append every character of `src` to `out`.
pub(crate) fn push_all(out: &mut Vec<char>, src: &Vec<char>)
    ensures
        final(out)@ == old(out)@ + src@,
{
    let mut i: usize = 0;
    while i < src.len()
        invariant
            i <= src@.len(),
            out@ == old(out)@ + src@.subrange(0, i as int),
        decreases src@.len() - i,
    {
        out.push(src[i]);
        i = i + 1;
        proof {
            assert(old(out)@ + src@.subrange(0, i - 1) + seq![src@[i - 1]] =~= old(out)@
                + src@.subrange(0, i as int));
        }
    }
    proof {
        assert(out@ =~= old(out)@ + src@);
    }
}

/// Split content into its lines.
pub fn split_lines(s: &Vec<char>) -> (r: Vec<Vec<char>>)
    ensures
        r.deep_view() == spec_lines(s@),
{
    let mut acc: Vec<Vec<char>> = Vec::new();
    let mut i: usize = 0;
    while i < s.len()
        invariant
            i <= s@.len(),
            spec_lines(s@) == acc.deep_view() + lines_from(s@, i as int),
        decreases s@.len() - i,
    {
        let e = find_newline(s, i);
        let line = copy_range(s, i, e);
        let ghost pre = acc.deep_view();
        let ghost linev = line@;
        proof {
            assert(line.deep_view() =~= linev);
        }
        acc.push(line);
        let ghost next = if e < s@.len() {
            e + 1
        } else {
            e as int
        };
        proof {
            assert(acc.deep_view() =~= pre.push(linev));
            assert(pre + (seq![linev] + lines_from(s@, next)) =~= pre.push(linev) + lines_from(
                s@,
                next,
            ));
        }
        if e < s.len() {
            i = e + 1;
        } else {
            i = e;
        }
    }
    proof {
        assert(spec_lines(s@) =~= acc.deep_view());
    }
    acc
}

/// Displayed content together with its derived line count.
///
/// The count is recomputed whenever the content is replaced, so the two can
/// never disagree; content is always replaced wholesale.
pub struct TextBuffer {
    pub content: Vec<char>,
    pub line_count: usize,
}

impl TextBuffer {
    /// The stored line count matches the content.
    pub open spec fn wf(self) -> bool {
        self.line_count == spec_line_count(self.content@)
    }

    /// Wrap freshly fetched content, deriving its line count.
    pub fn new(content: Vec<char>) -> (r: TextBuffer)
        ensures
            r.content@ == content@,
            r.wf(),
    {
        let n = count_lines(&content);
        TextBuffer { content, line_count: n }
    }

    pub fn empty() -> (r: TextBuffer)
        ensures
            r.content@ == Seq::<char>::empty(),
            r.line_count == 0,
            r.wf(),
    {
        TextBuffer { content: Vec::new(), line_count: 0 }
    }
}

} // verus!
