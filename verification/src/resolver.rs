//! Pod resolution: find the first entry of a raw cluster listing whose name
//! token contains a user-supplied matcher followed by a generated-suffix
//! shape, and extract (namespace, name) from that entry.
//!
//! A listing is line-oriented text, one workload instance per line, columns
//! separated by blanks; the first column is the namespace and a later column
//! is the instance name.  Lines are scanned top to bottom in the order the
//! caller supplies, so the caller controls which of several matching
//! instances wins.

use vstd::prelude::*;

use crate::text::copy_range;
use crate::text::find_newline;
use crate::text::occurs_at;
use crate::text::occurs_here;
use crate::text::lines_from;
use crate::text::spec_lines;

verus! {

/// Resolution failure: no listing entry matched the matcher.
#[derive(Clone, Copy, PartialEq, Eq, Structural, Debug)]
pub enum ResolutionError {
    NotFound,
}

/// A resolved workload target, immutable once created; a new search replaces
/// it wholesale.
#[derive(Clone, Debug, PartialEq, Eq)]
pub struct PodIdentifier {
    pub name: Vec<char>,
    pub namespace: Vec<char>,
}

/// Spec-level image of a `PodIdentifier`.
pub struct PodView {
    pub name: Seq<char>,
    pub namespace: Seq<char>,
}

impl View for PodIdentifier {
    type V = PodView;

    open spec fn view(&self) -> PodView {
        PodView { name: self.name@, namespace: self.namespace@ }
    }
}

/// Column separators within a listing line.
pub open spec fn is_blank(c: char) -> bool {
    c == ' ' || c == '\t' || c == '\r'
}

/// Characters admitted in a generated name suffix.
pub open spec fn is_suffix_char(c: char) -> bool {
    ('0' <= c && c <= '9') || ('a' <= c && c <= 'z') || ('A' <= c && c <= 'Z') || c == '-'
}

/// End of the token starting at `i`: the first blank at or after `i`, or the
/// length when the token runs to the end of the line.
pub open spec fn token_end(s: Seq<char>, i: int) -> int
    decreases s.len() - i,
{
    if i < 0 || i >= s.len() || is_blank(s[i]) {
        i
    } else {
        token_end(s, i + 1)
    }
}

pub proof fn lemma_token_end(s: Seq<char>, i: int)
    requires
        0 <= i <= s.len(),
    ensures
        i <= token_end(s, i) <= s.len(),
        token_end(s, i) == s.len() || is_blank(s[token_end(s, i)]),
        forall|j: int| i <= j < token_end(s, i) ==> !is_blank(s[j]),
    decreases s.len() - i,
{
    if i < s.len() && !is_blank(s[i]) {
        lemma_token_end(s, i + 1);
    }
}

/// The blank-separated tokens of `s` from position `i` on.
pub open spec fn tokens_from(s: Seq<char>, i: int) -> Seq<Seq<char>>
    decreases s.len() - i,
        via tokens_from_dec
{
    if i < 0 || i >= s.len() {
        Seq::empty()
    } else if is_blank(s[i]) {
        tokens_from(s, i + 1)
    } else {
        seq![s.subrange(i, token_end(s, i))] + tokens_from(s, token_end(s, i))
    }
}

#[via_fn]
proof fn tokens_from_dec(s: Seq<char>, i: int) {
    if 0 <= i && i < s.len() && !is_blank(s[i]) {
        lemma_token_end(s, i);
        assert(token_end(s, i) == token_end(s, i + 1));
    }
}

/// All tokens of a line.
pub open spec fn spec_tokens(line: Seq<char>) -> Seq<Seq<char>> {
    tokens_from(line, 0)
}

/// `t` contains `m` as a contiguous subsequence.
pub open spec fn contains_seq(t: Seq<char>, m: Seq<char>) -> bool {
    exists|i: int| occurs_at(t, m, i)
}

/// Position `k` of `t` starts a generated-suffix shape: a `'-'` followed by
/// at least one character, all of them suffix characters, running to the end
/// of the token.
pub open spec fn suffix_shape_at(t: Seq<char>, k: int) -> bool {
    0 <= k && k + 1 < t.len() && t[k] == '-' && (forall|j: int|
        k < j < t.len() ==> is_suffix_char(t[j]))
}

/// A name token matches a (non-empty) matcher: the matcher occurs in the
/// token and is followed, at or after its end, by a generated-suffix shape.
pub open spec fn token_matches(t: Seq<char>, m: Seq<char>) -> bool {
    m.len() > 0 && exists|i: int, k: int|
        occurs_at(t, m, i) && i + m.len() <= k && suffix_shape_at(t, k)
}

/// A listing line matches: it has a namespace column plus at least one more
/// column, and some column after the first matches the matcher.
pub open spec fn line_matches(line: Seq<char>, m: Seq<char>) -> bool {
    let ts = spec_tokens(line);
    ts.len() >= 2 && exists|ti: int| 1 <= ti < ts.len() && token_matches(ts[ti], m)
}

/// Index of the first token at or after `i` that matches, or `ts.len()` when
/// none does.
pub open spec fn first_matching_token(ts: Seq<Seq<char>>, m: Seq<char>, i: int) -> int
    decreases ts.len() - i,
{
    if i < 0 || i >= ts.len() {
        ts.len() as int
    } else if token_matches(ts[i], m) {
        i
    } else {
        first_matching_token(ts, m, i + 1)
    }
}

/// The target extracted from a matching line: the namespace column and the
/// first matching name column.
pub open spec fn line_target(line: Seq<char>, m: Seq<char>) -> PodView {
    let ts = spec_tokens(line);
    PodView { name: ts[first_matching_token(ts, m, 1)], namespace: ts[0] }
}

/// Resolution over a sequence of listing lines: the first matching line wins.
pub open spec fn resolve_lines(ls: Seq<Seq<char>>, m: Seq<char>) -> Option<PodView>
    decreases ls.len(),
{
    if ls.len() == 0 {
        Option::None
    } else if line_matches(ls[0], m) {
        Option::Some(line_target(ls[0], m))
    } else {
        resolve_lines(ls.drop_first(), m)
    }
}

/// What resolution returns on a matcher and a raw listing.
pub open spec fn spec_resolve(m: Seq<char>, listing: Seq<char>) -> Option<PodView> {
    resolve_lines(spec_lines(listing), m)
}

proof fn lemma_resolve_lines_some(ls: Seq<Seq<char>>, m: Seq<char>)
    requires
        resolve_lines(ls, m) is Some,
    ensures
        exists|li: int|
            0 <= li < ls.len() && line_matches(ls[li], m) && resolve_lines(ls, m)
                == Option::Some(line_target(ls[li], m)),
    decreases ls.len(),
{
    if ls.len() == 0 {
    } else if line_matches(ls[0], m) {
        assert(0 <= 0 < ls.len() && line_matches(ls[0], m) && resolve_lines(ls, m)
            == Option::Some(line_target(ls[0], m)));
    } else {
        lemma_resolve_lines_some(ls.drop_first(), m);
        let li = choose|li: int|
            0 <= li < ls.drop_first().len() && line_matches(ls.drop_first()[li], m)
                && resolve_lines(ls.drop_first(), m) == Option::Some(
                line_target(ls.drop_first()[li], m),
            );
        assert(ls.drop_first()[li] == ls[li + 1]);
        assert(0 <= li + 1 < ls.len() && line_matches(ls[li + 1], m) && resolve_lines(ls, m)
            == Option::Some(line_target(ls[li + 1], m)));
    }
}

proof fn lemma_first_matching_token_in_range(ts: Seq<Seq<char>>, m: Seq<char>, lo: int)
    requires
        0 <= lo,
        exists|ti: int| lo <= ti < ts.len() && token_matches(ts[ti], m),
    ensures
        lo <= first_matching_token(ts, m, lo) < ts.len(),
        token_matches(ts[first_matching_token(ts, m, lo)], m),
    decreases ts.len() - lo,
{
    let wit = choose|ti: int| lo <= ti < ts.len() && token_matches(ts[ti], m);
    if token_matches(ts[lo], m) {
    } else {
        assert(lo + 1 <= wit < ts.len() && token_matches(ts[wit], m));
        lemma_first_matching_token_in_range(ts, m, lo + 1);
    }
}

/// Law: whenever resolution succeeds, the returned name contains the matcher
/// as a contiguous subsequence, followed by a generated-suffix shape, and the
/// matcher is non-empty.
pub proof fn lemma_resolution_name_matches(m: Seq<char>, listing: Seq<char>)
    requires
        spec_resolve(m, listing) is Some,
    ensures
        token_matches(spec_resolve(m, listing)->Some_0.name, m),
        contains_seq(spec_resolve(m, listing)->Some_0.name, m),
        m.len() > 0,
{
    let ls = spec_lines(listing);
    lemma_resolve_lines_some(ls, m);
    let li = choose|li: int|
        0 <= li < ls.len() && line_matches(ls[li], m) && resolve_lines(ls, m) == Option::Some(
            line_target(ls[li], m),
        );
    let ts = spec_tokens(ls[li]);
    lemma_first_matching_token_in_range(ts, m, 1);
    let name = spec_resolve(m, listing)->Some_0.name;
    assert(token_matches(name, m));
    let (oi, ok) = choose|i: int, k: int|
        occurs_at(name, m, i) && i + m.len() <= k && suffix_shape_at(name, k);
    assert(occurs_at(name, m, oi));
}

proof fn lemma_resolve_lines_none_iff(ls: Seq<Seq<char>>, m: Seq<char>)
    ensures
        resolve_lines(ls, m) is None <==> (forall|li: int|
            0 <= li < ls.len() ==> !line_matches(ls[li], m)),
    decreases ls.len(),
{
    if ls.len() == 0 {
    } else {
        lemma_resolve_lines_none_iff(ls.drop_first(), m);
        assert(forall|li: int|
            0 <= li < ls.drop_first().len() ==> ls.drop_first()[li] == ls[li + 1]);
        if resolve_lines(ls, m) is None {
            assert forall|li: int| 0 <= li < ls.len() implies !line_matches(ls[li], m) by {
                if li > 0 {
                    assert(ls[li] == ls.drop_first()[li - 1]);
                }
            }
        }
    }
}

/// Law: resolution reports `NotFound` exactly when no listing line matches
/// the matcher.
pub proof fn lemma_not_found_iff_no_line_matches(m: Seq<char>, listing: Seq<char>)
    ensures
        spec_resolve(m, listing) is None <==> (forall|li: int|
            0 <= li < spec_lines(listing).len() ==> !line_matches(spec_lines(listing)[li], m)),
{
    lemma_resolve_lines_none_iff(spec_lines(listing), m);
}

/// Law: an empty matcher never resolves; submitting an empty search behaves
/// as a resolution failure.
pub proof fn lemma_empty_matcher_not_found(listing: Seq<char>)
    ensures
        spec_resolve(Seq::<char>::empty(), listing) is None,
{
    lemma_not_found_iff_no_line_matches(Seq::<char>::empty(), listing);
}

/// End of the token starting at `from`.
fn token_boundary(s: &Vec<char>, from: usize) -> (r: usize)
    requires
        from <= s@.len(),
    ensures
        r == token_end(s@, from as int),
        from <= r <= s@.len(),
{
    proof {
        lemma_token_end(s@, from as int);
    }
    let mut i = from;
    while i < s.len()
        invariant
            from <= i <= s@.len(),
            token_end(s@, from as int) == token_end(s@, i as int),
        decreases s@.len() - i,
    {
        let c = s[i];
        if c == ' ' || c == '\t' || c == '\r' {
            return i;
        }
        i = i + 1;
    }
    i
}

/// Split a line into its blank-separated tokens.
fn split_tokens(line: &Vec<char>) -> (r: Vec<Vec<char>>)
    ensures
        r.deep_view() == spec_tokens(line@),
{
    let mut acc: Vec<Vec<char>> = Vec::new();
    let mut i: usize = 0;
    while i < line.len()
        invariant
            i <= line@.len(),
            spec_tokens(line@) == acc.deep_view() + tokens_from(line@, i as int),
        decreases line@.len() - i,
    {
        let c = line[i];
        if c == ' ' || c == '\t' || c == '\r' {
            i = i + 1;
        } else {
            let e = token_boundary(line, i);
            proof {
                lemma_token_end(line@, i as int);
            }
            let tok = copy_range(line, i, e);
            let ghost pre = acc.deep_view();
            let ghost tokv = tok@;
            proof {
                assert(tok.deep_view() =~= tokv);
            }
            acc.push(tok);
            proof {
                assert(acc.deep_view() =~= pre.push(tokv));
                assert(pre + (seq![tokv] + tokens_from(line@, e as int)) =~= pre.push(tokv)
                    + tokens_from(line@, e as int));
            }
            i = e;
        }
    }
    proof {
        assert(spec_tokens(line@) =~= acc.deep_view());
    }
    acc
}

/// First position at which `m` occurs in `t`, if any.
fn find_first_occurrence(t: &Vec<char>, m: &Vec<char>) -> (r: Option<usize>)
    requires
        m@.len() >= 1,
    ensures
        match r {
            Option::Some(i) => occurs_at(t@, m@, i as int) && forall|j: int|
                0 <= j < i ==> !occurs_at(t@, m@, j),
            Option::None => forall|j: int| !occurs_at(t@, m@, j),
        },
{
    if m.len() > t.len() {
        return Option::None;
    }
    assert(t@.len() == t.len());
    let last = t.len() - m.len();
    let mut i: usize = 0;
    while i <= last
        invariant
            i <= last + 1,
            last == t@.len() - m@.len(),
            t@.len() <= usize::MAX,
            m@.len() >= 1,
            forall|j: int| 0 <= j < i ==> !occurs_at(t@, m@, j),
        decreases last + 1 - i,
    {
        if occurs_here(t, m, i) {
            return Option::Some(i);
        }
        i = i + 1;
    }
    Option::None
}

/// Whether every character of `t` from `from` to the end is a suffix
/// character.
fn all_suffix_from(t: &Vec<char>, from: usize) -> (r: bool)
    requires
        from <= t@.len(),
    ensures
        r == (forall|j: int| from <= j < t@.len() ==> is_suffix_char(t@[j])),
{
    let mut j = from;
    while j < t.len()
        invariant
            from <= j <= t@.len(),
            forall|jj: int| from <= jj < j ==> is_suffix_char(t@[jj]),
        decreases t@.len() - j,
    {
        let c = t[j];
        let ok = ('0' <= c && c <= '9') || ('a' <= c && c <= 'z') || ('A' <= c && c <= 'Z') || c
            == '-';
        if !ok {
            return false;
        }
        j = j + 1;
    }
    true
}

/// Whether a generated-suffix shape starts at or after `from` in `t`.
fn find_dash_suffix(t: &Vec<char>, from: usize) -> (r: bool)
    ensures
        r == exists|k: int| from <= k && suffix_shape_at(t@, k),
{
    let n = t.len();
    if n < 2 || from >= n - 1 {
        proof {
            assert forall|k: int| from <= k implies !suffix_shape_at(t@, k) by {}
        }
        return false;
    }
    let mut k = from;
    while k < n - 1
        invariant
            from <= k <= n - 1,
            2 <= n == t@.len(),
            forall|kk: int| from <= kk < k ==> !suffix_shape_at(t@, kk),
        decreases n - k,
    {
        if t[k] == '-' {
            if all_suffix_from(t, k + 1) {
                proof {
                    assert(suffix_shape_at(t@, k as int));
                }
                return true;
            }
        }
        k = k + 1;
    }
    proof {
        assert forall|kk: int| from <= kk implies !suffix_shape_at(t@, kk) by {
            if kk < k {
            } else {
                assert(kk + 1 >= t@.len());
            }
        }
    }
    false
}

/// Whether name token `t` matches matcher `m`.
fn token_match(t: &Vec<char>, m: &Vec<char>) -> (r: bool)
    ensures
        r == token_matches(t@, m@),
{
    if m.len() == 0 {
        return false;
    }
    match find_first_occurrence(t, m) {
        Option::None => {
            proof {
                assert forall|i: int, k: int|
                    !(occurs_at(t@, m@, i) && i + m@.len() <= k && suffix_shape_at(t@, k)) by {}
            }
            false
        },
        Option::Some(i0) => {
            assert(t@.len() == t.len());
            let start = i0 + m.len();
            let found = find_dash_suffix(t, start);
            if found {
                proof {
                    let k = choose|k: int| start <= k && suffix_shape_at(t@, k);
                    assert(occurs_at(t@, m@, i0 as int) && i0 + m@.len() <= k && suffix_shape_at(
                        t@,
                        k,
                    ));
                }
                true
            } else {
                proof {
                    assert forall|i: int, k: int|
                        !(occurs_at(t@, m@, i) && i + m@.len() <= k && suffix_shape_at(
                            t@,
                            k,
                        )) by {
                        if occurs_at(t@, m@, i) && i + m@.len() <= k {
                            assert(i >= i0);
                        }
                    }
                }
                false
            }
        },
    }
}

proof fn lemma_first_matching_token_found(ts: Seq<Seq<char>>, m: Seq<char>, lo: int, ti: int)
    requires
        0 <= lo <= ti < ts.len(),
        token_matches(ts[ti], m),
        forall|tt: int| lo <= tt < ti ==> !token_matches(ts[tt], m),
    ensures
        first_matching_token(ts, m, lo) == ti,
    decreases ti - lo,
{
    if lo < ti {
        lemma_first_matching_token_found(ts, m, lo + 1, ti);
    }
}

/// Examine one listing line: if it matches, extract its target.
fn line_find_target(line: &Vec<char>, m: &Vec<char>) -> (r: Option<PodIdentifier>)
    ensures
        match r {
            Option::Some(p) => line_matches(line@, m@) && p@ == line_target(line@, m@),
            Option::None => !line_matches(line@, m@),
        },
{
    let tokens = split_tokens(line);
    if tokens.len() < 2 {
        return Option::None;
    }
    let mut ti: usize = 1;
    while ti < tokens.len()
        invariant
            1 <= ti <= tokens@.len(),
            tokens.deep_view() == spec_tokens(line@),
            tokens@.len() >= 2,
            forall|tt: int| 1 <= tt < ti ==> !token_matches(tokens.deep_view()[tt], m@),
        decreases tokens@.len() - ti,
    {
        proof {
            assert(tokens.deep_view()[ti as int] =~= tokens@[ti as int]@);
        }
        if token_match(&tokens[ti], m) {
            proof {
                lemma_first_matching_token_found(tokens.deep_view(), m@, 1, ti as int);
            }
            let name = copy_range(&tokens[ti], 0, tokens[ti].len());
            let namespace = copy_range(&tokens[0], 0, tokens[0].len());
            proof {
                assert(name@ =~= tokens.deep_view()[ti as int]);
                assert(namespace@ =~= tokens.deep_view()[0]);
                assert(line_matches(line@, m@)) by {
                    assert(1 <= ti < spec_tokens(line@).len() && token_matches(
                        spec_tokens(line@)[ti as int],
                        m@,
                    ));
                }
            }
            return Option::Some(PodIdentifier { name, namespace });
        }
        ti = ti + 1;
    }
    Option::None
}

/// Resolve a matcher against a raw cluster listing: scan the lines top to
/// bottom and return the namespace and name extracted from the first line
/// that matches, or `NotFound` when no line does.
pub fn resolve(matcher: &Vec<char>, listing: &Vec<char>) -> (r: Result<
    PodIdentifier,
    ResolutionError,
>)
    ensures
        match r {
            Ok(p) => spec_resolve(matcher@, listing@) == Option::Some(p@),
            Err(e) => spec_resolve(matcher@, listing@) is None && e == ResolutionError::NotFound,
        },
{
    let mut i: usize = 0;
    while i < listing.len()
        invariant
            i <= listing@.len(),
            resolve_lines(lines_from(listing@, i as int), matcher@) == spec_resolve(
                matcher@,
                listing@,
            ),
        decreases listing@.len() - i,
    {
        let e = find_newline(listing, i);
        let line = copy_range(listing, i, e);
        let found = line_find_target(&line, matcher);
        proof {
            assert(lines_from(listing@, i as int)[0] == line@);
        }
        match found {
            Option::Some(p) => {
                return Ok(p);
            },
            Option::None => {
                proof {
                    let next = if e < listing@.len() {
                        e + 1
                    } else {
                        e as int
                    };
                    assert(lines_from(listing@, i as int).drop_first() =~= lines_from(
                        listing@,
                        next,
                    ));
                }
                if e < listing.len() {
                    i = e + 1;
                } else {
                    i = e;
                }
            },
        }
    }
    Err(ResolutionError::NotFound)
}

} // verus!
