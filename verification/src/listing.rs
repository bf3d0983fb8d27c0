//! Listing presentation: reordering a fetched workload listing so the most
//! recent entries come first, and decorating known phase words with
//! human-readable status glyphs.  Both are pure, order-preserving text
//! transformations; the surrounding event loop fetches the raw listing.

use vstd::prelude::*;

use crate::text::occurs_here;
use crate::text::push_all;
use crate::text::spec_lines;
use crate::text::split_lines;

verus! {

/// Lines joined back into one text, separated by single newlines.
pub open spec fn join_lines(ls: Seq<Seq<char>>) -> Seq<char>
    decreases ls.len(),
{
    if ls.len() == 0 {
        Seq::empty()
    } else if ls.len() == 1 {
        ls[0]
    } else {
        ls[0] + seq!['\n'] + join_lines(ls.drop_first())
    }
}

proof fn lemma_join_lines_push(ls: Seq<Seq<char>>, l: Seq<char>)
    ensures
        join_lines(ls.push(l)) == if ls.len() == 0 {
            l
        } else {
            join_lines(ls) + seq!['\n'] + l
        },
    decreases ls.len(),
{
    if ls.len() == 0 {
        assert(ls.push(l).len() == 1);
        assert(ls.push(l)[0] == l);
    } else {
        assert(ls.push(l).drop_first() =~= ls.drop_first().push(l));
        lemma_join_lines_push(ls.drop_first(), l);
        if ls.len() == 1 {
            assert(join_lines(ls) == ls[0]);
        }
    }
}

/// The listing with its lines in reverse order.
pub open spec fn spec_reverse_lines(s: Seq<char>) -> Seq<char> {
    join_lines(spec_lines(s).reverse())
}

/// Reverse the order of the lines of `s` (so that, for a listing sorted
/// oldest-first, the most recent entry comes first).
pub fn reverse_lines(s: &Vec<char>) -> (r: Vec<char>)
    ensures
        r@ == spec_reverse_lines(s@),
{
    let lines = split_lines(s);
    let ghost rev = spec_lines(s@).reverse();
    let mut out: Vec<char> = Vec::new();
    let mut idx = lines.len();
    proof {
        assert(lines@.len() == lines.deep_view().len());
    }
    while idx > 0
        invariant
            idx <= lines@.len(),
            lines.deep_view() == spec_lines(s@),
            rev == spec_lines(s@).reverse(),
            out@ == join_lines(rev.take(lines@.len() - idx)) + (if 0 < idx < lines@.len() {
                seq!['\n']
            } else {
                Seq::<char>::empty()
            }),
        decreases idx,
    {
        idx = idx - 1;
        let ghost k = lines@.len() - idx - 1;
        proof {
            assert(rev[k] == lines.deep_view()[idx as int]);
            assert(rev.take(k + 1) =~= rev.take(k).push(rev[k]));
            lemma_join_lines_push(rev.take(k), rev[k]);
            assert(lines.deep_view()[idx as int] =~= lines@[idx as int]@);
        }
        push_all(&mut out, &lines[idx]);
        proof {
            assert(out@ =~= join_lines(rev.take(k + 1)));
        }
        if idx > 0 {
            out.push('\n');
        }
    }
    proof {
        assert(rev.take(lines@.len() as int) =~= rev);
        if lines@.len() == 0 {
            assert(out@ =~= join_lines(rev));
        }
    }
    out
}

/// `s[i..]` with `pre` inserted before every (non-overlapping, left-to-right)
/// occurrence of `pat`.
pub open spec fn prefix_from(s: Seq<char>, pat: Seq<char>, pre: Seq<char>, i: int) -> Seq<char>
    decreases s.len() - i,
{
    if i < 0 || i >= s.len() {
        Seq::empty()
    } else if pat.len() > 0 && i + pat.len() <= s.len() && s.subrange(i, i + pat.len() as int)
        == pat {
        pre + pat + prefix_from(s, pat, pre, i + pat.len() as int)
    } else {
        seq![s[i]] + prefix_from(s, pat, pre, i + 1)
    }
}

/// `s` with `pre` inserted before every occurrence of `pat`.
pub open spec fn spec_prefix_all(s: Seq<char>, pat: Seq<char>, pre: Seq<char>) -> Seq<char> {
    prefix_from(s, pat, pre, 0)
}

/// Insert `pre` before every (non-overlapping, left-to-right) occurrence of
/// `pat` in `s`.
pub fn prefix_occurrences(s: &Vec<char>, pat: &Vec<char>, pre: &Vec<char>) -> (r: Vec<char>)
    requires
        pat@.len() > 0,
    ensures
        r@ == spec_prefix_all(s@, pat@, pre@),
{
    let mut out: Vec<char> = Vec::new();
    let mut i: usize = 0;
    while i < s.len()
        invariant
            i <= s@.len(),
            pat@.len() > 0,
            spec_prefix_all(s@, pat@, pre@) == out@ + prefix_from(s@, pat@, pre@, i as int),
        decreases s@.len() - i,
    {
        let here = if pat.len() <= s.len() - i {
            occurs_here(s, pat, i)
        } else {
            false
        };
        if here {
            let ghost pre_out = out@;
            push_all(&mut out, pre);
            push_all(&mut out, pat);
            proof {
                assert(pre_out + (pre@ + pat@ + prefix_from(s@, pat@, pre@, i + pat@.len())) =~= (
                pre_out + pre@ + pat@) + prefix_from(s@, pat@, pre@, i + pat@.len()));
            }
            i = i + pat.len();
        } else {
            let ghost pre_out = out@;
            out.push(s[i]);
            proof {
                assert(pre_out + (seq![s@[i as int]] + prefix_from(s@, pat@, pre@, i + 1)) =~= (
                pre_out + seq![s@[i as int]]) + prefix_from(s@, pat@, pre@, i + 1));
            }
            i = i + 1;
        }
    }
    proof {
        assert(out@ =~= out@ + prefix_from(s@, pat@, pre@, i as int));
    }
    out
}

/// The known phase words, in the order they are decorated.
pub open spec fn phase_running() -> Seq<char> {
    seq!['R', 'u', 'n', 'n', 'i', 'n', 'g']
}

pub open spec fn phase_terminating() -> Seq<char> {
    seq!['T', 'e', 'r', 'm', 'i', 'n', 'a', 't', 'i', 'n', 'g']
}

pub open spec fn phase_crash_loop() -> Seq<char> {
    seq!['C', 'r', 'a', 's', 'h', 'L', 'o', 'o', 'p', 'B', 'a', 'c', 'k', 'O', 'f', 'f']
}

pub open spec fn phase_image_pull() -> Seq<char> {
    seq!['I', 'm', 'a', 'g', 'e', 'P', 'u', 'l', 'l', 'B', 'a', 'c', 'k', 'O', 'f', 'f']
}

pub open spec fn phase_creating() -> Seq<char> {
    seq!['C', 'o', 'n', 't', 'a', 'i', 'n', 'e', 'r', 'C', 'r', 'e', 'a', 't', 'i', 'n', 'g']
}

/// The glyph prefixes put in front of each phase word.
pub open spec fn glyph_running() -> Seq<char> {
    seq!['\u{2714}', '\u{fe0f}', ' ']
}

pub open spec fn glyph_terminating() -> Seq<char> {
    seq!['\u{1f480}', '\u{fe0f}', ' ']
}

pub open spec fn glyph_crash_loop() -> Seq<char> {
    seq!['\u{1f525}', ' ']
}

pub open spec fn glyph_image_pull() -> Seq<char> {
    seq!['\u{1f47b}', ' ']
}

pub open spec fn glyph_creating() -> Seq<char> {
    seq!['\u{2728}', '\u{fe0f}', ' ']
}

/// A listing decorated with status glyphs: each known phase word gains its
/// glyph prefix, one substitution pass per phase, in a fixed order.
pub open spec fn spec_decorate(s: Seq<char>) -> Seq<char> {
    spec_prefix_all(
        spec_prefix_all(
            spec_prefix_all(
                spec_prefix_all(
                    spec_prefix_all(s, phase_running(), glyph_running()),
                    phase_terminating(),
                    glyph_terminating(),
                ),
                phase_crash_loop(),
                glyph_crash_loop(),
            ),
            phase_image_pull(),
            glyph_image_pull(),
        ),
        phase_creating(),
        glyph_creating(),
    )
}

/// Decorate known phase words with human-readable status glyphs.  Purely
/// cosmetic text substitution; the listing's entries keep their order.
pub fn decorate_listing(s: &Vec<char>) -> (r: Vec<char>)
    ensures
        r@ == spec_decorate(s@),
{
    let pat_running: Vec<char> = vec!['R', 'u', 'n', 'n', 'i', 'n', 'g'];
    let pre_running: Vec<char> = vec!['\u{2714}', '\u{fe0f}', ' '];
    let pat_terminating: Vec<char> = vec![
        'T',
        'e',
        'r',
        'm',
        'i',
        'n',
        'a',
        't',
        'i',
        'n',
        'g',
    ];
    let pre_terminating: Vec<char> = vec!['\u{1f480}', '\u{fe0f}', ' '];
    let pat_crash: Vec<char> = vec![
        'C',
        'r',
        'a',
        's',
        'h',
        'L',
        'o',
        'o',
        'p',
        'B',
        'a',
        'c',
        'k',
        'O',
        'f',
        'f',
    ];
    let pre_crash: Vec<char> = vec!['\u{1f525}', ' '];
    let pat_image: Vec<char> = vec![
        'I',
        'm',
        'a',
        'g',
        'e',
        'P',
        'u',
        'l',
        'l',
        'B',
        'a',
        'c',
        'k',
        'O',
        'f',
        'f',
    ];
    let pre_image: Vec<char> = vec!['\u{1f47b}', ' '];
    let pat_creating: Vec<char> = vec![
        'C',
        'o',
        'n',
        't',
        'a',
        'i',
        'n',
        'e',
        'r',
        'C',
        'r',
        'e',
        'a',
        't',
        'i',
        'n',
        'g',
    ];
    let pre_creating: Vec<char> = vec!['\u{2728}', '\u{fe0f}', ' '];
    let step1 = prefix_occurrences(s, &pat_running, &pre_running);
    let step2 = prefix_occurrences(&step1, &pat_terminating, &pre_terminating);
    let step3 = prefix_occurrences(&step2, &pat_crash, &pre_crash);
    let step4 = prefix_occurrences(&step3, &pat_image, &pre_image);
    let step5 = prefix_occurrences(&step4, &pat_creating, &pre_creating);
    proof {
        assert(pat_running@ =~= phase_running());
        assert(pre_running@ =~= glyph_running());
        assert(pat_terminating@ =~= phase_terminating());
        assert(pre_terminating@ =~= glyph_terminating());
        assert(pat_crash@ =~= phase_crash_loop());
        assert(pre_crash@ =~= glyph_crash_loop());
        assert(pat_image@ =~= phase_image_pull());
        assert(pre_image@ =~= glyph_image_pull());
        assert(pat_creating@ =~= phase_creating());
        assert(pre_creating@ =~= glyph_creating());
    }
    step5
}

} // verus!
