//! Character-level text utilities: splitting into lines, trimming trailing
//! whitespace, case folding and substring search. Everything here works on
//! `Vec<char>` / `Seq<char>`, matching the character-oriented (not byte
//! oriented) treatment the table parser needs for non-ASCII text.

use vstd::prelude::*;
use vstd::std_specs::iter::IteratorSpec;

verus! {

broadcast use vstd::string::group_string_axioms;

/// The characters with the Unicode `White_Space` property, the set that
/// `char::is_whitespace` recognises.
pub open spec fn is_space_char(c: char) -> bool {
    ||| c == ' '
    ||| c == '\t'
    ||| c == '\n'
    ||| c == '\u{b}'
    ||| c == '\u{c}'
    ||| c == '\r'
    ||| c == '\u{85}'
    ||| c == '\u{a0}'
    ||| c == '\u{1680}'
    ||| c == '\u{2000}'
    ||| c == '\u{2001}'
    ||| c == '\u{2002}'
    ||| c == '\u{2003}'
    ||| c == '\u{2004}'
    ||| c == '\u{2005}'
    ||| c == '\u{2006}'
    ||| c == '\u{2007}'
    ||| c == '\u{2008}'
    ||| c == '\u{2009}'
    ||| c == '\u{200a}'
    ||| c == '\u{2028}'
    ||| c == '\u{2029}'
    ||| c == '\u{202f}'
    ||| c == '\u{205f}'
    ||| c == '\u{3000}'
}

pub fn space_char(c: char) -> (r: bool)
    ensures
        r == is_space_char(c),
{
    c == ' ' || c == '\t' || c == '\n' || c == '\u{b}' || c == '\u{c}' || c == '\r'
        || c == '\u{85}' || c == '\u{a0}' || c == '\u{1680}' || c == '\u{2000}' || c == '\u{2001}'
        || c == '\u{2002}' || c == '\u{2003}' || c == '\u{2004}' || c == '\u{2005}'
        || c == '\u{2006}' || c == '\u{2007}' || c == '\u{2008}' || c == '\u{2009}'
        || c == '\u{200a}' || c == '\u{2028}' || c == '\u{2029}' || c == '\u{202f}'
        || c == '\u{205f}' || c == '\u{3000}'
}

/// ASCII lowercasing of one character; everything outside `A..=Z` is kept.
pub open spec fn lower_char(c: char) -> char {
    match c {
        'A' => 'a',
        'B' => 'b',
        'C' => 'c',
        'D' => 'd',
        'E' => 'e',
        'F' => 'f',
        'G' => 'g',
        'H' => 'h',
        'I' => 'i',
        'J' => 'j',
        'K' => 'k',
        'L' => 'l',
        'M' => 'm',
        'N' => 'n',
        'O' => 'o',
        'P' => 'p',
        'Q' => 'q',
        'R' => 'r',
        'S' => 's',
        'T' => 't',
        'U' => 'u',
        'V' => 'v',
        'W' => 'w',
        'X' => 'x',
        'Y' => 'y',
        'Z' => 'z',
        _ => c,
    }
}

/// ASCII lowercasing of a character sequence.
pub open spec fn lower_seq(s: Seq<char>) -> Seq<char> {
    s.map_values(|c: char| lower_char(c))
}

pub fn to_lower_char(c: char) -> (r: char)
    ensures
        r == lower_char(c),
{
    match c {
        'A' => 'a',
        'B' => 'b',
        'C' => 'c',
        'D' => 'd',
        'E' => 'e',
        'F' => 'f',
        'G' => 'g',
        'H' => 'h',
        'I' => 'i',
        'J' => 'j',
        'K' => 'k',
        'L' => 'l',
        'M' => 'm',
        'N' => 'n',
        'O' => 'o',
        'P' => 'p',
        'Q' => 'q',
        'R' => 'r',
        'S' => 's',
        'T' => 't',
        'U' => 'u',
        'V' => 'v',
        'W' => 'w',
        'X' => 'x',
        'Y' => 'y',
        'Z' => 'z',
        _ => c,
    }
}

pub fn lower_vec(v: &Vec<char>) -> (r: Vec<char>)
    ensures
        r@ == lower_seq(v@),
{
    let mut r: Vec<char> = Vec::new();
    let mut i: usize = 0;
    while i < v.len()
        invariant
            i <= v.len(),
            r@ == lower_seq(v@.take(i as int)),
        decreases v.len() - i,
    {
        r.push(to_lower_char(v[i]));
        proof {
            assert(lower_seq(v@.take(i + 1 as int)) =~= lower_seq(v@.take(i as int)).push(
                lower_char(v@[i as int]),
            ));
        }
        i += 1;
    }
    proof {
        assert(v@.take(v@.len() as int) =~= v@);
    }
    r
}

/// The characters of a string, in order.
pub fn chars_of(s: &str) -> (r: Vec<char>)
    ensures
        r@ == s@,
{
    let mut it = s.chars();
    let mut out: Vec<char> = Vec::new();
    loop
        invariant
            out@ + it.remaining() == s@,
        ensures
            out@ == s@,
        decreases s@.len() - out@.len(),
    {
        match it.next() {
            Some(c) => {
                out.push(c);
            },
            None => {
                proof {
                    assert(out@ =~= s@);
                }
                break ;
            },
        }
    }
    out
}

/// Relies on `String::push`: appends the given character to the string.
#[verifier::external_body]
pub(crate) fn push_char(s: &mut String, c: char)
    ensures
        final(s)@ == old(s)@.push(c),
{
    s.push(c);
}

/// Relies on `String::pop`: removes the last character, if there is one.
#[verifier::external_body]
pub(crate) fn pop_char(s: &mut String)
    ensures
        final(s)@ == if old(s)@.len() == 0 {
            old(s)@
        } else {
            old(s)@.drop_last()
        },
{
    s.pop();
}

/// A `String` with exactly the given characters.
pub fn string_from_chars(v: &Vec<char>) -> (r: String)
    ensures
        r@ == v@,
{
    let mut r = String::new();
    let mut i: usize = 0;
    while i < v.len()
        invariant
            i <= v.len(),
            r@ == v@.take(i as int),
        decreases v.len() - i,
    {
        push_char(&mut r, v[i]);
        proof {
            assert(v@.take(i + 1 as int) =~= v@.take(i as int).push(v@[i as int]));
        }
        i += 1;
    }
    proof {
        assert(v@.take(v@.len() as int) =~= v@);
    }
    r
}

/// The given sequence without its trailing whitespace.
pub open spec fn trim_end_spec(s: Seq<char>) -> Seq<char>
    decreases s.len(),
{
    if s.len() > 0 && is_space_char(s.last()) {
        trim_end_spec(s.drop_last())
    } else {
        s
    }
}

/// A copy of `v` without its trailing whitespace.
pub fn trim_end_vec(v: &Vec<char>) -> (r: Vec<char>)
    ensures
        r@ == trim_end_spec(v@),
{
    let mut e: usize = v.len();
    proof {
        assert(v@.take(v@.len() as int) =~= v@);
    }
    while e > 0 && space_char(v[e - 1])
        invariant
            e <= v@.len(),
            trim_end_spec(v@) == trim_end_spec(v@.take(e as int)),
        decreases e,
    {
        proof {
            assert(v@.take(e as int).drop_last() =~= v@.take(e - 1 as int));
        }
        e -= 1;
    }
    let r = subvec(v, 0, e);
    proof {
        assert(v@.subrange(0, e as int) =~= v@.take(e as int));
    }
    r
}

/// The position of the first `c` in `s`, or `s.len()` if there is none.
pub open spec fn first_pos(s: Seq<char>, c: char) -> int
    decreases s.len(),
{
    if s.len() == 0 {
        0
    } else if s[0] == c {
        0
    } else {
        1 + first_pos(s.drop_first(), c)
    }
}

pub proof fn lemma_first_pos_bounds(s: Seq<char>, c: char)
    ensures
        0 <= first_pos(s, c) <= s.len(),
        first_pos(s, c) < s.len() ==> s[first_pos(s, c)] == c,
    decreases s.len(),
{
    if s.len() == 0 {
    } else if s[0] == c {
    } else {
        lemma_first_pos_bounds(s.drop_first(), c);
    }
}

pub proof fn lemma_first_pos_scan(s: Seq<char>, c: char, m: int)
    requires
        0 <= m <= s.len(),
        forall|t: int| 0 <= t < m ==> s[t] != c,
        m == s.len() || s[m] == c,
    ensures
        first_pos(s, c) == m,
    decreases m,
{
    if m == 0 {
    } else {
        assert(s[0] != c);
        assert forall|t: int| 0 <= t < m - 1 implies s.drop_first()[t] != c by {
            assert(s.drop_first()[t] == s[t + 1]);
        }
        lemma_first_pos_scan(s.drop_first(), c, m - 1);
    }
}

/// One trailing carriage return removed, as the line splitter does just
/// before each newline.
pub open spec fn strip_cr(s: Seq<char>) -> Seq<char> {
    if s.len() > 0 && s.last() == '\r' {
        s.drop_last()
    } else {
        s
    }
}

/// The lines of `s`: split at `'\n'`, a carriage return directly before a
/// newline is dropped, and a trailing newline opens no extra empty line.
pub open spec fn spec_lines(s: Seq<char>) -> Seq<Seq<char>>
    decreases s.len(),
    via spec_lines_decreases
{
    if s.len() == 0 {
        Seq::empty()
    } else {
        let k = first_pos(s, '\n');
        if k == s.len() {
            seq![s]
        } else {
            seq![strip_cr(s.take(k))] + spec_lines(s.skip(k + 1))
        }
    }
}

#[via_fn]
proof fn spec_lines_decreases(s: Seq<char>) {
    lemma_first_pos_bounds(s, '\n');
}

/// The lines of `v`, each as its own character vector.
pub fn split_lines(v: &Vec<char>) -> (r: Vec<Vec<char>>)
    ensures
        r@.len() == spec_lines(v@).len(),
        forall|i: int| 0 <= i < r@.len() ==> #[trigger] r@[i]@ == spec_lines(v@)[i],
{
    let mut r: Vec<Vec<char>> = Vec::new();
    let ghost mut done: Seq<Seq<char>> = Seq::empty();
    let mut pos: usize = 0;
    proof {
        assert(v@.skip(0) =~= v@);
        assert(done + spec_lines(v@) =~= spec_lines(v@));
    }
    while pos < v.len()
        invariant
            pos <= v@.len(),
            r@.len() == done.len(),
            forall|i: int| 0 <= i < done.len() ==> #[trigger] r@[i]@ == done[i],
            done + spec_lines(v@.skip(pos as int)) == spec_lines(v@),
        decreases v@.len() - pos,
    {
        let ghost rest = v@.skip(pos as int);
        let mut j: usize = pos;
        while j < v.len() && v[j] != '\n'
            invariant
                pos <= j <= v@.len(),
                forall|t: int| pos <= t < j ==> v@[t] != '\n',
            decreases v@.len() - j,
        {
            j += 1;
        }
        proof {
            assert forall|t: int| 0 <= t < j - pos implies rest[t] != '\n' by {
                assert(rest[t] == v@[t + pos]);
            }
            lemma_first_pos_scan(rest, '\n', j - pos);
        }
        if j == v.len() {
            let line = subvec(v, pos, j);
            proof {
                assert(line@ =~= rest);
                assert(spec_lines(rest) =~= seq![rest]);
                assert(done.push(rest) =~= done + seq![rest]);
                done = done.push(rest);
                assert(v@.skip(j as int) =~= Seq::<char>::empty());
                assert(done + spec_lines(v@.skip(j as int)) =~= done);
                assert(done =~= spec_lines(v@));
            }
            r.push(line);
            pos = j;
        } else {
            let line = if j > pos && v[j - 1] == '\r' {
                subvec(v, pos, j - 1)
            } else {
                subvec(v, pos, j)
            };
            proof {
                let k = first_pos(rest, '\n');
                assert(rest.take(k) =~= v@.subrange(pos as int, j as int));
                if j > pos && v@[j - 1] == '\r' {
                    assert(rest.take(k).drop_last() =~= v@.subrange(pos as int, j - 1));
                }
                assert(line@ == strip_cr(rest.take(k)));
                assert(rest.skip(k + 1) =~= v@.skip(j + 1 as int));
                assert(done.push(line@) + spec_lines(v@.skip(j + 1 as int)) =~= done + spec_lines(
                    rest,
                ));
                done = done.push(line@);
            }
            r.push(line);
            pos = j + 1;
        }
    }
    proof {
        if pos == v@.len() {
            assert(v@.skip(pos as int) =~= Seq::<char>::empty());
            assert(done + spec_lines(v@.skip(pos as int)) =~= done);
        }
    }
    r
}

/// The chunks of `s` between occurrences of `c`; like `str::split`, the
/// result always holds at least one (possibly empty) chunk.
pub open spec fn split_on(s: Seq<char>, c: char) -> Seq<Seq<char>>
    decreases s.len(),
    via split_on_decreases
{
    let k = first_pos(s, c);
    if k == s.len() {
        seq![s]
    } else {
        seq![s.take(k)] + split_on(s.skip(k + 1), c)
    }
}

#[via_fn]
proof fn split_on_decreases(s: Seq<char>, c: char) {
    lemma_first_pos_bounds(s, c);
}

/// The chunks of `v` between occurrences of `c`.
pub fn split_char(v: &Vec<char>, c: char) -> (r: Vec<Vec<char>>)
    ensures
        r@.len() == split_on(v@, c).len(),
        forall|i: int| 0 <= i < r@.len() ==> #[trigger] r@[i]@ == split_on(v@, c)[i],
{
    let mut r: Vec<Vec<char>> = Vec::new();
    let ghost mut done = Seq::<Seq<char>>::empty();
    let mut pos: usize = 0;
    proof {
        assert(v@.skip(0) =~= v@);
        assert(done + split_on(v@, c) =~= split_on(v@, c));
    }
    loop
        invariant_except_break
            done + split_on(v@.skip(pos as int), c) == split_on(v@, c),
        invariant
            pos <= v@.len(),
            r@.len() == done.len(),
            forall|i: int| 0 <= i < done.len() ==> #[trigger] r@[i]@ == done[i],
        ensures
            r@.len() == split_on(v@, c).len(),
            forall|i: int| 0 <= i < r@.len() ==> #[trigger] r@[i]@ == split_on(v@, c)[i],
        decreases v@.len() - pos,
    {
        let ghost rest = v@.skip(pos as int);
        let mut j: usize = pos;
        while j < v.len() && v[j] != c
            invariant
                pos <= j <= v@.len(),
                forall|t: int| pos <= t < j ==> v@[t] != c,
            decreases v@.len() - j,
        {
            j += 1;
        }
        proof {
            assert forall|t: int| 0 <= t < j - pos implies rest[t] != c by {
                assert(rest[t] == v@[t + pos]);
            }
            lemma_first_pos_scan(rest, c, j - pos);
        }
        let chunk = subvec(v, pos, j);
        if j == v.len() {
            proof {
                assert(chunk@ =~= rest);
                assert(split_on(rest, c) =~= seq![rest]);
                assert(done.push(rest) =~= done + seq![rest]);
                done = done.push(rest);
                assert(done =~= split_on(v@, c));
            }
            r.push(chunk);
            break ;
        } else {
            proof {
                let k = first_pos(rest, c);
                assert(rest.take(k) =~= v@.subrange(pos as int, j as int));
                assert(chunk@ == rest.take(k));
                assert(rest.skip(k + 1) =~= v@.skip(j + 1 as int));
                assert(done.push(chunk@) + split_on(v@.skip(j + 1 as int), c) =~= done + split_on(
                    rest,
                    c,
                ));
                done = done.push(chunk@);
            }
            r.push(chunk);
            pos = j + 1;
        }
    }
    r
}

/// `s[from..to]` with the window clamped to the sequence: an inverted window
/// gives the empty sequence, an overlong one stops at the sequence's end.
pub open spec fn clamped_slice(s: Seq<char>, from: int, to: int) -> Seq<char> {
    if from > to {
        Seq::empty()
    } else {
        let f = if from > s.len() {
            s.len() as int
        } else {
            from
        };
        let t = if to > s.len() {
            s.len() as int
        } else {
            to
        };
        s.subrange(f, t)
    }
}

/// `sub` occurs in `s` at position `i`.
pub open spec fn contains_at(s: Seq<char>, i: int, sub: Seq<char>) -> bool {
    0 <= i && i + sub.len() <= s.len() && s.subrange(i, i + sub.len()) == sub
}

/// `sub` occurs somewhere in `s`.
pub open spec fn contains_seq(s: Seq<char>, sub: Seq<char>) -> bool {
    exists|i: int| contains_at(s, i, sub)
}

pub fn contains_chars(s: &Vec<char>, sub: &Vec<char>) -> (r: bool)
    ensures
        r == contains_seq(s@, sub@),
{
    if sub.len() > s.len() {
        return false;
    }
    let mut i: usize = 0;
    while i <= s.len() - sub.len()
        invariant
            sub@.len() <= s@.len(),
            i <= s@.len() - sub@.len() + 1,
            forall|t: int| 0 <= t < i ==> !contains_at(s@, t, sub@),
        decreases s@.len() - sub@.len() + 1 - i,
    {
        let mut k: usize = 0;
        while k < sub.len() && s[i + k] == sub[k]
            invariant
                k <= sub@.len(),
                i + sub@.len() <= s@.len(),
                s@.len() <= usize::MAX,
                forall|t: int| 0 <= t < k ==> s@[i + t] == sub@[t],
            decreases sub@.len() - k,
        {
            k += 1;
        }
        if k == sub.len() {
            proof {
                assert(s@.subrange(i as int, i + sub@.len()) =~= sub@);
                assert(contains_at(s@, i as int, sub@));
            }
            return true;
        }
        proof {
            assert(!contains_at(s@, i as int, sub@)) by {
                if contains_at(s@, i as int, sub@) {
                    assert(s@.subrange(i as int, i + sub@.len())[k as int] == sub@[k as int]);
                }
            }
        }
        i += 1;
    }
    false
}

/// The chunks joined with `sep` between them, nothing at either end.
pub open spec fn join_with(chunks: Seq<Seq<char>>, sep: Seq<char>) -> Seq<char>
    decreases chunks.len(),
{
    if chunks.len() == 0 {
        Seq::empty()
    } else if chunks.len() == 1 {
        chunks[0]
    } else {
        chunks[0] + sep + join_with(chunks.drop_first(), sep)
    }
}

pub proof fn lemma_join_with_push(chunks: Seq<Seq<char>>, sep: Seq<char>, x: Seq<char>)
    ensures
        join_with(chunks.push(x), sep) == if chunks.len() == 0 {
            x
        } else {
            join_with(chunks, sep) + sep + x
        },
    decreases chunks.len(),
{
    if chunks.len() == 0 {
        assert(chunks.push(x)[0] =~= x);
        assert(join_with(chunks.push(x), sep) == x);
    } else {
        assert(chunks.push(x).drop_first() =~= chunks.drop_first().push(x));
        lemma_join_with_push(chunks.drop_first(), sep, x);
        if chunks.len() == 1 {
            assert(join_with(chunks, sep) == chunks[0]);
            assert(join_with(chunks.push(x), sep) =~= chunks[0] + sep + x);
        } else {
            assert(join_with(chunks.push(x), sep) =~= join_with(chunks, sep) + sep + x);
        }
    }
}

/// The given lines joined with single newlines.
pub fn join_lines(lines: &Vec<Vec<char>>) -> (r: Vec<char>)
    ensures
        r@ == join_with(lines@.map_values(|l: Vec<char>| l@), seq!['\n']),
{
    let ghost lv = lines@.map_values(|l: Vec<char>| l@);
    let mut r: Vec<char> = Vec::new();
    let mut i: usize = 0;
    while i < lines.len()
        invariant
            i <= lines@.len(),
            lv == lines@.map_values(|l: Vec<char>| l@),
            r@ == join_with(lv.take(i as int), seq!['\n']),
        decreases lines@.len() - i,
    {
        if i > 0 {
            r.push('\n');
        }
        let line = &lines[i];
        let mut k: usize = 0;
        while k < line.len()
            invariant
                k <= line@.len(),
                i < lines@.len(),
                lv == lines@.map_values(|l: Vec<char>| l@),
                line@ == lv[i as int],
                r@ == if i == 0 {
                    line@.take(k as int)
                } else {
                    join_with(lv.take(i as int), seq!['\n']) + seq!['\n'] + line@.take(k as int)
                },
            decreases line@.len() - k,
        {
            r.push(line[k]);
            proof {
                assert(line@.take(k + 1 as int) =~= line@.take(k as int).push(line@[k as int]));
                if i > 0 {
                    assert((join_with(lv.take(i as int), seq!['\n']) + seq!['\n'] + line@.take(
                        k + 1 as int,
                    )) =~= (join_with(lv.take(i as int), seq!['\n']) + seq!['\n'] + line@.take(
                        k as int,
                    )).push(line@[k as int]));
                }
            }
            k += 1;
        }
        proof {
            lemma_join_with_push(lv.take(i as int), seq!['\n'], lv[i as int]);
            assert(lv.take(i as int).push(lv[i as int]) =~= lv.take(i + 1 as int));
            assert(line@.take(line@.len() as int) =~= line@);
            if i == 0 {
                assert(r@ == join_with(lv.take(i + 1 as int), seq!['\n']));
            }
        }
        i += 1;
    }
    proof {
        assert(lv.take(lv.len() as int) =~= lv);
    }
    r
}

/// A copy of `v[from..to]`.
pub fn subvec(v: &Vec<char>, from: usize, to: usize) -> (r: Vec<char>)
    requires
        from <= to <= v@.len(),
    ensures
        r@ == v@.subrange(from as int, to as int),
{
    let mut r: Vec<char> = Vec::new();
    let mut i: usize = from;
    while i < to
        invariant
            from <= i <= to <= v@.len(),
            r@ == v@.subrange(from as int, i as int),
        decreases to - i,
    {
        r.push(v[i]);
        proof {
            assert(v@.subrange(from as int, i + 1 as int) =~= v@.subrange(
                from as int,
                i as int,
            ).push(v@[i as int]));
        }
        i += 1;
    }
    r
}

} // verus!
