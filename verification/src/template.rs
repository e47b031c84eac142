//! Placeholder substitution: every `$N` token (a dollar sign followed by one
//! or more digits, read greedily) in a command template is replaced by the
//! capture at index `N`, or by the empty string when the index is beyond the
//! capture list — out-of-range placeholders are by design no error.

use vstd::prelude::*;
use vstd::string::StringExecFns;

use crate::config::Command;
use crate::parse::Row;
use crate::parse::strings_view;
use crate::regexes::regex_captures_list;
use crate::regexes::regex_captures_of;
use crate::regexes::regex_compiles;
use crate::text::chars_of;
use crate::text::string_from_chars;

verus! {

pub open spec fn is_digit(c: char) -> bool {
    '0' <= c <= '9'
}

pub open spec fn digit_val(c: char) -> int {
    c as int - '0' as int
}

/// The numeric value of a digit run, most significant digit first.
pub open spec fn digits_value(ds: Seq<char>) -> int
    decreases ds.len(),
{
    if ds.len() == 0 {
        0
    } else {
        digits_value(ds.drop_last()) * 10 + digit_val(ds.last())
    }
}

/// The length of the digit run at the front of `s`.
pub open spec fn digit_run(s: Seq<char>) -> int
    decreases s.len(),
{
    if s.len() == 0 {
        0
    } else if !is_digit(s[0]) {
        0
    } else {
        1 + digit_run(s.drop_first())
    }
}

pub proof fn lemma_digit_run_bounds(s: Seq<char>)
    ensures
        0 <= digit_run(s) <= s.len(),
    decreases s.len(),
{
    if s.len() == 0 || !is_digit(s[0]) {
    } else {
        lemma_digit_run_bounds(s.drop_first());
    }
}

pub proof fn lemma_digit_run_scan(s: Seq<char>, m: int)
    requires
        0 <= m <= s.len(),
        forall|t: int| 0 <= t < m ==> is_digit(#[trigger] s[t]),
        m == s.len() || !is_digit(s[m]),
    ensures
        digit_run(s) == m,
    decreases m,
{
    if m == 0 {
    } else {
        assert(is_digit(s[0]));
        assert forall|t: int| 0 <= t < m - 1 implies is_digit(#[trigger] s.drop_first()[t]) by {
            assert(s.drop_first()[t] == s[t + 1]);
        }
        lemma_digit_run_scan(s.drop_first(), m - 1);
    }
}

/// The template with every placeholder substituted: `$` followed by digits
/// becomes the capture at that index, or the empty sequence when the index is
/// out of range; everything else is copied through.
pub open spec fn subst(template: Seq<char>, values: Seq<Seq<char>>) -> Seq<char>
    decreases template.len(),
    via subst_decreases
{
    if template.len() == 0 {
        Seq::empty()
    } else if template[0] == '$' && template.len() > 1 && is_digit(template[1]) {
        let k = digit_run(template.skip(1));
        let n = digits_value(template.skip(1).take(k));
        (if 0 <= n < values.len() {
            values[n]
        } else {
            Seq::empty()
        }) + subst(template.skip(1 + k), values)
    } else {
        seq![template[0]] + subst(template.drop_first(), values)
    }
}

#[via_fn]
proof fn subst_decreases(template: Seq<char>, values: Seq<Seq<char>>) {
    if template.len() > 1 {
        lemma_digit_run_bounds(template.skip(1));
        if is_digit(template[1]) {
            assert(template.skip(1)[0] == template[1]);
        }
    }
}

/// The views of a sequence of string slices.
pub open spec fn strs_view(v: Seq<&str>) -> Seq<Seq<char>> {
    Seq::new(v.len(), |i: int| v[i]@)
}

/// Substitute every `$N` placeholder in `template` with `values[N]`, or with
/// nothing when `N` is at or beyond the end of `values`.
pub fn template_replace(template: &str, values: &Vec<&str>) -> (r: String)
    ensures
        r@ == subst(template@, strs_view(values@)),
{
    let tch = chars_of(template);
    let ghost vals = strs_view(values@);
    let mut out: Vec<char> = Vec::new();
    proof {
        assert(tch@.skip(0) =~= tch@);
        assert(out@ + subst(tch@, vals) =~= subst(tch@, vals));
    }
    let mut i: usize = 0;
    while i < tch.len()
        invariant
            i <= tch@.len(),
            tch@ == template@,
            vals == strs_view(values@),
            values@.len() == vals.len(),
            out@ + subst(tch@.skip(i as int), vals) == subst(tch@, vals),
        decreases tch@.len() - i,
    {
        let ghost rest = tch@.skip(i as int);
        proof {
            assert(rest[0] == tch@[i as int]);
        }
        if tch[i] == '$' && i + 1 < tch.len() && digit_char(tch[i + 1]) {
            proof {
                assert(rest[1] == tch@[i + 1]);
            }
            // The whole digit run after the dollar sign.
            let mut j: usize = i + 1;
            while j < tch.len() && digit_char(tch[j])
                invariant
                    i + 1 <= j <= tch@.len(),
                    forall|t: int| i + 1 <= t < j ==> is_digit(#[trigger] tch@[t]),
                decreases tch@.len() - j,
            {
                j += 1;
            }
            let ghost run = rest.skip(1);
            let ghost k = digit_run(run);
            proof {
                assert(run =~= tch@.skip(i + 1));
                assert forall|t: int| 0 <= t < j - i - 1 implies is_digit(#[trigger] run[t]) by {
                    assert(run[t] == tch@[t + i + 1]);
                }
                if (j as int) < tch@.len() {
                    assert(run[j - i - 1] == tch@[j as int]);
                }
                lemma_digit_run_scan(run, j - i - 1);
            }
            // The numeric index, tracked exactly while it could still name a
            // capture; beyond 2^64 only the fact that it is out of range.
            let ghost ds = run.take(k);
            let mut acc: u128 = 0;
            let mut t: usize = i + 1;
            while t < j
                invariant
                    i + 1 <= t <= j <= tch@.len(),
                    forall|q: int| i + 1 <= q < j ==> is_digit(#[trigger] tch@[q]),
                    ds == run.take(k),
                    run =~= tch@.skip(i + 1),
                    k == j - i - 1,
                    ({
                        let nv = digits_value(tch@.subrange(i + 1, t as int));
                        if nv <= 18446744073709551616int {
                            acc as int == nv
                        } else {
                            acc > 18446744073709551616u128
                        }
                    }),
                decreases j - t,
    {
                let d: u128 = (tch[t] as u32 - 48) as u128;
                proof {
                    assert(tch@.subrange(i + 1, t + 1 as int).drop_last() =~= tch@.subrange(
                        i + 1,
                        t as int,
                    ));
                    assert(tch@.subrange(i + 1, t + 1 as int).last() == tch@[t as int]);
                }
                if acc <= 18446744073709551616u128 {
                    acc = acc * 10 + d;
                }
                t += 1;
            }
            proof {
                assert(tch@.subrange(i + 1, j as int) =~= ds);
            }
            // Copy the capture, or nothing for an out-of-range index.
            let ghost n = digits_value(ds);
            if acc < values.len() as u128 {
                proof {
                    assert(acc as int == n);
                }
                let idx: usize = acc as usize;
                let vchars = chars_of(values[idx]);
                proof {
                    assert(vals[n] == values@[n]@);
                }
                let mut q: usize = 0;
                let ghost out_before = out@;
                while q < vchars.len()
                    invariant
                        q <= vchars@.len(),
                        out@ == out_before + vchars@.take(q as int),
                    decreases vchars@.len() - q,
                {
                    out.push(vchars[q]);
                    proof {
                        assert(vchars@.take(q + 1 as int) =~= vchars@.take(q as int).push(
                            vchars@[q as int],
                        ));
                    }
                    q += 1;
                }
                proof {
                    assert(vchars@.take(vchars@.len() as int) =~= vchars@);
                    assert(out@ =~= out_before + vals[n]);
                }
            } else {
                proof {
                    assert(n >= vals.len());
                }
            }
            proof {
                assert(run.skip(k) =~= tch@.skip(j as int));
                assert(rest.skip(1 + k) =~= tch@.skip(j as int));
                assert(subst(rest, vals) == (if 0 <= n < vals.len() {
                    vals[n]
                } else {
                    Seq::<char>::empty()
                }) + subst(tch@.skip(j as int), vals));
                assert(out@ + subst(tch@.skip(j as int), vals) =~= subst(tch@, vals));
            }
            i = j;
        } else {
            out.push(tch[i]);
            proof {
                assert(rest.drop_first() =~= tch@.skip(i + 1));
                assert(out@ + subst(tch@.skip(i + 1), vals) =~= subst(tch@, vals));
            }
            i += 1;
        }
    }
    proof {
        assert(tch@.skip(tch@.len() as int) =~= Seq::<char>::empty());
        assert(out@ + Seq::<char>::empty() =~= out@);
    }
    string_from_chars(&out)
}

/// Exec test for a decimal digit.
fn digit_char(c: char) -> (r: bool)
    ensures
        r == is_digit(c),
{
    '0' <= c && c <= '9'
}

pub proof fn lemma_digits_value_nonneg(ds: Seq<char>)
    requires
        forall|t: int| 0 <= t < ds.len() ==> is_digit(#[trigger] ds[t]),
    ensures
        digits_value(ds) >= 0,
    decreases ds.len(),
{
    if ds.len() == 0 {
    } else {
        assert(is_digit(ds.last()));
        lemma_digits_value_nonneg(ds.drop_last());
    }
}

/// An out-of-range placeholder always substitutes to the empty string: a
/// template that is exactly one `$N` token whose index is at or beyond the
/// end of the capture list yields nothing — by design, never an error.
pub proof fn lemma_out_of_range_placeholder(ds: Seq<char>, values: Seq<Seq<char>>)
    requires
        ds.len() > 0,
        forall|t: int| 0 <= t < ds.len() ==> is_digit(#[trigger] ds[t]),
        digits_value(ds) >= values.len(),
    ensures
        subst(seq!['$'] + ds, values) == Seq::<char>::empty(),
{
    let template = seq!['$'] + ds;
    assert(template[0] == '$');
    assert(template[1] == ds[0]);
    assert(template.skip(1) =~= ds);
    lemma_digit_run_scan(ds, ds.len() as int);
    assert(ds.take(ds.len() as int) =~= ds);
    lemma_digits_value_nonneg(ds);
    assert(template.skip(1 + ds.len() as int) =~= Seq::<char>::empty());
    assert(subst(Seq::<char>::empty(), values) =~= Seq::<char>::empty());
    assert(subst(template, values) =~= Seq::<char>::empty() + Seq::<char>::empty());
    assert(Seq::<char>::empty() + Seq::<char>::empty() =~= Seq::<char>::empty());
}

/// The capture list a regex produces against a line: the first match's
/// captures, or the empty list when nothing matches.
pub open spec fn capture_values(regex: Seq<char>, line: Seq<char>) -> Seq<Seq<char>> {
    match regex_captures_of(regex, line) {
        Some(cs) => cs,
        None => Seq::empty(),
    }
}

/// What resolving a command spec against a row yields: substitution from the
/// regex captures when a capture regex is configured — `None` when that
/// regex does not compile — else substitution from the row's cells.
pub open spec fn resolve_spec(
    template: Seq<char>,
    regex: Option<Seq<char>>,
    line: Seq<char>,
    cells: Seq<Seq<char>>,
) -> Option<Seq<char>> {
    match regex {
        Some(p) => if regex_compiles(p) {
            Some(subst(template, capture_values(p, line)))
        } else {
            None
        },
        None => Some(subst(template, cells)),
    }
}

/// A configured capture regex that failed to compile. Reported to the
/// operator; never a process abort.
#[derive(Debug, PartialEq)]
pub struct InvalidPatternError {
    pub pattern: String,
}

/// Resolve a command spec against a row: fill its `$N` placeholders from the
/// capture regex applied to the row's original line, or, without a regex,
/// from the row's cells.
pub fn resolve_command<C: Command>(command: &C, row: &Row) -> (r: Result<
    String,
    InvalidPatternError,
>)
    ensures
        match r {
            Ok(s) => resolve_spec(
                command.spec_command(),
                command.spec_regex(),
                row.original_line@,
                strings_view(row.cells@),
            ) == Some(s@),
            Err(e) => {
                &&& resolve_spec(
                    command.spec_command(),
                    command.spec_regex(),
                    row.original_line@,
                    strings_view(row.cells@),
                ) is None
                &&& command.spec_regex() matches Some(p) && e.pattern@ == p
            },
        },
{
    match command.regex() {
        Some(pattern) => {
            match regex_captures_list(pattern, row.original_line.as_str()) {
                None => Err(InvalidPatternError { pattern: String::from_str(pattern) }),
                Some(caps_opt) => {
                    let ghost p = command.spec_regex()->0;
                    let values: Vec<String> = match caps_opt {
                        Some(v) => v,
                        None => Vec::new(),
                    };
                    let mut refs: Vec<&str> = Vec::new();
                    let mut i: usize = 0;
                    while i < values.len()
                        invariant
                            i <= values@.len(),
                            refs@.len() == i,
                            forall|t: int| 0 <= t < i ==> #[trigger] refs@[t]@ == values@[t]@,
                        decreases values@.len() - i,
                    {
                        refs.push(values[i].as_str());
                        i += 1;
                    }
                    proof {
                        assert(strs_view(refs@) =~= capture_values(p, row.original_line@));
                    }
                    Ok(template_replace(command.command(), &refs))
                },
            }
        },
        None => {
            let strs = row.cells_as_strs();
            proof {
                assert(strs_view(strs@) =~= strings_view(row.cells@));
            }
            Ok(template_replace(command.command(), &strs))
        },
    }
}

} // verus!
