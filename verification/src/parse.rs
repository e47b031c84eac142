//! The column-inference parser: recover cell boundaries from whitespace
//! aligned text with no explicit delimiter, and split every line into cells.
//!
//! A split position is a character column that holds a space in the first
//! sample line (never column 0, so a single leading marker column is not cut
//! off) and a space — or nothing at all — in every later sample line. Runs of
//! adjacent split positions collapse to one boundary placed just past the
//! run; boundary 0 is always prepended. Lines shorter than the boundary list
//! yield empty cells rather than failing.

use vstd::prelude::*;

use crate::text::chars_of;
use crate::text::clamped_slice;
use crate::text::spec_lines;
use crate::text::split_lines;
use crate::text::string_from_chars;
use crate::text::trim_end_spec;
use crate::text::trim_end_vec;

verus! {

/// One parsed source line: the untouched text plus its ordered cells.
#[derive(Debug, PartialEq)]
pub struct Row {
    pub original_line: String,
    pub cells: Vec<String>,
}

/// The views of a sequence of strings.
pub open spec fn strings_view(v: Seq<String>) -> Seq<Seq<char>> {
    Seq::new(v.len(), |i: int| v[i]@)
}

/// The views of a sequence of character vectors.
pub open spec fn lines_view(v: Seq<Vec<char>>) -> Seq<Seq<char>> {
    Seq::new(v.len(), |i: int| v[i]@)
}

impl Row {
    pub fn new(original_line: String, cells: Vec<String>) -> (r: Row)
        ensures
            r.original_line == original_line,
            r.cells == cells,
    {
        Row { original_line, cells }
    }

    pub fn cells_as_strs(&self) -> (r: Vec<&str>)
        ensures
            r@.len() == self.cells@.len(),
            forall|i: int| 0 <= i < r@.len() ==> #[trigger] r@[i]@ == self.cells@[i]@,
    {
        let mut r: Vec<&str> = Vec::new();
        let mut i: usize = 0;
        while i < self.cells.len()
            invariant
                i <= self.cells@.len(),
                r@.len() == i,
                forall|t: int| 0 <= t < i ==> #[trigger] r@[t]@ == self.cells@[t]@,
            decreases self.cells@.len() - i,
        {
            r.push(self.cells[i].as_str());
            i += 1;
        }
        r
    }
}

/// Does `line` accept a split at `p`: the position is beyond the line's end,
/// or holds a space.
pub open spec fn space_or_absent(line: Seq<char>, p: int) -> bool {
    p >= line.len() || line[p] == ' '
}

/// A split position survives when the first sample line has a space there
/// (never position 0) and every later sample line agrees.
pub open spec fn surviving(sample: Seq<Seq<char>>, p: int) -> bool {
    &&& 0 < p < sample[0].len()
    &&& sample[0][p] == ' '
    &&& forall|j: int| 1 <= j < sample.len() ==> space_or_absent(#[trigger] sample[j], p)
}

/// The surviving split positions in `[p, n)`, ascending.
pub open spec fn positions_from(sample: Seq<Seq<char>>, p: int, n: int) -> Seq<int>
    decreases n - p,
{
    if p >= n {
        Seq::empty()
    } else if surviving(sample, p) {
        seq![p] + positions_from(sample, p + 1, n)
    } else {
        positions_from(sample, p + 1, n)
    }
}

/// All surviving split positions of the sample, ascending.
pub open spec fn surviving_positions(sample: Seq<Seq<char>>) -> Seq<int> {
    if sample.len() == 0 {
        Seq::empty()
    } else {
        positions_from(sample, 1, sample[0].len() as int)
    }
}

/// Runs of adjacent split positions collapsed: each kept position is the last
/// of its run, moved one past the run's end.
pub open spec fn collapsed(ps: Seq<int>) -> Seq<int>
    decreases ps.len(),
{
    if ps.len() == 0 {
        Seq::empty()
    } else if ps.len() == 1 {
        seq![ps[0] + 1]
    } else if ps[1] == ps[0] + 1 {
        collapsed(ps.drop_first())
    } else {
        seq![ps[0] + 1] + collapsed(ps.drop_first())
    }
}

/// The inferred cell boundaries of `text`: position 0, then one boundary per
/// collapsed run of split positions. The sample is the text without its
/// trailing whitespace.
pub open spec fn boundaries(text: Seq<char>) -> Seq<int> {
    seq![0int] + collapsed(surviving_positions(spec_lines(trim_end_spec(text))))
}

/// The cells of one line: each slice runs from its boundary to the next one
/// (or to the end of the line), with trailing whitespace trimmed.
pub open spec fn row_cells(line: Seq<char>, bounds: Seq<int>) -> Seq<Seq<char>> {
    Seq::new(
        bounds.len(),
        |i: int|
            trim_end_spec(
                clamped_slice(
                    line,
                    bounds[i],
                    if i + 1 < bounds.len() {
                        bounds[i + 1]
                    } else {
                        line.len() as int
                    },
                ),
            ),
    )
}

/// Parsing preserves left-to-right cell order, and every parsed row has
/// exactly one cell per inferred boundary: cell `i` of a row is the slice
/// from boundary `i` to boundary `i + 1` (or the line's end) of that row's
/// own line, trailing whitespace trimmed.
pub proof fn lemma_cells_follow_boundaries(line: Seq<char>, bounds: Seq<int>)
    ensures
        row_cells(line, bounds).len() == bounds.len(),
        forall|i: int|
            0 <= i < bounds.len() ==> #[trigger] row_cells(line, bounds)[i] == trim_end_spec(
                clamped_slice(
                    line,
                    bounds[i],
                    if i + 1 < bounds.len() {
                        bounds[i + 1]
                    } else {
                        line.len() as int
                    },
                ),
            ),
{
}

/// Does split position `p` survive every sample line after the first?
fn position_survives(lines: &Vec<Vec<char>>, p: usize) -> (r: bool)
    requires
        lines@.len() > 0,
        0 < p < lines@[0]@.len(),
    ensures
        r == surviving(lines_view(lines@), p as int),
{
    let first = &lines[0];
    if first[p] != ' ' {
        return false;
    }
    let mut j: usize = 1;
    while j < lines.len()
        invariant
            1 <= j <= lines@.len(),
            0 < p < lines@[0]@.len(),
            lines@[0]@[p as int] == ' ',
            forall|t: int| 1 <= t < j ==> space_or_absent(#[trigger] lines_view(lines@)[t], p as int),
        decreases lines@.len() - j,
    {
        let line = &lines[j];
        if p < line.len() && line[p] != ' ' {
            proof {
                assert(!space_or_absent(lines_view(lines@)[j as int], p as int));
            }
            return false;
        }
        j += 1;
    }
    true
}

/// The inferred column boundaries of the text, ascending, starting with 0.
pub fn get_column_indices(text: &String) -> (r: Vec<usize>)
    ensures
        r@.map_values(|p: usize| p as int) == boundaries(text@),
{
    let tchars = chars_of(text.as_str());
    let trimmed = trim_end_vec(&tchars);
    let lines = split_lines(&trimmed);
    let ghost sample = spec_lines(trim_end_spec(text@));
    proof {
        assert(lines_view(lines@) =~= sample);
    }
    let first_len: usize = if lines.len() > 0 {
        lines[0].len()
    } else {
        0
    };

    // Split positions the whole sample agrees on, ascending.
    let mut spaces: Vec<usize> = Vec::new();
    if lines.len() > 0 {
        let mut p: usize = 1;
        proof {
            assert(Seq::<int>::empty() + positions_from(sample, 1, first_len as int)
                =~= positions_from(sample, 1, first_len as int));
            assert(spaces@.map_values(|q: usize| q as int) =~= Seq::<int>::empty());
        }
        while p < first_len
            invariant
                1 <= p,
                lines@.len() > 0,
                first_len == sample[0].len(),
                lines_view(lines@) =~= sample,
                forall|t: int| 0 <= t < spaces@.len() ==> #[trigger] spaces@[t] < first_len,
                spaces@.map_values(|q: usize| q as int) + positions_from(
                    sample,
                    p as int,
                    first_len as int,
                ) == positions_from(sample, 1, first_len as int),
            decreases first_len - p,
        {
            let ghost old_m = spaces@.map_values(|q: usize| q as int);
            if position_survives(&lines, p) {
                spaces.push(p);
                proof {
                    assert(spaces@.map_values(|q: usize| q as int) =~= old_m + seq![p as int]);
                    assert(old_m + (seq![p as int] + positions_from(
                        sample,
                        p + 1,
                        first_len as int,
                    )) =~= (old_m + seq![p as int]) + positions_from(
                        sample,
                        p + 1,
                        first_len as int,
                    ));
                }
            }
            p += 1;
        }
    }
    proof {
        assert(spaces@.map_values(|q: usize| q as int) + Seq::<int>::empty() =~= spaces@.map_values(
            |q: usize| q as int,
        ));
        assert(spaces@.map_values(|q: usize| q as int) == surviving_positions(sample));
    }

    // Collapse runs of adjacent positions and prepend boundary 0.
    let ghost ps = spaces@.map_values(|q: usize| q as int);
    let ghost mut done = Seq::<int>::empty();
    let mut result: Vec<usize> = Vec::new();
    result.push(0);
    let mut i: usize = 0;
    proof {
        assert(result@.map_values(|q: usize| q as int) =~= seq![0int] + done);
        assert(ps.skip(0) =~= ps);
        assert(done + collapsed(ps) =~= collapsed(ps));
    }
    while i < spaces.len()
        invariant
            i <= spaces@.len(),
            ps == spaces@.map_values(|q: usize| q as int),
            forall|t: int| 0 <= t < spaces@.len() ==> #[trigger] spaces@[t] < first_len,
            result@.map_values(|q: usize| q as int) == seq![0int] + done,
            done + collapsed(ps.skip(i as int)) == collapsed(ps),
        decreases spaces@.len() - i,
    {
        let ghost rest = ps.skip(i as int);
        proof {
            assert(rest[0] == ps[i as int]);
            assert(rest.drop_first() =~= ps.skip(i + 1));
        }
        if i + 1 < spaces.len() && spaces[i + 1] == spaces[i] + 1 {
            proof {
                assert(rest[1] == ps[i + 1]);
                assert(collapsed(rest) == collapsed(rest.drop_first()));
            }
        } else {
            let b = spaces[i] + 1;
            let ghost old_result = result@;
            result.push(b);
            proof {
                assert(result@.map_values(|q: usize| q as int) =~= old_result.map_values(
                    |q: usize| q as int,
                ).push(b as int));
                if i + 1 < spaces@.len() {
                    assert(rest[1] == ps[i + 1]);
                    assert(collapsed(rest) == seq![rest[0] + 1] + collapsed(rest.drop_first()));
                } else {
                    assert(ps.skip(i + 1) =~= Seq::<int>::empty());
                    assert(collapsed(rest) =~= seq![rest[0] + 1] + collapsed(ps.skip(i + 1)));
                }
                let new_done = done.push(rest[0] + 1);
                assert(new_done =~= done + seq![rest[0] + 1]);
                assert(new_done + collapsed(ps.skip(i + 1)) =~= done + collapsed(rest));
                assert((seq![0int] + done).push(b as int) =~= seq![0int] + new_done);
                assert(result@.map_values(|q: usize| q as int) =~= seq![0int] + new_done);
                done = new_done;
            }
        }
        i += 1;
    }
    proof {
        assert(ps.skip(spaces@.len() as int) =~= Seq::<int>::empty());
        assert(done + Seq::<int>::empty() =~= done);
        assert(result@.map_values(|q: usize| q as int) =~= boundaries(text@));
    }
    result
}

/// The slice of `v` between `from` and `to`, total for any window: inverted
/// or out-of-range windows shrink to what the vector holds.
pub fn safe_vec_range(v: &Vec<char>, from: usize, to: usize) -> (r: Vec<char>)
    ensures
        r@ == clamped_slice(v@, from as int, to as int),
{
    if from > to {
        let r: Vec<char> = Vec::new();
        proof {
            assert(r@ =~= clamped_slice(v@, from as int, to as int));
        }
        return r;
    }
    let f: usize = if from > v.len() {
        v.len()
    } else {
        from
    };
    let t: usize = if to > v.len() {
        v.len()
    } else {
        to
    };
    crate::text::subvec(v, f, t)
}

/// The cells of one line, given the inferred boundaries.
fn line_cells(line: &Vec<char>, bounds: &Vec<usize>) -> (r: Vec<String>)
    ensures
        strings_view(r@) == row_cells(line@, bounds@.map_values(|p: usize| p as int)),
{
    let ghost bs = bounds@.map_values(|p: usize| p as int);
    let mut cells: Vec<String> = Vec::new();
    let mut i: usize = 0;
    while i < bounds.len()
        invariant
            i <= bounds@.len(),
            bs == bounds@.map_values(|p: usize| p as int),
            cells@.len() == i,
            forall|t: int| 0 <= t < i ==> #[trigger] cells@[t]@ == row_cells(line@, bs)[t],
        decreases bounds@.len() - i,
    {
        let from = bounds[i];
        let to: usize = if i + 1 < bounds.len() {
            bounds[i + 1]
        } else {
            line.len()
        };
        let raw = safe_vec_range(line, from, to);
        let trimmed = trim_end_vec(&raw);
        let cell = string_from_chars(&trimmed);
        cells.push(cell);
        i += 1;
    }
    proof {
        assert(strings_view(cells@) =~= row_cells(line@, bs));
    }
    cells
}

/// Parse the whole text: infer the boundaries from all lines, then split
/// every line into cells. Total: any input, including the empty one, yields
/// a defined result.
pub fn parse(text: String) -> (r: Vec<Row>)
    ensures
        r@.len() == spec_lines(text@).len(),
        forall|i: int|
            0 <= i < r@.len() ==> {
                &&& (#[trigger] r@[i]).original_line@ == spec_lines(text@)[i]
                &&& strings_view(r@[i].cells@) == row_cells(spec_lines(text@)[i], boundaries(text@))
            },
{
    let column_indices = get_column_indices(&text);
    let tchars = chars_of(text.as_str());
    let lines = split_lines(&tchars);
    let mut rows: Vec<Row> = Vec::new();
    let mut i: usize = 0;
    while i < lines.len()
        invariant
            i <= lines@.len(),
            rows@.len() == i,
            lines@.len() == spec_lines(text@).len(),
            forall|t: int| 0 <= t < lines@.len() ==> #[trigger] lines@[t]@ == spec_lines(text@)[t],
            column_indices@.map_values(|p: usize| p as int) == boundaries(text@),
            forall|t: int|
                0 <= t < i ==> {
                    &&& (#[trigger] rows@[t]).original_line@ == spec_lines(text@)[t]
                    &&& strings_view(rows@[t].cells@) == row_cells(
                        spec_lines(text@)[t],
                        boundaries(text@),
                    )
                },
        decreases lines@.len() - i,
    {
        let line = &lines[i];
        let cells = line_cells(line, &column_indices);
        let original = string_from_chars(line);
        rows.push(Row { original_line: original, cells });
        i += 1;
    }
    rows
}

} // verus!
