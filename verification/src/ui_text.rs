//! The text the renderer shows without computing anything itself: the
//! keybinding help lines — each binding's template re-resolved against the
//! current selection — and the spinner frame for the status line.

use vstd::prelude::*;
use vstd::string::StringExecFns;

use crate::app::App;
use crate::config::KeyBinding;
use crate::config::Profile;
use crate::events::invalid_pattern_message;
use crate::events::spec_selected_row;
use crate::parse::Row;
use crate::parse::strings_view;
use crate::template::resolve_command;
use crate::template::resolve_spec;
use crate::text::join_with;
use crate::text::lemma_join_with_push;
use crate::text::push_char;

verus! {

/// The spinner frame shown `now_millis` after the epoch: one step every
/// tenth of a second, cycling through seven frames.
pub open spec fn spinner_char(now_millis: int) -> char {
    let idx = (now_millis / 100) % 7;
    if idx == 0 {
        '\u{28fe}'
    } else if idx == 1 {
        '\u{28f7}'
    } else if idx == 2 {
        '\u{28ef}'
    } else if idx == 3 {
        '\u{28df}'
    } else if idx == 4 {
        '\u{287f}'
    } else if idx == 5 {
        '\u{28bf}'
    } else {
        '\u{28fb}'
    }
}

/// The spinner frame for the given time, as a one-character string.
pub fn spinner_frame(now_millis: u64) -> (r: String)
    ensures
        r@ == seq![spinner_char(now_millis as int)],
{
    let idx = (now_millis / 100) % 7;
    let c: char = if idx == 0 {
        '\u{28fe}'
    } else if idx == 1 {
        '\u{28f7}'
    } else if idx == 2 {
        '\u{28ef}'
    } else if idx == 3 {
        '\u{28df}'
    } else if idx == 4 {
        '\u{287f}'
    } else if idx == 5 {
        '\u{28bf}'
    } else {
        '\u{28fb}'
    };
    let mut s = String::new();
    push_char(&mut s, c);
    proof {
        assert(s@ =~= seq![spinner_char(now_millis as int)]);
    }
    s
}

/// The help line for one binding against the selected row: its key, then the
/// resolved command; a capture regex that does not compile shows the error
/// text instead.
pub open spec fn binding_help_line(kb: KeyBinding, row: Row) -> Seq<char> {
    let resolved = resolve_spec(
        kb.command@,
        match kb.regex {
            Some(s) => Some(s@),
            None => None,
        },
        row.original_line@,
        strings_view(row.cells@),
    );
    seq![kb.key] + ": "@ + (match resolved {
        Some(s) => s,
        None => invalid_pattern_message(kb.regex->0@),
    })
}

/// The profile's help lines: one per binding when a row is selected, else a
/// single placeholder line.
pub open spec fn profile_help_lines(profile: Option<Profile>, row: Option<Row>) -> Seq<Seq<char>> {
    match profile {
        None => seq!["No profile selected"@],
        Some(p) => if p.key_bindings@.len() == 0 {
            seq!["No keybindings set"@]
        } else {
            match row {
                None => seq!["No item selected"@],
                Some(r) => Seq::new(p.key_bindings@.len(), |i: int| binding_help_line(
                    p.key_bindings@[i],
                    r,
                )),
            }
        },
    }
}

/// The whole help text: the built-in lines, then the profile's, joined with
/// newlines.
pub open spec fn display_keybindings_spec(profile: Option<Profile>, row: Option<Row>) -> Seq<
    char,
> {
    join_with(
        seq!["\u{25b2}/\u{25bc}/j/k: up/down"@, "q: quit"@] + profile_help_lines(profile, row),
        seq!['\n'],
    )
}

/// The built-in help lines shown above any profile's.
pub fn default_keybindings() -> (r: Vec<String>)
    ensures
        r@.len() == 2,
        r@[0]@ == "\u{25b2}/\u{25bc}/j/k: up/down"@,
        r@[1]@ == "q: quit"@,
{
    let mut r: Vec<String> = Vec::new();
    r.push(String::from_str("\u{25b2}/\u{25bc}/j/k: up/down"));
    r.push(String::from_str("q: quit"));
    r
}

/// The profile's help lines for the current selection.
pub fn profile_keybindings(profile: Option<&Profile>, app: &App) -> (r: Vec<String>)
    requires
        app.wf(),
    ensures
        ({
            let lines = profile_help_lines(
                match profile {
                    Some(p) => Some(*p),
                    None => None,
                },
                spec_selected_row(*app),
            );
            r@.len() == lines.len() && forall|i: int|
                0 <= i < r@.len() ==> #[trigger] r@[i]@ == lines[i]
        }),
{
    let profile = match profile {
        Some(p) => p,
        None => {
            let mut r: Vec<String> = Vec::new();
            r.push(String::from_str("No profile selected"));
            return r;
        },
    };
    if profile.key_bindings.len() == 0 {
        let mut r: Vec<String> = Vec::new();
        r.push(String::from_str("No keybindings set"));
        return r;
    }
    let row = match app.get_selected_row() {
        Some(row) => row,
        None => {
            let mut r: Vec<String> = Vec::new();
            r.push(String::from_str("No item selected"));
            return r;
        },
    };
    let ghost lines = profile_help_lines(Some(*profile), spec_selected_row(*app));
    let mut r: Vec<String> = Vec::new();
    let mut i: usize = 0;
    while i < profile.key_bindings.len()
        invariant
            i <= profile.key_bindings@.len(),
            lines =~= Seq::new(
                profile.key_bindings@.len(),
                |t: int| binding_help_line(profile.key_bindings@[t], *row),
            ),
            r@.len() == i,
            forall|t: int| 0 <= t < i ==> #[trigger] r@[t]@ == lines[t],
        decreases profile.key_bindings@.len() - i,
    {
        let kb = &profile.key_bindings[i];
        let mut line = String::new();
        push_char(&mut line, kb.key);
        line.append(": ");
        match resolve_command(kb, row) {
            Ok(cmd) => {
                line.append(cmd.as_str());
            },
            Err(e) => {
                line.append("Invalid regex in keybinding: ");
                line.append(e.pattern.as_str());
            },
        }
        proof {
            assert(line@ =~= binding_help_line(profile.key_bindings@[i as int], *row));
        }
        r.push(line);
        i += 1;
    }
    r
}

/// The byte length of a string's text as `str::len` reports it, the measure
/// the column widths use.
pub open spec fn byte_len(s: Seq<char>) -> int {
    (vstd::utf8::encode_utf8(s).len() as usize) as int
}

/// One row folded into the running column widths: positionwise maximum,
/// truncated to the shorter of the two.
pub open spec fn combine_widths(acc: Seq<int>, cells: Seq<Seq<char>>) -> Seq<int> {
    Seq::new(
        if acc.len() <= cells.len() {
            acc.len()
        } else {
            cells.len()
        },
        |j: int|
            if acc[j] >= byte_len(cells[j]) {
                acc[j]
            } else {
                byte_len(cells[j])
            },
    )
}

pub open spec fn widths_from(rows: Seq<Row>, acc: Seq<int>) -> Seq<int>
    decreases rows.len(),
{
    if rows.len() == 0 {
        acc
    } else {
        widths_from(rows.drop_first(), combine_widths(acc, strings_view(rows[0].cells@)))
    }
}

/// The width of each rendered column: the maximum byte length any row's cell
/// takes there, over as many columns as every row has.
pub open spec fn column_widths_spec(rows: Seq<Row>) -> Seq<int> {
    if rows.len() == 0 {
        Seq::empty()
    } else {
        widths_from(rows, Seq::new(rows[0].cells@.len(), |j: int| 0))
    }
}

/// The width of each rendered column over the visible rows.
pub fn get_column_widths(rows: &Vec<&Row>) -> (r: Vec<usize>)
    ensures
        r@.map_values(|w: usize| w as int) == column_widths_spec(
            rows@.map_values(|row: &Row| *row),
        ),
{
    let ghost rseq = rows@.map_values(|row: &Row| *row);
    if rows.len() == 0 {
        let r: Vec<usize> = Vec::new();
        proof {
            assert(r@.map_values(|w: usize| w as int) =~= column_widths_spec(rseq));
        }
        return r;
    }
    let mut acc: Vec<usize> = Vec::new();
    let ncols = rows[0].cells.len();
    let mut j: usize = 0;
    while j < ncols
        invariant
            j <= ncols,
            acc@.len() == j,
            forall|t: int| 0 <= t < j ==> #[trigger] acc@[t] == 0usize,
        decreases ncols - j,
    {
        acc.push(0);
        j += 1;
    }
    proof {
        assert(acc@.map_values(|w: usize| w as int) =~= Seq::new(
            rseq[0].cells@.len(),
            |t: int| 0,
        ));
        assert(rseq.skip(0) =~= rseq);
    }
    let mut i: usize = 0;
    while i < rows.len()
        invariant
            i <= rows@.len(),
            rseq == rows@.map_values(|row: &Row| *row),
            rseq.len() > 0,
            widths_from(rseq.skip(i as int), acc@.map_values(|w: usize| w as int)) == widths_from(
                rseq,
                Seq::new(rseq[0].cells@.len(), |t: int| 0),
            ),
        decreases rows@.len() - i,
    {
        let row: &Row = rows[i];
        let bound: usize = if acc.len() <= row.cells.len() {
            acc.len()
        } else {
            row.cells.len()
        };
        let ghost acc_views = acc@.map_values(|w: usize| w as int);
        let ghost cells_views = strings_view(row.cells@);
        let mut next_acc: Vec<usize> = Vec::new();
        let mut j: usize = 0;
        while j < bound
            invariant
                j <= bound,
                bound <= acc@.len(),
                bound <= row.cells@.len(),
                acc_views == acc@.map_values(|w: usize| w as int),
                cells_views == strings_view(row.cells@),
                bound as int == combine_widths(acc_views, cells_views).len(),
                next_acc@.len() == j,
                forall|t: int|
                    0 <= t < j ==> #[trigger] next_acc@[t] as int == combine_widths(
                        acc_views,
                        cells_views,
                    )[t],
            decreases bound - j,
        {
            let cell_len = row.cells[j].as_str().len();
            let w = if acc[j] >= cell_len {
                acc[j]
            } else {
                cell_len
            };
            proof {
                assert(cells_views[j as int] == row.cells@[j as int]@);
                assert(cell_len as int == byte_len(cells_views[j as int]));
                assert(w as int == combine_widths(acc_views, cells_views)[j as int]);
            }
            next_acc.push(w);
            j += 1;
        }
        proof {
            assert(next_acc@.map_values(|w: usize| w as int) =~= combine_widths(
                acc_views,
                cells_views,
            ));
            assert(rseq.skip(i as int).drop_first() =~= rseq.skip(i + 1));
            assert(rseq.skip(i as int)[0] == rseq[i as int]);
            assert(strings_view(rseq[i as int].cells@) =~= cells_views);
        }
        acc = next_acc;
        i += 1;
    }
    proof {
        assert(rseq.skip(rseq.len() as int) =~= Seq::<Row>::empty());
    }
    acc
}

/// The whole help text the renderer prints under the table.
pub fn display_keybindings(profile: Option<&Profile>, app: &App) -> (r: String)
    requires
        app.wf(),
    ensures
        r@ == display_keybindings_spec(
            match profile {
                Some(p) => Some(*p),
                None => None,
            },
            spec_selected_row(*app),
        ),
{
    let mut lines = default_keybindings();
    let mut more = profile_keybindings(profile, app);
    let ghost all = seq!["\u{25b2}/\u{25bc}/j/k: up/down"@, "q: quit"@] + profile_help_lines(
        match profile {
            Some(p) => Some(*p),
            None => None,
        },
        spec_selected_row(*app),
    );
    let mut i: usize = 0;
    while i < more.len()
        invariant
            i <= more@.len(),
            lines@.len() == 2 + i,
            forall|t: int| 0 <= t < lines@.len() ==> #[trigger] lines@[t]@ == all[t],
            all.len() == 2 + more@.len(),
            forall|t: int| 0 <= t < more@.len() ==> #[trigger] more@[t]@ == all[t + 2],
        decreases more@.len() - i,
    {
        let line = more[i].clone();
        lines.push(line);
        i += 1;
    }
    let mut out = String::new();
    let mut i: usize = 0;
    proof {
        assert(all.take(0) =~= Seq::<Seq<char>>::empty());
        assert(out@ =~= join_with(all.take(0), seq!['\n']));
    }
    while i < lines.len()
        invariant
            i <= lines@.len(),
            lines@.len() == all.len(),
            forall|t: int| 0 <= t < lines@.len() ==> #[trigger] lines@[t]@ == all[t],
            out@ == join_with(all.take(i as int), seq!['\n']),
        decreases lines@.len() - i,
    {
        if i > 0 {
            push_char(&mut out, '\n');
        }
        out.append(lines[i].as_str());
        proof {
            lemma_join_with_push(all.take(i as int), seq!['\n'], all[i as int]);
            assert(all.take(i as int).push(all[i as int]) =~= all.take(i + 1 as int));
            if i > 0 {
                assert(join_with(all.take(i as int), seq!['\n']) + seq!['\n'] + all[i as int]
                    =~= out@);
            }
        }
        i += 1;
    }
    proof {
        assert(all.take(all.len() as int) =~= all);
    }
    out
}

} // verus!
