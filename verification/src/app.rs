//! The application state the event loop drives: the parsed rows, the filter,
//! the cursor and the focused panel. Every mutation re-clamps the cursor, so
//! the cursor invariant — inside `[0, row_count)`, or "index 0 of nothing"
//! when no row is visible — holds after any sequence of updates.

use vstd::prelude::*;

use crate::config::Config;
use crate::config::profile_matches_command;
use crate::parse::Row;
use crate::selection::StatefulTable;
use crate::text::chars_of;
use crate::text::contains_chars;
use crate::text::contains_seq;
use crate::text::lower_seq;
use crate::text::lower_vec;
use crate::text::pop_char;
use crate::text::push_char;

verus! {

/// Which panel owns the next keypress. Exactly one is active.
#[derive(Debug, PartialEq)]
pub enum FocusedPanel {
    Table,
    Search,
    ErrorPopup(String),
    ConfirmationPopup(String),
}

/// The command-line arguments the core works from: the source command, how
/// many leading output lines to drop, and the refresh override in whole
/// milliseconds (zero when none was given).
pub struct Args {
    pub command: String,
    pub lines_to_skip: usize,
    pub refresh_frequency_ms: u64,
}

/// Does a row pass the filter: an empty filter passes everything, otherwise
/// the filter must occur in the row's original line, case-insensitively.
pub open spec fn row_passes(line: Seq<char>, filter: Seq<char>) -> bool {
    filter.len() == 0 || contains_seq(lower_seq(line), lower_seq(filter))
}

/// The rows passing the filter, in order.
pub open spec fn filtered_seq(rows: Seq<Row>, filter: Seq<char>) -> Seq<Row> {
    rows.filter(|row: Row| row_passes(row.original_line@, filter))
}

/// Where the cursor lands after a clamp against `len` visible rows: with no
/// rows it rests at 0 ("index 0 of nothing"); otherwise an absent cursor
/// selects row 0 and a too-far cursor moves to the last row.
pub open spec fn clamped_cursor(sel: Option<usize>, len: int) -> int {
    let cur = match sel {
        Some(i) => i as int,
        None => 0,
    };
    if len == 0 {
        0
    } else if cur > len - 1 {
        len - 1
    } else {
        cur
    }
}

pub struct App {
    pub rows: Vec<Row>,
    pub table: StatefulTable,
    pub config: Config,
    /// Index of the active profile in `config.profiles`, if any matched.
    pub profile: Option<usize>,
    pub args: Args,
    pub status_text: Option<String>,
    pub filter_text: String,
    pub focused_panel: FocusedPanel,
    pub selected_item_content: String,
    pub config_path: String,
}

impl App {
    /// The rows currently visible.
    pub open spec fn visible(self) -> Seq<Row> {
        filtered_seq(self.rows@, self.filter_text@)
    }

    /// The cursor invariant, plus the row count agreeing with the filter.
    pub open spec fn cursor_synced(self) -> bool {
        &&& self.table.cursor_ok()
        &&& self.table.row_count == self.visible().len()
    }

    /// A valid profile index, and the cursor in sync: what every core
    /// operation preserves.
    pub open spec fn wf(self) -> bool {
        &&& match self.profile {
            Some(i) => i < self.config.profiles@.len(),
            None => true,
        }
        &&& self.cursor_synced()
    }

    /// A fresh application over the given configuration: no rows yet, no
    /// selection, the table panel focused, and the first matching profile
    /// (in declared order) active.
    pub fn new(config: Config, config_path: String, args: Args) -> (r: App)
        ensures
            r.wf(),
            r.rows@.len() == 0,
            r.table.selected is None,
            r.table.row_count == 0,
            r.config == config,
            r.args == args,
            r.config_path == config_path,
            r.status_text is None,
            r.filter_text@ == Seq::<char>::empty(),
            r.focused_panel == FocusedPanel::Table,
            r.selected_item_content@ == Seq::<char>::empty(),
            match r.profile {
                Some(i) => {
                    &&& i < config.profiles@.len()
                    &&& profile_matches_command(config.profiles@[i as int], args.command@)
                    &&& forall|t: int|
                        0 <= t < i ==> !profile_matches_command(
                            #[trigger] config.profiles@[t],
                            args.command@,
                        )
                },
                None => forall|t: int|
                    0 <= t < config.profiles@.len() ==> !profile_matches_command(
                        #[trigger] config.profiles@[t],
                        args.command@,
                    ),
            },
    {
        let profile = config.find_profile_index(args.command.as_str());
        let app = App {
            rows: Vec::new(),
            table: StatefulTable::new(0),
            config,
            profile,
            args,
            status_text: None,
            filter_text: String::new(),
            focused_panel: FocusedPanel::Table,
            selected_item_content: String::new(),
            config_path,
        };
        proof {
            reveal(Seq::filter);
            assert(app.visible() =~= Seq::<Row>::empty());
        }
        app
    }

    /// The rows that pass the current filter, in order.
    pub fn filtered_rows(&self) -> (r: Vec<&Row>)
        ensures
            r@.map_values(|row: &Row| *row) == self.visible(),
    {
        let filter_chars = chars_of(self.filter_text.as_str());
        let filter_lower = lower_vec(&filter_chars);
        let mut r: Vec<&Row> = Vec::new();
        let mut i: usize = 0;
        proof {
            reveal(Seq::filter);
            assert(self.rows@.take(0) =~= Seq::<Row>::empty());
            assert(r@.map_values(|row: &Row| *row) =~= filtered_seq(
                self.rows@.take(0),
                self.filter_text@,
            ));
        }
        while i < self.rows.len()
            invariant
                i <= self.rows@.len(),
                filter_chars@ == self.filter_text@,
                filter_lower@ == lower_seq(self.filter_text@),
                r@.map_values(|row: &Row| *row) == filtered_seq(
                    self.rows@.take(i as int),
                    self.filter_text@,
                ),
            decreases self.rows@.len() - i,
        {
            let row = &self.rows[i];
            let passes: bool = if filter_chars.len() == 0 {
                true
            } else {
                let line_chars = chars_of(row.original_line.as_str());
                let line_lower = lower_vec(&line_chars);
                contains_chars(&line_lower, &filter_lower)
            };
            proof {
                reveal(Seq::filter);
                assert(passes == row_passes(
                    self.rows@[i as int].original_line@,
                    self.filter_text@,
                ));
                assert(self.rows@.take(i + 1 as int).drop_last() =~= self.rows@.take(i as int));
                assert(self.rows@.take(i + 1 as int).last() == self.rows@[i as int]);
                assert(filtered_seq(self.rows@.take(i + 1 as int), self.filter_text@)
                    == if row_passes(self.rows@[i as int].original_line@, self.filter_text@) {
                    filtered_seq(self.rows@.take(i as int), self.filter_text@).push(
                        self.rows@[i as int],
                    )
                } else {
                    filtered_seq(self.rows@.take(i as int), self.filter_text@)
                });
            }
            let ghost old_map = r@.map_values(|row: &Row| *row);
            if passes {
                r.push(row);
                proof {
                    assert(r@.map_values(|row: &Row| *row) =~= old_map.push(self.rows@[i as int]));
                }
            }
            i += 1;
        }
        proof {
            assert(self.rows@.take(self.rows@.len() as int) =~= self.rows@);
        }
        r
    }

    /// The row under the cursor: `None` with no selection or when the cursor
    /// rests on "index 0 of nothing".
    pub fn get_selected_row(&self) -> (r: Option<&Row>)
        ensures
            match r {
                Some(row) => {
                    &&& self.table.selected matches Some(i)
                    &&& i < self.visible().len()
                    &&& *row == self.visible()[i as int]
                },
                None => match self.table.selected {
                    Some(i) => i >= self.visible().len(),
                    None => true,
                },
            },
    {
        match self.table.selected {
            Some(i) => {
                let f = self.filtered_rows();
                if i < f.len() {
                    let row: &Row = f[i];
                    proof {
                        assert(f@.map_values(|row: &Row| *row)[i as int] == self.visible()[
                            i as int
                        ]);
                    }
                    Some(row)
                } else {
                    None
                }
            },
            None => None,
        }
    }

    /// Re-clamp the cursor after the row set or the filter changed.
    pub fn adjust_cursor(&mut self)
        ensures
            *final(self) == (App { table: final(self).table, ..*old(self) }),
            final(self).table.row_count == old(self).visible().len(),
            final(self).table.selected == Some(
                clamped_cursor(old(self).table.selected, old(self).visible().len() as int) as usize,
            ),
            final(self).cursor_synced(),
    {
        let filtered = self.filtered_rows();
        let length = filtered.len();
        proof {
            assert(filtered@.map_values(|row: &Row| *row).len() == self.visible().len());
        }
        self.table.row_count = length;
        let cur: usize = match self.table.selected {
            Some(i) => i,
            None => 0,
        };
        if length == 0 {
            self.table.selected = Some(0);
        } else if cur > length - 1 {
            self.table.selected = Some(length - 1);
        } else {
            self.table.selected = Some(cur);
        }
    }

    /// Replace the whole row set (a refresh landed) and re-clamp.
    pub fn update_rows(&mut self, rows: Vec<Row>)
        ensures
            *final(self) == (App { rows, table: final(self).table, ..*old(self) }),
            final(self).table.row_count == final(self).visible().len(),
            final(self).table.selected == Some(
                clamped_cursor(
                    old(self).table.selected,
                    filtered_seq(rows@, old(self).filter_text@).len() as int,
                ) as usize,
            ),
            final(self).cursor_synced(),
    {
        self.rows = rows;
        self.adjust_cursor();
    }

    /// Animation ticks mutate nothing in the core.
    pub fn on_tick(&mut self)
        ensures
            *final(self) == *old(self),
    {
    }

    /// Append one character to the filter and re-clamp.
    pub fn push_filter_text_char(&mut self, c: char)
        ensures
            *final(self) == (App {
                filter_text: final(self).filter_text,
                table: final(self).table,
                ..*old(self)
            }),
            final(self).filter_text@ == old(self).filter_text@.push(c),
            final(self).table.selected == Some(
                clamped_cursor(old(self).table.selected, final(self).visible().len() as int)
                    as usize,
            ),
            final(self).cursor_synced(),
    {
        push_char(&mut self.filter_text, c);
        self.adjust_cursor();
    }

    /// Drop the last filter character (if any) and re-clamp.
    pub fn pop_filter_text_char(&mut self)
        ensures
            *final(self) == (App {
                filter_text: final(self).filter_text,
                table: final(self).table,
                ..*old(self)
            }),
            final(self).filter_text@ == if old(self).filter_text@.len() == 0 {
                old(self).filter_text@
            } else {
                old(self).filter_text@.drop_last()
            },
            final(self).table.selected == Some(
                clamped_cursor(old(self).table.selected, final(self).visible().len() as int)
                    as usize,
            ),
            final(self).cursor_synced(),
    {
        pop_char(&mut self.filter_text);
        self.adjust_cursor();
    }

    /// Clear the filter and re-clamp.
    pub fn reset_filter_text(&mut self)
        ensures
            *final(self) == (App {
                filter_text: final(self).filter_text,
                table: final(self).table,
                ..*old(self)
            }),
            final(self).filter_text@ == Seq::<char>::empty(),
            final(self).table.selected == Some(
                clamped_cursor(old(self).table.selected, final(self).visible().len() as int)
                    as usize,
            ),
            final(self).cursor_synced(),
    {
        self.filter_text = String::new();
        self.adjust_cursor();
    }
}

} // verus!
