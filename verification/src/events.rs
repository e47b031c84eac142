//! The orchestration core's state machine: one function from the current
//! application state and an inbox event to the next state and the action the
//! surrounding loop must perform. The loop owns the terminal, the channels
//! and the worker threads; every user-visible transition is decided here.
//!
//! The surrounding loop's duties per action: `Quit` tears the terminal down
//! and stops; `Run` marks the loading signal busy and spawns the command,
//! sending `RefetchData(false)` on success and `Error` on failure; `Refetch`
//! marks busy and spawns the source command, sending `RowsLoaded` or `Error`;
//! `Display` runs the display command and stores its output in
//! `selected_item_content`; `LoadingDone` marks the loading signal idle.

use vstd::prelude::*;
use vstd::string::StringExecFns;

use crate::app::App;
use crate::app::FocusedPanel;
use crate::app::clamped_cursor;
use crate::app::filtered_seq;
use crate::config::KeyBinding;
use crate::config::Profile;
use crate::os_commands::open_command;
use crate::os_commands::open_command_spec;
use crate::parse::Row;
use crate::parse::strings_view;
use crate::template::resolve_command;
use crate::template::resolve_spec;

verus! {

/// A keypress, reduced to what the state machine distinguishes.
#[derive(Debug, PartialEq, Eq, Structural, Clone, Copy)]
pub enum Key {
    Char(char),
    Up,
    Down,
    Esc,
    Enter,
    Backspace,
    CtrlC,
    Other,
}

/// One message in the core's single inbox.
#[derive(Debug, PartialEq)]
pub enum AppEvent {
    Input(Key),
    Tick,
    /// A refetch of the source command; `true` for a silent background one.
    RefetchData(bool),
    RowsLoaded(Vec<Row>),
    Error(String),
}

/// What the surrounding loop must do after a transition.
#[derive(Debug, PartialEq)]
pub enum Action {
    Continue,
    Quit,
    /// Spawn this command; its success triggers a visible refetch, its
    /// failure an error popup. Implies busy.
    Run(String),
    /// Spawn the source command and reparse its output. Implies busy.
    Refetch { command: String, lines_to_skip: usize, background: bool },
    /// Run the display command and store its output beside the table.
    Display(String),
    /// The in-flight work is over (rows landed, or an error was reported):
    /// the loading signal goes idle.
    LoadingDone,
}

/// The first binding in declared order for key `c`.
pub open spec fn binding_for(bindings: Seq<KeyBinding>, c: char) -> Option<KeyBinding>
    decreases bindings.len(),
{
    if bindings.len() == 0 {
        None
    } else if bindings[0].key == c {
        Some(bindings[0])
    } else {
        binding_for(bindings.drop_first(), c)
    }
}

/// The profile the app works under.
pub open spec fn active_profile(app: App) -> Option<Profile> {
    match app.profile {
        Some(i) => if i < app.config.profiles@.len() {
            Some(app.config.profiles@[i as int])
        } else {
            None
        },
        None => None,
    }
}

/// The row under the cursor, if the cursor rests on one.
pub open spec fn spec_selected_row(app: App) -> Option<Row> {
    match app.table.selected {
        Some(i) => if i < app.visible().len() {
            Some(app.visible()[i as int])
        } else {
            None
        },
        None => None,
    }
}

/// Lines to drop from the source output: the explicit argument wins, else the
/// active profile's default, else none.
pub open spec fn spec_lines_to_skip(app: App) -> int {
    if app.args.lines_to_skip != 0 {
        app.args.lines_to_skip as int
    } else {
        match active_profile(app) {
            Some(p) => p.lines_to_skip as int,
            None => 0,
        }
    }
}

pub fn effective_lines_to_skip(app: &App) -> (r: usize)
    ensures
        r as int == spec_lines_to_skip(*app),
{
    if app.args.lines_to_skip != 0 {
        app.args.lines_to_skip
    } else {
        match app.profile {
            Some(i) => {
                if i < app.config.profiles.len() {
                    app.config.profiles[i].lines_to_skip
                } else {
                    0
                }
            },
            None => 0,
        }
    }
}

/// The periodic refresh interval in milliseconds: the explicit argument
/// wins, else the active profile's value, else zero (disabled).
pub open spec fn spec_refresh_ms(app: App) -> int {
    if app.args.refresh_frequency_ms != 0 {
        app.args.refresh_frequency_ms as int
    } else {
        match active_profile(app) {
            Some(p) => match p.refresh_frequency_ms {
                Some(ms) => ms as int,
                None => 0,
            },
            None => 0,
        }
    }
}

pub fn effective_refresh_ms(app: &App) -> (r: u64)
    ensures
        r as int == spec_refresh_ms(*app),
{
    if app.args.refresh_frequency_ms != 0 {
        app.args.refresh_frequency_ms
    } else {
        match app.profile {
            Some(i) => {
                if i < app.config.profiles.len() {
                    match app.config.profiles[i].refresh_frequency_ms {
                        Some(ms) => ms,
                        None => 0,
                    }
                } else {
                    0
                }
            },
            None => 0,
        }
    }
}

/// The status line announcing a command run.
pub open spec fn running_status(cmd: Seq<char>) -> Seq<char> {
    "Running command: "@ + cmd
}

/// The status line for a visible refetch of the source command.
pub open spec fn refetch_status(cmd: Seq<char>) -> Seq<char> {
    "Running command: "@ + cmd
        + " (if this is taking a while the program might be continuously streaming data which is not yet supported)"@
}

/// The error popup text for a capture regex that does not compile.
pub open spec fn invalid_pattern_message(pattern: Seq<char>) -> Seq<char> {
    "Invalid regex in keybinding: "@ + pattern
}

/// A transition that announces and spawns `cmd`: only the status line and
/// the focused panel may change, the status announces the run, the panel
/// ends up at `panel`, and the action carries the command.
pub open spec fn runs_command(
    pre: App,
    post: App,
    action: Action,
    cmd: Seq<char>,
    panel: FocusedPanel,
) -> bool {
    &&& post == (App { status_text: post.status_text, focused_panel: post.focused_panel, ..pre })
    &&& post.focused_panel == panel
    &&& post.status_text matches Some(s) && s@ == running_status(cmd)
    &&& action matches Action::Run(c) && c@ == cmd
}

/// The re-clamp every filter mutation performs.
pub open spec fn clamp_rel(pre: App, post: App) -> bool {
    &&& post.table.row_count == post.visible().len()
    &&& post.table.selected == Some(
        clamped_cursor(pre.table.selected, post.visible().len() as int) as usize,
    )
}

/// What follows a cursor move in the table panel: the display command, if
/// the profile has one and a row is selected, resolved against that row.
/// A display regex that does not compile disables the display, nothing more.
pub open spec fn display_step(app: App, action: Action) -> bool {
    match (active_profile(app), spec_selected_row(app)) {
        (Some(p), Some(row)) => match p.display_command {
            Some(dc) => {
                let resolved = resolve_spec(
                    dc.command@,
                    match dc.regex {
                        Some(s) => Some(s@),
                        None => None,
                    },
                    row.original_line@,
                    strings_view(row.cells@),
                );
                match resolved {
                    Some(cmd) => action matches Action::Display(d) && d@ == cmd,
                    None => action == Action::Continue,
                }
            },
            None => action == Action::Continue,
        },
        _ => action == Action::Continue,
    }
}

/// A keypress in the table panel aimed at a profile keybinding: a no-op
/// without a profile, a binding for that key, or a selected row; a
/// confirmation popup when the binding asks for one; an error popup when its
/// capture regex does not compile; otherwise the resolved command runs.
pub open spec fn keybinding_step(pre: App, c: char, post: App, action: Action) -> bool {
    match active_profile(pre) {
        None => post == pre && action == Action::Continue,
        Some(p) => match binding_for(p.key_bindings@, c) {
            None => post == pre && action == Action::Continue,
            Some(kb) => match spec_selected_row(pre) {
                None => post == pre && action == Action::Continue,
                Some(row) => {
                    let resolved = resolve_spec(
                        kb.command@,
                        match kb.regex {
                            Some(s) => Some(s@),
                            None => None,
                        },
                        row.original_line@,
                        strings_view(row.cells@),
                    );
                    match resolved {
                        None => {
                            &&& post == (App { focused_panel: post.focused_panel, ..pre })
                            &&& post.focused_panel matches FocusedPanel::ErrorPopup(m) && m@
                                == invalid_pattern_message(kb.regex->0@)
                            &&& action == Action::Continue
                        },
                        Some(cmd) => {
                            if kb.confirm {
                                &&& post == (App { focused_panel: post.focused_panel, ..pre })
                                &&& post.focused_panel matches FocusedPanel::ConfirmationPopup(s)
                                    && s@ == cmd
                                &&& action == Action::Continue
                            } else {
                                runs_command(pre, post, action, cmd, pre.focused_panel)
                            }
                        },
                    }
                },
            },
        },
    }
}

/// A keypress while the table panel is focused.
pub open spec fn table_input(pre: App, key: Key, post: App, action: Action) -> bool {
    match key {
        Key::Char(c) => {
            if c == 'q' {
                post == pre && action == Action::Quit
            } else if c == 'j' {
                cursor_move_step(pre, post, action, true)
            } else if c == 'k' {
                cursor_move_step(pre, post, action, false)
            } else if c == '/' {
                post == (App { focused_panel: FocusedPanel::Search, ..pre }) && action
                    == Action::Continue
            } else if c == '$' {
                runs_command(
                    pre,
                    post,
                    action,
                    open_command_spec(pre.config_path@),
                    pre.focused_panel,
                )
            } else {
                keybinding_step(pre, c, post, action)
            }
        },
        Key::Down => cursor_move_step(pre, post, action, true),
        Key::Up => cursor_move_step(pre, post, action, false),
        Key::Esc => {
            &&& post == (App { filter_text: post.filter_text, table: post.table, ..pre })
            &&& post.filter_text@ == Seq::<char>::empty()
            &&& clamp_rel(pre, post)
            &&& action == Action::Continue
        },
        _ => post == pre && action == Action::Continue,
    }
}

/// The cursor moved one row (`down` says which way), then the display
/// command for the newly selected row was prepared.
pub open spec fn cursor_move_step(pre: App, post: App, action: Action, down: bool) -> bool {
    &&& post == (App { table: post.table, ..pre })
    &&& post.table.row_count == pre.table.row_count
    &&& post.table.selected == (if down {
        match pre.table.selected {
            Some(i) => if pre.table.row_count == 0 || i + 1 >= pre.table.row_count {
                Some(i)
            } else {
                Some((i + 1) as usize)
            },
            None => Some(0usize),
        }
    } else {
        match pre.table.selected {
            Some(i) => if i == 0 {
                Some(0usize)
            } else {
                Some((i - 1) as usize)
            },
            None => Some(0usize),
        }
    })
    &&& display_step(post, action)
}

/// A keypress while the search panel is focused.
pub open spec fn search_input(pre: App, key: Key, post: App, action: Action) -> bool {
    match key {
        Key::Backspace => {
            &&& post == (App { filter_text: post.filter_text, table: post.table, ..pre })
            &&& post.filter_text@ == if pre.filter_text@.len() == 0 {
                pre.filter_text@
            } else {
                pre.filter_text@.drop_last()
            }
            &&& clamp_rel(pre, post)
            &&& action == Action::Continue
        },
        Key::Esc => {
            &&& post == (App {
                filter_text: post.filter_text,
                table: post.table,
                focused_panel: FocusedPanel::Table,
                ..pre
            })
            &&& post.filter_text@ == Seq::<char>::empty()
            &&& clamp_rel(pre, post)
            &&& action == Action::Continue
        },
        Key::Enter => {
            &&& post == (App { focused_panel: FocusedPanel::Table, ..pre })
            &&& action == Action::Continue
        },
        Key::Char(c) => {
            &&& post == (App { filter_text: post.filter_text, table: post.table, ..pre })
            &&& post.filter_text@ == pre.filter_text@.push(c)
            &&& clamp_rel(pre, post)
            &&& action == Action::Continue
        },
        _ => post == pre && action == Action::Continue,
    }
}

/// A keypress while the error popup is up: quit quits, anything else
/// returns to the table.
pub open spec fn error_input(pre: App, key: Key, post: App, action: Action) -> bool {
    match key {
        Key::Char(c) => {
            if c == 'q' {
                post == pre && action == Action::Quit
            } else {
                post == (App { focused_panel: FocusedPanel::Table, ..pre }) && action
                    == Action::Continue
            }
        },
        _ => post == (App { focused_panel: FocusedPanel::Table, ..pre }) && action
            == Action::Continue,
    }
}

/// A keypress while the confirmation popup is up: enter runs the pending
/// command, quit quits, anything else cancels back to the table.
pub open spec fn confirm_input(
    pre: App,
    cmd: Seq<char>,
    key: Key,
    post: App,
    action: Action,
) -> bool {
    match key {
        Key::Enter => runs_command(pre, post, action, cmd, FocusedPanel::Table),
        Key::Char(c) => {
            if c == 'q' {
                post == pre && action == Action::Quit
            } else {
                post == (App { focused_panel: FocusedPanel::Table, ..pre }) && action
                    == Action::Continue
            }
        },
        _ => post == (App { focused_panel: FocusedPanel::Table, ..pre }) && action
            == Action::Continue,
    }
}

/// The whole transition relation of the core, one case per inbox event.
pub open spec fn handle_spec(pre: App, event: AppEvent, post: App, action: Action) -> bool {
    match event {
        AppEvent::Input(key) => {
            if key == Key::CtrlC {
                post == pre && action == Action::Quit
            } else {
                match pre.focused_panel {
                    FocusedPanel::Table => table_input(pre, key, post, action),
                    FocusedPanel::Search => search_input(pre, key, post, action),
                    FocusedPanel::ErrorPopup(_) => error_input(pre, key, post, action),
                    FocusedPanel::ConfirmationPopup(cmd) => confirm_input(
                        pre,
                        cmd@,
                        key,
                        post,
                        action,
                    ),
                }
            }
        },
        AppEvent::Tick => post == pre && action == Action::Continue,
        AppEvent::RefetchData(background) => {
            &&& post == (App { status_text: post.status_text, ..pre })
            &&& post.status_text matches Some(s) && s@ == (if background {
                Seq::<char>::empty()
            } else {
                refetch_status(pre.args.command@)
            })
            &&& action matches Action::Refetch { command, lines_to_skip, background: b } && {
                &&& command@ == pre.args.command@
                &&& lines_to_skip as int == spec_lines_to_skip(pre)
                &&& b == background
            }
        },
        AppEvent::RowsLoaded(rows) => {
            &&& post == (App {
                rows,
                table: post.table,
                status_text: None,
                ..pre
            })
            &&& post.table.row_count == filtered_seq(rows@, pre.filter_text@).len()
            &&& post.table.selected == Some(
                clamped_cursor(
                    pre.table.selected,
                    filtered_seq(rows@, pre.filter_text@).len() as int,
                ) as usize,
            )
            &&& action == Action::LoadingDone
        },
        AppEvent::Error(msg) => {
            &&& post == (App {
                focused_panel: FocusedPanel::ErrorPopup(msg),
                status_text: None,
                ..pre
            })
            &&& action == Action::LoadingDone
        },
    }
}

/// The loading pump's next state: a freshly received signal wins; with none
/// pending it stays as it was.
pub fn next_loading(is_loading: bool, received: Option<bool>) -> (r: bool)
    ensures
        r == match received {
            Some(v) => v,
            None => is_loading,
        },
{
    match received {
        Some(v) => v,
        None => is_loading,
    }
}

/// The rows parsed from raw source-command output after the first
/// `lines_to_skip` lines are dropped: what remains is rejoined with newlines
/// and handed to the table parser whole.
pub fn rows_from_output(output: &str, lines_to_skip: usize) -> (r: Vec<Row>)
    ensures
        ({
            let all = crate::text::spec_lines(output@);
            let start = if lines_to_skip as int > all.len() {
                all.len() as int
            } else {
                lines_to_skip as int
            };
            let text = crate::text::join_with(all.skip(start), seq!['\n']);
            &&& r@.len() == crate::text::spec_lines(text).len()
            &&& forall|i: int|
                0 <= i < r@.len() ==> {
                    &&& (#[trigger] r@[i]).original_line@ == crate::text::spec_lines(text)[i]
                    &&& strings_view(r@[i].cells@) == crate::parse::row_cells(
                        crate::text::spec_lines(text)[i],
                        crate::parse::boundaries(text),
                    )
                }
        }),
{
    let chars = crate::text::chars_of(output);
    let lines = crate::text::split_lines(&chars);
    let ghost all = crate::text::spec_lines(output@);
    let start: usize = if lines_to_skip > lines.len() {
        lines.len()
    } else {
        lines_to_skip
    };
    let mut kept: Vec<Vec<char>> = Vec::new();
    let mut i: usize = start;
    while i < lines.len()
        invariant
            start <= i <= lines@.len(),
            lines@.len() == all.len(),
            forall|t: int| 0 <= t < lines@.len() ==> #[trigger] lines@[t]@ == all[t],
            kept@.len() == i - start,
            forall|t: int| 0 <= t < kept@.len() ==> #[trigger] kept@[t]@ == all[t + start],
        decreases lines@.len() - i,
    {
        let line = &lines[i];
        kept.push(crate::text::subvec(line, 0, line.len()));
        proof {
            assert(kept@.last()@ =~= all[i as int]);
        }
        i += 1;
    }
    let joined = crate::text::join_lines(&kept);
    proof {
        assert(kept@.map_values(|l: Vec<char>| l@) =~= all.skip(start as int));
    }
    let text = crate::text::string_from_chars(&joined);
    crate::parse::parse(text)
}

/// Announce `command` in the status line and hand it to the loop to spawn.
fn run_command_action(app: &mut App, command: String) -> (r: Action)
    ensures
        *final(app) == (App { status_text: final(app).status_text, ..*old(app) }),
        final(app).status_text matches Some(s) && s@ == running_status(command@),
        r == Action::Run(command),
{
    let mut s = String::from_str("Running command: ");
    s.append(command.as_str());
    app.status_text = Some(s);
    Action::Run(command)
}

/// The display action for the current selection, if any.
fn display_action(app: &App) -> (r: Action)
    requires
        app.wf(),
    ensures
        display_step(*app, r),
{
    let profile: &Profile = match app.profile {
        Some(i) => &app.config.profiles[i],
        None => {
            return Action::Continue;
        },
    };
    let dc = match &profile.display_command {
        Some(dc) => dc,
        None => {
            return Action::Continue;
        },
    };
    let row = match app.get_selected_row() {
        Some(row) => row,
        None => {
            return Action::Continue;
        },
    };
    match resolve_command(dc, row) {
        Ok(cmd) => Action::Display(cmd),
        Err(_) => Action::Continue,
    }
}

/// A printable key pressed over the table: look the binding up in the active
/// profile, resolve its template against the selected row, and either ask
/// for confirmation or run it at once.
fn handle_keybinding_press(app: &mut App, c: char) -> (r: Action)
    requires
        old(app).wf(),
        old(app).focused_panel == FocusedPanel::Table,
    ensures
        final(app).wf(),
        keybinding_step(*old(app), c, *final(app), r),
{
    let profile: &Profile = match app.profile {
        Some(i) => &app.config.profiles[i],
        None => {
            return Action::Continue;
        },
    };
    let mut j: usize = 0;
    let n = profile.key_bindings.len();
    let ghost bindings = profile.key_bindings@;
    while j < n && profile.key_bindings[j].key != c
        invariant
            j <= n,
            n == bindings.len(),
            bindings == profile.key_bindings@,
            *app == *old(app),
            forall|t: int| 0 <= t < j ==> #[trigger] bindings[t].key != c,
        decreases n - j,
    {
        j += 1;
    }
    proof {
        lemma_binding_for_scan(bindings, c, j as int);
    }
    if j == n {
        return Action::Continue;
    }
    let row = match app.get_selected_row() {
        Some(row) => row,
        None => {
            return Action::Continue;
        },
    };
    let binding = &profile.key_bindings[j];
    match resolve_command(binding, row) {
        Ok(cmd) => {
            if binding.confirm {
                app.focused_panel = FocusedPanel::ConfirmationPopup(cmd);
                Action::Continue
            } else {
                run_command_action(app, cmd)
            }
        },
        Err(e) => {
            let mut msg = String::from_str("Invalid regex in keybinding: ");
            msg.append(e.pattern.as_str());
            app.focused_panel = FocusedPanel::ErrorPopup(msg);
            Action::Continue
        },
    }
}

/// The first binding for `c` sits at index `m` (or there is none at `m ==
/// bindings.len()`), read off a left-to-right scan.
proof fn lemma_binding_for_scan(bindings: Seq<KeyBinding>, c: char, m: int)
    requires
        0 <= m <= bindings.len(),
        forall|t: int| 0 <= t < m ==> #[trigger] bindings[t].key != c,
        m == bindings.len() || bindings[m].key == c,
    ensures
        binding_for(bindings, c) == if m == bindings.len() {
            None::<KeyBinding>
        } else {
            Some(bindings[m])
        },
    decreases m,
{
    if m == 0 {
    } else {
        assert(bindings[0].key != c);
        assert forall|t: int| 0 <= t < m - 1 implies #[trigger] bindings.drop_first()[t].key
            != c by {
            assert(bindings.drop_first()[t] == bindings[t + 1]);
        }
        lemma_binding_for_scan(bindings.drop_first(), c, m - 1);
    }
}

/// Handle one inbox event: mutate the state and say what the loop must do.
pub fn handle_event(app: &mut App, event: AppEvent) -> (r: Action)
    requires
        old(app).wf(),
    ensures
        final(app).wf(),
        handle_spec(*old(app), event, *final(app), r),
{
    match event {
        AppEvent::Input(key) => {
            if key == Key::CtrlC {
                return Action::Quit;
            }
            match app.focused_panel {
                FocusedPanel::Table => match key {
                    Key::Char(c) => {
                        if c == 'q' {
                            Action::Quit
                        } else if c == 'j' {
                            app.table.next();
                            display_action(app)
                        } else if c == 'k' {
                            app.table.previous();
                            display_action(app)
                        } else if c == '/' {
                            app.focused_panel = FocusedPanel::Search;
                            Action::Continue
                        } else if c == '$' {
                            let cmd = open_command(app.config_path.as_str());
                            run_command_action(app, cmd)
                        } else {
                            handle_keybinding_press(app, c)
                        }
                    },
                    Key::Down => {
                        app.table.next();
                        display_action(app)
                    },
                    Key::Up => {
                        app.table.previous();
                        display_action(app)
                    },
                    Key::Esc => {
                        app.reset_filter_text();
                        Action::Continue
                    },
                    _ => Action::Continue,
                },
                FocusedPanel::Search => match key {
                    Key::Backspace => {
                        app.pop_filter_text_char();
                        Action::Continue
                    },
                    Key::Esc => {
                        app.reset_filter_text();
                        app.focused_panel = FocusedPanel::Table;
                        Action::Continue
                    },
                    Key::Enter => {
                        app.focused_panel = FocusedPanel::Table;
                        Action::Continue
                    },
                    Key::Char(c) => {
                        app.push_filter_text_char(c);
                        Action::Continue
                    },
                    _ => Action::Continue,
                },
                FocusedPanel::ErrorPopup(_) => match key {
                    Key::Char(c) => {
                        if c == 'q' {
                            Action::Quit
                        } else {
                            app.focused_panel = FocusedPanel::Table;
                            Action::Continue
                        }
                    },
                    _ => {
                        app.focused_panel = FocusedPanel::Table;
                        Action::Continue
                    },
                },
                FocusedPanel::ConfirmationPopup(ref command) => {
                    let pending = command.clone();
                    match key {
                        Key::Enter => {
                            let a = run_command_action(app, pending);
                            app.focused_panel = FocusedPanel::Table;
                            a
                        },
                        Key::Char(c) => {
                            if c == 'q' {
                                Action::Quit
                            } else {
                                app.focused_panel = FocusedPanel::Table;
                                Action::Continue
                            }
                        },
                        _ => {
                            app.focused_panel = FocusedPanel::Table;
                            Action::Continue
                        },
                    }
                },
            }
        },
        AppEvent::Tick => {
            app.on_tick();
            Action::Continue
        },
        AppEvent::RefetchData(background) => {
            let lines_to_skip = effective_lines_to_skip(app);
            let command = app.args.command.clone();
            if background {
                app.status_text = Some(String::new());
            } else {
                let mut s = String::from_str("Running command: ");
                s.append(command.as_str());
                s.append(
                    " (if this is taking a while the program might be continuously streaming data which is not yet supported)",
                );
                app.status_text = Some(s);
            }
            Action::Refetch { command, lines_to_skip, background }
        },
        AppEvent::RowsLoaded(rows) => {
            app.update_rows(rows);
            app.status_text = None;
            Action::LoadingDone
        },
        AppEvent::Error(msg) => {
            app.focused_panel = FocusedPanel::ErrorPopup(msg);
            app.status_text = None;
            Action::LoadingDone
        },
    }
}

} // verus!

