use lazycli::app::App;
use lazycli::app::Args;
use lazycli::app::FocusedPanel;
use lazycli::char_pos_iter::CharPosIter;
use lazycli::config::Config;
use lazycli::events::Action;
use lazycli::events::AppEvent;
use lazycli::events::Key;
use lazycli::events::handle_event;
use lazycli::events::next_loading;
use lazycli::events::rows_from_output;
use lazycli::os_commands::open_command;
use lazycli::parse::Row;
use lazycli::selection::StatefulTable;
use lazycli::ui_text::display_keybindings;
use lazycli::ui_text::spinner_frame;
use lazycli::util::TabsState;

fn test_app(command: &str) -> App {
    App::new(
        Config::new(),
        String::from("/tmp/config.yml"),
        Args {
            command: String::from(command),
            lines_to_skip: 0,
            refresh_frequency_ms: 0,
        },
    )
}

fn rows(lines: &[&str]) -> Vec<Row> {
    lines
        .iter()
        .map(|l| Row::new(String::from(*l), vec![String::from(*l)]))
        .collect()
}

#[test]
fn test_cursor_clamps_when_rows_shrink() {
    // row_count drops from 5 (cursor at 4) to 2: the cursor clamps to 1.
    let mut app = test_app("made-up");
    app.update_rows(rows(&["a", "b", "c", "d", "e"]));
    for _ in 0..5 {
        app.table.next();
    }
    assert_eq!(app.table.selected, Some(4));
    assert_eq!(app.table.row_count, 5);
    app.update_rows(rows(&["a", "b"]));
    assert_eq!(app.table.selected, Some(1));
    assert_eq!(app.table.row_count, 2);
}

#[test]
fn test_cursor_stays_in_range_over_filter_updates() {
    let mut app = test_app("made-up");
    app.update_rows(rows(&["apple", "banana", "cherry"]));
    app.table.next();
    app.table.next();
    app.table.next();
    assert_eq!(app.table.selected, Some(2));
    app.push_filter_text_char('b');
    assert_eq!(app.table.row_count, 1);
    assert_eq!(app.table.selected, Some(0));
    app.push_filter_text_char('z');
    assert_eq!(app.table.row_count, 0);
    assert_eq!(app.table.selected, Some(0));
    assert!(app.get_selected_row().is_none());
    app.pop_filter_text_char();
    assert_eq!(app.filter_text, "b");
    assert_eq!(app.table.row_count, 1);
    app.reset_filter_text();
    assert_eq!(app.filter_text, "");
    assert_eq!(app.table.row_count, 3);
}

#[test]
fn test_filter_is_case_insensitive_substring() {
    let mut app = test_app("made-up");
    app.update_rows(rows(&["Apple pie", "banana", "PINEAPPLE"]));
    app.push_filter_text_char('a');
    app.push_filter_text_char('p');
    app.push_filter_text_char('p');
    let visible = app.filtered_rows();
    assert_eq!(visible.len(), 2);
    assert_eq!(visible[0].original_line, "Apple pie");
    assert_eq!(visible[1].original_line, "PINEAPPLE");
}

#[test]
fn test_selection_moves_without_wrapping() {
    let mut table = StatefulTable::new(2);
    assert_eq!(table.selected, None);
    table.next();
    assert_eq!(table.selected, Some(0));
    table.next();
    assert_eq!(table.selected, Some(1));
    table.next();
    assert_eq!(table.selected, Some(1));
    table.previous();
    assert_eq!(table.selected, Some(0));
    table.previous();
    assert_eq!(table.selected, Some(0));
}

#[test]
fn test_quit_keys() {
    let mut app = test_app("ls");
    assert_eq!(handle_event(&mut app, AppEvent::Input(Key::CtrlC)), Action::Quit);
    assert_eq!(
        handle_event(&mut app, AppEvent::Input(Key::Char('q'))),
        Action::Quit
    );
}

#[test]
fn test_search_panel_flow() {
    let mut app = test_app("made-up");
    app.update_rows(rows(&["alpha", "beta"]));
    assert_eq!(
        handle_event(&mut app, AppEvent::Input(Key::Char('/'))),
        Action::Continue
    );
    assert_eq!(app.focused_panel, FocusedPanel::Search);
    handle_event(&mut app, AppEvent::Input(Key::Char('b')));
    assert_eq!(app.filter_text, "b");
    assert_eq!(app.table.row_count, 1);
    handle_event(&mut app, AppEvent::Input(Key::Enter));
    assert_eq!(app.focused_panel, FocusedPanel::Table);
    assert_eq!(app.filter_text, "b");
    handle_event(&mut app, AppEvent::Input(Key::Char('/')));
    handle_event(&mut app, AppEvent::Input(Key::Esc));
    assert_eq!(app.focused_panel, FocusedPanel::Table);
    assert_eq!(app.filter_text, "");
    assert_eq!(app.table.row_count, 2);
}

#[test]
fn test_error_event_and_dismissal() {
    let mut app = test_app("ls");
    let action = handle_event(&mut app, AppEvent::Error(String::from("boom")));
    assert_eq!(action, Action::LoadingDone);
    assert_eq!(app.focused_panel, FocusedPanel::ErrorPopup(String::from("boom")));
    assert_eq!(app.status_text, None);
    handle_event(&mut app, AppEvent::Input(Key::Char('x')));
    assert_eq!(app.focused_panel, FocusedPanel::Table);
}

#[test]
fn test_confirmation_flow() {
    // Profile "ls" binds 'd' to "rm -rf $0" with confirmation.
    let mut app = test_app("ls");
    handle_event(
        &mut app,
        AppEvent::RowsLoaded(vec![Row::new(
            String::from("file.txt"),
            vec![String::from("file.txt")],
        )]),
    );
    handle_event(&mut app, AppEvent::Input(Key::Down));
    assert_eq!(app.table.selected, Some(0));
    let action = handle_event(&mut app, AppEvent::Input(Key::Char('d')));
    assert_eq!(action, Action::Continue);
    assert_eq!(
        app.focused_panel,
        FocusedPanel::ConfirmationPopup(String::from("rm -rf file.txt"))
    );
    // Esc cancels without running.
    handle_event(&mut app, AppEvent::Input(Key::Esc));
    assert_eq!(app.focused_panel, FocusedPanel::Table);
    // Enter on a fresh confirmation runs the pending command.
    handle_event(&mut app, AppEvent::Input(Key::Char('d')));
    let action = handle_event(&mut app, AppEvent::Input(Key::Enter));
    assert_eq!(action, Action::Run(String::from("rm -rf file.txt")));
    assert_eq!(app.focused_panel, FocusedPanel::Table);
    assert_eq!(
        app.status_text,
        Some(String::from("Running command: rm -rf file.txt"))
    );
}

#[test]
fn test_keybinding_without_selection_is_noop() {
    let mut app = test_app("ls");
    let action = handle_event(&mut app, AppEvent::Input(Key::Char('d')));
    assert_eq!(action, Action::Continue);
    assert_eq!(app.focused_panel, FocusedPanel::Table);
}

#[test]
fn test_refetch_uses_profile_lines_to_skip() {
    // Profile "ls -l" skips one leading output line.
    let mut app = test_app("ls -l");
    let action = handle_event(&mut app, AppEvent::RefetchData(true));
    match action {
        Action::Refetch { command, lines_to_skip, background } => {
            assert_eq!(command, "ls -l");
            assert_eq!(lines_to_skip, 1);
            assert!(background);
        }
        other => panic!("expected a refetch, got {:?}", other),
    }
    assert_eq!(app.status_text, Some(String::from("")));
    let action = handle_event(&mut app, AppEvent::RefetchData(false));
    match action {
        Action::Refetch { lines_to_skip, background, .. } => {
            assert_eq!(lines_to_skip, 1);
            assert!(!background);
        }
        other => panic!("expected a refetch, got {:?}", other),
    }
    assert!(app
        .status_text
        .as_ref()
        .unwrap()
        .starts_with("Running command: ls -l (if this is taking a while"));
}

#[test]
fn test_rows_loaded_replaces_and_clamps() {
    let mut app = test_app("made-up");
    app.update_rows(rows(&["a", "b", "c", "d", "e"]));
    for _ in 0..5 {
        app.table.next();
    }
    let action = handle_event(&mut app, AppEvent::RowsLoaded(rows(&["a", "b"])));
    assert_eq!(action, Action::LoadingDone);
    assert_eq!(app.table.row_count, 2);
    assert_eq!(app.table.selected, Some(1));
    assert_eq!(app.status_text, None);
}

#[test]
fn test_open_config_key() {
    let mut app = test_app("ls");
    let action = handle_event(&mut app, AppEvent::Input(Key::Char('$')));
    assert_eq!(
        action,
        Action::Run(String::from("xdg-open \"/tmp/config.yml\""))
    );
}

#[test]
fn test_open_command_quotes_path() {
    assert_eq!(open_command("/tmp/a dir/x"), "xdg-open \"/tmp/a dir/x\"");
}

#[test]
fn test_rows_from_output_skips_leading_lines() {
    let parsed = rows_from_output("header junk\nrow1 a\nrow2 b\n", 1);
    assert_eq!(parsed.len(), 2);
    assert_eq!(parsed[0].cells, vec![String::from("row1"), String::from("a")]);
    assert_eq!(parsed[1].cells, vec![String::from("row2"), String::from("b")]);
    assert_eq!(rows_from_output("just one\n", 5).len(), 0);
}

#[test]
fn test_spinner_cycles_every_seven_frames() {
    assert_eq!(spinner_frame(0), "\u{28fe}");
    assert_eq!(spinner_frame(150), "\u{28f7}");
    assert_eq!(spinner_frame(700), "\u{28fe}");
    assert_ne!(spinner_frame(0), spinner_frame(100));
}

#[test]
fn test_display_keybindings_without_profile() {
    let app = test_app("made-up");
    assert_eq!(
        display_keybindings(None, &app),
        "\u{25b2}/\u{25bc}/j/k: up/down\nq: quit\nNo profile selected"
    );
}

#[test]
fn test_display_keybindings_resolves_against_selection() {
    let mut app = test_app("ls");
    app.update_rows(rows(&["file.txt"]));
    app.table.next();
    let profile = &app.config.profiles[0];
    let text = display_keybindings(Some(profile), &app);
    assert_eq!(
        text,
        "\u{25b2}/\u{25bc}/j/k: up/down\nq: quit\n\
         d: rm -rf file.txt\no: xdg-open \"file.txt\"\nu: cd file.txt"
    );
}

#[test]
fn test_char_pos_iter_counts_characters() {
    // Character positions, not byte offsets: the non-ASCII first character
    // still leaves the second at position 1.
    let mut it = CharPosIter::new("\u{e9}b");
    assert_eq!(it.next(), Some((0, '\u{e9}')));
    assert_eq!(it.next(), Some((1, 'b')));
    assert_eq!(it.next(), None);
}

#[test]
fn test_tabs_state_wraps() {
    let mut tabs = TabsState::new(vec![String::from("a"), String::from("b")]);
    assert_eq!(tabs.index, 0);
    tabs.next();
    assert_eq!(tabs.index, 1);
    tabs.next();
    assert_eq!(tabs.index, 0);
    tabs.previous();
    assert_eq!(tabs.index, 1);
}

#[test]
fn test_next_loading_keeps_state_without_signal() {
    assert!(next_loading(true, None));
    assert!(!next_loading(true, Some(false)));
    assert!(next_loading(false, Some(true)));
    assert!(!next_loading(false, None));
}

#[test]
fn test_column_widths_take_the_maximum() {
    let r1 = Row::new(
        String::from("ab c"),
        vec![String::from("ab"), String::from("c")],
    );
    let r2 = Row::new(
        String::from("x yyyy"),
        vec![String::from("x"), String::from("yyyy")],
    );
    let rows = vec![&r1, &r2];
    assert_eq!(lazycli::ui_text::get_column_widths(&rows), vec![2, 4]);
    let none: Vec<&Row> = vec![];
    assert_eq!(lazycli::ui_text::get_column_widths(&none), Vec::<usize>::new());
}

#[test]
fn test_parse_strips_carriage_returns_before_newlines() {
    let rows = lazycli::parse::parse(String::from("aa bb\r\ncc dd\r\n"));
    assert_eq!(rows.len(), 2);
    assert_eq!(rows[0].original_line, "aa bb");
    assert_eq!(
        rows[1].cells,
        vec![String::from("cc"), String::from("dd")]
    );
}

#[test]
fn test_first_binding_wins_on_duplicate_keys() {
    let config = Config {
        profiles: vec![lazycli::config::Profile {
            name: String::from("dup"),
            registered_commands: vec![String::from("x*")],
            key_bindings: vec![
                lazycli::config::KeyBinding {
                    key: 'd',
                    command: String::from("first $0"),
                    confirm: false,
                    regex: None,
                },
                lazycli::config::KeyBinding {
                    key: 'd',
                    command: String::from("second $0"),
                    confirm: false,
                    regex: None,
                },
            ],
            lines_to_skip: 0,
            refresh_frequency_ms: None,
            display_command: None,
        }],
    };
    let mut app = App::new(
        config,
        String::new(),
        Args {
            command: String::from("xyz"),
            lines_to_skip: 0,
            refresh_frequency_ms: 0,
        },
    );
    assert_eq!(app.profile, Some(0));
    handle_event(
        &mut app,
        AppEvent::RowsLoaded(vec![Row::new(String::from("xyz"), vec![String::from("xyz")])]),
    );
    let action = handle_event(&mut app, AppEvent::Input(Key::Char('d')));
    assert_eq!(action, Action::Run(String::from("first xyz")));
}
