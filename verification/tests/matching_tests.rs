use lazycli::app::App;
use lazycli::app::Args;
use lazycli::config::Config;
use lazycli::config::IsFalse;
use lazycli::config::IsZero;
use lazycli::events::effective_refresh_ms;
use lazycli::profile_matching::command_matches;

#[test]
fn test_command_matches_exact_match() {
    assert!(
        command_matches("ls", "ls"),
        "should have returned true for exact match on pattern 'ls'",
    )
}

#[test]
fn test_command_matches_non_exact_match() {
    assert!(
        !command_matches("ls", "ls blah"),
        "should have returned false for mismatch",
    )
}

#[test]
fn test_command_matches_with_wildcard() {
    assert!(
        command_matches("ls -l", "ls *"),
        "should have matched due to wildcard",
    )
}

#[test]
fn test_command_does_not_match_with_wildcard() {
    assert!(
        !command_matches("git status", "ls *"),
        "should not have matched despite wildcard",
    )
}

#[test]
fn test_with_escaped_characters() {
    assert!(
        !command_matches("blah", "(blah())/.txt*.blah"),
        "should not have matched despite wildcard",
    )
}

#[test]
fn test_with_escaped_characters_when_matched() {
    assert!(
        command_matches("ls blah/blah.txt", "ls *"),
        "should have matched",
    )
}

#[test]
fn test_with_multiple_wildcards() {
    assert!(
        command_matches("blah hehe haha hmm lol", "blah*haha*lol"),
        "should not have matched due to multiple wildcards",
    )
}

#[test]
fn test_match_is_anchored_and_case_sensitive() {
    assert!(!command_matches("xls -l", "ls *"));
    assert!(!command_matches("LS", "ls"));
}

#[test]
fn test_find_profile_takes_first_in_declared_order() {
    let config = Config::new();
    let profile = config.find_profile_for_command("ls").unwrap();
    assert_eq!(profile.name, "ls");
    let profile = config.find_profile_for_command("ls -l").unwrap();
    assert_eq!(profile.name, "ls -l");
    assert!(config.find_profile_for_command("made-up-command").is_none());
}

#[test]
fn test_default_config_shape() {
    let config = Config::new();
    assert_eq!(config.profiles.len(), 8);
    assert_eq!(config.profiles[1].lines_to_skip, 1);
    assert_eq!(config.profiles[7].name, "lsof -iTCP | grep LISTEN");
}

#[test]
fn test_serialisation_helpers() {
    assert!(0usize.is_zero());
    assert!(!3usize.is_zero());
    assert!(false.is_false());
    assert!(!true.is_false());
}

#[test]
fn test_default_keybinding_is_blank() {
    let kb = lazycli::config::KeyBinding::default();
    assert_eq!(kb.key, ' ');
    assert_eq!(kb.command, "");
    assert!(!kb.confirm);
    assert!(kb.regex.is_none());
}

#[test]
fn test_refresh_interval_prefers_explicit_argument() {
    let app = App::new(
        Config::new(),
        String::new(),
        Args {
            command: String::from("ls"),
            lines_to_skip: 0,
            refresh_frequency_ms: 250,
        },
    );
    assert_eq!(effective_refresh_ms(&app), 250);
    let app = App::new(
        Config::new(),
        String::new(),
        Args {
            command: String::from("ls"),
            lines_to_skip: 0,
            refresh_frequency_ms: 0,
        },
    );
    // The "ls" profile sets no refresh interval: periodic refresh stays off.
    assert_eq!(effective_refresh_ms(&app), 0);
}
