use lazycli::config::KeyBinding;
use lazycli::parse::Row;
use lazycli::template::resolve_command;
use lazycli::template::template_replace;

fn binding(command: &str, regex: Option<&str>) -> KeyBinding {
    KeyBinding {
        key: 'x',
        command: String::from(command),
        confirm: false,
        regex: regex.map(String::from),
    }
}

#[test]
fn test_replace_from_cells() {
    // Template "rm $0" over cells ["file.txt", "extra"] and no regex.
    let row = Row::new(
        String::from("file.txt extra"),
        vec![String::from("file.txt"), String::from("extra")],
    );
    let cmd = resolve_command(&binding("rm $0", None), &row).unwrap();
    assert_eq!(cmd, "rm file.txt");
}

#[test]
fn test_replace_from_regex_capture() {
    // Regex ".*:\s+([^\s]+)" against "Changes not staged: myfile.txt" with
    // template "git reset $1".
    let row = Row::new(String::from("Changes not staged: myfile.txt"), vec![]);
    let cmd = resolve_command(&binding("git reset $1", Some(".*:\\s+([^\\s]+)")), &row).unwrap();
    assert_eq!(cmd, "git reset myfile.txt");
}

#[test]
fn test_out_of_range_placeholder_is_empty() {
    let values = vec!["a"];
    assert_eq!(template_replace("rm $5", &values), "rm ");
    assert_eq!(template_replace("$1$2$3", &values), "");
    // An index too large for any machine word still just yields nothing.
    assert_eq!(
        template_replace("x$99999999999999999999999999999999y", &values),
        "xy"
    );
}

#[test]
fn test_placeholder_digits_are_greedy() {
    let values = vec![
        "v0", "v1", "v2", "v3", "v4", "v5", "v6", "v7", "v8", "v9", "v10", "v11", "v12",
    ];
    assert_eq!(template_replace("a$12b", &values), "av12b");
    let two = vec!["x", "y"];
    assert_eq!(template_replace("a$12b", &two), "ab");
}

#[test]
fn test_leading_zeros_in_placeholder_index() {
    let values = vec!["zero", "one"];
    assert_eq!(template_replace("$0001", &values), "one");
}

#[test]
fn test_dollar_without_digits_is_literal() {
    let values = vec!["a"];
    assert_eq!(template_replace("echo $ $x $$0", &values), "echo $ $x $a");
}

#[test]
fn test_no_match_gives_empty_captures() {
    let row = Row::new(String::from("nothing to see"), vec![]);
    let cmd = resolve_command(&binding("run $0 $1", Some("(\\d+)")), &row).unwrap();
    assert_eq!(cmd, "run  ");
}

#[test]
fn test_unmatched_optional_group_is_empty() {
    let row = Row::new(String::from("ab"), vec![]);
    let cmd = resolve_command(&binding("[$1|$2]", Some("(a)(z)?")), &row).unwrap();
    assert_eq!(cmd, "[a|]");
}

#[test]
fn test_invalid_pattern_is_reported_not_fatal() {
    let row = Row::new(String::from("anything"), vec![String::from("anything")]);
    let err = resolve_command(&binding("rm $0", Some("(unclosed")), &row).unwrap_err();
    assert_eq!(err.pattern, "(unclosed");
}
