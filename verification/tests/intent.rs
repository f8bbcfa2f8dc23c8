use open_intent::intent::{candidate_given, candidate_path, is_flag, startup_path, FLAG_MARKER};

fn args(items: &[&str]) -> Vec<String> {
    items.iter().map(|item| item.to_string()).collect()
}

#[test]
fn flag_marker_is_a_dash() {
    assert_eq!(FLAG_MARKER, '-');
}

#[test]
fn leading_dash_makes_a_flag() {
    assert!(is_flag("--flag"));
    assert!(is_flag("-v"));
    assert!(is_flag("-"));
    assert!(is_flag("-notes.txt"));
}

#[test]
fn anything_else_is_no_flag() {
    assert!(!is_flag(""));
    assert!(!is_flag("notes.txt"));
    assert!(!is_flag("./notes.txt"));
    assert!(!is_flag("/home/u/docs/notes.txt"));
    assert!(!is_flag("a-b"));
    assert!(!is_flag(" -x"));
}

#[test]
fn only_the_ascii_dash_marks_a_flag() {
    assert!(!is_flag("\u{2014}flag"));
    assert!(!is_flag("\u{2212}1"));
    assert!(!is_flag("\u{e9}t\u{e9}.txt"));
}

#[test]
fn no_arguments_no_path() {
    assert_eq!(startup_path(&args(&[])), None);
}

#[test]
fn program_name_alone_is_no_path() {
    assert_eq!(startup_path(&args(&["editor"])), None);
}

#[test]
fn first_argument_is_the_path() {
    assert_eq!(startup_path(&args(&["editor", "./notes.txt"])), Some("./notes.txt"));
    assert_eq!(startup_path(&args(&["editor", "/tmp/a.md"])), Some("/tmp/a.md"));
}

#[test]
fn later_arguments_are_not_looked_at() {
    assert_eq!(startup_path(&args(&["editor", "a.txt", "b.txt"])), Some("a.txt"));
    assert_eq!(startup_path(&args(&["editor", "a.txt", "--flag"])), Some("a.txt"));
    assert_eq!(startup_path(&args(&["editor", "--flag", "a.txt"])), None);
}

#[test]
fn launch_with_a_flag_resolves_nothing() {
    assert_eq!(startup_path(&args(&["editor", "--flag"])), None);
}

#[test]
fn flag_is_skipped_for_every_spelling() {
    for flag in ["-", "--", "-x", "--verbose", "-notes.txt", "-/etc/hosts", "--=\u{e9}"] {
        assert_eq!(startup_path(&args(&["editor", flag])), None);
    }
}

#[test]
fn empty_first_argument_counts_as_a_path() {
    assert_eq!(startup_path(&args(&["editor", ""])), Some(""));
}

#[test]
fn absolute_path_is_its_own_candidate() {
    assert_eq!(candidate_given("/etc/hosts", true, "/home/u/docs"), "/etc/hosts");
    assert_eq!(candidate_given("/etc/hosts", true, ""), "/etc/hosts");
}

#[test]
fn relative_path_is_joined_to_the_working_directory() {
    assert_eq!(candidate_given("notes.txt", false, "/home/u/docs"), "/home/u/docs/notes.txt");
    assert_eq!(candidate_given("a/b.txt", false, "/home/u/"), "/home/u/a/b.txt");
}

#[test]
fn candidate_of_a_relative_path() {
    assert_eq!(candidate_path("notes.txt", "/home/u/docs"), "/home/u/docs/notes.txt");
    assert_eq!(candidate_path("./notes.txt", "/home/u/docs"), "/home/u/docs/./notes.txt");
    assert_eq!(candidate_path("../notes.txt", "/home/u/docs"), "/home/u/docs/../notes.txt");
}

#[test]
fn candidate_of_an_absolute_path() {
    assert_eq!(candidate_path("/etc/hosts", "/home/u/docs"), "/etc/hosts");
    assert_eq!(candidate_path("/", "/home/u/docs"), "/");
}

#[test]
fn candidate_without_a_working_directory() {
    assert_eq!(candidate_path("notes.txt", ""), "notes.txt");
}

#[test]
fn candidate_keeps_text_beyond_ascii() {
    assert_eq!(candidate_path("caf\u{e9}.txt", "/home/\u{fc}ser"), "/home/\u{fc}ser/caf\u{e9}.txt");
}
