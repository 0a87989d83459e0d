use khoj::Action;
use khoj::Config;
use khoj::Diagnostic;
use khoj::EntryType;
use khoj::Pattern;
use khoj::WalkEvent;
use khoj::classify;
use khoj::name_accepted;
use khoj::process_event;
use khoj::process_events;
use khoj::type_accepted;

fn node(path: &str, name: &str, is_dir: bool, is_file: bool, is_symlink: bool) -> WalkEvent {
    WalkEvent::Node {
        path: path.to_string(),
        name: Some(name.to_string()),
        is_dir,
        is_file,
        is_symlink,
    }
}

fn dir(path: &str, name: &str) -> WalkEvent {
    node(path, name, true, false, false)
}

fn file(path: &str, name: &str) -> WalkEvent {
    node(path, name, false, true, false)
}

fn patterns(sources: &[&str]) -> Vec<Pattern> {
    sources
        .iter()
        .map(|s| Pattern::compile(s).expect("pattern should compile"))
        .collect()
}

fn config(types: Vec<EntryType>, names: Vec<Pattern>) -> Config {
    Config::new(Vec::new(), types, names)
}

/// The tree `a/`, `a/b.txt`, `a/c/` in pre-order.
fn small_tree() -> Vec<WalkEvent> {
    vec![dir("a", "a"), file("a/b.txt", "b.txt"), dir("a/c", "c")]
}

#[test]
fn empty_types_accept_every_kind() {
    let no_types: Vec<EntryType> = Vec::new();
    assert!(type_accepted(EntryType::Dir, &no_types));
    assert!(type_accepted(EntryType::File, &no_types));
    assert!(type_accepted(EntryType::Link, &no_types));
}

#[test]
fn empty_names_accept_any_name() {
    let no_names: Vec<Pattern> = Vec::new();
    assert!(name_accepted("anything.at.all", &no_names));
    assert!(name_accepted("", &no_names));
}

#[test]
fn empty_names_accept_undecodable_name() {
    let cfg = config(Vec::new(), Vec::new());
    let event = WalkEvent::Node {
        path: "a/odd".to_string(),
        name: None,
        is_dir: false,
        is_file: true,
        is_symlink: false,
    };
    match process_event(&cfg, event) {
        Action::Emit(path) => assert_eq!(path, "a/odd"),
        _ => panic!("a node with an undecodable name still matches an empty name filter"),
    }
}

#[test]
fn undecodable_name_is_skipped_under_name_filter() {
    let cfg = config(Vec::new(), patterns(&["."]));
    let event = WalkEvent::Node {
        path: "a/odd".to_string(),
        name: None,
        is_dir: false,
        is_file: true,
        is_symlink: false,
    };
    assert!(matches!(process_event(&cfg, event), Action::Skip));
}

#[test]
fn classify_precedence_and_anomaly() {
    assert_eq!(classify(true, false, false), Some(EntryType::Dir));
    assert_eq!(classify(false, true, false), Some(EntryType::File));
    assert_eq!(classify(false, false, true), Some(EntryType::Link));
    assert_eq!(classify(true, true, true), Some(EntryType::Dir));
    assert_eq!(classify(false, true, true), Some(EntryType::File));
    assert_eq!(classify(false, false, false), None);
}

#[test]
fn anomaly_is_reported_not_dropped() {
    let cfg = config(Vec::new(), Vec::new());
    let event = node("a/stale", "stale", false, false, false);
    match process_event(&cfg, event) {
        Action::Report(Diagnostic::Unclassifiable(path)) => assert_eq!(path, "a/stale"),
        _ => panic!("an unclassifiable node must be reported"),
    }
}

#[test]
fn type_filter_keeps_only_files() {
    let cfg = config(vec![EntryType::File], Vec::new());
    let out = process_events(&cfg, small_tree());
    assert_eq!(out.lines, vec!["a/b.txt".to_string()]);
    assert!(out.diagnostics.is_empty());
}

#[test]
fn type_filter_keeps_directories_in_pre_order() {
    let cfg = config(vec![EntryType::Dir], Vec::new());
    let out = process_events(&cfg, small_tree());
    assert_eq!(out.lines, vec!["a".to_string(), "a/c".to_string()]);
    assert!(out.diagnostics.is_empty());
}

#[test]
fn name_filter_keeps_matching_names_only() {
    let cfg = config(Vec::new(), patterns(&["\\.txt$"]));
    let events = vec![file("x.txt", "x.txt"), file("x.log", "x.log")];
    let out = process_events(&cfg, events);
    assert_eq!(out.lines, vec!["x.txt".to_string()]);
}

#[test]
fn name_patterns_are_a_disjunction_with_single_emission() {
    let cfg = config(Vec::new(), patterns(&["foo", "bar"]));
    let events = vec![
        file("foobar.txt", "foobar.txt"),
        file("baz.txt", "baz.txt"),
        file("qux.txt", "qux.txt"),
    ];
    let out = process_events(&cfg, events);
    // "foobar.txt" matches both patterns, yet appears exactly once.
    assert_eq!(out.lines, vec!["foobar.txt".to_string()]);
}

#[test]
fn pattern_matches_anywhere_in_the_name() {
    let names = patterns(&["b"]);
    assert!(name_accepted("abc", &names));
    assert!(!name_accepted("acd", &names));
}

#[test]
fn roots_keep_their_order() {
    let cfg = config(Vec::new(), Vec::new());
    // Two walks, one per root, laid end to end in the order given.
    let mut events = vec![dir("second", "second"), file("second/s.txt", "s.txt")];
    let mut first = vec![dir("first", "first"), file("first/f.txt", "f.txt")];
    first.append(&mut events);
    let out = process_events(&cfg, first);
    assert_eq!(
        out.lines,
        vec![
            "first".to_string(),
            "first/f.txt".to_string(),
            "second".to_string(),
            "second/s.txt".to_string(),
        ]
    );
}

#[test]
fn unreadable_subdirectory_does_not_suppress_siblings() {
    let cfg = config(Vec::new(), Vec::new());
    let events = vec![
        dir("a", "a"),
        file("a/before.txt", "before.txt"),
        WalkEvent::Error {
            message: "a/locked: permission denied".to_string(),
        },
        file("a/after.txt", "after.txt"),
    ];
    let out = process_events(&cfg, events);
    assert_eq!(
        out.lines,
        vec![
            "a".to_string(),
            "a/before.txt".to_string(),
            "a/after.txt".to_string(),
        ]
    );
    assert_eq!(out.diagnostics.len(), 1);
    match &out.diagnostics[0] {
        Diagnostic::Traversal(message) => {
            assert_eq!(message, "a/locked: permission denied");
        }
        _ => panic!("a failed visit is a traversal diagnostic"),
    }
}

#[test]
fn missing_root_is_one_diagnostic_not_an_abort() {
    // A root that does not exist yields a single traversal error from the
    // walker; the run goes on, so it is a diagnostic, not a fatal error,
    // and by itself it leaves the output empty.
    let cfg = config(Vec::new(), Vec::new());
    let events = vec![WalkEvent::Error {
        message: "no-such-root: No such file or directory".to_string(),
    }];
    let out = process_events(&cfg, events);
    assert!(out.lines.is_empty());
    assert_eq!(out.diagnostics.len(), 1);
}

#[test]
fn malformed_pattern_is_rejected() {
    let err = Pattern::compile("foo(bar");
    assert!(err.is_err());
    assert!(!err.err().unwrap().message.is_empty());
}

#[test]
fn compiled_pattern_keeps_its_source() {
    let p = Pattern::compile("\\.rs$").expect("pattern should compile");
    assert_eq!(p.source(), "\\.rs$");
}

#[test]
fn default_root_is_the_current_directory() {
    let cfg = Config::new(Vec::new(), Vec::new(), Vec::new());
    assert_eq!(cfg.paths(), &vec![".".to_string()]);
}

#[test]
fn supplied_roots_are_kept_as_given() {
    let cfg = Config::new(
        vec!["b".to_string(), "a".to_string()],
        Vec::new(),
        Vec::new(),
    );
    assert_eq!(cfg.paths(), &vec!["b".to_string(), "a".to_string()]);
}

#[test]
fn type_and_name_filters_compose() {
    let cfg = config(vec![EntryType::File], patterns(&["\\.txt$"]));
    let events = vec![
        dir("notes.txt", "notes.txt"),
        file("a.txt", "a.txt"),
        file("a.log", "a.log"),
    ];
    let out = process_events(&cfg, events);
    // The directory matches the name filter but not the type filter.
    assert_eq!(out.lines, vec!["a.txt".to_string()]);
}

#[test]
fn symlinks_are_their_own_kind() {
    let cfg = config(vec![EntryType::Link], Vec::new());
    let events = vec![
        dir("a", "a"),
        node("a/ln", "ln", false, false, true),
        file("a/f", "f"),
    ];
    let out = process_events(&cfg, events);
    assert_eq!(out.lines, vec!["a/ln".to_string()]);
}
