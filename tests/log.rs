use git_tracker::message::render_message;
use git_tracker::model::{Change, Config, TemplateEntry};
use git_tracker::text::{decimal_string, join_strings, nonempty_lines};
use git_tracker::tracker::Tracker;

fn change(ty: &str, description: &str, files: &[&str]) -> Change {
    Change {
        timestamp: "2024-01-02T03:04:05+00:00".to_string(),
        change_type: ty.to_string(),
        description: description.to_string(),
        files: files.iter().map(|f| f.to_string()).collect(),
    }
}

fn tracker_with(changes: Vec<Change>) -> Tracker {
    Tracker::new(Config::default_config(), changes)
}

#[test]
fn default_config_has_seven_templates() {
    let c = Config::default_config();
    assert_eq!(c.default_branch, "main");
    assert!(c.auto_push);
    assert_eq!(c.commit_templates.len(), 7);
    assert_eq!(c.template_for(&"docs".to_string()), Some(&"docs: {message}".to_string()));
    assert_eq!(c.template_for(&"unknown".to_string()), None);
    assert!(c.has_fallback());
}

#[test]
fn config_without_feature_has_no_fallback() {
    let c = Config {
        default_branch: "main".to_string(),
        commit_templates: vec![TemplateEntry { change_type: "fix".to_string(), template: "fix: {message}".to_string() }],
        auto_push: true,
    };
    assert!(!c.has_fallback());
}

#[test]
fn recording_appends_exactly_one_entry() {
    let mut t = tracker_with(vec![change("docs", "old", &[])]);
    t.add_change("fix bug".to_string(), "fix".to_string(), vec!["src/a.rs".to_string()]);
    assert_eq!(t.changes.len(), 2);
    assert_eq!(t.changes[0].description, "old");
    assert_eq!(t.changes[1].change_type, "fix");
    assert_eq!(t.changes[1].description, "fix bug");
    assert_eq!(t.changes[1].files, vec!["src/a.rs".to_string()]);
    assert!(!t.changes[1].timestamp.is_empty());
}

#[test]
fn fresh_tracker_records_fix_bug() {
    let mut t = tracker_with(Vec::new());
    t.add_change("fix bug".to_string(), "fix".to_string(), Vec::new());
    assert_eq!(t.changes.len(), 1);
    assert_eq!(t.changes[0].change_type, "fix");
    assert_eq!(t.changes[0].description, "fix bug");
}

#[test]
fn record_at_keeps_timestamp() {
    let mut t = tracker_with(Vec::new());
    t.add_change_at("T".to_string(), "d".to_string(), "style".to_string(), Vec::new());
    assert_eq!(t.changes[0].timestamp, "T");
}

#[test]
fn record_lines_with_and_without_files() {
    let lines = Tracker::record_lines(&"fix".to_string(), &"fix bug".to_string(), &Vec::new());
    assert_eq!(lines, vec!["✓ Recorded fix: fix bug".to_string()]);
    let files = vec!["a.rs".to_string(), "b.rs".to_string()];
    let lines = Tracker::record_lines(&"feature".to_string(), &"x".to_string(), &files);
    assert_eq!(lines, vec!["✓ Recorded feature: x".to_string(), "  Modified files: a.rs, b.rs".to_string()]);
}

#[test]
fn list_of_empty_log() {
    let t = tracker_with(Vec::new());
    assert_eq!(t.list_lines(), vec!["No changes recorded yet".to_string()]);
}

#[test]
fn list_is_numbered_and_repeatable() {
    let t = tracker_with(vec![change("feature", "X", &[]), change("fix", "Y", &["a.rs", "b.rs"])]);
    let first = t.list_lines();
    assert_eq!(
        first,
        vec![
            "\nRecorded changes:".to_string(),
            "1. [2024-01-02T03:04:05+00:00] feature: X".to_string(),
            "2. [2024-01-02T03:04:05+00:00] fix: Y".to_string(),
            "   Files: a.rs, b.rs".to_string(),
        ]
    );
    assert_eq!(t.list_lines(), first);
    assert_eq!(t.changes.len(), 2);
}

#[test]
fn message_for_empty_log_is_sentinel() {
    let t = tracker_with(Vec::new());
    assert_eq!(t.generate_commit_message(), "No changes recorded");
}

#[test]
fn message_for_feature_and_fix() {
    let t = tracker_with(vec![change("feature", "X", &[]), change("fix", "Y", &[])]);
    assert_eq!(t.generate_commit_message(), "feat: X\n\nfix: Y");
    assert_eq!(t.generate_commit_message(), t.generate_commit_message());
}

#[test]
fn message_lists_files() {
    let t = tracker_with(vec![change("docs", "readme", &["README.md", "docs/a.md"]), change("chore", "bump", &[])]);
    assert_eq!(t.generate_commit_message(), "docs: readme\n\n- README.md\n- docs/a.md\n\nchore: bump");
}

#[test]
fn unknown_type_falls_back_to_feature() {
    let t = tracker_with(vec![change("perf", "faster", &[])]);
    assert_eq!(t.generate_commit_message(), "feat: faster");
}

#[test]
fn description_is_inserted_verbatim() {
    let d = "first\n- not a file\n{message} stays";
    let t = tracker_with(vec![change("fix", d, &[])]);
    assert_eq!(t.generate_commit_message(), format!("fix: {}", d));
}

#[test]
fn every_placeholder_is_replaced() {
    let config = Config {
        default_branch: "main".to_string(),
        commit_templates: vec![TemplateEntry {
            change_type: "feature".to_string(),
            template: "{message} / {message}".to_string(),
        }],
        auto_push: false,
    };
    let changes = vec![change("feature", "a", &[])];
    assert_eq!(render_message(&changes, &config), "a / a");
}

#[test]
fn decimal_numerals() {
    assert_eq!(decimal_string(0), "0");
    assert_eq!(decimal_string(7), "7");
    assert_eq!(decimal_string(120), "120");
    assert_eq!(decimal_string(usize::MAX), usize::MAX.to_string());
}

#[test]
fn join_with_separator() {
    assert_eq!(join_strings(&Vec::new(), ", "), "");
    assert_eq!(join_strings(&vec!["a".to_string()], ", "), "a");
    assert_eq!(join_strings(&vec!["a".to_string(), "b".to_string(), "c".to_string()], "--"), "a--b--c");
}

#[test]
fn nonempty_lines_of_diff_listing() {
    assert_eq!(nonempty_lines(""), Vec::<String>::new());
    assert_eq!(nonempty_lines("a.rs\nb.rs\n"), vec!["a.rs".to_string(), "b.rs".to_string()]);
    assert_eq!(nonempty_lines("a.rs\r\n\n\r\nsrc/é.rs"), vec!["a.rs".to_string(), "src/é.rs".to_string()]);
    for s in ["x\r", "a\nb", "\n\nq\r\n", "one", "a\r\r\nb"] {
        let expected: Vec<String> = s.lines().filter(|l| !l.is_empty()).map(String::from).collect();
        assert_eq!(nonempty_lines(s), expected);
    }
}

#[test]
fn braces_in_template_are_kept() {
    let config = Config {
        default_branch: "main".to_string(),
        commit_templates: vec![TemplateEntry {
            change_type: "feature".to_string(),
            template: "{messag{message}} [{x}]".to_string(),
        }],
        auto_push: true,
    };
    let changes = vec![change("feature", "- a\n- b", &[])];
    assert_eq!(render_message(&changes, &config), "{messag- a\n- b} [{x}]");
}
