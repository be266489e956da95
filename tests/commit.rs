use git_tracker::model::{Change, Config};
use git_tracker::tracker::Tracker;
use git_tracker::workflow::{CommitRun, Phase, Reply, Request, Step};

fn change(ty: &str, description: &str) -> Change {
    Change {
        timestamp: "2024-01-02T03:04:05+00:00".to_string(),
        change_type: ty.to_string(),
        description: description.to_string(),
        files: Vec::new(),
    }
}

fn two_changes() -> Tracker {
    Tracker::new(Config::default_config(), vec![change("feature", "X"), change("fix", "Y")])
}

fn lines(s: &Step) -> Vec<&str> {
    s.lines.iter().map(|l| l.as_str()).collect()
}

/// Runs the replies in turn and returns every step taken.
fn run(t: &mut Tracker, branch: Option<&str>, no_push: bool, replies: Vec<Reply>) -> (CommitRun, Vec<Step>) {
    let (mut r, first) = t.begin_commit(branch.map(|b| b.to_string()), no_push);
    let mut steps = vec![first];
    for reply in replies {
        let s = t.advance_commit(&mut r, reply);
        steps.push(s);
    }
    (r, steps)
}

fn up_to_commit() -> Vec<Reply> {
    vec![
        Reply::RepositoryFound(true),
        Reply::StatusClean(false),
        Reply::Staged(true),
        Reply::NothingStaged(false),
        Reply::Committed(true),
    ]
}

#[test]
fn empty_log_commits_nothing() {
    let mut t = Tracker::new(Config::default_config(), Vec::new());
    let (r, steps) = run(&mut t, None, false, Vec::new());
    assert_eq!(lines(&steps[0]), vec!["No changes to commit"]);
    assert!(matches!(steps[0].request, Request::Finish));
    assert!(!steps[0].save);
    assert_eq!(r.phase, Phase::Done);
}

#[test]
fn requests_follow_the_workflow() {
    let mut t = two_changes();
    let (r, steps) = run(&mut t, Some("dev"), false, {
        let mut v = up_to_commit();
        v.push(Reply::RemoteFound(true));
        v.push(Reply::RemoteBranchFound(true));
        v.push(Reply::Pushed(true));
        v
    });
    assert!(matches!(steps[0].request, Request::CheckRepository));
    assert!(matches!(steps[1].request, Request::ReadStatus));
    assert!(matches!(steps[2].request, Request::StageAll));
    assert_eq!(lines(&steps[2]), vec!["Staging changes..."]);
    assert!(matches!(steps[3].request, Request::CheckStaged));
    match &steps[4].request {
        Request::Commit(m) => assert_eq!(m, "feat: X\n\nfix: Y"),
        _ => panic!("expected a commit"),
    }
    assert_eq!(lines(&steps[4]), vec!["Committing changes..."]);
    assert!(matches!(steps[5].request, Request::CheckRemote));
    assert_eq!(lines(&steps[5]), vec!["Pushing to remote..."]);
    assert!(matches!(&steps[6].request, Request::CheckRemoteBranch(b) if b == "dev"));
    assert!(matches!(&steps[7].request, Request::Push(b) if b == "dev"));
    assert_eq!(lines(&steps[8]), vec!["✓ Successfully pushed changes to dev"]);
    assert!(matches!(steps[8].request, Request::Finish));
    assert!(steps[8].save);
    assert!(t.changes.is_empty());
    assert_eq!(r.phase, Phase::Done);
}

#[test]
fn missing_remote_branch_is_created() {
    let mut t = two_changes();
    let mut replies = up_to_commit();
    replies.push(Reply::RemoteFound(true));
    replies.push(Reply::RemoteBranchFound(false));
    let (_, steps) = run(&mut t, Some("topic"), false, replies);
    assert_eq!(lines(&steps[7]), vec!["Creating new remote branch 'topic'..."]);
    assert!(matches!(&steps[7].request, Request::PushNewBranch(b) if b == "topic"));
}

#[test]
fn branch_comes_from_current_then_default() {
    let mut t = two_changes();
    let (r, steps) = run(&mut t, None, false, vec![
        Reply::RepositoryFound(true),
        Reply::StatusClean(false),
        Reply::CurrentBranch(Some("work".to_string())),
    ]);
    assert!(matches!(steps[2].request, Request::ReadCurrentBranch));
    assert!(matches!(steps[3].request, Request::StageAll));
    assert_eq!(r.branch, "work");

    let mut t = two_changes();
    let (r, _) = run(&mut t, None, false, vec![
        Reply::RepositoryFound(true),
        Reply::StatusClean(false),
        Reply::CurrentBranch(None),
    ]);
    assert_eq!(r.branch, "main");
}

#[test]
fn no_remote_skips_push_and_clears_log() {
    let mut t = two_changes();
    let mut replies = up_to_commit();
    replies.push(Reply::RemoteFound(false));
    let (r, steps) = run(&mut t, Some("main"), false, replies);
    let last = steps.last().unwrap();
    assert_eq!(
        lines(last),
        vec!["❌ Remote 'origin' not found", "✓ Changes committed successfully (push skipped - no remote)"]
    );
    assert!(last.save);
    assert!(matches!(last.request, Request::Finish));
    assert!(t.changes.is_empty());
    assert_eq!(r.phase, Phase::Done);
}

#[test]
fn no_push_flag_skips_push_and_clears_log() {
    let mut t = two_changes();
    let (_, steps) = run(&mut t, Some("main"), true, up_to_commit());
    let last = steps.last().unwrap();
    assert_eq!(lines(last), vec!["✓ Successfully committed changes (push skipped)"]);
    assert!(last.save);
    assert!(t.changes.is_empty());
}

#[test]
fn auto_push_off_skips_push() {
    let mut config = Config::default_config();
    config.auto_push = false;
    let mut t = Tracker::new(config, vec![change("fix", "Y")]);
    let (_, steps) = run(&mut t, Some("main"), false, up_to_commit());
    assert_eq!(lines(steps.last().unwrap()), vec!["✓ Successfully committed changes (push skipped)"]);
    assert!(t.changes.is_empty());
}

#[test]
fn failed_push_keeps_log() {
    let mut t = two_changes();
    let mut replies = up_to_commit();
    replies.push(Reply::RemoteFound(true));
    replies.push(Reply::RemoteBranchFound(true));
    replies.push(Reply::Pushed(false));
    let (r, steps) = run(&mut t, Some("main"), false, replies);
    let last = steps.last().unwrap();
    assert_eq!(
        lines(last),
        vec![
            "❌ Failed to push changes to remote",
            "  Your commits are saved locally. To push later, run:",
            "  git push origin main",
        ]
    );
    assert!(!last.save);
    assert_eq!(t.changes.len(), 2);
    assert_eq!(t.changes[0].description, "X");
    assert_eq!(t.changes[1].description, "Y");
    assert_eq!(r.phase, Phase::Done);
}

#[test]
fn clean_tree_stops_before_staging() {
    let mut t = two_changes();
    let (r, steps) = run(&mut t, None, false, vec![
        Reply::RepositoryFound(true),
        Reply::StatusClean(true),
        Reply::Staged(true),
    ]);
    assert_eq!(lines(&steps[2]), vec!["No git changes detected to commit"]);
    assert!(matches!(steps[2].request, Request::Finish));
    assert!(matches!(steps[3].request, Request::Finish));
    assert!(steps.iter().all(|s| !s.save));
    assert_eq!(t.changes.len(), 2);
    assert_eq!(r.phase, Phase::Done);
}

#[test]
fn early_failures_are_reported() {
    let cases: Vec<(Vec<Reply>, &str)> = vec![
        (vec![Reply::RepositoryFound(false)], "❌ Not in a git repository"),
        (vec![Reply::RepositoryFound(true), Reply::StatusClean(false), Reply::Staged(false)], "❌ Failed to stage changes"),
        (
            vec![Reply::RepositoryFound(true), Reply::StatusClean(false), Reply::Staged(true), Reply::NothingStaged(true)],
            "❌ No changes were staged",
        ),
        (
            vec![
                Reply::RepositoryFound(true),
                Reply::StatusClean(false),
                Reply::Staged(true),
                Reply::NothingStaged(false),
                Reply::Committed(false),
            ],
            "❌ Failed to commit changes",
        ),
    ];
    for (replies, expected) in cases {
        let mut t = two_changes();
        let (r, steps) = run(&mut t, Some("main"), false, replies);
        let last = steps.last().unwrap();
        assert_eq!(lines(last), vec![expected]);
        assert!(matches!(last.request, Request::Finish));
        assert!(!last.save);
        assert_eq!(t.changes.len(), 2);
        assert_eq!(r.phase, Phase::Done);
    }
}

#[test]
fn empty_message_is_not_committed() {
    let mut config = Config::default_config();
    config.commit_templates[1].template = String::new();
    let mut t = Tracker::new(config, vec![change("fix", "")]);
    let (_, steps) = run(&mut t, Some("main"), false, vec![
        Reply::RepositoryFound(true),
        Reply::StatusClean(false),
        Reply::Staged(true),
        Reply::NothingStaged(false),
    ]);
    assert_eq!(lines(steps.last().unwrap()), vec!["❌ Empty commit message, nothing to commit"]);
    assert_eq!(t.changes.len(), 1);
}

#[test]
fn unexpected_reply_ends_run() {
    let mut t = two_changes();
    let (r, steps) = run(&mut t, None, false, vec![Reply::Pushed(true)]);
    assert!(steps[1].lines.is_empty());
    assert!(matches!(steps[1].request, Request::Finish));
    assert!(!steps[1].save);
    assert_eq!(t.changes.len(), 2);
    assert_eq!(r.phase, Phase::Done);
}
