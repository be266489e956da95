//! The commit-and-push workflow, as decisions from state and reply to the next
//! request. The caller performs each request against version control and
//! hands the outcome back as a reply, until the request is `Finish`.
use vstd::prelude::*;
use crate::message::commit_message;
use crate::tracker::{Tracker, TrackerView};
use crate::text::views;

verus! {

/// Where a commit run stands: the reply it waits for, or done.
#[derive(Clone, Copy, PartialEq, Eq, Structural, Debug)]
pub enum Phase {
    AwaitRepository,
    AwaitStatus,
    AwaitBranch,
    AwaitStage,
    AwaitStaged,
    AwaitCommit,
    AwaitRemote,
    AwaitRemoteBranch,
    AwaitPush,
    Done,
}

/// What the workflow asks of version control next.
pub enum Request {
    /// Is the current directory inside a working tree?
    CheckRepository,
    /// Is the working tree clean?
    ReadStatus,
    /// What is the current branch?
    ReadCurrentBranch,
    /// Stage everything in the tree.
    StageAll,
    /// Is anything staged?
    CheckStaged,
    /// Commit with this message.
    Commit(String),
    /// Does the remote `origin` exist?
    CheckRemote,
    /// Does this branch exist on `origin`?
    CheckRemoteBranch(String),
    /// Push this branch to `origin`, creating it there and tracking it.
    PushNewBranch(String),
    /// Push this branch to `origin`.
    Push(String),
    /// Nothing more: the run is over.
    Finish,
}

pub enum RequestView {
    CheckRepository,
    ReadStatus,
    ReadCurrentBranch,
    StageAll,
    CheckStaged,
    Commit(Seq<char>),
    CheckRemote,
    CheckRemoteBranch(Seq<char>),
    PushNewBranch(Seq<char>),
    Push(Seq<char>),
    Finish,
}

impl View for Request {
    type V = RequestView;

    open spec fn view(&self) -> RequestView {
        match self {
            Request::CheckRepository => RequestView::CheckRepository,
            Request::ReadStatus => RequestView::ReadStatus,
            Request::ReadCurrentBranch => RequestView::ReadCurrentBranch,
            Request::StageAll => RequestView::StageAll,
            Request::CheckStaged => RequestView::CheckStaged,
            Request::Commit(m) => RequestView::Commit(m@),
            Request::CheckRemote => RequestView::CheckRemote,
            Request::CheckRemoteBranch(b) => RequestView::CheckRemoteBranch(b@),
            Request::PushNewBranch(b) => RequestView::PushNewBranch(b@),
            Request::Push(b) => RequestView::Push(b@),
            Request::Finish => RequestView::Finish,
        }
    }
}

/// The outcome of a request, as version control reported it.
pub enum Reply {
    RepositoryFound(bool),
    /// Whether the status listing was empty.
    StatusClean(bool),
    /// The current branch, or `None` where it could not be asked.
    CurrentBranch(Option<String>),
    /// Whether staging succeeded.
    Staged(bool),
    /// Whether the staged diff was empty.
    NothingStaged(bool),
    Committed(bool),
    RemoteFound(bool),
    RemoteBranchFound(bool),
    Pushed(bool),
}

pub enum ReplyView {
    RepositoryFound(bool),
    StatusClean(bool),
    CurrentBranch(Option<Seq<char>>),
    Staged(bool),
    NothingStaged(bool),
    Committed(bool),
    RemoteFound(bool),
    RemoteBranchFound(bool),
    Pushed(bool),
}

impl View for Reply {
    type V = ReplyView;

    open spec fn view(&self) -> ReplyView {
        match self {
            Reply::RepositoryFound(b) => ReplyView::RepositoryFound(*b),
            Reply::StatusClean(b) => ReplyView::StatusClean(*b),
            Reply::CurrentBranch(o) => ReplyView::CurrentBranch(
                match o {
                    Some(s) => Some(s@),
                    None => None,
                },
            ),
            Reply::Staged(b) => ReplyView::Staged(*b),
            Reply::NothingStaged(b) => ReplyView::NothingStaged(*b),
            Reply::Committed(b) => ReplyView::Committed(*b),
            Reply::RemoteFound(b) => ReplyView::RemoteFound(*b),
            Reply::RemoteBranchFound(b) => ReplyView::RemoteBranchFound(*b),
            Reply::Pushed(b) => ReplyView::Pushed(*b),
        }
    }
}

/// The state of one commit run.
pub struct CommitRun {
    pub phase: Phase,
    /// The branch the caller asked for, if any.
    pub requested_branch: Option<String>,
    /// The branch to push; resolved before staging.
    pub branch: String,
    pub no_push: bool,
}

pub struct RunView {
    pub phase: Phase,
    pub requested_branch: Option<Seq<char>>,
    pub branch: Seq<char>,
    pub no_push: bool,
}

impl View for CommitRun {
    type V = RunView;

    open spec fn view(&self) -> RunView {
        RunView {
            phase: self.phase,
            requested_branch: match self.requested_branch {
                Some(s) => Some(s@),
                None => None,
            },
            branch: self.branch@,
            no_push: self.no_push,
        }
    }
}

/// One decision: lines to print, the request to perform next, and whether the
/// change log must be written out.
pub struct Step {
    pub lines: Vec<String>,
    pub request: Request,
    pub save: bool,
}

pub struct StepView {
    pub lines: Seq<Seq<char>>,
    pub request: RequestView,
    pub save: bool,
}

impl View for Step {
    type V = StepView;

    open spec fn view(&self) -> StepView {
        StepView { lines: views(self.lines@), request: self.request@, save: self.save }
    }
}

/// The run moves to `phase` and asks for `request`.
pub open spec fn ask(t: TrackerView, r: RunView, phase: Phase, lines: Seq<Seq<char>>, request: RequestView) -> (TrackerView, RunView, StepView) {
    (
        t,
        RunView { phase, requested_branch: r.requested_branch, branch: r.branch, no_push: r.no_push },
        StepView { lines, request, save: false },
    )
}

/// The run ends and the log stays as it is.
pub open spec fn stop(t: TrackerView, r: RunView, lines: Seq<Seq<char>>) -> (TrackerView, RunView, StepView) {
    ask(t, r, Phase::Done, lines, RequestView::Finish)
}

/// The run ends with the commit in place: the log is emptied and written out.
pub open spec fn stop_cleared(t: TrackerView, r: RunView, lines: Seq<Seq<char>>) -> (TrackerView, RunView, StepView) {
    (
        TrackerView { config: t.config, changes: Seq::empty() },
        RunView { phase: Phase::Done, requested_branch: r.requested_branch, branch: r.branch, no_push: r.no_push },
        StepView { lines, request: RequestView::Finish, save: true },
    )
}

/// Whether a commit that succeeded is to be pushed.
pub open spec fn push_wanted(t: TrackerView, r: RunView) -> bool {
    !r.no_push && t.config.auto_push
}

/// How a run starts: with nothing recorded it ends at once, otherwise it
/// asks whether the directory is a working tree.
pub open spec fn begin(t: TrackerView, requested: Option<Seq<char>>, no_push: bool) -> (RunView, StepView) {
    let r = RunView { phase: Phase::AwaitRepository, requested_branch: requested, branch: Seq::empty(), no_push };
    if t.changes.len() == 0 {
        (
            RunView { phase: Phase::Done, ..r },
            StepView { lines: seq!["No changes to commit"@], request: RequestView::Finish, save: false },
        )
    } else {
        (r, StepView { lines: Seq::empty(), request: RequestView::CheckRepository, save: false })
    }
}

/// The decision taken on `reply` in state `r`. A reply that the phase does
/// not wait for ends the run with nothing changed.
pub open spec fn advance(t: TrackerView, r: RunView, reply: ReplyView) -> (TrackerView, RunView, StepView) {
    match reply {
        ReplyView::RepositoryFound(found) => if r.phase != Phase::AwaitRepository {
            stop(t, r, Seq::empty())
        } else if found {
            ask(t, r, Phase::AwaitStatus, Seq::empty(), RequestView::ReadStatus)
        } else {
            stop(t, r, seq!["❌ Not in a git repository"@])
        },
        ReplyView::StatusClean(clean) => if r.phase != Phase::AwaitStatus {
            stop(t, r, Seq::empty())
        } else if clean {
            stop(t, r, seq!["No git changes detected to commit"@])
        } else {
            match r.requested_branch {
                Some(b) => ask(
                    t,
                    RunView { branch: b, ..r },
                    Phase::AwaitStage,
                    seq!["Staging changes..."@],
                    RequestView::StageAll,
                ),
                None => ask(t, r, Phase::AwaitBranch, Seq::empty(), RequestView::ReadCurrentBranch),
            }
        },
        ReplyView::CurrentBranch(current) => if r.phase != Phase::AwaitBranch {
            stop(t, r, Seq::empty())
        } else {
            let b = match current {
                Some(c) => c,
                None => t.config.default_branch,
            };
            ask(t, RunView { branch: b, ..r }, Phase::AwaitStage, seq!["Staging changes..."@], RequestView::StageAll)
        },
        ReplyView::Staged(ok) => if r.phase != Phase::AwaitStage {
            stop(t, r, Seq::empty())
        } else if ok {
            ask(t, r, Phase::AwaitStaged, Seq::empty(), RequestView::CheckStaged)
        } else {
            stop(t, r, seq!["❌ Failed to stage changes"@])
        },
        ReplyView::NothingStaged(nothing) => if r.phase != Phase::AwaitStaged {
            stop(t, r, Seq::empty())
        } else if nothing {
            stop(t, r, seq!["❌ No changes were staged"@])
        } else {
            let m = commit_message(t.changes, t.config.templates);
            if m.len() == 0 {
                stop(t, r, seq!["❌ Empty commit message, nothing to commit"@])
            } else {
                ask(t, r, Phase::AwaitCommit, seq!["Committing changes..."@], RequestView::Commit(m))
            }
        },
        ReplyView::Committed(ok) => if r.phase != Phase::AwaitCommit {
            stop(t, r, Seq::empty())
        } else if !ok {
            stop(t, r, seq!["❌ Failed to commit changes"@])
        } else if push_wanted(t, r) {
            ask(t, r, Phase::AwaitRemote, seq!["Pushing to remote..."@], RequestView::CheckRemote)
        } else {
            stop_cleared(t, r, seq!["✓ Successfully committed changes (push skipped)"@])
        },
        ReplyView::RemoteFound(found) => if r.phase != Phase::AwaitRemote {
            stop(t, r, Seq::empty())
        } else if found {
            ask(t, r, Phase::AwaitRemoteBranch, Seq::empty(), RequestView::CheckRemoteBranch(r.branch))
        } else {
            stop_cleared(
                t,
                r,
                seq!["❌ Remote 'origin' not found"@, "✓ Changes committed successfully (push skipped - no remote)"@],
            )
        },
        ReplyView::RemoteBranchFound(found) => if r.phase != Phase::AwaitRemoteBranch {
            stop(t, r, Seq::empty())
        } else if found {
            ask(t, r, Phase::AwaitPush, Seq::empty(), RequestView::Push(r.branch))
        } else {
            ask(
                t,
                r,
                Phase::AwaitPush,
                seq!["Creating new remote branch '"@ + r.branch + "'..."@],
                RequestView::PushNewBranch(r.branch),
            )
        },
        ReplyView::Pushed(ok) => if r.phase != Phase::AwaitPush {
            stop(t, r, Seq::empty())
        } else if ok {
            stop_cleared(t, r, seq!["✓ Successfully pushed changes to "@ + r.branch])
        } else {
            stop(
                t,
                r,
                seq![
                    "❌ Failed to push changes to remote"@,
                    "  Your commits are saved locally. To push later, run:"@,
                    "  git push origin "@ + r.branch,
                ],
            )
        },
    }
}

/// The replies on which a run ends with its commit in place and no push left
/// to fail: committed with the push not wanted, committed with no remote to
/// push to, or pushed.
pub open spec fn completes(t: TrackerView, r: RunView, reply: ReplyView) -> bool {
    ||| (r.phase == Phase::AwaitCommit && reply == ReplyView::Committed(true) && !push_wanted(t, r))
    ||| (r.phase == Phase::AwaitRemote && reply == ReplyView::RemoteFound(false))
    ||| (r.phase == Phase::AwaitPush && reply == ReplyView::Pushed(true))
}

/// The state after the run takes each reply of `replies` in turn.
pub open spec fn drive(t: TrackerView, r: RunView, replies: Seq<ReplyView>) -> (TrackerView, RunView)
    decreases replies.len(),
{
    if replies.len() == 0 {
        (t, r)
    } else {
        let next = advance(t, r, replies[0]);
        drive(next.0, next.1, replies.drop_first())
    }
}

/// A commit that lands with no push left to fail (pushed, push not wanted,
/// or no remote) empties the log and has the empty log written out.
pub proof fn completed_commit_clears_log(t: TrackerView, r: RunView, reply: ReplyView)
    requires
        completes(t, r, reply),
    ensures
        advance(t, r, reply).0.changes.len() == 0,
        advance(t, r, reply).0.config == t.config,
        advance(t, r, reply).1.phase == Phase::Done,
        advance(t, r, reply).2.save,
{
}

/// Every decision but a completed commit leaves the log as it is and writes
/// nothing.
pub proof fn only_completion_touches_log(t: TrackerView, r: RunView, reply: ReplyView)
    requires
        !completes(t, r, reply),
    ensures
        advance(t, r, reply).0 == t,
        !advance(t, r, reply).2.save,
{
}

/// A finished run stays finished: every reply is answered with `Finish`, and
/// nothing changes.
pub proof fn finished_run_stays_finished(t: TrackerView, r: RunView, replies: Seq<ReplyView>)
    requires
        r.phase == Phase::Done,
    ensures
        drive(t, r, replies) == (t, r),
        forall|reply: ReplyView| #![auto] advance(t, r, reply).2.request == RequestView::Finish,
    decreases replies.len(),
{
    if replies.len() > 0 {
        let next = advance(t, r, replies[0]);
        assert(next.0 == t && next.1 == r);
        finished_run_stays_finished(t, r, replies.drop_first());
    }
}

/// While a run is not finished, the log is the one it started with.
proof fn unfinished_run_keeps_log(t: TrackerView, r: RunView, replies: Seq<ReplyView>)
    ensures
        drive(t, r, replies).1.phase != Phase::Done ==> drive(t, r, replies).0 == t,
    decreases replies.len(),
{
    if replies.len() > 0 {
        let next = advance(t, r, replies[0]);
        if completes(t, r, replies[0]) {
            finished_run_stays_finished(next.0, next.1, replies.drop_first());
        } else {
            unfinished_run_keeps_log(next.0, next.1, replies.drop_first());
        }
    }
}

/// A failed push leaves the log exactly as it was when the run began, writes
/// nothing, and ends the run, whatever came before it in the run.
pub proof fn failed_push_keeps_log(
    t: TrackerView,
    requested: Option<Seq<char>>,
    no_push: bool,
    replies: Seq<ReplyView>,
)
    requires
        drive(t, begin(t, requested, no_push).0, replies).1.phase == Phase::AwaitPush,
    ensures
        ({
            let before = drive(t, begin(t, requested, no_push).0, replies);
            let after = advance(before.0, before.1, ReplyView::Pushed(false));
            after.0 == t && !after.2.save && after.2.request == RequestView::Finish
        }),
{
    unfinished_run_keeps_log(t, begin(t, requested, no_push).0, replies);
}

/// A clean working tree ends the run: the log stays as it is, and no staging,
/// commit or push is asked for, then or on any later reply.
pub proof fn clean_tree_ends_run(t: TrackerView, r: RunView, later: Seq<ReplyView>)
    requires
        r.phase == Phase::AwaitStatus,
    ensures
        ({
            let after = advance(t, r, ReplyView::StatusClean(true));
            &&& after.0 == t
            &&& !after.2.save
            &&& after.2.request == RequestView::Finish
            &&& after.1.phase == Phase::Done
            &&& drive(after.0, after.1, later) == (after.0, after.1)
            &&& forall|reply: ReplyView| #![auto] advance(after.0, after.1, reply).2.request == RequestView::Finish
        }),
{
    let after = advance(t, r, ReplyView::StatusClean(true));
    finished_run_stays_finished(after.0, after.1, later);
}

fn no_lines() -> (r: Vec<String>)
    ensures
        views(r@) == Seq::<Seq<char>>::empty(),
{
    let r: Vec<String> = Vec::new();
    assert(views(r@) =~= Seq::<Seq<char>>::empty());
    r
}

fn one_line(a: String) -> (r: Vec<String>)
    ensures
        views(r@) == seq![a@],
{
    let mut r: Vec<String> = Vec::new();
    r.push(a);
    assert(views(r@) =~= seq![a@]);
    r
}

fn two_lines(a: String, b: String) -> (r: Vec<String>)
    ensures
        views(r@) == seq![a@, b@],
{
    let mut r: Vec<String> = Vec::new();
    r.push(a);
    r.push(b);
    assert(views(r@) =~= seq![a@, b@]);
    r
}

fn three_lines(a: String, b: String, c: String) -> (r: Vec<String>)
    ensures
        views(r@) == seq![a@, b@, c@],
{
    let mut r: Vec<String> = Vec::new();
    r.push(a);
    r.push(b);
    r.push(c);
    assert(views(r@) =~= seq![a@, b@, c@]);
    r
}

fn text(s: &str) -> (r: String)
    ensures
        r@ == s@,
{
    String::from_str(s)
}

fn end_run(run: &mut CommitRun, lines: Vec<String>) -> (s: Step)
    ensures
        final(run)@ == (RunView { phase: Phase::Done, ..old(run)@ }),
        s@ == (StepView { lines: views(lines@), request: RequestView::Finish, save: false }),
{
    run.phase = Phase::Done;
    Step { lines, request: Request::Finish, save: false }
}

fn move_to(run: &mut CommitRun, phase: Phase, lines: Vec<String>, request: Request) -> (s: Step)
    ensures
        final(run)@ == (RunView { phase, ..old(run)@ }),
        s@ == (StepView { lines: views(lines@), request: request@, save: false }),
{
    run.phase = phase;
    Step { lines, request, save: false }
}

impl Tracker {
    /// Starts a commit run toward `branch`, or toward the branch found later,
    /// pushing afterwards unless `no_push` is set or the configuration says
    /// not to.
    pub fn begin_commit(&self, branch: Option<String>, no_push: bool) -> (r: (CommitRun, Step))
        ensures
            (r.0@, r.1@) == begin(self@, match branch { Some(b) => Some(b@), None => None }, no_push),
    {
        let mut run = CommitRun { phase: Phase::AwaitRepository, requested_branch: branch, branch: String::new(), no_push };
        if self.changes.len() == 0 {
            let step = end_run(&mut run, one_line(text("No changes to commit")));
            (run, step)
        } else {
            (run, Step { lines: no_lines(), request: Request::CheckRepository, save: false })
        }
    }

    /// Takes the decision on `reply` for `run`: the log is emptied only once
    /// a commit is in place and no push is left to fail.
    pub fn advance_commit(&mut self, run: &mut CommitRun, reply: Reply) -> (s: Step)
        requires
            old(self)@.config.wf(),
        ensures
            (final(self)@, final(run)@, s@) == advance(old(self)@, old(run)@, reply@),
    {
        match reply {
            Reply::RepositoryFound(found) => if run.phase != Phase::AwaitRepository {
                end_run(run, no_lines())
            } else if found {
                move_to(run, Phase::AwaitStatus, no_lines(), Request::ReadStatus)
            } else {
                end_run(run, one_line(text("❌ Not in a git repository")))
            },
            Reply::StatusClean(clean) => if run.phase != Phase::AwaitStatus {
                end_run(run, no_lines())
            } else if clean {
                end_run(run, one_line(text("No git changes detected to commit")))
            } else {
                match &run.requested_branch {
                    Some(b) => {
                        run.branch = b.clone();
                        move_to(run, Phase::AwaitStage, one_line(text("Staging changes...")), Request::StageAll)
                    },
                    None => move_to(run, Phase::AwaitBranch, no_lines(), Request::ReadCurrentBranch),
                }
            },
            Reply::CurrentBranch(current) => if run.phase != Phase::AwaitBranch {
                end_run(run, no_lines())
            } else {
                run.branch = match current {
                    Some(c) => c,
                    None => self.config.default_branch.clone(),
                };
                move_to(run, Phase::AwaitStage, one_line(text("Staging changes...")), Request::StageAll)
            },
            Reply::Staged(ok) => if run.phase != Phase::AwaitStage {
                end_run(run, no_lines())
            } else if ok {
                move_to(run, Phase::AwaitStaged, no_lines(), Request::CheckStaged)
            } else {
                end_run(run, one_line(text("❌ Failed to stage changes")))
            },
            Reply::NothingStaged(nothing) => if run.phase != Phase::AwaitStaged {
                end_run(run, no_lines())
            } else if nothing {
                end_run(run, one_line(text("❌ No changes were staged")))
            } else {
                let m = self.generate_commit_message();
                if m.as_str().is_empty() {
                    end_run(run, one_line(text("❌ Empty commit message, nothing to commit")))
                } else {
                    move_to(run, Phase::AwaitCommit, one_line(text("Committing changes...")), Request::Commit(m))
                }
            },
            Reply::Committed(ok) => if run.phase != Phase::AwaitCommit {
                end_run(run, no_lines())
            } else if !ok {
                end_run(run, one_line(text("❌ Failed to commit changes")))
            } else if !run.no_push && self.config.auto_push {
                move_to(run, Phase::AwaitRemote, one_line(text("Pushing to remote...")), Request::CheckRemote)
            } else {
                self.clear_changes();
                run.phase = Phase::Done;
                let lines = one_line(text("✓ Successfully committed changes (push skipped)"));
                Step { lines, request: Request::Finish, save: true }
            },
            Reply::RemoteFound(found) => if run.phase != Phase::AwaitRemote {
                end_run(run, no_lines())
            } else if found {
                let b = run.branch.clone();
                move_to(run, Phase::AwaitRemoteBranch, no_lines(), Request::CheckRemoteBranch(b))
            } else {
                self.clear_changes();
                run.phase = Phase::Done;
                let lines = two_lines(
                    text("❌ Remote 'origin' not found"),
                    text("✓ Changes committed successfully (push skipped - no remote)"),
                );
                Step { lines, request: Request::Finish, save: true }
            },
            Reply::RemoteBranchFound(found) => if run.phase != Phase::AwaitRemoteBranch {
                end_run(run, no_lines())
            } else if found {
                let b = run.branch.clone();
                move_to(run, Phase::AwaitPush, no_lines(), Request::Push(b))
            } else {
                let b = run.branch.clone();
                let line = text("Creating new remote branch '").concat(run.branch.as_str()).concat("'...");
                move_to(run, Phase::AwaitPush, one_line(line), Request::PushNewBranch(b))
            },
            Reply::Pushed(ok) => if run.phase != Phase::AwaitPush {
                end_run(run, no_lines())
            } else if ok {
                self.clear_changes();
                run.phase = Phase::Done;
                let lines = one_line(text("✓ Successfully pushed changes to ").concat(run.branch.as_str()));
                Step { lines, request: Request::Finish, save: true }
            } else {
                let last = text("  git push origin ").concat(run.branch.as_str());
                let lines = three_lines(
                    text("❌ Failed to push changes to remote"),
                    text("  Your commits are saved locally. To push later, run:"),
                    last,
                );
                end_run(run, lines)
            },
        }
    }
}

} // verus!
