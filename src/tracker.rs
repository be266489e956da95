//! The change log and the operations on it.
use vstd::prelude::*;
use crate::model::{Change, ChangeView, Config, ConfigView, change_views};
use crate::message::{commit_message, render_message};
use crate::text::{decimal, decimal_string, join, join_strings, views};

verus! {

/// The change log of one run, with the configuration that it was loaded with.
pub struct Tracker {
    pub config: Config,
    pub changes: Vec<Change>,
}

pub struct TrackerView {
    pub config: ConfigView,
    pub changes: Seq<ChangeView>,
}

impl View for Tracker {
    type V = TrackerView;

    open spec fn view(&self) -> TrackerView {
        TrackerView { config: self.config@, changes: change_views(self.changes@) }
    }
}

/// The line that lists change `c` at 1-based position `index`.
pub open spec fn entry_line(index: nat, c: ChangeView) -> Seq<char> {
    decimal(index) + ". ["@ + c.timestamp + "] "@ + c.change_type + ": "@ + c.description
}

/// The lines for change `c` at 1-based position `index`: its entry line,
/// then, if it has files, an indented line that lists them.
pub open spec fn change_listing(index: nat, c: ChangeView) -> Seq<Seq<char>> {
    if c.files.len() == 0 {
        seq![entry_line(index, c)]
    } else {
        seq![entry_line(index, c), "   Files: "@ + join(c.files, ", "@)]
    }
}

/// The lines of all changes, numbered from 1 in log order.
pub open spec fn entries_listing(changes: Seq<ChangeView>) -> Seq<Seq<char>>
    decreases changes.len(),
{
    if changes.len() == 0 {
        Seq::empty()
    } else {
        entries_listing(changes.drop_last()) + change_listing(changes.len(), changes.last())
    }
}

/// What listing prints, line by line.
pub open spec fn listing(changes: Seq<ChangeView>) -> Seq<Seq<char>> {
    if changes.len() == 0 {
        seq!["No changes recorded yet"@]
    } else {
        seq!["\nRecorded changes:"@] + entries_listing(changes)
    }
}

/// What recording a change prints, line by line.
pub open spec fn record_report(change_type: Seq<char>, description: Seq<char>, files: Seq<Seq<char>>) -> Seq<Seq<char>> {
    let first = "✓ Recorded "@ + change_type + ": "@ + description;
    if files.len() == 0 {
        seq![first]
    } else {
        seq![first, "  Modified files: "@ + join(files, ", "@)]
    }
}

/// Relies on chrono's `Local::now` and `DateTime::to_rfc3339`: the current
/// local time as RFC 3339 text with its offset. Nothing is stated of the
/// text, which depends on the clock.
#[verifier::external_body]
fn local_timestamp() -> String {
    chrono::Local::now().to_rfc3339()
}

impl Tracker {
    pub fn new(config: Config, changes: Vec<Change>) -> (r: Tracker)
        ensures
            r@.config == config@,
            r@.changes == change_views(changes@),
    {
        Tracker { config, changes }
    }

    /// Appends a change recorded at `timestamp`.
    pub fn add_change_at(&mut self, timestamp: String, description: String, change_type: String, files: Vec<String>)
        ensures
            final(self)@.config == old(self)@.config,
            final(self)@.changes == old(self)@.changes.push(
                ChangeView {
                    timestamp: timestamp@,
                    change_type: change_type@,
                    description: description@,
                    files: views(files@),
                },
            ),
    {
        let c = Change { timestamp, change_type, description, files };
        self.changes.push(c);
        assert(change_views(self.changes@) =~= old(self)@.changes.push(c@));
    }

    /// Appends a change stamped with the current local time. The log grows by
    /// exactly one entry, which holds the given type, description and files.
    pub fn add_change(&mut self, description: String, change_type: String, files: Vec<String>)
        ensures
            final(self)@.config == old(self)@.config,
            final(self)@.changes.len() == old(self)@.changes.len() + 1,
            final(self)@.changes.drop_last() == old(self)@.changes,
            final(self)@.changes.last().change_type == change_type@,
            final(self)@.changes.last().description == description@,
            final(self)@.changes.last().files == views(files@),
    {
        let timestamp = local_timestamp();
        self.add_change_at(timestamp, description, change_type, files);
        assert(final(self)@.changes.drop_last() =~= old(self)@.changes);
    }

    /// The lines to print after recording a change.
    pub fn record_lines(change_type: &String, description: &String, files: &Vec<String>) -> (r: Vec<String>)
        ensures
            views(r@) == record_report(change_type@, description@, views(files@)),
    {
        let first = String::from_str("✓ Recorded ").concat(change_type.as_str()).concat(": ").concat(
            description.as_str(),
        );
        let mut r: Vec<String> = Vec::new();
        r.push(first);
        if files.len() > 0 {
            let joined = join_strings(files, ", ");
            r.push(String::from_str("  Modified files: ").concat(joined.as_str()));
        }
        assert(views(r@) =~= record_report(change_type@, description@, views(files@)));
        r
    }

    /// The lines that list the log. Listing reads the log and changes nothing:
    /// its lines are a function of the log alone.
    pub fn list_lines(&self) -> (r: Vec<String>)
        ensures
            views(r@) == listing(self@.changes),
    {
        let ghost all = self@.changes;
        let mut r: Vec<String> = Vec::new();
        if self.changes.len() == 0 {
            r.push(String::from_str("No changes recorded yet"));
            assert(views(r@) =~= listing(all));
            return r;
        }
        r.push(String::from_str("\nRecorded changes:"));
        let mut i: usize = 0;
        while i < self.changes.len()
            invariant
                i <= self.changes.len(),
                all == self@.changes,
                views(r@) =~= seq!["\nRecorded changes:"@] + entries_listing(all.take(i as int)),
            decreases self.changes.len() - i,
        {
            let c = &self.changes[i];
            let number = decimal_string(i + 1);
            let line = number.concat(". [").concat(c.timestamp.as_str()).concat("] ").concat(
                c.change_type.as_str(),
            ).concat(": ").concat(c.description.as_str());
            let ghost before = r@;
            r.push(line);
            if c.files.len() > 0 {
                let joined = join_strings(&c.files, ", ");
                r.push(String::from_str("   Files: ").concat(joined.as_str()));
            }
            proof {
                assert(all.take(i as int + 1).drop_last() =~= all.take(i as int));
                assert(all.take(i as int + 1).last() == c@);
                assert(views(r@) =~= views(before) + change_listing((i + 1) as nat, c@));
            }
            i += 1;
        }
        assert(all.take(self.changes.len() as int) =~= all);
        r
    }

    /// The commit message for the current log.
    pub fn generate_commit_message(&self) -> (r: String)
        requires
            self@.config.wf(),
        ensures
            r@ == commit_message(self@.changes, self@.config.templates),
    {
        render_message(&self.changes, &self.config)
    }

    /// Empties the log.
    pub fn clear_changes(&mut self)
        ensures
            final(self)@.config == old(self)@.config,
            final(self)@.changes == Seq::<ChangeView>::empty(),
    {
        self.changes.clear();
        assert(change_views(self.changes@) =~= Seq::<ChangeView>::empty());
    }
}

} // verus!
