//! Commit-message generation from the recorded changes.
use vstd::prelude::*;
use crate::model::{Change, ChangeView, Config, change_views, resolved_template, lookup, fallback_type};
use crate::text::{join, views, replace_all, replace, join_strings};

verus! {

/// The placeholder that a template holds for the description.
pub open spec fn placeholder() -> Seq<char> {
    "{message}"@
}

/// The message given when no change is recorded.
pub open spec fn no_changes_text() -> Seq<char> {
    "No changes recorded"@
}

/// One `- <file>` line for each file, joined by newlines.
pub open spec fn file_lines(files: Seq<Seq<char>>) -> Seq<char> {
    join(files.map_values(|f: Seq<char>| "- "@ + f), "\n"@)
}

/// The template with the description put in; then, if files were recorded,
/// a blank line and the file lines.
pub open spec fn change_block(c: ChangeView, templates: Seq<(Seq<char>, Seq<char>)>) -> Seq<char> {
    let subject = replace_all(resolved_template(templates, c.change_type).unwrap(), placeholder(), c.description);
    if c.files.len() == 0 {
        subject
    } else {
        subject + "\n\n"@ + file_lines(c.files)
    }
}

/// The commit message for a log: the block of each change in log order,
/// separated by blank lines, or the fixed text for an empty log.
pub open spec fn commit_message(changes: Seq<ChangeView>, templates: Seq<(Seq<char>, Seq<char>)>) -> Seq<char> {
    if changes.len() == 0 {
        no_changes_text()
    } else {
        join(changes.map_values(|c: ChangeView| change_block(c, templates)), "\n\n"@)
    }
}

/// Every file as a `- <file>` line.
fn bullet_files(files: &Vec<String>) -> (r: Vec<String>)
    ensures
        views(r@) == views(files@).map_values(|f: Seq<char>| "- "@ + f),
{
    let mut out: Vec<String> = Vec::new();
    let mut i: usize = 0;
    while i < files.len()
        invariant
            i <= files.len(),
            views(out@) =~= views(files@).take(i as int).map_values(|f: Seq<char>| "- "@ + f),
        decreases files.len() - i,
    {
        let line = String::from_str("- ").concat(files[i].as_str());
        let ghost before = out@;
        out.push(line);
        proof {
            assert(out@ == before.push(line));
            assert(views(out@) =~= views(before).push(line@));
            assert(views(files@).take(i as int + 1) =~= views(files@).take(i as int).push(files@[i as int]@));
            assert(views(out@) =~= views(files@).take(i as int + 1).map_values(|f: Seq<char>| "- "@ + f));
        }
        i += 1;
    }
    assert(views(files@).take(files.len() as int) =~= views(files@));
    out
}

/// The block of one change, from its template.
fn render_change(c: &Change, template: &String) -> (r: String)
    ensures
        r@ == (if c@.files.len() == 0 {
            replace_all(template@, placeholder(), c@.description)
        } else {
            replace_all(template@, placeholder(), c@.description) + "\n\n"@ + file_lines(c@.files)
        }),
{
    proof {
        reveal_strlit("{message}");
    }
    let subject = replace(template.as_str(), "{message}", c.description.as_str());
    if c.files.len() == 0 {
        subject
    } else {
        let bullets = bullet_files(&c.files);
        let list = join_strings(&bullets, "\n");
        subject.concat("\n\n").concat(list.as_str())
    }
}

/// The commit message for `changes` under `config`'s templates.
pub fn render_message(changes: &Vec<Change>, config: &Config) -> (r: String)
    requires
        config@.wf(),
    ensures
        r@ == commit_message(change_views(changes@), config@.templates),
{
    if changes.len() == 0 {
        return String::from_str("No changes recorded");
    }
    let ghost templates = config@.templates;
    let mut blocks: Vec<String> = Vec::new();
    let mut i: usize = 0;
    while i < changes.len()
        invariant
            i <= changes.len(),
            templates == config@.templates,
            config@.wf(),
            views(blocks@) =~= change_views(changes@).take(i as int).map_values(
                |c: ChangeView| change_block(c, templates),
            ),
        decreases changes.len() - i,
    {
        let c = &changes[i];
        let template = match config.template_for(&c.change_type) {
            Some(t) => t,
            None => {
                let feature = String::from_str("feature");
                match config.template_for(&feature) {
                    Some(t) => t,
                    None => {
                        // A well-formed configuration has the fallback, so this arm is dead.
                        proof {
                            assert(lookup(templates, fallback_type()).is_some());
                        }
                        return String::new();
                    },
                }
            },
        };
        let block = render_change(c, template);
        let ghost before = blocks@;
        blocks.push(block);
        proof {
            assert(views(blocks@) =~= views(before).push(block@));
            assert(change_views(changes@).take(i as int + 1) =~= change_views(changes@).take(i as int).push(changes@[i as int]@));
            assert(views(blocks@) =~= change_views(changes@).take(i as int + 1).map_values(
                |c: ChangeView| change_block(c, templates),
            ));
        }
        i += 1;
    }
    assert(change_views(changes@).take(changes.len() as int) =~= change_views(changes@));
    join_strings(&blocks, "\n\n")
}

/// An empty log gives the fixed "No changes recorded" text, whatever the
/// templates.
pub proof fn empty_log_gives_sentinel(templates: Seq<(Seq<char>, Seq<char>)>)
    ensures
        commit_message(Seq::empty(), templates) == "No changes recorded"@,
{
}

/// A change whose type has no template is rendered with the fallback type's
/// template, exactly as a change of the fallback type would be.
pub proof fn unknown_type_uses_fallback(c: ChangeView, templates: Seq<(Seq<char>, Seq<char>)>)
    requires
        lookup(templates, c.change_type).is_none(),
    ensures
        change_block(c, templates) == change_block(
            ChangeView { change_type: fallback_type(), ..c },
            templates,
        ),
{
}

/// Whether no match of the placeholder starts at any of the first `n`
/// positions of `s`.
pub open spec fn no_match_before(s: Seq<char>, n: int) -> bool {
    forall|k: int|
        0 <= k < n && k + placeholder().len() <= s.len() ==> #[trigger] s.subrange(k, k + placeholder().len())
            != placeholder()
}

/// Substitution copies a prefix in which no match starts.
proof fn replace_skips_prefix(pre: Seq<char>, rest: Seq<char>, rep: Seq<char>)
    requires
        no_match_before(pre + rest, pre.len() as int),
    ensures
        replace_all(pre + rest, placeholder(), rep) == pre + replace_all(rest, placeholder(), rep),
    decreases pre.len(),
{
    reveal_strlit("{message}");
    let p = placeholder();
    if pre.len() > 0 {
        let s = pre + rest;
        let tail = pre.drop_first();
        let s1 = s.subrange(1, s.len() as int);
        assert(s1 =~= tail + rest);
        assert forall|k: int|
            0 <= k < tail.len() && k + p.len() <= s1.len() implies #[trigger] s1.subrange(k, k + p.len()) != p by {
            assert(s1.subrange(k, k + p.len()) =~= s.subrange(k + 1, k + 1 + p.len()));
        }
        replace_skips_prefix(tail, rest, rep);
        if s.len() < p.len() {
            assert(replace_all(rest, p, rep) == rest);
            assert(replace_all(tail + rest, p, rep) == tail + rest);
        } else {
            assert(s.subrange(0, 0 + p.len() as int) != p);
            assert(replace_all(s, p, rep) == seq![s[0]] + replace_all(s1, p, rep));
        }
        assert(pre =~= seq![pre[0]] + tail);
    } else {
        assert(pre + rest =~= rest);
    }
}

/// The placeholder holds `}` only at its end.
proof fn placeholder_shape()
    ensures
        placeholder().len() == 9,
        placeholder()[8] == '}',
        forall|j: int| 0 <= j < 8 ==> placeholder()[j] != '}',
{
    reveal_strlit("{message}");
}

/// The description is put into a template verbatim, whatever it holds: lines
/// that start with `-`, braces, even the placeholder itself. For a template
/// `pre{message}post` whose fixed parts hold no placeholder, the result is
/// exactly `pre`, the description, then `post`.
pub proof fn description_inserted_verbatim(pre: Seq<char>, post: Seq<char>, description: Seq<char>)
    requires
        no_match_before(pre, pre.len() as int),
        no_match_before(post, post.len() as int),
    ensures
        replace_all(pre + placeholder() + post, placeholder(), description) == pre + description + post,
{
    placeholder_shape();
    let p = placeholder();
    let s = pre + (p + post);
    assert(pre + p + post =~= s);
    assert forall|k: int| 0 <= k < pre.len() && k + p.len() <= s.len() implies #[trigger] s.subrange(k, k + p.len()) != p by {
        if k + p.len() <= pre.len() {
            assert(s.subrange(k, k + p.len()) =~= pre.subrange(k, k + p.len()));
        } else {
            let j = k + 8 - pre.len();
            assert(s.subrange(k, k + p.len())[8] == p[j]);
        }
    }
    replace_skips_prefix(pre, p + post, description);
    let t = p + post;
    assert(t.subrange(0, p.len() as int) =~= p);
    assert(t.subrange(p.len() as int, t.len() as int) =~= post);
    assert(post + Seq::<char>::empty() =~= post);
    replace_skips_prefix(post, Seq::empty(), description);
    assert(replace_all(Seq::<char>::empty(), p, description) == Seq::<char>::empty());
}

} // verus!
