//! Recorded changes and the configuration that shapes commit messages.
use vstd::prelude::*;
use crate::text::views;

verus! {

/// One recorded unit of work.
pub struct Change {
    /// When the change was recorded, as RFC 3339 text with an offset.
    pub timestamp: String,
    /// The change-type tag, such as `feature` or `fix`.
    pub change_type: String,
    pub description: String,
    /// The working tree's modified files when the change was recorded.
    pub files: Vec<String>,
}

pub struct ChangeView {
    pub timestamp: Seq<char>,
    pub change_type: Seq<char>,
    pub description: Seq<char>,
    pub files: Seq<Seq<char>>,
}

impl View for Change {
    type V = ChangeView;

    open spec fn view(&self) -> ChangeView {
        ChangeView {
            timestamp: self.timestamp@,
            change_type: self.change_type@,
            description: self.description@,
            files: views(self.files@),
        }
    }
}

/// The views of a sequence of changes.
pub open spec fn change_views(v: Seq<Change>) -> Seq<ChangeView> {
    v.map_values(|c: Change| c@)
}

/// A commit message template for one change type; `{message}` in it stands
/// for the change's description.
pub struct TemplateEntry {
    pub change_type: String,
    pub template: String,
}

impl View for TemplateEntry {
    type V = (Seq<char>, Seq<char>);

    open spec fn view(&self) -> (Seq<char>, Seq<char>) {
        (self.change_type@, self.template@)
    }
}

pub struct Config {
    /// The branch to push to when none is given and none can be found.
    pub default_branch: String,
    pub commit_templates: Vec<TemplateEntry>,
    /// Whether a successful commit is pushed unless the caller asks not to.
    pub auto_push: bool,
}

pub struct ConfigView {
    pub default_branch: Seq<char>,
    pub templates: Seq<(Seq<char>, Seq<char>)>,
    pub auto_push: bool,
}

impl View for Config {
    type V = ConfigView;

    open spec fn view(&self) -> ConfigView {
        ConfigView {
            default_branch: self.default_branch@,
            templates: self.commit_templates@.map_values(|e: TemplateEntry| e@),
            auto_push: self.auto_push,
        }
    }
}

/// The template that the first entry for `ty` holds, if any.
pub open spec fn lookup(templates: Seq<(Seq<char>, Seq<char>)>, ty: Seq<char>) -> Option<Seq<char>>
    decreases templates.len(),
{
    if templates.len() == 0 {
        None
    } else if templates[0].0 == ty {
        Some(templates[0].1)
    } else {
        lookup(templates.drop_first(), ty)
    }
}

/// The change type whose template serves every type that has none.
pub open spec fn fallback_type() -> Seq<char> {
    "feature"@
}

/// The template used for a change of type `ty`: its own, else the fallback's.
pub open spec fn resolved_template(templates: Seq<(Seq<char>, Seq<char>)>, ty: Seq<char>) -> Option<Seq<char>> {
    match lookup(templates, ty) {
        Some(t) => Some(t),
        None => lookup(templates, fallback_type()),
    }
}

impl ConfigView {
    /// A usable configuration has a template for the fallback type.
    pub open spec fn wf(self) -> bool {
        lookup(self.templates, fallback_type()).is_some()
    }
}

fn entry(change_type: &str, template: &str) -> (r: TemplateEntry)
    ensures
        r@ == (change_type@, template@),
{
    TemplateEntry { change_type: String::from_str(change_type), template: String::from_str(template) }
}

impl Config {
    /// The configuration written on first use: branch `main`, automatic push,
    /// and a template for each of feature, fix, docs, style, refactor, test
    /// and chore.
    pub fn default_config() -> (r: Config)
        ensures
            r@.default_branch == "main"@,
            r@.auto_push,
            r@.templates == seq![
                ("feature"@, "feat: {message}"@),
                ("fix"@, "fix: {message}"@),
                ("docs"@, "docs: {message}"@),
                ("style"@, "style: {message}"@),
                ("refactor"@, "refactor: {message}"@),
                ("test"@, "test: {message}"@),
                ("chore"@, "chore: {message}"@),
            ],
            r@.wf(),
    {
        let mut templates: Vec<TemplateEntry> = Vec::new();
        templates.push(entry("feature", "feat: {message}"));
        templates.push(entry("fix", "fix: {message}"));
        templates.push(entry("docs", "docs: {message}"));
        templates.push(entry("style", "style: {message}"));
        templates.push(entry("refactor", "refactor: {message}"));
        templates.push(entry("test", "test: {message}"));
        templates.push(entry("chore", "chore: {message}"));
        let r = Config { default_branch: String::from_str("main"), commit_templates: templates, auto_push: true };
        assert(r@.templates =~= seq![
            ("feature"@, "feat: {message}"@),
            ("fix"@, "fix: {message}"@),
            ("docs"@, "docs: {message}"@),
            ("style"@, "style: {message}"@),
            ("refactor"@, "refactor: {message}"@),
            ("test"@, "test: {message}"@),
            ("chore"@, "chore: {message}"@),
        ]);
        r
    }

    /// The template for change type `ty`, by its first entry.
    pub fn template_for(&self, ty: &String) -> (r: Option<&String>)
        ensures
            match r {
                Some(t) => lookup(self@.templates, ty@) == Some(t@),
                None => lookup(self@.templates, ty@).is_none(),
            },
    {
        let ghost all = self@.templates;
        let mut i: usize = 0;
        assert(all.subrange(0, all.len() as int) =~= all);
        while i < self.commit_templates.len()
            invariant
                i <= self.commit_templates.len(),
                all == self@.templates,
                lookup(all, ty@) == lookup(all.subrange(i as int, all.len() as int), ty@),
            decreases self.commit_templates.len() - i,
        {
            let e = &self.commit_templates[i];
            proof {
                assert(all.subrange(i as int, all.len() as int).drop_first()
                    =~= all.subrange(i as int + 1, all.len() as int));
            }
            if e.change_type == *ty {
                return Some(&e.template);
            }
            i += 1;
        }
        None
    }

    /// Whether the configuration has a template for the fallback type.
    pub fn has_fallback(&self) -> (r: bool)
        ensures
            r == self@.wf(),
    {
        let feature = String::from_str("feature");
        self.template_for(&feature).is_some()
    }
}

} // verus!
