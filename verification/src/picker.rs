//! What the picker shows and how it answers the user: all projects, or those
//! of the one product that a query names.

use vstd::prelude::*;
use crate::aliases::{resolved, AliasRegistry};
use crate::ide::IDEType;
use crate::recent_project::RecentProject;
use crate::text::{chars_of, replace_all, replaced, slice_chars, string_of};

verus! {

/// What the user did.
#[derive(Debug, Clone, Copy, PartialEq, Eq, Structural)]
pub enum Event {
    /// An entry was chosen.
    Chosen { selected: usize },
    /// Text was entered that names no entry; `alt` tells the alternative
    /// binding from the plain one.
    CustomInput { alt: bool },
    Cancel,
    /// Anything else.
    Other,
}

/// What the picker is to do next.
#[derive(Debug)]
pub enum Reaction {
    /// Start the launcher on the project, then leave.
    Launch { launcher: String, project: String },
    Exit,
    /// Show the entries again, the input kept.
    Reload,
    /// Show the entries again, the input cleared.
    Reset,
}

/// The text of a `Reaction`.
pub enum ReactionModel {
    Launch { launcher: Seq<char>, project: Seq<char> },
    Exit,
    Reload,
    Reset,
}

impl View for Reaction {
    type V = ReactionModel;

    open spec fn view(&self) -> ReactionModel {
        match self {
            Reaction::Launch { launcher, project } => ReactionModel::Launch {
                launcher: launcher@,
                project: project@,
            },
            Reaction::Exit => ReactionModel::Exit,
            Reaction::Reload => ReactionModel::Reload,
            Reaction::Reset => ReactionModel::Reset,
        }
    }
}

/// Whether a project is shown under a query: any project without one, the
/// projects of the queried product with one.
pub open spec fn shows(query: Option<IDEType>, project: RecentProject) -> bool {
    match query {
        Some(ide) => project.ide.ide_type == ide,
        None => true,
    }
}

/// The positions of the projects that are shown under a query, ascending.
pub open spec fn shown(projects: Seq<RecentProject>, query: Option<IDEType>) -> Seq<usize>
    decreases projects.len(),
{
    if projects.len() == 0 {
        Seq::empty()
    } else {
        let before = shown(projects.drop_last(), query);
        if shows(query, projects.last()) {
            before.push((projects.len() - 1) as usize)
        } else {
            before
        }
    }
}

/// The first word of the input: what stands before its first space.
pub open spec fn first_word(input: Seq<char>) -> Seq<char>
    decreases input.len(),
{
    if input.len() == 0 || input[0] == ' ' {
        Seq::empty()
    } else {
        seq![input[0]] + first_word(input.skip(1))
    }
}

/// The names under which a project's icon is asked for, in turn: its own icon
/// alone where it has one; else the product's icon name without the vendor's
/// prefix, then the product's fallback icon.
pub open spec fn icon_queries_of(project: RecentProject) -> Seq<Seq<char>> {
    match project.icon {
        Some(icon) => seq![icon@],
        None => seq![
            replaced(project.ide.icon_name@, "jetbrains-"@, Seq::empty()),
            project.ide.fallback_icon_path@,
        ],
    }
}

/// What is shown is exactly what the query asks for: a position is listed if
/// and only if it holds a project that is shown under the query.
pub proof fn shown_is_exact(projects: Seq<RecentProject>, query: Option<IDEType>, i: int)
    requires
        projects.len() <= usize::MAX,
    ensures
        (exists|k: int| 0 <= k < shown(projects, query).len() && shown(projects, query)[k] == i)
            <==> (0 <= i < projects.len() && shows(query, projects[i])),
    decreases projects.len(),
{
    if projects.len() > 0 {
        let front = projects.drop_last();
        let before = shown(front, query);
        let now = shown(projects, query);
        shown_is_exact(front, query, i);
        if exists|k: int| 0 <= k < now.len() && now[k] == i {
            let k = choose|k: int| 0 <= k < now.len() && now[k] == i;
            if k < before.len() {
                assert(before[k] == i);
                assert(front[i] == projects[i]);
            }
        }
        if 0 <= i < projects.len() && shows(query, projects[i]) {
            if i < front.len() {
                assert(front[i] == projects[i]);
                let k = choose|k: int| 0 <= k < before.len() && before[k] == i;
                assert(now[k] == i);
            } else {
                assert(now[before.len() as int] == i);
            }
        }
    }
}

/// What is shown is listed in the order of the index, each position once.
pub proof fn shown_is_ascending(projects: Seq<RecentProject>, query: Option<IDEType>)
    requires
        projects.len() <= usize::MAX,
    ensures
        forall|k: int|
            0 <= k < shown(projects, query).len() ==> (#[trigger] shown(projects, query)[k])
                < projects.len(),
        forall|j: int, k: int|
            0 <= j < k < shown(projects, query).len() ==> shown(projects, query)[j] < shown(
                projects,
                query,
            )[k],
    decreases projects.len(),
{
    if projects.len() > 0 {
        let before = shown(projects.drop_last(), query);
        let now = shown(projects, query);
        shown_is_ascending(projects.drop_last(), query);
        assert forall|k: int| 0 <= k < now.len() implies (#[trigger] now[k]) < projects.len() by {
            if k < before.len() {
                assert(now[k] == before[k]);
            }
        }
        assert forall|j: int, k: int| 0 <= j < k < now.len() implies now[j] < now[k] by {
            assert(now[j] == before[j]);
            if k < before.len() {
                assert(now[k] == before[k]);
            }
        }
    }
}

/// What is shown just now: the query, and the positions of the projects that
/// it lets through.
struct Shown {
    query: Option<IDEType>,
    entries: Vec<usize>,
}

/// The picker: the index, the aliases, and what is shown just now.
pub struct Picker {
    projects: Vec<RecentProject>,
    aliases: AliasRegistry,
    shown: Shown,
}

/// The positions of the projects that are shown under the query.
fn filter(projects: &Vec<RecentProject>, query: Option<IDEType>) -> (entries: Vec<usize>)
    ensures
        entries@ == shown(projects@, query),
{
    let mut entries: Vec<usize> = Vec::new();
    let mut i: usize = 0;
    while i < projects.len()
        invariant
            i <= projects.len(),
            entries@ == shown(projects@.take(i as int), query),
        decreases projects.len() - i,
    {
        proof {
            assert(projects@.take(i + 1).drop_last() == projects@.take(i as int));
            assert(projects@.take(i + 1).last() == projects@[i as int]);
        }
        let keep = match query {
            Some(ide) => projects[i].ide.ide_type == ide,
            None => true,
        };
        if keep {
            entries.push(i);
        }
        i += 1;
    }
    assert(projects@.take(projects.len() as int) == projects@);
    entries
}

/// The first word of the input.
pub fn first_word_of(input: &str) -> (word: String)
    ensures
        word@ == first_word(input@),
{
    let chars = chars_of(input);
    let mut i: usize = 0;
    assert(chars@.skip(0) == chars@);
    assert(chars@.take(0) + first_word(chars@) == first_word(chars@));
    while i < chars.len() && chars[i] != ' '
        invariant
            i <= chars.len(),
            first_word(chars@) == chars@.take(i as int) + first_word(chars@.skip(i as int)),
        decreases chars.len() - i,
    {
        proof {
            let rest = chars@.skip(i as int);
            assert(rest[0] == chars@[i as int]);
            assert(rest.skip(1) == chars@.skip(i + 1));
            assert(chars@.take(i + 1) == chars@.take(i as int) + seq![rest[0]]);
            assert(chars@.take(i as int) + (seq![rest[0]] + first_word(rest.skip(1)))
                == chars@.take(i + 1) + first_word(rest.skip(1)));
        }
        i += 1;
    }
    proof {
        let rest = chars@.skip(i as int);
        if i < chars.len() {
            assert(rest[0] == chars@[i as int]);
        }
        assert(first_word(rest) == Seq::<char>::empty());
        assert(chars@.take(i as int) + Seq::<char>::empty() == chars@.take(i as int));
    }
    let word = slice_chars(&chars, 0, i);
    assert(word@ == chars@.take(i as int));
    string_of(&word)
}

/// The names under which the project's icon is asked for, in turn.
pub fn icon_queries(project: &RecentProject) -> (queries: Vec<String>)
    ensures
        queries@.map_values(|q: String| q@) == icon_queries_of(*project),
{
    let mut queries: Vec<String> = Vec::new();
    match &project.icon {
        Some(icon) => {
            queries.push(icon.clone());
            assert(queries@.map_values(|q: String| q@) == seq![icon@]);
        },
        None => {
            let name = replace_all(project.ide.icon_name.as_str(), "jetbrains-", "");
            proof {
                reveal_strlit("");
                assert(""@ == Seq::<char>::empty());
            }
            let fallback = project.ide.fallback_icon_path.clone();
            queries.push(name);
            queries.push(fallback);
            assert(queries@.map_values(|q: String| q@) == seq![name@, fallback@]);
        },
    }
    queries
}

impl Picker {
    /// What is shown is what the query asks for.
    #[verifier::type_invariant]
    spec fn shows_what_is_asked(&self) -> bool {
        self.shown.entries@ == shown(self.projects@, self.shown.query)
    }

    /// The index that the picker chooses from.
    pub closed spec fn projects(&self) -> Seq<RecentProject> {
        self.projects@
    }

    /// The aliases by which a query names a product.
    pub closed spec fn aliases(&self) -> Map<Seq<char>, IDEType> {
        self.aliases@
    }

    /// The product that is queried, if any.
    pub closed spec fn query(&self) -> Option<IDEType> {
        self.shown.query
    }

    /// The positions, in the index, of the entries that are shown: those of
    /// the projects that the query lets through, ascending.
    pub closed spec fn entries(&self) -> Seq<usize> {
        shown(self.projects@, self.shown.query)
    }

    /// What is shown follows from the index and the query.
    pub proof fn entries_are_what_is_asked(&self)
        ensures
            self.entries() == shown(self.projects(), self.query()),
    {
    }

    /// A picker that shows every project of the index.
    pub fn new(projects: Vec<RecentProject>, aliases: AliasRegistry) -> (picker: Self)
        ensures
            picker.projects() == projects@,
            picker.aliases() == aliases@,
            picker.query() is None,
    {
        let entries = filter(&projects, None);
        Picker { projects, aliases, shown: Shown { query: None, entries } }
    }

    /// How many entries are shown.
    pub fn len(&self) -> (count: usize)
        ensures
            count == self.entries().len(),
    {
        proof {
            use_type_invariant(self);
        }
        self.shown.entries.len()
    }

    /// The product that is queried, if any.
    pub fn current_query(&self) -> (query: Option<IDEType>)
        ensures
            query == self.query(),
    {
        self.shown.query
    }

    /// The project shown on a line, if the line is shown.
    pub fn entry(&self, line: usize) -> (project: Option<&RecentProject>)
        ensures
            match project {
                Some(p) => line < self.entries().len() && *p == self.projects()[self.entries()[line as int] as int],
                None => line >= self.entries().len(),
            },
    {
        proof {
            use_type_invariant(self);
        }
        if line < self.shown.entries.len() {
            proof {
                assert(self.projects@.len() == self.projects.len());
                shown_is_ascending(self.projects@, self.shown.query);
            }
            Some(&self.projects[self.shown.entries[line]])
        } else {
            None
        }
    }

    /// The text shown on a line: the project's name.
    pub fn entry_content(&self, line: usize) -> (content: Option<String>)
        ensures
            match content {
                Some(text) => line < self.entries().len() && text@ == self.projects()[self.entries()[line as int] as int].name@,
                None => line >= self.entries().len(),
            },
    {
        match self.entry(line) {
            Some(project) => Some(project.name.clone()),
            None => None,
        }
    }

    /// What follows from an event, given the input that stands in the picker.
    pub open spec fn reacted(&self, event: Event, input: Seq<char>) -> (Option<IDEType>, ReactionModel) {
        match event {
            Event::Chosen { selected } => if selected < self.entries().len() {
                let project = self.projects()[self.entries()[selected as int] as int];
                (
                    self.query(),
                    ReactionModel::Launch {
                        launcher: project.ide.launcher_path@,
                        project: project.path@,
                    },
                )
            } else {
                (self.query(), ReactionModel::Reload)
            },
            Event::CustomInput { alt } => if self.query() is None || alt {
                match resolved(self.aliases(), first_word(input)) {
                    Some(ide) => (Some(ide), ReactionModel::Reset),
                    None => (self.query(), ReactionModel::Reload),
                }
            } else {
                (None, ReactionModel::Reload)
            },
            Event::Cancel => (self.query(), ReactionModel::Exit),
            Event::Other => (self.query(), ReactionModel::Reload),
        }
    }

    /// Answers an event. Choosing an entry launches its project. Entered text
    /// sets the query to the product that its first word names, and leaves
    /// everything as it is where the word names none; with a query set, text
    /// entered by the plain binding clears the query.
    pub fn react(&mut self, event: Event, input: &str) -> (reaction: Reaction)
        ensures
            final(self).projects() == old(self).projects(),
            final(self).aliases() == old(self).aliases(),
            (final(self).query(), reaction@) == old(self).reacted(event, input@),
    {
        match event {
            Event::Chosen { selected } => {
                match self.entry(selected) {
                    Some(project) => Reaction::Launch {
                        launcher: project.ide.launcher_path.clone(),
                        project: project.path.clone(),
                    },
                    None => Reaction::Reload,
                }
            },
            Event::CustomInput { alt } => {
                if self.shown.query.is_none() || alt {
                    let word = first_word_of(input);
                    match self.aliases.resolve(word.as_str()) {
                        Some(ide) => {
                            let entries = filter(&self.projects, Some(ide));
                            self.shown = Shown { query: Some(ide), entries };
                            Reaction::Reset
                        },
                        None => Reaction::Reload,
                    }
                } else {
                    let entries = filter(&self.projects, None);
                    self.shown = Shown { query: None, entries };
                    Reaction::Reload
                }
            },
            Event::Cancel => Reaction::Exit,
            Event::Other => Reaction::Reload,
        }
    }
}

} // verus!
