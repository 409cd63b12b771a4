//! From what a document says of a project to a record, or to the reason why
//! there is none. The file system is asked several questions on the way; the
//! asking is left to the caller: the normalizer names the next question, takes
//! the answer and moves on.

use std::sync::Arc;
use vstd::prelude::*;
use crate::environment::resolve;
use crate::ide::data::{IDEData, InstallationModel};
use crate::paths::{
    file_name,
    file_name_of,
    file_stem,
    file_stem_of,
    is_absolute,
    is_absolute_path,
    join,
    joined,
    parent,
    parent_of,
    parent_of_stays_absolute,
    resolves_to,
    tidy,
    tidy_path,
    tidy_path_is_settled,
};
use crate::recent_project::{Candidate, CandidateModel, ProjectModel, RecentProject};
use crate::text::{option_text, replace_all, replaced, trim, trimmed};
use crate::timestamp::{last_opened_of, opened_at};

verus! {

/// Why an entry gives no record.
#[derive(Debug, Clone, Copy, PartialEq, Eq, Structural)]
pub enum SkipReason {
    /// The entry names no path, or the path cannot be resolved.
    PathNotResolvable,
    /// Nothing lies at the project's root.
    PathMissing,
    /// The project's root cannot be looked at.
    PathInaccessible,
    /// Neither a marker file, nor a solution file, nor the root itself gives a
    /// name.
    NoName,
    /// The entry records no usable time.
    NoTimestamp,
    /// The search for the project's icon could not be set up.
    IconSearchFailed,
}

/// What the file system says of a path.
#[derive(Debug, Clone, Copy, PartialEq, Eq, Structural)]
pub enum Presence {
    Present,
    Missing,
    Inaccessible,
}

/// A question to the file system.
#[derive(Debug)]
pub enum Probe {
    /// Is this path a regular file?
    Kind(String),
    /// Does anything lie at this path?
    Presence(String),
    /// What does this file hold, if it can be read?
    Marker(String),
    /// Which is the first file under `root` that matches `pattern`?
    Icon { root: String, pattern: String },
}

/// The text of a `Probe`.
pub enum ProbeModel {
    Kind(Seq<char>),
    Presence(Seq<char>),
    Marker(Seq<char>),
    Icon { root: Seq<char>, pattern: Seq<char> },
}

impl View for Probe {
    type V = ProbeModel;

    open spec fn view(&self) -> ProbeModel {
        match self {
            Probe::Kind(path) => ProbeModel::Kind(path@),
            Probe::Presence(path) => ProbeModel::Presence(path@),
            Probe::Marker(path) => ProbeModel::Marker(path@),
            Probe::Icon { root, pattern } => ProbeModel::Icon { root: root@, pattern: pattern@ },
        }
    }
}

/// What the search for an icon came to.
#[derive(Debug)]
pub enum IconSearch {
    Found(String),
    NoIcon,
    Failed,
}

/// An answer of the file system.
#[derive(Debug)]
pub enum Finding {
    /// Whether the path is a regular file.
    Kind(bool),
    Presence(Presence),
    /// The contents of the marker file, if it could be read.
    Marker(Option<String>),
    Icon(IconSearch),
}

/// The text of a `Finding`.
pub enum FindingModel {
    Kind(bool),
    Presence(Presence),
    Marker(Option<Seq<char>>),
    IconFound(Seq<char>),
    NoIcon,
    IconSearchFailed,
}

impl View for Finding {
    type V = FindingModel;

    open spec fn view(&self) -> FindingModel {
        match self {
            Finding::Kind(is_file) => FindingModel::Kind(*is_file),
            Finding::Presence(presence) => FindingModel::Presence(*presence),
            Finding::Marker(text) => FindingModel::Marker(option_text(*text)),
            Finding::Icon(IconSearch::Found(path)) => FindingModel::IconFound(path@),
            Finding::Icon(IconSearch::NoIcon) => FindingModel::NoIcon,
            Finding::Icon(IconSearch::Failed) => FindingModel::IconSearchFailed,
        }
    }
}

/// How far the normalizing of one entry has come.
#[derive(Debug)]
pub enum Normalizer {
    /// The path is resolved; is it a file or a directory?
    Kind { opened: Option<String>, ide: Arc<IDEData>, path: String },
    /// The root is known; does it exist?
    Presence { opened: Option<String>, ide: Arc<IDEData>, root: String, provisional: Option<String> },
    /// The root exists; does it hold a marker file with the project's name?
    Marker { opened: Option<String>, ide: Arc<IDEData>, root: String, provisional: Option<String> },
    /// Name and time are known; does the project have an icon of its own?
    Icon { ide: Arc<IDEData>, root: String, name: String, last_opened: i64 },
    /// The entry gave a record, or none.
    Done(Result<RecentProject, SkipReason>),
}

/// The text and numbers of a `Normalizer`.
pub enum NormalizerModel {
    Kind { opened: Option<Seq<char>>, ide: InstallationModel, path: Seq<char> },
    Presence {
        opened: Option<Seq<char>>,
        ide: InstallationModel,
        root: Seq<char>,
        provisional: Option<Seq<char>>,
    },
    Marker {
        opened: Option<Seq<char>>,
        ide: InstallationModel,
        root: Seq<char>,
        provisional: Option<Seq<char>>,
    },
    Icon { ide: InstallationModel, root: Seq<char>, name: Seq<char>, last_opened: i64 },
    Done(Result<ProjectModel, SkipReason>),
}

impl View for Normalizer {
    type V = NormalizerModel;

    open spec fn view(&self) -> NormalizerModel {
        match self {
            Normalizer::Kind { opened, ide, path } => NormalizerModel::Kind {
                opened: option_text(*opened),
                ide: ide@,
                path: path@,
            },
            Normalizer::Presence { opened, ide, root, provisional } => NormalizerModel::Presence {
                opened: option_text(*opened),
                ide: ide@,
                root: root@,
                provisional: option_text(*provisional),
            },
            Normalizer::Marker { opened, ide, root, provisional } => NormalizerModel::Marker {
                opened: option_text(*opened),
                ide: ide@,
                root: root@,
                provisional: option_text(*provisional),
            },
            Normalizer::Icon { ide, root, name, last_opened } => NormalizerModel::Icon {
                ide: ide@,
                root: root@,
                name: name@,
                last_opened: *last_opened,
            },
            Normalizer::Done(Ok(project)) => NormalizerModel::Done(Ok(project@)),
            Normalizer::Done(Err(reason)) => NormalizerModel::Done(Err(*reason)),
        }
    }
}

/// The path that an entry names, as written: its `value`, else its `key`, with
/// `~` put in for the placeholder of the home directory.
pub open spec fn raw_path_of(candidate: CandidateModel) -> Option<Seq<char>> {
    let raw = match candidate.value {
        Some(text) => Some(text),
        None => candidate.key,
    };
    match raw {
        Some(text) => Some(replaced(text, "$USER_HOME$"@, "~"@)),
        None => None,
    }
}

/// Whether `resolved` can be what the resolution of an entry's path gives:
/// nothing, or a resolution of the path that the entry names.
pub open spec fn resolution_of(raw: Option<Seq<char>>, resolved: Option<Seq<char>>) -> bool {
    resolved matches Some(path) ==> (raw matches Some(text) && resolves_to(text, path))
}

/// Where normalizing starts once the entry's path went through resolution.
/// A path that did not come out absolute counts as not resolved.
pub open spec fn begun(
    candidate: CandidateModel,
    ide: InstallationModel,
    resolved: Option<Seq<char>>,
) -> NormalizerModel {
    match resolved {
        Some(path) => if is_absolute_path(path) {
            NormalizerModel::Kind { opened: candidate.opened, ide, path }
        } else {
            NormalizerModel::Done(Err(SkipReason::PathNotResolvable))
        },
        None => NormalizerModel::Done(Err(SkipReason::PathNotResolvable)),
    }
}

/// The marker file of a project: it holds the project's name.
pub open spec fn marker_file_of(root: Seq<char>) -> Seq<char> {
    joined(root, ".idea/.name"@)
}

/// The files that can be a project's own icon, as a glob under its root.
pub open spec fn icon_pattern() -> Seq<char> {
    ".idea/icon.*"@
}

/// The project's name: what the marker file holds, trimmed; else the name of
/// the solution file that the entry pointed to; else the last segment of the
/// root.
pub open spec fn resolved_name(
    marker: Option<Seq<char>>,
    provisional: Option<Seq<char>>,
    root: Seq<char>,
) -> Option<Seq<char>> {
    match marker {
        Some(text) => Some(trimmed(text)),
        None => match provisional {
            Some(name) => Some(name),
            None => file_name_of(root),
        },
    }
}

/// The question that a state waits for, none once the entry is done.
pub open spec fn probe_of(state: NormalizerModel) -> Option<ProbeModel> {
    match state {
        NormalizerModel::Kind { path, .. } => Some(ProbeModel::Kind(path)),
        NormalizerModel::Presence { root, .. } => Some(ProbeModel::Presence(root)),
        NormalizerModel::Marker { root, .. } => Some(ProbeModel::Marker(marker_file_of(root))),
        NormalizerModel::Icon { root, .. } => Some(
            ProbeModel::Icon { root, pattern: icon_pattern() },
        ),
        NormalizerModel::Done(_) => None,
    }
}

/// The state that follows when the file system gives its answer. A path that
/// is a regular file has its parent as the project's root; any other path is
/// the root itself, written as a directory is. An answer to a question that
/// was not asked changes nothing.
pub open spec fn stepped(state: NormalizerModel, finding: FindingModel) -> NormalizerModel {
    match (state, finding) {
        (NormalizerModel::Kind { opened, ide, path }, FindingModel::Kind(is_file)) => {
            if is_file {
                match parent_of(path) {
                    Some(dir) => NormalizerModel::Presence {
                        opened,
                        ide,
                        root: tidy_path(dir),
                        provisional: file_stem_of(path),
                    },
                    None => NormalizerModel::Done(Err(SkipReason::PathNotResolvable)),
                }
            } else {
                NormalizerModel::Presence {
                    opened,
                    ide,
                    root: tidy_path(path),
                    provisional: None,
                }
            }
        },
        (
            NormalizerModel::Presence { opened, ide, root, provisional },
            FindingModel::Presence(presence),
        ) => {
            match presence {
                Presence::Present => NormalizerModel::Marker { opened, ide, root, provisional },
                Presence::Missing => NormalizerModel::Done(Err(SkipReason::PathMissing)),
                Presence::Inaccessible => NormalizerModel::Done(Err(SkipReason::PathInaccessible)),
            }
        },
        (
            NormalizerModel::Marker { opened, ide, root, provisional },
            FindingModel::Marker(marker),
        ) => {
            match resolved_name(marker, provisional, root) {
                None => NormalizerModel::Done(Err(SkipReason::NoName)),
                Some(name) => match opened_at(opened) {
                    None => NormalizerModel::Done(Err(SkipReason::NoTimestamp)),
                    Some(last_opened) => NormalizerModel::Icon { ide, root, name, last_opened },
                },
            }
        },
        (NormalizerModel::Icon { ide, root, name, last_opened }, FindingModel::IconFound(icon)) => {
            NormalizerModel::Done(
                Ok(ProjectModel { name, path: root, icon: Some(icon), ide, last_opened }),
            )
        },
        (NormalizerModel::Icon { ide, root, name, last_opened }, FindingModel::NoIcon) => {
            NormalizerModel::Done(
                Ok(ProjectModel { name, path: root, icon: None, ide, last_opened }),
            )
        },
        (NormalizerModel::Icon { .. }, FindingModel::IconSearchFailed) => {
            NormalizerModel::Done(Err(SkipReason::IconSearchFailed))
        },
        (state, _) => state,
    }
}

/// Whether the path that a state works on, or the path of the record that it
/// ended in, is absolute, and the root, once known, is written as a directory
/// is.
pub open spec fn rooted(state: NormalizerModel) -> bool {
    match state {
        NormalizerModel::Kind { path, .. } => is_absolute_path(path),
        NormalizerModel::Presence { root, .. } => is_absolute_path(root) && tidy_path(root) == root,
        NormalizerModel::Marker { root, .. } => is_absolute_path(root) && tidy_path(root) == root,
        NormalizerModel::Icon { root, .. } => is_absolute_path(root) && tidy_path(root) == root,
        NormalizerModel::Done(Ok(project)) => is_absolute_path(project.path) && tidy_path(
            project.path,
        ) == project.path,
        NormalizerModel::Done(Err(_)) => true,
    }
}

/// The state after a run of answers.
pub open spec fn run(state: NormalizerModel, findings: Seq<FindingModel>) -> NormalizerModel
    decreases findings.len(),
{
    if findings.len() == 0 {
        state
    } else {
        stepped(run(state, findings.drop_last()), findings.last())
    }
}

/// Whatever the answer, a rooted state is followed by a rooted state.
pub proof fn stepped_stays_rooted(state: NormalizerModel, finding: FindingModel)
    requires
        rooted(state),
    ensures
        rooted(stepped(state, finding)),
{
    match state {
        NormalizerModel::Kind { path, .. } => {
            parent_of_stays_absolute(path);
            tidy_path_is_settled(path);
            if parent_of(path) is Some {
                tidy_path_is_settled(parent_of(path)->0);
            }
        },
        _ => {},
    }
}

/// Whatever the answers, a run that starts rooted ends rooted.
pub proof fn run_stays_rooted(state: NormalizerModel, findings: Seq<FindingModel>)
    requires
        rooted(state),
    ensures
        rooted(run(state, findings)),
    decreases findings.len(),
{
    if findings.len() > 0 {
        run_stays_rooted(state, findings.drop_last());
        stepped_stays_rooted(run(state, findings.drop_last()), findings.last());
    }
}

/// Every record that normalizing ends in has an absolute path, written as a
/// directory is: whatever the entry, whatever its path resolved to and
/// whatever the file system answered.
pub proof fn record_path_is_absolute(
    candidate: CandidateModel,
    ide: InstallationModel,
    resolved: Option<Seq<char>>,
    findings: Seq<FindingModel>,
)
    ensures
        run(begun(candidate, ide, resolved), findings) matches NormalizerModel::Done(Ok(project))
            ==> is_absolute_path(project.path) && tidy_path(project.path) == project.path,
{
    run_stays_rooted(begun(candidate, ide, resolved), findings);
}

/// In the run of answers the file system once reported `root` present, while
/// the normalizer was asking for just that.
pub open spec fn was_present(
    start: NormalizerModel,
    findings: Seq<FindingModel>,
    root: Seq<char>,
) -> bool {
    exists|k: int|
        0 <= k < findings.len() && findings[k] == FindingModel::Presence(Presence::Present)
            && probe_of(#[trigger] run(start, findings.take(k))) == Some(ProbeModel::Presence(root))
}

/// The root that a state has seen confirmed, if it is past that point.
pub open spec fn confirmed_root(state: NormalizerModel) -> Option<Seq<char>> {
    match state {
        NormalizerModel::Marker { root, .. } => Some(root),
        NormalizerModel::Icon { root, .. } => Some(root),
        NormalizerModel::Done(Ok(project)) => Some(project.path),
        _ => None,
    }
}

/// Whatever the answers, a normalizer that starts before the root is known
/// gets past that point only on the report that the root is present.
pub proof fn past_presence_only_if_present(start: NormalizerModel, findings: Seq<FindingModel>)
    requires
        start is Kind || start is Presence,
    ensures
        confirmed_root(run(start, findings)) matches Some(root) ==> was_present(
            start,
            findings,
            root,
        ),
    decreases findings.len(),
{
    if findings.len() > 0 {
        let before = findings.drop_last();
        let prev = run(start, before);
        past_presence_only_if_present(start, before);
        let now = run(start, findings);
        if confirmed_root(now) is Some {
            let root = confirmed_root(now)->0;
            if confirmed_root(prev) == Some(root) {
                let k = choose|k: int|
                    0 <= k < before.len() && before[k] == FindingModel::Presence(Presence::Present)
                        && probe_of(#[trigger] run(start, before.take(k))) == Some(
                        ProbeModel::Presence(root),
                    );
                assert(findings.take(k) == before.take(k));
                assert(findings[k] == before[k]);
            } else {
                assert(prev is Presence);
                assert(findings.take(findings.len() - 1) == before);
                assert(findings[findings.len() - 1] == FindingModel::Presence(Presence::Present));
            }
        }
    }
}

/// No record is finished for a project whose root was not found present: a
/// run of answers that ends in a record holds the report that the record's
/// path exists.
pub proof fn record_path_was_present(
    candidate: CandidateModel,
    ide: InstallationModel,
    resolved: Option<Seq<char>>,
    findings: Seq<FindingModel>,
)
    ensures
        run(begun(candidate, ide, resolved), findings) matches NormalizerModel::Done(Ok(project))
            ==> was_present(begun(candidate, ide, resolved), findings, project.path),
{
    let start = begun(candidate, ide, resolved);
    if start is Kind {
        past_presence_only_if_present(start, findings);
    } else {
        done_stays_done(start, findings);
    }
}

/// Once an entry is done, further answers change nothing.
pub proof fn done_stays_done(state: NormalizerModel, findings: Seq<FindingModel>)
    requires
        state is Done,
    ensures
        run(state, findings) == state,
    decreases findings.len(),
{
    if findings.len() > 0 {
        done_stays_done(state, findings.drop_last());
    }
}

impl Normalizer {
    /// The path that an entry names, as written.
    pub fn raw_path(candidate: &Candidate) -> (raw: Option<String>)
        ensures
            option_text(raw) == raw_path_of(candidate@),
    {
        let text = match &candidate.value {
            Some(text) => text,
            None => match &candidate.key {
                Some(text) => text,
                None => { return None; },
            },
        };
        Some(replace_all(text.as_str(), "$USER_HOME$", "~"))
    }

    /// Starts normalizing an entry whose path resolved to `resolved`.
    pub fn begin(candidate: Candidate, ide: Arc<IDEData>, resolved: Option<String>) -> (state: Self)
        ensures
            state@ == begun(candidate@, ide@, option_text(resolved)),
    {
        match resolved {
            Some(path) => if is_absolute(path.as_str()) {
                Normalizer::Kind { opened: candidate.opened, ide, path }
            } else {
                Normalizer::Done(Err(SkipReason::PathNotResolvable))
            },
            None => Normalizer::Done(Err(SkipReason::PathNotResolvable)),
        }
    }

    /// Starts normalizing an entry: resolves the path it names against the
    /// environment and begins with what came back, which is nothing or a
    /// resolution of that path. An entry that names no path is done at once.
    pub fn start(candidate: Candidate, ide: Arc<IDEData>) -> (state: Self)
        ensures
            raw_path_of(candidate@) is None ==> state@ == NormalizerModel::Done(
                Err(SkipReason::PathNotResolvable),
            ),
            exists|resolved: Option<Seq<char>>|
                resolution_of(raw_path_of(candidate@), resolved) && state@ == #[trigger] begun(
                    candidate@,
                    ide@,
                    resolved,
                ),
    {
        let resolved = match Normalizer::raw_path(&candidate) {
            Some(raw) => resolve(raw.as_str()),
            None => None,
        };
        let ghost witness = option_text(resolved);
        assert(resolution_of(raw_path_of(candidate@), witness));
        let state = Normalizer::begin(candidate, ide, resolved);
        assert(state@ == begun(candidate@, ide@, witness));
        state
    }

    /// The question that the file system is to answer next.
    pub fn probe(&self) -> (question: Option<Probe>)
        ensures
            match question {
                Some(q) => probe_of(self@) == Some(q@),
                None => probe_of(self@) is None,
            },
    {
        match self {
            Normalizer::Kind { path, .. } => Some(Probe::Kind(path.clone())),
            Normalizer::Presence { root, .. } => Some(Probe::Presence(root.clone())),
            Normalizer::Marker { root, .. } => Some(
                Probe::Marker(join(root.as_str(), ".idea/.name")),
            ),
            Normalizer::Icon { root, .. } => Some(
                Probe::Icon { root: root.clone(), pattern: ".idea/icon.*".to_owned() },
            ),
            Normalizer::Done(_) => None,
        }
    }

    /// Takes the file system's answer and moves on.
    pub fn advance(self, finding: Finding) -> (next: Self)
        ensures
            next@ == stepped(self@, finding@),
    {
        match self {
            Normalizer::Kind { opened, ide, path } => match finding {
                Finding::Kind(is_file) => {
                    if is_file {
                        match parent(path.as_str()) {
                            Some(dir) => {
                                let root = tidy(dir.as_str());
                                let provisional = file_stem(path.as_str());
                                Normalizer::Presence { opened, ide, root, provisional }
                            },
                            None => Normalizer::Done(Err(SkipReason::PathNotResolvable)),
                        }
                    } else {
                        let root = tidy(path.as_str());
                        Normalizer::Presence { opened, ide, root, provisional: None }
                    }
                },
                _ => Normalizer::Kind { opened, ide, path },
            },
            Normalizer::Presence { opened, ide, root, provisional } => match finding {
                Finding::Presence(Presence::Present) => Normalizer::Marker {
                    opened,
                    ide,
                    root,
                    provisional,
                },
                Finding::Presence(Presence::Missing) => Normalizer::Done(
                    Err(SkipReason::PathMissing),
                ),
                Finding::Presence(Presence::Inaccessible) => Normalizer::Done(
                    Err(SkipReason::PathInaccessible),
                ),
                _ => Normalizer::Presence { opened, ide, root, provisional },
            },
            Normalizer::Marker { opened, ide, root, provisional } => match finding {
                Finding::Marker(marker) => {
                    let name = match marker {
                        Some(text) => Some(trim(text.as_str())),
                        None => match provisional {
                            Some(name) => Some(name),
                            None => file_name(root.as_str()),
                        },
                    };
                    let name = match name {
                        Some(name) => name,
                        None => { return Normalizer::Done(Err(SkipReason::NoName)); },
                    };
                    let last_opened = match &opened {
                        Some(text) => last_opened_of(Some(text.as_str())),
                        None => last_opened_of(None),
                    };
                    match last_opened {
                        Some(last_opened) => Normalizer::Icon { ide, root, name, last_opened },
                        None => Normalizer::Done(Err(SkipReason::NoTimestamp)),
                    }
                },
                _ => Normalizer::Marker { opened, ide, root, provisional },
            },
            Normalizer::Icon { ide, root, name, last_opened } => match finding {
                Finding::Icon(IconSearch::Found(icon)) => Normalizer::Done(
                    Ok(RecentProject { name, path: root, icon: Some(icon), ide, last_opened }),
                ),
                Finding::Icon(IconSearch::NoIcon) => Normalizer::Done(
                    Ok(RecentProject { name, path: root, icon: None, ide, last_opened }),
                ),
                Finding::Icon(IconSearch::Failed) => Normalizer::Done(
                    Err(SkipReason::IconSearchFailed),
                ),
                _ => Normalizer::Icon { ide, root, name, last_opened },
            },
            Normalizer::Done(outcome) => Normalizer::Done(outcome),
        }
    }
}

} // verus!
