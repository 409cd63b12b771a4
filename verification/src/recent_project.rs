//! Recently opened projects: the record that the library hands out, and the
//! reading of the XML documents in which the products keep them. A document is
//! read in full while it is parsed: what its entries say is kept, the
//! document is not.

use std::collections::VecDeque;
use std::sync::Arc;
use amxml::dom::NodePtr;
use vstd::prelude::*;
use crate::ide::data::{IDEData, InstallationModel};
use crate::ide::IDEType;
use crate::text::option_text;
use crate::xml::{
    attribute,
    ends_with_tag,
    handles,
    is_closed_text,
    known_expression,
    parse_document,
    root_element,
    select_first,
    select_nodes,
    xml_attribute,
    xml_document,
    xml_root_element,
    xpath_first,
    xpath_nodes,
    Node,
};

verus! {

/// `Arc::clone` hands out another pointer to the same value.
#[verifier::external_body]
pub(crate) fn share_installation(ide: &Arc<IDEData>) -> (shared: Arc<IDEData>)
    ensures
        shared == *ide,
{
    Arc::clone(ide)
}

/// One project that an installed product opened, found on disk.
#[derive(Debug, Clone)]
pub struct RecentProject {
    pub name: String,
    /// The project's root directory: absolute, and written without doubled
    /// or trailing `/` and without `.` segments where the record comes out of
    /// normalizing.
    pub path: String,
    /// The project's own icon, where it has one.
    pub icon: Option<String>,
    /// The installation whose records named the project.
    pub ide: Arc<IDEData>,
    /// When the project was last opened, in milliseconds since the Unix epoch.
    pub last_opened: i64,
}

/// The text and numbers held by a `RecentProject`.
pub struct ProjectModel {
    pub name: Seq<char>,
    pub path: Seq<char>,
    pub icon: Option<Seq<char>>,
    pub ide: InstallationModel,
    pub last_opened: i64,
}

impl View for RecentProject {
    type V = ProjectModel;

    open spec fn view(&self) -> ProjectModel {
        ProjectModel {
            name: self.name@,
            path: self.path@,
            icon: option_text(self.icon),
            ide: self.ide@,
            last_opened: self.last_opened,
        }
    }
}

impl RecentProject {
    /// What tells one project from another: where it lies and which product
    /// opened it. Name, icon and time are incidental.
    pub open spec fn key(&self) -> (Seq<char>, IDEType) {
        (self.path@, self.ide.ide_type)
    }

    /// Whether both records speak of the same project.
    pub fn same_project(&self, other: &RecentProject) -> (same: bool)
        ensures
            same == (self.key() == other.key()),
    {
        self.path == other.path && self.ide.ide_type == other.ide.ide_type
    }
}

impl PartialEq for RecentProject {
    fn eq(&self, other: &Self) -> (same: bool) {
        self.same_project(other)
    }
}

impl Eq for RecentProject {

}

impl vstd::std_specs::cmp::PartialEqSpecImpl for RecentProject {
    open spec fn obeys_eq_spec() -> bool {
        true
    }

    open spec fn eq_spec(&self, other: &Self) -> bool {
        self.key() == other.key()
    }
}

/// What one entry of a document says of a project, as it stands there.
#[derive(Debug)]
pub struct Candidate {
    /// The entry's `value` attribute.
    pub value: Option<String>,
    /// The entry's `key` attribute.
    pub key: Option<String>,
    /// The time recorded under the entry, as written.
    pub opened: Option<String>,
}

/// The text held by a `Candidate`.
pub struct CandidateModel {
    pub value: Option<Seq<char>>,
    pub key: Option<Seq<char>>,
    pub opened: Option<Seq<char>>,
}

impl View for Candidate {
    type V = CandidateModel;

    open spec fn view(&self) -> CandidateModel {
        CandidateModel {
            value: option_text(self.value),
            key: option_text(self.key),
            opened: option_text(self.opened),
        }
    }
}

/// The containers that hold recent projects, one per manager that ever wrote
/// them; of each the first in the document counts.
pub open spec fn base_paths() -> Seq<Seq<char>> {
    seq![
        ".//component[@name=\"RecentProjectsManager\"][1]"@,
        ".//component[@name=\"RecentDirectoryProjectsManager\"][1]"@,
        ".//component[@name=\"RiderRecentProjectsManager\"][1]"@,
        ".//component[@name=\"RiderRecentDirectoryProjectsManager\"][1]"@,
    ]
}

/// The shapes in which a container holds its entries: a list of paths, a map
/// of additional information, and lists of grouped projects.
pub open spec fn entry_paths() -> Seq<Seq<char>> {
    seq![
        "option[@name=\"recentPaths\"]/list/option"@,
        "option[@name=\"additionalInfo\"]/map/entry"@,
        "option[@name=\"groups\"]/list/ProjectGroup/option[@name=\"projects\"]/list/option"@,
    ]
}

/// Where, under an entry, the time of the last opening stands.
pub open spec fn timestamp_path() -> Seq<char> {
    "value/RecentProjectMetaInfo/option[@name=\"projectOpenTimestamp\"]"@
}

/// The globs by which the documents are found under a configuration
/// directory.
pub fn recent_projects_pattern() -> (pattern: &'static str)
    ensures
        pattern@ == "options/{recentProjects,recentSolutions}.xml"@,
{
    "options/{recentProjects,recentSolutions}.xml"
}

/// The nodes that one expression selects, none where it cannot be evaluated.
pub open spec fn selected(node: NodePtr, xpath: Seq<char>) -> Seq<NodePtr> {
    match xpath_nodes(node, xpath) {
        Some(nodes) => nodes,
        None => Seq::empty(),
    }
}

/// Every entry of a container: what each shape selects, shape after shape.
pub open spec fn entries_under(container: NodePtr, shapes: Seq<Seq<char>>) -> Seq<NodePtr>
    decreases shapes.len(),
{
    if shapes.len() == 0 {
        Seq::empty()
    } else {
        entries_under(container, shapes.drop_last()) + selected(container, shapes.last())
    }
}

/// The entries of one container of the document, none where the document has
/// no such container.
pub open spec fn entries_of_container(root: NodePtr, base: Seq<char>, shapes: Seq<Seq<char>>) -> Seq<
    NodePtr,
> {
    match xpath_first(root, base) {
        Some(container) => entries_under(container, shapes),
        None => Seq::empty(),
    }
}

/// Every entry of a document: the entries of each container, container after
/// container.
pub open spec fn entries_in(root: NodePtr, bases: Seq<Seq<char>>, shapes: Seq<Seq<char>>) -> Seq<
    NodePtr,
>
    decreases bases.len(),
{
    if bases.len() == 0 {
        Seq::empty()
    } else {
        entries_in(root, bases.drop_last(), shapes) + entries_of_container(
            root,
            bases.last(),
            shapes,
        )
    }
}

/// The entries of the document that the text holds, where it holds one: it
/// has to end with the `>` of a tag, and to be accepted as a document.
pub open spec fn candidate_nodes(xml: Seq<char>) -> Option<Seq<NodePtr>> {
    if !ends_with_tag(xml) {
        None
    } else {
        match xml_document(xml) {
            Some(document) => Some(
                entries_in(xml_root_element(document), base_paths(), entry_paths()),
            ),
            None => None,
        }
    }
}

/// What an entry says of a project.
pub open spec fn candidate_of(node: NodePtr) -> CandidateModel {
    CandidateModel {
        value: xml_attribute(node, "value"@),
        key: xml_attribute(node, "key"@),
        opened: match xpath_first(node, timestamp_path()) {
            Some(info) => xml_attribute(info, "value"@),
            None => None,
        },
    }
}

/// What a run of entries says, entry by entry.
pub open spec fn candidates_at(nodes: Seq<NodePtr>) -> Seq<CandidateModel> {
    nodes.map_values(|node: NodePtr| candidate_of(node))
}

/// What the entries of the document say that the text holds, where it holds
/// a document.
pub open spec fn candidates_of(xml: Seq<char>) -> Option<Seq<CandidateModel>> {
    match candidate_nodes(xml) {
        Some(nodes) => Some(candidates_at(nodes)),
        None => None,
    }
}

/// Whatever a shape selects under a container is among the container's
/// entries.
pub proof fn entries_under_holds_selected(
    container: NodePtr,
    shapes: Seq<Seq<char>>,
    s: int,
    node: NodePtr,
)
    requires
        0 <= s < shapes.len(),
        selected(container, shapes[s]).contains(node),
    ensures
        entries_under(container, shapes).contains(node),
    decreases shapes.len(),
{
    let before = entries_under(container, shapes.drop_last());
    let last = selected(container, shapes.last());
    if s == shapes.len() - 1 {
        let k = choose|k: int| 0 <= k < last.len() && last[k] == node;
        assert((before + last)[before.len() + k] == node);
    } else {
        entries_under_holds_selected(container, shapes.drop_last(), s, node);
        let k = choose|k: int| 0 <= k < before.len() && before[k] == node;
        assert((before + last)[k] == node);
    }
}

/// The entries of a document hold every node that any shape selects under
/// any of its containers: nothing that matches is left out.
pub proof fn entries_in_holds_every_match(
    root: NodePtr,
    bases: Seq<Seq<char>>,
    shapes: Seq<Seq<char>>,
    b: int,
    s: int,
    node: NodePtr,
)
    requires
        0 <= b < bases.len(),
        0 <= s < shapes.len(),
        xpath_first(root, bases[b]) matches Some(container) && selected(
            container,
            shapes[s],
        ).contains(node),
    ensures
        entries_in(root, bases, shapes).contains(node),
    decreases bases.len(),
{
    let before = entries_in(root, bases.drop_last(), shapes);
    let last = entries_of_container(root, bases.last(), shapes);
    if b == bases.len() - 1 {
        entries_under_holds_selected(xpath_first(root, bases[b])->0, shapes, s, node);
        let k = choose|k: int| 0 <= k < last.len() && last[k] == node;
        assert((before + last)[before.len() + k] == node);
    } else {
        entries_in_holds_every_match(root, bases.drop_last(), shapes, b, s, node);
        let k = choose|k: int| 0 <= k < before.len() && before[k] == node;
        assert((before + last)[k] == node);
    }
}

/// What a document's entries say holds what every matching node says: for
/// each known container that the document has and each known shape, whatever
/// the shape selects in the container is read.
pub proof fn candidates_hold_every_match(xml: Seq<char>, b: int, s: int, node: NodePtr)
    requires
        0 <= b < base_paths().len(),
        0 <= s < entry_paths().len(),
        ends_with_tag(xml),
        xml_document(xml) matches Some(document) && xpath_first(
            xml_root_element(document),
            base_paths()[b],
        ) matches Some(container) && selected(container, entry_paths()[s]).contains(node),
    ensures
        candidates_of(xml) matches Some(all) && all.contains(candidate_of(node)),
{
    let root = xml_root_element(xml_document(xml)->0);
    let nodes = entries_in(root, base_paths(), entry_paths());
    entries_in_holds_every_match(root, base_paths(), entry_paths(), b, s, node);
    let k = choose|k: int| 0 <= k < nodes.len() && nodes[k] == node;
    assert(candidates_at(nodes)[k] == candidate_of(node));
}

/// The text holds no document: it does not end with the `>` of a tag, or it
/// could not be parsed.
#[derive(Debug, Clone, Copy, PartialEq, Eq, Structural)]
pub struct MalformedDocument;

/// What the entries of one document say, as far as they are still to be
/// looked at, and the installation whose configuration the document belongs
/// to. The document itself is read in full when the parser is made.
pub struct RecentProjectsParser {
    ide: Arc<IDEData>,
    candidates: VecDeque<Candidate>,
}

fn container_expressions() -> (paths: Vec<&'static str>)
    ensures
        paths@.map_values(|p: &'static str| p@) == base_paths(),
{
    let mut paths: Vec<&'static str> = Vec::new();
    paths.push(".//component[@name=\"RecentProjectsManager\"][1]");
    paths.push(".//component[@name=\"RecentDirectoryProjectsManager\"][1]");
    paths.push(".//component[@name=\"RiderRecentProjectsManager\"][1]");
    paths.push(".//component[@name=\"RiderRecentDirectoryProjectsManager\"][1]");
    assert(paths@.map_values(|p: &'static str| p@) =~= base_paths());
    paths
}

fn entry_expressions() -> (paths: Vec<&'static str>)
    ensures
        paths@.map_values(|p: &'static str| p@) == entry_paths(),
{
    let mut paths: Vec<&'static str> = Vec::new();
    paths.push("option[@name=\"recentPaths\"]/list/option");
    paths.push("option[@name=\"additionalInfo\"]/map/entry");
    paths.push("option[@name=\"groups\"]/list/ProjectGroup/option[@name=\"projects\"]/list/option");
    assert(paths@.map_values(|p: &'static str| p@) =~= entry_paths());
    paths
}

/// Reads what an entry says of a project.
fn read_candidate(node: &Node<'_>) -> (candidate: Candidate)
    ensures
        candidate@ == candidate_of(node.handle()),
{
    let value = attribute(node, "value");
    let key = attribute(node, "key");
    assert(known_expression(timestamp_path()));
    let opened = match select_first(
        node,
        "value/RecentProjectMetaInfo/option[@name=\"projectOpenTimestamp\"]",
    ) {
        Some(info) => attribute(&info, "value"),
        None => None,
    };
    Candidate { value, key, opened }
}

/// Reads what each of the entries says and appends it to the queue.
fn enqueue(queue: &mut VecDeque<Candidate>, nodes: &Vec<Node<'_>>)
    ensures
        final(queue)@.map_values(|c: Candidate| c@) == old(queue)@.map_values(|c: Candidate| c@)
            + candidates_at(handles(nodes@)),
{
    let ghost before = queue@.map_values(|c: Candidate| c@);
    let ghost all = handles(nodes@);
    let mut i: usize = 0;
    assert(before + candidates_at(all.take(0)) == before);
    while i < nodes.len()
        invariant
            i <= nodes.len(),
            all == handles(nodes@),
            queue@.map_values(|c: Candidate| c@) == before + candidates_at(all.take(i as int)),
        decreases nodes.len() - i,
    {
        let candidate = read_candidate(&nodes[i]);
        let ghost queued = queue@;
        queue.push_back(candidate);
        proof {
            assert(all[i as int] == nodes@[i as int].handle());
            assert(queue@.map_values(|c: Candidate| c@) == queued.map_values(|c: Candidate| c@).push(
                candidate@,
            ));
            assert(candidates_at(all.take(i + 1)) == candidates_at(all.take(i as int)).push(
                candidate@,
            ));
        }
        i += 1;
    }
    assert(all.take(nodes.len() as int) == all);
}

impl RecentProjectsParser {
    /// What the entries say that are still to be looked at, the next one
    /// first.
    pub closed spec fn candidates(&self) -> Seq<CandidateModel> {
        self.candidates@.map_values(|c: Candidate| c@)
    }

    /// The installation whose configuration the document belongs to.
    pub closed spec fn installation(&self) -> Arc<IDEData> {
        self.ide
    }

    /// Parses a document and reads its entries: for each of the known
    /// containers that the document has, everything that any of the known
    /// shapes selects in it. An entry that several shapes select is read once
    /// for each. Nothing of the document is kept but what its entries say. A
    /// text that does not end with the `>` of a tag is refused unread.
    pub fn from_xml(xml: &str, ide: Arc<IDEData>) -> (parser: Result<Self, MalformedDocument>)
        ensures
            match parser {
                Ok(p) => candidates_of(xml@) == Some(p.candidates()) && p.installation() == ide,
                Err(_) => candidates_of(xml@) is None,
            },
    {
        if !is_closed_text(xml) {
            return Err(MalformedDocument);
        }
        let document = match parse_document(xml) {
            Some(document) => document,
            None => { return Err(MalformedDocument); },
        };
        let root = root_element(&document);
        let bases = container_expressions();
        let shapes = entry_expressions();
        let mut candidates: VecDeque<Candidate> = VecDeque::new();
        let ghost top = root.handle();
        let mut b: usize = 0;
        assert(candidates@.map_values(|c: Candidate| c@) == candidates_at(
            entries_in(top, base_paths().take(0), entry_paths()),
        ));
        while b < bases.len()
            invariant
                b <= bases.len(),
                top == root.handle(),
                bases@.map_values(|p: &'static str| p@) == base_paths(),
                shapes@.map_values(|p: &'static str| p@) == entry_paths(),
                candidates@.map_values(|c: Candidate| c@) == candidates_at(
                    entries_in(top, base_paths().take(b as int), entry_paths()),
                ),
            decreases bases.len() - b,
        {
            proof {
                assert(base_paths().take(b + 1).drop_last() == base_paths().take(b as int));
                assert(base_paths().take(b + 1).last() == bases@[b as int]@);
                assert(base_paths()[b as int] == bases@[b as int]@);
                assert(known_expression(bases@[b as int]@));
            }
            let ghost before = entries_in(top, base_paths().take(b as int), entry_paths());
            match select_first(&root, bases[b]) {
                Some(container) => {
                    let ghost place = container.handle();
                    let mut s: usize = 0;
                    assert(before + entries_under(place, entry_paths().take(0)) == before);
                    while s < shapes.len()
                        invariant
                            s <= shapes.len(),
                            place == container.handle(),
                            shapes@.map_values(|p: &'static str| p@) == entry_paths(),
                            candidates@.map_values(|c: Candidate| c@) == candidates_at(
                                before + entries_under(place, entry_paths().take(s as int)),
                            ),
                        decreases shapes.len() - s,
                    {
                        proof {
                            assert(entry_paths().take(s + 1).drop_last() == entry_paths().take(
                                s as int,
                            ));
                            assert(entry_paths().take(s + 1).last() == shapes@[s as int]@);
                            assert(entry_paths()[s as int] == shapes@[s as int]@);
                            assert(known_expression(shapes@[s as int]@));
                        }
                        let ghost under = entries_under(place, entry_paths().take(s as int));
                        match select_nodes(&container, shapes[s]) {
                            Some(found) => {
                                enqueue(&mut candidates, &found);
                                proof {
                                    let more = handles(found@);
                                    assert(selected(place, shapes@[s as int]@) == more);
                                    assert(candidates_at(before + under) + candidates_at(more)
                                        == candidates_at(before + (under + more)));
                                }
                            },
                            None => {
                                assert(under + selected(place, shapes@[s as int]@) == under);
                            },
                        }
                        s += 1;
                    }
                    assert(entry_paths().take(shapes.len() as int) == entry_paths());
                },
                None => {
                    assert(before + entries_of_container(top, bases@[b as int]@, entry_paths())
                        == before);
                },
            }
            b += 1;
        }
        assert(base_paths().take(bases.len() as int) == base_paths());
        Ok(RecentProjectsParser { ide, candidates })
    }

    /// Another pointer to the installation.
    pub fn ide(&self) -> (ide: Arc<IDEData>)
        ensures
            ide == self.installation(),
    {
        share_installation(&self.ide)
    }

    /// How many entries are still to be looked at.
    pub fn remaining(&self) -> (count: usize)
        ensures
            count == self.candidates().len(),
    {
        self.candidates.len()
    }

    /// Takes what the next entry says off the queue.
    pub fn next_candidate(&mut self) -> (candidate: Option<Candidate>)
        ensures
            final(self).installation() == old(self).installation(),
            match candidate {
                Some(c) => old(self).candidates().len() > 0 && c@ == old(self).candidates()[0]
                    && final(self).candidates() == old(self).candidates().skip(1),
                None => old(self).candidates().len() == 0 && final(self).candidates() == old(
                    self,
                ).candidates(),
            },
    {
        let ghost before = self.candidates@;
        let next = self.candidates.pop_front();
        proof {
            if next is Some {
                assert(self.candidates@.map_values(|c: Candidate| c@) == before.map_values(
                    |c: Candidate| c@,
                ).skip(1));
            }
        }
        next
    }
}

} // verus!
