//! The XML documents that hold recent projects, read through `amxml`. A
//! document is only ever read here, never changed, so a node stands for what
//! the document holds at that place. A node is handed out only together with
//! a borrow of its document, so no node outlives the document it lies in.
//! Only texts that end with a tag are parsed, and only the expressions that
//! the library itself asks are evaluated.

use amxml::dom::{new_document, NodePtr};
use vstd::prelude::*;
use crate::recent_project::{base_paths, entry_paths, timestamp_path};
use crate::text::chars_of;

verus! {

/// A node of a parsed document, as `amxml` hands it out.
#[verifier::external_type_specification]
#[verifier::external_body]
pub struct ExNodePtr(NodePtr);

/// The document that `amxml::dom::new_document` builds from the text, where
/// it accepts the text. It is asked of texts that end with a tag only.
pub uninterp spec fn xml_document(xml: Seq<char>) -> Option<NodePtr>;

/// The topmost element of the document that the node belongs to, or the
/// document's root node where the document holds no element.
pub uninterp spec fn xml_root_element(node: NodePtr) -> NodePtr;

/// The nodes that the XPath expression selects from `node`, in document order,
/// where `amxml` can evaluate the expression.
pub uninterp spec fn xpath_nodes(node: NodePtr, xpath: Seq<char>) -> Option<Seq<NodePtr>>;

/// The value of the node's first attribute of that name.
pub uninterp spec fn xml_attribute(node: NodePtr, name: Seq<char>) -> Option<Seq<char>>;

/// The first node that the XPath expression selects from `node`.
pub open spec fn xpath_first(node: NodePtr, xpath: Seq<char>) -> Option<NodePtr> {
    match xpath_nodes(node, xpath) {
        Some(nodes) => if nodes.len() > 0 {
            Some(nodes[0])
        } else {
            None
        },
        None => None,
    }
}

/// Whether the character is white space as XML has it between its tags.
pub open spec fn is_xml_space(c: char) -> bool {
    c == ' ' || c == '\t' || c == '\r' || c == '\n'
}

/// Whether the text ends with the `>` of a tag, white space behind it set
/// aside. A text that ends otherwise holds no whole document: it is empty,
/// or goes on behind its last tag, or breaks off inside a tag.
pub open spec fn ends_with_tag(text: Seq<char>) -> bool
    decreases text.len(),
{
    if text.len() == 0 {
        false
    } else if is_xml_space(text.last()) {
        ends_with_tag(text.drop_last())
    } else {
        text.last() == '>'
    }
}

/// Whether the expression is one of those that the library asks of a
/// document: a container, a shape of entries, or the place of the time.
pub open spec fn known_expression(xpath: Seq<char>) -> bool {
    base_paths().contains(xpath) || entry_paths().contains(xpath) || xpath == timestamp_path()
}

/// Whether the text ends with the `>` of a tag.
pub fn is_closed_text(text: &str) -> (closed: bool)
    ensures
        closed == ends_with_tag(text@),
{
    let chars = chars_of(text);
    let mut end: usize = chars.len();
    assert(chars@.take(end as int) == chars@);
    while end > 0 && (chars[end - 1] == ' ' || chars[end - 1] == '\t' || chars[end - 1] == '\r'
        || chars[end - 1] == '\n')
        invariant
            end <= chars.len(),
            ends_with_tag(chars@) == ends_with_tag(chars@.take(end as int)),
        decreases end,
    {
        assert(chars@.take(end as int).drop_last() == chars@.take(end - 1));
        end -= 1;
    }
    end > 0 && chars[end - 1] == '>'
}

/// A parsed document. It owns every node of its tree.
pub(crate) struct Document {
    root: NodePtr,
}

/// A node, with the document that it lies in. While the node is there the
/// document is borrowed, so the node's ancestors are there too.
pub(crate) struct Node<'a> {
    document: &'a Document,
    ptr: NodePtr,
}

impl Document {
    /// The root node of the document.
    pub(crate) closed spec fn handle(&self) -> NodePtr {
        self.root
    }
}

impl<'a> Node<'a> {
    /// The place in the document that the node stands for.
    pub(crate) closed spec fn handle(&self) -> NodePtr {
        self.ptr
    }
}

/// The places that the nodes stand for.
pub(crate) open spec fn handles(nodes: Seq<Node<'_>>) -> Seq<NodePtr> {
    nodes.map_values(|node: Node<'_>| node.handle())
}

/// `amxml::dom::new_document`, on a text that ends with the `>` of a tag:
/// parses the text into a document, or into nothing where a tag, comment or
/// instruction cannot be read or an end tag does not match the element that
/// is open. Whether every element was closed when the text ends is not asked.
/// On a text that breaks off inside a start tag the call would not return, so
/// such texts are left out.
#[verifier::external_body]
pub(crate) fn parse_document(xml: &str) -> (document: Option<Document>)
    requires
        ends_with_tag(xml@),
    ensures
        match document {
            Some(parsed) => xml_document(xml@) == Some(parsed.handle()),
            None => xml_document(xml@) is None,
        },
{
    new_document(xml).ok().map(|root| Document { root })
}

/// `NodePtr::root_element`, on the root node of a document: the topmost
/// element of the document, or the root node itself where the document holds
/// no element.
#[verifier::external_body]
pub(crate) fn root_element<'a>(document: &'a Document) -> (root: Node<'a>)
    ensures
        root.handle() == xml_root_element(document.handle()),
{
    Node { document, ptr: document.root.root_element() }
}

/// `NodePtr::get_nodeset`, on a node whose document is there and for one of
/// the expressions that the library asks: every node that the expression
/// selects, in document order, or nothing where the expression cannot be
/// evaluated. Other expressions are left out: an empty one would make the
/// call panic.
#[verifier::external_body]
pub(crate) fn select_nodes<'a>(node: &Node<'a>, xpath: &str) -> (nodes: Option<Vec<Node<'a>>>)
    requires
        known_expression(xpath@),
    ensures
        match nodes {
            Some(found) => xpath_nodes(node.handle(), xpath@) == Some(handles(found@)),
            None => xpath_nodes(node.handle(), xpath@) is None,
        },
{
    let document = node.document;
    let found = node.ptr.get_nodeset(xpath).ok();
    found.map(|all| all.into_iter().map(|ptr| Node { document, ptr }).collect())
}

/// `NodePtr::get_first_node`, on a node whose document is there and for one
/// of the expressions that the library asks: the first node of what
/// `get_nodeset` selects, or nothing where that is empty or cannot be
/// evaluated. Other expressions are left out, as for `get_nodeset`.
#[verifier::external_body]
pub(crate) fn select_first<'a>(node: &Node<'a>, xpath: &str) -> (first: Option<Node<'a>>)
    requires
        known_expression(xpath@),
    ensures
        match first {
            Some(found) => xpath_first(node.handle(), xpath@) == Some(found.handle()),
            None => xpath_first(node.handle(), xpath@) is None,
        },
{
    let document = node.document;
    node.ptr.get_first_node(xpath).map(|ptr| Node { document, ptr })
}

/// `NodePtr::attribute_value`: the value of the first attribute of that name.
#[verifier::external_body]
pub(crate) fn attribute(node: &Node<'_>, name: &str) -> (value: Option<String>)
    ensures
        match value {
            Some(text) => xml_attribute(node.handle(), name@) == Some(text@),
            None => xml_attribute(node.handle(), name@) is None,
        },
{
    node.ptr.attribute_value(name)
}

} // verus!
