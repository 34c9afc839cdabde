//! A parsed page, and what `select` finds in it.

use select::document::Document;
use select::predicate::{Class, Name, Predicate};
use vstd::prelude::*;

verus! {

/// A parsed page, as `select` holds it.
#[verifier::external_type_specification]
#[verifier::external_body]
pub struct ExDocument(select::document::Document);

/// The document that `select` parses out of an HTML text.
pub uninterp spec fn html_document(html: Seq<char>) -> Document;

/// Whether a document is one that `select` parsed out of some HTML text, as it came out of
/// the parser. The nodes of such a document name only nodes that it holds, and none names
/// a node above itself.
pub open spec fn is_parsed(document: Document) -> bool {
    exists|html: Seq<char>| document == #[trigger] html_document(html)
}

/// Number of nodes of a document. A node is named by its index, which counts the nodes in
/// the order in which the document holds them.
pub uninterp spec fn node_count(document: Document) -> nat;

/// The nodes with the class `class`, in document order.
pub uninterp spec fn nodes_in_class(document: Document, class: Seq<char>) -> Seq<usize>;

/// The first node, in document order, that is an element `name` below a node with the class
/// `class`.
pub uninterp spec fn first_named_in_class(
    document: Document,
    class: Seq<char>,
    name: Seq<char>,
) -> Option<usize>;

/// The first node with the class `class` below the node `node`, in document order.
pub uninterp spec fn first_in_class_below(
    document: Document,
    node: usize,
    class: Seq<char>,
) -> Option<usize>;

/// The text of the node `node` and of all nodes below it, in document order.
pub uninterp spec fn node_text(document: Document, node: usize) -> Seq<char>;

/// The value of the attribute `name` of the node `node`, if it has that attribute.
pub uninterp spec fn node_attribute(document: Document, node: usize, name: Seq<char>) -> Option<
    Seq<char>,
>;

/// Calls `select::document::Document::from` on an HTML text.
///
/// Trusted: the document depends on the text alone.
#[verifier::external_body]
pub(crate) fn parse_html(html: &str) -> (document: Document)
    ensures
        document == html_document(html@),
{
    Document::from(html)
}

/// Calls `select::document::Document::find` with the predicate `Class` and hands out the
/// index of each node found.
///
/// Trusted: the nodes found depend on the document and the class alone, and are nodes of
/// the document.
#[verifier::external_body]
pub(crate) fn find_class(document: &Document, class: &str) -> (found: Vec<usize>)
    ensures
        found@ == nodes_in_class(*document, class@),
        forall|i: int| 0 <= i < found@.len() ==> (#[trigger] found@[i]) < node_count(*document),
{
    document.find(Class(class)).map(|node| node.index()).collect()
}

/// Calls `select::document::Document::find` with the predicate `Class(class)
/// .descendant(Name(name))` and hands out the index of the first node found.
///
/// Trusted: the node found depends on the document, the class and the name alone, and is a
/// node of the document. The search follows the nodes above each node, which is why the
/// document has to be as it was parsed.
#[verifier::external_body]
pub(crate) fn find_named_in_class(document: &Document, class: &str, name: &str) -> (found: Option<
    usize,
>)
    requires
        is_parsed(*document),
    ensures
        found == first_named_in_class(*document, class@, name@),
        found matches Some(node) ==> node < node_count(*document),
{
    document.find(Class(class).descendant(Name(name))).next().map(|node| node.index())
}

/// Calls `select::node::Node::find` with the predicate `Class` on the node `node` and hands
/// out the index of the first node found.
///
/// Trusted: the node found depends on the document, the node and the class alone, and is a
/// node of the document. The search follows the nodes below, beside and above each node,
/// which is why the document has to be as it was parsed.
#[verifier::external_body]
pub(crate) fn find_class_below(document: &Document, node: usize, class: &str) -> (found: Option<
    usize,
>)
    requires
        is_parsed(*document),
        node < node_count(*document),
    ensures
        found == first_in_class_below(*document, node, class@),
        found matches Some(below) ==> below < node_count(*document),
{
    document.nth(node).unwrap().find(Class(class)).next().map(|below| below.index())
}

/// Calls `select::node::Node::text` on the node `node`.
///
/// Trusted: the text depends on the document and the node alone. It is gathered from the
/// nodes below, which is why the document has to be as it was parsed.
#[verifier::external_body]
pub(crate) fn text_of(document: &Document, node: usize) -> (text: String)
    requires
        is_parsed(*document),
        node < node_count(*document),
    ensures
        text@ == node_text(*document, node),
{
    document.nth(node).unwrap().text()
}

/// Calls `select::node::Node::attr` on the node `node`.
///
/// Trusted: the value depends on the document, the node and the name alone.
#[verifier::external_body]
pub(crate) fn attribute_of(document: &Document, node: usize, name: &str) -> (value: Option<String>)
    requires
        node < node_count(*document),
    ensures
        value is Some <==> node_attribute(*document, node, name@) is Some,
        value matches Some(text) ==> node_attribute(*document, node, name@) == Some(text@),
{
    document.nth(node).unwrap().attr(name).map(|value| value.to_owned())
}

} // verus!
