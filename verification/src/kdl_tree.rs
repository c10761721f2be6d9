//! KDL documents as plain values.
//!
//! The `kdl` crate parses the text; this module reads the parsed document
//! through a few accessors and copies what the theme logic needs (node
//! names, entry values as integers, child nodes) into `KdlNodeData`.

use vstd::prelude::*;

verus! {

#[verifier::external_type_specification]
#[verifier::external_body]
pub struct ExKdlDocument(kdl::KdlDocument);

#[verifier::external_type_specification]
#[verifier::external_body]
pub struct ExKdlNode(kdl::KdlNode);

/// What a KDL node holds: its name, the integer value of each of its
/// entries in order (`None` for an entry whose value is not an integer),
/// and its child nodes when it has a children block.
pub struct KdlNodeModel {
    pub name: Seq<char>,
    pub entries: Seq<Option<i64>>,
    pub children: Option<Seq<KdlNodeModel>>,
}

/// The nodes of the document that `kdl::KdlDocument::from_str` parses
/// from `text`, or `None` when it reports a syntax error.
pub uninterp spec fn kdl_parse(text: Seq<char>) -> Option<Seq<KdlNodeModel>>;

/// The nodes that a `kdl::KdlDocument` holds, in order.
pub uninterp spec fn kdl_document_nodes(doc: kdl::KdlDocument) -> Seq<KdlNodeModel>;

/// What a `kdl::KdlNode` holds.
pub uninterp spec fn kdl_node_model(node: kdl::KdlNode) -> KdlNodeModel;

/// The message (`Display` text) of the `kdl::KdlError` that parsing
/// `text` reports.
pub uninterp spec fn kdl_parse_error(text: Seq<char>) -> Seq<char>;

/// `kdl::KdlDocument::from_str` (`str::parse`), with a syntax error turned
/// into its message. The contract claims that the outcome is a function of
/// the text alone: a parsed document holds the nodes that `kdl_parse`
/// gives for the text, and an error's message is `kdl_parse_error` of it.
#[verifier::external_body]
pub(crate) fn parse_kdl_document(text: &str) -> (res: Result<kdl::KdlDocument, String>)
    ensures
        res is Ok <==> kdl_parse(text@) is Some,
        res matches Ok(doc) ==> kdl_parse(text@) == Some(kdl_document_nodes(doc)),
        res matches Err(m) ==> m@ == kdl_parse_error(text@),
{
    text.parse::<kdl::KdlDocument>().map_err(|e| e.to_string())
}

/// `KdlDocument::nodes`: the slice of the document's nodes.
#[verifier::external_body]
pub(crate) fn document_nodes(doc: &kdl::KdlDocument) -> (res: &[kdl::KdlNode])
    ensures
        res@.len() == kdl_document_nodes(*doc).len(),
        forall|i: int|
            0 <= i < res@.len() ==> kdl_node_model(#[trigger] res@[i]) == kdl_document_nodes(
                *doc,
            )[i],
{
    doc.nodes()
}

/// `KdlNode::name` followed by `KdlIdentifier::value`: the node's name.
#[verifier::external_body]
pub(crate) fn node_name(node: &kdl::KdlNode) -> (res: String)
    ensures
        res@ == kdl_node_model(*node).name,
{
    node.name().value().to_string()
}

/// `KdlNode::entries().len()`: how many entries the node has.
#[verifier::external_body]
pub(crate) fn node_entry_count(node: &kdl::KdlNode) -> (res: usize)
    ensures
        res == kdl_node_model(*node).entries.len(),
{
    node.entries().len()
}

/// `KdlValue::as_i64` on the value of the node's entry `i`.
#[verifier::external_body]
pub(crate) fn node_entry_i64(node: &kdl::KdlNode, i: usize) -> (res: Option<i64>)
    requires
        i < kdl_node_model(*node).entries.len(),
    ensures
        res == kdl_node_model(*node).entries[i as int],
{
    node.entries()[i].value().as_i64()
}

/// `KdlNode::children`: the node's children block, if it has one.
#[verifier::external_body]
pub(crate) fn node_children(node: &kdl::KdlNode) -> (res: Option<&kdl::KdlDocument>)
    ensures
        res is Some <==> kdl_node_model(*node).children is Some,
        res matches Some(doc) ==> kdl_node_model(*node).children == Some(
            kdl_document_nodes(*doc),
        ),
{
    node.children()
}

/// A KDL node as plain values.
pub struct KdlNodeData {
    pub name: String,
    pub entries: Vec<Option<i64>>,
    pub children: Option<Vec<KdlNodeData>>,
}

/// The model of a node held as plain values.
pub open spec fn node_view(n: KdlNodeData) -> KdlNodeModel
    decreases n,
{
    KdlNodeModel {
        name: n.name@,
        entries: n.entries@,
        children: match n.children {
            Some(v) => Some(nodes_view(v@)),
            None => None,
        },
    }
}

/// The models of a sequence of nodes.
pub open spec fn nodes_view(v: Seq<KdlNodeData>) -> Seq<KdlNodeModel>
    decreases v,
{
    Seq::new(
        v.len(),
        |i: int|
            if 0 <= i < v.len() {
                node_view(v[i])
            } else {
                KdlNodeModel { name: Seq::empty(), entries: Seq::empty(), children: None }
            },
    )
}

fn node_entries(node: &kdl::KdlNode) -> (res: Vec<Option<i64>>)
    ensures
        res@ == kdl_node_model(*node).entries,
{
    let n = node_entry_count(node);
    let mut res: Vec<Option<i64>> = Vec::new();
    let mut i: usize = 0;
    while i < n
        invariant
            n == kdl_node_model(*node).entries.len(),
            i <= n,
            res@ == kdl_node_model(*node).entries.take(i as int),
        decreases n - i,
    {
        res.push(node_entry_i64(node, i));
        assert(kdl_node_model(*node).entries.take(i + 1) == kdl_node_model(*node).entries.take(
            i as int,
        ).push(kdl_node_model(*node).entries[i as int]));
        i = i + 1;
    }
    assert(kdl_node_model(*node).entries.take(n as int) == kdl_node_model(*node).entries);
    res
}

/// Copies the nodes of a parsed document into plain values.
pub fn document_data(doc: &kdl::KdlDocument) -> (res: Vec<KdlNodeData>)
    ensures
        nodes_view(res@) == kdl_document_nodes(*doc),
    decreases kdl_document_nodes(*doc),
{
    let nodes = document_nodes(doc);
    let mut res: Vec<KdlNodeData> = Vec::new();
    let mut i: usize = 0;
    while i < nodes.len()
        invariant
            i <= nodes@.len(),
            nodes@.len() == kdl_document_nodes(*doc).len(),
            forall|j: int|
                0 <= j < nodes@.len() ==> kdl_node_model(#[trigger] nodes@[j])
                    == kdl_document_nodes(*doc)[j],
            res@.len() == i,
            forall|j: int| 0 <= j < i ==> node_view(#[trigger] res@[j]) == kdl_document_nodes(*doc)[j],
        decreases nodes@.len() - i,
    {
        let node = &nodes[i];
        let name = node_name(node);
        let entries = node_entries(node);
        let children = match node_children(node) {
            Some(child_doc) => {
                assert(decreases_to!(kdl_document_nodes(*doc) => kdl_document_nodes(*child_doc))) by {
                    let m = kdl_document_nodes(*doc)[i as int];
                    assert(decreases_to!(kdl_document_nodes(*doc) => m));
                    assert(decreases_to!(m => m.children));
                    assert(decreases_to!(m.children => m.children->0));
                };
                Some(document_data(child_doc))
            },
            None => None,
        };
        let data = KdlNodeData { name, entries, children };
        res.push(data);
        i = i + 1;
    }
    assert(nodes_view(res@) =~= kdl_document_nodes(*doc));
    res
}

} // verus!
