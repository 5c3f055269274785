//! Parsing the document text, and the topology of what was parsed: the
//! nodes of the document in document order, each element with its tag.

use vstd::prelude::*;
use blitz_dom::{BaseDocument, DocumentConfig};
use blitz_html::DocumentHtmlParser;
use html5ever::tendril::TendrilSink;
use html5ever::ParseOpts;
use markup5ever_rcdom::RcDom;
use crate::app::SIMPLE_TEST_HTML;

verus! {

/// A parsed document for style and layout: a table of nodes by identifier,
/// with the document node under identifier 0.
#[verifier::external_type_specification]
#[verifier::external_body]
pub struct ExBaseDocument(BaseDocument);

/// A parsed document: a tree of reference-counted nodes.
#[verifier::external_type_specification]
#[verifier::external_body]
pub struct ExRcDom(RcDom);

/// The options of the parser.
#[verifier::external_type_specification]
#[verifier::external_body]
pub struct ExParseOpts(ParseOpts);

/// The error of a reader that the parser reads from.
#[verifier::external_type_specification]
#[verifier::external_body]
pub struct ExIoError(std::io::Error);

/// What a table of nodes holds of one node: the tag, where the node is an
/// element, and the identifiers of the children, in document order.
pub struct NodeRecord {
    pub tag: Option<Seq<char>>,
    pub children: Seq<usize>,
}

/// The nodes that a document holds, by identifier.
pub uninterp spec fn document_nodes(doc: BaseDocument) -> Map<usize, NodeRecord>;

/// The nodes of the document that the parser builds from a text, under its
/// default options, by identifier.
pub uninterp spec fn parsed_nodes(html: Seq<char>) -> Map<usize, NodeRecord>;

/// Whether options are those that the parser takes where nothing is asked
/// of it.
pub uninterp spec fn default_options(opts: ParseOpts) -> bool;

/// A document of one paragraph, the least that shows a box.
pub const HELLO_WORLD_HTML: &'static str = "<p>Hello, world!</p>";

/// Whether a text is one of the documents of the harness: the fixed
/// document, or the document of one paragraph.
pub open spec fn spec_known_document(html: Seq<char>) -> bool {
    html == SIMPLE_TEST_HTML@ || html == HELLO_WORLD_HTML@
}

/// A document type that can be parsed from HTML text.
pub trait ParseHtml: Sized {
    type Error;

    /// Whether the document type can be built from this text.
    spec fn spec_takes(html: Seq<char>) -> bool;

    /// Parses `html` under the default options of the parser. Other
    /// options are for the parser's own tests.
    fn parse_html(html: &str, opts: ParseOpts) -> Result<Self, Self::Error>
        requires
            Self::spec_takes(html@),
            default_options(opts),
    ;
}

/// `html5ever::parse_document` into an `RcDom`, fed with the bytes of
/// `html`. Under its default options the parser takes every text: it
/// repairs what is malformed. `Err` could only come from the reader, and a
/// reader over a string in memory does not fail. Nothing is said of the
/// tree: it is made of pointers and cells.
#[verifier::external_body]
fn parse_rcdom(html: &str, opts: ParseOpts) -> (parsed: Result<RcDom, std::io::Error>)
    requires
        default_options(opts),
    ensures
        parsed is Ok,
{
    let mut reader = std::io::Cursor::new(html);
    html5ever::parse_document(RcDom::default(), opts).from_utf8().read_from(&mut reader)
}

impl ParseHtml for RcDom {
    type Error = std::io::Error;

    /// A tree of reference-counted nodes can be built from every text.
    open spec fn spec_takes(html: Seq<char>) -> bool {
        true
    }

    fn parse_html(html: &str, opts: ParseOpts) -> (parsed: Result<Self, std::io::Error>)
        ensures
            parsed is Ok,
    {
        parse_rcdom(html, opts)
    }
}

/// `html5ever::parse_document` into a fresh `BaseDocument`, through the
/// sink of `blitz_html`, fed with the bytes of `html`. As with every sink,
/// `Err` could only come from the reader, and a reader over a string in
/// memory does not fail. Under the default options the nodes and their
/// identifiers are a function of the text. The document resolves the
/// references of the elements that load something, an image or a style
/// sheet, as soon as they are added, and panics on a reference that it
/// cannot join to its base; only the documents of the harness, which hold
/// no reference, are admitted.
#[verifier::external_body]
pub(crate) fn parse_base_document(html: &str, opts: ParseOpts) -> (parsed: Result<
    BaseDocument,
    std::io::Error,
>)
    requires
        spec_known_document(html@),
        default_options(opts),
    ensures
        parsed is Ok,
        document_nodes(parsed->Ok_0) == parsed_nodes(html@),
{
    let mut reader = std::io::Cursor::new(html);
    let mut doc = BaseDocument::new(DocumentConfig::default());
    let mut mutator = doc.mutate();
    let sink = DocumentHtmlParser::new(&mut mutator);
    let parsed = html5ever::parse_document(sink, opts).from_utf8().read_from(&mut reader);
    drop(mutator);
    parsed.map(|_| doc)
}

impl ParseHtml for BaseDocument {
    type Error = std::io::Error;

    /// A document for style and layout is built from the documents of
    /// the harness only: its content is fixed when the process starts.
    open spec fn spec_takes(html: Seq<char>) -> bool {
        spec_known_document(html)
    }

    fn parse_html(html: &str, opts: ParseOpts) -> (parsed: Result<Self, std::io::Error>)
        ensures
            parsed is Ok,
            document_nodes(parsed->Ok_0) == parsed_nodes(html@),
    {
        parse_base_document(html, opts)
    }
}

/// `BaseDocument::get_node`, and of the node the local name, where it is
/// an element, and the field `children`. `None` where the document holds
/// no node under `id`.
#[verifier::external_body]
fn record_of(doc: &BaseDocument, id: usize) -> (record: Option<(Option<String>, Vec<usize>)>)
    ensures
        spec_record(record) == spec_lookup(document_nodes(*doc), id),
{
    doc.get_node(id).map(
        |node| (node.element_data().map(|el| el.name.local.to_string()), node.children.clone()),
    )
}

/// `ParseOpts::default`: the options that the parser takes where nothing
/// is asked of it.
#[verifier::external_body]
fn default_parse_opts() -> (opts: ParseOpts)
    ensures
        default_options(opts),
{
    ParseOpts::default()
}

/// The default options of the parser.
pub fn parse_opts() -> (opts: ParseOpts)
    ensures
        default_options(opts),
{
    default_parse_opts()
}

/// A tag as the contracts speak of it.
pub open spec fn spec_tag(tag: Option<String>) -> Option<Seq<char>> {
    match tag {
        Some(name) => Some(name@),
        None => None,
    }
}

/// What a document holds of a node, as the contracts speak of it.
pub open spec fn spec_record(record: Option<(Option<String>, Vec<usize>)>) -> Option<NodeRecord> {
    match record {
        Some((tag, children)) => Some(NodeRecord { tag: spec_tag(tag), children: children@ }),
        None => None,
    }
}

/// What a table of nodes holds under an identifier, if anything.
pub open spec fn spec_lookup(nodes: Map<usize, NodeRecord>, id: usize) -> Option<NodeRecord> {
    if nodes.contains_key(id) {
        Some(nodes[id])
    } else {
        None
    }
}

/// The tags of a list of nodes.
pub open spec fn spec_tags(labels: Seq<Option<String>>) -> Seq<Option<Seq<char>>> {
    labels.map_values(|label: Option<String>| spec_tag(label))
}

/// The nodes below and including the node `id` of a table, in document
/// order, each with its tag, where every identifier on the way is in the
/// table and the subtree is less than `depth` levels deep below the node;
/// `None` otherwise.
pub open spec fn spec_table_subtree(nodes: Map<usize, NodeRecord>, id: usize, depth: nat) -> Option<
    Seq<Option<Seq<char>>>,
>
    decreases depth, 0nat,
{
    if depth == 0 || !nodes.contains_key(id) {
        None
    } else {
        match spec_table_forest(nodes, nodes[id].children, (depth - 1) as nat) {
            Some(below) => Some(seq![nodes[id].tag] + below),
            None => None,
        }
    }
}

/// The same of several nodes, one after the other.
pub open spec fn spec_table_forest(nodes: Map<usize, NodeRecord>, ids: Seq<usize>, depth: nat) -> Option<
    Seq<Option<Seq<char>>>,
>
    decreases depth, 1 + ids.len(),
{
    if ids.len() == 0 {
        Some(Seq::empty())
    } else {
        match (
            spec_table_forest(nodes, ids.drop_last(), depth),
            spec_table_subtree(nodes, ids.last(), depth),
        ) {
            (Some(before), Some(last)) => Some(before + last),
            _ => None,
        }
    }
}

/// The topology of the document that is built from a text for style and
/// layout: its nodes in document order from the document node, each
/// element with its tag; `None` where the tree is `depth` levels deep or
/// deeper.
pub open spec fn spec_document_topology(html: Seq<char>, depth: nat) -> Option<Seq<Option<Seq<char>>>> {
    spec_table_subtree(parsed_nodes(html), 0, depth)
}

/// Appends the subtree of the node `id` to `out`, in document order. Gives
/// up, with `false`, where an identifier is not in the document or the
/// subtree is `depth` levels deep or deeper.
fn collect_from_table(doc: &BaseDocument, id: usize, depth: usize, out: &mut Vec<Option<String>>) -> (complete:
    bool)
    ensures
        match spec_table_subtree(document_nodes(*doc), id, depth as nat) {
            Some(labels) => complete && spec_tags(final(out)@) == spec_tags(old(out)@) + labels,
            None => !complete,
        },
    decreases depth,
{
    if depth == 0 {
        return false;
    }
    let (tag, children) = match record_of(doc, id) {
        Some(record) => record,
        None => {
            return false;
        },
    };
    let ghost nodes = document_nodes(*doc);
    let ghost before = spec_tags(out@);
    out.push(tag);
    assert(spec_tags(out@) =~= before + seq![nodes[id].tag]);
    let mut i: usize = 0;
    while i < children.len()
        invariant
            i <= children.len(),
            depth > 0,
            nodes == document_nodes(*doc),
            nodes.contains_key(id),
            children@ == nodes[id].children,
            spec_table_forest(nodes, children@.subrange(0, i as int), (depth - 1) as nat) matches Some(
                below,
            ) && spec_tags(out@) == before + seq![nodes[id].tag] + below,
        decreases children.len() - i,
    {
        let ghost head = children@.subrange(0, i as int);
        let ghost next = children@.subrange(0, i + 1);
        assert(next.drop_last() =~= head);
        assert(next.last() == children@[i as int]);
        if !collect_from_table(doc, children[i], depth - 1, out) {
            proof {
                lemma_table_forest_fails_with_prefix(nodes, children@, (i + 1) as nat, (depth - 1) as nat);
            }
            return false;
        }
        i = i + 1;
    }
    assert(children@.subrange(0, i as int) =~= children@);
    true
}

/// Where a prefix of a forest cannot be walked, the forest cannot.
proof fn lemma_table_forest_fails_with_prefix(
    nodes: Map<usize, NodeRecord>,
    ids: Seq<usize>,
    n: nat,
    depth: nat,
)
    requires
        n <= ids.len(),
        spec_table_forest(nodes, ids.subrange(0, n as int), depth) is None,
    ensures
        spec_table_forest(nodes, ids, depth) is None,
    decreases ids.len() - n,
{
    if n < ids.len() {
        let next = ids.subrange(0, n + 1 as int);
        assert(next.drop_last() =~= ids.subrange(0, n as int));
        lemma_table_forest_fails_with_prefix(nodes, ids, n + 1, depth);
    } else {
        assert(ids.subrange(0, n as int) =~= ids);
    }
}

/// The topology of a document for style and layout: its nodes in document
/// order from the document node, each element with its tag and every other
/// node with `None`. `None` where the tree is `depth` levels deep or
/// deeper.
pub fn document_topology(doc: &BaseDocument, depth: usize) -> (nodes: Option<Vec<Option<String>>>)
    ensures
        match spec_table_subtree(document_nodes(*doc), 0, depth as nat) {
            Some(labels) => nodes matches Some(found) && spec_tags(found@) == labels,
            None => nodes is None,
        },
{
    let mut out: Vec<Option<String>> = Vec::new();
    assert(spec_tags(out@) =~= Seq::empty());
    if collect_from_table(doc, 0, depth, &mut out) {
        Some(out)
    } else {
        None
    }
}

/// Parses a document of the harness as a production cycle does, and gives
/// the topology of the document.
pub fn parse_document_topology(html: &str, opts: ParseOpts, depth: usize) -> (nodes: Option<
    Vec<Option<String>>,
>)
    requires
        spec_known_document(html@),
        default_options(opts),
    ensures
        match spec_document_topology(html@, depth as nat) {
            Some(labels) => nodes matches Some(found) && spec_tags(found@) == labels,
            None => nodes is None,
        },
{
    match BaseDocument::parse_html(html, opts) {
        Ok(doc) => document_topology(&doc, depth),
        Err(_) => None,
    }
}

/// Parsing again changes nothing: two documents parsed from the same text
/// have the same nodes, and so the same topology, with the same count of
/// nodes and the same tags in the same order.
pub proof fn lemma_reparse_is_idempotent(html: Seq<char>, first: BaseDocument, second: BaseDocument, depth: nat)
    requires
        document_nodes(first) == parsed_nodes(html),
        document_nodes(second) == parsed_nodes(html),
    ensures
        document_nodes(first) == document_nodes(second),
        spec_table_subtree(document_nodes(first), 0, depth) == spec_table_subtree(
            document_nodes(second),
            0,
            depth,
        ),
        spec_table_subtree(document_nodes(first), 0, depth) == spec_document_topology(html, depth),
{
}

} // verus!
