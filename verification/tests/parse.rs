use blitz_dom::BaseDocument;
use markup5ever_rcdom::RcDom;
use mini_servo::app::SIMPLE_TEST_HTML as FIXED_DOCUMENT;
use mini_servo::app::{Cycle, LayoutRequest, MainThread};
use mini_servo::dummy::DummyRegisteredSpeculativePainters;
use mini_servo::layout::node::{BlitzLayoutNode, BlitzNode, NodeData};
use mini_servo::options::{DebugOptions, WindowSize};
use mini_servo::parse::{
    document_topology, parse_document_topology, parse_opts, ParseHtml, HELLO_WORLD_HTML,
};
use mini_servo::style::{
    resolve_style, FontMetricsSource, NodeClass, RecalcStyle, SharedRwLock, SnapshotMap,
    StyleWork, StylesheetGuards,
};
use mini_servo::transaction::{Epoch, PipelineId, Transaction};
use mini_servo::util::{
    make_device, make_shared_style_context, make_stylist, CompositorSpinner, CompositorStarted,
    Running, ShutdownState,
};

/// What the document engine of these tests is asked for.
type Request<'a> = LayoutRequest<'a, DummyRegisteredSpeculativePainters>;

const SIMPLE_TEST_HTML: &str = r#"
<!DOCTYPE html>
<html>
<head>
    <title>This is title</title>
</head>
<body>
    <h1>header 1</h1>
    <p>This is a simple paragraph in my HTML document</p>
    Here's some additional text outside of the paragraph tags
    <p>This is a para</p>
</body>
</html>
"#;

/// The tags of the elements among the nodes of a topology, in order.
fn tags(nodes: &[Option<String>]) -> Vec<&str> {
    nodes.iter().filter_map(|node| node.as_deref()).collect()
}

#[test]
fn test_rcdom_parse_html() {
    let _parsed = RcDom::parse_html(SIMPLE_TEST_HTML, Default::default()).unwrap();
}

#[test]
fn test_blitz_dom_parse_html() {
    let _parsed = BaseDocument::parse_html(SIMPLE_TEST_HTML, Default::default()).unwrap();
}

#[test]
fn style_test_blitz_dom_style_traversal() {
    let _doc = BaseDocument::parse_html("<p>Hello, world!</p>", Default::default()).unwrap();
}

#[test]
fn test_rcdom_style_traversal() {
    let doc = RcDom::parse_html(SIMPLE_TEST_HTML, Default::default()).unwrap();

    // Create a dummy shared style context
    let device = make_device(WindowSize::new(800, 600), FontMetricsSource::Dummy);
    let stylist = make_stylist(device);
    let guard = SharedRwLock::new();
    let guards = StylesheetGuards { author: &guard.read(), ua_or_user: &guard.read() };
    let snapshot_map = SnapshotMap::new();
    let registered_speculative_painters = DummyRegisteredSpeculativePainters;

    let shared_context = make_shared_style_context(
        &stylist,
        guards,
        &snapshot_map,
        &registered_speculative_painters,
    );
    let _traversal = RecalcStyle::new(&shared_context);
    let _root = doc.document.clone();
}

#[test]
fn test_resolve_style_on_plain_nodes() {
    let document = BlitzNode { data: NodeData::Document, only_in_document: true };

    // Create a dummy shared style context
    let device = make_device(WindowSize::new(800, 600), FontMetricsSource::Dummy);
    let stylist = make_stylist(device);
    let guard = SharedRwLock::new();
    let guards = StylesheetGuards { author: &guard.read(), ua_or_user: &guard.read() };
    let snapshot_map = SnapshotMap::new();
    let registered_speculative_painters = DummyRegisteredSpeculativePainters;

    let shared_context = make_shared_style_context(
        &stylist,
        guards,
        &snapshot_map,
        &registered_speculative_painters,
    );
    let traversal = RecalcStyle::new(&shared_context);

    let root = BlitzLayoutNode { value: &document };
    let dirty_root = resolve_style(
        root,
        |node: BlitzLayoutNode, _pool: Option<&rayon::ThreadPool>| {
            assert_eq!(traversal.process_preorder(NodeClass::Element), StyleWork::Recalc);
            node
        },
        |_node: &BlitzLayoutNode| true,
        None,
    )
    .unwrap();
    assert!(matches!(dirty_root.value.data, NodeData::Document));
}

#[test]
fn test_resolve_style_fast_path() {
    let mut traversed = false;
    let dirty_root = resolve_style(
        7u32,
        |node: u32, _pool: Option<&rayon::ThreadPool>| {
            traversed = true;
            node + 1
        },
        |_node: &u32| false,
        None,
    );
    assert_eq!(dirty_root, None);
    assert!(!traversed);

    let dirty_root =
        resolve_style(7u32, |node: u32, _pool: Option<&rayon::ThreadPool>| node + 1, |node: &u32| *node == 7, None);
    assert_eq!(dirty_root, Some(8));
}

#[test]
fn test_recalc_style_decisions() {
    let stylist = make_stylist(make_device(WindowSize::default(), FontMetricsSource::Dummy));
    let guard = SharedRwLock::new();
    let guards = StylesheetGuards { author: &guard.read(), ua_or_user: &guard.read() };
    let snapshot_map = SnapshotMap::new();
    let painters = DummyRegisteredSpeculativePainters;
    let context = make_shared_style_context(&stylist, guards, &snapshot_map, &painters);
    let traversal = RecalcStyle::new(&context);
    assert_eq!(traversal.process_preorder(NodeClass::Text), StyleWork::Skip);
    assert_eq!(traversal.process_preorder(NodeClass::Element), StyleWork::Recalc);
    assert!(!RecalcStyle::<DummyRegisteredSpeculativePainters>::needs_postorder_traversal());
    assert!(std::ptr::eq(traversal.shared_context(), &context));
}

#[test]
fn test_fixed_document_cycle() {
    let (txn_tx, txn_rx) = crossbeam_channel::unbounded::<Transaction<Vec<String>>>();
    let (_inbox_tx, inbox_rx) = crossbeam_channel::unbounded::<u8>();
    let (started_tx, started_rx) = crossbeam_channel::bounded::<CompositorStarted>(1);
    let mut spinner = CompositorSpinner::new(inbox_rx, txn_rx, started_tx);

    let mut stage: MainThread<DummyRegisteredSpeculativePainters, Vec<String>> = MainThread::new(
        WindowSize::new(800, 600),
        DummyRegisteredSpeculativePainters,
        DebugOptions::default(),
        txn_tx,
    );
    stage.startup(started_rx.recv().ok());
    // A document engine that lays nothing out: its display list names one
    // box for each element of the body.
    let cycle = stage.parse_style_layout(|request: Request| {
        assert_eq!(request.viewport_size, WindowSize { width: 800, height: 600 });
        let nodes = document_topology(&request.document, 16).unwrap();
        let body = nodes.iter().position(|node| node.as_deref() == Some("body")).unwrap();
        nodes[body + 1..].iter().flatten().cloned().collect()
    });
    assert_eq!(cycle, Cycle::Produced(Epoch(0)));

    let spun = spinner.spin(|_batch| ShutdownState::NotShuttingDown);
    assert_eq!(spun.result, Running::RequestRedraw);
    let again = spinner.spin(|_batch| ShutdownState::NotShuttingDown);
    assert_eq!(again.result, Running::Continue);
    assert!(again.frame.is_none());
    let update = spun.frame.unwrap().display_list.unwrap();
    assert_eq!(update.pipeline_id, PipelineId::dummy());
    assert_eq!(update.pipeline_id, stage.pipeline_id());
    assert!(update.display_list.len() >= 3);
    assert_eq!(update.display_list, vec!["h1", "p", "p"]);
}

#[test]
fn test_document_topology() {
    assert_eq!(FIXED_DOCUMENT, SIMPLE_TEST_HTML);
    let nodes = parse_document_topology(FIXED_DOCUMENT, Default::default(), 16).unwrap();
    assert_eq!(tags(&nodes), vec!["html", "head", "title", "body", "h1", "p", "p"]);
    // The document, seven elements, and eleven runs of text.
    assert_eq!(nodes.len(), 19);
    assert_eq!(nodes[0], None);
    assert_eq!(nodes[1].as_deref(), Some("html"));

    let doc = BaseDocument::parse_html(FIXED_DOCUMENT, parse_opts()).unwrap();
    assert_eq!(document_topology(&doc, 16), Some(nodes));
}

#[test]
fn test_topology_of_one_paragraph() {
    assert_eq!(HELLO_WORLD_HTML, "<p>Hello, world!</p>");
    let nodes = parse_document_topology(HELLO_WORLD_HTML, parse_opts(), 8).unwrap();
    assert_eq!(
        nodes,
        vec![
            None,
            Some("html".to_string()),
            Some("head".to_string()),
            Some("body".to_string()),
            Some("p".to_string()),
            None
        ]
    );
    // document > html > body > p > text: five levels.
    assert_eq!(parse_document_topology(HELLO_WORLD_HTML, parse_opts(), 4), None);
    assert!(parse_document_topology(HELLO_WORLD_HTML, parse_opts(), 5).is_some());
}

#[test]
fn test_rcdom_parse_gives_a_document() {
    let doc = RcDom::parse_html("<p>Hello, world!</p>", Default::default()).unwrap();
    let html = doc.document.children.borrow()[0].clone();
    assert!(matches!(&html.data, markup5ever_rcdom::NodeData::Element { name, .. } if &*name.local == "html"));
    assert_eq!(html.children.borrow().len(), 2);
    // A tree of reference-counted nodes takes what a document for style
    // and layout does not: a reference that cannot be resolved.
    assert!(RcDom::parse_html("<img src=\"a.png\">", Default::default()).is_ok());
}

#[test]
fn test_document_topology_depth_limit() {
    // document > html > head > title > text: five levels.
    assert_eq!(parse_document_topology(FIXED_DOCUMENT, Default::default(), 0), None);
    assert_eq!(parse_document_topology(FIXED_DOCUMENT, Default::default(), 4), None);
    assert!(parse_document_topology(FIXED_DOCUMENT, Default::default(), 5).is_some());
}

#[test]
fn test_reparse_same_document_topology() {
    let first = parse_document_topology(FIXED_DOCUMENT, Default::default(), 16).unwrap();
    for _ in 0..3 {
        let again = parse_document_topology(FIXED_DOCUMENT, Default::default(), 16).unwrap();
        assert_eq!(again.len(), first.len());
        assert_eq!(tags(&again), tags(&first));
        assert_eq!(again, first);
    }
}
