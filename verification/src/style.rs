//! Style resolution as the production stage sees it: the records that
//! configure the style engine, and the decisions of the traversal that
//! recomputes styles.

use vstd::prelude::*;
use rayon::ThreadPool;
use crate::options::WindowSize;

verus! {

/// A pool of worker threads, handed through to the style engine.
#[verifier::external_type_specification]
#[verifier::external_body]
pub struct ExThreadPool(ThreadPool);

/// The medium that style is resolved for.
#[derive(Clone, Copy, Debug, PartialEq, Eq, Structural)]
pub enum MediaType {
    Screen,
    Print,
}

/// How far the document departs from the standards.
#[derive(Clone, Copy, Debug, PartialEq, Eq, Structural)]
pub enum QuirksMode {
    Quirks,
    LimitedQuirks,
    NoQuirks,
}

/// The colour scheme that the user prefers.
#[derive(Clone, Copy, Debug, PartialEq, Eq, Structural)]
pub enum PrefersColorScheme {
    Light,
    Dark,
}

/// Who answers the style engine's questions about font metrics.
#[derive(Clone, Copy, Debug, PartialEq, Eq, Structural)]
pub enum FontMetricsSource {
    /// A provider that knows no font.
    Dummy,
    /// The font context of the layout engine.
    Layout,
}

/// The device that media queries are evaluated against.
#[derive(Clone, Copy, Debug, PartialEq, Eq, Structural)]
pub struct Device {
    pub media_type: MediaType,
    pub quirks_mode: QuirksMode,
    pub viewport_size: WindowSize,
    /// Device pixels per CSS pixel.
    pub device_pixel_ratio: u32,
    pub font_metrics: FontMetricsSource,
    pub color_scheme: PrefersColorScheme,
}

/// The configuration of the style engine for one device.
#[derive(Clone, Copy, Debug, PartialEq, Eq, Structural)]
pub struct Stylist {
    pub device: Device,
    pub quirks_mode: QuirksMode,
}

impl Stylist {
    pub fn device(&self) -> (device: &Device)
        ensures
            *device == self.device,
    {
        &self.device
    }
}

/// The lock that guards style data, as the library keeps it: a record
/// that the stage has one lock, under which every cycle reads. The lock
/// of the style engine itself makes a reader wait while a writer holds it,
/// so it is taken where the engine runs.
#[derive(Clone, Copy, Debug, PartialEq, Eq, Structural)]
pub struct SharedRwLock;

/// A record that the style data is read under the lock.
#[derive(Clone, Copy, Debug, PartialEq, Eq, Structural)]
pub struct SharedRwLockReadGuard;

impl SharedRwLock {
    pub fn new() -> (lock: Self)
        ensures
            lock == SharedRwLock,
    {
        SharedRwLock
    }

    /// Locks the style data for reading.
    pub fn read(&self) -> (guard: SharedRwLockReadGuard)
        ensures
            guard == SharedRwLockReadGuard,
    {
        SharedRwLockReadGuard
    }
}

/// The read guards for the two origins of style sheets.
#[derive(Clone, Copy, Debug)]
pub struct StylesheetGuards<'a> {
    pub author: &'a SharedRwLockReadGuard,
    pub ua_or_user: &'a SharedRwLockReadGuard,
}

/// The count of the snapshots of elements whose attributes changed since
/// the last restyle. The document of the harness never changes, so there
/// is none. The table itself is the style engine's and is kept where the
/// engine runs.
#[derive(Clone, Copy, Debug, PartialEq, Eq, Structural)]
pub struct SnapshotMap {
    pub snapshots: usize,
}

impl SnapshotMap {
    pub fn new() -> (table: Self)
        ensures
            table.snapshots == 0,
    {
        SnapshotMap { snapshots: 0 }
    }
}

/// What every worker of a style traversal shares.
pub struct SharedStyleContext<'a, P> {
    pub stylist: &'a Stylist,
    pub visited_styles_enabled: bool,
    pub guards: StylesheetGuards<'a>,
    /// The time that animations are sampled at, in milliseconds.
    pub current_time_for_animations: u64,
    /// The bits of the traversal flags; none is set.
    pub traversal_flags: u8,
    pub snapshot_map: &'a SnapshotMap,
    /// The number of documents with running animations.
    pub animations: usize,
    pub registered_speculative_painters: &'a P,
}

/// Runs the style traversal from `root`, unless the pre-check finds that
/// no element needs it. `Some` holds what the traversal returned: the
/// topmost node that needs layout.
pub fn resolve_style<E, C, V>(
    root: E,
    traversal: V,
    pre_traverse: C,
    pool: Option<&ThreadPool>,
) -> (dirty_root: Option<E>)
    where C: FnOnce(&E) -> bool, V: FnOnce(E, Option<&ThreadPool>) -> E
    requires
        call_requires(pre_traverse, (&root,)),
        call_requires(traversal, (root, pool)),
    ensures
        match dirty_root {
            Some(node) => call_ensures(pre_traverse, (&root,), true) && call_ensures(
                traversal,
                (root, pool),
                node,
            ),
            None => call_ensures(pre_traverse, (&root,), false),
        },
{
    if pre_traverse(&root) {
        Some(traversal(root, pool))
    } else {
        None
    }
}

/// What a node of the document is to the style traversal.
#[derive(Clone, Copy, Debug, PartialEq, Eq, Structural)]
pub enum NodeClass {
    Element,
    Text,
}

/// What the traversal does at one node, in this order.
#[derive(Clone, Copy, Debug, PartialEq, Eq, Structural)]
pub enum StyleWork {
    /// Nothing: the node takes its style from its parent element.
    Skip,
    /// Make sure the element has style data, recompute its style, then
    /// clear its mark of dirty descendants.
    Recalc,
}

/// The traversal that recomputes the style of every element that needs it.
pub struct RecalcStyle<'a, P> {
    context: &'a SharedStyleContext<'a, P>,
}

impl<'a, P> RecalcStyle<'a, P> {
    pub closed spec fn spec_context(&self) -> &'a SharedStyleContext<'a, P> {
        self.context
    }

    pub fn new(context: &'a SharedStyleContext<'a, P>) -> (traversal: Self)
        ensures
            traversal.spec_context() == context,
    {
        RecalcStyle { context }
    }

    /// What a node gets on the way down.
    pub open spec fn spec_process_preorder(node: NodeClass) -> StyleWork {
        match node {
            NodeClass::Text => StyleWork::Skip,
            NodeClass::Element => StyleWork::Recalc,
        }
    }

    /// What the traversal does at `node` on the way down: text nodes are
    /// skipped, elements are restyled.
    pub fn process_preorder(&self, node: NodeClass) -> (work: StyleWork)
        ensures
            work == Self::spec_process_preorder(node),
    {
        match node {
            NodeClass::Text => StyleWork::Skip,
            NodeClass::Element => StyleWork::Recalc,
        }
    }

    /// The traversal does all its work on the way down.
    pub fn needs_postorder_traversal() -> (needed: bool)
        ensures
            !needed,
    {
        false
    }

    pub fn shared_context(&self) -> (context: &'a SharedStyleContext<'a, P>)
        ensures
            context == self.spec_context(),
    {
        self.context
    }
}

} // verus!
