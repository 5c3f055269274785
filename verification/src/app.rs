//! The window-side state machine of the harness, and the production stage
//! that re-derives the fixed document on a fixed period.

use vstd::prelude::*;
use blitz_dom::BaseDocument;
use crossbeam_channel::{Receiver, Sender};
use crate::channel::offer;
use crate::parse::{
    document_nodes, parse_base_document, parse_opts, parsed_nodes, spec_document_topology,
    spec_table_subtree,
};
use crate::options::{DebugOptions, WindowSize};
use crate::style::{
    FontMetricsSource, QuirksMode, SharedRwLock, SharedStyleContext, SnapshotMap, Stylist,
    StylesheetGuards,
};
use crate::transaction::{frame, Epoch, PipelineId, Transaction};
use crate::util::{
    make_device, make_shared_style_context, make_stylist, spec_make_device, CompositorSpinner,
    CompositorStarted, Running, ShutdownState,
};

verus! {

/// The document that the harness shows.
pub const SIMPLE_TEST_HTML: &'static str = r#"
<!DOCTYPE html>
<html>
<head>
    <title>This is title</title>
</head>
<body>
    <h1>header 1</h1>
    <p>This is a simple paragraph in my HTML document</p>
    Here's some additional text outside of the paragraph tags
    <p>This is a para</p>
</body>
</html>
"#;

/// The time between two production cycles, in milliseconds.
pub const PRODUCTION_PERIOD_MS: u64 = 500;

/// The time between two wake ticks, in milliseconds.
pub const WAKE_PERIOD_MS: u64 = 50;

/// The capacity of the startup barrier.
pub const STARTUP_BARRIER_CAPACITY: usize = 1;

/// Where the production stage stands.
#[derive(Clone, Copy, Debug, PartialEq, Eq, Structural)]
pub enum StageState {
    /// The startup barrier has not resolved: no layout work may be done.
    AwaitingStartup,
    /// The compositor stage is ready: cycles run.
    Ready,
    /// The stage has ended: the barrier or the queue was disconnected, or
    /// the epochs ran out.
    Stopped,
}

/// The production stage as the contracts speak of it: its state, and the
/// number of cycles that it has run. Each cycle enters the layout phase
/// once and uses one epoch, so the count is also the count of layout
/// phases entered, and the epoch of the next frame.
pub struct Production {
    pub state: StageState,
    pub cycles: u32,
}

/// What one call for a production cycle came to.
#[derive(Clone, Copy, Debug, PartialEq, Eq, Structural)]
pub enum Cycle {
    /// The stage is not running: nothing was done.
    Idle,
    /// One transaction with this epoch is in the queue. Sleep for the
    /// period, then run the next cycle.
    Produced(Epoch),
    /// The stage has ended: leave the loop.
    Finished,
}

/// The production stage after the startup barrier resolved: with a
/// signal, or by disconnection.
pub open spec fn spec_startup(production: Production, signalled: bool) -> Production {
    if production.state == StageState::AwaitingStartup {
        Production {
            state: if signalled {
                StageState::Ready
            } else {
                StageState::Stopped
            },
            cycles: production.cycles,
        }
    } else {
        production
    }
}

/// The production stage after a call for a cycle, and what the call came
/// to. `pushed` says whether the queue took the transaction.
pub open spec fn spec_cycle(production: Production, pushed: bool) -> (Production, Cycle) {
    if production.state != StageState::Ready {
        (production, Cycle::Idle)
    } else if production.cycles == u32::MAX {
        (Production { state: StageState::Stopped, cycles: production.cycles }, Cycle::Finished)
    } else if pushed {
        (
            Production { state: StageState::Ready, cycles: (production.cycles + 1) as u32 },
            Cycle::Produced(Epoch(production.cycles)),
        )
    } else {
        (
            Production { state: StageState::Stopped, cycles: (production.cycles + 1) as u32 },
            Cycle::Finished,
        )
    }
}

/// Proof that the layout phase is entered: the style and layout engine may
/// be called while the value lives. Only a production cycle makes one: it
/// enters the phase before it parses and leaves it when the transaction is
/// pushed.
pub struct LayoutPhase {
    entry: u32,
}

impl LayoutPhase {
    /// How many layout phases the stage had left behind when this one was
    /// entered.
    pub closed spec fn spec_entry(&self) -> u32 {
        self.entry
    }

    pub fn entry(&self) -> (entry: u32)
        ensures
            entry == self.spec_entry(),
    {
        self.entry
    }
}

/// What the document engine gets for one cycle.
pub struct LayoutRequest<'a, P> {
    pub phase: &'a LayoutPhase,
    /// The text of the document.
    pub text: &'static str,
    /// The document, parsed from the text in this cycle.
    pub document: BaseDocument,
    /// The context of the style traversal of this cycle.
    pub style_context: SharedStyleContext<'a, P>,
    pub viewport_size: WindowSize,
    pub pipeline_id: PipelineId,
    pub epoch: Epoch,
    pub debug_options: DebugOptions,
}

/// The production stage: it owns the style configuration and the producer
/// end of the transaction queue.
#[verifier::reject_recursive_types(D)]
pub struct MainThread<P, D> {
    stylist: Stylist,
    snapshot_map: SnapshotMap,
    guard: SharedRwLock,
    registered_speculative_painters: P,
    debug_options: DebugOptions,
    txn_tx: Sender<Transaction<D>>,
    pipeline_id: PipelineId,
    state: StageState,
    cycles: u32,
}

impl<P, D> View for MainThread<P, D> {
    type V = Production;

    closed spec fn view(&self) -> Production {
        Production { state: self.state, cycles: self.cycles }
    }
}

impl<P, D> MainThread<P, D> {
    pub closed spec fn spec_stylist(&self) -> Stylist {
        self.stylist
    }

    pub closed spec fn spec_pipeline_id(&self) -> PipelineId {
        self.pipeline_id
    }

    pub closed spec fn spec_debug_options(&self) -> DebugOptions {
        self.debug_options
    }

    /// The table of snapshots that the style traversals read.
    pub closed spec fn spec_snapshot_map(&self) -> SnapshotMap {
        self.snapshot_map
    }

    /// The lock under which the cycles read the style data.
    pub closed spec fn spec_lock(&self) -> SharedRwLock {
        self.guard
    }

    /// The producer end of the transaction queue.
    pub closed spec fn spec_queue(&self) -> Sender<Transaction<D>> {
        self.txn_tx
    }

    pub closed spec fn spec_painters(&self) -> P {
        self.registered_speculative_painters
    }

    /// Whether `request` is what the next cycle of the stage hands to the
    /// document engine: the fixed text with the document parsed from it,
    /// the stage's style configuration, viewport, pipeline and debug
    /// options, and the next epoch.
    pub open spec fn spec_request(&self, request: LayoutRequest<P>) -> bool {
        &&& request.phase.spec_entry() == self@.cycles
        &&& request.text == SIMPLE_TEST_HTML
        &&& document_nodes(request.document) == parsed_nodes(SIMPLE_TEST_HTML@)
        &&& *request.style_context.stylist == self.spec_stylist()
        &&& !request.style_context.visited_styles_enabled
        &&& request.style_context.current_time_for_animations == 0
        &&& request.style_context.traversal_flags == 0
        &&& *request.style_context.snapshot_map == self.spec_snapshot_map()
        &&& request.style_context.animations == 0
        &&& *request.style_context.registered_speculative_painters == self.spec_painters()
        &&& request.viewport_size == self.spec_stylist().device.viewport_size
        &&& request.pipeline_id == self.spec_pipeline_id()
        &&& request.epoch == Epoch(self@.cycles)
        &&& request.debug_options == self.spec_debug_options()
    }

    /// A stage for a viewport of `viewport_size` that waits for the
    /// startup barrier. It has run no cycle.
    pub fn new(
        viewport_size: WindowSize,
        registered_speculative_painters: P,
        debug_options: DebugOptions,
        txn_tx: Sender<Transaction<D>>,
    ) -> (stage: Self)
        ensures
            stage@ == (Production { state: StageState::AwaitingStartup, cycles: 0 }),
            stage.spec_stylist() == (Stylist {
                device: spec_make_device(viewport_size, FontMetricsSource::Layout),
                quirks_mode: QuirksMode::NoQuirks,
            }),
            stage.spec_painters() == registered_speculative_painters,
            stage.spec_queue() == txn_tx,
            stage.spec_snapshot_map().snapshots == 0,
            stage.spec_pipeline_id() == PipelineId(u32::MAX, u32::MAX),
            stage.spec_debug_options() == debug_options,
    {
        let device = make_device(viewport_size, FontMetricsSource::Layout);
        MainThread {
            stylist: make_stylist(device),
            snapshot_map: SnapshotMap::new(),
            guard: SharedRwLock::new(),
            registered_speculative_painters,
            debug_options,
            txn_tx,
            pipeline_id: PipelineId::dummy(),
            state: StageState::AwaitingStartup,
            cycles: 0,
        }
    }

    pub fn state(&self) -> (state: StageState)
        ensures
            state == self@.state,
    {
        self.state
    }

    /// The number of layout phases that the stage has entered.
    pub fn layout_phases(&self) -> (count: u32)
        ensures
            count == self@.cycles,
    {
        self.cycles
    }

    pub fn pipeline_id(&self) -> (id: PipelineId)
        ensures
            id == self.spec_pipeline_id(),
    {
        self.pipeline_id
    }

    /// Takes what the wait on the startup barrier came to: the signal, or
    /// `None` when the barrier was disconnected before it was signalled.
    pub fn startup(&mut self, signal: Option<CompositorStarted>)
        ensures
            final(self)@ == spec_startup(old(self)@, signal is Some),
            final(self).spec_stylist() == old(self).spec_stylist(),
            final(self).spec_pipeline_id() == old(self).spec_pipeline_id(),
            final(self).spec_debug_options() == old(self).spec_debug_options(),
            final(self).spec_painters() == old(self).spec_painters(),
            final(self).spec_lock() == old(self).spec_lock(),
            final(self).spec_queue() == old(self).spec_queue(),
            final(self).spec_snapshot_map() == old(self).spec_snapshot_map(),
    {
        match self.state {
            StageState::AwaitingStartup => {
                self.state = match signal {
                    Some(_) => StageState::Ready,
                    None => StageState::Stopped,
                };
            },
            _ => {},
        }
    }

    /// One production cycle: enter the layout phase, parse the fixed text,
    /// have the document engine derive the display list of the document,
    /// wrap it into a transaction with the stage's pipeline and the next
    /// epoch, and push that onto the queue. A stage that is not `Ready`
    /// does nothing. The engine is asked for nothing but the request of
    /// this cycle.
    pub fn parse_style_layout<F>(&mut self, document_engine: F) -> (cycle: Cycle)
        where F: FnOnce(LayoutRequest<P>) -> D
        requires
            forall|request: LayoutRequest<P>|
                old(self).spec_request(request) ==> #[trigger] call_requires(document_engine, (request,)),
        ensures
            (final(self)@, cycle) == spec_cycle(old(self)@, cycle is Produced),
            old(self)@.state == StageState::Ready && old(self)@.cycles < u32::MAX ==> exists|
                request: LayoutRequest<P>,
                display_list: D,
            |
                old(self).spec_request(request) && #[trigger] call_ensures(
                    document_engine,
                    (request,),
                    display_list,
                ),
            final(self).spec_stylist() == old(self).spec_stylist(),
            final(self).spec_pipeline_id() == old(self).spec_pipeline_id(),
            final(self).spec_debug_options() == old(self).spec_debug_options(),
            final(self).spec_painters() == old(self).spec_painters(),
            final(self).spec_lock() == old(self).spec_lock(),
            final(self).spec_queue() == old(self).spec_queue(),
            final(self).spec_snapshot_map() == old(self).spec_snapshot_map(),
    {
        match self.state {
            StageState::Ready => {},
            _ => {
                return Cycle::Idle;
            },
        }
        if self.cycles == u32::MAX {
            self.state = StageState::Stopped;
            return Cycle::Finished;
        }
        let epoch = Epoch(self.cycles);
        let phase = LayoutPhase { entry: self.cycles };
        let author = self.guard.read();
        let ua_or_user = self.guard.read();
        let guards = StylesheetGuards { author: &author, ua_or_user: &ua_or_user };
        let style_context = make_shared_style_context(
            &self.stylist,
            guards,
            &self.snapshot_map,
            &self.registered_speculative_painters,
        );
        let document = match parse_base_document(SIMPLE_TEST_HTML, parse_opts()) {
            Ok(document) => document,
            Err(_) => unreached(),
        };
        let request = LayoutRequest {
            phase: &phase,
            text: SIMPLE_TEST_HTML,
            document,
            style_context,
            viewport_size: self.stylist.device.viewport_size,
            pipeline_id: self.pipeline_id,
            epoch,
            debug_options: self.debug_options,
        };
        assert(self.spec_request(request));
        let display_list = document_engine(request);
        self.cycles = self.cycles + 1;
        let transaction = frame(epoch, self.pipeline_id, display_list);
        match offer(&self.txn_tx, transaction) {
            Ok(_) => Cycle::Produced(epoch),
            Err(_) => {
                self.state = StageState::Stopped;
                Cycle::Finished
            },
        }
    }
}

/// What happens to the production stage, one event at a time.
#[derive(Clone, Copy, Debug, PartialEq, Eq, Structural)]
pub enum ProductionEvent {
    /// The wait on the startup barrier ended: with the signal, or not.
    Startup { signalled: bool },
    /// A cycle was called for; the queue took its transaction, or not.
    Cycle { pushed: bool },
}

/// The production stage after one event.
pub open spec fn spec_production_step(production: Production, event: ProductionEvent) -> Production {
    match event {
        ProductionEvent::Startup { signalled } => spec_startup(production, signalled),
        ProductionEvent::Cycle { pushed } => spec_cycle(production, pushed).0,
    }
}

/// The production stage after the first `n` of a run of events, from its
/// construction.
pub open spec fn spec_production_after(events: Seq<ProductionEvent>, n: nat) -> Production
    decreases n,
{
    if n == 0 {
        Production { state: StageState::AwaitingStartup, cycles: 0 }
    } else {
        spec_production_step(spec_production_after(events, (n - 1) as nat), events[n - 1])
    }
}

/// The epoch of the transaction that event `i` of a run put into the
/// queue, if it put one there.
pub open spec fn spec_produced_at(events: Seq<ProductionEvent>, i: nat) -> Option<Epoch> {
    match events[i as int] {
        ProductionEvent::Cycle { pushed } => match spec_cycle(spec_production_after(events, i), pushed).1 {
            Cycle::Produced(epoch) => Some(epoch),
            _ => None,
        },
        _ => None,
    }
}

/// No premature production. Until the startup barrier resolves with the
/// signal, the stage is not `Ready` and has entered no layout phase,
/// however often a cycle is called for.
pub proof fn lemma_no_premature_production(events: Seq<ProductionEvent>, n: nat)
    requires
        forall|i: int| 0 <= i < n ==> events[i] != (ProductionEvent::Startup { signalled: true }),
    ensures
        spec_production_after(events, n).cycles == 0,
        spec_production_after(events, n).state != StageState::Ready,
    decreases n,
{
    if n > 0 {
        lemma_no_premature_production(events, (n - 1) as nat);
    }
}

/// The count of cycles never goes down along a run.
pub proof fn lemma_cycles_grow(events: Seq<ProductionEvent>, m: nat, n: nat)
    requires
        m <= n,
    ensures
        spec_production_after(events, m).cycles <= spec_production_after(events, n).cycles,
    decreases n,
{
    if m < n {
        lemma_cycles_grow(events, m, (n - 1) as nat);
    }
}

/// Epochs grow. Of two transactions that a run put into the queue, the
/// later one has the larger epoch.
pub proof fn lemma_epochs_increase(events: Seq<ProductionEvent>, i: nat, j: nat)
    requires
        i < j,
        spec_produced_at(events, i) is Some,
        spec_produced_at(events, j) is Some,
    ensures
        spec_produced_at(events, i) matches Some(earlier) && spec_produced_at(events, j) matches Some(
            later,
        ) && earlier.0 < later.0,
{
    lemma_cycles_grow(events, i + 1, j);
}

/// A stopped stage stays stopped: after the queue is disconnected, no
/// event makes the stage produce again.
pub proof fn lemma_stopped_is_final(events: Seq<ProductionEvent>, m: nat, n: nat)
    requires
        m <= n,
        spec_production_after(events, m).state == StageState::Stopped,
    ensures
        spec_production_after(events, n) == spec_production_after(events, m),
    decreases n,
{
    if m < n {
        lemma_stopped_is_final(events, m, (n - 1) as nat);
    }
}

/// Every cycle parses the same document. What two cycles hand to the
/// document engine, of one stage or of two, are documents with the same
/// nodes: the same count of nodes, and the same tags in the same order.
pub proof fn lemma_cycles_parse_the_same_document<P, D>(
    earlier: MainThread<P, D>,
    later: MainThread<P, D>,
    first: LayoutRequest<P>,
    second: LayoutRequest<P>,
    depth: nat,
)
    requires
        earlier.spec_request(first),
        later.spec_request(second),
    ensures
        document_nodes(first.document) == document_nodes(second.document),
        spec_table_subtree(document_nodes(first.document), 0, depth) == spec_table_subtree(
            document_nodes(second.document),
            0,
            depth,
        ),
        spec_table_subtree(document_nodes(first.document), 0, depth) == spec_document_topology(
            SIMPLE_TEST_HTML@,
            depth,
        ),
{
}

/// What the waker thread does after a wake tick.
#[derive(Clone, Copy, Debug, PartialEq, Eq, Structural)]
pub enum WakerStep {
    /// Sleep this many milliseconds, then send the next tick.
    Sleep(u64),
    /// The event loop is gone: leave the loop.
    Exit,
}

/// The waker: it sends a tick into the event loop once per period, for as
/// long as the event loop takes them.
#[derive(Clone, Copy, Debug, PartialEq, Eq, Structural)]
pub struct Waker {
    pub period_ms: u64,
    pub alive: bool,
}

/// The waker after a tick was sent, and what it does next.
pub open spec fn spec_tick(waker: Waker, delivered: bool) -> (Waker, WakerStep) {
    if waker.alive && delivered {
        (waker, WakerStep::Sleep(waker.period_ms))
    } else {
        (Waker { period_ms: waker.period_ms, alive: false }, WakerStep::Exit)
    }
}

impl Waker {
    pub fn new(period_ms: u64) -> (waker: Self)
        ensures
            waker == (Waker { period_ms, alive: true }),
    {
        Waker { period_ms, alive: true }
    }

    /// Takes what sending a tick came to. A tick that the event loop did
    /// not take ends the waker, for good.
    pub fn tick(&mut self, delivered: bool) -> (step: WakerStep)
        ensures
            (*final(self), step) == spec_tick(*old(self), delivered),
    {
        if self.alive && delivered {
            WakerStep::Sleep(self.period_ms)
        } else {
            self.alive = false;
            WakerStep::Exit
        }
    }
}

impl Default for Waker {
    fn default() -> (waker: Self)
        ensures
            waker == (Waker { period_ms: WAKE_PERIOD_MS, alive: true }),
    {
        Waker { period_ms: WAKE_PERIOD_MS, alive: true }
    }
}

/// What the window system tells the application.
#[derive(Clone, Copy, Debug, PartialEq, Eq, Structural)]
pub enum WindowEvent {
    /// The window asks for its content to be drawn.
    RedrawRequested,
    /// Any other event of the window.
    Other,
}

/// What the production thread and the waker thread are started with.
#[verifier::reject_recursive_types(D)]
pub struct ProductionSeed<D> {
    /// The receiving end of the startup barrier.
    pub startup: Receiver<CompositorStarted>,
    /// The producer end of the transaction queue.
    pub txn_tx: Sender<Transaction<D>>,
    pub viewport_size: WindowSize,
    pub debug_options: DebugOptions,
    pub production_period_ms: u64,
    pub waker: Waker,
}

/// What a window callback asks of the collaborators outside this library,
/// in the order in which it is to be done.
#[derive(Clone, Copy, Debug, PartialEq, Eq, Structural)]
pub enum Command {
    /// Have the engine render the current frame to the surface. A frame
    /// that fails to render is reported and nothing more.
    Render,
    /// Present the surface, whatever rendering came to.
    Present,
    /// Run one poll cycle of the compositor stage.
    Poll,
}

/// What a `resumed` callback came to.
#[derive(Clone, Copy, Debug, PartialEq, Eq, Structural)]
pub enum Resumed {
    /// The topology was constructed: the application is running.
    Started,
    /// The application was running already: nothing was done.
    AlreadyRunning,
}

/// The lifecycle of the application, as the contracts speak of it.
#[derive(Clone, Copy, Debug, PartialEq, Eq, Structural)]
pub enum Phase {
    /// No thread is started yet.
    Initial,
    /// The topology is constructed and polled.
    Running,
    /// A poll came to `Stop`: shutdown is in progress, polling has ended.
    Stopped,
}

/// The phase after a `resumed` callback, and what the callback came to.
pub open spec fn spec_resume(phase: Phase) -> (Phase, Resumed) {
    match phase {
        Phase::Initial => (Phase::Running, Resumed::Started),
        _ => (phase, Resumed::AlreadyRunning),
    }
}

/// The phase after a callback that polls, and what the poll came to.
/// `observed` is the result of the poll cycle, where one is run.
pub open spec fn spec_poll(phase: Phase, observed: Running) -> (Phase, Option<Running>) {
    match phase {
        Phase::Initial => (Phase::Initial, None),
        Phase::Running => (
            if observed == Running::Stop {
                Phase::Stopped
            } else {
                Phase::Running
            },
            Some(observed),
        ),
        Phase::Stopped => (Phase::Stopped, Some(Running::Stop)),
    }
}

/// What a window callback asks for: a request to redraw is answered
/// first, once the topology is constructed, by rendering and presenting;
/// then one poll cycle follows, while the application runs. A wake tick
/// is a callback without an event of the window.
pub open spec fn spec_commands(phase: Phase, event: Option<WindowEvent>) -> Seq<Command> {
    let redraw = if phase != Phase::Initial && event == Some(WindowEvent::RedrawRequested) {
        seq![Command::Render, Command::Present]
    } else {
        Seq::empty()
    };
    if phase == Phase::Running {
        redraw.push(Command::Poll)
    } else {
        redraw
    }
}

/// What a poll of the application came to.
pub struct AppPoll<T> {
    /// The result of the poll cycle; `None` where the application has
    /// nothing to poll yet.
    pub polled: Option<Running>,
    /// The transaction that the cycle took: the engine is to generate a
    /// frame from it and submit it to the renderer.
    pub frame: Option<T>,
    /// Whether the window is to be asked for a redraw.
    pub request_redraw: bool,
}

#[verifier::reject_recursive_types(M)]
#[verifier::reject_recursive_types(D)]
enum AppState<M, D> {
    Initial { size: WindowSize, debug_options: DebugOptions },
    Running { compositor_spinner: CompositorSpinner<M, Transaction<D>>, stopped: bool },
}

/// The application: the one authority over the lifecycle of the process,
/// on the window thread.
#[verifier::reject_recursive_types(M)]
#[verifier::reject_recursive_types(D)]
pub struct App<M, D> {
    state: AppState<M, D>,
}

impl<M, D> App<M, D> {
    pub closed spec fn phase(&self) -> Phase {
        match self.state {
            AppState::Initial { .. } => Phase::Initial,
            AppState::Running { stopped, .. } => if stopped {
                Phase::Stopped
            } else {
                Phase::Running
            },
        }
    }

    /// The size that the window is created with. It is known while the
    /// application is in its initial phase.
    pub closed spec fn spec_size(&self) -> Option<WindowSize> {
        match self.state {
            AppState::Initial { size, .. } => Some(size),
            AppState::Running { .. } => None,
        }
    }

    pub closed spec fn spec_debug_options(&self) -> Option<DebugOptions> {
        match self.state {
            AppState::Initial { debug_options, .. } => Some(debug_options),
            AppState::Running { .. } => None,
        }
    }

    /// The receiving end of the inbox that the compositor stage drains,
    /// once the topology is constructed.
    pub closed spec fn spec_inbox(&self) -> Option<Receiver<M>> {
        match self.state {
            AppState::Initial { .. } => None,
            AppState::Running { compositor_spinner, .. } => Some(compositor_spinner.spec_inbox()),
        }
    }

    /// Whether `seed` is what `resumed` starts the threads with: the
    /// application's size as the viewport, its debug options, and the two
    /// periods.
    pub open spec fn spec_seeds(&self, seed: ProductionSeed<D>) -> bool {
        &&& self.spec_size() == Some(seed.viewport_size)
        &&& self.spec_debug_options() == Some(seed.debug_options)
        &&& seed.production_period_ms == PRODUCTION_PERIOD_MS
        &&& seed.waker == (Waker { period_ms: WAKE_PERIOD_MS, alive: true })
    }

    /// An application that has started nothing yet.
    pub fn new(size: WindowSize, debug_options: DebugOptions) -> (app: Self)
        ensures
            app.phase() == Phase::Initial,
            app.spec_size() == Some(size),
            app.spec_debug_options() == Some(debug_options),
    {
        App { state: AppState::Initial { size, debug_options } }
    }

    pub fn current_phase(&self) -> (phase: Phase)
        ensures
            phase == self.phase(),
    {
        match &self.state {
            AppState::Initial { .. } => Phase::Initial,
            AppState::Running { stopped, .. } => if *stopped {
                Phase::Stopped
            } else {
                Phase::Running
            },
        }
    }

    /// The window system has resumed the application. The first call
    /// constructs the topology, in this order: `platform` makes the
    /// compositor's channel, the profiling sinks, the channel that discards
    /// what is meant for the constellation, and the window of the
    /// application's size with its surface; the transaction queue and the
    /// startup barrier are made; `compositor` builds the renderer and the
    /// engine and hands out the receiving end of the engine's inbox; the
    /// compositor stage takes over and signals the barrier; `threads`
    /// starts the production thread and the waker thread. A step that
    /// cannot be done does not return: there is no second window to fall
    /// back to. Every later call does nothing.
    pub fn resumed<PF, CF, TF>(&mut self, platform: PF, compositor: CF, threads: TF) -> (resumed: Resumed)
        where PF: FnOnce(WindowSize), CF: FnOnce() -> Receiver<M>, TF: FnOnce(ProductionSeed<D>)
        requires
            old(self).spec_size() matches Some(size) ==> call_requires(platform, (size,)),
            call_requires(compositor, ()),
            forall|seed: ProductionSeed<D>|
                old(self).spec_seeds(seed) ==> #[trigger] call_requires(threads, (seed,)),
        ensures
            (final(self).phase(), resumed) == spec_resume(old(self).phase()),
            resumed == Resumed::AlreadyRunning ==> *final(self) == *old(self),
            resumed == Resumed::Started ==> {
                &&& old(self).spec_size() matches Some(size) && call_ensures(platform, (size,), ())
                &&& exists|inbox: Receiver<M>|
                    final(self).spec_inbox() == Some(inbox) && #[trigger] call_ensures(
                        compositor,
                        (),
                        inbox,
                    )
                &&& exists|seed: ProductionSeed<D>|
                    old(self).spec_seeds(seed) && #[trigger] call_ensures(threads, (seed,), ())
            },
    {
        let (size, debug_options) = match &self.state {
            AppState::Initial { size, debug_options } => (*size, *debug_options),
            AppState::Running { .. } => {
                return Resumed::AlreadyRunning;
            },
        };
        platform(size);
        let (txn_tx, txn_rx) = crossbeam_channel::unbounded::<Transaction<D>>();
        let (started_tx, started_rx) = crossbeam_channel::bounded::<CompositorStarted>(
            STARTUP_BARRIER_CAPACITY,
        );
        let inbox = compositor();
        let ghost given = inbox;
        let compositor_spinner = CompositorSpinner::new(inbox, txn_rx, started_tx);
        let seed = ProductionSeed {
            startup: started_rx,
            txn_tx,
            viewport_size: size,
            debug_options,
            production_period_ms: PRODUCTION_PERIOD_MS,
            waker: Waker::default(),
        };
        let ghost seeded = seed;
        assert(self.spec_seeds(seeded));
        threads(seed);
        assert(call_ensures(threads, (seeded,), ()));
        self.state = AppState::Running { compositor_spinner, stopped: false };
        assert(self.spec_inbox() == Some(given));
        assert(call_ensures(compositor, (), given));
        Resumed::Started
    }

    /// A wake tick has arrived: what is to be done, in order.
    pub fn user_event(&self) -> (commands: Vec<Command>)
        ensures
            commands@ == spec_commands(self.phase(), None),
    {
        let mut commands: Vec<Command> = Vec::new();
        match self.current_phase() {
            Phase::Running => {
                commands.push(Command::Poll);
            },
            _ => {},
        }
        assert(commands@ =~= spec_commands(self.phase(), None));
        commands
    }

    /// An event of the window has arrived: what is to be done, in order. A
    /// request to redraw is answered first, once the topology is
    /// constructed: the engine renders, and the surface is presented
    /// whether or not that succeeded. Then the compositor stage is polled,
    /// while the application runs.
    pub fn window_event(&self, event: WindowEvent) -> (commands: Vec<Command>)
        ensures
            commands@ == spec_commands(self.phase(), Some(event)),
    {
        let mut commands: Vec<Command> = Vec::new();
        let phase = self.current_phase();
        match event {
            WindowEvent::RedrawRequested => {
                match phase {
                    Phase::Initial => {},
                    _ => {
                        commands.push(Command::Render);
                        commands.push(Command::Present);
                    },
                }
            },
            WindowEvent::Other => {},
        }
        match phase {
            Phase::Running => {
                commands.push(Command::Poll);
            },
            _ => {},
        }
        assert(commands@ =~= spec_commands(self.phase(), Some(event)));
        commands
    }
}

/// Runs one poll cycle of the compositor stage, if the application runs,
/// and settles what follows from its result: on `RequestRedraw` the
/// window is to be asked for a redraw and the engine is to generate a
/// frame from the transaction; `Stop` is recorded and ends the polling.
/// An application that does not run is left as it is, and
/// `handle_messages` is not called.
pub fn spin_compositor_if_app_running<M, D, H>(app: &mut App<M, D>, handle_messages: H) -> (poll: AppPoll<
    Transaction<D>,
>)
    where H: FnOnce(Vec<M>) -> ShutdownState
    requires
        forall|batch: Vec<M>| #[trigger] call_requires(handle_messages, (batch,)),
    ensures
        (final(app).phase(), poll.polled) == spec_poll(
            old(app).phase(),
            match poll.polled {
                Some(observed) => observed,
                None => Running::Stop,
            },
        ),
        old(app).phase() != Phase::Running ==> *final(app) == *old(app),
        final(app).spec_inbox() == old(app).spec_inbox(),
        old(app).phase() == Phase::Running && poll.polled != Some(Running::Stop) ==> exists|
            batch: Vec<M>,
        | #[trigger] call_ensures(handle_messages, (batch,), ShutdownState::NotShuttingDown),
        (poll.frame is Some) == (poll.polled == Some(Running::RequestRedraw)),
        poll.request_redraw == (poll.polled == Some(Running::RequestRedraw)),
{
    match &mut app.state {
        AppState::Initial { .. } => AppPoll { polled: None, frame: None, request_redraw: false },
        AppState::Running { compositor_spinner, stopped } => {
            if *stopped {
                return AppPoll { polled: Some(Running::Stop), frame: None, request_redraw: false };
            }
            let spun = compositor_spinner.spin(handle_messages);
            match spun.result {
                Running::Stop => {
                    *stopped = true;
                    AppPoll { polled: Some(Running::Stop), frame: spun.frame, request_redraw: false }
                },
                Running::RequestRedraw => AppPoll {
                    polled: Some(Running::RequestRedraw),
                    frame: spun.frame,
                    request_redraw: true,
                },
                Running::Continue => AppPoll {
                    polled: Some(Running::Continue),
                    frame: spun.frame,
                    request_redraw: false,
                },
            }
        },
    }
}

/// What happens to the application, one callback at a time.
#[derive(Clone, Copy, Debug, PartialEq, Eq, Structural)]
pub enum AppEvent {
    /// `resumed`.
    Resumed,
    /// A callback that polls; a poll cycle would come to `observed`.
    Polled { observed: Running },
}

/// The phase after one callback.
pub open spec fn spec_app_step(phase: Phase, event: AppEvent) -> Phase {
    match event {
        AppEvent::Resumed => spec_resume(phase).0,
        AppEvent::Polled { observed } => spec_poll(phase, observed).0,
    }
}

/// The phase after the first `n` of a run of callbacks, from construction.
pub open spec fn spec_phase_after(events: Seq<AppEvent>, n: nat) -> Phase
    decreases n,
{
    if n == 0 {
        Phase::Initial
    } else {
        spec_app_step(spec_phase_after(events, (n - 1) as nat), events[n - 1])
    }
}

/// Whether callback `i` of a run constructed the topology, and with it
/// signalled the startup barrier.
pub open spec fn spec_started_at(events: Seq<AppEvent>, i: nat) -> bool {
    events[i as int] == AppEvent::Resumed && spec_resume(spec_phase_after(events, i)).1
        == Resumed::Started
}

/// The transition out of the initial phase cannot be undone: an
/// application that has left it never returns to it.
pub proof fn lemma_running_is_irreversible(events: Seq<AppEvent>, m: nat, n: nat)
    requires
        m <= n,
        spec_phase_after(events, m) != Phase::Initial,
    ensures
        spec_phase_after(events, n) != Phase::Initial,
    decreases n,
{
    if m < n {
        lemma_running_is_irreversible(events, m, (n - 1) as nat);
    }
}

/// The topology is constructed at most once, so the startup barrier is
/// signalled at most once: of two callbacks of a run, not both start the
/// application.
pub proof fn lemma_single_startup(events: Seq<AppEvent>, i: nat, j: nat)
    requires
        i < j,
        spec_started_at(events, i),
    ensures
        !spec_started_at(events, j),
{
    lemma_running_is_irreversible(events, i + 1, j);
}

/// The first `resumed` of a run constructs the topology.
pub proof fn lemma_first_resume_starts(events: Seq<AppEvent>, i: nat)
    requires
        events[i as int] == AppEvent::Resumed,
        forall|j: int| 0 <= j < i ==> events[j] != AppEvent::Resumed,
    ensures
        spec_started_at(events, i),
    decreases i,
{
    lemma_initial_until_resumed(events, i);
}

/// An application that was never resumed is in its initial phase.
pub proof fn lemma_initial_until_resumed(events: Seq<AppEvent>, n: nat)
    requires
        forall|j: int| 0 <= j < n ==> events[j] != AppEvent::Resumed,
    ensures
        spec_phase_after(events, n) == Phase::Initial,
    decreases n,
{
    if n > 0 {
        lemma_initial_until_resumed(events, (n - 1) as nat);
    }
}

/// Polling ends with the first `Stop`: once a poll has come to `Stop`,
/// every later poll comes to `Stop` as well.
pub proof fn lemma_stop_is_final(events: Seq<AppEvent>, m: nat, n: nat)
    requires
        m <= n,
        spec_phase_after(events, m) == Phase::Stopped,
    ensures
        spec_phase_after(events, n) == Phase::Stopped,
    decreases n,
{
    if m < n {
        lemma_stop_is_final(events, m, (n - 1) as nat);
    }
}

} // verus!
