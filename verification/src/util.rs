//! The compositor stage: its poll result, its startup signal and the
//! spinner that drains the inbox before it takes a transaction.

use vstd::prelude::*;
use crossbeam_channel::{Receiver, Sender};
use crate::channel::{offer, try_receive, Polled};
use crate::options::WindowSize;
use crate::style::{
    Device, FontMetricsSource, MediaType, PrefersColorScheme, QuirksMode, SharedStyleContext,
    SnapshotMap, Stylist, StylesheetGuards,
};

verus! {

/// The unit value that the compositor stage sends through the startup
/// barrier once its renderer is bound to the surface.
#[derive(Clone, Copy, Debug, PartialEq, Eq, Structural)]
pub struct CompositorStarted;

/// What one poll cycle of the compositor stage came to.
#[derive(Clone, Copy, Debug, PartialEq, Eq, Structural)]
pub enum Running {
    /// A channel is disconnected or the engine is shutting down.
    Stop,
    /// A transaction was applied and the surface needs presentation.
    RequestRedraw,
    /// Nothing to do in this cycle.
    Continue,
}

/// Where the compositor engine stands with respect to shutdown, as it
/// reports after each command.
#[derive(Clone, Copy, Debug, PartialEq, Eq, Structural)]
pub enum ShutdownState {
    NotShuttingDown,
    ShuttingDown,
    FinishedShuttingDown,
}

/// Where a poll cycle stands.
#[derive(Clone, Copy, Debug, PartialEq, Eq, Structural)]
pub enum Stage {
    /// Collecting the control messages that wait in the inbox.
    Draining,
    /// The batch is with the engine.
    Handling,
    /// The engine has handled the batch and is not shutting down: the
    /// transaction queue is polled.
    Consuming,
    /// The cycle is over, with this result.
    Finished(Running),
}

/// What a cycle observes of the channels and of the engine.
#[derive(Clone, Copy, Debug, PartialEq, Eq, Structural)]
pub enum Seen {
    /// The inbox poll found a message; it joined the batch.
    InboxItem,
    InboxEmpty,
    InboxDisconnected,
    /// The engine has handled the batch and reports this state.
    Engine(ShutdownState),
    /// The queue poll found a transaction.
    QueueItem,
    QueueEmpty,
    QueueDisconnected,
}

/// The stage after one observation. `room` says whether the batch may
/// still grow: it does until it holds as many messages as can be counted.
/// An observation that does not answer the step of the stage changes
/// nothing.
pub open spec fn spec_advance(stage: Stage, seen: Seen, room: bool) -> Stage {
    match (stage, seen) {
        (Stage::Draining, Seen::InboxItem) => if room {
            Stage::Draining
        } else {
            Stage::Handling
        },
        (Stage::Draining, Seen::InboxEmpty) => Stage::Handling,
        (Stage::Draining, Seen::InboxDisconnected) => Stage::Finished(Running::Stop),
        (Stage::Handling, Seen::Engine(shutdown)) => if shutdown == ShutdownState::NotShuttingDown {
            Stage::Consuming
        } else {
            Stage::Finished(Running::Stop)
        },
        (Stage::Consuming, Seen::QueueItem) => Stage::Finished(Running::RequestRedraw),
        (Stage::Consuming, Seen::QueueEmpty) => Stage::Finished(Running::Continue),
        (Stage::Consuming, Seen::QueueDisconnected) => Stage::Finished(Running::Stop),
        _ => stage,
    }
}

/// The stage of a cycle after the first `n` of its observations, each
/// with the room that the batch had when it was made.
pub open spec fn spec_stage_after(seen: Seq<(Seen, bool)>, n: nat) -> Stage
    decreases n,
{
    if n == 0 {
        Stage::Draining
    } else {
        spec_advance(spec_stage_after(seen, (n - 1) as nat), seen[n - 1].0, seen[n - 1].1)
    }
}

/// The batch and the observation after one inbox poll.
pub open spec fn spec_note_inbox<M>(batch: Seq<M>, polled: Polled<M>) -> (Seq<M>, Seen) {
    match polled {
        Polled::Item(message) => (batch.push(message), Seen::InboxItem),
        Polled::Empty => (batch, Seen::InboxEmpty),
        Polled::Disconnected => (batch, Seen::InboxDisconnected),
    }
}

/// The observation that a queue poll makes, and the transaction it took.
pub open spec fn spec_note_queue<T>(polled: Polled<T>) -> (Seen, Option<T>) {
    match polled {
        Polled::Item(transaction) => (Seen::QueueItem, Some(transaction)),
        Polled::Empty => (Seen::QueueEmpty, None),
        Polled::Disconnected => (Seen::QueueDisconnected, None),
    }
}

/// The device of the harness: a screen of `viewport_size` without quirks,
/// one device pixel per CSS pixel, and a light colour scheme.
pub open spec fn spec_make_device(viewport_size: WindowSize, font_metrics: FontMetricsSource) -> Device {
    Device {
        media_type: MediaType::Screen,
        quirks_mode: QuirksMode::NoQuirks,
        viewport_size,
        device_pixel_ratio: 1,
        font_metrics,
        color_scheme: PrefersColorScheme::Light,
    }
}

pub fn make_device(viewport_size: WindowSize, font_metrics_provider: FontMetricsSource) -> (device: Device)
    ensures
        device == spec_make_device(viewport_size, font_metrics_provider),
{
    Device {
        media_type: MediaType::Screen,
        quirks_mode: QuirksMode::NoQuirks,
        viewport_size,
        device_pixel_ratio: 1,
        font_metrics: font_metrics_provider,
        color_scheme: PrefersColorScheme::Light,
    }
}

/// The style engine's configuration for `device`, without quirks.
pub fn make_stylist(device: Device) -> (stylist: Stylist)
    ensures
        stylist == (Stylist { device, quirks_mode: QuirksMode::NoQuirks }),
{
    Stylist { device, quirks_mode: QuirksMode::NoQuirks }
}

/// The context of one style traversal over a document that does not
/// animate: visited styles are off, the animation clock stands at zero,
/// and no traversal flag is set.
pub fn make_shared_style_context<'a, P>(
    stylist: &'a Stylist,
    guards: StylesheetGuards<'a>,
    snapshot_map: &'a SnapshotMap,
    registered_speculative_painters: &'a P,
) -> (context: SharedStyleContext<'a, P>)
    ensures
        context.stylist == stylist,
        !context.visited_styles_enabled,
        context.guards == guards,
        context.current_time_for_animations == 0,
        context.traversal_flags == 0,
        context.snapshot_map == snapshot_map,
        context.animations == 0,
        context.registered_speculative_painters == registered_speculative_painters,
{
    SharedStyleContext {
        stylist,
        visited_styles_enabled: false,
        guards,
        current_time_for_animations: 0,
        traversal_flags: 0,
        snapshot_map,
        animations: 0,
        registered_speculative_painters,
    }
}

/// How the renderer uploads textures.
#[derive(Clone, Copy, Debug, PartialEq, Eq, Structural)]
pub enum UploadMethod {
    /// Upload at once.
    Immediate,
    /// Upload through pixel buffers that are used one time.
    PixelBuffer,
}

/// The preferences that the renderer is configured from.
#[derive(Clone, Copy, Debug, PartialEq, Eq, Structural)]
pub struct RendererPrefs {
    /// The number of workers where the machine does not tell how many
    /// threads it runs in parallel.
    pub threadpools_fallback_worker_num: i64,
    /// The most workers that the renderer may have.
    pub threadpools_webrender_workers_max: i64,
    pub gfx_precache_shaders: bool,
    pub gfx_text_antialiasing_enabled: bool,
    pub gfx_subpixel_text_antialiasing_enabled: bool,
    pub gfx_texture_swizzling_enabled: bool,
}

/// The options that the renderer is created with.
#[derive(Clone, Copy, Debug, PartialEq, Eq, Structural)]
pub struct RendererOptions {
    pub use_optimized_shaders: bool,
    pub profiler_overlay: bool,
    /// Compile every shader at startup.
    pub precache_shaders: bool,
    pub enable_aa: bool,
    pub enable_subpixel_aa: bool,
    pub allow_texture_swizzling: bool,
    pub upload_method: UploadMethod,
    pub worker_threads: usize,
}

/// Whether the name of a graphics renderer says that it is ANGLE.
pub open spec fn spec_is_angle(renderer: Seq<char>) -> bool {
    renderer.len() >= 5 && renderer.subrange(0, 5) == seq!['A', 'N', 'G', 'L', 'E']
}

/// The most workers that the preferences allow: the maximum, which counts
/// as one where it is less than one, as far as the machine can count.
pub open spec fn spec_most_workers(prefs: RendererPrefs) -> int {
    let most: int = if prefs.threadpools_webrender_workers_max >= 1 {
        prefs.threadpools_webrender_workers_max as int
    } else {
        1
    };
    if most <= usize::MAX {
        most
    } else {
        usize::MAX as int
    }
}

/// The number of workers of the renderer: as many as the machine runs
/// threads in parallel, or the fallback where it does not tell, but no
/// more than the most that the preferences allow. A negative fallback
/// counts as more than every maximum.
pub open spec fn spec_worker_threads(available_parallelism: Option<usize>, prefs: RendererPrefs) -> int {
    let most = spec_most_workers(prefs);
    match available_parallelism {
        Some(threads) => if threads <= most {
            threads as int
        } else {
            most
        },
        None => if 0 <= prefs.threadpools_fallback_worker_num <= most {
            prefs.threadpools_fallback_worker_num as int
        } else {
            most
        },
    }
}

/// The options of the renderer for a graphics renderer of this name, on a
/// machine with this parallelism, under these preferences.
pub open spec fn spec_make_webrender(
    renderer: Seq<char>,
    available_parallelism: Option<usize>,
    prefs: RendererPrefs,
) -> RendererOptions {
    RendererOptions {
        use_optimized_shaders: true,
        profiler_overlay: false,
        precache_shaders: prefs.gfx_precache_shaders,
        enable_aa: prefs.gfx_text_antialiasing_enabled,
        enable_subpixel_aa: prefs.gfx_subpixel_text_antialiasing_enabled,
        allow_texture_swizzling: prefs.gfx_texture_swizzling_enabled,
        upload_method: if spec_is_angle(renderer) {
            UploadMethod::Immediate
        } else {
            UploadMethod::PixelBuffer
        },
        worker_threads: spec_worker_threads(available_parallelism, prefs) as usize,
    }
}

/// Whether the name of a graphics renderer begins with `ANGLE`.
pub fn is_angle(renderer: &str) -> (angle: bool)
    ensures
        angle == spec_is_angle(renderer@),
{
    if renderer.unicode_len() < 5 {
        return false;
    }
    let angle = renderer.get_char(0) == 'A' && renderer.get_char(1) == 'N' && renderer.get_char(2)
        == 'G' && renderer.get_char(3) == 'L' && renderer.get_char(4) == 'E';
    proof {
        let head = renderer@.subrange(0, 5);
        let name = seq!['A', 'N', 'G', 'L', 'E'];
        if angle {
            assert(head =~= name);
        } else {
            assert(head[0] == renderer@[0] && head[1] == renderer@[1] && head[2] == renderer@[2]
                && head[3] == renderer@[3] && head[4] == renderer@[4]);
            assert(name[0] == 'A' && name[1] == 'N' && name[2] == 'G' && name[3] == 'L' && name[4]
                == 'E');
        }
    }
    angle
}

/// The most workers that the preferences allow.
pub fn most_workers(prefs: &RendererPrefs) -> (most: usize)
    ensures
        most == spec_most_workers(*prefs),
        most >= 1,
{
    let most: i64 = if prefs.threadpools_webrender_workers_max >= 1 {
        prefs.threadpools_webrender_workers_max
    } else {
        1
    };
    if most as u64 > usize::MAX as u64 {
        usize::MAX
    } else {
        most as usize
    }
}

/// Settles the options that the renderer is created with. Optimized
/// shaders are always used, and the profiler overlay is off.
pub fn make_webrender(renderer: &str, available_parallelism: Option<usize>, prefs: &RendererPrefs) -> (options:
    RendererOptions)
    ensures
        options == spec_make_webrender(renderer@, available_parallelism, *prefs),
{
    let most = most_workers(prefs);
    let fallback = prefs.threadpools_fallback_worker_num;
    let worker_threads: usize = match available_parallelism {
        Some(threads) => if threads <= most {
            threads
        } else {
            most
        },
        None => if 0 <= fallback && fallback as u64 <= most as u64 {
            fallback as usize
        } else {
            most
        },
    };
    RendererOptions {
        use_optimized_shaders: true,
        profiler_overlay: false,
        precache_shaders: prefs.gfx_precache_shaders,
        enable_aa: prefs.gfx_text_antialiasing_enabled,
        enable_subpixel_aa: prefs.gfx_subpixel_text_antialiasing_enabled,
        allow_texture_swizzling: prefs.gfx_texture_swizzling_enabled,
        upload_method: if is_angle(renderer) {
            UploadMethod::Immediate
        } else {
            UploadMethod::PixelBuffer
        },
        worker_threads,
    }
}

impl Running {
    /// Whether a thread that polls in a loop goes on after this result.
    pub fn keeps_spinning(self) -> (go_on: bool)
        ensures
            go_on == (self != Running::Stop),
    {
        match self {
            Running::Stop => false,
            _ => true,
        }
    }
}

/// Moves a cycle on by one observation.
pub fn advance(stage: Stage, seen: Seen, room: bool) -> (next: Stage)
    ensures
        next == spec_advance(stage, seen, room),
{
    match stage {
        Stage::Draining => match seen {
            Seen::InboxItem => if room {
                Stage::Draining
            } else {
                Stage::Handling
            },
            Seen::InboxEmpty => Stage::Handling,
            Seen::InboxDisconnected => Stage::Finished(Running::Stop),
            _ => stage,
        },
        Stage::Handling => match seen {
            Seen::Engine(ShutdownState::NotShuttingDown) => Stage::Consuming,
            Seen::Engine(_) => Stage::Finished(Running::Stop),
            _ => stage,
        },
        Stage::Consuming => match seen {
            Seen::QueueItem => Stage::Finished(Running::RequestRedraw),
            Seen::QueueEmpty => Stage::Finished(Running::Continue),
            Seen::QueueDisconnected => Stage::Finished(Running::Stop),
            _ => stage,
        },
        Stage::Finished(_) => stage,
    }
}

/// Records one inbox poll: a message joins the batch, in the order of
/// arrival.
pub fn note_inbox<M>(batch: &mut Vec<M>, polled: Polled<M>) -> (seen: Seen)
    ensures
        (final(batch)@, seen) == spec_note_inbox(old(batch)@, polled),
{
    match polled {
        Polled::Item(message) => {
            batch.push(message);
            Seen::InboxItem
        },
        Polled::Empty => Seen::InboxEmpty,
        Polled::Disconnected => Seen::InboxDisconnected,
    }
}

/// Records the queue poll of a cycle, and hands out the transaction to
/// generate a frame from, if one was waiting.
pub fn note_queue<T>(polled: Polled<T>) -> (noted: (Seen, Option<T>))
    ensures
        noted == spec_note_queue(polled),
{
    match polled {
        Polled::Item(transaction) => (Seen::QueueItem, Some(transaction)),
        Polled::Empty => (Seen::QueueEmpty, None),
        Polled::Disconnected => (Seen::QueueDisconnected, None),
    }
}

/// The compositor stage as the window thread polls it: the inbox of
/// control messages and the consumer end of the transaction queue.
#[verifier::reject_recursive_types(M)]
#[verifier::reject_recursive_types(T)]
pub struct CompositorSpinner<M, T> {
    inbox: Receiver<M>,
    txn_rx: Receiver<T>,
    signalled: bool,
}

/// What a poll cycle came to, with the transaction that it took from the
/// queue: the engine is to generate a frame from it and submit it to the
/// renderer.
pub struct Spun<T> {
    pub result: Running,
    pub frame: Option<T>,
}

/// Whether every report of the engine in a run of observations is one
/// that `handle_messages` gave for `batch`.
pub open spec fn spec_reports_are_real<M, H: FnOnce(Vec<M>) -> ShutdownState>(
    seen: Seq<(Seen, bool)>,
    handle_messages: H,
    batch: Vec<M>,
) -> bool {
    forall|i: int|
        0 <= i < seen.len() ==> (#[trigger] seen[i].0 matches Seen::Engine(report) ==> call_ensures(
            handle_messages,
            (batch,),
            report,
        ))
}

impl<M, T> CompositorSpinner<M, T> {
    /// The receiving end of the inbox that the spinner drains.
    pub closed spec fn spec_inbox(&self) -> Receiver<M> {
        self.inbox
    }

    /// The consumer end of the transaction queue that the spinner polls.
    pub closed spec fn spec_queue(&self) -> Receiver<T> {
        self.txn_rx
    }

    /// Whether the startup signal went into the barrier at construction.
    pub closed spec fn spec_signalled(&self) -> bool {
        self.signalled
    }

    /// A spinner over the two receiving ends, for a startup signal that was
    /// sent, or not.
    pub fn assembled(inbox: Receiver<M>, txn_rx: Receiver<T>, sent: bool) -> (spinner: Self)
        ensures
            spinner.spec_inbox() == inbox,
            spinner.spec_queue() == txn_rx,
            spinner.spec_signalled() == sent,
    {
        CompositorSpinner { inbox, txn_rx, signalled: sent }
    }

    /// Takes over the two receiving ends once the engine is constructed,
    /// and signals the startup barrier: one signal, after which the
    /// barrier's sending end is gone. Whether the barrier took the signal
    /// is for the barrier to say; the spinner keeps the answer.
    pub fn new(
        inbox: Receiver<M>,
        txn_rx: Receiver<T>,
        compositor_started: Sender<CompositorStarted>,
    ) -> (spinner: Self)
        ensures
            spinner.spec_inbox() == inbox,
            spinner.spec_queue() == txn_rx,
    {
        let sent = offer(&compositor_started, CompositorStarted);
        Self::assembled(inbox, txn_rx, sent.is_ok())
    }

    pub fn signalled(&self) -> (yes: bool)
        ensures
            yes == self.spec_signalled(),
    {
        self.signalled
    }

    /// One poll cycle. Every control message that waits in the inbox is
    /// collected, and the batch is handed to `handle_messages`, which has
    /// the engine handle it and perform its pending updates, and reports
    /// where the engine then stands. Only then, and only while the engine
    /// is not shutting down, one transaction is taken from the queue; it
    /// is returned for the engine to generate a frame from. The result is
    /// where a run of the cycle ends whose reports of the engine are those
    /// that `handle_messages` gave.
    pub fn spin<H>(&mut self, handle_messages: H) -> (spun: Spun<T>)
        where H: FnOnce(Vec<M>) -> ShutdownState
        requires
            forall|batch: Vec<M>| #[trigger] call_requires(handle_messages, (batch,)),
        ensures
            final(self).spec_inbox() == old(self).spec_inbox(),
            final(self).spec_queue() == old(self).spec_queue(),
            final(self).spec_signalled() == old(self).spec_signalled(),
            exists|seen: Seq<(Seen, bool)>, batch: Vec<M>|
                spec_stage_after(seen, seen.len()) == Stage::Finished(spun.result)
                    && #[trigger] spec_reports_are_real(seen, handle_messages, batch),
            spun.result != Running::Stop ==> exists|batch: Vec<M>| #[trigger]
                call_ensures(handle_messages, (batch,), ShutdownState::NotShuttingDown),
            (spun.frame is Some) == (spun.result == Running::RequestRedraw),
    {
        let mut batch: Vec<M> = Vec::new();
        let mut stage = Stage::Draining;
        let ghost mut trace: Seq<(Seen, bool)> = Seq::empty();
        while stage == Stage::Draining
            invariant
                self.inbox == old(self).inbox,
                self.txn_rx == old(self).txn_rx,
                self.signalled == old(self).signalled,
                stage == Stage::Draining ==> batch.len() < usize::MAX,
                stage == Stage::Draining || stage == Stage::Handling || stage == Stage::Finished(
                    Running::Stop,
                ),
                stage == spec_stage_after(trace, trace.len()),
                forall|i: int| 0 <= i < trace.len() ==> !(#[trigger] trace[i].0 is Engine),
            decreases
                    if stage == Stage::Draining {
                        1nat
                    } else {
                        0nat
                    },
                    usize::MAX - batch.len(),
        {
            let seen = note_inbox(&mut batch, try_receive(&self.inbox));
            let room = batch.len() < usize::MAX;
            proof {
                lemma_stage_after_prefix(trace, trace.push((seen, room)), trace.len());
                trace = trace.push((seen, room));
            }
            stage = advance(stage, seen, room);
        }
        let ghost handed = batch;
        match stage {
            Stage::Handling => {},
            _ => {
                assert(spec_stage_after(trace, trace.len()) == Stage::Finished(Running::Stop));
                assert(spec_reports_are_real(trace, handle_messages, handed));
                return Spun { result: Running::Stop, frame: None };
            },
        }
        let shutdown = handle_messages(batch);
        proof {
            lemma_stage_after_prefix(trace, trace.push((Seen::Engine(shutdown), false)), trace.len());
            trace = trace.push((Seen::Engine(shutdown), false));
        }
        stage = advance(stage, Seen::Engine(shutdown), false);
        assert(stage == spec_stage_after(trace, trace.len()));
        assert(spec_reports_are_real(trace, handle_messages, handed));
        match stage {
            Stage::Consuming => {},
            _ => {
                assert(spec_stage_after(trace, trace.len()) == Stage::Finished(Running::Stop));
                return Spun { result: Running::Stop, frame: None };
            },
        }
        assert(call_ensures(handle_messages, (handed,), ShutdownState::NotShuttingDown));
        let (seen, frame) = note_queue(try_receive(&self.txn_rx));
        proof {
            lemma_stage_after_prefix(trace, trace.push((seen, false)), trace.len());
            trace = trace.push((seen, false));
        }
        stage = advance(stage, seen, false);
        assert(stage == spec_stage_after(trace, trace.len()));
        assert(spec_reports_are_real(trace, handle_messages, handed));
        match stage {
            Stage::Finished(result) => Spun { result, frame },
            _ => unreached(),
        }
    }
}

/// The stage after `n` observations depends on those `n` alone.
proof fn lemma_stage_after_prefix(short: Seq<(Seen, bool)>, long: Seq<(Seen, bool)>, n: nat)
    requires
        n <= short.len() <= long.len(),
        forall|i: int| 0 <= i < n ==> short[i] == long[i],
    ensures
        spec_stage_after(short, n) == spec_stage_after(long, n),
    decreases n,
{
    if n > 0 {
        lemma_stage_after_prefix(short, long, (n - 1) as nat);
    }
}

/// A finished cycle stays finished, with its result, whatever is observed
/// afterwards.
pub proof fn lemma_finished_is_final(seen: Seq<(Seen, bool)>, m: nat, n: nat)
    requires
        m <= n,
        spec_stage_after(seen, m) is Finished,
    ensures
        spec_stage_after(seen, n) == spec_stage_after(seen, m),
    decreases n,
{
    if m < n {
        lemma_finished_is_final(seen, m, (n - 1) as nat);
    }
}

/// Drain before consume. A cycle that polls the transaction queue, or ends
/// with anything but `Stop`, has handed its batch to the engine before: it
/// stood at `Handling` after some earlier observation `m`, and what it
/// observed there was the engine reporting that it is not shutting down.
pub proof fn lemma_drain_before_consume(seen: Seq<(Seen, bool)>, n: nat) -> (m: nat)
    requires
        spec_stage_after(seen, n) == Stage::Consuming
            || spec_stage_after(seen, n) == Stage::Finished(Running::RequestRedraw)
            || spec_stage_after(seen, n) == Stage::Finished(Running::Continue),
    ensures
        m < n,
        spec_stage_after(seen, m) == Stage::Handling,
        seen[m as int].0 == Seen::Engine(ShutdownState::NotShuttingDown),
    decreases n,
{
    let before = spec_stage_after(seen, (n - 1) as nat);
    if n == 0 {
        0
    } else if before == Stage::Handling {
        (n - 1) as nat
    } else {
        lemma_drain_before_consume(seen, (n - 1) as nat)
    }
}

/// A shutdown that the batch set in motion keeps the cycle from the
/// transaction queue: when the engine, asked to handle the batch, reports
/// anything but `NotShuttingDown`, the cycle ends with `Stop` and never
/// stands at `Consuming` afterwards.
pub proof fn lemma_shutdown_prevents_frame(seen: Seq<(Seen, bool)>, m: nat, n: nat)
    requires
        m < n,
        spec_stage_after(seen, m) == Stage::Handling,
        seen[m as int].0 matches Seen::Engine(shutdown) && shutdown != ShutdownState::NotShuttingDown,
    ensures
        spec_stage_after(seen, n) == Stage::Finished(Running::Stop),
{
    assert(spec_stage_after(seen, m + 1) == Stage::Finished(Running::Stop));
    lemma_finished_is_final(seen, m + 1, n);
}

/// Disconnection yields `Stop`. When the poll that a cycle makes of the
/// inbox or of the transaction queue finds the channel disconnected, the
/// cycle ends with `Stop`.
pub proof fn lemma_disconnection_stops(seen: Seq<(Seen, bool)>, m: nat, n: nat)
    requires
        m < n,
        (spec_stage_after(seen, m) == Stage::Draining && seen[m as int].0 == Seen::InboxDisconnected)
            || (spec_stage_after(seen, m) == Stage::Consuming && seen[m as int].0
            == Seen::QueueDisconnected),
    ensures
        spec_stage_after(seen, n) == Stage::Finished(Running::Stop),
{
    assert(spec_stage_after(seen, m + 1) == Stage::Finished(Running::Stop));
    lemma_finished_is_final(seen, m + 1, n);
}

} // verus!
