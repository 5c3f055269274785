use std::cell::RefCell;

use crossbeam_channel::{unbounded, Sender};
use mini_servo::app::{
    spin_compositor_if_app_running, App, Command, Cycle, LayoutRequest, MainThread, Phase,
    ProductionSeed, Resumed, Waker, WindowEvent,
};
use mini_servo::dummy::DummyRegisteredSpeculativePainters;
use mini_servo::options::{DebugOptions, WindowSize};
use mini_servo::transaction::{Epoch, PipelineId, Transaction};
use mini_servo::util::{Running, ShutdownState};

/// What the document engine of these tests is asked for.
type Request<'a> = LayoutRequest<'a, DummyRegisteredSpeculativePainters>;

/// An application over fresh channels that has gone through its first
/// `resumed`, with the far ends and the order of the construction steps.
fn constructed(
    size: WindowSize,
) -> (App<u8, u32>, Sender<u8>, ProductionSeed<u32>, Vec<&'static str>, WindowSize) {
    let mut app: App<u8, u32> = App::new(size, DebugOptions::all());
    let (inbox_tx, inbox_rx) = unbounded::<u8>();
    let steps = RefCell::new(Vec::new());
    let mut window = None;
    let mut seed = None;
    let resumed = app.resumed(
        |size| {
            steps.borrow_mut().push("platform");
            window = Some(size);
        },
        || {
            steps.borrow_mut().push("compositor");
            inbox_rx
        },
        |given| {
            steps.borrow_mut().push("threads");
            seed = Some(given);
        },
    );
    assert_eq!(resumed, Resumed::Started);
    (app, inbox_tx, seed.unwrap(), steps.into_inner(), window.unwrap())
}

fn started() -> (App<u8, u32>, Sender<u8>, ProductionSeed<u32>) {
    let (app, inbox_tx, seed, _steps, _window) = constructed(WindowSize::default());
    (app, inbox_tx, seed)
}

#[test]
fn test_resumed_constructs_in_order() {
    let fresh: App<u8, u32> = App::new(WindowSize::new(800, 600), DebugOptions::all());
    assert_eq!(fresh.current_phase(), Phase::Initial);
    let (app, _inbox_tx, seed, steps, window) = constructed(WindowSize::new(800, 600));
    assert_eq!(app.current_phase(), Phase::Running);
    assert_eq!(steps, vec!["platform", "compositor", "threads"]);
    assert_eq!(window, WindowSize { width: 800, height: 600 });

    assert_eq!(seed.viewport_size, WindowSize { width: 800, height: 600 });
    assert_eq!(seed.debug_options, DebugOptions::all());
    assert_eq!(seed.production_period_ms, 500);
    assert_eq!(seed.waker, Waker { period_ms: 50, alive: true });
    // The compositor stage is constructed before the threads are started,
    // so the barrier is signalled already; and it is signalled once.
    assert!(seed.startup.recv().is_ok());
    assert!(seed.startup.recv().is_err());
    assert_eq!(seed.startup.capacity(), Some(1));
    assert_eq!(seed.txn_tx.capacity(), None);
}

#[test]
fn test_resumed_again_does_nothing() {
    let (mut app, _inbox_tx, _seed) = started();
    let calls = RefCell::new(0);
    for _ in 0..2 {
        let (_unused_tx, unused_rx) = unbounded::<u8>();
        let resumed = app.resumed(
            |_size| {
                *calls.borrow_mut() += 1;
            },
            || {
                *calls.borrow_mut() += 1;
                unused_rx
            },
            |_seed| {
                *calls.borrow_mut() += 1;
            },
        );
        assert_eq!(resumed, Resumed::AlreadyRunning);
    }
    assert_eq!(*calls.borrow(), 0);
    assert_eq!(app.current_phase(), Phase::Running);
}

#[test]
fn test_spinner_polls_the_inbox_of_the_compositor() {
    let (mut app, inbox_tx, _seed) = started();
    inbox_tx.send(7).unwrap();
    inbox_tx.send(8).unwrap();
    let mut handled = Vec::new();
    let poll = spin_compositor_if_app_running(&mut app, |batch| {
        handled = batch;
        ShutdownState::NotShuttingDown
    });
    assert_eq!(poll.polled, Some(Running::Continue));
    assert_eq!(handled, vec![7, 8]);
}

#[test]
fn test_events_before_resume_ask_for_nothing() {
    let mut app: App<u8, u32> = App::new(WindowSize::default(), DebugOptions::default());
    assert_eq!(app.user_event(), vec![]);
    assert_eq!(app.window_event(WindowEvent::RedrawRequested), vec![]);
    assert_eq!(app.window_event(WindowEvent::Other), vec![]);
    let mut calls = 0;
    let poll = spin_compositor_if_app_running(&mut app, |_batch| {
        calls += 1;
        ShutdownState::NotShuttingDown
    });
    assert_eq!(poll.polled, None);
    assert!(poll.frame.is_none());
    assert!(!poll.request_redraw);
    assert_eq!(calls, 0);
    assert_eq!(app.current_phase(), Phase::Initial);
}

#[test]
fn test_commands_while_running() {
    let (app, _inbox_tx, _seed) = started();
    assert_eq!(app.user_event(), vec![Command::Poll]);
    assert_eq!(app.window_event(WindowEvent::Other), vec![Command::Poll]);
    assert_eq!(
        app.window_event(WindowEvent::RedrawRequested),
        vec![Command::Render, Command::Present, Command::Poll]
    );
    assert_eq!(app.current_phase(), Phase::Running);
}

#[test]
fn test_poll_requests_redraw_for_a_transaction() {
    let (mut app, inbox_tx, seed) = started();
    let mut handled = Vec::new();
    let poll = spin_compositor_if_app_running(&mut app, |batch| {
        handled.push(batch);
        ShutdownState::NotShuttingDown
    });
    assert_eq!(poll.polled, Some(Running::Continue));
    assert!(poll.frame.is_none());
    assert!(!poll.request_redraw);

    inbox_tx.send(1).unwrap();
    seed.txn_tx.send(Transaction::new()).unwrap();
    let poll = spin_compositor_if_app_running(&mut app, |batch| {
        handled.push(batch);
        ShutdownState::NotShuttingDown
    });
    assert_eq!(poll.polled, Some(Running::RequestRedraw));
    assert!(poll.frame.is_some());
    assert!(poll.request_redraw);
    assert_eq!(handled, vec![vec![], vec![1]]);
    assert_eq!(app.current_phase(), Phase::Running);
}

#[test]
fn test_stop_is_recorded() {
    let (mut app, _inbox_tx, seed) = started();
    drop(seed);
    let mut calls = 0;
    let poll = spin_compositor_if_app_running(&mut app, |_batch| {
        calls += 1;
        ShutdownState::NotShuttingDown
    });
    assert_eq!(poll.polled, Some(Running::Stop));
    assert!(poll.frame.is_none());
    assert!(!poll.request_redraw);
    assert_eq!(calls, 1);
    assert_eq!(app.current_phase(), Phase::Stopped);

    // Polling has ended; a redraw is still answered.
    assert_eq!(app.user_event(), vec![]);
    assert_eq!(app.window_event(WindowEvent::Other), vec![]);
    assert_eq!(
        app.window_event(WindowEvent::RedrawRequested),
        vec![Command::Render, Command::Present]
    );
    let poll = spin_compositor_if_app_running(&mut app, |_batch| {
        calls += 1;
        ShutdownState::NotShuttingDown
    });
    assert_eq!(poll.polled, Some(Running::Stop));
    assert_eq!(calls, 1);
    assert_eq!(app.current_phase(), Phase::Stopped);
}

#[test]
fn test_shutdown_of_the_engine_stops_the_application() {
    let (mut app, _inbox_tx, seed) = started();
    seed.txn_tx.send(Transaction::new()).unwrap();
    let poll = spin_compositor_if_app_running(&mut app, |_batch| ShutdownState::ShuttingDown);
    assert_eq!(poll.polled, Some(Running::Stop));
    assert!(poll.frame.is_none());
    assert!(!poll.request_redraw);
    assert_eq!(app.current_phase(), Phase::Stopped);
    assert_eq!(seed.txn_tx.len(), 1);
}

#[test]
fn test_pipeline_end_to_end() {
    let (mut app, _inbox_tx, seed) = started();
    let mut stage: MainThread<DummyRegisteredSpeculativePainters, u32> = MainThread::new(
        seed.viewport_size,
        DummyRegisteredSpeculativePainters,
        seed.debug_options,
        seed.txn_tx.clone(),
    );
    stage.startup(seed.startup.recv().ok());
    for expected in 0..3u32 {
        let cycle = stage.parse_style_layout(|request: Request| request.epoch.0 * 10);
        assert_eq!(cycle, Cycle::Produced(Epoch(expected)));
    }
    let mut applied = Vec::new();
    for _ in 0..3 {
        assert_eq!(app.user_event(), vec![Command::Poll]);
        let poll = spin_compositor_if_app_running(&mut app, |_batch| ShutdownState::NotShuttingDown);
        assert_eq!(poll.polled, Some(Running::RequestRedraw));
        let update = poll.frame.unwrap().display_list.unwrap();
        applied.push((update.epoch, update.pipeline_id, update.display_list));
    }
    let poll = spin_compositor_if_app_running(&mut app, |_batch| ShutdownState::NotShuttingDown);
    assert_eq!(poll.polled, Some(Running::Continue));
    let id = PipelineId::dummy();
    assert_eq!(applied, vec![(Epoch(0), id, 0), (Epoch(1), id, 10), (Epoch(2), id, 20)]);
}
