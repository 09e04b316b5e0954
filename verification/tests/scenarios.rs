use desktop_bridge::assets::{mime_of, resolve_asset, AssetKind};
use desktop_bridge::controller::{DesktopController, RpcOutcome};
use desktop_bridge::dispatch::{route_event, LoopDirective, LoopEvent};
use desktop_bridge::message::{BridgeError, ScheduledMessage, UserWindowEvent};
use desktop_bridge::queue::EditQueue;
use desktop_bridge::worker::{worker_bootstrap, worker_commit};

fn new_controller() -> (
    DesktopController,
    futures_channel::mpsc::UnboundedReceiver<ScheduledMessage>,
) {
    let (sender, receiver) = futures_channel::mpsc::unbounded::<ScheduledMessage>();
    (DesktopController::new(sender), receiver)
}

#[test]
fn batches_held_back_until_bootstrap_completes() {
    let (mut c, _receiver) = new_controller();
    c.register_window(1);
    let mut pending = EditQueue::new();
    worker_bootstrap(&mut pending, String::from("B0"));
    worker_commit(&mut pending, Some(String::from("B1")));

    // Flag not ready: nothing is applied, nothing is lost.
    assert!(c.try_load_ready_webviews(&mut pending).is_none());
    assert_eq!(pending.len(), 2);

    // After readiness a single drain yields the full backlog in order.
    c.handle_rpc("initialize", None);
    let (window, batches) = c.try_load_ready_webviews(&mut pending).unwrap();
    assert_eq!(window, 1);
    assert_eq!(batches, vec!["B0", "B1"]);
    assert!(pending.is_empty());
}

#[test]
fn ready_without_a_window_keeps_backlog() {
    let (mut c, _receiver) = new_controller();
    c.handle_rpc("initialize", None);
    let mut pending = EditQueue::new();
    pending.append(String::from("B0"));
    assert!(c.try_load_ready_webviews(&mut pending).is_none());
    assert_eq!(pending.len(), 1);
}

#[test]
fn malformed_event_is_dropped_without_breaking_the_channel() {
    let (mut c, mut receiver) = new_controller();
    let r = c.handle_rpc("user_event", Some("{not json"));
    assert_eq!(r, RpcOutcome::EventRejected(BridgeError::DecodeFailure));
    // Nothing was delivered for the malformed event...
    assert!(matches!(receiver.try_next(), Err(_)));
    // ...and a subsequent valid event still goes through.
    let r2 = c.handle_rpc("user_event", Some("[7]"));
    assert_eq!(r2, RpcOutcome::EventForwarded);
    let expected: serde_json::Value = serde_json::from_str("[7]").unwrap();
    match receiver.try_next().unwrap().unwrap() {
        ScheduledMessage::Event(v) => assert_eq!(v, expected),
        ScheduledMessage::Wake => panic!("expected an input event"),
    }
}

#[test]
fn single_window_end_to_end() {
    let (mut c, mut receiver) = new_controller();
    let mut pending = EditQueue::new();

    // Loop start: the dispatcher opens the first window.
    assert_eq!(route_event(&LoopEvent::Init), LoopDirective::OpenWindow);
    c.register_window(11);

    // The engine's initial build queues B0 before the surface is ready.
    worker_bootstrap(&mut pending, String::from("B0"));
    assert!(c.try_load_ready_webviews(&mut pending).is_none());
    assert_eq!(pending.len(), 1);

    // Bootstrap completes: the next tick applies exactly [B0].
    c.handle_rpc("initialize", None);
    assert_eq!(
        route_event(&LoopEvent::Wake { signal: UserWindowEvent::Update }),
        LoopDirective::TryApply
    );
    let (w, batches) = c.try_load_ready_webviews(&mut pending).unwrap();
    assert_eq!(w, 11);
    assert_eq!(batches, vec!["B0"]);

    // A later click decodes to an event and reaches the engine.
    let r = c.handle_rpc("user_event", Some("{\"click\":true}"));
    assert_eq!(r, RpcOutcome::EventForwarded);
    assert!(matches!(
        receiver.try_next().unwrap().unwrap(),
        ScheduledMessage::Event(_)
    ));

    // The engine answers with B1; the next tick applies exactly [B1].
    let wake = worker_commit(&mut pending, Some(String::from("B1")));
    assert!(wake);
    let (_, batches) = c.try_load_ready_webviews(&mut pending).unwrap();
    assert_eq!(batches, vec!["B1"]);
    assert!(pending.is_empty());
}

#[test]
fn closing_one_of_two_windows_leaves_queue_intact() {
    let (mut c, _receiver) = new_controller();
    let mut pending = EditQueue::new();
    c.register_window(1);
    c.register_window(2);
    c.handle_rpc("initialize", None);
    worker_bootstrap(&mut pending, String::from("B0"));
    worker_commit(&mut pending, Some(String::from("B1")));

    // Closing one window must not exit the loop nor touch the edit queue.
    assert!(!c.close_window(2));
    assert_eq!(pending.len(), 2);

    // The remaining window keeps receiving drained batches normally.
    let (w, batches) = c.try_load_ready_webviews(&mut pending).unwrap();
    assert_eq!(w, 1);
    assert_eq!(batches, vec!["B0", "B1"]);

    worker_commit(&mut pending, Some(String::from("B2")));
    let (w2, batches2) = c.try_load_ready_webviews(&mut pending).unwrap();
    assert_eq!(w2, 1);
    assert_eq!(batches2, vec!["B2"]);
}

#[test]
fn close_request_closes_only_that_window() {
    let (mut c, _receiver) = new_controller();
    c.register_window(1);
    c.register_window(2);
    // A native close request is honored for that window alone.
    let directive = route_event(&LoopEvent::CloseRequested { window: 2 });
    assert_eq!(directive, LoopDirective::CloseWindow { window: 2 });
    assert!(
        !c.close_window(2),
        "the loop must go on while another window is open"
    );
    // Only the closure of the last window signals termination.
    assert!(c.close_window(1));
}

#[test]
fn bootstrap_assets_resolve_by_path() {
    assert_eq!(resolve_asset("index.html"), AssetKind::Document);
    assert_eq!(resolve_asset("index.html/"), AssetKind::Document);
    assert_eq!(resolve_asset("/index.html"), AssetKind::Document);
    assert_eq!(resolve_asset("index.html/index.js"), AssetKind::Script);
    // Unknown paths fall back to the document.
    assert_eq!(resolve_asset("favicon.ico"), AssetKind::Document);
    assert_eq!(mime_of(&AssetKind::Document), "text/html");
    assert_eq!(mime_of(&AssetKind::Script), "text/javascript");
}

#[test]
fn routing_table_matches_the_loop() {
    assert_eq!(
        route_event(&LoopEvent::CloseRequested { window: 4 }),
        LoopDirective::CloseWindow { window: 4 }
    );
    assert_eq!(
        route_event(&LoopEvent::Destroyed { window: 4 }),
        LoopDirective::CloseWindow { window: 4 }
    );
    assert_eq!(
        route_event(&LoopEvent::KeyboardInput { window: 4, is_quit_chord: true }),
        LoopDirective::CloseWindow { window: 4 }
    );
    assert_eq!(
        route_event(&LoopEvent::KeyboardInput { window: 4, is_quit_chord: false }),
        LoopDirective::Continue
    );
    assert_eq!(
        route_event(&LoopEvent::Resized { window: 4 }),
        LoopDirective::ResizeSurface { window: 4 }
    );
    assert_eq!(
        route_event(&LoopEvent::Moved { window: 4 }),
        LoopDirective::ResizeSurface { window: 4 }
    );
    assert_eq!(route_event(&LoopEvent::Idle), LoopDirective::TryApply);
    assert_eq!(route_event(&LoopEvent::Other), LoopDirective::Continue);
}
