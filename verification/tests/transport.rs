use std::cell::Cell;

use liveview_poem::bootstrap::{app_title, index_document, interpreter_glue, upgrade_path};
use liveview_poem::error::LiveViewError;
use liveview_poem::frame::{frame_round_trip, transform_rx, transform_tx};
use liveview_poem::router::{start_report, Endpoint, LiveviewRouter, RouteResponse};
use liveview_poem::session::{LiveViewPool, RootFactory, SessionState};
use poem::web::websocket::Message;

#[test]
fn upgrade_path_of_route() {
    assert_eq!(upgrade_path("/test"), "/test/ws");
    assert_eq!(upgrade_path("/app/nested"), "/app/nested/ws");
}

#[test]
fn upgrade_path_of_root() {
    assert_eq!(upgrade_path("/"), "/ws");
}

#[test]
fn outbound_then_inbound_round_trip() {
    let payloads: Vec<Vec<u8>> = vec![
        vec![],
        vec![0u8],
        vec![1, 2, 3, 255],
        b"patch stream".to_vec(),
    ];
    for payload in payloads {
        let msg = transform_tx(payload.clone()).expect("outbound transform is total");
        let back = transform_rx(Ok(msg)).expect("lossless transport keeps the frame intact");
        assert_eq!(back, payload);
    }
}

#[test]
fn round_trip_helper_returns_payload() {
    assert_eq!(frame_round_trip(vec![9, 8, 7]), Ok(vec![9, 8, 7]));
    assert_eq!(frame_round_trip(Vec::new()), Ok(Vec::new()));
}

#[test]
fn inbound_failure_is_sending_failed() {
    let err = std::io::Error::new(std::io::ErrorKind::ConnectionReset, "transport failure");
    assert_eq!(transform_rx(Err(err)), Err(LiveViewError::SendingFailed));
    let err = std::io::Error::new(std::io::ErrorKind::InvalidData, "malformed frame");
    assert_eq!(transform_rx(Err(err)), Err(LiveViewError::SendingFailed));
}

#[test]
fn inbound_text_frame_yields_utf8_bytes() {
    let msg = Message::Text("user event".to_string());
    assert_eq!(transform_rx(Ok(msg)), Ok(b"user event".to_vec()));
}

#[test]
fn inbound_close_frame_yields_empty_buffer() {
    let msg = Message::Close(None);
    assert_eq!(transform_rx(Ok(msg)), Ok(Vec::new()));
}

#[test]
fn bootstrap_glue_embeds_upgrade_path() {
    let glue = interpreter_glue("/ws");
    assert_eq!(
        glue,
        "\n<script>\n    const socketPath = \"/ws\";\n    const socketUrl = (location.protocol === \"https:\" ? \"wss://\" : \"ws://\") + location.host + socketPath;\n    const socket = new WebSocket(socketUrl);\n    socket.binaryType = \"arraybuffer\";\n</script>\n"
    );
}

#[test]
fn bootstrap_document_has_title_mount_and_glue() {
    let doc = index_document("/app");
    assert!(doc.contains(&format!("<title>{}</title>", app_title())));
    assert!(doc.contains("<div id=\"main\"></div>"));
    assert!(doc.contains("const socketPath = \"/app/ws\";"));
    let root_doc = index_document("/");
    assert!(root_doc.contains("const socketPath = \"/ws\";"));
}

struct CountingFactory {
    calls: Cell<usize>,
}

impl RootFactory<u32> for CountingFactory {
    fn fresh_root(&self) -> u32 {
        self.calls.set(self.calls.get() + 1);
        42
    }
}

#[test]
fn factory_invoked_exactly_once_per_launch() {
    let factory = CountingFactory { calls: Cell::new(0) };
    let mut pool = LiveViewPool::new();
    let mut ids = Vec::new();
    for _ in 0..5 {
        ids.push(pool.launch_virtualdom(&factory));
    }
    assert_eq!(factory.calls.get(), 5);
    assert_eq!(pool.session_count(), 5);
    ids.sort();
    ids.dedup();
    assert_eq!(ids.len(), 5, "each upgrade gets an independent session");
}

#[test]
fn failure_in_one_session_leaves_others_live() {
    let factory = CountingFactory { calls: Cell::new(0) };
    let mut pool = LiveViewPool::new();
    let a = pool.launch_virtualdom(&factory);
    let b = pool.launch_virtualdom(&factory);
    let c = pool.launch_virtualdom(&factory);

    assert_eq!(pool.send(a, b"a1".to_vec()), Ok(()));
    assert_eq!(pool.send(b, b"b1".to_vec()), Ok(()));
    assert_eq!(pool.send(c, b"c1".to_vec()), Ok(()));

    pool.end_session(b, true);
    assert_eq!(pool.session_state(b), Some(SessionState::Failed));
    assert_eq!(pool.send(b, b"b2".to_vec()), Err(LiveViewError::SendingFailed));
    assert_eq!(pool.receive(b, b"b2".to_vec()), Err(LiveViewError::SendingFailed));

    assert_eq!(pool.session_state(a), Some(SessionState::Running));
    assert_eq!(pool.session_state(c), Some(SessionState::Running));
    assert_eq!(pool.send(a, b"a2".to_vec()), Ok(()));
    assert_eq!(pool.receive(a, b"ev".to_vec()), Ok(()));
    assert_eq!(pool.send(c, b"c2".to_vec()), Ok(()));
}

#[test]
fn channel_traffic_keeps_order() {
    let factory = CountingFactory { calls: Cell::new(0) };
    let mut pool = LiveViewPool::new();
    let id = pool.launch_virtualdom(&factory);
    assert_eq!(pool.send(id, b"first".to_vec()), Ok(()));
    assert_eq!(pool.send(id, b"second".to_vec()), Ok(()));
    assert_eq!(pool.receive(id, b"one".to_vec()), Ok(()));
    assert_eq!(pool.receive(id, b"two".to_vec()), Ok(()));
    let session = &pool.sessions[0];
    assert_eq!(session.sent, vec![b"first".to_vec(), b"second".to_vec()]);
    assert_eq!(session.received, vec![b"one".to_vec(), b"two".to_vec()]);
}

#[test]
fn send_on_unknown_session_fails() {
    let mut pool = LiveViewPool::<u32>::new();
    assert_eq!(pool.send(3, b"x".to_vec()), Err(LiveViewError::SendingFailed));
    assert_eq!(pool.session_state(3), None);
}

#[test]
fn session_end_of_stream_closes_normally() {
    let factory = CountingFactory { calls: Cell::new(0) };
    let mut pool = LiveViewPool::new();
    let id = pool.launch_virtualdom(&factory);
    pool.end_session(id, false);
    assert_eq!(pool.session_state(id), Some(SessionState::Closed));
    assert_eq!(pool.send(id, b"late".to_vec()), Err(LiveViewError::SendingFailed));
}

#[test]
fn two_binds_register_independent_endpoint_pairs() {
    let router = LiveviewRouter::create_default_liveview_router()
        .with_virtual_dom("/a")
        .with_virtual_dom("/b");

    assert_eq!(router.dispatch("/a"), Some((0, Endpoint::Bootstrap)));
    assert_eq!(router.dispatch("/a/ws"), Some((0, Endpoint::Upgrade)));
    assert_eq!(router.dispatch("/b"), Some((1, Endpoint::Bootstrap)));
    assert_eq!(router.dispatch("/b/ws"), Some((1, Endpoint::Upgrade)));
    assert_eq!(router.dispatch("/c"), None);
    assert_ne!(router.bindings[0].pool_id, router.bindings[1].pool_id);
}

#[test]
fn root_route_dispatches_to_its_upgrade_path() {
    let router = LiveviewRouter::create_default_liveview_router().with_virtual_dom("/");
    assert_eq!(router.dispatch("/"), Some((0, Endpoint::Bootstrap)));
    assert_eq!(router.dispatch("/ws"), Some((0, Endpoint::Upgrade)));
}

#[test]
fn request_flow_serves_document_or_upgrade() {
    let router = LiveviewRouter::create_default_liveview_router().with_virtual_dom("/a");
    match router.handle_request("/a") {
        Some(RouteResponse::Document(doc)) => {
            assert!(doc.contains("const socketPath = \"/a/ws\";"));
        }
        _ => panic!("bootstrap path must serve the bootstrap document"),
    }
    match router.handle_request("/a/ws") {
        Some(RouteResponse::UpgradeAt(pool_id)) => {
            assert_eq!(pool_id, router.bindings[0].pool_id);
        }
        _ => panic!("upgrade path must reach the binding's session pool"),
    }
    assert!(router.handle_request("/elsewhere").is_none());
}

#[test]
fn serve_failure_is_reported_as_server_start_failed() {
    let err = std::io::Error::new(std::io::ErrorKind::AddrInUse, "address already in use");
    assert_eq!(start_report(Err(err)), Some(LiveViewError::ServerStartFailed));
    assert_eq!(start_report(Ok(())), None);
}

#[test]
fn error_messages_name_the_failure() {
    assert_eq!(
        LiveViewError::SendingFailed.message(),
        "the channel is no longer usable"
    );
    assert_eq!(
        LiveViewError::ServerStartFailed.message(),
        "failed to start the server"
    );
}
