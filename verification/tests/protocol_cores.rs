//! The client pending table and the server dispatcher, exercised on a
//! stand-in channel type.

use atom_ipc::client::{ClientCore, IpcConfig, Routed, now_millis, next_backoff_delay,
    check_ping_response, DEFAULT_REQUEST_TIMEOUT_MS, CANCEL_DEADLINE_MS, BACKOFF_INITIAL_MS,
    BACKOFF_CAP_MS};
use atom_ipc::server::{ConnState, ConnAction, ServerMetrics, immediate_response,
    response_envelope, open_buffer_response, save_buffer_response, close_buffer_response,
    search_response, project_files_response};
use atom_ipc::wire::{RequestId, IpcMessage, IpcPayload, CoreRequest, CoreResponse, Notification,
    SearchResult};
use atom_ipc::IpcError;

fn small_config(max_pending: usize) -> IpcConfig {
    IpcConfig { request_timeout_ms: 1000, max_message_size: 4096, max_pending_requests: max_pending }
}

#[test]
fn client_pending_cap_rejects_before_any_envelope() {
    let mut core: ClientCore<u32> = ClientCore::new(small_config(3));
    let mut ids = Vec::new();
    for i in 0..3u32 {
        let (id, msg) = core.start_request(CoreRequest::Ping, i, 50).expect("under the cap");
        assert_eq!(msg.id, id);
        ids.push(id);
    }
    assert_eq!(core.pending_len(), 3);
    match core.start_request(CoreRequest::Ping, 99, 50) {
        Err(IpcError::Backpressure) => {}
        other => panic!("expected Backpressure, got {:?}", other),
    }
    assert_eq!(core.pending_len(), 3);
}

#[test]
fn client_request_envelope_fields() {
    let mut core: ClientCore<u32> = ClientCore::new(small_config(10));
    let (id, msg) = core.start_request(CoreRequest::Sleep { millis: 7 }, 1, 100).expect("ok");
    assert_eq!(msg.id, id);
    assert_eq!(msg.deadline_millis, 100 + 1000);
    assert_eq!(msg.payload, IpcPayload::Request(CoreRequest::Sleep { millis: 7 }));
}

#[test]
fn client_response_resolves_pending_once() {
    let mut core: ClientCore<u32> = ClientCore::new(small_config(10));
    let (id, _msg) = core.start_request(CoreRequest::Ping, 5, 0).expect("ok");
    let inbound = IpcMessage {
        id,
        deadline_millis: 0,
        payload: IpcPayload::Response(CoreResponse::Pong),
    };
    match core.handle_message(inbound.clone()) {
        Routed::Deliver(chan, CoreResponse::Pong) => assert_eq!(chan, 5),
        other => panic!("expected delivery, got {:?}", routed_name(&other)),
    }
    assert_eq!(core.pending_len(), 0);
    // The same response again finds no entry and is dropped.
    match core.handle_message(inbound) {
        Routed::Ignored => {}
        other => panic!("expected drop, got {:?}", routed_name(&other)),
    }
}

#[test]
fn client_unknown_response_dropped() {
    let mut core: ClientCore<u32> = ClientCore::new(small_config(10));
    let inbound = IpcMessage {
        id: RequestId(12345),
        deadline_millis: 0,
        payload: IpcPayload::Response(CoreResponse::Success),
    };
    match core.handle_message(inbound) {
        Routed::Ignored => {}
        other => panic!("expected drop, got {:?}", routed_name(&other)),
    }
}

#[test]
fn client_notification_passes_through() {
    let mut core: ClientCore<u32> = ClientCore::new(small_config(10));
    let inbound = IpcMessage {
        id: RequestId(1),
        deadline_millis: 0,
        payload: IpcPayload::Notification(Notification::DiagnosticsUpdate {
            uri: "file:///x".to_string(),
            diagnostics: vec![],
        }),
    };
    match core.handle_message(inbound) {
        Routed::Notify(Notification::DiagnosticsUpdate { uri, .. }) => {
            assert_eq!(uri, "file:///x")
        }
        other => panic!("expected notification, got {:?}", routed_name(&other)),
    }
}

#[test]
fn client_cancel_wakes_waiter_immediately() {
    let mut core: ClientCore<u32> = ClientCore::new(small_config(10));
    let (id, _msg) = core.start_request(CoreRequest::Sleep { millis: 3000 }, 8, 0).expect("ok");
    let (chan, cancel_msg) = core.cancel(id, 200);
    // The waiter's channel comes back at once, before any wire traffic.
    assert_eq!(chan, Some(8));
    assert_eq!(core.pending_len(), 0);
    assert_eq!(cancel_msg.payload, IpcPayload::Cancel(id));
    assert_ne!(cancel_msg.id, id, "the cancel envelope travels under its own id");
    assert_eq!(cancel_msg.deadline_millis, 200 + CANCEL_DEADLINE_MS);
    // A late response after the cancel is dropped.
    let late = IpcMessage {
        id,
        deadline_millis: 0,
        payload: IpcPayload::Response(CoreResponse::Success),
    };
    match core.handle_message(late) {
        Routed::Ignored => {}
        other => panic!("expected drop, got {:?}", routed_name(&other)),
    }
}

#[test]
fn client_timeout_removes_entry() {
    let mut core: ClientCore<u32> = ClientCore::new(small_config(10));
    let (id, _msg) = core.start_request(CoreRequest::Ping, 3, 0).expect("ok");
    assert_eq!(core.on_timeout(id), Some(3));
    assert_eq!(core.on_timeout(id), None);
    assert_eq!(core.pending_len(), 0);
}

#[test]
fn client_default_config() {
    let config = IpcConfig::default();
    assert_eq!(config.request_timeout_ms, DEFAULT_REQUEST_TIMEOUT_MS);
    assert_eq!(config.request_timeout_ms, 30_000);
    assert_eq!(config.max_message_size, 1024 * 1024);
    assert_eq!(config.max_pending_requests, 10_000);
    let t0 = now_millis();
    let t1 = now_millis();
    assert!(t1 >= t0);
}

#[test]
fn client_backoff_schedule() {
    let mut delay = BACKOFF_INITIAL_MS;
    let mut seen = Vec::new();
    for _ in 0..8 {
        seen.push(delay);
        delay = next_backoff_delay(delay);
    }
    assert_eq!(seen, vec![100, 200, 400, 800, 1600, 3200, 5000, 5000]);
    assert_eq!(next_backoff_delay(BACKOFF_CAP_MS), BACKOFF_CAP_MS);
}

#[test]
fn client_ping_handshake_decision() {
    assert!(check_ping_response(&CoreResponse::Pong).is_ok());
    match check_ping_response(&CoreResponse::Success) {
        Err(IpcError::ConnectionFailed(m)) => {
            assert!(m.contains("Unexpected response to ping"))
        }
        other => panic!("expected ConnectionFailed, got {:?}", other),
    }
}

fn routed_name(r: &Routed<u32>) -> &'static str {
    match r {
        Routed::Deliver(_, _) => "Deliver",
        Routed::Notify(_) => "Notify",
        Routed::Ignored => "Ignored",
    }
}

fn request_envelope(id: u128, deadline: u64, req: CoreRequest) -> IpcMessage {
    IpcMessage { id: RequestId(id), deadline_millis: deadline, payload: IpcPayload::Request(req) }
}

fn error_text(action: &ConnAction<u32>) -> String {
    match action {
        ConnAction::Reply(m) => match &m.payload {
            IpcPayload::Response(CoreResponse::Error { message }) => message.clone(),
            other => panic!("expected an error response, got {:?}", other),
        },
        _ => panic!("expected a reply"),
    }
}

#[test]
fn server_deadline_rejection() {
    let mut conn: ConnState<u32> = ConnState::new(4);
    let mut metrics = ServerMetrics::new();
    let now: u64 = 10_000;
    let msg = request_envelope(1, now - 1000, CoreRequest::Ping);
    let action = conn.conn_step(&mut metrics, msg, now);
    assert!(error_text(&action).contains("Deadline exceeded"));
    match &action {
        ConnAction::Reply(m) => assert_eq!(m.id, RequestId(1), "the rejection echoes the id"),
        _ => unreachable!(),
    }
    assert_eq!(metrics.deadlines, 1);
    assert_eq!(metrics.cancels, 0);
    assert_eq!(metrics.backpressure, 0);
    assert_eq!(conn.inflight_len(), 0, "the handler never ran");
}

#[test]
fn server_unset_deadline_not_rejected() {
    let mut conn: ConnState<u32> = ConnState::new(4);
    let mut metrics = ServerMetrics::new();
    let msg = request_envelope(1, 0, CoreRequest::Ping);
    match conn.conn_step(&mut metrics, msg, u64::MAX) {
        ConnAction::Dispatch(id, CoreRequest::Ping) => assert_eq!(id, RequestId(1)),
        _ => panic!("an unset deadline must admit the request"),
    }
    assert_eq!(metrics.deadlines, 0);
}

#[test]
fn server_backpressure_rejection() {
    let mut conn: ConnState<u32> = ConnState::new(1);
    let mut metrics = ServerMetrics::new();
    // Request A is admitted and registered.
    let a = request_envelope(1, 0, CoreRequest::Sleep { millis: 5000 });
    match conn.conn_step(&mut metrics, a, 100) {
        ConnAction::Dispatch(id, _) => conn.insert_inflight(id, 71),
        _ => panic!("request A must be admitted"),
    }
    // Request B hits the in-flight cap.
    let b = request_envelope(2, 0, CoreRequest::Sleep { millis: 10 });
    let action = conn.conn_step(&mut metrics, b, 101);
    assert!(error_text(&action).contains("Backpressure"));
    assert_eq!(metrics.backpressure, 1);
    // Cancelling A frees the slot; the counter stays.
    let cancel = IpcMessage {
        id: RequestId(3),
        deadline_millis: 0,
        payload: IpcPayload::Cancel(RequestId(1)),
    };
    match conn.conn_step(&mut metrics, cancel, 102) {
        ConnAction::AbortAndConfirm(handle, confirm) => {
            assert_eq!(handle, 71);
            assert_eq!(confirm.id, RequestId(3), "confirmation uses the cancel envelope's id");
        }
        _ => panic!("the cancel target was in flight"),
    }
    assert_eq!(conn.inflight_len(), 0);
    assert!(metrics.backpressure >= 1);
    assert_eq!(metrics.cancels, 1);
}

#[test]
fn server_cancel_counts_and_aborts() {
    let mut conn: ConnState<u32> = ConnState::new(8);
    let mut metrics = ServerMetrics::new();
    let sleep = request_envelope(5, 0, CoreRequest::Sleep { millis: 3000 });
    match conn.conn_step(&mut metrics, sleep, 0) {
        ConnAction::Dispatch(id, _) => conn.insert_inflight(id, 9),
        _ => panic!("must dispatch"),
    }
    let cancel = IpcMessage {
        id: RequestId(6),
        deadline_millis: 0,
        payload: IpcPayload::Cancel(RequestId(5)),
    };
    match conn.conn_step(&mut metrics, cancel, 50) {
        ConnAction::AbortAndConfirm(handle, confirm) => {
            assert_eq!(handle, 9);
            assert!(error_msg_of(&confirm).contains("Cancelled"));
        }
        _ => panic!("expected abort"),
    }
    assert!(metrics.cancels >= 1);
    // The snapshot responds with the counters.
    match immediate_response(&CoreRequest::GetStats, &metrics) {
        Some(CoreResponse::Stats { cancels, deadlines, backpressure }) => {
            assert!(cancels >= 1);
            assert_eq!(deadlines, 0);
            assert_eq!(backpressure, 0);
        }
        other => panic!("expected stats, got {:?}", other),
    }
}

fn error_msg_of(m: &IpcMessage) -> String {
    match &m.payload {
        IpcPayload::Response(CoreResponse::Error { message }) => message.clone(),
        other => panic!("expected an error response, got {:?}", other),
    }
}

#[test]
fn server_cancel_unknown_id_is_noop() {
    let mut conn: ConnState<u32> = ConnState::new(8);
    let mut metrics = ServerMetrics::new();
    let cancel = IpcMessage {
        id: RequestId(6),
        deadline_millis: 0,
        payload: IpcPayload::Cancel(RequestId(12345)),
    };
    match conn.conn_step(&mut metrics, cancel, 50) {
        ConnAction::Ignore => {}
        _ => panic!("a cancel for an unknown id does nothing further"),
    }
    assert_eq!(metrics.cancels, 1, "the counter still counts the envelope");
}

#[test]
fn server_workspace_root_follows_get_project_files() {
    let mut conn: ConnState<u32> = ConnState::new(8);
    let mut metrics = ServerMetrics::new();
    assert_eq!(conn.workspace_root, None);
    let msg = request_envelope(1, 0, CoreRequest::GetProjectFiles {
        root_path: "/work/demo".to_string(),
    });
    match conn.conn_step(&mut metrics, msg, 0) {
        ConnAction::Dispatch(_, CoreRequest::GetProjectFiles { root_path }) => {
            assert_eq!(root_path, "/work/demo")
        }
        _ => panic!("must dispatch"),
    }
    assert_eq!(conn.workspace_root.as_deref(), Some("/work/demo"));
    // Other requests leave the cached root alone.
    let ping = request_envelope(2, 0, CoreRequest::Ping);
    let _ = conn.conn_step(&mut metrics, ping, 0);
    assert_eq!(conn.workspace_root.as_deref(), Some("/work/demo"));
}

#[test]
fn server_drops_client_side_payload_kinds() {
    let mut conn: ConnState<u32> = ConnState::new(8);
    let mut metrics = ServerMetrics::new();
    let bogus = IpcMessage {
        id: RequestId(1),
        deadline_millis: 0,
        payload: IpcPayload::Response(CoreResponse::Pong),
    };
    match conn.conn_step(&mut metrics, bogus, 0) {
        ConnAction::Ignore => {}
        _ => panic!("a response from a client is dropped"),
    }
    assert_eq!(metrics, ServerMetrics::new());
}

#[test]
fn server_immediate_responses() {
    let metrics = ServerMetrics::new();
    assert_eq!(immediate_response(&CoreRequest::Ping, &metrics), Some(CoreResponse::Pong));
    match immediate_response(
        &CoreRequest::LspRequest {
            server: "s".to_string(),
            method: "m".to_string(),
            params: "{}".to_string(),
        },
        &metrics,
    ) {
        Some(CoreResponse::Error { message }) => {
            assert!(message.contains("LSP bridge not implemented"))
        }
        other => panic!("expected error, got {:?}", other),
    }
    assert_eq!(
        immediate_response(&CoreRequest::OpenBuffer { path: "x".to_string() }, &metrics),
        None,
        "buffer work needs the handler"
    );
}

#[test]
fn server_response_envelope_echoes_id() {
    let envelope = response_envelope(RequestId(99), CoreResponse::Pong);
    assert_eq!(envelope.id, RequestId(99));
    assert_eq!(envelope.deadline_millis, 0);
    assert_eq!(envelope.payload, IpcPayload::Response(CoreResponse::Pong));
}

#[test]
fn server_handler_outcome_folding() {
    match open_buffer_response(Ok(("buf-1".to_string(), "hello world\n".to_string()))) {
        CoreResponse::BufferOpened { buffer_id, content } => {
            assert_eq!(buffer_id, "buf-1");
            assert!(content.contains("hello world"));
        }
        other => panic!("expected BufferOpened, got {:?}", other),
    }
    match open_buffer_response(Err("no such file".to_string())) {
        CoreResponse::Error { message } => {
            assert_eq!(message, "OpenBuffer failed: no such file")
        }
        other => panic!("expected Error, got {:?}", other),
    }
    assert_eq!(
        save_buffer_response("b".to_string(), Ok(())),
        CoreResponse::BufferSaved { buffer_id: "b".to_string() }
    );
    match save_buffer_response("b".to_string(), Err("disk full".to_string())) {
        CoreResponse::Error { message } => assert_eq!(message, "SaveBuffer failed: disk full"),
        other => panic!("expected Error, got {:?}", other),
    }
    assert_eq!(
        close_buffer_response("b".to_string(), Ok(())),
        CoreResponse::BufferClosed { buffer_id: "b".to_string() }
    );
    match close_buffer_response("b".to_string(), Err("unknown".to_string())) {
        CoreResponse::Error { message } => assert_eq!(message, "CloseBuffer failed: unknown"),
        other => panic!("expected Error, got {:?}", other),
    }
    let hits = vec![SearchResult {
        path: "src/main.rs".to_string(),
        line_number: 3,
        column: 1,
        line_text: "fn main".to_string(),
        match_text: "main".to_string(),
    }];
    assert_eq!(
        search_response(Ok(hits.clone())),
        CoreResponse::SearchResults { results: hits }
    );
    match search_response(Err("rg timed out".to_string())) {
        CoreResponse::Error { message } => assert_eq!(message, "Search failed: rg timed out"),
        other => panic!("expected Error, got {:?}", other),
    }
    match project_files_response(Ok(vec!["src/main.rs".to_string(), "README.md".to_string()])) {
        CoreResponse::ProjectFiles { files } => {
            assert!(files.iter().any(|f| f.ends_with("src/main.rs")));
            assert!(files.iter().any(|f| f.ends_with("README.md")));
        }
        other => panic!("expected ProjectFiles, got {:?}", other),
    }
    match project_files_response(Err("not a directory".to_string())) {
        CoreResponse::Error { message } => {
            assert_eq!(message, "GetProjectFiles failed: not a directory")
        }
        other => panic!("expected Error, got {:?}", other),
    }
}
