//! Round trips and exact byte layout of the envelope codec and frame layer.

use atom_ipc::wire::{RequestId, IpcMessage, IpcPayload, CoreRequest, CoreResponse, Notification,
    SearchOptions, SearchResult, TextChange, TextRange, FileChangeType};
use atom_ipc::encode::encode_message;
use atom_ipc::decode::decode_message;
use atom_ipc::frame::{encode_frame, encode_header, parse_frame_header, check_header,
    decode_frame_payload, FrameHeader, MAX_MESSAGE_SIZE, PROTOCOL_VERSION};
use atom_ipc::IpcError;

fn round_trip(msg: IpcMessage) {
    let bytes = encode_message(&msg);
    let back = decode_message(bytes.as_slice()).expect("decode must succeed");
    assert_eq!(back, msg);
}

#[test]
fn envelope_round_trip_requests() {
    let requests = vec![
        CoreRequest::Ping,
        CoreRequest::Sleep { millis: 5000 },
        CoreRequest::OpenBuffer { path: "/tmp/a.txt".to_string() },
        CoreRequest::SaveBuffer { buffer_id: "buf-1".to_string(), content: "hi\n".to_string() },
        CoreRequest::CloseBuffer { buffer_id: "buf-2".to_string() },
        CoreRequest::Search {
            query: "needle".to_string(),
            options: SearchOptions {
                case_sensitive: true,
                whole_word: false,
                regex: true,
                include_pattern: Some("*.rs".to_string()),
                exclude_pattern: None,
                max_results: Some(10),
            },
        },
        CoreRequest::LspRequest {
            server: "rust-analyzer".to_string(),
            method: "textDocument/hover".to_string(),
            params: "{\"line\":3}".to_string(),
        },
        CoreRequest::GetProjectFiles { root_path: "/work".to_string() },
        CoreRequest::GetStats,
    ];
    for (i, req) in requests.into_iter().enumerate() {
        round_trip(IpcMessage {
            id: RequestId(i as u128 + 1),
            deadline_millis: 1234567890,
            payload: IpcPayload::Request(req),
        });
    }
}

#[test]
fn envelope_round_trip_responses() {
    let responses = vec![
        CoreResponse::Pong,
        CoreResponse::BufferOpened {
            buffer_id: "b".to_string(),
            content: "hello world\n".to_string(),
        },
        CoreResponse::BufferSaved { buffer_id: "b".to_string() },
        CoreResponse::BufferClosed { buffer_id: "b".to_string() },
        CoreResponse::SearchResults {
            results: vec![
                SearchResult {
                    path: "src/main.rs".to_string(),
                    line_number: 10,
                    column: 4,
                    line_text: "fn main() {".to_string(),
                    match_text: "main".to_string(),
                },
                SearchResult {
                    path: "README.md".to_string(),
                    line_number: 1,
                    column: 0,
                    line_text: "# main".to_string(),
                    match_text: "main".to_string(),
                },
            ],
        },
        CoreResponse::LspResponse { result: "null".to_string() },
        CoreResponse::ProjectFiles {
            files: vec!["src/main.rs".to_string(), "README.md".to_string()],
        },
        CoreResponse::Stats { cancels: 1, deadlines: 2, backpressure: 3 },
        CoreResponse::Success,
        CoreResponse::Error { message: "Deadline exceeded".to_string() },
    ];
    for (i, resp) in responses.into_iter().enumerate() {
        round_trip(IpcMessage {
            id: RequestId(u128::MAX - i as u128),
            deadline_millis: 0,
            payload: IpcPayload::Response(resp),
        });
    }
}

#[test]
fn envelope_round_trip_notifications_and_cancel() {
    round_trip(IpcMessage {
        id: RequestId(42),
        deadline_millis: 0,
        payload: IpcPayload::Notification(Notification::BufferChanged {
            buffer_id: "b1".to_string(),
            changes: vec![TextChange {
                range: TextRange { start_line: 0, start_column: 1, end_line: 2, end_column: 3 },
                new_text: "x".to_string(),
                old_text: "y".to_string(),
            }],
        }),
    });
    round_trip(IpcMessage {
        id: RequestId(43),
        deadline_millis: 0,
        payload: IpcPayload::Notification(Notification::DiagnosticsUpdate {
            uri: "file:///a.rs".to_string(),
            diagnostics: vec!["warning: unused".to_string()],
        }),
    });
    round_trip(IpcMessage {
        id: RequestId(44),
        deadline_millis: 0,
        payload: IpcPayload::Notification(Notification::FileSystemChanged {
            path: "/w/x.rs".to_string(),
            change_type: FileChangeType::Renamed {
                old_path: "/w/x.rs".to_string(),
                new_path: "/w/y.rs".to_string(),
            },
        }),
    });
    round_trip(IpcMessage {
        id: RequestId(45),
        deadline_millis: 5000,
        payload: IpcPayload::Cancel(RequestId(7)),
    });
}

#[test]
fn envelope_round_trip_non_ascii() {
    round_trip(IpcMessage {
        id: RequestId(46),
        deadline_millis: 0,
        payload: IpcPayload::Response(CoreResponse::BufferOpened {
            buffer_id: "b".to_string(),
            content: "héllo wörld — ★\u{1F600}\n".to_string(),
        }),
    });
}

#[test]
fn envelope_exact_bytes_ping() {
    // id 2 LE over 16 bytes, deadline 3 LE over 8 bytes, payload tag 0
    // (request), request tag 0 (ping).
    let msg = IpcMessage {
        id: RequestId(2),
        deadline_millis: 3,
        payload: IpcPayload::Request(CoreRequest::Ping),
    };
    let bytes = encode_message(&msg);
    let mut expected = vec![2u8, 0, 0, 0, 0, 0, 0, 0, 0, 0, 0, 0, 0, 0, 0, 0];
    expected.extend_from_slice(&[3u8, 0, 0, 0, 0, 0, 0, 0]);
    expected.extend_from_slice(&[0u8, 0]);
    assert_eq!(bytes, expected);
}

#[test]
fn envelope_exact_bytes_string_field() {
    // Strings are a u64 little-endian byte count then UTF-8 bytes.
    let msg = IpcMessage {
        id: RequestId(0),
        deadline_millis: 0,
        payload: IpcPayload::Request(CoreRequest::OpenBuffer { path: "ab".to_string() }),
    };
    let bytes = encode_message(&msg);
    let mut expected = vec![0u8; 24];
    expected.push(0); // payload tag: request
    expected.push(2); // request tag: open buffer
    expected.extend_from_slice(&[2u8, 0, 0, 0, 0, 0, 0, 0]); // byte count
    expected.extend_from_slice(b"ab");
    assert_eq!(bytes, expected);
}

#[test]
fn decode_rejects_truncated_and_trailing() {
    let msg = IpcMessage {
        id: RequestId(9),
        deadline_millis: 0,
        payload: IpcPayload::Request(CoreRequest::Ping),
    };
    let bytes = encode_message(&msg);
    assert!(decode_message(&bytes[..bytes.len() - 1]).is_none());
    let mut extended = bytes.clone();
    extended.push(0);
    assert!(decode_message(extended.as_slice()).is_none());
    assert!(decode_message(&[]).is_none());
}

#[test]
fn decode_rejects_unknown_tags() {
    let msg = IpcMessage {
        id: RequestId(9),
        deadline_millis: 0,
        payload: IpcPayload::Request(CoreRequest::Ping),
    };
    let mut bytes = encode_message(&msg);
    bytes[24] = 9; // unknown payload tag
    assert!(decode_message(bytes.as_slice()).is_none());
    let mut bytes2 = encode_message(&msg);
    bytes2[25] = 200; // unknown request tag
    assert!(decode_message(bytes2.as_slice()).is_none());
}

#[test]
fn decode_rejects_invalid_utf8() {
    let msg = IpcMessage {
        id: RequestId(1),
        deadline_millis: 0,
        payload: IpcPayload::Request(CoreRequest::OpenBuffer { path: "ab".to_string() }),
    };
    let mut bytes = encode_message(&msg);
    let n = bytes.len();
    bytes[n - 2] = 0xFF; // not valid UTF-8
    assert!(decode_message(bytes.as_slice()).is_none());
}

#[test]
fn frame_round_trip_bytes() {
    let msg = IpcMessage {
        id: RequestId(11),
        deadline_millis: 77,
        payload: IpcPayload::Response(CoreResponse::Pong),
    };
    let frame = encode_frame(&msg, MAX_MESSAGE_SIZE).expect("fits");
    assert_eq!(&frame[0..4], b"ATOM");
    assert_eq!(frame[4], PROTOCOL_VERSION);
    assert_eq!(frame[5], 0);
    let header = parse_frame_header(&frame[0..14]);
    check_header(&header, MAX_MESSAGE_SIZE).expect("header valid");
    assert_eq!(header.length as usize, frame.len() - 14);
    let payload = &frame[14..];
    assert_eq!(header.checksum, crc32fast::hash(payload));
    let back = decode_frame_payload(&header, payload).expect("payload valid");
    assert_eq!(back, msg);
}

#[test]
fn frame_header_layout_is_fourteen_bytes() {
    let header = FrameHeader {
        magic: [0x41, 0x54, 0x4F, 0x4D],
        version: 1,
        flags: 0,
        length: 0x01020304,
        checksum: 0x0A0B0C0D,
    };
    let bytes = encode_header(&header);
    assert_eq!(bytes.len(), 14);
    assert_eq!(&bytes[0..4], b"ATOM");
    assert_eq!(bytes[4], 1);
    assert_eq!(bytes[5], 0);
    assert_eq!(&bytes[6..10], &[0x04, 0x03, 0x02, 0x01]);
    assert_eq!(&bytes[10..14], &[0x0D, 0x0C, 0x0B, 0x0A]);
    let parsed = parse_frame_header(bytes.as_slice());
    assert_eq!(parsed.magic, header.magic);
    assert_eq!(parsed.version, header.version);
    assert_eq!(parsed.flags, header.flags);
    assert_eq!(parsed.length, header.length);
    assert_eq!(parsed.checksum, header.checksum);
}

#[test]
fn frame_oversize_write_rejected() {
    let huge = "x".repeat(64);
    let msg = IpcMessage {
        id: RequestId(1),
        deadline_millis: 0,
        payload: IpcPayload::Response(CoreResponse::BufferOpened {
            buffer_id: "b1".to_string(),
            content: huge,
        }),
    };
    let err = encode_frame(&msg, 32).expect_err("must exceed the cap");
    match err {
        IpcError::InvalidFrame(m) => assert!(m.contains("Message too large")),
        other => panic!("expected InvalidFrame, got {:?}", other),
    }
    // The same envelope fits a generous cap.
    assert!(encode_frame(&msg, MAX_MESSAGE_SIZE).is_ok());
}

#[test]
fn frame_bad_magic_rejected() {
    let mut bytes = [0u8; 14];
    bytes[0..4].copy_from_slice(b"ATOX");
    bytes[4] = 1;
    let header = parse_frame_header(&bytes);
    match check_header(&header, MAX_MESSAGE_SIZE) {
        Err(IpcError::InvalidFrame(m)) => assert!(m.contains("Invalid magic bytes")),
        other => panic!("expected InvalidFrame, got {:?}", other),
    }
}

#[test]
fn frame_bad_version_rejected() {
    let mut bytes = [0u8; 14];
    bytes[0..4].copy_from_slice(b"ATOM");
    bytes[4] = 2;
    let header = parse_frame_header(&bytes);
    match check_header(&header, MAX_MESSAGE_SIZE) {
        Err(IpcError::InvalidFrame(m)) => assert!(m.contains("Unsupported protocol version")),
        other => panic!("expected InvalidFrame, got {:?}", other),
    }
}

#[test]
fn frame_oversize_length_rejected() {
    let mut bytes = [0u8; 14];
    bytes[0..4].copy_from_slice(b"ATOM");
    bytes[4] = 1;
    bytes[6..10].copy_from_slice(&(MAX_MESSAGE_SIZE + 1).to_le_bytes());
    let header = parse_frame_header(&bytes);
    match check_header(&header, MAX_MESSAGE_SIZE) {
        Err(IpcError::InvalidFrame(m)) => assert!(m.contains("Message too large")),
        other => panic!("expected InvalidFrame, got {:?}", other),
    }
}

#[test]
fn frame_checksum_mismatch_rejected() {
    let msg = IpcMessage {
        id: RequestId(5),
        deadline_millis: 0,
        payload: IpcPayload::Request(CoreRequest::Ping),
    };
    let frame = encode_frame(&msg, MAX_MESSAGE_SIZE).expect("fits");
    let mut header = parse_frame_header(&frame[0..14]);
    header.checksum = header.checksum.wrapping_add(1);
    match decode_frame_payload(&header, &frame[14..]) {
        Err(IpcError::InvalidFrame(m)) => assert!(m.contains("Checksum mismatch")),
        other => panic!("expected InvalidFrame, got {:?}", other),
    }
}

#[test]
fn frame_corrupt_payload_rejected() {
    let msg = IpcMessage {
        id: RequestId(5),
        deadline_millis: 0,
        payload: IpcPayload::Request(CoreRequest::Ping),
    };
    let frame = encode_frame(&msg, MAX_MESSAGE_SIZE).expect("fits");
    let header = parse_frame_header(&frame[0..14]);
    let mut payload = frame[14..].to_vec();
    let n = payload.len();
    payload[n - 1] = payload[n - 1].wrapping_add(1);
    // Corrupting the payload without fixing the checksum is a mismatch.
    match decode_frame_payload(&header, payload.as_slice()) {
        Err(IpcError::InvalidFrame(m)) => assert!(m.contains("Checksum mismatch")),
        other => panic!("expected InvalidFrame, got {:?}", other),
    }
    // With a recomputed checksum the payload itself fails to parse.
    let mut bad = payload.clone();
    bad[n - 1] = 99; // unknown request tag
    let mut header2 = header;
    header2.checksum = crc32fast::hash(bad.as_slice());
    match decode_frame_payload(&header2, bad.as_slice()) {
        Err(IpcError::InvalidFrame(m)) => assert!(m.contains("Invalid payload")),
        other => panic!("expected InvalidFrame, got {:?}", other),
    }
}
