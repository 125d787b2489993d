//! The session history service: pre/post correlation, history bounds,
//! statistics, and the wire frame codec.

use wake::{
    frame_decode, frame_encode, CommandEntry, CommandHistory, HistoryStats, ResponseData,
    WakeRequest, WakeResponse, WakeSessionClient, WakeSessionServer,
};

fn entries_of(resp: WakeResponse) -> Vec<CommandEntry> {
    match resp {
        WakeResponse::Success {
            data: ResponseData::Commands(v),
        } => v,
        other => panic!("expected commands, got {:?}", other),
    }
}

fn stats_of(resp: WakeResponse) -> HistoryStats {
    match resp {
        WakeResponse::Success {
            data: ResponseData::Stats(st),
        } => st,
        other => panic!("expected stats, got {:?}", other),
    }
}

#[test]
fn pre_and_post_record_a_command() {
    let mut server = WakeSessionServer::new("abc", 10, 1024);
    let resp = server.process_request(
        WakeRequest::PreCmd {
            cmd: "ls -l".to_string(),
        },
        1000,
    );
    assert_eq!(
        resp,
        WakeResponse::Success {
            data: ResponseData::Empty
        }
    );
    let resp = server.process_request(
        WakeRequest::PostCmd {
            cmd: "ls -l".to_string(),
            exit_code: 0,
        },
        1450,
    );
    assert_eq!(
        resp,
        WakeResponse::Success {
            data: ResponseData::Empty
        }
    );
    let entries = entries_of(server.process_request(WakeRequest::GetAllCmd, 2000));
    assert_eq!(entries.len(), 1);
    assert_eq!(entries[0].command, "ls -l");
    assert_eq!(entries[0].exit_code, Some(0));
    assert_eq!(entries[0].duration_ms, Some(450));
    assert_eq!(entries[0].started_at_ms, 1000);
}

/// A `PostCmd` naming a command other than the pending one is rejected, and
/// the pending command is cleared either way.
#[test]
fn mismatched_postcmd_rejected() {
    let mut server = WakeSessionServer::new("abc", 10, 1024);
    server.process_request(
        WakeRequest::PreCmd {
            cmd: "make".to_string(),
        },
        0,
    );
    let resp = server.process_request(
        WakeRequest::PostCmd {
            cmd: "make test".to_string(),
            exit_code: 2,
        },
        5,
    );
    assert_eq!(
        resp,
        WakeResponse::Failure {
            message: "PostCmd command doesn't match pending PreCmd".to_string()
        }
    );
    // The pending command was consumed: even the right name is now stale.
    let resp = server.process_request(
        WakeRequest::PostCmd {
            cmd: "make".to_string(),
            exit_code: 2,
        },
        6,
    );
    assert!(matches!(resp, WakeResponse::Failure { .. }));
    // The entry stays, with its exit code unknown.
    let entries = entries_of(server.process_request(WakeRequest::GetAllCmd, 10));
    assert_eq!(entries.len(), 1);
    assert_eq!(entries[0].exit_code, None);
}

#[test]
fn get_last_commands_returns_suffix() {
    let mut server = WakeSessionServer::new("abc", 10, 1024);
    for (i, cmd) in ["one", "two", "three"].iter().enumerate() {
        server.process_request(
            WakeRequest::PreCmd {
                cmd: cmd.to_string(),
            },
            i as u64,
        );
        server.process_request(
            WakeRequest::PostCmd {
                cmd: cmd.to_string(),
                exit_code: 0,
            },
            i as u64 + 1,
        );
    }
    let last_two = entries_of(server.process_request(WakeRequest::GetLastCmd { n: 2 }, 100));
    assert_eq!(last_two.len(), 2);
    assert_eq!(last_two[0].command, "two");
    assert_eq!(last_two[1].command, "three");
    let all = entries_of(server.process_request(WakeRequest::GetLastCmd { n: 99 }, 100));
    assert_eq!(all.len(), 3);
}

#[test]
fn status_reports_exact_statistics() {
    let mut server = WakeSessionServer::new("abc", 10, 1024);
    let commands = [("a", 0, 100u64), ("b", 1, 200), ("c", 0, 300)];
    for (cmd, code, end) in commands {
        server.process_request(
            WakeRequest::PreCmd {
                cmd: cmd.to_string(),
            },
            0,
        );
        server.process_request(
            WakeRequest::PostCmd {
                cmd: cmd.to_string(),
                exit_code: code,
            },
            end,
        );
    }
    let st = stats_of(server.process_request(WakeRequest::Status, 1000));
    assert_eq!(st.total_commands, 3);
    assert_eq!(st.successful_commands, 2);
    assert_eq!(st.failed_commands, 1);
    // (100 + 200 + 300) / 3
    assert_eq!(st.average_duration_ms, Some(200));

    server.process_request(WakeRequest::Clear, 1001);
    let st = stats_of(server.process_request(WakeRequest::Status, 1002));
    assert_eq!(st.total_commands, 0);
    assert_eq!(st.average_duration_ms, None);
}

/// The bounded history drops its oldest entry once the bound is reached.
#[test]
fn history_drops_oldest_when_full() {
    let mut history = CommandHistory::new(2);
    history.enqueue(CommandEntry::new("first".to_string(), 64, 0));
    history.enqueue(CommandEntry::new("second".to_string(), 64, 1));
    history.enqueue(CommandEntry::new("third".to_string(), 64, 2));
    let entries = history.entries();
    assert_eq!(entries.len(), 2);
    assert_eq!(entries[0].command, "second");
    assert_eq!(entries[1].command, "third");
}

/// Output feeds the most recent entry only while its exit code is unknown,
/// and is truncated at the entry's cap.
#[test]
fn output_capture_rules() {
    let mut server = WakeSessionServer::new("abc", 4, 1024);
    server.process_request(
        WakeRequest::PreCmd {
            cmd: "cat".to_string(),
        },
        0,
    );
    server.add_output(b"hello ");
    server.add_output(b"world");
    server.process_request(
        WakeRequest::PostCmd {
            cmd: "cat".to_string(),
            exit_code: 0,
        },
        9,
    );
    // Finished: further output is dropped.
    server.add_output(b" ignored");
    let entries = entries_of(server.process_request(WakeRequest::GetAllCmd, 10));
    assert_eq!(entries[0].output, b"hello world");

    let mut entry = CommandEntry::new("big".to_string(), 4, 0);
    entry.add_output(b"abcdefgh");
    assert_eq!(entry.output, b"abcd");
}

#[test]
fn socket_paths_follow_session_id() {
    let server = WakeSessionServer::new("s123", 10, 1024);
    assert_eq!(server.socket_path().as_str(), "/tmp/wake_history_s123");
    let client = WakeSessionClient::new("s123");
    assert_eq!(client.socket_path().as_str(), "/tmp/wake_history_s123");
}

/// Only plain failures call for analysis: successes and signal-driven exits
/// (128 and above) are left alone.
#[test]
fn exit_code_analysis_rule() {
    assert!(!wake::should_analyze_exit(0));
    assert!(wake::should_analyze_exit(1));
    assert!(wake::should_analyze_exit(127));
    assert!(!wake::should_analyze_exit(128));
    assert!(!wake::should_analyze_exit(130));
    assert!(wake::should_analyze_exit(-1));
}

/// A framed payload decodes back to itself; a truncated frame decodes to
/// nothing.
#[test]
fn frame_codec_round_trip() {
    let payload: Vec<u8> = b"{\"kind\":\"Status\"}".to_vec();
    let framed = frame_encode(&payload);
    assert_eq!(framed.len(), payload.len() + 4);
    assert_eq!(&framed[0..4], &[0, 0, 0, payload.len() as u8]);

    let (decoded, consumed) = frame_decode(&framed).unwrap();
    assert_eq!(decoded, payload);
    assert_eq!(consumed, framed.len());

    // With trailing bytes the frame still decodes to the same payload.
    let mut buf = framed.clone();
    buf.extend_from_slice(b"extra");
    let (decoded, consumed) = frame_decode(&buf).unwrap();
    assert_eq!(decoded, payload);
    assert_eq!(consumed, framed.len());

    // A truncated buffer holds no frame yet.
    assert!(frame_decode(&framed[0..3].to_vec()).is_none());
    assert!(frame_decode(&framed[0..framed.len() - 1].to_vec()).is_none());
    // An empty payload frames to just the length field.
    let empty = frame_encode(&Vec::new());
    assert_eq!(empty, vec![0, 0, 0, 0]);
    let (decoded, consumed) = frame_decode(&empty).unwrap();
    assert!(decoded.is_empty());
    assert_eq!(consumed, 4);
}
