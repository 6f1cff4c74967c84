use devmux::mux::{
    fetch_failure_reply, fetch_reply, resolve_target, Command, CommandKind, DemuxAction,
    FetchError, Multiplexer, StreamReply, WaitOutcome, FETCH_TIMEOUT_SECS,
};
use devmux::tokenmap::TokenMap;

fn reply(device: &str, success: bool, payload: &[u8]) -> StreamReply {
    StreamReply {
        device_id: device.to_string(),
        success,
        raw_output: payload.to_vec(),
        error_message: String::new(),
    }
}

#[test]
fn fetch_before_stream_is_not_connected() {
    let mut m = Multiplexer::new();
    let d = "dev1".to_string();
    let (route, superseded) = m.begin_fetch(&d, 1);
    assert!(matches!(route, Err(FetchError::NotConnected)));
    assert!(superseded.is_none());
    assert_eq!(
        FetchError::NotConnected.message(),
        "Device not connected".to_string()
    );
}

#[test]
fn fetch_then_reply_delivers_exact_payload() {
    let mut m = Multiplexer::new();
    let d = "dev1".to_string();
    assert!(m.open_stream(d.clone(), 7).is_none());
    let (route, _) = m.begin_fetch(&d, 42);
    let (channel, command): (u64, Command) = route.expect("stream is registered");
    assert_eq!(channel, 7);
    assert_eq!(command.device_id, d);
    assert!(matches!(command.kind, CommandKind::FetchTree));
    let action = m.handle_message(reply("dev1", true, b"tree-bytes"));
    match action {
        DemuxAction::Deliver { handle, payload } => {
            assert_eq!(handle, 42);
            assert_eq!(payload, b"tree-bytes".to_vec());
            let r = fetch_reply(WaitOutcome::Replied { payload });
            assert!(r.success);
            assert_eq!(r.raw_output, b"tree-bytes".to_vec());
            assert_eq!(r.error_message, String::new());
        }
        DemuxAction::Ignore => panic!("reply must resolve the pending fetch"),
    }
}

#[test]
fn timeout_removes_pending_and_late_reply_is_dropped() {
    let mut m = Multiplexer::new();
    let d = "dev1".to_string();
    m.open_stream(d.clone(), 7);
    let (route, _) = m.begin_fetch(&d, 42);
    assert!(route.is_ok());
    m.fetch_timed_out(&d);
    let late = m.handle_message(reply("dev1", true, b"late"));
    assert!(matches!(late, DemuxAction::Ignore));
    let r = fetch_reply(WaitOutcome::TimedOut);
    assert!(!r.success);
    assert_eq!(
        r.error_message,
        "Timeout waiting for Flutter client response".to_string()
    );
    assert!(r.raw_output.is_empty());
}

#[test]
fn disconnect_is_reported_distinct_from_timeout() {
    let dropped = fetch_reply(WaitOutcome::SenderDropped);
    assert!(!dropped.success);
    assert_eq!(
        dropped.error_message,
        "Failed to get response from Flutter client".to_string()
    );
    assert!(dropped.raw_output.is_empty());
    let timed_out = fetch_reply(WaitOutcome::TimedOut);
    assert_ne!(dropped.error_message, timed_out.error_message);
}

#[test]
fn keep_alive_never_disturbs_pending_fetch() {
    let mut m = Multiplexer::new();
    let d = "heartbeat-device".to_string();
    m.open_stream(d.clone(), 3);
    let (route, _) = m.begin_fetch(&d, 9);
    assert!(route.is_ok());
    let beat = m.handle_message(reply("heartbeat", true, b"ignored"));
    assert!(matches!(beat, DemuxAction::Ignore));
    let real = m.handle_message(reply("heartbeat-device", true, b"data"));
    assert!(matches!(real, DemuxAction::Deliver { handle: 9, .. }));
}

#[test]
fn failure_flag_messages_are_discarded_silently() {
    let mut m = Multiplexer::new();
    let d = "dev1".to_string();
    m.open_stream(d.clone(), 7);
    let (route, _) = m.begin_fetch(&d, 42);
    assert!(route.is_ok());
    let failed = m.handle_message(reply("dev1", false, b"partial"));
    assert!(matches!(failed, DemuxAction::Ignore));
    let ok = m.handle_message(reply("dev1", true, b"whole"));
    assert!(matches!(ok, DemuxAction::Deliver { handle: 42, .. }));
}

#[test]
fn wildcard_requires_exactly_one_device() {
    let any = "any".to_string();
    let one = vec!["only-device".to_string()];
    assert_eq!(resolve_target(&any, &one).unwrap(), "only-device".to_string());
    let none: Vec<String> = Vec::new();
    assert!(matches!(
        resolve_target(&any, &none),
        Err(FetchError::AmbiguousTarget)
    ));
    let two = vec!["a".to_string(), "b".to_string()];
    assert!(matches!(
        resolve_target(&any, &two),
        Err(FetchError::AmbiguousTarget)
    ));
    let named = "dev2".to_string();
    assert_eq!(resolve_target(&named, &two).unwrap(), "dev2".to_string());
}

#[test]
fn reregistration_supersedes_older_stream() {
    let mut m = Multiplexer::new();
    let d = "dev1".to_string();
    assert!(m.open_stream(d.clone(), 1).is_none());
    assert_eq!(m.open_stream(d.clone(), 2), Some(1));
    let (route, _) = m.begin_fetch(&d, 5);
    let (channel, _) = route.expect("newer stream is registered");
    assert_eq!(channel, 2);
}

#[test]
fn stale_close_does_not_evict_newer_stream() {
    let mut m = Multiplexer::new();
    let d = "dev1".to_string();
    m.open_stream(d.clone(), 1);
    m.open_stream(d.clone(), 2);
    m.close_stream(&d, 1);
    let (route, _) = m.begin_fetch(&d, 5);
    assert!(matches!(route, Ok((2, _))));
    m.close_stream(&d, 2);
    let (route2, _) = m.begin_fetch(&d, 6);
    assert!(matches!(route2, Err(FetchError::NotConnected)));
}

#[test]
fn second_fetch_supersedes_first_handle() {
    let mut m = Multiplexer::new();
    let d = "dev1".to_string();
    m.open_stream(d.clone(), 7);
    let (_, first) = m.begin_fetch(&d, 10);
    assert!(first.is_none());
    let (_, superseded) = m.begin_fetch(&d, 11);
    assert_eq!(superseded, Some(10));
    let action = m.handle_message(reply("dev1", true, b"x"));
    assert!(matches!(action, DemuxAction::Deliver { handle: 11, .. }));
}

#[test]
fn out_of_band_update_resolves_once() {
    let mut m = Multiplexer::new();
    let d = "dev1".to_string();
    m.open_stream(d.clone(), 7);
    let (route, _) = m.begin_fetch(&d, 42);
    assert!(route.is_ok());
    let first = m.handle_accessibility_data_update(&d, b"payload".to_vec());
    assert!(matches!(first, DemuxAction::Deliver { handle: 42, .. }));
    let second = m.handle_accessibility_data_update(&d, b"payload".to_vec());
    assert!(matches!(second, DemuxAction::Ignore));
}

#[test]
fn failure_reply_carries_error_text() {
    let r = fetch_failure_reply(&FetchError::NotConnected);
    assert!(!r.success);
    assert_eq!(r.error_message, "Device not connected".to_string());
    assert!(r.raw_output.is_empty());
    let a = fetch_failure_reply(&FetchError::AmbiguousTarget);
    assert_eq!(
        a.error_message,
        "Wildcard target requires exactly one connected device".to_string()
    );
    let s = fetch_failure_reply(&FetchError::SendFailed);
    assert!(!s.success);
    assert_eq!(s.error_message, "Failed to send command".to_string());
}

#[test]
fn timeout_window_is_five_seconds() {
    assert_eq!(FETCH_TIMEOUT_SECS, 5);
}

#[test]
fn token_map_binds_and_takes_once() {
    let mut t = TokenMap::new();
    let k = "key".to_string();
    assert!(t.insert(k.clone(), 1).is_none());
    assert_eq!(t.get(&k), Some(1));
    assert_eq!(t.insert(k.clone(), 2), Some(1));
    assert_eq!(t.get(&k), Some(2));
    assert_eq!(t.take(&k), Some(2));
    assert_eq!(t.get(&k), None);
    assert_eq!(t.take(&k), None);
}

#[test]
fn token_map_guarded_removal() {
    let mut t = TokenMap::new();
    let k = "key".to_string();
    t.insert(k.clone(), 1);
    t.remove_if_val(&k, 2);
    assert_eq!(t.get(&k), Some(1));
    t.remove_if_val(&k, 1);
    assert_eq!(t.get(&k), None);
}
