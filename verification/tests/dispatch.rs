//! Dispatch behaviour: completion resolution, teardown, snapshots, routing.

use daily_python::client::CallClient;
use daily_python::client::Outcome;
use daily_python::context::DailyContext;
use daily_python::registry::Completion;
use daily_python::snapshots::Snapshots;

fn empty_snapshots() -> Snapshots {
    Snapshots::new(
        "null".to_string(),
        "{}".to_string(),
        "{}".to_string(),
        "{}".to_string(),
        "{}".to_string(),
        "{}".to_string(),
        "{}".to_string(),
    )
}

#[test]
fn each_registered_completion_fires_exactly_once() {
    let mut ctx = DailyContext::new();
    let mut client: CallClient<u32> = CallClient::new(None, empty_snapshots());

    // Five async calls; three carry a completion, two do not.
    let completions = [Some(10u32), None, Some(11u32), None, Some(12u32)];
    let mut ids = Vec::new();
    for c in completions {
        let id = client.leave(&mut ctx, c.map(Completion::Binary));
        ids.push(id);
    }

    // Resolve every issued id once; count the invocations.
    let mut fired = Vec::new();
    for id in ids.iter() {
        let payload = format!("{{\"requestId\":{}}}", id);
        match client.handle_event("request-completed", &payload) {
            Outcome::InvokeCompletion { completion, .. } => match completion {
                Completion::Binary(c) => fired.push(c),
                Completion::Unary(_) => panic!("arity was Binary at registration"),
            },
            Outcome::NoOp => {}
            Outcome::InvokeHandler { .. } => panic!("a completion event never reaches a handler"),
        }
    }
    assert_eq!(fired, vec![10, 11, 12]);

    // A second sweep over the same ids fires nothing at all.
    for id in ids.iter() {
        let payload = format!("{{\"requestId\":{}}}", id);
        assert!(matches!(
            client.handle_event("request-completed", &payload),
            Outcome::NoOp
        ));
    }
}

#[test]
fn resolving_absent_id_is_silent_and_idempotent() {
    let mut ctx = DailyContext::new();
    let mut client: CallClient<u32> = CallClient::new(None, empty_snapshots());

    // Nothing registered under id 999: dropped silently, not an error.
    assert!(matches!(
        client.handle_event("request-completed", "{\"requestId\":999}"),
        Outcome::NoOp
    ));

    // Register one completion, resolve it twice: found once, absent second.
    let id = client.leave(&mut ctx, Some(Completion::Unary(5)));
    let payload = format!("{{\"requestId\":{}}}", id);
    assert!(matches!(
        client.handle_event("request-completed", &payload),
        Outcome::InvokeCompletion { .. }
    ));
    assert!(matches!(
        client.handle_event("request-completed", &payload),
        Outcome::NoOp
    ));
}

#[test]
fn no_dispatch_after_teardown_begins() {
    let mut ctx = DailyContext::new();
    let mut client: CallClient<u32> = CallClient::new(Some(1), empty_snapshots());

    let id = client.leave(&mut ctx, Some(Completion::Binary(2)));
    let renderer_id = client
        .set_video_renderer(&mut ctx, "p1", 3, "camera", "RGBA")
        .unwrap();

    client.begin_teardown();

    // Simulated native trampoline calls keep arriving during the teardown
    // window; every one of them must become a no-op.
    let payload = format!("{{\"requestId\":{}}}", id);
    assert!(matches!(
        client.handle_event("request-completed", &payload),
        Outcome::NoOp
    ));
    assert!(matches!(
        client.handle_event("participant-joined", "{\"id\":\"p2\"}"),
        Outcome::NoOp
    ));
    assert!(client.video_frame_callback(renderer_id).is_none());
    assert!(client.event_handler().is_none());
    assert!(!client.is_live());
}

#[test]
fn snapshot_getters_reflect_most_recent_matching_event() {
    let mut client: CallClient<u32> = CallClient::new(Some(1), empty_snapshots());

    let payload = "{\"camera\":{\"enabled\":true}}";
    let out = client.handle_event("inputs-updated", payload);
    // The handler is invoked after the snapshot update, so a getter called
    // from inside it would already see the new value.
    match out {
        Outcome::InvokeHandler { method, payload: p } => {
            assert_eq!(method, "on_inputs_updated");
            assert_eq!(p, payload);
        }
        _ => panic!("a registered handler receives the inputs-updated event"),
    }
    assert_eq!(client.inputs().as_str(), payload);

    // The other snapshot categories update independently.
    client.handle_event("active-speaker-changed", "{\"id\":\"alice\"}");
    client.handle_event("participant-counts-updated", "{\"present\":3}");
    client.handle_event("publishing-updated", "{\"camera\":\"off\"}");
    client.handle_event("subscriptions-updated", "{\"bob\":\"subscribed\"}");
    client.handle_event("subscription-profiles-updated", "{\"base\":{}}");
    client.handle_event("network-stats-updated", "{\"quality\":99}");
    assert_eq!(client.active_speaker().as_str(), "{\"id\":\"alice\"}");
    assert_eq!(client.participant_counts().as_str(), "{\"present\":3}");
    assert_eq!(client.publishing().as_str(), "{\"camera\":\"off\"}");
    assert_eq!(client.subscriptions().as_str(), "{\"bob\":\"subscribed\"}");
    assert_eq!(client.subscription_profiles().as_str(), "{\"base\":{}}");
    assert_eq!(client.get_network_stats().as_str(), "{\"quality\":99}");
    // Inputs kept the earlier payload.
    assert_eq!(client.inputs().as_str(), payload);
}

#[test]
fn join_completion_end_to_end() {
    let mut ctx = DailyContext::new();
    let mut client: CallClient<u32> = CallClient::new(None, empty_snapshots());

    let id = client
        .join(&mut ctx, "https://x/meeting", None, None, Some(Completion::Binary(7)))
        .unwrap();

    // The native engine completes the request: the completion fires once,
    // with the success data and no error.
    let payload = format!("{{\"requestId\":{},\"data\":{{\"ok\":true}}}}", id);
    match client.handle_event("request-completed", &payload) {
        Outcome::InvokeCompletion { completion, value, error } => {
            match completion {
                Completion::Binary(c) => assert_eq!(c, 7),
                Completion::Unary(_) => panic!("join registered a binary completion"),
            }
            assert_eq!(value.as_deref(), Some("{\"ok\":true}"));
            assert_eq!(error, None);
        }
        _ => panic!("the registered completion fires"),
    }

    // A second completion event with the same id is dropped silently.
    assert!(matches!(
        client.handle_event("request-completed", &payload),
        Outcome::NoOp
    ));
}

#[test]
fn completion_error_payload_is_passed_through() {
    let mut ctx = DailyContext::new();
    let mut client: CallClient<u32> = CallClient::new(None, empty_snapshots());
    let id = client.leave(&mut ctx, Some(Completion::Binary(9)));
    let payload = format!("{{\"requestId\":{},\"error\":\"no meeting\"}}", id);
    match client.handle_event("request-completed", &payload) {
        Outcome::InvokeCompletion { value, error, .. } => {
            assert_eq!(value, None);
            assert_eq!(error.as_deref(), Some("no meeting"));
        }
        _ => panic!("the registered completion fires"),
    }
}

#[test]
fn handler_method_names_follow_the_action_table() {
    let mut client: CallClient<u32> = CallClient::new(Some(1), empty_snapshots());
    let cases = [
        ("participant-joined", "on_participant_joined"),
        ("participant-left", "on_participant_left"),
        ("participant-updated", "on_participant_updated"),
        ("active-speaker-changed", "on_active_speaker_changed"),
        ("app-message", "on_app_message"),
        ("available-devices-updated", "on_available_devices_updated"),
        ("call-state-updated", "on_call_state_updated"),
        ("error", "on_error"),
        ("live-stream-started", "on_live_stream_started"),
        ("live-stream-stopped", "on_live_stream_stopped"),
        ("live-stream-error", "on_live_stream_error"),
        ("live-stream-warning", "on_live_stream_warning"),
        ("recording-started", "on_recording_started"),
        ("recording-stopped", "on_recording_stopped"),
        ("recording-error", "on_recording_error"),
    ];
    for (action, method) in cases.iter() {
        match client.handle_event(action, "{}") {
            Outcome::InvokeHandler { method: m, .. } => assert_eq!(&m, method),
            _ => panic!("a registered handler receives a {} event", action),
        }
    }
}

#[test]
fn unknown_action_and_missing_handler_are_silent() {
    let mut client: CallClient<u32> = CallClient::new(Some(1), empty_snapshots());
    assert!(matches!(
        client.handle_event("totally-unknown", "{}"),
        Outcome::NoOp
    ));

    // Without a handler object, a recognised event is still a no-op on the
    // handler side, but the snapshot update happens regardless.
    let mut silent: CallClient<u32> = CallClient::new(None, empty_snapshots());
    assert!(matches!(
        silent.handle_event("inputs-updated", "{\"microphone\":false}"),
        Outcome::NoOp
    ));
    assert_eq!(silent.inputs().as_str(), "{\"microphone\":false}");
}

#[test]
fn raw_envelope_json_is_decoded_and_routed() {
    let mut ctx = DailyContext::new();
    let mut client: CallClient<u32> = CallClient::new(Some(1), empty_snapshots());

    let id = client.leave(&mut ctx, Some(Completion::Unary(4)));
    let envelope = format!(
        "{{\"action\":\"request-completed\",\"payload\":{{\"requestId\":{},\"data\":5}}}}",
        id
    );
    match client.handle_event_json(&envelope) {
        Outcome::InvokeCompletion { completion, value, error } => {
            match completion {
                Completion::Unary(c) => assert_eq!(c, 4),
                Completion::Binary(_) => panic!("leave registered a unary completion here"),
            }
            assert_eq!(value.as_deref(), Some("5"));
            assert_eq!(error, None);
        }
        _ => panic!("the registered completion fires through the raw path"),
    }

    // A snapshot event through the raw path updates the cache.
    let env2 = "{\"action\":\"inputs-updated\",\"payload\":{\"camera\":{\"enabled\":true}}}";
    match client.handle_event_json(env2) {
        Outcome::InvokeHandler { method, payload } => {
            assert_eq!(method, "on_inputs_updated");
            assert_eq!(payload, "{\"camera\":{\"enabled\":true}}");
        }
        _ => panic!("a registered handler receives the event"),
    }
    assert_eq!(client.inputs().as_str(), "{\"camera\":{\"enabled\":true}}");

    // Malformed text is a decode error local to that one event.
    assert!(matches!(client.handle_event_json("not json"), Outcome::NoOp));
    assert!(matches!(
        client.handle_event_json("{\"no_action\":1}"),
        Outcome::NoOp
    ));
    // Later events still dispatch.
    assert!(matches!(
        client.handle_event_json("{\"action\":\"error\",\"payload\":\"boom\"}"),
        Outcome::InvokeHandler { .. }
    ));
}
