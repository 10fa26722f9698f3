//! Request issuing: ids, validation, and the composed recording settings.

use daily_python::client::compose_recording_settings;
use daily_python::client::CallClient;
use daily_python::context::DailyContext;
use daily_python::error::ClientError;
use daily_python::registry::Completion;
use daily_python::snapshots::Snapshots;

fn fresh_snapshots() -> Snapshots {
    Snapshots::new(
        "null".to_string(),
        "{}".to_string(),
        "{}".to_string(),
        "{}".to_string(),
        "{}".to_string(),
        "{}".to_string(),
        "{}".to_string(),
    )
}

#[test]
fn request_ids_increase_across_calls_and_clients() {
    let mut ctx = DailyContext::new();
    let mut a: CallClient<u32> = CallClient::new(None, fresh_snapshots());
    let mut b: CallClient<u32> = CallClient::new(None, fresh_snapshots());

    let id0 = a.join(&mut ctx, "https://x/meeting", None, None, None).unwrap();
    let id1 = a.leave(&mut ctx, None);
    let id2 = b.join(&mut ctx, "https://y/meeting", None, None, None).unwrap();
    let id3 = a.set_user_name(&mut ctx, "alice").unwrap();
    let id4 = b.stop_transcription(&mut ctx, None);
    assert_eq!(vec![id0, id1, id2, id3, id4], vec![0, 1, 2, 3, 4]);
}

#[test]
fn embedded_nul_is_rejected_before_a_request_id_is_issued() {
    let mut ctx = DailyContext::new();
    let mut client: CallClient<u32> = CallClient::new(None, fresh_snapshots());

    assert_eq!(
        client.join(&mut ctx, "https://x/\0meeting", None, None, Some(Completion::Binary(1))),
        Err(ClientError::InvalidString)
    );
    assert_eq!(
        client.join(&mut ctx, "https://x/meeting", Some("tok\0en"), None, None),
        Err(ClientError::InvalidString)
    );
    assert_eq!(
        client.join(&mut ctx, "https://x/meeting", None, Some("{\"a\":\0}"), None),
        Err(ClientError::InvalidString)
    );
    assert_eq!(client.set_user_name(&mut ctx, "ali\0ce"), Err(ClientError::InvalidString));
    assert_eq!(client.update_inputs(&mut ctx, "{\0}", None), Err(ClientError::InvalidString));
    assert_eq!(client.update_publishing(&mut ctx, "{\0}", None), Err(ClientError::InvalidString));
    assert_eq!(
        client.update_subscriptions(&mut ctx, Some("{\0}"), None, None),
        Err(ClientError::InvalidString)
    );
    assert_eq!(
        client.update_subscription_profiles(&mut ctx, "{\0}", None),
        Err(ClientError::InvalidString)
    );
    assert_eq!(client.update_permissions(&mut ctx, "{\0}", None), Err(ClientError::InvalidString));
    assert_eq!(
        client.update_remote_participants(&mut ctx, "{\0}", None),
        Err(ClientError::InvalidString)
    );
    assert_eq!(
        client.send_app_message(&mut ctx, "\"hi\0\"", None, None),
        Err(ClientError::InvalidString)
    );
    assert_eq!(
        client.start_transcription(&mut ctx, Some("{\0}"), None),
        Err(ClientError::InvalidString)
    );
    assert_eq!(
        client.stop_recording(&mut ctx, Some("s\0"), None),
        Err(ClientError::InvalidString)
    );
    assert_eq!(
        client.update_recording(&mut ctx, "{}", Some("s\0"), None),
        Err(ClientError::InvalidString)
    );
    assert_eq!(
        client.start_recording(&mut ctx, Some("{\0}"), None, None, None),
        Err(ClientError::InvalidString)
    );

    // No request id was consumed by any of the rejected calls.
    let id = client.leave(&mut ctx, None);
    assert_eq!(id, 0);
}

#[test]
fn update_calls_issue_fresh_ids() {
    let mut ctx = DailyContext::new();
    let mut client: CallClient<u32> = CallClient::new(None, fresh_snapshots());
    let id0 = client.update_inputs(&mut ctx, "{\"camera\":false}", None).unwrap();
    let id1 = client.update_publishing(&mut ctx, "{}", None).unwrap();
    let id2 = client.update_subscriptions(&mut ctx, None, Some("{}"), None).unwrap();
    let id3 = client.update_subscription_profiles(&mut ctx, "{}", None).unwrap();
    let id4 = client.update_permissions(&mut ctx, "{}", None).unwrap();
    let id5 = client.update_remote_participants(&mut ctx, "{}", None).unwrap();
    let id6 = client.send_app_message(&mut ctx, "\"hello\"", Some("p1"), None).unwrap();
    let id7 = client.start_transcription(&mut ctx, None, None).unwrap();
    let id8 = client.update_recording(&mut ctx, "{}", None, None).unwrap();
    let id9 = client.stop_recording(&mut ctx, None, None).unwrap();
    assert_eq!(
        vec![id0, id1, id2, id3, id4, id5, id6, id7, id8, id9],
        vec![0, 1, 2, 3, 4, 5, 6, 7, 8, 9]
    );
}

#[test]
fn recording_settings_compose_in_fixed_order() {
    // All three fields present.
    let (id, settings) = {
        let mut ctx = DailyContext::new();
        let mut client: CallClient<u32> = CallClient::new(None, fresh_snapshots());
        client
            .start_recording(
                &mut ctx,
                Some("{\"layout\":\"grid\"}"),
                Some("stream-1"),
                Some(true),
                None,
            )
            .unwrap()
    };
    assert_eq!(id, 0);
    assert_eq!(
        settings.as_deref(),
        Some(
            "{\"instanceId\":\"stream-1\",\"streamingSettings\":{\"layout\":\"grid\"},\"forceNew\":true}"
        )
    );

    // Single fields.
    assert_eq!(
        compose_recording_settings(None, Some("abc"), None).as_deref(),
        Some("{\"instanceId\":\"abc\"}")
    );
    assert_eq!(
        compose_recording_settings(Some("{\"a\":1}"), None, None).as_deref(),
        Some("{\"streamingSettings\":{\"a\":1}}")
    );
    assert_eq!(
        compose_recording_settings(None, None, Some(false)).as_deref(),
        Some("{\"forceNew\":false}")
    );

    // Pairs get exactly one comma.
    assert_eq!(
        compose_recording_settings(Some("{}"), Some("s"), None).as_deref(),
        Some("{\"instanceId\":\"s\",\"streamingSettings\":{}}")
    );
    assert_eq!(
        compose_recording_settings(None, Some("s"), Some(true)).as_deref(),
        Some("{\"instanceId\":\"s\",\"forceNew\":true}")
    );
    assert_eq!(
        compose_recording_settings(Some("{}"), None, Some(true)).as_deref(),
        Some("{\"streamingSettings\":{},\"forceNew\":true}")
    );

    // With nothing given, the native call receives no settings text at all.
    assert_eq!(compose_recording_settings(None, None, None), None);
}

#[test]
fn stream_ids_are_escaped_inside_the_composed_settings() {
    assert_eq!(
        compose_recording_settings(None, Some("a\"b\\c"), None).as_deref(),
        Some("{\"instanceId\":\"a\\\"b\\\\c\"}")
    );
    assert_eq!(
        compose_recording_settings(None, Some("line\nbreak\tand\rmore"), None).as_deref(),
        Some("{\"instanceId\":\"line\\nbreak\\tand\\rmore\"}")
    );
    // Other control characters take the six-character unicode escape; an
    // embedded NUL in a stream id is therefore representable, not an error.
    assert_eq!(
        compose_recording_settings(None, Some("a\u{1}b\0"), None).as_deref(),
        Some("{\"instanceId\":\"a\\u0001b\\u0000\"}")
    );
}
