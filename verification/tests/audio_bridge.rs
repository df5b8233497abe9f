use voice_bridge::accumulator::UtteranceAccumulator;
use voice_bridge::audio::{resample, sample_to_u8, AudioFrame, NUM_OF_CHANNELS, SAMPLE_RATE};
use voice_bridge::bridge::{
    auth_header, begin_reconnect, handle_transcript_message, keepalive_due, keepalive_message,
    should_forward, step, transition, BridgeAction, BridgeEvent, BridgeState, SttConfig,
    CONNECTION_TIMEOUT_SECS, KEEPALIVE_INTERVAL_MS,
};

#[test]
fn samples_map_onto_unsigned_range() {
    assert_eq!(sample_to_u8(-32768), 0);
    assert_eq!(sample_to_u8(-32513), 0);
    assert_eq!(sample_to_u8(-32512), 1);
    assert_eq!(sample_to_u8(-1), 127);
    assert_eq!(sample_to_u8(0), 128);
    assert_eq!(sample_to_u8(256), 129);
    assert_eq!(sample_to_u8(32767), 255);
}

#[test]
fn resampling_is_idempotent() {
    let frame = AudioFrame::new(vec![-32768, -1, 0, 1, 256, 32767]);
    let first = resample(&frame);
    let second = resample(&frame);
    assert_eq!(first, second);
    assert_eq!(first, vec![0, 127, 128, 128, 129, 255]);
}

#[test]
fn empty_frame_resamples_to_empty_output() {
    let frame = AudioFrame::new(Vec::new());
    assert_eq!(resample(&frame), Vec::<u8>::new());
}

#[test]
fn frames_carry_the_declared_format() {
    let frame = AudioFrame::new(vec![1, 2, 3]);
    assert_eq!(frame.sample_rate, SAMPLE_RATE);
    assert_eq!(frame.sample_rate, 44100);
    assert_eq!(frame.num_channels, NUM_OF_CHANNELS);
    assert_eq!(frame.num_channels, 1);
    assert_eq!(frame.samples, vec![1, 2, 3]);
}

#[test]
fn reconnect_converges_after_repeated_failures() {
    let mut state = BridgeState::Connecting;
    for _ in 0..4 {
        state = step(state, BridgeEvent::ConnectFail);
        assert_eq!(state, BridgeState::Connecting);
        assert!(!should_forward(state));
    }
    state = step(state, BridgeEvent::HandshakeOk);
    assert_eq!(state, BridgeState::Connected);
    assert!(should_forward(state));
}

#[test]
fn failures_pass_through_disconnected_and_retry() {
    let (mid, action) = transition(BridgeState::Connected, BridgeEvent::ConnectionClosed);
    assert_eq!(mid, BridgeState::Disconnected);
    assert_eq!(action, BridgeAction::Reconnect);
    assert_eq!(begin_reconnect(mid), BridgeState::Connecting);

    let (mid, action) = transition(BridgeState::Connecting, BridgeEvent::ConnectFail);
    assert_eq!(mid, BridgeState::Disconnected);
    assert_eq!(action, BridgeAction::Reconnect);

    let (mid, action) = transition(BridgeState::Connected, BridgeEvent::ConnectionDropped);
    assert_eq!(mid, BridgeState::Disconnected);
    assert_eq!(action, BridgeAction::Reconnect);
}

#[test]
fn lost_connection_stops_forwarding_until_reconnected() {
    let mut state = BridgeState::Connected;
    assert!(should_forward(state));
    state = step(state, BridgeEvent::ConnectionDropped);
    assert!(!should_forward(state));
    state = step(state, BridgeEvent::HandshakeOk);
    assert!(should_forward(state));
}

#[test]
fn keepalive_policy_matches_the_protocol() {
    assert_eq!(keepalive_message(), "{\"type\":\"KeepAlive\"}");
    assert_eq!(KEEPALIVE_INTERVAL_MS, 11_000);
    assert!(!keepalive_due(10_999));
    assert!(keepalive_due(11_000));
    assert!(keepalive_due(60_000));
}

#[test]
fn connection_config_is_fixed() {
    let c = SttConfig::new();
    assert_eq!(c.url, "wss://api.deepgram.com/v1/listen");
    assert_eq!(c.heartbeat_secs, 11);
    assert_eq!(c.timeout_secs, CONNECTION_TIMEOUT_SECS);
    assert_eq!(c.timeout_secs, 1800);
    assert_eq!(c.model, "nova-2-conversationalai");
    assert!(c.smart_format);
    assert_eq!(c.version, "latest");
    assert!(c.filler_words);
    assert_eq!(auth_header("secret-key"), "Token secret-key");
}

#[test]
fn transcript_event_feeds_the_accumulator() {
    let mut acc = UtteranceAccumulator::new(500, 0);
    let event = "{\"channel\":{\"alternatives\":[{\"transcript\":\"hello there.\"}]}}";
    let flushed = handle_transcript_message(event, &mut acc, 600);
    assert_eq!(flushed, Some("hello there.".to_string()));
    assert_eq!(acc.buf, "");
}

#[test]
fn transcript_event_within_dwell_only_buffers() {
    let mut acc = UtteranceAccumulator::new(500, 0);
    let event = "{\"channel\":{\"alternatives\":[{\"transcript\":\"hello there.\"}]}}";
    assert_eq!(handle_transcript_message(event, &mut acc, 10), None);
    assert_eq!(acc.buf, "hello there.");
}

#[test]
fn malformed_transcript_events_are_dropped() {
    let mut acc = UtteranceAccumulator::new(500, 0);
    assert_eq!(handle_transcript_message("not json", &mut acc, 600), None);
    assert_eq!(handle_transcript_message("{}", &mut acc, 600), None);
    assert_eq!(
        handle_transcript_message("{\"channel\":{\"alternatives\":[]}}", &mut acc, 600),
        None
    );
    assert_eq!(
        handle_transcript_message(
            "{\"channel\":{\"alternatives\":[{\"transcript\":5}]}}",
            &mut acc,
            600
        ),
        None
    );
    assert_eq!(acc.buf, "");
}
