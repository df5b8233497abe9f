//! The transcription bridge.
//!
//! One long-lived streaming connection per session carries resampled
//! audio to the transcription service and brings structured
//! transcription events back.  This module holds everything about
//! that connection that can be decided from plain values: the
//! connection configuration, the keepalive policy, the reconnecting
//! state machine, and the parsing of inbound transcription events.
//! The socket itself lives outside the library and feeds its events
//! in.

use vstd::prelude::*;

use crate::accumulator::{spec_push_outcome, UtteranceAccumulator};

verus! {

/// Keepalive messages are due this often, in milliseconds.
pub const KEEPALIVE_INTERVAL_MS: u64 = 11000;

/// Socket read/write timeout, in seconds: generous, to tolerate long
/// silence.
pub const CONNECTION_TIMEOUT_SECS: u64 = 1800;

/// Connection configuration for the transcription service.
pub struct SttConfig {
    pub url: String,
    pub heartbeat_secs: u64,
    pub timeout_secs: u64,
    pub model: String,
    pub smart_format: bool,
    pub version: String,
    pub filler_words: bool,
}

impl SttConfig {
    /// The fixed configuration declared to the transcription service.
    pub fn new() -> (c: SttConfig)
        ensures
            c.url@ == "wss://api.deepgram.com/v1/listen"@,
            c.heartbeat_secs == 11,
            c.timeout_secs == CONNECTION_TIMEOUT_SECS,
            c.model@ == "nova-2-conversationalai"@,
            c.smart_format,
            c.version@ == "latest"@,
            c.filler_words,
    {
        SttConfig {
            url: String::from_str("wss://api.deepgram.com/v1/listen"),
            heartbeat_secs: 11,
            timeout_secs: CONNECTION_TIMEOUT_SECS,
            model: String::from_str("nova-2-conversationalai"),
            smart_format: true,
            version: String::from_str("latest"),
            filler_words: true,
        }
    }
}

/// The authorization header value for the given credential.
pub fn auth_header(api_key: &str) -> (r: String)
    ensures
        r@ == "Token "@ + api_key@,
{
    let mut s = String::from_str("Token ");
    s.append(api_key);
    s
}

/// The protocol-level keepalive message.
pub fn keepalive_message() -> (r: String)
    ensures
        r@ == "{\"type\":\"KeepAlive\"}"@,
{
    String::from_str("{\"type\":\"KeepAlive\"}")
}

/// Whether a keepalive message is due, `elapsed_ms` milliseconds after
/// the previous one.
pub fn keepalive_due(elapsed_ms: u64) -> (r: bool)
    ensures
        r == (elapsed_ms >= KEEPALIVE_INTERVAL_MS),
{
    elapsed_ms >= KEEPALIVE_INTERVAL_MS
}

/// The connection's state.
#[derive(Clone, Copy, Debug, PartialEq, Eq, Structural)]
pub enum BridgeState {
    /// A connection attempt is under way.
    Connecting,
    /// The handshake succeeded; audio is being forwarded.
    Connected,
    /// The connection was lost; a retry is owed.
    Disconnected,
}

/// What the connection reports.
#[derive(Clone, Copy, Debug, PartialEq, Eq, Structural)]
pub enum BridgeEvent {
    /// A connection attempt completed its handshake.
    HandshakeOk,
    /// A connection attempt failed.
    ConnectFail,
    /// An established connection was closed by the peer.
    ConnectionClosed,
    /// An established connection dropped.
    ConnectionDropped,
}

/// What the bridge does in response to an event.
#[derive(Clone, Copy, Debug, PartialEq, Eq, Structural)]
pub enum BridgeAction {
    /// Retry the connection.
    Reconnect,
    /// Nothing to do.
    Stay,
}

/// The state after one event, with the automatic retry folded in: a
/// successful handshake connects; every failure or loss passes
/// through `Disconnected` and retries, leaving the bridge
/// `Connecting` again.  No retry cap is imposed at this layer.
pub open spec fn spec_step(state: BridgeState, event: BridgeEvent) -> BridgeState {
    match event {
        BridgeEvent::HandshakeOk => BridgeState::Connected,
        BridgeEvent::ConnectFail => BridgeState::Connecting,
        BridgeEvent::ConnectionClosed => BridgeState::Connecting,
        BridgeEvent::ConnectionDropped => BridgeState::Connecting,
    }
}

/// The state after a whole sequence of events.
pub open spec fn spec_run(state: BridgeState, events: Seq<BridgeEvent>) -> BridgeState
    decreases events.len(),
{
    if events.len() == 0 {
        state
    } else {
        spec_step(spec_run(state, events.drop_last()), events.last())
    }
}

/// Audio is forwarded only while the bridge is connected.
pub open spec fn spec_can_forward(state: BridgeState) -> bool {
    state is Connected
}

/// React to one connection event: a successful handshake enters
/// `Connected`; a failure, close or drop enters `Disconnected` and
/// asks for a reconnect.
pub fn transition(state: BridgeState, event: BridgeEvent) -> (r: (BridgeState, BridgeAction))
    ensures
        (event is HandshakeOk) ==> r.0 is Connected && r.1 is Stay,
        !(event is HandshakeOk) ==> r.0 is Disconnected && r.1 is Reconnect,
{
    match event {
        BridgeEvent::HandshakeOk => (BridgeState::Connected, BridgeAction::Stay),
        BridgeEvent::ConnectFail => (BridgeState::Disconnected, BridgeAction::Reconnect),
        BridgeEvent::ConnectionClosed => (BridgeState::Disconnected, BridgeAction::Reconnect),
        BridgeEvent::ConnectionDropped => (BridgeState::Disconnected, BridgeAction::Reconnect),
    }
}

/// Issue the owed retry: a disconnected bridge starts connecting
/// again.
pub fn begin_reconnect(state: BridgeState) -> (next: BridgeState)
    requires
        state is Disconnected,
    ensures
        next is Connecting,
{
    BridgeState::Connecting
}

/// One event followed by the automatic retry, as a single step.
pub fn step(state: BridgeState, event: BridgeEvent) -> (next: BridgeState)
    ensures
        next == spec_step(state, event),
{
    let (mid, action) = transition(state, event);
    match action {
        BridgeAction::Reconnect => begin_reconnect(mid),
        BridgeAction::Stay => mid,
    }
}

/// Whether audio may be forwarded in the given state.
pub fn should_forward(state: BridgeState) -> (r: bool)
    ensures
        r == spec_can_forward(state),
{
    match state {
        BridgeState::Connected => true,
        _ => false,
    }
}

/// Reconnect convergence: from any state, any run of consecutive
/// connect failures followed by one successful handshake leaves the
/// bridge `Connected`, with audio forwarding resumed, and no operator
/// intervention modelled anywhere.
pub proof fn lemma_reconnect_convergence(state: BridgeState, events: Seq<BridgeEvent>)
    requires
        events.len() > 0,
        forall|i: int| 0 <= i < events.len() - 1 ==> events[i] is ConnectFail,
        events.last() is HandshakeOk,
    ensures
        spec_run(state, events) is Connected,
        spec_can_forward(spec_run(state, events)),
{
}

/// While the connection keeps failing, the bridge keeps retrying: a
/// run of nothing but connect failures always leaves it `Connecting`,
/// never stuck in `Disconnected`.
pub proof fn lemma_retry_never_gives_up(state: BridgeState, events: Seq<BridgeEvent>)
    requires
        events.len() > 0,
        forall|i: int| 0 <= i < events.len() ==> events[i] is ConnectFail,
    ensures
        spec_run(state, events) is Connecting,
{
}

/// The transcript carried by a transcription event, when the text is
/// well-formed JSON whose first alternative holds a transcript
/// string; a function of the text alone.
pub uninterp spec fn spec_transcript_of(s: Seq<char>) -> Option<Seq<char>>;

/// Relies on `serde_json::from_str` and `serde_json::Value::{get,
/// as_str}`: parses a transcription event and extracts the
/// first-alternative transcript string, a deterministic function of
/// the text alone; `None` when the text is not JSON or carries no
/// such string.
#[verifier::external_body]
pub(crate) fn parse_transcript(text: &str) -> (r: Option<String>)
    ensures
        (match r {
            Some(t) => spec_transcript_of(text@) == Some(t@),
            None => spec_transcript_of(text@) is None,
        }),
{
    let value: serde_json::Value = match serde_json::from_str(text) {
        Ok(v) => v,
        Err(_) => return None,
    };
    value
        .get("channel")
        .and_then(|c| c.get("alternatives"))
        .and_then(|a| a.get(0))
        .and_then(|alt| alt.get("transcript"))
        .and_then(|t| t.as_str())
        .map(|s| s.to_string())
}

/// Handle one text message from the transcription socket: when it
/// carries a transcript, that transcript is fed to the accumulator as
/// one fragment and any flushed utterance is returned; a malformed
/// message, or one without a transcript, is dropped and changes
/// nothing.
pub fn handle_transcript_message(
    text: &str,
    acc: &mut UtteranceAccumulator,
    now_ms: u64,
) -> (flushed: Option<String>)
    requires
        old(acc).last_flush_ms <= now_ms,
    ensures
        (match spec_transcript_of(text@) {
            Some(t) => spec_push_outcome(*old(acc), *final(acc), t, now_ms, flushed),
            None => *final(acc) == *old(acc) && flushed is None,
        }),
{
    match parse_transcript(text) {
        Some(t) => acc.push(t.as_str(), now_ms),
        None => None,
    }
}

} // verus!
