//! Room events.
//!
//! Two kinds of room input reach the pipeline without going through
//! transcription: reliable data messages carrying chat text, which
//! bypass the audio path into the utterance accumulator under a
//! distinguishing prefix, and webhook events that start or end a
//! session.

use vstd::prelude::*;

use crate::accumulator::{spec_push_outcome, UtteranceAccumulator};

verus! {

/// The message and timestamp of a room data message, when the text is
/// well-formed JSON of shape `{ message: string, timestamp: int64 }`;
/// a function of the text alone.
pub uninterp spec fn spec_room_text_of(s: Seq<char>) -> Option<(Seq<char>, i64)>;

/// Relies on `serde_json::from_str` and `serde_json::Value::{get,
/// as_str, as_i64}`: parses a room data message into its message
/// string and timestamp, a deterministic function of the text alone;
/// `None` when the text is not JSON of that shape.
#[verifier::external_body]
pub(crate) fn parse_room_text(text: &str) -> (r: Option<(String, i64)>)
    ensures
        (match r {
            Some(p) => spec_room_text_of(text@) == Some((p.0@, p.1)),
            None => spec_room_text_of(text@) is None,
        }),
{
    let value: serde_json::Value = match serde_json::from_str(text) {
        Ok(v) => v,
        Err(_) => return None,
    };
    let message = value.get("message").and_then(|m| m.as_str())?;
    let timestamp = value.get("timestamp").and_then(|t| t.as_i64())?;
    Some((message.to_string(), timestamp))
}

/// A chat message as the accumulator receives it: tagged with the
/// chat prefix and terminated by a space, so that downstream
/// consumers can tell it from transcribed speech.
pub fn format_chat_message(message: &str) -> (r: String)
    ensures
        r@ == "[chat]"@ + message@ + " "@,
{
    let mut s = String::from_str("[chat]");
    s.append(message);
    s.append(" ");
    s
}

/// Handle one reliable room data message: when it parses as chat
/// text, the prefixed message is fed to the accumulator as one
/// fragment and any flushed utterance is returned; a malformed
/// message is dropped and changes nothing.
pub fn handle_chat_message(
    text: &str,
    acc: &mut UtteranceAccumulator,
    now_ms: u64,
) -> (flushed: Option<String>)
    requires
        old(acc).last_flush_ms <= now_ms,
    ensures
        (match spec_room_text_of(text@) {
            Some(p) => spec_push_outcome(
                *old(acc),
                *final(acc),
                "[chat]"@ + p.0 + " "@,
                now_ms,
                flushed,
            ),
            None => *final(acc) == *old(acc) && flushed is None,
        }),
{
    match parse_room_text(text) {
        Some(parsed) => {
            let fragment = format_chat_message(parsed.0.as_str());
            acc.push(fragment.as_str(), now_ms)
        },
        None => None,
    }
}

/// What a webhook event asks of the session orchestrator.
#[derive(Clone, Copy, Debug, PartialEq, Eq, Structural)]
pub enum WebhookAction {
    /// A room started with space left in it: start a bot session.
    StartSession,
    /// The room finished: mark the session inactive.
    EndSession,
    /// Anything else is acknowledged and ignored.
    Ignore,
}

/// The action a webhook event calls for.
pub open spec fn spec_webhook_action(event: Seq<char>, num_participants: u32, max_participants: u32) -> WebhookAction {
    if event == "room_started"@ && num_participants < max_participants {
        WebhookAction::StartSession
    } else if event == "room_finished"@ {
        WebhookAction::EndSession
    } else {
        WebhookAction::Ignore
    }
}

/// Decide what to do with a webhook event about a room: a
/// `room_started` event with room left starts a session, a
/// `room_finished` event ends it, and every other event is ignored.
pub fn webhook_action(event: &str, num_participants: u32, max_participants: u32) -> (a: WebhookAction)
    ensures
        a == spec_webhook_action(event@, num_participants, max_participants),
{
    let ev = String::from_str(event);
    if ev == String::from_str("room_started") && num_participants < max_participants {
        WebhookAction::StartSession
    } else if ev == String::from_str("room_finished") {
        WebhookAction::EndSession
    } else {
        WebhookAction::Ignore
    }
}

} // verus!
