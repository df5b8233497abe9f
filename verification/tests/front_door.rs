use voice_bridge::events::{webhook_action, WebhookAction};
use voice_bridge::msg::ServerMsg;
use voice_bridge::session::{bot_grants, SessionError, SessionRegistry, BOT_TOKEN_TTL_SECS};

#[test]
fn room_started_with_space_starts_a_session() {
    assert_eq!(webhook_action("room_started", 1, 5), WebhookAction::StartSession);
    assert_eq!(webhook_action("room_started", 0, 1), WebhookAction::StartSession);
}

#[test]
fn full_room_start_is_ignored() {
    assert_eq!(webhook_action("room_started", 5, 5), WebhookAction::Ignore);
    assert_eq!(webhook_action("room_started", 6, 5), WebhookAction::Ignore);
}

#[test]
fn room_finished_ends_the_session() {
    assert_eq!(webhook_action("room_finished", 0, 5), WebhookAction::EndSession);
}

#[test]
fn other_events_are_ignored() {
    assert_eq!(webhook_action("track_published", 1, 5), WebhookAction::Ignore);
    assert_eq!(webhook_action("", 1, 5), WebhookAction::Ignore);
}

#[test]
fn at_most_one_session_per_room() {
    let mut reg = SessionRegistry::new();
    assert!(!reg.is_active("alpha"));
    assert_eq!(reg.start_session("alpha"), Ok(()));
    assert!(reg.is_active("alpha"));
    assert_eq!(reg.start_session("alpha"), Err(SessionError::AlreadyActive));
    assert_eq!(reg.start_session("beta"), Ok(()));
    assert!(reg.is_active("beta"));
}

#[test]
fn ending_a_session_frees_the_room_and_spares_others() {
    let mut reg = SessionRegistry::new();
    assert_eq!(reg.start_session("alpha"), Ok(()));
    assert_eq!(reg.start_session("beta"), Ok(()));
    assert!(reg.end_session("alpha"));
    assert!(!reg.is_active("alpha"));
    assert!(reg.is_active("beta"));
    assert!(!reg.end_session("alpha"));
    assert_eq!(reg.start_session("alpha"), Ok(()));
}

#[test]
fn bot_credential_scope_is_fixed() {
    let g = bot_grants("alpha");
    assert_eq!(g.room, "alpha");
    assert_eq!(g.identity, "SeeRee");
    assert_eq!(g.name, "SeeRee");
    assert_eq!(g.ttl_secs, BOT_TOKEN_TTL_SECS);
    assert_eq!(g.ttl_secs, 300);
    assert!(g.room_list && g.room_join && g.room_admin && g.can_publish);
    assert!(g.room_record && g.can_subscribe && g.can_publish_data && g.can_update_own_metadata);
}

#[test]
fn server_msg_data_carries_payload_only() {
    let msg = ServerMsg::data("OK");
    assert_eq!(msg.data, Some("OK"));
    assert_eq!(msg.error, None);
}

#[test]
fn server_msg_error_carries_message_only() {
    let msg: ServerMsg<String> = ServerMsg::error("Method not allowed");
    assert_eq!(msg.data, None);
    assert_eq!(msg.error, Some("Method not allowed".to_string()));
}
