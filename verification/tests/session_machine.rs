use voice_gateway::codec::encode;
use voice_gateway::control::classify_control_text;
use voice_gateway::persistence::PersistReason;
use voice_gateway::session::{DeviceAudioAction, LifecycleState, SessionState};

fn active_session() -> SessionState {
    let mut s = SessionState::new();
    assert!(s.on_arrive());
    s.upstream_established();
    s.order_assigned("order-1".to_string());
    s.on_welcome("agent-1".to_string());
    s
}

#[test]
fn new_session_is_idle_and_silent() {
    let s = SessionState::new();
    assert!(matches!(s.lifecycle_state(), LifecycleState::Idle));
    assert!(!s.agent_speaking);
    assert!(s.pending_playback_audio.is_empty());
    assert!(s.order_id.is_none());
    assert!(s.agent_session_id.is_none());
}

#[test]
fn arrive_requests_connect_and_resets_audio_state() {
    let mut s = SessionState::new();
    let connect = s.on_arrive();
    assert!(connect);
    assert!(!s.agent_speaking);
    assert!(s.pending_playback_audio.is_empty());
    assert!(s.order_id.is_none());
    assert!(matches!(s.lifecycle_state(), LifecycleState::Idle));
    s.upstream_established();
    assert!(matches!(s.lifecycle_state(), LifecycleState::Active));
}

#[test]
fn first_upstream_frame_sent_immediately_flips_speaking() {
    let mut s = active_session();
    assert!(!s.agent_speaking);
    let audio = vec![10u8, 20, 30];
    let sent = s.on_upstream_audio(audio.clone());
    assert_eq!(sent, Some(encode(&audio)));
    assert!(s.agent_speaking);
}

#[test]
fn second_upstream_frame_before_played_is_buffered_not_sent() {
    let mut s = active_session();
    let first = vec![1u8, 2];
    let second = vec![3u8, 4];
    assert!(s.on_upstream_audio(first).is_some());
    let sent = s.on_upstream_audio(second.clone());
    assert!(sent.is_none());
    assert_eq!(s.pending_playback_audio, second);
    assert!(s.agent_speaking);
}

#[test]
fn played_flushes_exactly_the_buffered_bytes_then_reflips() {
    let mut s = active_session();
    assert!(s.on_upstream_audio(vec![1, 2]).is_some());
    assert!(s.on_upstream_audio(vec![3, 4]).is_none());
    assert!(s.on_upstream_audio(vec![5]).is_none());
    let flushed = s.on_played();
    assert_eq!(flushed, Some(encode(&[3, 4, 5])));
    assert!(s.agent_speaking, "a non-empty flush means the device is playing again");
    assert!(s.pending_playback_audio.is_empty());
}

#[test]
fn played_with_empty_buffer_just_clears_speaking() {
    let mut s = active_session();
    assert!(s.on_upstream_audio(vec![1, 2]).is_some());
    let flushed = s.on_played();
    assert!(flushed.is_none());
    assert!(!s.agent_speaking);
}

#[test]
fn played_while_idle_is_ignored() {
    let mut s = SessionState::new();
    assert!(s.on_played().is_none());
    assert!(!s.agent_speaking);
}

#[test]
fn depart_persists_once_with_reason_depart_and_clears_state() {
    let mut s = active_session();
    assert!(s.on_upstream_audio(vec![9]).is_some());
    let persist = s.on_depart().expect("an active departure persists");
    assert!(matches!(persist.reason, PersistReason::Depart));
    assert_eq!(persist.order_id.as_deref(), Some("order-1"));
    assert_eq!(persist.agent_session_id.as_deref(), Some("agent-1"));
    assert!(matches!(s.lifecycle_state(), LifecycleState::Idle));
    assert!(s.order_id.is_none());
    assert!(!s.agent_speaking);
    assert!(s.pending_playback_audio.is_empty());
    // the second departure finds the session idle: exactly one persistence
    assert!(s.on_depart().is_none());
}

#[test]
fn escalation_persists_once_with_reason_escalation() {
    let mut s = active_session();
    let persist = s.on_escalation().expect("an active escalation persists");
    assert!(matches!(persist.reason, PersistReason::Escalation));
    assert_eq!(persist.order_id.as_deref(), Some("order-1"));
    assert!(matches!(s.lifecycle_state(), LifecycleState::Idle));
    assert!(s.on_escalation().is_none());
}

#[test]
fn upstream_close_persists_with_reason_close_without_audio_reset() {
    let mut s = active_session();
    assert!(s.on_upstream_audio(vec![7]).is_some());
    assert!(s.on_upstream_audio(vec![8]).is_none());
    let persist = s.on_upstream_closed().expect("a close always yields a request");
    assert!(matches!(persist.reason, PersistReason::ConnectionClose));
    assert_eq!(persist.order_id.as_deref(), Some("order-1"));
    assert!(matches!(s.lifecycle_state(), LifecycleState::Idle));
    // no audio reset on close
    assert!(s.agent_speaking);
    assert_eq!(s.pending_playback_audio, vec![8]);
}

#[test]
fn idle_session_never_forwards_device_audio() {
    let s = SessionState::new();
    let frame = vec![1u8, 2, 3, 4];
    assert!(matches!(s.on_device_audio(&frame, false), DeviceAudioAction::Drop));
    assert!(matches!(s.on_device_audio(&frame, true), DeviceAudioAction::Drop));
}

#[test]
fn speaking_session_keep_alives_instead_of_forwarding() {
    let mut s = active_session();
    assert!(s.on_upstream_audio(vec![1]).is_some());
    let frame = vec![1u8, 2, 3, 4];
    assert!(matches!(s.on_device_audio(&frame, false), DeviceAudioAction::SendKeepAlive));
    // with barge-in enabled the frame is forwarded even while speaking
    match s.on_device_audio(&frame, true) {
        DeviceAudioAction::ForwardUpstream(bytes) => assert_eq!(bytes, vec![1, 2]),
        other => panic!("expected a forward, got {:?}", discriminant_name(&other)),
    }
}

#[test]
fn user_started_speaking_published_only_with_barge_in() {
    let s = active_session();
    assert!(!s.on_user_started_speaking(false));
    assert!(s.on_user_started_speaking(true));
}

fn discriminant_name(a: &DeviceAudioAction) -> &'static str {
    match a {
        DeviceAudioAction::ForwardUpstream(_) => "ForwardUpstream",
        DeviceAudioAction::SendKeepAlive => "SendKeepAlive",
        DeviceAudioAction::Drop => "Drop",
    }
}

/// The arrival-to-playback scenario: arrive opens upstream and requests an
/// order; device audio while the agent is silent is forwarded after channel
/// extraction; the first upstream frame reaches the device framed with the
/// payload's CRC32 and flips the speaking flag; a playback acknowledgement
/// with an empty buffer leaves the agent silent.
#[test]
fn arrival_audio_playback_scenario() {
    let mut s = SessionState::new();
    assert!(s.on_arrive(), "arrival must open the upstream connection");
    s.upstream_established();
    s.order_assigned("order-77".to_string());

    let capture = vec![11u8, 12, 13, 14, 21, 22, 23, 24];
    match s.on_device_audio(&capture, false) {
        DeviceAudioAction::ForwardUpstream(bytes) => assert_eq!(bytes, vec![11, 12, 21, 22]),
        _ => panic!("device audio must be forwarded while the agent is silent"),
    }

    let speech = vec![0xA0u8, 0xA1, 0xA2];
    let frame = s.on_upstream_audio(speech.clone()).expect("first frame goes out at once");
    assert_eq!(frame.len(), speech.len() + 16);
    assert_eq!(&frame[0..4], crc32fast::hash(&speech).to_be_bytes().as_slice());
    assert_eq!(&frame[16..], speech.as_slice());
    assert!(s.agent_speaking);

    let events = classify_control_text(
        "{\"topic\":\"NEXEO/response/lane1-audio\",\"status\":\"played\"}",
    );
    assert!(events.played);
    let flushed = s.on_played();
    assert!(flushed.is_none(), "nothing was buffered");
    assert!(!s.agent_speaking, "an empty flush leaves the agent silent");
}
