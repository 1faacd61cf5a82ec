use voice_gateway::control::{
    audio_interruption_notification, classify_control_text, contains_substring,
};
use voice_gateway::session::CrossChannelEvent;

#[test]
fn arrive_text_classified() {
    let e = classify_control_text("{\"topic\":\"NEXEO/request/lane1/arrive\",\"x\":1}");
    assert!(e.arrive && !e.depart && !e.played && !e.escalation);
}

#[test]
fn depart_text_classified() {
    let e = classify_control_text("prefix NEXEO/request/lane1/depart suffix");
    assert!(!e.arrive && e.depart && !e.played && !e.escalation);
}

#[test]
fn played_needs_both_substrings() {
    let both = classify_control_text("NEXEO/response/lane1-audio status played");
    assert!(both.played);
    let topic_only = classify_control_text("NEXEO/response/lane1-audio status pending");
    assert!(!topic_only.played);
    let word_only = classify_control_text("something played somewhere");
    assert!(!word_only.played);
}

#[test]
fn escalation_text_classified() {
    let e = classify_control_text("NEXEO/alert/crew-escalation/lane1");
    assert!(e.escalation && !e.arrive && !e.depart && !e.played);
}

#[test]
fn unmatched_text_is_ignored() {
    let e = classify_control_text("NEXEO/request/lane2/arrive and other things");
    assert!(!e.arrive && !e.depart && !e.played && !e.escalation);
    assert!(e.events().is_empty());
}

#[test]
fn events_come_in_sending_order() {
    let e = classify_control_text(
        "NEXEO/request/lane1/arrive then NEXEO/request/lane1/depart",
    );
    let events = e.events();
    assert_eq!(events.len(), 2);
    assert!(matches!(events[0], CrossChannelEvent::Arrive));
    assert!(matches!(events[1], CrossChannelEvent::Depart));
}

#[test]
fn substring_edges() {
    assert!(contains_substring("abc", ""));
    assert!(contains_substring("abc", "abc"));
    assert!(contains_substring("abc", "bc"));
    assert!(!contains_substring("abc", "abcd"));
    assert!(!contains_substring("", "a"));
    assert!(contains_substring("", ""));
    assert!(contains_substring("aab", "ab"));
}

#[test]
fn interruption_notification_fixed_fields() {
    let n = audio_interruption_notification(&"base-sn-1".to_string(), &"store-9".to_string());
    assert_eq!(n.topic, "aot/request/audio-interruption");
    assert_eq!(n.meta.device_id, "base-sn-1");
    assert_eq!(n.meta.store_id, "store-9");
    assert_eq!(n.meta.msg_type, "request");
    assert_eq!(n.payload.lane, "1");
    assert!(!n.meta.msg_id.is_empty());
    // the timestamp is a real millisecond-precision RFC 3339 clock reading
    let parsed = chrono::DateTime::parse_from_rfc3339(&n.meta.timestamp);
    assert!(parsed.is_ok(), "timestamp {} must be RFC 3339", n.meta.timestamp);
}
