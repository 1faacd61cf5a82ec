//! Inbound control-text classification and the outbound audio-interruption
//! notification of the device message connection.
//!
//! The device's free-text control lines are classified by substring
//! containment, not structured parsing: a line may signal several events at
//! once, and unmatched text is ignored.  In the other direction, one
//! structured notification is sent to the device for every
//! `UserStartedSpeaking` event received from the audio side.

use vstd::prelude::*;
use vstd::string::*;

use crate::session::CrossChannelEvent;

verus! {

/// Whether `needle` occurs contiguously inside `hay`.
pub open spec fn contains_seq(hay: Seq<char>, needle: Seq<char>) -> bool {
    exists|i: int|
        0 <= i && i + needle.len() <= hay.len() && #[trigger] hay.subrange(i, i + needle.len())
            == needle
}

/// Whether `needle` starts at position `i` of `hay`.
fn matches_at(hay: &str, needle: &str, i: usize) -> (r: bool)
    requires
        i + needle@.len() <= hay@.len(),
    ensures
        r == (hay@.subrange(i as int, i as int + needle@.len() as int) == needle@),
{
    let _hay_total = hay.unicode_len();
    let needle_len = needle.unicode_len();
    let ghost window = hay@.subrange(i as int, i as int + needle@.len() as int);
    let mut j: usize = 0;
    while j < needle_len
        invariant
            j <= needle_len,
            needle_len == needle@.len(),
            i + needle@.len() <= hay@.len(),
            hay@.len() <= usize::MAX,
            window == hay@.subrange(i as int, i as int + needle@.len() as int),
            forall|t: int| 0 <= t < j ==> hay@[i + t] == needle@[t],
        decreases needle_len - j,
    {
        let hay_char = hay.get_char(i + j);
        let needle_char = needle.get_char(j);
        if hay_char != needle_char {
            proof {
                assert(window[j as int] == hay@[i + j]);
                assert(window != needle@);
            }
            return false;
        }
        j = j + 1;
    }
    proof {
        assert forall|t: int| 0 <= t < needle@.len() implies window[t] == needle@[t] by {
            assert(hay@[i + t] == needle@[t]);
        }
        assert(window =~= needle@);
    }
    true
}

/// Substring containment test, as the message classifier uses it.
pub fn contains_substring(hay: &str, needle: &str) -> (r: bool)
    ensures
        r == contains_seq(hay@, needle@),
{
    let hay_len = hay.unicode_len();
    let needle_len = needle.unicode_len();
    if needle_len > hay_len {
        return false;
    }
    let last = hay_len - needle_len;
    let mut i: usize = 0;
    loop
        invariant
            hay_len == hay@.len(),
            needle_len == needle@.len(),
            needle_len <= hay_len,
            last == hay_len - needle_len,
            i <= last,
            forall|k: int|
                0 <= k < i ==> #[trigger] hay@.subrange(k, k + needle@.len() as int) != needle@,
        decreases last - i,
    {
        if matches_at(hay, needle, i) {
            proof {
                assert(0 <= i as int && i as int + needle@.len() <= hay@.len() && hay@.subrange(
                    i as int,
                    i as int + needle@.len() as int,
                ) == needle@);
            }
            return true;
        }
        if i == last {
            proof {
                assert forall|k: int|
                    0 <= k && k + needle@.len() <= hay@.len() implies #[trigger] hay@.subrange(
                    k,
                    k + needle@.len() as int,
                ) != needle@ by {
                    if k < i as int {
                    } else {
                        assert(k == i as int);
                    }
                }
            }
            return false;
        }
        i = i + 1;
    }
}

/// The control events one inbound text line signals; a line may signal
/// several at once, and one that matches nothing is ignored.
pub struct ControlEvents {
    pub arrive: bool,
    pub depart: bool,
    pub played: bool,
    pub escalation: bool,
}

/// The classification rule: presence of the arrival or departure request
/// topic, of the audio-response topic together with "played", or of the
/// crew-escalation alert topic.
pub fn classify_control_text(text: &str) -> (r: ControlEvents)
    ensures
        r.arrive == contains_seq(text@, "NEXEO/request/lane1/arrive"@),
        r.depart == contains_seq(text@, "NEXEO/request/lane1/depart"@),
        r.played == (contains_seq(text@, "NEXEO/response/lane1-audio"@) && contains_seq(
            text@,
            "played"@,
        )),
        r.escalation == contains_seq(text@, "NEXEO/alert/crew-escalation/lane1"@),
{
    ControlEvents {
        arrive: contains_substring(text, "NEXEO/request/lane1/arrive"),
        depart: contains_substring(text, "NEXEO/request/lane1/depart"),
        played: contains_substring(text, "NEXEO/response/lane1-audio") && contains_substring(
            text,
            "played",
        ),
        escalation: contains_substring(text, "NEXEO/alert/crew-escalation/lane1"),
    }
}

/// The events a classification publishes to the sibling connection, in the
/// order they are sent.
pub open spec fn spec_events(c: ControlEvents) -> Seq<CrossChannelEvent> {
    (if c.arrive {
        seq![CrossChannelEvent::Arrive]
    } else {
        Seq::empty()
    }) + (if c.depart {
        seq![CrossChannelEvent::Depart]
    } else {
        Seq::empty()
    }) + (if c.played {
        seq![CrossChannelEvent::Played]
    } else {
        Seq::empty()
    }) + (if c.escalation {
        seq![CrossChannelEvent::Escalation]
    } else {
        Seq::empty()
    })
}

impl ControlEvents {
    /// The signalled events in sending order: arrival, departure, playback
    /// acknowledgement, escalation.
    pub fn events(&self) -> (r: Vec<CrossChannelEvent>)
        ensures
            r@ == spec_events(*self),
    {
        let mut r: Vec<CrossChannelEvent> = Vec::new();
        if self.arrive {
            r.push(CrossChannelEvent::Arrive);
        }
        if self.depart {
            r.push(CrossChannelEvent::Depart);
        }
        if self.played {
            r.push(CrossChannelEvent::Played);
        }
        if self.escalation {
            r.push(CrossChannelEvent::Escalation);
        }
        proof {
            assert(r@ =~= spec_events(*self));
        }
        r
    }
}

/// The notification sent to the device for one `UserStartedSpeaking` event.
pub struct AotNexeo {
    pub topic: String,
    pub meta: AotNexeoMeta,
    pub payload: AotNexeoAudioInterruptionPayload,
}

pub struct AotNexeoMeta {
    pub device_id: String,
    pub timestamp: String,
    pub msg_id: String,
    pub store_id: String,
    pub msg_type: String,
}

pub struct AotNexeoAudioInterruptionPayload {
    pub lane: String,
}

/// Relies on uuid::Uuid::new_v4 and its Display form: a freshly generated
/// random identifier.  Nothing is promised of its value.
#[verifier::external_body]
fn fresh_message_id() -> String {
    uuid::Uuid::new_v4().to_string()
}

/// Relies on chrono::Local::now and DateTime::to_rfc3339_opts: the local
/// clock reading at millisecond precision.  Nothing is promised of its
/// value.
#[verifier::external_body]
fn current_timestamp_millis() -> String {
    chrono::Local::now().to_rfc3339_opts(chrono::SecondsFormat::Millis, true)
}

/// Builds the audio-interruption notification: fixed topic, lane "1" and
/// message type "request", the session's correlation metadata, a fresh
/// message identifier and the clock reading of the moment it is built.
pub fn audio_interruption_notification(device_id: &String, store_id: &String) -> (r: AotNexeo)
    ensures
        r.topic@ == "aot/request/audio-interruption"@,
        r.meta.device_id@ == device_id@,
        r.meta.store_id@ == store_id@,
        r.meta.msg_type@ == "request"@,
        r.payload.lane@ == "1"@,
{
    AotNexeo {
        topic: "aot/request/audio-interruption".to_owned(),
        meta: AotNexeoMeta {
            device_id: device_id.clone(),
            timestamp: current_timestamp_millis(),
            msg_id: fresh_message_id(),
            store_id: store_id.clone(),
            msg_type: "request".to_owned(),
        },
        payload: AotNexeoAudioInterruptionPayload { lane: "1".to_owned() },
    }
}

} // verus!
