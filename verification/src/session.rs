//! The per-session lifecycle state machine.
//!
//! One logical session pairs a device audio connection, a device message
//! connection and at most one upstream speech-agent connection.  The machine
//! owns the session's mutable state and decides, for every event arriving on
//! either device connection or from upstream, what must be sent where.  The
//! surrounding event loop performs the transport work: it feeds each event to
//! the matching method here and carries out the returned effects.

use vstd::prelude::*;

use crate::codec;
use crate::persistence::{PersistReason, PersistRequest};

verus! {

/// An event one device connection sends to its sibling connection of the
/// same session, through the session registry's queue pair.
pub enum CrossChannelEvent {
    UserStartedSpeaking,
    Arrive,
    Depart,
    Played,
    Escalation,
}

/// The two lifecycle states of a session: `Idle` means no upstream
/// connection, `Active` means the upstream connection is open and an order
/// is in progress.
pub enum LifecycleState {
    Idle,
    Active,
}

/// The mutable state of one session, as the audio-side event loop owns it.
pub struct SessionState {
    /// Whether the upstream speech-agent connection is open.
    pub upstream_open: bool,
    /// Whether the device is assumed to still be playing the agent's last
    /// utterance.
    pub agent_speaking: bool,
    /// Agent audio accumulated while `agent_speaking` is true; flushed to
    /// the device on playback acknowledgement.
    pub pending_playback_audio: Vec<u8>,
    /// The in-progress backend order, present only while active.
    pub order_id: Option<String>,
    /// The identifier the upstream agent assigned on handshake; kept for
    /// persistence correlation only.
    pub agent_session_id: Option<String>,
}

/// The mathematical model of a session: the same fields over sequences.
pub struct SessionView {
    pub upstream_open: bool,
    pub agent_speaking: bool,
    pub pending_playback_audio: Seq<u8>,
    pub order_id: Option<Seq<char>>,
    pub agent_session_id: Option<Seq<char>>,
}

impl View for SessionState {
    type V = SessionView;

    open spec fn view(&self) -> SessionView {
        SessionView {
            upstream_open: self.upstream_open,
            agent_speaking: self.agent_speaking,
            pending_playback_audio: self.pending_playback_audio@,
            order_id: match self.order_id {
                Some(ref s) => Some(s@),
                None => None,
            },
            agent_session_id: match self.agent_session_id {
                Some(ref s) => Some(s@),
                None => None,
            },
        }
    }
}

/// What an inbound device capture frame becomes.
pub enum DeviceAudioAction {
    /// Forward these bytes (one extracted channel) to the upstream agent.
    ForwardUpstream(Vec<u8>),
    /// The agent is speaking and barge-in is disabled: send a keep-alive
    /// upstream instead and drop the frame.
    SendKeepAlive,
    /// No upstream connection exists: drop the frame.
    Drop,
}

/// The model-level transitions, one spec function per event.  Each exec
/// method below ensures that the new state is exactly the corresponding
/// function of the old one, so runs of the machine can be reasoned about
/// as folds over these functions.
pub open spec fn spec_on_arrive(s: SessionView) -> SessionView {
    SessionView {
        upstream_open: false,
        agent_speaking: false,
        pending_playback_audio: Seq::empty(),
        order_id: None,
        ..s
    }
}

pub open spec fn spec_upstream_established(s: SessionView) -> SessionView {
    SessionView { upstream_open: true, ..s }
}

pub open spec fn spec_order_assigned(s: SessionView, id: Seq<char>) -> SessionView {
    SessionView { order_id: Some(id), ..s }
}

pub open spec fn spec_on_welcome(s: SessionView, session_id: Seq<char>) -> SessionView {
    SessionView { agent_session_id: Some(session_id), ..s }
}

/// Departure and escalation share one transition: back to idle with the
/// audio state reset; only the recorded reason differs.
pub open spec fn spec_on_session_end(s: SessionView) -> SessionView {
    if s.upstream_open {
        SessionView {
            upstream_open: false,
            agent_speaking: false,
            pending_playback_audio: Seq::empty(),
            order_id: None,
            ..s
        }
    } else {
        s
    }
}

/// An upstream close tears down the order and the connection but, unlike
/// departure, performs no audio reset.
pub open spec fn spec_on_upstream_closed(s: SessionView) -> SessionView {
    SessionView { upstream_open: false, order_id: None, ..s }
}

pub open spec fn spec_on_played(s: SessionView) -> SessionView {
    if !s.upstream_open {
        s
    } else if s.pending_playback_audio.len() == 0 {
        SessionView { agent_speaking: false, ..s }
    } else {
        SessionView { agent_speaking: true, pending_playback_audio: Seq::empty(), ..s }
    }
}

pub open spec fn spec_on_upstream_audio(s: SessionView, audio: Seq<u8>) -> SessionView {
    if !s.agent_speaking {
        SessionView { agent_speaking: true, ..s }
    } else {
        SessionView {
            pending_playback_audio: s.pending_playback_audio + audio,
            ..s
        }
    }
}

/// One state-changing event of a session run, as the model sees it: a
/// cross-channel control event, a completion the event loop reports
/// (upstream handshake done, order assigned), or an upstream message.
pub enum SessionEvent {
    CrossChannel(CrossChannelEvent),
    UpstreamEstablished,
    OrderAssigned(Seq<char>),
    Welcome(Seq<char>),
    UpstreamAudio(Seq<u8>),
    UpstreamClosed,
}

/// The model transition for one event: each exec method below implements
/// exactly one case.
pub open spec fn spec_step(s: SessionView, e: SessionEvent) -> SessionView {
    match e {
        SessionEvent::CrossChannel(CrossChannelEvent::Arrive) => spec_on_arrive(s),
        SessionEvent::CrossChannel(CrossChannelEvent::Depart) => spec_on_session_end(s),
        SessionEvent::CrossChannel(CrossChannelEvent::Escalation) => spec_on_session_end(s),
        SessionEvent::CrossChannel(CrossChannelEvent::Played) => spec_on_played(s),
        SessionEvent::CrossChannel(CrossChannelEvent::UserStartedSpeaking) => s,
        SessionEvent::UpstreamEstablished => spec_upstream_established(s),
        SessionEvent::OrderAssigned(id) => spec_order_assigned(s, id),
        SessionEvent::Welcome(sid) => spec_on_welcome(s, sid),
        SessionEvent::UpstreamAudio(audio) => spec_on_upstream_audio(s, audio),
        SessionEvent::UpstreamClosed => spec_on_upstream_closed(s),
    }
}

/// A whole run: the fold of `spec_step` over an event sequence.
pub open spec fn spec_run(s: SessionView, events: Seq<SessionEvent>) -> SessionView
    decreases events.len(),
{
    if events.len() == 0 {
        s
    } else {
        spec_run(spec_step(s, events[0]), events.drop_first())
    }
}

/// Whether a run contains no arrival and no upstream-established completion.
/// The event loop reports `UpstreamEstablished` only while acting on the
/// connect request that `on_arrive` returns, so a session that never
/// receives `Arrive` sees neither event.
pub open spec fn arrival_free(events: Seq<SessionEvent>) -> bool {
    forall|i: int|
        0 <= i < events.len() ==> !(#[trigger] events[i] matches SessionEvent::CrossChannel(
            CrossChannelEvent::Arrive,
        )) && !(events[i] matches SessionEvent::UpstreamEstablished)
}

/// A session that never receives an arrival never opens an upstream
/// connection: from an idle state, any run without `Arrive` (and so without
/// the handshake completion only an arrival can request) stays idle —
/// however much device audio arrives meanwhile, since `on_device_audio`
/// changes no state and, while idle, yields `Drop`: the audio is never
/// forwarded to the absent connection, nor even keep-alived.
pub proof fn lemma_no_arrival_no_upstream(s: SessionView, events: Seq<SessionEvent>)
    requires
        !s.upstream_open,
        arrival_free(events),
    ensures
        !spec_run(s, events).upstream_open,
    decreases events.len(),
{
    if events.len() > 0 {
        let s1 = spec_step(s, events[0]);
        assert(!(events[0] matches SessionEvent::CrossChannel(CrossChannelEvent::Arrive)));
        assert(!s1.upstream_open);
        assert(arrival_free(events.drop_first())) by {
            assert forall|i: int| 0 <= i < events.drop_first().len() implies !(
            #[trigger] events.drop_first()[i] matches SessionEvent::CrossChannel(
                CrossChannelEvent::Arrive,
            )) && !(events.drop_first()[i] matches SessionEvent::UpstreamEstablished) by {
                assert(events.drop_first()[i] == events[i + 1]);
            }
        }
        lemma_no_arrival_no_upstream(s1, events.drop_first());
    }
}

/// While the agent is speaking, upstream audio only accumulates: a run of
/// binary frames changes no other field and appends the frames' bytes to
/// the pending buffer in arrival order — which is exactly what the next
/// playback acknowledgement flushes.
pub proof fn lemma_speaking_buffer_accumulates(s: SessionView, frames: Seq<Seq<u8>>)
    requires
        s.agent_speaking,
    ensures
        spec_run(s, frames.map_values(|a: Seq<u8>| SessionEvent::UpstreamAudio(a)))
            == (SessionView { pending_playback_audio: s.pending_playback_audio + frames.flatten(), ..s }),
    decreases frames.len(),
{
    let events = frames.map_values(|a: Seq<u8>| SessionEvent::UpstreamAudio(a));
    if frames.len() == 0 {
        assert(s.pending_playback_audio + frames.flatten() =~= s.pending_playback_audio);
    } else {
        let s1 = spec_step(s, events[0]);
        assert(s1 == spec_on_upstream_audio(s, frames[0]));
        assert(events.drop_first() =~= frames.drop_first().map_values(
            |a: Seq<u8>| SessionEvent::UpstreamAudio(a),
        ));
        lemma_speaking_buffer_accumulates(s1, frames.drop_first());
        assert((s.pending_playback_audio + frames[0]) + frames.drop_first().flatten()
            =~= s.pending_playback_audio + frames.flatten());
    }
}

/// Departure and escalation persist exactly once: the session-ending
/// transition leaves the session idle, and on an idle session the same
/// event changes nothing and persists nothing (`on_depart` and
/// `on_escalation` yield a request exactly when the session was active).
pub proof fn lemma_session_end_persists_once(s: SessionView)
    ensures
        !spec_on_session_end(s).upstream_open,
        spec_on_session_end(spec_on_session_end(s)) == spec_on_session_end(s),
{
}

impl SessionState {
    /// A fresh session: idle, silent, nothing buffered, no identifiers.
    pub fn new() -> (s: Self)
        ensures
            !s@.upstream_open,
            !s@.agent_speaking,
            s@.pending_playback_audio == Seq::<u8>::empty(),
            s@.order_id is None,
            s@.agent_session_id is None,
    {
        SessionState {
            upstream_open: false,
            agent_speaking: false,
            pending_playback_audio: Vec::new(),
            order_id: None,
            agent_session_id: None,
        }
    }

    /// Idle means no upstream connection; Active means one is open.
    pub open spec fn is_active(self) -> bool {
        self.upstream_open
    }

    pub fn lifecycle_state(&self) -> (r: LifecycleState)
        ensures
            r is Active <==> self.is_active(),
            r is Idle <==> !self.is_active(),
    {
        if self.upstream_open {
            LifecycleState::Active
        } else {
            LifecycleState::Idle
        }
    }

    /// An arrival begins a new active period: the audio state is reset, a
    /// fresh order will be requested, and the caller must open the upstream
    /// connection (the one returned `true` of any transition).  The previous
    /// upstream connection, if any, is replaced.
    pub fn on_arrive(&mut self) -> (connect_upstream: bool)
        ensures
            final(self)@ == spec_on_arrive(old(self)@),
            connect_upstream,
    {
        self.upstream_open = false;
        self.agent_speaking = false;
        self.pending_playback_audio = Vec::new();
        self.order_id = None;
        true
    }

    /// The caller reports that the upstream handshake succeeded.  On a
    /// failed handshake this is never called and the session stays idle
    /// until the next arrival.
    pub fn upstream_established(&mut self)
        ensures
            final(self)@ == spec_upstream_established(old(self)@),
    {
        self.upstream_open = true;
    }

    /// The caller reports the order identifier the order backend assigned.
    pub fn order_assigned(&mut self, id: String)
        ensures
            final(self)@ == spec_order_assigned(old(self)@, id@),
    {
        self.order_id = Some(id);
    }

    /// The upstream agent's handshake reply: record its session identifier.
    pub fn on_welcome(&mut self, session_id: String)
        ensures
            final(self)@ == spec_on_welcome(old(self)@, session_id@),
    {
        self.agent_session_id = Some(session_id);
    }

    /// A departure while active ends the session: exactly one persistence
    /// request tagged "depart", carrying the identifiers as they were before
    /// the reset.  While idle the event is ignored.
    pub fn on_depart(&mut self) -> (persist: Option<PersistRequest>)
        ensures
            final(self)@ == spec_on_session_end(old(self)@),
            old(self)@.upstream_open ==> (persist matches Some(p) && p.reason is Depart
                && p@.order_id == old(self)@.order_id
                && p@.agent_session_id == old(self)@.agent_session_id),
            !old(self)@.upstream_open ==> persist is None,
    {
        self.end_session(PersistReason::Depart)
    }

    /// An escalation ends the session exactly as a departure does; only the
    /// recorded reason differs.
    pub fn on_escalation(&mut self) -> (persist: Option<PersistRequest>)
        ensures
            final(self)@ == spec_on_session_end(old(self)@),
            old(self)@.upstream_open ==> (persist matches Some(p) && p.reason is Escalation
                && p@.order_id == old(self)@.order_id
                && p@.agent_session_id == old(self)@.agent_session_id),
            !old(self)@.upstream_open ==> persist is None,
    {
        self.end_session(PersistReason::Escalation)
    }

    fn end_session(&mut self, reason: PersistReason) -> (persist: Option<PersistRequest>)
        ensures
            final(self)@ == spec_on_session_end(old(self)@),
            old(self)@.upstream_open ==> (persist matches Some(p) && p.reason == reason
                && p@.order_id == old(self)@.order_id
                && p@.agent_session_id == old(self)@.agent_session_id),
            !old(self)@.upstream_open ==> persist is None,
    {
        if !self.upstream_open {
            return None;
        }
        let order_id = self.order_id.take();
        let agent_session_id = match &self.agent_session_id {
            Some(s) => Some(s.clone()),
            None => None,
        };
        self.upstream_open = false;
        self.agent_speaking = false;
        self.pending_playback_audio = Vec::new();
        Some(PersistRequest { reason, order_id, agent_session_id })
    }

    /// A close from upstream ends the session with reason "close": the order
    /// and the upstream connection are cleared, but no audio reset is made.
    pub fn on_upstream_closed(&mut self) -> (persist: Option<PersistRequest>)
        ensures
            final(self)@ == spec_on_upstream_closed(old(self)@),
            persist matches Some(p) && p.reason is ConnectionClose
                && p@.order_id == old(self)@.order_id
                && p@.agent_session_id == old(self)@.agent_session_id,
    {
        let order_id = self.order_id.take();
        let agent_session_id = match &self.agent_session_id {
            Some(s) => Some(s.clone()),
            None => None,
        };
        self.upstream_open = false;
        Some(PersistRequest { reason: PersistReason::ConnectionClose, order_id, agent_session_id })
    }

    /// A playback acknowledgement while active: the agent is no longer
    /// speaking; whatever audio accumulated since the last flip is flushed
    /// to the device as one frame, and a non-empty flush means the device is
    /// immediately playing again.  While idle the event is ignored.
    pub fn on_played(&mut self) -> (flush: Option<Vec<u8>>)
        ensures
            final(self)@ == spec_on_played(old(self)@),
            old(self)@.upstream_open && old(self)@.pending_playback_audio.len() > 0 ==> (
                flush matches Some(f)
                    && f@ == codec::spec_encode(old(self)@.pending_playback_audio)),
            !(old(self)@.upstream_open && old(self)@.pending_playback_audio.len() > 0)
                ==> flush is None,
    {
        if !self.upstream_open {
            return None;
        }
        self.agent_speaking = false;
        if self.pending_playback_audio.len() == 0 {
            return None;
        }
        let frame = codec::encode(self.pending_playback_audio.as_slice());
        self.pending_playback_audio = Vec::new();
        self.agent_speaking = true;
        Some(frame)
    }

    /// A binary frame from upstream is synthesized agent speech.  When the
    /// agent is not already speaking it goes to the device at once, framed,
    /// and flips `agent_speaking`; otherwise it is buffered so consecutive
    /// utterances do not interleave on the device.
    pub fn on_upstream_audio(&mut self, audio: Vec<u8>) -> (send: Option<Vec<u8>>)
        ensures
            final(self)@ == spec_on_upstream_audio(old(self)@, audio@),
            !old(self)@.agent_speaking ==> (send matches Some(f)
                && f@ == codec::spec_encode(audio@)),
            old(self)@.agent_speaking ==> send is None,
    {
        if !self.agent_speaking {
            let frame = codec::encode(audio.as_slice());
            self.agent_speaking = true;
            Some(frame)
        } else {
            let mut audio = audio;
            self.pending_playback_audio.append(&mut audio);
            None
        }
    }

    /// An upstream `UserStartedSpeaking` notice is published to the paired
    /// message connection exactly when barge-in is enabled.
    pub fn on_user_started_speaking(&self, barge_in_enabled: bool) -> (publish: bool)
        ensures
            publish == barge_in_enabled,
    {
        barge_in_enabled
    }

    /// An inbound device capture frame: forwarded upstream (one channel
    /// extracted) unless the agent is speaking with barge-in disabled, in
    /// which case a keep-alive goes upstream instead; with no upstream
    /// connection the frame is dropped, never forwarded.
    pub fn on_device_audio(&self, frame: &[u8], barge_in_enabled: bool) -> (a: DeviceAudioAction)
        ensures
            !self@.upstream_open ==> a is Drop,
            self@.upstream_open && self@.agent_speaking && !barge_in_enabled
                ==> a is SendKeepAlive,
            self@.upstream_open && (!self@.agent_speaking || barge_in_enabled)
                ==> (a matches DeviceAudioAction::ForwardUpstream(b) && b@ == codec::spec_extract_channel(frame@)),
    {
        if !self.upstream_open {
            DeviceAudioAction::Drop
        } else if self.agent_speaking && !barge_in_enabled {
            DeviceAudioAction::SendKeepAlive
        } else {
            DeviceAudioAction::ForwardUpstream(codec::extract_channel(frame))
        }
    }
}

} // verus!
