//! Order persistence requests.
//!
//! Every session-ending transition (departure, escalation, upstream close)
//! yields one persistence request tagged with its reason.  Persistence is
//! best effort and happens only when both the backend order identifier and
//! the upstream agent session identifier are known; the snapshot is written
//! under a file name correlating timestamp, the two identifiers and the
//! reason.  Fetching the order detail and writing the file are I/O and live
//! with the caller; the decision and the file name are fixed here.

use vstd::prelude::*;
use vstd::string::StringExecFns;

verus! {

/// Why a session ended; recorded with the persisted order.
pub enum PersistReason {
    Depart,
    Escalation,
    ConnectionClose,
}

impl PersistReason {
    /// The reason string recorded with the persisted order.
    pub open spec fn spec_text(self) -> Seq<char> {
        match self {
            PersistReason::Depart => "depart"@,
            PersistReason::Escalation => "escalation"@,
            PersistReason::ConnectionClose => "close"@,
        }
    }

    pub fn text(&self) -> (r: String)
        ensures
            r@ == self.spec_text(),
    {
        match self {
            PersistReason::Depart => "depart".to_owned(),
            PersistReason::Escalation => "escalation".to_owned(),
            PersistReason::ConnectionClose => "close".to_owned(),
        }
    }
}

/// One persistence request, as a session-ending transition emits it.
pub struct PersistRequest {
    pub reason: PersistReason,
    pub order_id: Option<String>,
    pub agent_session_id: Option<String>,
}

/// The model of a persistence request.
pub struct PersistRequestView {
    pub reason: PersistReason,
    pub order_id: Option<Seq<char>>,
    pub agent_session_id: Option<Seq<char>>,
}

impl View for PersistRequest {
    type V = PersistRequestView;

    open spec fn view(&self) -> PersistRequestView {
        PersistRequestView {
            reason: self.reason,
            order_id: match self.order_id {
                Some(ref s) => Some(s@),
                None => None,
            },
            agent_session_id: match self.agent_session_id {
                Some(ref s) => Some(s@),
                None => None,
            },
        }
    }
}

/// The file name a persisted order is written under.
pub open spec fn spec_file_name(
    timestamp: Seq<char>,
    order_id: Seq<char>,
    agent_session_id: Seq<char>,
    reason: PersistReason,
) -> Seq<char> {
    timestamp + "_"@ + order_id + "_"@ + agent_session_id + "_"@ + reason.spec_text() + ".json"@
}

impl PersistRequestView {
    /// Persistence happens exactly when both identifiers are known.
    pub open spec fn spec_should_write(self) -> bool {
        self.order_id is Some && self.agent_session_id is Some
    }
}

impl PersistRequest {
    pub fn should_write(&self) -> (r: bool)
        ensures
            r == self@.spec_should_write(),
    {
        self.order_id.is_some() && self.agent_session_id.is_some()
    }

    /// The snapshot's file name for this request, stamped with the caller's
    /// clock reading; nothing when the request is not to be written.
    pub fn file_name(&self, timestamp: &str) -> (r: Option<String>)
        ensures
            self@.spec_should_write() ==> (r matches Some(name) && name@ == spec_file_name(
                timestamp@,
                self@.order_id.unwrap(),
                self@.agent_session_id.unwrap(),
                self.reason,
            )),
            !self@.spec_should_write() ==> r is None,
    {
        match (&self.order_id, &self.agent_session_id) {
            (Some(order_id), Some(agent_session_id)) => {
                let mut name: String = timestamp.to_owned();
                name.append("_");
                name.append(order_id.as_str());
                name.append("_");
                name.append(agent_session_id.as_str());
                name.append("_");
                let reason = self.reason.text();
                name.append(reason.as_str());
                name.append(".json");
                Some(name)
            },
            _ => None,
        }
    }
}

} // verus!
