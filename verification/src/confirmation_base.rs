//! The confirmation gate model.
//!
//! A pending confirmation is an unresolved handle built from a poll
//! envelope link. It can repeatedly resolve its own payload — each
//! resolution is a fresh fetch by the transport — or be consumed exactly
//! once by `confirm` or `decline`. Consuming moves the handle, so a second
//! decision on the same handle is impossible at the type level; re-deciding
//! requires a fresh handle from a new poll.

use vstd::prelude::*;
use vstd::string::StringExecFns;

verus! {

use crate::deployment_base::{metadata_of_chunks, Deployment};
use crate::error::Error;
use crate::http_url::{feedback_view, url_parse, url_string};

/// The response to a confirmation request.
#[derive(Debug, Copy, Clone, PartialEq, Eq, Structural)]
pub enum ConfirmationResponse {
    /// Proceed with the update.
    Confirmed,
    /// Decline the confirmation and do not update.
    Denied,
}

/// The wire name of a decision in the feedback body.
pub open spec fn wire_name_view(r: ConfirmationResponse) -> Seq<char> {
    match r {
        ConfirmationResponse::Confirmed => "confirmed"@,
        ConfirmationResponse::Denied => "denied"@,
    }
}

/// The decision a wire name stands for, if it is one.
pub open spec fn wire_parse(s: Seq<char>) -> Option<ConfirmationResponse> {
    if s == "confirmed"@ {
        Some(ConfirmationResponse::Confirmed)
    } else if s == "denied"@ {
        Some(ConfirmationResponse::Denied)
    } else {
        None
    }
}

impl ConfirmationResponse {
    /// The name this decision takes on the wire: `confirmed` or `denied`.
    pub fn wire_name(&self) -> (r: &'static str)
        ensures
            r@ == wire_name_view(*self),
    {
        match self {
            ConfirmationResponse::Confirmed => "confirmed",
            ConfirmationResponse::Denied => "denied",
        }
    }

    /// Read a decision back from its wire name.
    pub fn from_wire(s: &str) -> (r: Option<ConfirmationResponse>)
        ensures
            r == wire_parse(s@),
    {
        if s.to_owned() == String::from_str("confirmed") {
            Some(ConfirmationResponse::Confirmed)
        } else if s.to_owned() == String::from_str("denied") {
            Some(ConfirmationResponse::Denied)
        } else {
            proof {
                reveal_strlit("confirmed");
                reveal_strlit("denied");
            }
            None
        }
    }
}

/// Law: the wire encoding of a decision reads back as the same decision,
/// for either decision.
pub proof fn lemma_wire_round_trip(r: ConfirmationResponse)
    ensures
        wire_parse(wire_name_view(r)) == Some(r),
{
    reveal_strlit("confirmed");
    reveal_strlit("denied");
    assert("confirmed"@.len() != "denied"@.len());
}

/// The body of a confirmation feedback post: the decision, its numeric
/// accept/reject signal, and free-text details. Constructed fresh per
/// decision, never reused.
#[derive(Debug, Clone)]
pub struct Confirmation {
    /// The decision reported to the server.
    pub confirmation: ConfirmationResponse,
    /// The accept/reject signal: `1` for confirmed, `-1` for denied.
    pub code: i32,
    /// Free-text details accompanying the decision.
    pub details: Vec<String>,
}

impl Confirmation {
    /// A fresh feedback body with the given decision and code, no details.
    pub fn new(confirmation: ConfirmationResponse, code: i32) -> (r: Self)
        ensures
            r.confirmation == confirmation,
            r.code == code,
            r.details@.len() == 0,
    {
        Self { confirmation, code, details: vec![] }
    }
}

/// A feedback post ready for the transport: the derived feedback URL and
/// the body to send to it.
#[derive(Debug, Clone)]
pub struct FeedbackPost {
    /// The feedback URL: the action URL with a `feedback` segment appended
    /// and the query removed.
    pub url: String,
    /// The body of the post.
    pub body: Confirmation,
}

/// What confirming or declining yields on an action URL: the feedback post
/// for the derived feedback URL where the URL is hierarchical, and an
/// explicit URL-parse error — never a crash — where it is not.
pub open spec fn decision_post(
    url: Seq<char>,
    decision: ConfirmationResponse,
    code: int,
    r: Result<FeedbackPost, Error>,
) -> bool {
    match url_parse(url) {
        Some(u) => {
            &&& r matches Ok(p)
            &&& p.url@ == url_string(feedback_view(u))
            &&& p.body.confirmation == decision
            &&& p.body.code == code
            &&& p.body.details@.len() == 0
        },
        None => r == Err::<FeedbackPost, Error>(Error::ParseUrlError),
    }
}

/// A pending confirmation whose details have not been retrieved yet.
#[derive(Debug)]
pub struct ConfirmationRequest {
    /// The confirmation action URL from the poll envelope.
    pub url: String,
    /// Free-text details to accompany a decision.
    pub details: Vec<String>,
}

impl ConfirmationRequest {
    /// A fresh handle on the confirmation action behind `url`.
    pub fn new(url: String) -> (r: Self)
        ensures
            r.url@ == url@,
            r.details@.len() == 0,
    {
        Self { url, details: vec![] }
    }

    /// Build the feedback post for one decision on this gate.
    fn decision(self, response: ConfirmationResponse, code: i32) -> (r: Result<FeedbackPost, Error>)
        ensures
            decision_post(self.url@, response, code as int, r),
    {
        let url = match crate::http_url::feedback_url_string(self.url.as_str()) {
            Ok(u) => u,
            Err(e) => {
                return Err(e);
            },
        };
        Ok(FeedbackPost { url, body: Confirmation::new(response, code) })
    }

    /// Confirm the confirmation request: the feedback post carries
    /// `confirmed` with code `1`. The server is then expected to surface a
    /// deployment on a later poll. Consumes the handle — a decision is made
    /// at most once per handle.
    pub fn confirm(self) -> (r: Result<FeedbackPost, Error>)
        ensures
            decision_post(self.url@, ConfirmationResponse::Confirmed, 1, r),
    {
        self.decision(ConfirmationResponse::Confirmed, 1)
    }

    /// Decline the confirmation request: the feedback post carries `denied`
    /// with code `-1`. The server does not advance its state — the same
    /// confirmation is offered again on the next poll. Consumes the handle.
    pub fn decline(self) -> (r: Result<FeedbackPost, Error>)
        ensures
            decision_post(self.url@, ConfirmationResponse::Denied, -1, r),
    {
        self.decision(ConfirmationResponse::Denied, -1)
    }
}

/// The resolved, read-only view of what is pending confirmation.
#[derive(Debug, Clone)]
pub struct ConfirmationInfo {
    /// The action id of the update to be confirmed.
    pub id: String,
    /// The deployment-shaped payload pending confirmation.
    pub confirmation: Deployment,
}

impl ConfirmationInfo {
    /// Wrap a resolved confirmation payload.
    pub fn new(id: String, confirmation: Deployment) -> (r: Self)
        ensures
            r.id@ == id@,
            r.confirmation == confirmation,
    {
        Self { id, confirmation }
    }

    /// All metadata of all chunks of the update, flattened in chunk order
    /// and, within a chunk, declaration order.
    pub fn metadata(&self) -> (r: Vec<(String, String)>)
        ensures
            r.deep_view() == metadata_of_chunks(self.confirmation.chunks@),
    {
        self.confirmation.metadata()
    }

    /// The action id of the update to be confirmed.
    pub fn action_id(&self) -> (r: &str)
        ensures
            r@ == self.id@,
    {
        self.id.as_str()
    }
}

} // verus!
