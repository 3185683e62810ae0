use vstd::prelude::*;

use crate::json::{json_at, json_quoted, node_at, quote, JsonNode, JsonShape};

verus! {

/// The endpoint that issues device and user codes.
pub const CODE_URL: &'static str = "https://github.com/login/device/code";

/// The endpoint polled for the access token.
pub const POLL_URL: &'static str = "https://github.com/login/oauth/access_token";

/// The body of the request for a device code: the client identifier and the scope.
pub const CODE_BODY: &'static str = "{\"client_id\":\"f6e1ede88556627925d6\",\"scope\":\"user:email\"}";

/// The start of the body of a poll request, up to the device code.
pub const POLL_BODY_PREFIX: &'static str =
    "{\"client_id\":\"f6e1ede88556627925d6\",\"grant_type\":\"urn:ietf:params:oauth:grant-type:device_code\",\"device_code\":";

/// The error kind by which the server says that the operator has not yet authorized.
pub const AUTHORIZATION_PENDING: &'static str = "authorization_pending";

/// What the authorization server issues when the flow starts.
#[derive(Debug, Clone)]
pub struct DeviceCode {
    pub device_code: String,
    pub user_code: String,
    pub verification_uri: String,
    /// The least number of seconds between two polls.
    pub interval: u64,
}

/// Reads the reply of the code endpoint; `None` when the reply is malformed.
pub fn read_device_code(text: &str) -> (r: Option<DeviceCode>)
    ensures
        r is Some <==> {
            &&& json_at(text@, "/device_code"@) is Text
            &&& json_at(text@, "/user_code"@) is Text
            &&& json_at(text@, "/verification_uri"@) is Text
            &&& json_at(text@, "/interval"@) is Count
        },
        r matches Some(c) ==> {
            &&& json_at(text@, "/device_code"@) == JsonShape::Text(c.device_code@)
            &&& json_at(text@, "/user_code"@) == JsonShape::Text(c.user_code@)
            &&& json_at(text@, "/verification_uri"@) == JsonShape::Text(c.verification_uri@)
            &&& json_at(text@, "/interval"@) == JsonShape::Count(c.interval)
        },
{
    let device_code = node_at(text, "/device_code");
    let user_code = node_at(text, "/user_code");
    let verification_uri = node_at(text, "/verification_uri");
    let interval = node_at(text, "/interval");
    match (device_code, user_code, verification_uri, interval) {
        (
            JsonNode::Text(device_code),
            JsonNode::Text(user_code),
            JsonNode::Text(verification_uri),
            JsonNode::Count(interval),
        ) => Some(DeviceCode { device_code, user_code, verification_uri, interval }),
        _ => None,
    }
}

/// A reply of the token endpoint.
#[derive(Debug, Clone)]
pub enum PollReply {
    /// The operator authorized: the access token.
    Token(String),
    /// The operator has not authorized yet.
    Pending,
    /// The server gave up with this error kind.
    Rejected(String),
    /// Neither a token nor an error.
    Unrecognized,
    /// The reply is not JSON.
    Malformed,
}

/// Reads a reply of the token endpoint: a token wins over an error, an error other
/// than a pending authorization rejects, and a text that is not JSON is malformed.
pub fn read_poll_reply(text: &str) -> (r: PollReply)
    ensures
        json_at(text@, "/access_token"@) is Invalid ==> r is Malformed,
        json_at(text@, "/access_token"@) matches JsonShape::Text(t) ==> r matches PollReply::Token(
            u,
        ) && u@ == t,
        !(json_at(text@, "/access_token"@) is Invalid) && !(json_at(
            text@,
            "/access_token"@,
        ) is Text) ==> match json_at(text@, "/error"@) {
            JsonShape::Text(e) => if e == AUTHORIZATION_PENDING@ {
                r is Pending
            } else {
                r matches PollReply::Rejected(u) && u@ == e
            },
            _ => r is Unrecognized,
        },
{
    match node_at(text, "/access_token") {
        JsonNode::Invalid => PollReply::Malformed,
        JsonNode::Text(t) => PollReply::Token(t),
        _ => match node_at(text, "/error") {
            JsonNode::Text(e) => {
                if e == String::from_str(AUTHORIZATION_PENDING) {
                    PollReply::Pending
                } else {
                    PollReply::Rejected(e)
                }
            },
            _ => PollReply::Unrecognized,
        },
    }
}

/// What the driver of the flow does after a reply.
#[derive(Debug, Clone)]
pub enum FlowAction {
    /// Wait this many seconds, then poll again.
    Sleep(u64),
    /// Store this token, replacing any earlier one; the flow has succeeded.
    Persist(String),
    /// Stop: the flow has failed, with the server's error kind when there is one.
    Fail(Option<String>),
}

/// How a run of the flow over a sequence of replies ended.
#[derive(Debug, Clone)]
pub enum FlowEnd {
    /// A token was obtained and persisted.
    Authenticated(String),
    /// The flow failed; nothing was persisted.
    Failed(Option<String>),
    /// The replies ran out while the flow was still polling.
    Polling,
}

/// The outcome of a run of the flow.
#[derive(Debug, Clone)]
pub struct FlowRun {
    /// How many sleeps came before the end.
    pub sleeps: usize,
    pub end: FlowEnd,
}

/// The action that follows a reply when polls are `period` seconds apart.
pub open spec fn step_spec(period: u64, reply: PollReply) -> FlowAction {
    match reply {
        PollReply::Token(t) => FlowAction::Persist(t),
        PollReply::Pending => FlowAction::Sleep(period),
        PollReply::Unrecognized => FlowAction::Sleep(period),
        PollReply::Rejected(e) => FlowAction::Fail(Some(e)),
        PollReply::Malformed => FlowAction::Fail(None),
    }
}

/// The number of sleeps and the end of a run of the flow over a sequence of replies:
/// the replies are taken in order until one ends the flow.
pub open spec fn run_spec(period: u64, replies: Seq<PollReply>) -> (nat, FlowEnd)
    decreases replies.len(),
{
    if replies.len() == 0 {
        (0, FlowEnd::Polling)
    } else {
        match step_spec(period, replies[0]) {
            FlowAction::Sleep(_) => {
                let rest = run_spec(period, replies.drop_first());
                (rest.0 + 1, rest.1)
            },
            FlowAction::Persist(t) => (0, FlowEnd::Authenticated(t)),
            FlowAction::Fail(e) => (0, FlowEnd::Failed(e)),
        }
    }
}

/// The body of a poll request for a device code.
pub open spec fn poll_body_spec(device_code: Seq<char>) -> Seq<char> {
    POLL_BODY_PREFIX@ + json_quoted(device_code) + "}"@
}

/// After any number of pending replies, a reply that carries a token ends the flow
/// authenticated with that token: one sleep of a full period follows each pending
/// reply, and the token is persisted.
pub proof fn lemma_pending_then_token(period: u64, replies: Seq<PollReply>, n: nat, t: String)
    requires
        n < replies.len(),
        forall|j: int| 0 <= j < n ==> (#[trigger] replies[j]) is Pending,
        replies[n as int] == PollReply::Token(t),
    ensures
        run_spec(period, replies) == (n, FlowEnd::Authenticated(t)),
        forall|j: int|
            0 <= j < n ==> step_spec(period, #[trigger] replies[j]) == FlowAction::Sleep(period),
        step_spec(period, replies[n as int]) == FlowAction::Persist(t),
    decreases n,
{
    if n > 0 {
        let rest = replies.drop_first();
        assert forall|j: int| 0 <= j < n - 1 implies (#[trigger] rest[j]) is Pending by {
            assert(rest[j] == replies[j + 1]);
        }
        assert(rest[n - 1] == replies[n as int]);
        lemma_pending_then_token(period, rest, (n - 1) as nat, t);
    }
}

/// After any number of pending replies, a reply with an error kind ends the flow failed
/// with that error kind, and no reply on the way asks for a token to be persisted.
pub proof fn lemma_rejection_fails(period: u64, replies: Seq<PollReply>, n: nat, e: String)
    requires
        n < replies.len(),
        forall|j: int| 0 <= j < n ==> (#[trigger] replies[j]) is Pending,
        replies[n as int] == PollReply::Rejected(e),
    ensures
        run_spec(period, replies) == (n, FlowEnd::Failed(Some(e))),
        forall|j: int| 0 <= j <= n ==> !(step_spec(period, #[trigger] replies[j]) is Persist),
    decreases n,
{
    if n > 0 {
        let rest = replies.drop_first();
        assert forall|j: int| 0 <= j < n - 1 implies (#[trigger] rest[j]) is Pending by {
            assert(rest[j] == replies[j + 1]);
        }
        assert(rest[n - 1] == replies[n as int]);
        lemma_rejection_fails(period, rest, (n - 1) as nat, e);
    }
}

/// The polling state of the flow: the device code and the time between two polls.
#[derive(Debug, Clone)]
pub struct Poller {
    pub device_code: String,
    /// Seconds between two polls.
    pub period: u64,
}

impl Poller {
    /// Starts polling for a device code: polls are one second further apart than the
    /// interval the server asked for (saturating at the largest `u64`).
    pub fn new(code: &DeviceCode) -> (r: Poller)
        ensures
            r.device_code == code.device_code,
            r.period == if code.interval == u64::MAX {
                u64::MAX
            } else {
                (code.interval + 1) as u64
            },
    {
        Poller { device_code: code.device_code.clone(), period: code.interval.saturating_add(1) }
    }

    /// The body of the next poll request.
    pub fn request_body(&self) -> (r: String)
        ensures
            r@ == poll_body_spec(self.device_code@),
    {
        let mut body = String::from_str(POLL_BODY_PREFIX);
        let code = quote(self.device_code.as_str());
        body.append(code.as_str());
        body.append("}");
        body
    }

    /// The action that follows a reply: a token is persisted, a pending authorization
    /// or an unrecognized reply waits one period, anything else fails.
    pub fn on_reply(&self, reply: &PollReply) -> (r: FlowAction)
        ensures
            r == step_spec(self.period, *reply),
    {
        match reply {
            PollReply::Token(t) => FlowAction::Persist(t.clone()),
            PollReply::Pending => FlowAction::Sleep(self.period),
            PollReply::Unrecognized => FlowAction::Sleep(self.period),
            PollReply::Rejected(e) => FlowAction::Fail(Some(e.clone())),
            PollReply::Malformed => FlowAction::Fail(None),
        }
    }

    /// Runs the flow over a given sequence of replies, without waiting, and reports how
    /// many sleeps it took and how it ended.
    pub fn replay(&self, replies: &Vec<PollReply>) -> (r: FlowRun)
        ensures
            r.sleeps as nat == run_spec(self.period, replies@).0,
            r.end == run_spec(self.period, replies@).1,
    {
        let mut sleeps: usize = 0;
        let mut i: usize = 0;
        proof {
            assert(replies@.skip(0) =~= replies@);
        }
        while i < replies.len()
            invariant
                i <= replies.len(),
                sleeps == i,
                run_spec(self.period, replies@) == (
                    (sleeps + run_spec(self.period, replies@.skip(i as int)).0) as nat,
                    run_spec(self.period, replies@.skip(i as int)).1,
                ),
            decreases replies.len() - i,
        {
            let action = self.on_reply(&replies[i]);
            proof {
                assert(replies@.skip(i as int).drop_first() =~= replies@.skip(i + 1));
                assert(replies@.skip(i as int)[0] == replies@[i as int]);
            }
            match action {
                FlowAction::Sleep(_) => {
                    sleeps = sleeps + 1;
                },
                FlowAction::Persist(t) => {
                    return FlowRun { sleeps, end: FlowEnd::Authenticated(t) };
                },
                FlowAction::Fail(e) => {
                    return FlowRun { sleeps, end: FlowEnd::Failed(e) };
                },
            }
            i = i + 1;
        }
        proof {
            assert(replies@.skip(i as int) =~= Seq::<PollReply>::empty());
        }
        FlowRun { sleeps, end: FlowEnd::Polling }
    }
}

} // verus!
