use vstd::prelude::*;

use crate::json::{json_quoted, quote};
use crate::logger::{error_code, ErrorType};
use crate::model::Config;
use crate::store::{decimal, push_decimal, resolved_json, resolved_to_json};

verus! {

/// Advice given when the deploy service timed out; the operation may still complete.
pub const REQUEST_TIMEOUT: &'static str =
    "Operation is still in progress. It might take a few more minutes for the cloud provider to finish up.";

/// Advice given when the deploy service refused the credentials.
pub const FORBIDDEN_OPERATION: &'static str =
    "Please review your credentials. Make sure you have follow all the configuration steps: https://docs.anycloudapp.com/";

/// Advice given when the target app name is taken.
pub const NAME_CONFLICT: &'static str = "Another application with same app ID already exists.";

/// Advice given when the bearer token was rejected.
pub const UNAUTHORIZED_OPERATION: &'static str =
    "Invalid AnyCloud authentication credentials. Please retry and you will be asked to reauthenticate.";

/// Status codes that the deploy service gives a meaning of their own.
pub const STATUS_UNAUTHORIZED: u16 = 401;

pub const STATUS_FORBIDDEN: u16 = 403;

pub const STATUS_REQUEST_TIMEOUT: u16 = 408;

pub const STATUS_CONFLICT: u16 = 409;

/// How a request to the deploy service failed.
#[derive(Debug, Clone)]
pub enum PostV1Error {
    /// The service timed out; the operation may still be completing.
    Timeout,
    /// The cloud credentials lack a permission.
    Forbidden,
    /// The target resource name is taken.
    Conflict,
    /// The bearer token was rejected; it must be cleared.
    Unauthorized,
    /// Any other failure, with the response body or the transport error text.
    Other(String),
}

/// Whether a status is a success (2xx).
pub open spec fn is_success(status: u16) -> bool {
    200 <= status < 300
}

/// The classification of a response by its status; the body is kept on success and for
/// statuses without a meaning of their own.
pub open spec fn classify_spec(status: u16, body: String) -> Result<String, PostV1Error> {
    if is_success(status) {
        Ok(body)
    } else if status == STATUS_REQUEST_TIMEOUT {
        Err(PostV1Error::Timeout)
    } else if status == STATUS_FORBIDDEN {
        Err(PostV1Error::Forbidden)
    } else if status == STATUS_CONFLICT {
        Err(PostV1Error::Conflict)
    } else if status == STATUS_UNAUTHORIZED {
        Err(PostV1Error::Unauthorized)
    } else {
        Err(PostV1Error::Other(body))
    }
}

/// The token is cleared exactly after a response of status 401, whatever its body; a
/// failure status without a meaning of its own keeps the body verbatim.
pub proof fn lemma_classification(status: u16, body: String)
    ensures
        (classify_spec(status, body) == Err::<String, PostV1Error>(PostV1Error::Unauthorized))
            <==> status == STATUS_UNAUTHORIZED,
        400 <= status < 600 && status != STATUS_UNAUTHORIZED && status != STATUS_FORBIDDEN
            && status != STATUS_REQUEST_TIMEOUT && status != STATUS_CONFLICT ==> classify_spec(
            status,
            body,
        ) == Err::<String, PostV1Error>(PostV1Error::Other(body)),
{
}

/// Classifies a response of the deploy service: a 2xx status hands the body back as it
/// is, 408, 403, 409 and 401 have errors of their own, and any other status is an
/// `Other` error that carries the body verbatim.
pub fn classify_response(status: u16, body: String) -> (r: Result<String, PostV1Error>)
    ensures
        r == classify_spec(status, body),
{
    if 200 <= status && status < 300 {
        Ok(body)
    } else if status == STATUS_REQUEST_TIMEOUT {
        Err(PostV1Error::Timeout)
    } else if status == STATUS_FORBIDDEN {
        Err(PostV1Error::Forbidden)
    } else if status == STATUS_CONFLICT {
        Err(PostV1Error::Conflict)
    } else if status == STATUS_UNAUTHORIZED {
        Err(PostV1Error::Unauthorized)
    } else {
        Err(PostV1Error::Other(body))
    }
}

/// The base URL of the deploy service for a deployment environment name.
pub open spec fn base_url_spec(env: Seq<char>) -> Seq<char> {
    if env == "local"@ {
        "http://localhost:8080"@
    } else if env == "staging"@ {
        "https://deploy-staging.alantechnologies.com"@
    } else {
        "https://deploy.alantechnologies.com"@
    }
}

/// The base URL of the deploy service: local and staging have their own, any other
/// environment name selects production.
pub fn get_url(env: &str) -> (r: String)
    ensures
        r@ == base_url_spec(env@),
{
    let env = String::from_str(env);
    if env == String::from_str("local") {
        String::from_str("http://localhost:8080")
    } else if env == String::from_str("staging") {
        String::from_str("https://deploy-staging.alantechnologies.com")
    } else {
        String::from_str("https://deploy.alantechnologies.com")
    }
}

/// The URL of an endpoint of the deploy service.
pub fn endpoint_url(env: &str, endpoint: &str) -> (r: String)
    ensures
        r@ == base_url_spec(env@) + "/v1/"@ + endpoint@,
{
    let mut url = get_url(env);
    url.append("/v1/");
    url.append(endpoint);
    url
}

/// An operation of the deploy service, with what its messages mention.
#[derive(Debug, Clone)]
pub enum Operation {
    /// Creating a new app.
    New,
    /// Upgrading an existing app.
    Upgrade,
    /// Terminating the app with this cluster identifier.
    Terminate(String),
    /// Listing the deployed apps.
    Info,
}

/// What an operation's response means to the operator.
#[derive(Debug, Clone)]
pub struct Outcome {
    /// The message shown to the operator.
    pub message: String,
    /// Whether the operation succeeded.
    pub succeeded: bool,
    /// Whether the stored bearer token must be removed.
    pub clears_token: bool,
}

/// The start of the message of an operation that failed.
pub open spec fn failure_prefix(op: Operation) -> Seq<char> {
    match op {
        Operation::New => "Failed to create a new app. Error: "@,
        Operation::Upgrade => "Failed to upgrade app. Error: "@,
        Operation::Terminate(id) => "Failed to terminate app "@ + id@ + ". Error: "@,
        Operation::Info => "Displaying status for apps failed with error: "@,
    }
}

/// The message of an operation that succeeded with this response body.
pub open spec fn success_message(op: Operation, body: Seq<char>) -> Seq<char> {
    match op {
        Operation::New => "Created app with id "@ + body + " successfully!"@,
        Operation::Upgrade => "Upgraded app successfully!"@,
        Operation::Terminate(id) => "Terminated app "@ + id@ + " successfully!"@,
        Operation::Info => body,
    }
}

/// The message shown for a classified response.
pub open spec fn outcome_message(op: Operation, resp: Result<String, PostV1Error>) -> Seq<char> {
    match resp {
        Ok(body) => success_message(op, body@),
        Err(PostV1Error::Timeout) => REQUEST_TIMEOUT@,
        Err(PostV1Error::Forbidden) => FORBIDDEN_OPERATION@,
        Err(PostV1Error::Conflict) => failure_prefix(op) + NAME_CONFLICT@,
        Err(PostV1Error::Unauthorized) => UNAUTHORIZED_OPERATION@,
        Err(PostV1Error::Other(text)) => failure_prefix(op) + text@,
    }
}

fn failure_text(op: &Operation) -> (r: String)
    ensures
        r@ == failure_prefix(*op),
{
    match op {
        Operation::New => String::from_str("Failed to create a new app. Error: "),
        Operation::Upgrade => String::from_str("Failed to upgrade app. Error: "),
        Operation::Terminate(id) => {
            let mut m = String::from_str("Failed to terminate app ");
            m.append(id.as_str());
            m.append(". Error: ");
            m
        },
        Operation::Info => String::from_str("Displaying status for apps failed with error: "),
    }
}

/// What a classified response of an operation means: the message for the operator,
/// success exactly on `Ok`, and the removal of the token exactly on `Unauthorized`.
pub fn outcome(op: &Operation, resp: &Result<String, PostV1Error>) -> (r: Outcome)
    ensures
        r.message@ == outcome_message(*op, *resp),
        r.succeeded == resp is Ok,
        r.clears_token == (resp == &Err::<String, PostV1Error>(PostV1Error::Unauthorized)),
{
    match resp {
        Ok(body) => {
            let message = match op {
                Operation::New => {
                    let mut m = String::from_str("Created app with id ");
                    m.append(body.as_str());
                    m.append(" successfully!");
                    m
                },
                Operation::Upgrade => String::from_str("Upgraded app successfully!"),
                Operation::Terminate(id) => {
                    let mut m = String::from_str("Terminated app ");
                    m.append(id.as_str());
                    m.append(" successfully!");
                    m
                },
                Operation::Info => body.clone(),
            };
            Outcome { message, succeeded: true, clears_token: false }
        },
        Err(PostV1Error::Timeout) => Outcome {
            message: String::from_str(REQUEST_TIMEOUT),
            succeeded: false,
            clears_token: false,
        },
        Err(PostV1Error::Forbidden) => Outcome {
            message: String::from_str(FORBIDDEN_OPERATION),
            succeeded: false,
            clears_token: false,
        },
        Err(PostV1Error::Conflict) => {
            let mut m = failure_text(op);
            m.append(NAME_CONFLICT);
            Outcome { message: m, succeeded: false, clears_token: false }
        },
        Err(PostV1Error::Unauthorized) => Outcome {
            message: String::from_str(UNAUTHORIZED_OPERATION),
            succeeded: false,
            clears_token: true,
        },
        Err(PostV1Error::Other(text)) => {
            let mut m = failure_text(op);
            m.append(text.as_str());
            Outcome { message: m, succeeded: false, clears_token: false }
        },
    }
}

/// What every request to the deploy service carries besides its own fields.
#[derive(Debug, Clone)]
pub struct RequestContext {
    /// The bearer token.
    pub access_token: String,
    /// The client version, without the leading `v`.
    pub alan_version: String,
    /// The name of the host operating system.
    pub os_name: String,
    /// The cluster being worked on, when there is one.
    pub cluster_id: Option<String>,
}

/// The members that every request body ends with: token, client version and system.
pub open spec fn context_json(ctx: RequestContext) -> Seq<char> {
    ",\"accessToken\":"@ + json_quoted(ctx.access_token@) + ",\"alanVersion\":"@ + json_quoted(
        "v"@ + ctx.alan_version@,
    ) + ",\"osName\":"@ + json_quoted(ctx.os_name@)
}

fn append_context(out: &mut String, ctx: &RequestContext)
    ensures
        final(out)@ == old(out)@ + context_json(*ctx),
{
    out.append(",\"accessToken\":");
    out.append(quote(ctx.access_token.as_str()).as_str());
    out.append(",\"alanVersion\":");
    let mut version = String::from_str("v");
    version.append(ctx.alan_version.as_str());
    out.append(quote(version.as_str()).as_str());
    out.append(",\"osName\":");
    out.append(quote(ctx.os_name.as_str()).as_str());
}

/// The body of an error report.
pub open spec fn client_error_json(kind: ErrorType, message: Seq<char>, ctx: RequestContext) -> Seq<
    char,
> {
    "{\"errorCode\":"@ + decimal(error_code(kind) as nat) + ",\"message\":"@ + json_quoted(message)
        + context_json(ctx) + match ctx.cluster_id {
        Some(id) => ",\"clusterId\":"@ + json_quoted(id@),
        None => Seq::empty(),
    } + "}"@
}

/// The body of a report of a failure to the error-collection endpoint: the kind of
/// failure, the message, the request context, and the cluster when there is one.
pub fn client_error(kind: ErrorType, message: &str, ctx: &RequestContext) -> (r: String)
    ensures
        r@ == client_error_json(kind, message@, *ctx),
{
    let mut s = String::from_str("{\"errorCode\":");
    push_decimal(&mut s, kind.code() as usize);
    s.append(",\"message\":");
    s.append(quote(message).as_str());
    append_context(&mut s, ctx);
    let ghost before = s@;
    match &ctx.cluster_id {
        Some(id) => {
            s.append(",\"clusterId\":");
            s.append(quote(id.as_str()).as_str());
        },
        None => {
            proof {
                assert(s@ =~= before + Seq::<char>::empty());
            }
        },
    }
    s.append("}");
    s
}

/// The body of a request to terminate an app.
pub open spec fn terminate_json(
    configs: Seq<(String, Vec<Config>)>,
    cluster_id: Seq<char>,
    ctx: RequestContext,
) -> Seq<char> {
    "{\"deployConfig\":"@ + resolved_json(configs) + ",\"clusterId\":"@ + json_quoted(cluster_id)
        + context_json(ctx) + "}"@
}

/// The body of a request to terminate the app `cluster_id`, with the resolved deploy
/// profiles and the request context.
pub fn terminate(configs: &Vec<(String, Vec<Config>)>, cluster_id: &str, ctx: &RequestContext) -> (r:
    String)
    ensures
        r@ == terminate_json(configs@, cluster_id@, *ctx),
{
    let mut s = String::from_str("{\"deployConfig\":");
    s.append(resolved_to_json(configs).as_str());
    s.append(",\"clusterId\":");
    s.append(quote(cluster_id).as_str());
    append_context(&mut s, ctx);
    s.append("}");
    s
}

/// The body of a request for the status of the deployed apps.
pub open spec fn info_json(configs: Seq<(String, Vec<Config>)>, ctx: RequestContext) -> Seq<char> {
    "{\"deployConfig\":"@ + resolved_json(configs) + context_json(ctx) + "}"@
}

/// The body of a request for the status of the deployed apps, with the resolved deploy
/// profiles and the request context.
pub fn info(configs: &Vec<(String, Vec<Config>)>, ctx: &RequestContext) -> (r: String)
    ensures
        r@ == info_json(configs@, *ctx),
{
    let mut s = String::from_str("{\"deployConfig\":");
    s.append(resolved_to_json(configs).as_str());
    append_context(&mut s, ctx);
    s.append("}");
    s
}

} // verus!
