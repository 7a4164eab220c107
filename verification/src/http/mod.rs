//! The request dispatch layer: building the outgoing request envelope for an
//! operation, and classifying what came back.
//!
//! Every operation is dispatched as a [`RequestPlan`]: the verb, the full
//! URL, the three fixed headers and the optional body of exactly one HTTP
//! request. The unverified driver executes the plan and hands the response's
//! status code and decoded body back to [`try_pinecone_request_json`] or
//! [`try_pinecone_request_text`], which classify the outcome into a success
//! value or one structured error.

use vstd::prelude::*;
use vstd::string::*;

mod client;
mod index;
pub mod models;

pub use client::Client;
pub use index::apply_describe_spec;
pub use index::data_base;
pub use index::data_plan_well_formed;
pub use index::data_plane_step_spec;
pub use index::describe_plan_well_formed;
pub use index::lemma_cached_describe_fetches_once;
pub use index::lemma_explicit_describe_overwrites;
pub use index::lemma_failed_describe_preserves_handle;
pub use index::lemma_implicit_describe_resolves_base;
pub use index::op_body_spec;
pub use index::op_method_spec;
pub use index::op_url_spec;
pub use index::plans_fetch;
pub use index::DataOp;
pub use index::DataPlaneStep;
pub use index::DescribeStep;
pub use index::Index;

use crate::error::Error;
use crate::http::models::PineconeErrorResponse;

verus! {

/// HTTP verb of an outgoing request. Only `Get`, `Post`, `Patch` and
/// `Delete` are in the supported set; the remaining verbs exist so that the
/// dispatcher's defensive rejection of an unsupported verb is real, reachable
/// logic.
#[derive(Debug, Clone, Copy, PartialEq, Eq, Structural)]
pub enum Method {
    /// GET.
    Get,
    /// POST.
    Post,
    /// PATCH.
    Patch,
    /// DELETE.
    Delete,
    /// PUT: outside the supported set.
    Put,
    /// HEAD: outside the supported set.
    Head,
    /// OPTIONS: outside the supported set.
    Options,
}

impl Method {
    /// The verbs the dispatcher accepts.
    pub open spec fn supported(self) -> bool {
        self is Get || self is Post || self is Patch || self is Delete
    }

    /// The verbs that must carry a body. The others never carry one, even
    /// when a body is supplied.
    pub open spec fn requires_body(self) -> bool {
        self is Post || self is Patch
    }
}

/// The encoding a response body is expected in.
#[derive(Debug, Clone, Copy, PartialEq, Eq, Structural)]
pub enum AcceptType {
    /// Plain text.
    Text,
    /// Structured JSON.
    Json,
}

/// The value of the `accept` header for each expected encoding.
pub open spec fn accept_name(a: AcceptType) -> Seq<char> {
    match a {
        AcceptType::Text => "text/plain"@,
        AcceptType::Json => "application/json"@,
    }
}

impl AcceptType {
    /// Renders the accept header value.
    pub fn to_string(&self) -> (r: String)
        ensures
            r@ == accept_name(*self),
    {
        match self {
            AcceptType::Text => String::from_str("text/plain"),
            AcceptType::Json => String::from_str("application/json"),
        }
    }
}

/// Holds the private credentials for a basic Pinecone connection.
#[derive(Debug, PartialEq)]
pub struct Credentials {
    /// The account's API key, sent as the `Api-Key` header of every request.
    pub api_key: String,
    /// The environment identifier, part of the controller host name.
    pub environment: String,
}

impl Clone for Credentials {
    /// A copy that the contracts know to be equal to the original.
    fn clone(&self) -> (res: Self)
        ensures
            res == *self,
    {
        Credentials { api_key: self.api_key.clone(), environment: self.environment.clone() }
    }
}

/// The capability shared by the account handle and every index handle:
/// anything that can answer for its credentials can have requests planned on
/// its behalf, so the dispatcher and the URL builder are written once against
/// this trait instead of once per handle type.
pub trait Connection {
    /// The credentials as the contracts see them.
    spec fn credentials_spec(&self) -> Credentials;

    /// Read access to the credentials the handle was built with.
    fn credentials(&self) -> (c: &Credentials)
        ensures
            *c == self.credentials_spec(),
    ;
}

/// A request body, chosen at dispatch time. Control-plane bodies travel as
/// their typed form; data-plane bodies (vector payloads) are opaque to this
/// layer and travel as the raw JSON text the caller encoded them into.
#[derive(Debug, Clone, PartialEq)]
pub enum Payload {
    /// Body of a create-collection call.
    CreateCollection(models::CreateCollectionRequest),
    /// Body of a create-index call.
    CreateIndex(models::IndexCreateRequest),
    /// Body of a configure-index call.
    ConfigureIndex(models::ConfigureIndexRequest),
    /// An already encoded JSON body, carried through unread.
    Raw(String),
}

/// Everything the driver needs to issue exactly one HTTP request: the verb,
/// the full URL, the three fixed headers (API key, accept, content type),
/// the status code that counts as success, and the body, when one is
/// attached.
#[derive(Debug, Clone, PartialEq)]
pub struct RequestPlan {
    /// The verb.
    pub method: Method,
    /// The full target URL.
    pub url: String,
    /// Value of the `Api-Key` header.
    pub api_key: String,
    /// The expected response encoding; its header value is
    /// [`AcceptType::to_string`].
    pub accept: AcceptType,
    /// Value of the `content-type` header.
    pub content_type: String,
    /// The one status code that counts as success for this operation.
    pub success_code: u16,
    /// The body to attach, when the verb rules attached one.
    pub body: Option<Payload>,
}

/// The controller URL: the stable, environment-scoped base for account and
/// control-plane operations.
pub open spec fn controller_url_spec(environment: Seq<char>, path: Seq<char>) -> Seq<char> {
    "https://controller."@ + environment + ".pinecone.io"@ + path
}

/// The target URL of a plan: a resource base (scheme and host included) when
/// one is given, the controller endpoint otherwise.
pub open spec fn plan_url_spec(creds: Credentials, index_url: Option<String>, path: Seq<char>) -> Seq<char> {
    match index_url {
        Some(u) => u@ + path,
        None => controller_url_spec(creds.environment@, path),
    }
}

/// The request envelope in full: what every field of a well-built plan holds.
pub open spec fn plan_well_formed(
    plan: RequestPlan,
    creds: Credentials,
    method: Method,
    accept: AcceptType,
    success_code: u16,
    index_url: Option<String>,
    path: Seq<char>,
    body: Option<Payload>,
) -> bool {
    &&& plan.method == method
    &&& plan.url@ == plan_url_spec(creds, index_url, path)
    &&& plan.api_key@ == creds.api_key@
    &&& plan.accept == accept
    &&& plan.content_type@ == "application/json"@
    &&& plan.success_code == success_code
    &&& plan.body == body
}

/// Plans a controller-scoped request: the URL is the controller endpoint for
/// the handle's environment, and the three fixed headers are filled in. No
/// body is attached yet.
pub fn base_request<C: Connection>(
    con: &C,
    method: Method,
    accept_type: AcceptType,
    success_code: u16,
    path: &str,
) -> (plan: RequestPlan)
    ensures
        plan_well_formed(
            plan,
            con.credentials_spec(),
            method,
            accept_type,
            success_code,
            None,
            path@,
            None,
        ),
{
    let mut url = String::from_str("https://controller.");
    url.append(con.credentials().environment.as_str());
    url.append(".pinecone.io");
    url.append(path);
    RequestPlan {
        method,
        url,
        api_key: con.credentials().api_key.clone(),
        accept: accept_type,
        content_type: String::from_str("application/json"),
        success_code,
        body: None,
    }
}

/// Plans a request against an already resolved base URL (scheme and host
/// included), as data-plane operations use; the same three fixed headers.
pub fn url_base_request<C: Connection>(
    con: &C,
    method: Method,
    accept_type: AcceptType,
    success_code: u16,
    url: String,
    path: &str,
) -> (plan: RequestPlan)
    ensures
        plan_well_formed(
            plan,
            con.credentials_spec(),
            method,
            accept_type,
            success_code,
            Some(url),
            path@,
            None,
        ),
{
    let mut full = url;
    full.append(path);
    RequestPlan {
        method,
        url: full,
        api_key: con.credentials().api_key.clone(),
        accept: accept_type,
        content_type: String::from_str("application/json"),
        success_code,
        body: None,
    }
}

/// Plans one request: picks the target base, fills the headers, and applies
/// the verb rules to the supplied body. GET and DELETE never carry a body,
/// even when one is supplied; POST and PATCH must be given one, and fail
/// with an argument error before any request is planned otherwise; a verb
/// outside the supported set is rejected outright.
pub fn pinecone_request<C: Connection>(
    con: &C,
    method: Method,
    accept_type: AcceptType,
    success_code: u16,
    index_url: Option<String>,
    path: &str,
    data_struct: Option<Payload>,
) -> (r: Result<RequestPlan, Error>)
    ensures
        method.supported() && !method.requires_body() ==> (r matches Ok(plan)
            && plan_well_formed(
            plan,
            con.credentials_spec(),
            method,
            accept_type,
            success_code,
            index_url,
            path@,
            None,
        )),
        method.requires_body() && data_struct is Some ==> (r matches Ok(plan)
            && plan_well_formed(
            plan,
            con.credentials_spec(),
            method,
            accept_type,
            success_code,
            index_url,
            path@,
            data_struct,
        )),
        method.requires_body() && data_struct is None ==> (r matches Err(e)
            && (e matches Error::ArgumentError { name, found, expected } && name@
            == "data_struct"@ && found@ == "None"@ && expected@ == "a value"@)),
        !method.supported() ==> r == Err::<RequestPlan, Error>(
            Error::UnsupportedMethod { method },
        ),
{
    let request = if let Some(u) = index_url {
        url_base_request(con, method, accept_type, success_code, u, path)
    } else {
        base_request(con, method, accept_type, success_code, path)
    };
    match method {
        Method::Delete => Ok(request),
        Method::Post | Method::Patch => {
            match data_struct {
                Some(data) => Ok(RequestPlan { body: Some(data), ..request }),
                None => Err(
                    Error::ArgumentError {
                        name: String::from_str("data_struct"),
                        found: String::from_str("None"),
                        expected: String::from_str("a value"),
                    },
                ),
            }
        },
        Method::Get => Ok(request),
        _ => Err(Error::UnsupportedMethod { method }),
    }
}

/// Unwraps a planning outcome that the verb rules have already shown to be
/// a plan.
pub(crate) fn must_plan(r: Result<RequestPlan, Error>) -> (plan: RequestPlan)
    requires
        r is Ok,
    ensures
        r == Ok::<RequestPlan, Error>(plan),
{
    match r {
        Ok(plan) => plan,
        Err(_) => vstd::pervasive::unreached(),
    }
}

/// Concatenation of a fixed path prefix and a resource name.
pub(crate) fn path_segment(prefix: &str, name: &str) -> (r: String)
    ensures
        r@ == prefix@ + name@,
{
    let mut s = String::from_str(prefix);
    s.append(name);
    s
}

/// How the driver read the body of a JSON-encoded response. When the status
/// matched the operation's success code the body was read as the operation's
/// declared result type; otherwise it was read as the structured error
/// schema. Either reading can fail.
#[derive(Debug)]
pub enum JsonBody<S> {
    /// The body as the declared result type, on a success status.
    Expected(Result<S, crate::error::ReqwestFailure>),
    /// The body as the structured error schema, on any other status.
    ErrorSchema(Result<PineconeErrorResponse, crate::error::ReqwestFailure>),
}

/// Classifies a JSON-encoded response. On the success status a decoded body
/// is the result, and a body that failed to decode is a decode error carrying
/// that status — never a default value. On any other status, a body that
/// parsed as the error schema becomes the structured service error, and one
/// that did not becomes a decode error: a failure to parse an error body is
/// itself reported, never swallowed.
pub fn try_pinecone_request_json<S>(status: u16, success_code: u16, body: JsonBody<S>) -> (r:
    Result<S, Error>)
    requires
        (status == success_code) <==> body is Expected,
    ensures
        body matches JsonBody::Expected(Ok(v)) ==> r == Ok::<S, Error>(v),
        body matches JsonBody::Expected(Err(f)) ==> r == Err::<S, Error>(
            Error::ReqwestResponseError(status, f),
        ),
        body matches JsonBody::ErrorSchema(Ok(eb)) ==> r == Err::<S, Error>(
            Error::PineconeResponseError(status, Some(eb), None),
        ),
        body matches JsonBody::ErrorSchema(Err(f)) ==> r == Err::<S, Error>(
            Error::ReqwestResponseError(status, f),
        ),
{
    match body {
        JsonBody::Expected(Ok(v)) => Ok(v),
        JsonBody::Expected(Err(f)) => Err(Error::ReqwestResponseError(status, f)),
        JsonBody::ErrorSchema(Ok(eb)) => Err(Error::PineconeResponseError(status, Some(eb), None)),
        JsonBody::ErrorSchema(Err(f)) => Err(Error::ReqwestResponseError(status, f)),
    }
}

/// Classifies a text-encoded response from its status and body text. On the
/// success status the text is the result; on any other status the text is
/// carried raw inside the service error; a body that could not be read at
/// all is a decode error carrying the status.
pub fn try_pinecone_request_text(
    status: u16,
    success_code: u16,
    body: Result<String, crate::error::ReqwestFailure>,
) -> (r: Result<String, Error>)
    ensures
        body matches Ok(t) ==> r == (if status == success_code {
            Ok::<String, Error>(t)
        } else {
            Err::<String, Error>(Error::PineconeResponseError(status, None, Some(t)))
        }),
        body matches Err(f) ==> r == Err::<String, Error>(
            Error::ReqwestResponseError(status, f),
        ),
{
    match body {
        Ok(t) => {
            if status == success_code {
                Ok(t)
            } else {
                Err(Error::PineconeResponseError(status, None, Some(t)))
            }
        },
        Err(f) => Err(Error::ReqwestResponseError(status, f)),
    }
}

} // verus!
