//! The client's configuration, the requests it makes, and how it reads what
//! comes back.
//!
//! Each operation is a single exchange: the client prepares the call (method,
//! address, headers, time limit and body), the caller's transport performs it,
//! and the functions here turn the status and body into the result.

use crate::error::{error_detail, SdkError};
use crate::types::{
    ChatRequest, Message, Role, ToolRequest, WireMessage, encode_messages, messages_view, wire_view,
};
use vstd::prelude::*;

verus! {

/// The time limit of a new client, in milliseconds.
pub const DEFAULT_TIMEOUT_MS: u64 = 30000;

/// The HTTP methods the client uses.
#[derive(Clone, Copy, Debug, PartialEq, Eq, Structural)]
pub enum HttpMethod {
    Get,
    Post,
}

/// One HTTP call as the client wants it made.
#[derive(Clone, Debug)]
pub struct HttpCall {
    pub method: HttpMethod,
    pub url: String,
    /// The value of the `Authorization` header, if it is sent.
    pub authorization: Option<String>,
    /// The time limit of the call, in milliseconds, if it has one.
    pub timeout_ms: Option<u64>,
}

/// A call together with the body it carries.
#[derive(Debug)]
pub struct Prepared<B> {
    pub call: HttpCall,
    pub body: B,
}

/// The configuration of a client of the service.
#[derive(Clone, Debug)]
pub struct FemtoClient {
    pub base_url: String,
    pub api_key: Option<String>,
    pub timeout_ms: u64,
}

/// The view of an optional text.
pub open spec fn opt_view(o: Option<String>) -> Option<Seq<char>> {
    match o {
        Some(s) => Some(s@),
        None => None,
    }
}

/// The path of the chat endpoint.
pub open spec fn chat_path() -> Seq<char> {
    "/v1/chat"@
}

/// The path of the tool endpoint.
pub open spec fn tool_path() -> Seq<char> {
    "/v1/tools/execute"@
}

/// The path of the health endpoint.
pub open spec fn health_path() -> Seq<char> {
    "/health"@
}

/// The `Authorization` header for an API key, if one is configured.
pub open spec fn bearer_of(api_key: Option<String>) -> Option<Seq<char>> {
    match api_key {
        Some(k) => Some("Bearer "@ + k@),
        None => None,
    }
}

impl FemtoClient {
    /// A client of the service at `base_url`, with no API key and the
    /// default time limit.
    pub fn new(base_url: &str) -> (c: FemtoClient)
        ensures
            c.base_url@ == base_url@,
            c.api_key is None,
            c.timeout_ms == DEFAULT_TIMEOUT_MS,
    {
        FemtoClient { base_url: base_url.to_owned(), api_key: None, timeout_ms: DEFAULT_TIMEOUT_MS }
    }

    /// The same client, sending `api_key` as a bearer token.
    pub fn with_api_key(self, api_key: &str) -> (c: FemtoClient)
        ensures
            c.base_url == self.base_url,
            opt_view(c.api_key) == Some(api_key@),
            c.timeout_ms == self.timeout_ms,
    {
        FemtoClient { api_key: Some(api_key.to_owned()), ..self }
    }

    /// The same client, with a time limit of `timeout_ms` milliseconds.
    pub fn with_timeout(self, timeout_ms: u64) -> (c: FemtoClient)
        ensures
            c.base_url == self.base_url,
            c.api_key == self.api_key,
            c.timeout_ms == timeout_ms,
    {
        FemtoClient { timeout_ms, ..self }
    }

    /// The address of `path` under the base address.
    fn url_of(&self, path: &str) -> (u: String)
        ensures
            u@ == self.base_url@ + path@,
    {
        self.base_url.clone().concat(path)
    }

    /// A POST to `path`, with the time limit and, where a key is
    /// configured, the bearer token.
    fn post(&self, path: &str) -> (call: HttpCall)
        ensures
            call.method == HttpMethod::Post,
            call.url@ == self.base_url@ + path@,
            opt_view(call.authorization) == bearer_of(self.api_key),
            call.timeout_ms == Some(self.timeout_ms),
    {
        let authorization = match &self.api_key {
            Some(key) => Some("Bearer ".to_owned().concat(key.as_str())),
            None => None,
        };
        HttpCall {
            method: HttpMethod::Post,
            url: self.url_of(path),
            authorization,
            timeout_ms: Some(self.timeout_ms),
        }
    }

    /// The call that sends `request` to the chat endpoint, with its wire
    /// records as the body.
    pub fn chat(&self, request: &ChatRequest) -> (p: Prepared<Vec<WireMessage>>)
        ensures
            p.call.method == HttpMethod::Post,
            p.call.url@ == self.base_url@ + chat_path(),
            opt_view(p.call.authorization) == bearer_of(self.api_key),
            p.call.timeout_ms == Some(self.timeout_ms),
            wire_view(p.body@) == encode_messages(request@),
    {
        Prepared { call: self.post("/v1/chat"), body: request.to_wire() }
    }

    /// The chat call for one user message.
    pub fn send_message(&self, message: &str) -> (p: Prepared<Vec<WireMessage>>)
        ensures
            p.call.method == HttpMethod::Post,
            p.call.url@ == self.base_url@ + chat_path(),
            opt_view(p.call.authorization) == bearer_of(self.api_key),
            p.call.timeout_ms == Some(self.timeout_ms),
            wire_view(p.body@) == encode_messages(seq![(Role::User, message@)]),
    {
        let request = ChatRequest::user_message(message);
        self.chat(&request)
    }

    /// The chat call for `messages`, in the order given.
    pub fn send_messages(&self, messages: Vec<Message>) -> (p: Prepared<Vec<WireMessage>>)
        ensures
            p.call.method == HttpMethod::Post,
            p.call.url@ == self.base_url@ + chat_path(),
            opt_view(p.call.authorization) == bearer_of(self.api_key),
            p.call.timeout_ms == Some(self.timeout_ms),
            wire_view(p.body@) == encode_messages(messages_view(messages@)),
    {
        let request = ChatRequest::new(messages);
        self.chat(&request)
    }

    /// The call that asks the tool endpoint to run `request`, which is the
    /// body.
    pub fn execute_tool(&self, request: ToolRequest) -> (p: Prepared<ToolRequest>)
        ensures
            p.call.method == HttpMethod::Post,
            p.call.url@ == self.base_url@ + tool_path(),
            opt_view(p.call.authorization) == bearer_of(self.api_key),
            p.call.timeout_ms == Some(self.timeout_ms),
            p.body == request,
    {
        Prepared { call: self.post("/v1/tools/execute"), body: request }
    }

    /// The call that asks the health endpoint: a GET with no token and no
    /// time limit of the client's own.
    pub fn health(&self) -> (call: HttpCall)
        ensures
            call.method == HttpMethod::Get,
            call.url@ == self.base_url@ + health_path(),
            call.authorization is None,
            call.timeout_ms is None,
    {
        HttpCall {
            method: HttpMethod::Get,
            url: self.url_of("/health"),
            authorization: None,
            timeout_ms: None,
        }
    }
}

/// Whether an HTTP status counts as success: 200 through 299.
pub open spec fn status_ok(status: u16) -> bool {
    200 <= status < 300
}

/// Whether `status` is a success. A health check reports exactly this.
pub fn is_success(status: u16) -> (b: bool)
    ensures
        b == status_ok(status),
{
    200 <= status && status < 300
}

/// The decimal digit `d`, for `d` in 0..=9.
pub open spec fn digit_char(d: int) -> char {
    seq!['0', '1', '2', '3', '4', '5', '6', '7', '8', '9'][d]
}

/// The three decimal digits of a status in 100..=999.
pub open spec fn status_digits(status: u16) -> Seq<char> {
    seq![
        digit_char(status as int / 100),
        digit_char((status as int / 10) % 10),
        digit_char(status as int % 10),
    ]
}

/// What reqwest's `StatusCode` writes for a status: its digits, then its
/// reason phrase.
pub uninterp spec fn status_text_of(status: u16) -> Seq<char>;

/// Relies on `reqwest::StatusCode::from_u16`, which accepts 100..=999, and on
/// the `Display` of `StatusCode`, which writes the three digits, a space and
/// the reason phrase (or a placeholder for an unlisted code).
#[verifier::external_body]
fn status_text(status: u16) -> (s: String)
    requires
        100 <= status <= 999,
    ensures
        s@ == status_text_of(status),
        s@.len() >= 4,
        s@.subrange(0, 3) == status_digits(status),
        s@[3] == ' ',
{
    reqwest::StatusCode::from_u16(status).map(|c| c.to_string()).unwrap_or_default()
}

/// The detail of the error for a failed status with the body text that
/// could be read, or none.
pub open spec fn api_detail(status: u16, body: Option<Seq<char>>) -> Seq<char> {
    "HTTP "@ + status_text_of(status) + ": "@ + match body {
        Some(b) => b,
        None => Seq::empty(),
    }
}

/// The error for a call that the service answered with the failed `status`.
/// Where the body could not be read (`None`) the text is empty: that failure
/// does not replace this one.
pub fn api_error(status: u16, body: Option<String>) -> (e: SdkError)
    requires
        100 <= status <= 999,
    ensures
        e is Api,
        error_detail(e) == api_detail(status, opt_view(body)),
        error_detail(e).subrange(5, 8) == status_digits(status),
        body matches Some(b) ==> error_detail(e).subrange(
            error_detail(e).len() - b@.len(),
            error_detail(e).len() as int,
        ) == b@,
{
    let text = match body {
        Some(b) => b,
        None => String::new(),
    };
    proof {
        reveal_strlit("HTTP ");
    }
    let detail = "HTTP ".to_owned().concat(status_text(status).as_str()).concat(": ").concat(
        text.as_str(),
    );
    SdkError::Api(detail)
}

/// The result of a tool run from the `result` text of the answer; an answer
/// without a `result` text gives the empty text.
pub fn tool_result(result: Option<String>) -> (t: String)
    ensures
        t@ == match opt_view(result) {
            Some(r) => r,
            None => Seq::empty(),
        },
{
    match result {
        Some(r) => r,
        None => String::new(),
    }
}

} // verus!
