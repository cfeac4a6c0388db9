//! The MCP connector: JSON-RPC requests to a tool server, the credentials
//! sent with them, reconnection with growing delays, and the server's tools
//! seen as agent tools.
use vstd::prelude::*;
use vstd::string::StringExecFns;
use crate::error::{cat2, cat4, McpError, Span, ToolError, mcp_error_text};
use crate::stamp::{clock_in_range, now_millis};
use crate::text::{join, join_texts, texts};

verus! {

/// How requests to an MCP server are authenticated.
#[derive(Clone, Debug)]
pub enum McpAuth {
    /// No credentials are sent.
    NoAuth,
    Bearer { token: String },
    OAuth2 {
        client_id: String,
        client_secret: Option<String>,
        token_url: String,
        scopes: Option<Vec<String>>,
    },
}

/// What it takes to produce the `Authorization` header.
#[derive(Debug)]
pub enum AuthStep {
    /// No header is sent.
    NoHeader,
    /// Send this header.
    Header(String),
    /// A fresh OAuth2 token has to be fetched first.
    Refresh,
}

/// A request for an OAuth2 token: the form fields posted to the token URL.
#[derive(Debug)]
pub struct TokenRequest {
    pub token_url: String,
    pub params: Vec<(String, String)>,
}

/// What came back from the token endpoint. `error_text` is the response's
/// `error_description`, or else its `error`, where that is a string;
/// `status_text` is how the HTTP status reads.
#[derive(Debug)]
pub struct TokenReply {
    pub success: bool,
    pub status_text: String,
    pub error_text: Option<String>,
    pub access_token: Option<String>,
    pub expires_in: Option<u64>,
}

/// The most seconds a time span may hold (as `chrono` counts them).
pub open spec fn max_span_secs() -> int {
    i64::MAX / 1000
}

/// The seconds the token lives: the reply's `expires_in` (read as a signed
/// number), an hour when it gives none.
pub open spec fn token_lifetime(expires_in: Option<u64>) -> i64 {
    match expires_in {
        Some(e) => e as i64,
        None => 3600,
    }
}

/// Whether the expiry of a token fetched at `now_ms` can be computed: its
/// lifetime is a valid span and the expiry a valid instant.
pub open spec fn expiry_fits(now_ms: i64, expires_in: Option<u64>) -> bool {
    let secs = token_lifetime(expires_in);
    &&& -max_span_secs() <= secs <= max_span_secs()
    &&& i64::MIN <= now_ms + secs * 1000 <= i64::MAX
}

/// The form fields of a client-credentials token request.
pub open spec fn token_params(client_id: Seq<char>, secret: Option<Seq<char>>, scopes: Seq<Seq<char>>) -> Seq<(Seq<char>, Seq<char>)> {
    let base = seq![("grant_type"@, "client_credentials"@), ("client_id"@, client_id)];
    let with_secret = match secret {
        Some(s) => base.push(("client_secret"@, s)),
        None => base,
    };
    if scopes.len() > 0 {
        with_secret.push(("scope"@, join(scopes, " "@)))
    } else {
        with_secret
    }
}

/// The pairs by their characters.
pub open spec fn pair_texts(v: Seq<(String, String)>) -> Seq<(Seq<char>, Seq<char>)> {
    v.map_values(|p: (String, String)| (p.0@, p.1@))
}

/// Keeps the credentials for an MCP server and the OAuth2 token last
/// fetched. The expiry is held in milliseconds since the Unix epoch.
pub struct AuthManager {
    pub auth: McpAuth,
    pub cached_token: Option<String>,
    pub token_expiry_ms: Option<i64>,
}

impl AuthManager {
    /// The credentials.
    pub open spec fn auth_spec(self) -> McpAuth {
        self.auth
    }

    /// A manager for `auth`, with no token yet.
    pub fn new(auth: McpAuth) -> (m: AuthManager)
        ensures
            m.auth_spec() == auth,
            m.cached_token is None,
            m.token_expiry_ms is None,
    {
        AuthManager { auth, cached_token: None, token_expiry_ms: None }
    }

    /// Whether the cached token is still good at `now_ms`: there is one,
    /// with an expiry later than that.
    pub open spec fn valid_at(self, now_ms: i64) -> bool {
        &&& self.cached_token is Some
        &&& (self.token_expiry_ms matches Some(e) && now_ms < e)
    }

    /// Whether the cached token is still good at `now_ms`.
    pub fn is_token_valid_at(&self, now_ms: i64) -> (b: bool)
        ensures
            b == self.valid_at(now_ms),
    {
        match (&self.cached_token, &self.token_expiry_ms) {
            (Some(_), Some(expiry)) => now_ms < *expiry,
            _ => false,
        }
    }

    /// Whether the cached token is still good now: `is_token_valid_at` at
    /// the clock's reading, which is some instant chrono can hold.
    pub fn is_token_valid(&self) -> (b: bool)
        ensures
            exists|now: i64| #[trigger] clock_in_range(now) && b == self.valid_at(now),
    {
        let now = now_millis();
        let b = self.is_token_valid_at(now);
        assert(clock_in_range(now) && b == self.valid_at(now));
        b
    }

    /// The `Authorization` header for a request sent at `now_ms`: none
    /// without credentials, the bearer token as given, or the cached OAuth2
    /// token while it is good; a fresh token is needed otherwise.
    pub fn auth_step(&self, now_ms: i64) -> (s: AuthStep)
        ensures
            match self.auth_spec() {
                McpAuth::NoAuth => s is NoHeader,
                McpAuth::Bearer { token } => s matches AuthStep::Header(h) && h@ == "Bearer "@ + token@,
                McpAuth::OAuth2 { .. } => if self.valid_at(now_ms) {
                    s matches AuthStep::Header(h) && h@ == "Bearer "@ + self.cached_token->0@
                } else {
                    s is Refresh
                },
            },
    {
        match &self.auth {
            McpAuth::NoAuth => AuthStep::NoHeader,
            McpAuth::Bearer { token } => AuthStep::Header(cat2("Bearer ", token.as_str())),
            McpAuth::OAuth2 { .. } => {
                if self.is_token_valid_at(now_ms) {
                    match &self.cached_token {
                        Some(t) => AuthStep::Header(cat2("Bearer ", t.as_str())),
                        None => AuthStep::Refresh,
                    }
                } else {
                    AuthStep::Refresh
                }
            },
        }
    }

    /// The header made from the cached token, after a refresh.
    pub fn cached_header(&self) -> (h: Option<String>)
        ensures
            match self.cached_token {
                Some(t) => h matches Some(x) && x@ == "Bearer "@ + t@,
                None => h is None,
            },
    {
        match &self.cached_token {
            Some(t) => Some(cat2("Bearer ", t.as_str())),
            None => None,
        }
    }

    /// The token request for OAuth2 credentials: the grant type, the client
    /// id, the secret when there is one and the scopes joined by spaces when
    /// there are any. Other credentials fetch no token.
    pub fn token_request(&self) -> (r: Option<TokenRequest>)
        ensures
            match self.auth_spec() {
                McpAuth::OAuth2 { client_id, client_secret, token_url, scopes } => r matches Some(q)
                    && q.token_url@ == token_url@ && pair_texts(q.params@) == token_params(
                    client_id@,
                    match client_secret {
                        Some(s) => Some(s@),
                        None => None,
                    },
                    match scopes {
                        Some(v) => texts(v@),
                        None => Seq::empty(),
                    },
                ),
                _ => r is None,
            },
    {
        match &self.auth {
            McpAuth::OAuth2 { client_id, client_secret, token_url, scopes } => {
                let mut params: Vec<(String, String)> = Vec::new();
                params.push((String::from_str("grant_type"), String::from_str("client_credentials")));
                params.push((String::from_str("client_id"), client_id.clone()));
                match client_secret {
                    Some(s) => {
                        params.push((String::from_str("client_secret"), s.clone()));
                    },
                    None => {},
                }
                let empty: Vec<String> = Vec::new();
                let scope_list = match scopes {
                    Some(v) => v,
                    None => &empty,
                };
                if scope_list.len() > 0 {
                    params.push((String::from_str("scope"), join_texts(scope_list, " ")));
                }
                let ghost want = token_params(
                    client_id@,
                    match client_secret {
                        Some(s) => Some(s@),
                        None => None,
                    },
                    texts(scope_list@),
                );
                assert(pair_texts(params@) =~= want);
                Some(TokenRequest { token_url: token_url.clone(), params })
            },
            _ => None,
        }
    }

    /// Takes the token endpoint's reply to a request made at `now_ms`: a
    /// refused request is an OAuth2 error naming the status and the
    /// server's explanation; a reply without a token is an error; otherwise
    /// the token is cached with its expiry.
    pub fn apply_token_reply(&mut self, now_ms: i64, reply: TokenReply) -> (r: Result<(), McpError>)
        requires
            reply.success && reply.access_token is Some ==> expiry_fits(now_ms, reply.expires_in),
        ensures
            final(self).auth_spec() == old(self).auth_spec(),
            !reply.success ==> (r matches Err(McpError::OAuth2Error { reason }) && reason@
                == "Token request failed with status "@ + reply.status_text@ + ": "@ + (match reply.error_text {
                Some(t) => t@,
                None => "unknown error"@,
            })) && final(self).cached_token == old(self).cached_token && final(self).token_expiry_ms
                == old(self).token_expiry_ms,
            reply.success && reply.access_token is None ==> (r matches Err(McpError::OAuth2Error { reason })
                && reason@ == "No access_token in response"@) && final(self).cached_token
                == old(self).cached_token && final(self).token_expiry_ms == old(self).token_expiry_ms,
            reply.success && reply.access_token is Some ==> r is Ok && final(self).cached_token
                == reply.access_token && final(self).token_expiry_ms == Some(
                (now_ms + token_lifetime(reply.expires_in) * 1000) as i64,
            ),
    {
        if !reply.success {
            let detail = match &reply.error_text {
                Some(t) => t.clone(),
                None => String::from_str("unknown error"),
            };
            return Err(McpError::OAuth2Error {
                reason: cat4("Token request failed with status ", reply.status_text.as_str(), ": ", detail.as_str()),
            });
        }
        match reply.access_token {
            None => Err(McpError::OAuth2Error { reason: String::from_str("No access_token in response") }),
            Some(token) => {
                let secs: i64 = match reply.expires_in {
                    Some(e) => e as i64,
                    None => 3600,
                };
                self.cached_token = Some(token);
                self.token_expiry_ms = Some(now_ms + secs * 1000);
                Ok(())
            },
        }
    }
}

/// The error for a token request that could not be sent.
pub fn token_request_failed(detail: &str) -> (e: McpError)
    ensures
        e matches McpError::OAuth2Error { reason } && reason@ == "Token request failed: "@ + detail@,
{
    McpError::OAuth2Error { reason: cat2("Token request failed: ", detail) }
}

/// The error for a token reply that is not JSON.
pub fn token_reply_unreadable(detail: &str) -> (e: McpError)
    ensures
        e matches McpError::OAuth2Error { reason } && reason@ == "Failed to parse token response: "@
            + detail@,
{
    McpError::OAuth2Error { reason: cat2("Failed to parse token response: ", detail) }
}

/// A JSON-RPC 2.0 request.
#[derive(Debug)]
pub struct JsonRpcRequest {
    pub jsonrpc: String,
    pub id: u64,
    pub method: String,
    pub params: Option<serde_json::Value>,
}

impl JsonRpcRequest {
    /// Request `id` calling `method` with `params`.
    pub fn new(id: u64, method: &str, params: Option<serde_json::Value>) -> (r: JsonRpcRequest)
        ensures
            r.jsonrpc@ == "2.0"@,
            r.id == id,
            r.method@ == method@,
            r.params == params,
    {
        JsonRpcRequest { jsonrpc: String::from_str("2.0"), id, method: String::from_str(method), params }
    }
}

/// The error member of a JSON-RPC response.
#[derive(Clone, Debug)]
pub struct JsonRpcError {
    pub code: i64,
    pub message: String,
}

/// A JSON-RPC 2.0 response.
#[derive(Debug)]
pub struct JsonRpcResponse {
    pub id: Option<u64>,
    pub result: Option<serde_json::Value>,
    pub error: Option<JsonRpcError>,
}

/// What a JSON-RPC response gives: its error as a protocol error naming the
/// code and message, else its result; a response with neither is a
/// protocol error too.
pub fn rpc_result(response: JsonRpcResponse) -> (r: Result<serde_json::Value, McpError>)
    ensures
        match response.error {
            Some(e) => r matches Err(McpError::ProtocolError { reason }) && reason@ == "JSON-RPC error "@
                + crate::text::signed_decimal(e.code as int) + ": "@ + e.message@,
            None => match response.result {
                Some(v) => r == Ok::<serde_json::Value, McpError>(v),
                None => r matches Err(McpError::ProtocolError { reason }) && reason@
                    == "No result in response"@,
            },
        },
{
    match response.error {
        Some(e) => {
            let code = crate::text::signed_decimal_text(e.code);
            Err(McpError::ProtocolError {
                reason: cat4("JSON-RPC error ", code.as_str(), ": ", e.message.as_str()),
            })
        },
        None => match response.result {
            Some(v) => Ok(v),
            None => Err(McpError::ProtocolError { reason: String::from_str("No result in response") }),
        },
    }
}

/// A tool offered by an MCP server.
#[derive(Debug)]
pub struct McpTool {
    pub name: String,
    pub description: String,
    pub input_schema: serde_json::Value,
}

impl Clone for McpTool {
    fn clone(&self) -> (r: Self)
        ensures
            r == *self,
    {
        McpTool {
            name: self.name.clone(),
            description: self.description.clone(),
            input_schema: self.input_schema.clone(),
        }
    }
}

/// One piece of a tool's output.
#[derive(Clone, Debug)]
pub enum McpContent {
    Text { text: String },
    Image { data: String, mime_type: String },
    Resource { uri: String, text: Option<String> },
}

/// The outcome of a tool call.
#[derive(Clone, Debug)]
pub struct McpToolResult {
    pub content: Vec<McpContent>,
    pub is_error: bool,
}

/// Who the connector says it is.
#[derive(Clone, Debug)]
pub struct ClientInfo {
    pub name: String,
    pub version: String,
}

/// The parameters of the `initialize` request.
#[derive(Debug)]
pub struct InitializeParams {
    pub protocol_version: String,
    pub capabilities: serde_json::Value,
    pub client_info: ClientInfo,
}

/// The parameters of a `tools/call` request.
#[derive(Debug)]
pub struct CallToolParams {
    pub name: String,
    pub arguments: Option<serde_json::Value>,
}

/// The parameters the connector opens a session with: protocol version
/// 2024-11-05, as client `argo-agent` 0.1.0, with these capabilities.
pub fn initialize_params(capabilities: serde_json::Value) -> (p: InitializeParams)
    ensures
        p.protocol_version@ == "2024-11-05"@,
        p.capabilities == capabilities,
        p.client_info.name@ == "argo-agent"@,
        p.client_info.version@ == "0.1.0"@,
{
    InitializeParams {
        protocol_version: String::from_str("2024-11-05"),
        capabilities,
        client_info: ClientInfo { name: String::from_str("argo-agent"), version: String::from_str("0.1.0") },
    }
}

/// The parameters of a call of tool `name` with `arguments`.
pub fn call_tool_params(name: &str, arguments: serde_json::Value) -> (p: CallToolParams)
    ensures
        p.name@ == name@,
        p.arguments == Some(arguments),
{
    CallToolParams { name: String::from_str(name), arguments: Some(arguments) }
}

/// The most reconnection attempts.
pub const MAX_RECONNECT_ATTEMPTS: u32 = 10;

/// `a` is no longer than `b`.
pub open spec fn span_le(a: Span, b: Span) -> bool {
    a.total_nanos() <= b.total_nanos()
}

/// Twice the span, capped at `max`.
pub open spec fn doubled_capped(d: Span, max: Span) -> Span {
    if 2 * d.total_nanos() <= max.total_nanos() {
        Span { secs: (2 * d.secs + (2 * d.nanos) / 1_000_000_000) as u64, nanos: ((2 * d.nanos) % 1_000_000_000) as u32 }
    } else {
        max
    }
}

/// The wait before the next reconnection attempt: twice the last one, but
/// no more than `max`.
pub fn next_reconnect_delay(delay: Span, max: Span) -> (r: Span)
    requires
        delay.wf(),
        max.wf(),
        span_le(delay, max),
        2 * delay.secs + 1 <= u64::MAX,
    ensures
        r.wf(),
        r == doubled_capped(delay, max),
        span_le(r, max),
        r.total_nanos() == if 2 * delay.total_nanos() <= max.total_nanos() {
            2 * delay.total_nanos()
        } else {
            max.total_nanos()
        },
{
    let twice_nanos: u64 = (delay.nanos as u64) * 2;
    let carry: u64 = twice_nanos / 1_000_000_000;
    let secs: u64 = delay.secs * 2 + carry;
    let nanos: u32 = (twice_nanos % 1_000_000_000) as u32;
    let d2 = Span { secs, nanos };
    if secs < max.secs || (secs == max.secs && nanos <= max.nanos) {
        d2
    } else {
        max
    }
}

/// The attempts to reconnect to a server: at most ten, each after a wait
/// that doubles after every failure, up to a cap.
pub struct Reconnect {
    attempt: u32,
    delay: Span,
    max_delay: Span,
}

impl Reconnect {
    /// Attempts made so far.
    pub closed spec fn attempts(self) -> nat {
        self.attempt as nat
    }

    /// The wait before the next attempt.
    pub closed spec fn wait(self) -> Span {
        self.delay
    }

    /// The cap on waits.
    pub closed spec fn cap(self) -> Span {
        self.max_delay
    }

    /// The attempts never go past ten, and the wait stays within the cap.
    pub closed spec fn wf(self) -> bool {
        &&& self.attempt <= MAX_RECONNECT_ATTEMPTS
        &&& self.delay.wf()
        &&& self.max_delay.wf()
        &&& span_le(self.delay, self.max_delay)
        &&& 2 * self.max_delay.secs + 1 <= u64::MAX
    }

    /// The wait before the next attempt, counting it; none once ten
    /// attempts were made.
    pub fn next_wait(&mut self) -> (w: Option<Span>)
        requires
            old(self).wf(),
        ensures
            final(self).wf(),
            final(self).wait() == old(self).wait(),
            final(self).cap() == old(self).cap(),
            old(self).attempts() >= MAX_RECONNECT_ATTEMPTS ==> w is None && final(self).attempts()
                == old(self).attempts(),
            old(self).attempts() < MAX_RECONNECT_ATTEMPTS ==> w == Some(old(self).wait())
                && final(self).attempts() == old(self).attempts() + 1,
    {
        if self.attempt >= MAX_RECONNECT_ATTEMPTS {
            None
        } else {
            self.attempt = self.attempt + 1;
            Some(self.delay)
        }
    }

    /// Takes note that the attempt failed: the next wait doubles, up to the
    /// cap.
    pub fn failed(&mut self)
        requires
            old(self).wf(),
        ensures
            final(self).wf(),
            final(self).attempts() == old(self).attempts(),
            final(self).cap() == old(self).cap(),
            final(self).wait() == doubled_capped(old(self).wait(), old(self).cap()),
    {
        self.delay = next_reconnect_delay(self.delay, self.max_delay);
    }
}

/// What the connector keeps of one MCP server: where it is, how to
/// authenticate, the id of the next request, whether a session is open, the
/// tools last listed, and the reconnection waits.
pub struct McpConnector {
    server_url: String,
    auth: AuthManager,
    request_id: u64,
    connected: bool,
    tools_cache: Vec<McpTool>,
    reconnect_delay: Span,
    max_reconnect_delay: Span,
}

impl McpConnector {
    /// The credentials and the token last fetched.
    pub closed spec fn auth_manager(self) -> AuthManager {
        self.auth
    }

    /// The server's address.
    pub closed spec fn url(self) -> Seq<char> {
        self.server_url@
    }

    /// The id the next request gets.
    pub closed spec fn next_id(self) -> u64 {
        self.request_id
    }

    /// Whether a session is open.
    pub closed spec fn is_open(self) -> bool {
        self.connected
    }

    /// The tools last listed.
    pub closed spec fn cached(self) -> Seq<McpTool> {
        self.tools_cache@
    }

    /// The first reconnection wait.
    pub closed spec fn first_wait(self) -> Span {
        self.reconnect_delay
    }

    /// The cap on reconnection waits.
    pub closed spec fn wait_cap(self) -> Span {
        self.max_reconnect_delay
    }

    /// The connector's invariant: the first wait is within the cap.
    pub closed spec fn wf(self) -> bool {
        &&& self.reconnect_delay.wf()
        &&& self.max_reconnect_delay.wf()
        &&& span_le(self.reconnect_delay, self.max_reconnect_delay)
        &&& 2 * self.max_reconnect_delay.secs + 1 <= u64::MAX
    }

    /// A connector for the server at `server_url`: first request id 1, no
    /// session, no tools, reconnection waits from a second up to a minute.
    pub fn new(server_url: &str, auth: McpAuth) -> (c: McpConnector)
        ensures
            c.wf(),
            c.url() == server_url@,
            c.auth_manager().auth == auth,
            c.auth_manager().cached_token is None,
            c.auth_manager().token_expiry_ms is None,
            c.next_id() == 1,
            !c.is_open(),
            c.cached().len() == 0,
            c.first_wait() == (Span { secs: 1, nanos: 0 }),
            c.wait_cap() == (Span { secs: 60, nanos: 0 }),
    {
        McpConnector {
            server_url: String::from_str(server_url),
            auth: AuthManager::new(auth),
            request_id: 1,
            connected: false,
            tools_cache: Vec::new(),
            reconnect_delay: Span::from_secs(1),
            max_reconnect_delay: Span::from_secs(60),
        }
    }

    /// The server's address.
    pub fn server_url(&self) -> (u: &str)
        ensures
            u@ == self.url(),
    {
        self.server_url.as_str()
    }

    /// The first reconnection wait.
    pub fn reconnect_delay(&self) -> (d: Span)
        ensures
            d == self.first_wait(),
    {
        self.reconnect_delay
    }

    /// The cap on reconnection waits.
    pub fn max_reconnect_delay(&self) -> (d: Span)
        ensures
            d == self.wait_cap(),
    {
        self.max_reconnect_delay
    }

    /// Takes the id for a request; ids count up, wrapping around.
    pub fn next_request_id(&mut self) -> (id: u64)
        ensures
            id == old(self).next_id(),
            final(self).next_id() == old(self).next_id().wrapping_add(1),
            final(self).url() == old(self).url(),
            final(self).is_open() == old(self).is_open(),
            final(self).cached() == old(self).cached(),
            final(self).first_wait() == old(self).first_wait(),
            final(self).wait_cap() == old(self).wait_cap(),
            final(self).auth_manager() == old(self).auth_manager(),
    {
        let id = self.request_id;
        self.request_id = self.request_id.wrapping_add(1);
        id
    }

    /// The next request: a fresh id, `method` and `params`.
    pub fn build_request(&mut self, method: &str, params: Option<serde_json::Value>) -> (r: JsonRpcRequest)
        ensures
            r.jsonrpc@ == "2.0"@,
            r.id == old(self).next_id(),
            r.method@ == method@,
            r.params == params,
            final(self).next_id() == old(self).next_id().wrapping_add(1),
            final(self).url() == old(self).url(),
            final(self).is_open() == old(self).is_open(),
            final(self).cached() == old(self).cached(),
            final(self).first_wait() == old(self).first_wait(),
            final(self).wait_cap() == old(self).wait_cap(),
            final(self).auth_manager() == old(self).auth_manager(),
    {
        let id = self.next_request_id();
        JsonRpcRequest::new(id, method, params)
    }

    /// What it takes to authenticate a request sent at `now_ms`.
    pub fn auth_step(&self, now_ms: i64) -> (s: AuthStep)
        ensures
            match self.auth_manager().auth {
                McpAuth::NoAuth => s is NoHeader,
                McpAuth::Bearer { token } => s matches AuthStep::Header(h) && h@ == "Bearer "@ + token@,
                McpAuth::OAuth2 { .. } => if self.auth_manager().valid_at(now_ms) {
                    s matches AuthStep::Header(h) && h@ == "Bearer "@
                        + self.auth_manager().cached_token->0@
                } else {
                    s is Refresh
                },
            },
    {
        self.auth.auth_step(now_ms)
    }

    /// The token request for the server's OAuth2 credentials, if any.
    pub fn token_request(&self) -> (r: Option<TokenRequest>)
        ensures
            match self.auth_manager().auth {
                McpAuth::OAuth2 { client_id, client_secret, token_url, scopes } => r matches Some(q)
                    && q.token_url@ == token_url@ && pair_texts(q.params@) == token_params(
                    client_id@,
                    match client_secret {
                        Some(s) => Some(s@),
                        None => None,
                    },
                    match scopes {
                        Some(v) => texts(v@),
                        None => Seq::empty(),
                    },
                ),
                _ => r is None,
            },
    {
        self.auth.token_request()
    }

    /// Takes the token endpoint's reply (see `AuthManager::apply_token_reply`).
    pub fn apply_token_reply(&mut self, now_ms: i64, reply: TokenReply) -> (r: Result<(), McpError>)
        requires
            reply.success && reply.access_token is Some ==> expiry_fits(now_ms, reply.expires_in),
        ensures
            final(self).auth_manager().auth == old(self).auth_manager().auth,
            !reply.success ==> (r matches Err(McpError::OAuth2Error { reason }) && reason@
                == "Token request failed with status "@ + reply.status_text@ + ": "@ + (match reply.error_text {
                Some(t) => t@,
                None => "unknown error"@,
            })) && final(self).auth_manager() == old(self).auth_manager(),
            reply.success && reply.access_token is None ==> (r matches Err(McpError::OAuth2Error { reason })
                && reason@ == "No access_token in response"@) && final(self).auth_manager()
                == old(self).auth_manager(),
            reply.success && reply.access_token is Some ==> r is Ok && final(self).auth_manager().cached_token
                == reply.access_token && final(self).auth_manager().token_expiry_ms == Some(
                (now_ms + token_lifetime(reply.expires_in) * 1000) as i64,
            ),
            final(self).url() == old(self).url(),
            final(self).next_id() == old(self).next_id(),
            final(self).is_open() == old(self).is_open(),
            final(self).cached() == old(self).cached(),
            final(self).first_wait() == old(self).first_wait(),
            final(self).wait_cap() == old(self).wait_cap(),
    {
        self.auth.apply_token_reply(now_ms, reply)
    }

    /// The header made from the cached token, after a refresh.
    pub fn cached_header(&self) -> (h: Option<String>)
        ensures
            match self.auth_manager().cached_token {
                Some(t) => h matches Some(x) && x@ == "Bearer "@ + t@,
                None => h is None,
            },
    {
        self.auth.cached_header()
    }

    /// The error for a request that did not reach the server.
    pub fn connection_failed(&self, reason: &str) -> (e: McpError)
        ensures
            e matches McpError::ConnectionFailed { server, reason: r } && server@ == self.url() && r@
                == reason@,
    {
        McpError::ConnectionFailed { server: self.server_url.clone(), reason: String::from_str(reason) }
    }

    /// The error for a reconnection that gave up.
    pub fn reconnect_failed(&self) -> (e: McpError)
        ensures
            e matches McpError::ConnectionFailed { server, reason } && server@ == self.url() && reason@
                == "Failed to reconnect after 10 attempts"@,
    {
        McpError::ConnectionFailed {
            server: self.server_url.clone(),
            reason: String::from_str("Failed to reconnect after 10 attempts"),
        }
    }

    /// The reconnection attempts, none made yet.
    pub fn reconnection(&self) -> (r: Reconnect)
        requires
            self.wf(),
        ensures
            r.wf(),
            r.attempts() == 0,
            r.wait() == self.first_wait(),
            r.cap() == self.wait_cap(),
    {
        Reconnect { attempt: 0, delay: self.reconnect_delay, max_delay: self.max_reconnect_delay }
    }

    /// Takes note that the session is open.
    pub fn mark_connected(&mut self)
        ensures
            final(self).is_open(),
            final(self).url() == old(self).url(),
            final(self).next_id() == old(self).next_id(),
            final(self).cached() == old(self).cached(),
            final(self).first_wait() == old(self).first_wait(),
            final(self).wait_cap() == old(self).wait_cap(),
            final(self).auth_manager() == old(self).auth_manager(),
    {
        self.connected = true;
    }

    /// Whether a session is open.
    pub fn is_connected(&self) -> (b: bool)
        ensures
            b == self.is_open(),
    {
        self.connected
    }

    /// Keeps the tools the server listed.
    pub fn cache_tools(&mut self, tools: Vec<McpTool>)
        ensures
            final(self).cached() == tools@,
            final(self).url() == old(self).url(),
            final(self).next_id() == old(self).next_id(),
            final(self).is_open() == old(self).is_open(),
            final(self).first_wait() == old(self).first_wait(),
            final(self).wait_cap() == old(self).wait_cap(),
            final(self).auth_manager() == old(self).auth_manager(),
    {
        self.tools_cache = tools;
    }

    /// The tools last listed.
    pub fn get_cached_tools(&self) -> (v: Vec<McpTool>)
        ensures
            v@ == self.cached(),
    {
        let mut v: Vec<McpTool> = Vec::new();
        let mut i: usize = 0;
        while i < self.tools_cache.len()
            invariant
                i <= self.tools_cache.len(),
                v@ == self.tools_cache@.take(i as int),
            decreases self.tools_cache.len() - i,
        {
            v.push(self.tools_cache[i].clone());
            proof {
                assert(v@ =~= self.tools_cache@.take(i + 1));
            }
            i = i + 1;
        }
        proof {
            assert(self.tools_cache@.take(self.tools_cache.len() as int) =~= self.tools_cache@);
        }
        v
    }
}

/// What a tool may touch.
#[derive(Clone, Debug)]
pub struct ToolPermissions {
    pub allow_filesystem: bool,
    pub allow_network: bool,
    pub allow_subprocess: bool,
    pub working_directory: Option<String>,
    pub allowed_paths: Vec<String>,
    pub allowed_domains: Vec<String>,
    pub max_execution_time: Span,
}

/// The texts of the text pieces of a tool's output, in order.
pub open spec fn content_texts(c: Seq<McpContent>) -> Seq<Seq<char>>
    decreases c.len(),
{
    if c.len() == 0 {
        Seq::empty()
    } else {
        let rest = content_texts(c.drop_last());
        match c.last() {
            McpContent::Text { text } => rest.push(text@),
            _ => rest,
        }
    }
}

/// A tool of an MCP server, offered to agents as one of theirs; calls go
/// through the connector `C`.
pub struct McpToolWrapper<C> {
    connector: C,
    tool: McpTool,
    server_name: String,
}

impl<C> McpToolWrapper<C> {
    /// The server's tool.
    pub closed spec fn tool_spec(self) -> McpTool {
        self.tool
    }

    /// The connector calls go through.
    pub closed spec fn connector_spec(self) -> C {
        self.connector
    }

    /// Wraps `tool` of the server `server_name`.
    pub fn new(connector: C, tool: McpTool, server_name: &str) -> (w: McpToolWrapper<C>)
        ensures
            w.tool_spec() == tool,
            w.connector_spec() == connector,
    {
        McpToolWrapper { connector, tool, server_name: String::from_str(server_name) }
    }

    /// The connector calls go through.
    pub fn connector(&self) -> (c: &C)
        ensures
            *c == self.connector_spec(),
    {
        &self.connector
    }

    /// The tool's name.
    pub fn name(&self) -> (s: &str)
        ensures
            s@ == self.tool_spec().name@,
    {
        self.tool.name.as_str()
    }

    /// The tool's description.
    pub fn description(&self) -> (s: &str)
        ensures
            s@ == self.tool_spec().description@,
    {
        self.tool.description.as_str()
    }

    /// The schema of the tool's input.
    pub fn input_schema(&self) -> (v: serde_json::Value)
        ensures
            v == self.tool_spec().input_schema,
    {
        self.tool.input_schema.clone()
    }

    /// What the tool may touch: the network only, for 30 seconds.
    pub fn permissions(&self) -> (p: ToolPermissions)
        ensures
            !p.allow_filesystem,
            p.allow_network,
            !p.allow_subprocess,
            p.working_directory is None,
            p.allowed_paths.len() == 0,
            p.allowed_domains.len() == 0,
            p.max_execution_time == (Span { secs: 30, nanos: 0 }),
    {
        ToolPermissions {
            allow_filesystem: false,
            allow_network: true,
            allow_subprocess: false,
            working_directory: None,
            allowed_paths: Vec::new(),
            allowed_domains: Vec::new(),
            max_execution_time: Span::from_secs(30),
        }
    }

    /// The tool error for a call the connector could not make.
    pub fn call_failed(e: &McpError) -> (t: ToolError)
        ensures
            t matches ToolError::ExecutionFailed { reason } && reason@ == "MCP tool call failed: "@
                + mcp_error_text(*e),
    {
        let m = e.to_string();
        ToolError::ExecutionFailed { reason: cat2("MCP tool call failed: ", m.as_str()) }
    }

    /// The output of a call: the pieces of a successful result; a result
    /// marked as an error is a failure whose reason is its text pieces
    /// joined by commas.
    pub fn call_output(result: McpToolResult) -> (r: Result<Vec<McpContent>, ToolError>)
        ensures
            !result.is_error ==> (r matches Ok(v) && v@ == result.content@),
            result.is_error ==> (r matches Err(ToolError::ExecutionFailed { reason }) && reason@ == join(
                content_texts(result.content@),
                ", "@,
            )),
    {
        if result.is_error {
            let mut parts: Vec<String> = Vec::new();
            let mut i: usize = 0;
            while i < result.content.len()
                invariant
                    i <= result.content.len(),
                    texts(parts@) == content_texts(result.content@.take(i as int)),
                decreases result.content.len() - i,
            {
                proof {
                    assert(result.content@.take(i + 1).drop_last() =~= result.content@.take(i as int));
                }
                match &result.content[i] {
                    McpContent::Text { text } => {
                        parts.push(text.clone());
                        proof {
                            assert(texts(parts@) =~= content_texts(result.content@.take(i as int)).push(text@));
                        }
                    },
                    _ => {},
                }
                i = i + 1;
            }
            proof {
                assert(result.content@.take(result.content.len() as int) =~= result.content@);
            }
            Err(ToolError::ExecutionFailed { reason: join_texts(&parts, ", ") })
        } else {
            Ok(result.content)
        }
    }
}

} // verus!
