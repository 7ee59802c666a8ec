//! The client side of the local MCP bridge: which endpoints it may reach,
//! the JSON-RPC envelope it sends, and how it reads what comes back. The
//! HTTP exchange itself is done by the caller.

use vstd::prelude::*;
use vstd::string::*;

use crate::config::{Endpoint, HostKind, UrlHost};
use crate::error::CompanionError;
use crate::time_model::Duration;

verus! {

/// The MCP protocol version this client negotiates.
pub const MCP_PROTOCOL_VERSION: &'static str = "2025-11-25";

/// Bridge failures.
#[derive(Debug, Clone, PartialEq, Eq)]
pub enum CoreBridgeError {
    /// The endpoint is not a loopback address.
    EndpointNotAllowed { endpoint: String },
    Unreachable(String),
    Timeout,
    ProtocolError(String),
    ToolError { code: Option<i64>, message: String },
}

impl CompanionError for CoreBridgeError {
    open spec fn spec_code(&self) -> Seq<char> {
        match self {
            CoreBridgeError::EndpointNotAllowed { .. } => "CORE_BRIDGE_ENDPOINT_NOT_ALLOWED"@,
            CoreBridgeError::Unreachable(_) => "CORE_UNREACHABLE"@,
            CoreBridgeError::Timeout => "CORE_TIMEOUT"@,
            CoreBridgeError::ProtocolError(_) => "CORE_PROTOCOL_ERROR"@,
            CoreBridgeError::ToolError { .. } => "CORE_TOOL_ERROR"@,
        }
    }

    open spec fn spec_retryable(&self) -> bool {
        self is Unreachable || self is Timeout
    }

    fn code(&self) -> (code: &'static str) {
        match self {
            CoreBridgeError::EndpointNotAllowed { .. } => "CORE_BRIDGE_ENDPOINT_NOT_ALLOWED",
            CoreBridgeError::Unreachable(_) => "CORE_UNREACHABLE",
            CoreBridgeError::Timeout => "CORE_TIMEOUT",
            CoreBridgeError::ProtocolError(_) => "CORE_PROTOCOL_ERROR",
            CoreBridgeError::ToolError { .. } => "CORE_TOOL_ERROR",
        }
    }

    fn retryable(&self) -> (r: bool) {
        match self {
            CoreBridgeError::Unreachable(_) | CoreBridgeError::Timeout => true,
            _ => false,
        }
    }
}

/// The lower-case form of an ASCII letter; other characters unchanged.
pub open spec fn ascii_lower(c: char) -> char {
    if 'A' <= c <= 'Z' {
        ((c as int) + 32) as char
    } else {
        c
    }
}

/// Whether two texts are equal ignoring ASCII case.
pub open spec fn eq_ignore_ascii_case(a: Seq<char>, b: Seq<char>) -> bool {
    a.len() == b.len() && forall|i: int| 0 <= i < a.len() ==> ascii_lower(a[i]) == ascii_lower(b[i])
}

fn lower_char(c: char) -> (l: char)
    ensures
        l == ascii_lower(c),
{
    if 'A' <= c && c <= 'Z' {
        ((c as u8) + 32) as char
    } else {
        c
    }
}

/// Whether `a` and `b` are equal ignoring ASCII case.
pub fn text_eq_ignore_ascii_case(a: &str, b: &str) -> (r: bool)
    ensures
        r == eq_ignore_ascii_case(a@, b@),
{
    let n = a.unicode_len();
    if n != b.unicode_len() {
        return false;
    }
    let mut i: usize = 0;
    while i < n
        invariant
            i <= n,
            n == a@.len(),
            n == b@.len(),
            forall|j: int| 0 <= j < i ==> ascii_lower(a@[j]) == ascii_lower(b@[j]),
        decreases n - i,
    {
        if lower_char(a.get_char(i)) != lower_char(b.get_char(i)) {
            return false;
        }
        i = i + 1;
    }
    true
}

/// Whether a host names the local machine: a domain spelled `localhost`
/// in any ASCII case, an IPv4 address in 127.0.0.0/8, or the IPv6 address
/// `::1`.
pub open spec fn is_loopback_host(host: Option<UrlHost>) -> bool {
    match host {
        Some(UrlHost::Domain(name)) => eq_ignore_ascii_case(name, "localhost"@),
        Some(UrlHost::Ipv4(octets)) => octets.len() == 4 && octets[0] == 127,
        Some(UrlHost::Ipv6(value)) => value == 1,
        None => false,
    }
}

/// Refuses any endpoint that is not on the local machine, independent of
/// what configuration validation did.
pub fn assert_loopback(endpoint: &Endpoint) -> (r: Result<(), CoreBridgeError>)
    ensures
        r is Ok <==> is_loopback_host(endpoint.spec_host_kind()),
        r is Err ==> r->Err_0 is EndpointNotAllowed && r->Err_0->endpoint@ == endpoint.spec_text(),
{
    let is_loopback = match endpoint.host_kind() {
        Some(HostKind::Domain(name)) => text_eq_ignore_ascii_case(name.as_str(), "localhost"),
        Some(HostKind::Ipv4(octets)) => octets[0] == 127,
        Some(HostKind::Ipv6(value)) => *value == 1,
        None => false,
    };
    if is_loopback {
        Ok(())
    } else {
        Err(CoreBridgeError::EndpointNotAllowed { endpoint: String::from_str(endpoint.as_str()) })
    }
}

/// Only the local machine is accepted: an IPv4 host exactly when its
/// first octet is 127 (127.0.0.0/8), so every other address, private
/// ranges such as 10.0.0.0/8 and 192.168.0.0/16 included, is refused; an
/// IPv6 host exactly when it is `::1`; a domain only when it reads
/// `localhost` ignoring ASCII case, never any other name; and an endpoint
/// without a host never.
pub proof fn lemma_only_loopback_hosts_are_accepted(octets: Seq<u8>, v6: u128, name: Seq<char>)
    requires
        octets.len() == 4,
    ensures
        is_loopback_host(Some(UrlHost::Ipv4(octets))) <==> octets[0] == 127,
        octets[0] == 10 || octets[0] == 192 || octets[0] == 172 || octets[0] == 0 ==> !is_loopback_host(
            Some(UrlHost::Ipv4(octets)),
        ),
        is_loopback_host(Some(UrlHost::Ipv6(v6))) <==> v6 == 1,
        is_loopback_host(Some(UrlHost::Domain(name))) ==> name.len() == 9 && forall|i: int|
            0 <= i < 9 ==> #[trigger] ascii_lower(name[i]) == ascii_lower("localhost"@[i]),
        name == "localhost"@ ==> is_loopback_host(Some(UrlHost::Domain(name))),
        !is_loopback_host(None),
{
    reveal_strlit("localhost");
}

/// Default request timeout: 30 seconds.
pub open spec fn default_timeout_nanos() -> i128 {
    30_000_000_000
}

/// Where and how long to wait for the local MCP server.
#[derive(Debug, Clone, PartialEq, Eq)]
pub struct CoreBridgeConfig {
    pub endpoint: Endpoint,
    pub timeout: Duration,
}

impl CoreBridgeConfig {
    /// The configuration for `endpoint` with the default 30 second timeout.
    pub fn new(endpoint: Endpoint) -> (c: CoreBridgeConfig)
        ensures
            c.endpoint == endpoint,
            c.timeout.nanos == default_timeout_nanos(),
    {
        CoreBridgeConfig { endpoint, timeout: Duration::seconds(30) }
    }
}

/// A JSON-RPC 2.0 request.
#[derive(Debug, Clone, PartialEq, Eq)]
pub struct JsonRpcRequest {
    pub jsonrpc: &'static str,
    pub id: String,
    pub method: String,
    pub params: serde_json::Value,
}

impl JsonRpcRequest {
    /// A version 2.0 request.
    pub fn new(id: &str, method: &str, params: serde_json::Value) -> (r: JsonRpcRequest)
        ensures
            r.jsonrpc@ == "2.0"@,
            r.id@ == id@,
            r.method@ == method@,
            r.params == params,
    {
        JsonRpcRequest {
            jsonrpc: "2.0",
            id: String::from_str(id),
            method: String::from_str(method),
            params,
        }
    }
}

/// The error member of a JSON-RPC response.
#[derive(Debug, Clone, PartialEq, Eq)]
pub struct JsonRpcErrorBody {
    pub code: i64,
    pub message: String,
}

/// A JSON-RPC response; either member may be missing.
#[derive(Debug, Clone, PartialEq)]
pub struct JsonRpcResponse {
    pub result: Option<serde_json::Value>,
    pub error: Option<JsonRpcErrorBody>,
}

/// One tool as the server lists it.
#[derive(Debug, Clone, PartialEq, Eq)]
pub struct ToolDescriptor {
    pub name: String,
    pub description: Option<String>,
}

/// The outcome of a request that did not get an HTTP response: a timeout,
/// or an unreachable server with the client's message.
pub fn transport_failure(timed_out: bool, message: String) -> (e: CoreBridgeError)
    ensures
        timed_out ==> e == CoreBridgeError::Timeout,
        !timed_out ==> e == CoreBridgeError::Unreachable(message),
{
    if timed_out {
        CoreBridgeError::Timeout
    } else {
        CoreBridgeError::Unreachable(message)
    }
}

/// What a request yields from an HTTP response: a non-success status is a
/// protocol error naming the status; a body that is not JSON-RPC is a
/// protocol error with the parser's message; an error member is a tool
/// error; a result member is the result; neither is a protocol error.
pub fn interpret_response(
    status_success: bool,
    status_text: &str,
    body: Result<JsonRpcResponse, String>,
) -> (r: Result<serde_json::Value, CoreBridgeError>)
    ensures
        !status_success ==> r is Err && r->Err_0 is ProtocolError && r->Err_0->ProtocolError_0@
            == "http status "@ + status_text@,
        status_success && body is Err ==> r is Err && r->Err_0 is ProtocolError
            && r->Err_0->ProtocolError_0@ == "response body was not valid JSON-RPC: "@
            + body->Err_0@,
        status_success && body is Ok && body->Ok_0.error is Some ==> r is Err && r->Err_0
            == (CoreBridgeError::ToolError {
            code: Some(body->Ok_0.error->0.code),
            message: body->Ok_0.error->0.message,
        }),
        status_success && body is Ok && body->Ok_0.error is None && body->Ok_0.result is Some ==> r
            == Ok::<serde_json::Value, CoreBridgeError>(body->Ok_0.result->0),
        status_success && body is Ok && body->Ok_0.error is None && body->Ok_0.result is None ==> r
            is Err && r->Err_0 is ProtocolError && r->Err_0->ProtocolError_0@
            == "response had neither result nor error"@,
{
    if !status_success {
        return Err(
            CoreBridgeError::ProtocolError(String::from_str("http status ").concat(status_text)),
        );
    }
    let body = match body {
        Ok(b) => b,
        Err(message) => {
            return Err(
                CoreBridgeError::ProtocolError(
                    String::from_str("response body was not valid JSON-RPC: ").concat(
                        message.as_str(),
                    ),
                ),
            );
        },
    };
    match body.error {
        Some(err) => Err(CoreBridgeError::ToolError { code: Some(err.code), message: err.message }),
        None => match body.result {
            Some(result) => Ok(result),
            None => Err(
                CoreBridgeError::ProtocolError(
                    String::from_str("response had neither result nor error"),
                ),
            ),
        },
    }
}

} // verus!
