//! The daemon client's verified core: fresh request ids, request assembly,
//! and consumption of the answer line, including the correlation check.
//!
//! The surrounding application owns the byte stream. A one-shot call runs:
//! assemble a request here, encode it, write the line and read one line on a
//! transport, decode it, and hand the decoded response back to
//! [`consume_response`], which enforces id correlation and maps a remote
//! error to a caller-visible one.

use vstd::prelude::*;

use crate::json::Json;
use crate::protocol::DaemonError;
use crate::protocol::Request;
use crate::protocol::Response;
use vstd::string::StringExecFns;

verus! {

/// The platform channel the transport runs over, fixed once at startup.
pub enum TransportKind {
    Unix,
    Windows,
}

/// Relies on uuid::Uuid::new_v4 and its hyphenated `to_string` form: 36
/// characters. Nothing is assumed about which id comes back.
#[verifier::external_body]
pub fn fresh_request_id() -> (r: String)
    ensures
        r@.len() == 36,
{
    uuid::Uuid::new_v4().to_string()
}

/// A request for `method` with `params`, under a freshly drawn id.
pub fn build_request(method: &str, params: Json) -> (r: Request)
    ensures
        r.method@ == method@,
        r.params == params,
        r.id@.len() == 36,
{
    Request { id: fresh_request_id(), method: String::from_str(method), params }
}

/// Would the client accept this response for the request with id `req_id`?
/// It must not carry a different id, and must not carry a remote error.
pub open spec fn response_accepted(req_id: Seq<char>, resp: Response) -> bool {
    &&& match resp.id {
        Some(i) => i@ == req_id,
        None => true,
    }
    &&& resp.error is None
}

/// The result value an accepted response denotes: its `result` field, or an
/// empty object when the field is absent.
pub open spec fn accepted_value_is(resp: Response, v: Json) -> bool {
    match resp.result {
        Some(x) => v == x,
        None => v is Obj && v->Obj_0@.len() == 0,
    }
}

/// Consumes the decoded response to the request with id `req_id`. A response
/// carrying a different id is rejected as a transport error; a response
/// carrying a remote error surfaces it; otherwise the result value (an empty
/// object when absent) is returned.
pub fn consume_response(req_id: &str, resp: Response) -> (r: Result<Json, DaemonError>)
    ensures
        match r {
            Ok(v) => response_accepted(req_id@, resp) && accepted_value_is(resp, v),
            Err(e) => !response_accepted(req_id@, resp) && match e {
                DaemonError::Transport(_) => resp.id matches Some(i) && i@ != req_id@,
                DaemonError::Internal(msg) => resp.error == Some(msg) && (match resp.id {
                    Some(i) => i@ == req_id@,
                    None => true,
                }),
                _ => false,
            },
        },
{
    let Response { id, result, error } = resp;
    if let Some(i) = id {
        if !crate::strutil::string_eq(&i, req_id) {
            return Err(
                DaemonError::Transport(String::from_str("response id does not match request id")),
            );
        }
    }
    if let Some(msg) = error {
        return Err(DaemonError::Internal(msg));
    }
    match result {
        Some(v) => Ok(v),
        None => Ok(Json::Obj(Vec::new())),
    }
}

/// Law: round-trip correlation. Whatever line the daemon sends, a response
/// the client accepts either carries the id generated for that exact request
/// or carries no id at all — never the id of another request.
pub proof fn lemma_accepted_response_correlates(req_id: Seq<char>, resp: Response)
    ensures
        response_accepted(req_id, resp) ==> match resp.id {
            Some(i) => i@ == req_id,
            None => true,
        },
{
}

/// A ping reduced to a boolean: any accepted answer counts as reachable, any
/// error as unreachable — errors are swallowed.
pub fn ping_outcome(r: &Result<Json, DaemonError>) -> (b: bool)
    ensures
        b == (r is Ok),
{
    r.is_ok()
}

/// The daemon's address: the configured path when one is set, else the fixed
/// default of the platform channel.
pub fn daemon_address(kind: &TransportKind, configured: Option<String>) -> (r: String)
    ensures
        match configured {
            Some(p) => r == p,
            None => match kind {
                TransportKind::Unix => r@ == "/tmp/khaos-wfl.sock"@,
                TransportKind::Windows => r@ == "\\\\.\\pipe\\khaos-wfl"@,
            },
        },
{
    match configured {
        Some(p) => p,
        None => match kind {
            TransportKind::Unix => String::from_str("/tmp/khaos-wfl.sock"),
            TransportKind::Windows => String::from_str("\\\\.\\pipe\\khaos-wfl"),
        },
    }
}

} // verus!
