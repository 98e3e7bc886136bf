//! Wire envelopes of the daemon protocol: request, response and event, their
//! newline-delimited JSON encoding, and the error kinds surfaced to callers.
//!
//! A request encodes to exactly one line of JSON. A response line that does
//! not decode is fatal to its call and surfaces as a transport error; an
//! event line that does not decode is dropped and the read loop goes on.

use vstd::prelude::*;

use crate::json::json_of;
use crate::json::json_text;
use crate::json::line_clean;
use crate::json::line_safe;
use crate::json::lemma_json_text_one_line;
use crate::json::obj_lookup;
use crate::json::pair_text;
use crate::json::parse_json;
use crate::json::Json;
use crate::strutil::push_char;
use vstd::string::StringExecFns;

verus! {

/// One outgoing call: a fresh id, a dotted method name, and JSON parameters.
pub struct Request {
    pub id: String,
    pub method: String,
    pub params: Json,
}

/// One answer line. At most one of `result` / `error` is meaningful; an
/// absent id is legal but leaves the caller unable to verify correlation.
pub struct Response {
    pub id: Option<String>,
    pub result: Option<Json>,
    pub error: Option<String>,
}

/// One published event: a topic and its payload object.
pub struct Event {
    pub topic: String,
    pub data: Json,
}

/// Caller-visible error kinds of the daemon layer.
#[derive(Debug)]
pub enum DaemonError {
    Unreachable,
    InvalidMethod(String),
    InvalidParams,
    Internal(String),
    Timeout,
    Transport(String),
}

impl DaemonError {
    pub open spec fn spec_message(&self) -> Seq<char> {
        match self {
            DaemonError::Unreachable => "Daemon unreachable"@,
            DaemonError::InvalidMethod(m) => "Unknown method: "@ + m@,
            DaemonError::InvalidParams => "Invalid parameters"@,
            DaemonError::Internal(msg) => "Daemon error: "@ + msg@,
            DaemonError::Timeout => "Request timeout"@,
            DaemonError::Transport(msg) => "Transport error: "@ + msg@,
        }
    }

    /// The human-readable form of this error.
    pub fn message(&self) -> (r: String)
        ensures
            r@ == self.spec_message(),
    {
        match self {
            DaemonError::Unreachable => String::from_str("Daemon unreachable"),
            DaemonError::InvalidMethod(m) => String::from_str("Unknown method: ").concat(
                m.as_str(),
            ),
            DaemonError::InvalidParams => String::from_str("Invalid parameters"),
            DaemonError::Internal(msg) => String::from_str("Daemon error: ").concat(msg.as_str()),
            DaemonError::Timeout => String::from_str("Request timeout"),
            DaemonError::Transport(msg) => String::from_str("Transport error: ").concat(
                msg.as_str(),
            ),
        }
    }
}

// --- canonical method and topic names ---

/// The liveness probe.
pub fn method_ping() -> (r: &'static str)
    ensures
        r@ == "wfl.ping"@,
{
    "wfl.ping"
}

/// The status query.
pub fn method_get_status() -> (r: &'static str)
    ensures
        r@ == "wfl.getStatus"@,
{
    "wfl.getStatus"
}

/// The capability query.
pub fn method_get_capabilities() -> (r: &'static str)
    ensures
        r@ == "wfl.getCapabilities"@,
{
    "wfl.getCapabilities"
}

/// The analysis dispatch.
pub fn method_analyze() -> (r: &'static str)
    ensures
        r@ == "wfl.analyze"@,
{
    "wfl.analyze"
}

/// The parser run.
pub fn method_parser_parse() -> (r: &'static str)
    ensures
        r@ == "wfl.parser.parse"@,
{
    "wfl.parser.parse"
}

/// The parser query.
pub fn method_parser_query() -> (r: &'static str)
    ensures
        r@ == "wfl.parser.query"@,
{
    "wfl.parser.query"
}

/// The signal query.
pub fn method_get_signals() -> (r: &'static str)
    ensures
        r@ == "wfl.getSignals"@,
{
    "wfl.getSignals"
}

// --- encoding a request ---

/// The exact text of an encoded request envelope: one JSON object holding
/// id, method and params, in that order, with no added spaces.
pub open spec fn request_text(req: Request) -> Seq<char> {
    seq!['{'] + pair_text("id"@, Json::Str(req.id)) + seq![','] + pair_text(
        "method"@,
        Json::Str(req.method),
    ) + seq![','] + pair_text("params"@, req.params) + seq!['}']
}

/// Encodes a request to exactly one line: its JSON text followed by one
/// newline. When the parameters are line-safe, the text before that newline
/// holds no newline of its own.
#[verifier::rlimit(50)]
pub fn encode_request_line(req: Request) -> (r: String)
    ensures
        r@ == request_text(req).push('\n'),
        line_safe(req.params) ==> line_clean(request_text(req)),
{
    let ghost greq = req;
    let Request { id, method, params } = req;
    let mut fields: Vec<(String, Json)> = Vec::new();
    fields.push((String::from_str("id"), Json::Str(id)));
    fields.push((String::from_str("method"), Json::Str(method)));
    fields.push((String::from_str("params"), params));
    let v = Json::Obj(fields);
    let mut out = crate::json::render_json(&v);
    push_char(&mut out, '\n');
    proof {
        let fs = v->Obj_0@;
        assert(fs.len() == 3);
        let p0 = pair_text("id"@, Json::Str(greq.id));
        let p1 = pair_text("method"@, Json::Str(greq.method));
        let p2 = pair_text("params"@, greq.params);
        assert(json_text(v) == seq!['{'] + crate::json::obj_text(fs) + seq!['}']);
        let sub1 = fs.subrange(1, 3);
        let sub2 = fs.subrange(2, 3);
        let sub3 = fs.subrange(3, 3);
        assert(sub1[0] == fs[1]);
        assert(sub2[0] == fs[2]);
        assert(sub1.subrange(1, 2) =~= sub2);
        assert(sub2.subrange(1, 1) =~= sub3);
        assert(crate::json::obj_tail(sub3) == Seq::<char>::empty());
        assert(crate::json::obj_tail(sub2) =~= seq![','] + p2);
        assert(crate::json::obj_tail(sub1) =~= seq![','] + p1 + (seq![','] + p2));
        assert(crate::json::obj_text(fs) =~= p0 + seq![','] + p1 + seq![','] + p2);
        assert(json_text(v) =~= request_text(greq));
        assert(out@ == json_text(v).push('\n'));
        if line_safe(greq.params) {
            assert(forall|i: int| 0 <= i < fs.len() ==> line_safe(#[trigger] fs[i].1));
            assert(line_safe(v));
            lemma_json_text_one_line(v);
        }
    }
    out
}

// --- decoding a response ---

/// A string-or-null field: `Some(None)` for absent or null, `Some(Some(s))`
/// for a string, `None` for any other shape (which fails the decode).
pub open spec fn opt_str_of(field: Option<Json>) -> Option<Option<String>> {
    match field {
        None => Some(None),
        Some(Json::Null) => Some(None),
        Some(Json::Str(s)) => Some(Some(s)),
        Some(_) => None,
    }
}

/// A value-or-null field: an explicit null reads as absent.
pub open spec fn opt_val_of(field: Option<Json>) -> Option<Json> {
    match field {
        Some(Json::Null) => None,
        other => other,
    }
}

/// The response a decoded line denotes, or `None` when the line is not a
/// response envelope (not an object, or an id or error of the wrong type).
pub open spec fn response_of(j: Json) -> Option<Response> {
    if !(j is Obj) {
        None
    } else {
        match (opt_str_of(j.spec_get("id"@)), opt_str_of(j.spec_get("error"@))) {
            (Some(id), Some(error)) => Some(
                Response { id, result: opt_val_of(j.spec_get("result"@)), error },
            ),
            _ => None,
        }
    }
}

/// Removes the first binding of `key` and hands its value out, owned.
fn obj_take(fields: &mut Vec<(String, Json)>, key: &str) -> (r: Option<Json>)
    ensures
        r == obj_lookup(old(fields)@, key@),
{
    let n = fields.len();
    let mut i: usize = 0;
    proof {
        assert(fields@.subrange(0, n as int) =~= fields@);
    }
    while i < n
        invariant
            i <= n,
            n == fields@.len(),
            fields@ == old(fields)@,
            obj_lookup(old(fields)@, key@) == obj_lookup(
                fields@.subrange(i as int, n as int),
                key@,
            ),
        decreases n - i,
    {
        proof {
            assert(fields@.subrange(i as int, n as int)[0] == fields@[i as int]);
        }
        if crate::strutil::str_eq(fields[i].0.as_str(), key) {
            let pair = fields.remove(i);
            return Some(pair.1);
        }
        proof {
            assert(fields@.subrange(i as int, n as int).subrange(1, (n - i) as int)
                =~= fields@.subrange(i + 1, n as int));
        }
        i += 1;
    }
    proof {
        assert(fields@.subrange(n as int, n as int).len() == 0);
    }
    None
}

/// Decodes one line read while a response is awaited. A line that is not a
/// response envelope is fatal to the call: it surfaces as a transport error.
pub fn decode_response(line: &str) -> (r: Result<Response, DaemonError>)
    ensures
        match json_of(line@) {
            None => r matches Err(e) && e is Transport,
            Some(j) => match response_of(j) {
                Some(resp) => r == Ok::<Response, DaemonError>(resp),
                None => r matches Err(e) && e is Transport,
            },
        },
{
    let parsed = parse_json(line);
    let j = match parsed {
        None => {
            return Err(DaemonError::Transport(String::from_str("malformed response line")));
        },
        Some(j) => j,
    };
    let id = match j.get("id") {
        None => None,
        Some(Json::Null) => None,
        Some(Json::Str(s)) => Some(s.clone()),
        Some(_) => {
            return Err(DaemonError::Transport(String::from_str("malformed response line")));
        },
    };
    let error = match j.get("error") {
        None => None,
        Some(Json::Null) => None,
        Some(Json::Str(s)) => Some(s.clone()),
        Some(_) => {
            return Err(DaemonError::Transport(String::from_str("malformed response line")));
        },
    };
    let ghost jg = j;
    match j {
        Json::Obj(mut fields) => {
            proof {
                assert(jg is Obj && jg->Obj_0 == fields);
            }
            let taken = obj_take(&mut fields, "result");
            let result = match taken {
                Some(Json::Null) => None,
                other => other,
            };
            Ok(Response { id, result, error })
        },
        _ => Err(DaemonError::Transport(String::from_str("malformed response line"))),
    }
}

// --- decoding an event ---

/// What an event line denotes: `None` unless the line is an envelope of type
/// `"evt"`; otherwise the topic (an absent or non-string topic reads as
/// empty) and the payload, where `None` stands for "no object payload".
pub open spec fn event_parts_of(j: Json) -> Option<(Seq<char>, Option<Json>)> {
    if j.spec_get_str("type"@) != Some("evt"@) {
        None
    } else {
        let topic = match j.spec_get_str("topic"@) {
            Some(t) => t,
            None => Seq::<char>::empty(),
        };
        let data = match j.spec_get("data"@) {
            Some(d) => if d is Obj {
                Some(d)
            } else {
                None
            },
            None => None,
        };
        Some((topic, data))
    }
}

/// Decodes one line of the subscription stream. Anything that is not an
/// event envelope — malformed JSON included — reads as `None` and is dropped
/// without ending the stream. A missing or non-object payload becomes an
/// empty object.
pub fn decode_event(line: &str) -> (r: Option<Event>)
    ensures
        match json_of(line@) {
            None => r is None,
            Some(j) => match event_parts_of(j) {
                None => r is None,
                Some((topic, data)) => r matches Some(ev) && ev.topic@ == topic && (match data {
                    Some(d) => ev.data == d,
                    None => ev.data is Obj && ev.data->Obj_0@.len() == 0,
                }),
            },
        },
{
    let parsed = parse_json(line);
    let j = match parsed {
        None => {
            return None;
        },
        Some(j) => j,
    };
    let is_evt = match j.get_str("type") {
        Some(t) => crate::strutil::string_eq(&t, "evt"),
        None => false,
    };
    if !is_evt {
        return None;
    }
    let topic = match j.get_str("topic") {
        Some(t) => t,
        None => String::new(),
    };
    let ghost jg = j;
    match j {
        Json::Obj(mut fields) => {
            proof {
                assert(jg is Obj && jg->Obj_0 == fields);
            }
            let taken = obj_take(&mut fields, "data");
            let data = match taken {
                Some(d) => {
                    if d.is_obj() {
                        d
                    } else {
                        Json::Obj(Vec::new())
                    }
                },
                None => Json::Obj(Vec::new()),
            };
            Some(Event { topic, data })
        },
        _ => None,
    }
}

} // verus!
