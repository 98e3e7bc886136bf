//! The event bridge's verified core: the process-wide registry that keeps at
//! most one bridge alive, the single-shot stop signal, the session state
//! machine, and the subscribe request it opens each session with.
//!
//! The application owns the actual task and socket; it represents the task
//! here by a numeric identifier and performs whatever action a transition
//! returns (spawn, stop and cancel, connect, write, read, sleep).

use vstd::prelude::*;

use crate::json::json_text;
use crate::json::line_clean;
use crate::json::line_safe;
use crate::json::lemma_json_text_one_line;
use crate::json::Json;
use crate::strutil::push_char;
use vstd::string::StringExecFns;

verus! {

/// One running bridge task as the registry sees it.
pub struct BridgeHandle {
    /// The project path the bridge was started for (compared verbatim, as
    /// the application handed it in).
    pub project_path: String,
    /// The application's identifier for the spawned task.
    pub task: u64,
    /// Whether the single-shot stop signal was already consumed.
    pub stop_sent: bool,
}

/// The process-wide bridge registry: at most one bridge is active.
pub struct BridgeRegistry {
    pub active: Option<BridgeHandle>,
}

/// What the application must do after asking for a bridge.
pub enum StartAction {
    /// A bridge for this project is already running: the start is a no-op.
    AlreadyRunning,
    /// No prior bridge: spawn the new task.
    Start,
    /// Stop (when the signal is still unsent) and cancel the prior task
    /// named here, then spawn the new task.
    Replace { stop: bool, cancel_task: u64 },
}

/// An idempotent start: the registry holds a bridge for the same path whose
/// task has not finished.
pub open spec fn start_is_noop(
    active: Option<BridgeHandle>,
    path: Seq<char>,
    task_finished: bool,
) -> bool {
    match active {
        Some(h) => h.project_path@ == path && !task_finished,
        None => false,
    }
}

impl BridgeRegistry {
    pub fn new_empty() -> (r: BridgeRegistry)
        ensures
            r.active is None,
    {
        BridgeRegistry { active: None }
    }

    /// The start/replace transition. Starting for the project already served
    /// by a live task changes nothing (the second start is a no-op); any
    /// other start installs a fresh handle under `new_task`, and tells the
    /// caller to stop and cancel the prior task first when one existed.
    pub fn ensure_bridge(
        &mut self,
        project_path: String,
        task_finished: bool,
        new_task: u64,
    ) -> (r: StartAction)
        ensures
            start_is_noop(old(self).active, project_path@, task_finished) ==> (r
                is AlreadyRunning && *final(self) == *old(self)),
            !start_is_noop(old(self).active, project_path@, task_finished) ==> ((final(self).active
                matches Some(nh) && nh.project_path == project_path && nh.task == new_task
                && !nh.stop_sent) && (match old(self).active {
                None => r is Start,
                Some(h) => r matches StartAction::Replace { stop, cancel_task } && stop
                    == !h.stop_sent && cancel_task == h.task,
            })),
    {
        let is_noop = match &self.active {
            Some(h) => crate::strutil::str_eq(h.project_path.as_str(), project_path.as_str())
                && !task_finished,
            None => false,
        };
        if is_noop {
            proof {
                let h = old(self).active->Some_0;
                assert(h.project_path@ == project_path@);
            }
            return StartAction::AlreadyRunning;
        }
        let prior = self.active.take();
        let action = match prior {
            None => StartAction::Start,
            Some(h) => StartAction::Replace { stop: !h.stop_sent, cancel_task: h.task },
        };
        self.active = Some(BridgeHandle { project_path, task: new_task, stop_sent: false });
        action
    }
}

/// The single-shot stop signal: the first call reports that the signal must
/// be sent and marks it consumed; any later call reports nothing to send and
/// changes nothing. Replacing a bridge also cancels its task outright, in
/// case the task does not answer the signal promptly.
pub fn mark_stop(h: &mut BridgeHandle) -> (send: bool)
    ensures
        send == !old(h).stop_sent,
        final(h).stop_sent,
        final(h).project_path == old(h).project_path,
        final(h).task == old(h).task,
{
    let send = !h.stop_sent;
    h.stop_sent = true;
    send
}

// --- the session state machine ---

/// Where one bridge session stands. `Connecting` covers reconnecting: a lost
/// session returns here after the fixed retry delay.
pub enum BridgeState {
    Connecting,
    Subscribed,
    Reading,
    Stopped,
}

/// What the application observed at the last suspension point.
pub enum BridgeEvent {
    /// The stop signal fired (checked at every suspension point; wins races).
    StopRequested,
    /// The transport connected.
    Connected,
    /// The transport could not connect.
    ConnectFailed,
    /// The subscribe line was written and flushed.
    SubscribeWritten,
    /// Writing the subscribe line failed.
    SubscribeFailed,
    /// One line arrived on the stream.
    Line(String),
    /// The daemon closed the stream.
    Eof,
    /// Reading failed.
    ReadError,
}

/// What the application must do next.
pub enum BridgeAction {
    /// Open a transport to the daemon address.
    Connect,
    /// Write the subscribe request, fire-and-forget.
    WriteSubscribe,
    /// Read the next line.
    ReadLine,
    /// Sleep the fixed retry delay, then connect again.
    RetryAfterDelay,
    /// Decode, normalize and republish this line, then read the next.
    HandleLine(String),
    /// The session is over; release the transport and end the task.
    Halt,
}

/// Which events can be observed in which states.
pub open spec fn event_fits(state: BridgeState, event: BridgeEvent) -> bool {
    match event {
        BridgeEvent::StopRequested => true,
        BridgeEvent::Connected => state is Connecting,
        BridgeEvent::ConnectFailed => state is Connecting,
        BridgeEvent::SubscribeWritten => state is Subscribed,
        BridgeEvent::SubscribeFailed => state is Subscribed,
        BridgeEvent::Line(_) => state is Reading,
        BridgeEvent::Eof => state is Reading,
        BridgeEvent::ReadError => state is Reading,
    }
}

pub open spec fn spec_bridge_step(state: BridgeState, event: BridgeEvent) -> (
    BridgeState,
    BridgeAction,
) {
    match event {
        BridgeEvent::StopRequested => (BridgeState::Stopped, BridgeAction::Halt),
        BridgeEvent::Connected => (BridgeState::Subscribed, BridgeAction::WriteSubscribe),
        BridgeEvent::ConnectFailed => (BridgeState::Connecting, BridgeAction::RetryAfterDelay),
        BridgeEvent::SubscribeWritten => (BridgeState::Reading, BridgeAction::ReadLine),
        BridgeEvent::SubscribeFailed => (BridgeState::Connecting, BridgeAction::RetryAfterDelay),
        BridgeEvent::Line(l) => (BridgeState::Reading, BridgeAction::HandleLine(l)),
        BridgeEvent::Eof => (BridgeState::Connecting, BridgeAction::RetryAfterDelay),
        BridgeEvent::ReadError => (BridgeState::Connecting, BridgeAction::RetryAfterDelay),
    }
}

/// One transition of the session: a stop request ends the session from any
/// state; a lost connection or read error returns to `Connecting` after the
/// fixed delay; a connected transport is subscribed at once; each line read
/// is handled and reading goes on.
pub fn bridge_step(state: BridgeState, event: BridgeEvent) -> (r: (BridgeState, BridgeAction))
    requires
        event_fits(state, event),
        !(state is Stopped),
    ensures
        r == spec_bridge_step(state, event),
        state is Reading && !(event is StopRequested) ==> !(r.0 is Stopped),
        event is StopRequested <==> r.0 is Stopped,
{
    match event {
        BridgeEvent::StopRequested => (BridgeState::Stopped, BridgeAction::Halt),
        BridgeEvent::Connected => (BridgeState::Subscribed, BridgeAction::WriteSubscribe),
        BridgeEvent::ConnectFailed => (BridgeState::Connecting, BridgeAction::RetryAfterDelay),
        BridgeEvent::SubscribeWritten => (BridgeState::Reading, BridgeAction::ReadLine),
        BridgeEvent::SubscribeFailed => (BridgeState::Connecting, BridgeAction::RetryAfterDelay),
        BridgeEvent::Line(l) => (BridgeState::Reading, BridgeAction::HandleLine(l)),
        BridgeEvent::Eof => (BridgeState::Connecting, BridgeAction::RetryAfterDelay),
        BridgeEvent::ReadError => (BridgeState::Connecting, BridgeAction::RetryAfterDelay),
    }
}

/// The fixed delay, in milliseconds, between reconnect attempts — a flat
/// retry, deliberately without backoff.
pub fn reconnect_delay_ms() -> (r: u64)
    ensures
        r == 800u64,
{
    800
}

// --- the subscribe request ---

/// The subscription envelope this library opens each session with: protocol
/// version 1, a fixed id, type `req`, method `wfl.subscribe`, and exactly
/// the five analysis topics, in order.
pub open spec fn subscribe_value_ok(v: Json) -> bool {
    &&& v.spec_get_i64("v"@) == Some(1i64)
    &&& v.spec_get_str("id"@) == Some("webui-wfl-subscribe"@)
    &&& v.spec_get_str("type"@) == Some("req"@)
    &&& v.spec_get_str("method"@) == Some("wfl.subscribe"@)
    &&& match v.spec_get("params"@) {
        Some(p) => match p.spec_get("topics"@) {
            Some(t) => {
                &&& t is Arr
                &&& t->Arr_0@.len() == 5
                &&& t->Arr_0@[0].spec_as_str() == Some("wfl.analysis.started"@)
                &&& t->Arr_0@[1].spec_as_str() == Some("wfl.analysis.queued"@)
                &&& t->Arr_0@[2].spec_as_str() == Some("wfl.analysis.progress"@)
                &&& t->Arr_0@[3].spec_as_str() == Some("wfl.analysis.active"@)
                &&& t->Arr_0@[4].spec_as_str() == Some("wfl.analysis.completed"@)
            },
            None => false,
        },
        None => false,
    }
}

/// Builds the subscribe request as exactly one line: the JSON text of a
/// value of the shape above, followed by one newline, with no newline in the
/// text itself.
pub fn subscribe_request_line() -> (r: String)
    ensures
        exists|v: Json|
            subscribe_value_ok(v) && r@ == json_text(v).push('\n') && line_clean(json_text(v)),
{
    let mut topics: Vec<Json> = Vec::new();
    topics.push(Json::Str(String::from_str("wfl.analysis.started")));
    topics.push(Json::Str(String::from_str("wfl.analysis.queued")));
    topics.push(Json::Str(String::from_str("wfl.analysis.progress")));
    topics.push(Json::Str(String::from_str("wfl.analysis.active")));
    topics.push(Json::Str(String::from_str("wfl.analysis.completed")));
    let mut params_fields: Vec<(String, Json)> = Vec::new();
    params_fields.push((String::from_str("topics"), Json::Arr(topics)));
    let params = Json::Obj(params_fields);
    let mut fields: Vec<(String, Json)> = Vec::new();
    fields.push((String::from_str("v"), Json::Int(1)));
    fields.push((String::from_str("id"), Json::Str(String::from_str("webui-wfl-subscribe"))));
    fields.push((String::from_str("type"), Json::Str(String::from_str("req"))));
    fields.push((String::from_str("method"), Json::Str(String::from_str("wfl.subscribe"))));
    fields.push((String::from_str("params"), params));
    let v = Json::Obj(fields);
    let mut out = crate::json::render_json(&v);
    push_char(&mut out, '\n');
    proof {
        reveal_strlit("v");
        reveal_strlit("id");
        reveal_strlit("type");
        reveal_strlit("method");
        reveal_strlit("params");
        reveal_strlit("topics");
        let fs = v->Obj_0@;
        assert(fs.len() == 5);
        let s1 = fs.subrange(1, 5);
        let s2 = fs.subrange(2, 5);
        let s3 = fs.subrange(3, 5);
        let s4 = fs.subrange(4, 5);
        assert(s1[0] == fs[1]);
        assert(s2[0] == fs[2]);
        assert(s3[0] == fs[3]);
        assert(s4[0] == fs[4]);
        assert(s1.subrange(1, 4) =~= s2);
        assert(s2.subrange(1, 3) =~= s3);
        assert(s3.subrange(1, 2) =~= s4);
        assert(s4.subrange(1, 1) =~= fs.subrange(5, 5));
        assert(v.spec_get_i64("v"@) == Some(1i64));
        assert(crate::json::obj_lookup(fs, "id"@) == crate::json::obj_lookup(s1, "id"@));
        assert(crate::json::obj_lookup(s1, "id"@) == Some(fs[1].1));
        assert(v.spec_get_str("id"@) == Some("webui-wfl-subscribe"@));
        assert(crate::json::obj_lookup(fs, "type"@) == crate::json::obj_lookup(s1, "type"@));
        assert(crate::json::obj_lookup(s1, "type"@) == crate::json::obj_lookup(s2, "type"@));
        assert(crate::json::obj_lookup(s2, "type"@) == Some(fs[2].1));
        assert(v.spec_get_str("type"@) == Some("req"@));
        assert("type"@.len() == 4 && "method"@.len() == 6);
        assert(crate::json::obj_lookup(fs, "method"@) == crate::json::obj_lookup(s1, "method"@));
        assert(crate::json::obj_lookup(s1, "method"@) == crate::json::obj_lookup(s2, "method"@));
        assert(crate::json::obj_lookup(s2, "method"@) == crate::json::obj_lookup(s3, "method"@));
        assert(crate::json::obj_lookup(s3, "method"@) == Some(fs[3].1));
        assert(v.spec_get_str("method"@) == Some("wfl.subscribe"@));
        let p = params;
        assert(crate::json::obj_lookup(fs, "params"@) == crate::json::obj_lookup(s1, "params"@));
        assert(crate::json::obj_lookup(s1, "params"@) == crate::json::obj_lookup(s2, "params"@));
        assert(crate::json::obj_lookup(s2, "params"@) == crate::json::obj_lookup(s3, "params"@));
        assert("method"@[0] == 'm' && "params"@[0] == 'p');
        assert("method"@ != "params"@);
        assert(crate::json::obj_lookup(s3, "params"@) == crate::json::obj_lookup(s4, "params"@));
        assert(crate::json::obj_lookup(s4, "params"@) == Some(fs[4].1));
        assert(v.spec_get("params"@) == Some(p));
        assert(p.spec_get("topics"@) matches Some(t) && t is Arr && t->Arr_0@.len() == 5);
        let arr = p.spec_get("topics"@)->Some_0;
        assert forall|k: int| 0 <= k < arr->Arr_0@.len() implies line_safe(
            #[trigger] arr->Arr_0@[k],
        ) by {
            assert(arr->Arr_0@[k] is Str);
        }
        assert(line_safe(arr));
        assert forall|j: int| 0 <= j < p->Obj_0@.len() implies line_safe(#[trigger] p->Obj_0@[j].1) by {
            assert(p->Obj_0@[j].1 == arr);
        }
        assert(line_safe(p));
        assert forall|i: int| 0 <= i < fs.len() implies line_safe(#[trigger] fs[i].1) by {
            if i == 4 {
                assert(fs[i].1 == p);
            } else {
                assert(fs[i].1 is Str || fs[i].1 is Int);
            }
        }
        assert(line_safe(v));
        lemma_json_text_one_line(v);
        assert(subscribe_value_ok(v));
        assert(out@ == json_text(v).push('\n'));
    }
    out
}

} // verus!
