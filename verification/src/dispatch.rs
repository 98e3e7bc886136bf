//! The two-channel dispatch policy: derive the daemon's status for a
//! project, prefer the daemon for analysis work, and fall back to the CLI
//! subprocess when the daemon is unreachable. The application performs the
//! I/O; every decision and every message built along the way is here.

use vstd::prelude::*;

use crate::json::lemma_obj_lookup_absent;
use crate::json::lemma_obj_lookup_found;
use crate::json::line_safe;
use crate::json::Json;
use crate::protocol::DaemonError;
use crate::runs::clamp_to_usize;
use crate::runs::AnalysisCompletedEvent;
use crate::runs::AnalysisProgressEvent;
use crate::runs::AnalysisStartedEvent;
use crate::runs::ProgressFraction;
use crate::strutil::contains_seq;
use crate::strutil::dec_int;
use crate::strutil::i64_to_dec;
use crate::strutil::str_contains;
use crate::strutil::str_eq;
use vstd::string::StringExecFns;

verus! {

/// A point-in-time snapshot of the daemon, derived per status query and
/// never persisted.
pub struct DaemonStatus {
    pub running: bool,
    pub project_path: Option<String>,
    pub watching: bool,
    pub busy: bool,
    pub queue_depth: usize,
}

/// The raw fields read out of a `wfl.getStatus` result, before the
/// project-path comparison decides `running`.
pub struct StatusFields {
    pub project_path: Option<String>,
    pub watching: bool,
    pub busy: bool,
    pub queue_depth: usize,
}

/// The project path a status result reports: the `projectPath` field when
/// the key is present (a non-string value reads as none), else `project`.
pub open spec fn status_project_path(j: Json) -> Option<Seq<char>> {
    match j.spec_get("projectPath"@) {
        Some(v) => v.spec_as_str(),
        None => j.spec_get_str("project"@),
    }
}

/// A daemon-reported count: a missing, negative or non-integer depth reads
/// as zero.
pub open spec fn status_queue_depth(j: Json) -> usize {
    match j.spec_get_i64("queueDepth"@) {
        Some(n) => if n >= 0 {
            clamp_to_usize(n)
        } else {
            0usize
        },
        None => 0usize,
    }
}

/// Reads the status fields out of a `wfl.getStatus` result.
pub fn status_fields_of(j: &Json) -> (r: StatusFields)
    ensures
        crate::runs::opt_view(r.project_path) == status_project_path(*j),
        r.watching == (j.spec_get_bool("watching"@) == Some(true)),
        r.busy == (j.spec_get_bool("busy"@) == Some(true)),
        r.queue_depth == status_queue_depth(*j),
{
    let project_path = match j.get("projectPath") {
        Some(v) => match v.as_str() {
            Some(s) => Some(s.clone()),
            None => None,
        },
        None => j.get_str("project"),
    };
    let watching = match j.get_bool("watching") {
        Some(b) => b,
        None => false,
    };
    let busy = match j.get_bool("busy") {
        Some(b) => b,
        None => false,
    };
    let queue_depth = match j.get_i64("queueDepth") {
        Some(n) => {
            if n >= 0 {
                crate::runs::i64_to_usize_clamped(n)
            } else {
                0
            }
        },
        None => 0,
    };
    StatusFields { project_path, watching, busy, queue_depth }
}

/// The status snapshot when the daemon could not be reached or did not
/// answer the status query: not running, nothing known.
pub fn offline_status() -> (r: DaemonStatus)
    ensures
        !r.running,
        r.project_path is None,
        !r.watching,
        !r.busy,
        r.queue_depth == 0,
{
    DaemonStatus { running: false, project_path: None, watching: false, busy: false, queue_depth: 0 }
}

/// Completes a status snapshot: the daemon counts as running for the
/// requested project only when it reports a project path whose canonical
/// form (derived by the caller) equals the canonical form of the requested
/// path — a daemon serving a different project counts as not running.
pub fn finish_daemon_status(
    fields: StatusFields,
    daemon_canon: Option<String>,
    requested_canon: &str,
) -> (r: DaemonStatus)
    ensures
        r.running == (match daemon_canon {
            Some(c) => c@ == requested_canon@,
            None => false,
        }),
        r.project_path == fields.project_path,
        r.watching == fields.watching,
        r.busy == fields.busy,
        r.queue_depth == fields.queue_depth,
{
    let running = match &daemon_canon {
        Some(c) => str_eq(c.as_str(), requested_canon),
        None => false,
    };
    DaemonStatus {
        running,
        project_path: fields.project_path,
        watching: fields.watching,
        busy: fields.busy,
        queue_depth: fields.queue_depth,
    }
}

/// Which channel serves an analysis request.
pub enum DispatchChannel {
    Daemon,
    Cli,
}

/// The daemon serves the request exactly when the status probe found it
/// running for this project; otherwise the CLI fallback does.
pub fn choose_channel(status: &DaemonStatus) -> (r: DispatchChannel)
    ensures
        r is Daemon <==> status.running,
{
    if status.running {
        DispatchChannel::Daemon
    } else {
        DispatchChannel::Cli
    }
}

/// The analyze-all operation of a section, or the error for an unknown one.
pub fn operation_for_section(section: &str) -> (r: Result<String, String>)
    ensures
        section@ == "scenes"@ ==> (r matches Ok(op) && op@ == "analyze-all-scenes"@),
        section@ == "characters"@ ==> (r matches Ok(op) && op@ == "analyze-all-characters"@),
        section@ == "locations"@ ==> (r matches Ok(op) && op@ == "analyze-all-locations"@),
        !(section@ == "scenes"@ || section@ == "characters"@ || section@ == "locations"@) ==> (r
            matches Err(e) && e@ == "Unknown section: "@ + section@),
{
    proof {
        reveal_strlit("scenes");
        reveal_strlit("characters");
        reveal_strlit("locations");
        assert("scenes"@.len() == 6 && "characters"@.len() == 10 && "locations"@.len() == 9);
    }
    if str_eq(section, "scenes") {
        Ok(String::from_str("analyze-all-scenes"))
    } else if str_eq(section, "characters") {
        Ok(String::from_str("analyze-all-characters"))
    } else if str_eq(section, "locations") {
        Ok(String::from_str("analyze-all-locations"))
    } else {
        Err(String::from_str("Unknown section: ").concat(section))
    }
}

/// The start of an analyze-all request: the operation of the section, and
/// the optimistic Started event, whose payload names the section itself (not
/// the entity kind) under the sentinel id. An unknown section is rejected
/// before any event exists to emit.
pub fn analyze_all_start(section: &str) -> (r: Result<(String, AnalysisStartedEvent), String>)
    ensures
        r is Ok <==> (section@ == "scenes"@ || section@ == "characters"@ || section@
            == "locations"@),
        r matches Ok((op, ev)) ==> ((section@ == "scenes"@ ==> op@ == "analyze-all-scenes"@) && (
        section@ == "characters"@ ==> op@ == "analyze-all-characters"@) && (section@
            == "locations"@ ==> op@ == "analyze-all-locations"@) && ev.item_type@ == section@
            && ev.item_id@ == "all"@ && ev.operation@ == op@),
        r matches Err(e) ==> e@ == "Unknown section: "@ + section@,
{
    let op = operation_for_section(section)?;
    let ev = AnalysisStartedEvent {
        item_type: String::from_str(section),
        item_id: String::from_str("all"),
        operation: op.clone(),
    };
    Ok((op, ev))
}

/// The entity kind an operation name speaks of.
pub open spec fn spec_item_type(op: Seq<char>) -> Seq<char> {
    if contains_seq(op, "scene"@) {
        "scene"@
    } else if contains_seq(op, "character"@) {
        "character"@
    } else {
        "location"@
    }
}

pub fn item_type_of_operation(op: &str) -> (r: String)
    ensures
        r@ == spec_item_type(op@),
{
    if str_contains(op, "scene") {
        String::from_str("scene")
    } else if str_contains(op, "character") {
        String::from_str("character")
    } else {
        String::from_str("location")
    }
}

/// The parameter key the target entity id is sent under.
pub open spec fn entity_key(op: Seq<char>) -> Seq<char> {
    if contains_seq(op, "scene"@) {
        "sceneId"@
    } else if contains_seq(op, "character"@) {
        "characterId"@
    } else {
        "locationId"@
    }
}

/// What the parameters of a `wfl.analyze` request hold: the project path,
/// the operation, `wait` false (completion arrives via the bridge, not via
/// this call), `verbose` true, the provider only when one is configured, and
/// the target entity id under the kind's key only when the request names one
/// entity rather than `"all"`.
pub open spec fn analyze_params_ok(
    r: Json,
    path: Seq<char>,
    op: Seq<char>,
    provider: Seq<char>,
    item_id: Seq<char>,
) -> bool {
    &&& r is Obj
    &&& r.spec_get_str("projectPath"@) == Some(path)
    &&& r.spec_get_str("operation"@) == Some(op)
    &&& r.spec_get_bool("wait"@) == Some(false)
    &&& r.spec_get_bool("verbose"@) == Some(true)
    &&& (provider.len() > 0 ==> r.spec_get_str("provider"@) == Some(provider))
    &&& (provider.len() == 0 ==> r.spec_get("provider"@) is None)
    &&& (item_id != "all"@ ==> r.spec_get_str(entity_key(op)) == Some(item_id))
    &&& (item_id == "all"@ ==> r.spec_get("sceneId"@) is None && r.spec_get("characterId"@)
        is None && r.spec_get("locationId"@) is None)
    &&& line_safe(r)
}

/// Builds the `wfl.analyze` parameters.
pub fn build_analyze_params(path: &str, op: &str, provider: &str, item_id: &str) -> (r: Json)
    ensures
        analyze_params_ok(r, path@, op@, provider@, item_id@),
{
    let mut fields: Vec<(String, Json)> = Vec::new();
    fields.push((String::from_str("projectPath"), Json::Str(String::from_str(path))));
    fields.push((String::from_str("operation"), Json::Str(String::from_str(op))));
    fields.push((String::from_str("wait"), Json::Bool(false)));
    fields.push((String::from_str("verbose"), Json::Bool(true)));
    let has_provider = !provider.is_empty();
    if has_provider {
        fields.push((String::from_str("provider"), Json::Str(String::from_str(provider))));
    }
    let named_item = !str_eq(item_id, "all");
    if named_item {
        let key = if str_contains(op, "scene") {
            String::from_str("sceneId")
        } else if str_contains(op, "character") {
            String::from_str("characterId")
        } else {
            String::from_str("locationId")
        };
        fields.push((key, Json::Str(String::from_str(item_id))));
    }
    let r = Json::Obj(fields);
    proof {
        reveal_strlit("projectPath");
        reveal_strlit("operation");
        reveal_strlit("wait");
        reveal_strlit("verbose");
        reveal_strlit("provider");
        reveal_strlit("sceneId");
        reveal_strlit("characterId");
        reveal_strlit("locationId");
        let fs = r->Obj_0@;
        assert("projectPath"@.len() == 11 && "operation"@.len() == 9 && "wait"@.len() == 4
            && "verbose"@.len() == 7 && "provider"@.len() == 8 && "sceneId"@.len() == 7
            && "characterId"@.len() == 11 && "locationId"@.len() == 10);
        assert("verbose"@[0] == 'v' && "sceneId"@[0] == 's');
        assert("verbose"@ != "sceneId"@);
        assert("projectPath"@[0] == 'p' && "characterId"@[0] == 'c');
        assert("projectPath"@ != "characterId"@);
        lemma_obj_lookup_found(fs, "projectPath"@, 0);
        lemma_obj_lookup_found(fs, "operation"@, 1);
        lemma_obj_lookup_found(fs, "wait"@, 2);
        lemma_obj_lookup_found(fs, "verbose"@, 3);
        if has_provider {
            lemma_obj_lookup_found(fs, "provider"@, 4);
        } else {
            lemma_obj_lookup_absent(fs, "provider"@);
        }
        let ek = entity_key(op@);
        assert(ek == "sceneId"@ || ek == "characterId"@ || ek == "locationId"@);
        if named_item {
            let ei = if has_provider {
                5int
            } else {
                4int
            };
            assert(fs[ei].0@ == ek);
            lemma_obj_lookup_found(fs, ek, ei);
        } else {
            lemma_obj_lookup_absent(fs, "sceneId"@);
            lemma_obj_lookup_absent(fs, "characterId"@);
            lemma_obj_lookup_absent(fs, "locationId"@);
        }
        assert forall|i: int| 0 <= i < fs.len() implies line_safe(#[trigger] fs[i].1) by {
            assert(fs[i].1 is Str || fs[i].1 is Bool);
        }
        assert(line_safe(r));
    }
    r
}

/// The dispatcher's answer after a `wfl.analyze` call: the caller-visible
/// result, and the completion event to republish when the call itself
/// failed. Success means only that the daemon accepted and queued the work;
/// an answer without `queued: true` is a dispatch failure even though no
/// analysis ran.
pub fn daemon_dispatch_outcome(
    outcome: Result<Json, DaemonError>,
    item_type: String,
    item_id: String,
) -> (r: (Result<AnalysisResult, String>, Option<AnalysisCompletedEvent>))
    ensures
        match outcome {
            Ok(v) => r.1 is None && (r.0 matches Ok(res) && res.success == (v.spec_get_bool(
                "queued"@,
            ) == Some(true)) && res.item_type == item_type && res.item_id == item_id && (res.success
                ==> res.error is None) && (!res.success ==> (res.error matches Some(e) && e@
                == "Analysis was not queued"@))),
            Err(e) => (r.0 matches Err(msg) && msg@ == "Daemon analysis failed: "@
                + e.spec_message()) && (r.1 matches Some(ev) && ev.item_type == item_type
                && ev.item_id == item_id && !ev.success && (ev.error matches Some(em) && em@
                == e.spec_message())),
        },
{
    match outcome {
        Ok(v) => {
            let queued = match v.get_bool("queued") {
                Some(b) => b,
                None => false,
            };
            let error = if queued {
                None
            } else {
                Some(String::from_str("Analysis was not queued"))
            };
            (Ok(AnalysisResult { success: queued, item_type, item_id, error }), None)
        },
        Err(e) => {
            let msg = e.message();
            let ev = AnalysisCompletedEvent {
                item_type: item_type,
                item_id: item_id,
                success: false,
                error: Some(msg.clone()),
            };
            (Err(String::from_str("Daemon analysis failed: ").concat(msg.as_str())), Some(ev))
        },
    }
}

/// The caller-visible record of one analysis dispatch. On the CLI path its
/// `success` is authoritative; on the daemon path it only reflects queuing,
/// and true completion arrives later through the bridge.
#[derive(Debug)]
pub struct AnalysisResult {
    pub success: bool,
    pub item_type: String,
    pub item_id: String,
    pub error: Option<String>,
}

// --- the CLI fallback path ---

/// The `--provider` part of the argument list: absent when none is
/// configured.
pub open spec fn provider_args(provider: Seq<char>) -> Seq<Seq<char>> {
    if provider.len() == 0 {
        Seq::empty()
    } else {
        seq!["--provider"@, provider]
    }
}

/// The CLI argument list of one analysis: `bot analyze-<entity> --save
/// [--provider <id>] <project-path> [<entity-id>]`, the screenplay-wide
/// operation taking no entity id.
pub open spec fn cli_args_for(
    entity: Seq<char>,
    provider: Seq<char>,
    path: Seq<char>,
    id: Seq<char>,
) -> Option<Seq<Seq<char>>> {
    if entity == "scene"@ || entity == "character"@ || entity == "location"@ {
        Some(
            seq!["bot"@, "analyze-"@ + entity, "--save"@] + provider_args(provider) + seq![
                path,
                id,
            ],
        )
    } else if entity == "analyze-screenplay"@ {
        Some(seq!["bot"@, "analyze-screenplay"@, "--save"@] + provider_args(provider) + seq![path])
    } else {
        None
    }
}

pub fn build_cli_args(entity_type: &str, provider: &str, path: &str, entity_id: &str) -> (r: Result<
    Vec<String>,
    String,
>)
    ensures
        match cli_args_for(entity_type@, provider@, path@, entity_id@) {
            Some(args) => r matches Ok(a) && a.deep_view() == args,
            None => r matches Err(e) && e@ == "Unknown entity type: "@ + entity_type@,
        },
{
    let single = str_eq(entity_type, "scene") || str_eq(entity_type, "character") || str_eq(
        entity_type,
        "location",
    );
    let screenplay = str_eq(entity_type, "analyze-screenplay");
    if !(single || screenplay) {
        return Err(String::from_str("Unknown entity type: ").concat(entity_type));
    }
    let mut args: Vec<String> = Vec::new();
    args.push(String::from_str("bot"));
    if single {
        args.push(String::from_str("analyze-").concat(entity_type));
    } else {
        args.push(String::from_str("analyze-screenplay"));
    }
    args.push(String::from_str("--save"));
    if !provider.is_empty() {
        args.push(String::from_str("--provider"));
        args.push(String::from_str(provider));
    }
    args.push(String::from_str(path));
    if single {
        args.push(String::from_str(entity_id));
    }
    proof {
        let expected = cli_args_for(entity_type@, provider@, path@, entity_id@)->Some_0;
        assert(args.deep_view() =~= expected);
    }
    Ok(args)
}

/// The synthetic progress event emitted for each line of CLI output: an
/// indeterminate fraction, a running status, no counts — the output lines
/// are low-fidelity progress, not parsed.
pub fn cli_progress_event(item_type: String, item_id: String) -> (r: AnalysisProgressEvent)
    ensures
        r.item_type == item_type,
        r.item_id == item_id,
        r.progress.num == -1 && r.progress.den == 1,
        r.status@ == "running"@,
        r.completed == 0 && r.total == 0,
{
    AnalysisProgressEvent {
        item_type,
        item_id,
        progress: ProgressFraction { num: -1, den: 1 },
        status: String::from_str("running"),
        completed: 0,
        total: 0,
    }
}

/// What one CLI run's exit yields: the completion event to republish, and
/// the synchronous result returned to the caller. Success is the process's
/// exit success; a failure carries the exit code (`-1` when the process was
/// ended by a signal) in both messages.
pub fn cli_completion(
    exit_success: bool,
    exit_code: Option<i32>,
    item_type: String,
    item_id: String,
) -> (r: (AnalysisCompletedEvent, AnalysisResult))
    ensures
        r.0.success == exit_success && r.1.success == exit_success,
        r.0.item_type == item_type && r.1.item_type == item_type,
        r.0.item_id == item_id && r.1.item_id == item_id,
        exit_success ==> r.0.error is None && r.1.error is None,
        !exit_success ==> (r.0.error matches Some(e) && e@ == "khaos-tools exited with code "@
            + dec_int(
            match exit_code {
                Some(c) => c as int,
                None => -1,
            },
        )),
        !exit_success ==> (r.1.error matches Some(e) && e@ == "Analysis failed with exit code "@
            + dec_int(
            match exit_code {
                Some(c) => c as int,
                None => -1,
            },
        )),
{
    let code: i64 = match exit_code {
        Some(c) => c as i64,
        None => -1,
    };
    let (ev_error, res_error) = if exit_success {
        (None, None)
    } else {
        let code_text = i64_to_dec(code);
        (
            Some(String::from_str("khaos-tools exited with code ").concat(code_text.as_str())),
            Some(String::from_str("Analysis failed with exit code ").concat(code_text.as_str())),
        )
    };
    (
        AnalysisCompletedEvent {
            item_type: item_type.clone(),
            item_id: item_id.clone(),
            success: exit_success,
            error: ev_error,
        },
        AnalysisResult { success: exit_success, item_type, item_id, error: res_error },
    )
}

/// The optimistic start event the dispatcher emits before either channel is
/// chosen.
pub fn started_event(item_type: &str, item_id: &str, operation: &str) -> (r: AnalysisStartedEvent)
    ensures
        r.item_type@ == item_type@,
        r.item_id@ == item_id@,
        r.operation@ == operation@,
{
    AnalysisStartedEvent {
        item_type: String::from_str(item_type),
        item_id: String::from_str(item_id),
        operation: String::from_str(operation),
    }
}

} // verus!
