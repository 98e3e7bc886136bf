//! Normalization of daemon analysis events: extracting a run description
//! from an event payload, the project-identity filter, and the mapping onto
//! the application's own event shapes.

use vstd::prelude::*;

use crate::json::Json;
use crate::strutil::lower_seq;
use crate::strutil::str_eq;
use crate::strutil::string_eq;
use crate::strutil::to_lower;
use vstd::string::StringExecFns;

verus! {

/// The run description carried by an analysis event, tolerating two payload
/// shapes: fields directly on the payload, or nested one level under `run`,
/// with nested fields taking precedence.
pub struct ParsedRun {
    pub op: Option<String>,
    pub status: Option<String>,
    pub completed: Option<i64>,
    pub total: Option<i64>,
    pub percent: Option<i64>,
    pub target_kind: Option<String>,
    pub target_id: Option<String>,
    pub project_path: Option<String>,
}

pub ghost struct RunView {
    pub op: Option<Seq<char>>,
    pub status: Option<Seq<char>>,
    pub completed: Option<i64>,
    pub total: Option<i64>,
    pub percent: Option<i64>,
    pub target_kind: Option<Seq<char>>,
    pub target_id: Option<Seq<char>>,
    pub project_path: Option<Seq<char>>,
}

pub open spec fn opt_view(o: Option<String>) -> Option<Seq<char>> {
    match o {
        Some(s) => Some(s@),
        None => None,
    }
}

impl View for ParsedRun {
    type V = RunView;

    open spec fn view(&self) -> RunView {
        RunView {
            op: opt_view(self.op),
            status: opt_view(self.status),
            completed: self.completed,
            total: self.total,
            percent: self.percent,
            target_kind: opt_view(self.target_kind),
            target_id: opt_view(self.target_id),
            project_path: opt_view(self.project_path),
        }
    }
}

// --- the two-shape extraction ---

/// The object the run fields are read from first: the value under `run` when
/// it is an object, else the payload itself.
pub open spec fn run_base(data: Json) -> Json {
    match data.spec_get("run"@) {
        Some(r) => if r is Obj {
            r
        } else {
            data
        },
        None => data,
    }
}

/// A string field read from `base` first, then from `data` when `base` gives
/// no string under the key.
pub open spec fn str_fallback(base: Json, data: Json, key: Seq<char>) -> Option<Seq<char>> {
    match base.spec_get_str(key) {
        Some(s) => Some(s),
        None => data.spec_get_str(key),
    }
}

pub open spec fn int_fallback(base: Json, data: Json, key: Seq<char>) -> Option<i64> {
    match base.spec_get_i64(key) {
        Some(n) => Some(n),
        None => data.spec_get_i64(key),
    }
}

/// The target object: `base.target` when it is an object, else `data.target`
/// when that is an object.
pub open spec fn target_of(base: Json, data: Json) -> Option<Json> {
    match base.spec_get("target"@) {
        Some(t) => if t is Obj {
            Some(t)
        } else {
            target_of_data(data)
        },
        None => target_of_data(data),
    }
}

pub open spec fn target_of_data(data: Json) -> Option<Json> {
    match data.spec_get("target"@) {
        Some(t) => if t is Obj {
            Some(t)
        } else {
            None
        },
        None => None,
    }
}

/// A run identity is present when `runId` is a string on `base` — or, when
/// `base` has no `runId` at all, on `data`.
pub open spec fn run_id_present(data: Json) -> bool {
    match run_base(data).spec_get("runId"@) {
        Some(v) => v is Str,
        None => match data.spec_get("runId"@) {
            Some(v) => v is Str,
            None => false,
        },
    }
}

/// The run a payload denotes, or `None` when no run identity can be found —
/// such an event is discarded and never republished.
pub open spec fn spec_parse_run(data: Json) -> Option<RunView> {
    if !run_id_present(data) {
        None
    } else {
        let base = run_base(data);
        let target = target_of(base, data);
        Some(
            RunView {
                op: str_fallback(base, data, "op"@),
                status: str_fallback(base, data, "status"@),
                completed: int_fallback(base, data, "completed"@),
                total: int_fallback(base, data, "total"@),
                percent: int_fallback(base, data, "percent"@),
                target_kind: match target {
                    Some(t) => t.spec_get_str("kind"@),
                    None => None,
                },
                target_id: match target {
                    Some(t) => t.spec_get_str("id"@),
                    None => None,
                },
                project_path: match base.spec_get_str("projectPath"@) {
                    Some(p) => Some(p),
                    None => match base.spec_get_str("project"@) {
                        Some(p) => Some(p),
                        None => match data.spec_get_str("projectPath"@) {
                            Some(p) => Some(p),
                            None => data.spec_get_str("project"@),
                        },
                    },
                },
            },
        )
    }
}

/// Law: an event payload without a run identity — no string `runId` directly
/// on the payload nor nested under `run` — denotes no run, so it is never
/// turned into a normalized application event.
pub proof fn lemma_run_without_id_is_discarded(data: Json)
    requires
        run_base(data).spec_get_str("runId"@) is None,
        data.spec_get_str("runId"@) is None,
    ensures
        spec_parse_run(data) is None,
{
}

fn get_str_or(base: &Json, data: &Json, key: &str) -> (r: Option<String>)
    ensures
        match r {
            Some(s) => str_fallback(*base, *data, key@) == Some(s@),
            None => str_fallback(*base, *data, key@) is None,
        },
{
    match base.get_str(key) {
        Some(s) => Some(s),
        None => data.get_str(key),
    }
}

fn get_i64_or(base: &Json, data: &Json, key: &str) -> (r: Option<i64>)
    ensures
        r == int_fallback(*base, *data, key@),
{
    match base.get_i64(key) {
        Some(n) => Some(n),
        None => data.get_i64(key),
    }
}

/// Extracts the run description from one event payload, or discards the
/// event when neither the payload nor its `run` object carries a `runId`.
pub fn parse_run(data: &Json) -> (r: Option<ParsedRun>)
    ensures
        match r {
            Some(run) => spec_parse_run(*data) == Some(run@),
            None => spec_parse_run(*data) is None,
        },
{
    let base: &Json = match data.get("run") {
        Some(r) => {
            if r.is_obj() {
                r
            } else {
                data
            }
        },
        None => data,
    };
    proof {
        assert(*base == run_base(*data));
    }
    let id_present = match base.get("runId") {
        Some(v) => v.as_str().is_some(),
        None => match data.get("runId") {
            Some(v) => v.as_str().is_some(),
            None => false,
        },
    };
    if !id_present {
        return None;
    }
    let target: Option<&Json> = match base.get("target") {
        Some(t) => {
            if t.is_obj() {
                Some(t)
            } else {
                match data.get("target") {
                    Some(t2) => {
                        if t2.is_obj() {
                            Some(t2)
                        } else {
                            None
                        }
                    },
                    None => None,
                }
            }
        },
        None => match data.get("target") {
            Some(t2) => {
                if t2.is_obj() {
                    Some(t2)
                } else {
                    None
                }
            },
            None => None,
        },
    };
    let project_path = match base.get_str("projectPath") {
        Some(p) => Some(p),
        None => match base.get_str("project") {
            Some(p) => Some(p),
            None => match data.get_str("projectPath") {
                Some(p) => Some(p),
                None => data.get_str("project"),
            },
        },
    };
    Some(
        ParsedRun {
            op: get_str_or(base, data, "op"),
            status: get_str_or(base, data, "status"),
            completed: get_i64_or(base, data, "completed"),
            total: get_i64_or(base, data, "total"),
            percent: get_i64_or(base, data, "percent"),
            target_kind: match target {
                Some(t) => t.get_str("kind"),
                None => None,
            },
            target_id: match target {
                Some(t) => t.get_str("id"),
                None => None,
            },
            project_path,
        },
    )
}

// --- the project-identity filter ---

/// Attribution of an event to the requested project, over canonicalized
/// paths (symlinks resolved by the caller): an event carrying no project
/// path is global and always accepted; otherwise the canonical paths must be
/// equal.
pub open spec fn project_matches(event_canon: Option<Seq<char>>, requested_canon: Seq<char>) -> bool {
    match event_canon {
        None => true,
        Some(p) => p == requested_canon,
    }
}

pub fn event_matches_project(event_canon: &Option<String>, requested_canon: &str) -> (r: bool)
    ensures
        r == project_matches(opt_view(*event_canon), requested_canon@),
{
    match event_canon {
        None => true,
        Some(p) => str_eq(p.as_str(), requested_canon),
    }
}

/// Law: a project path, canonicalized once, always matches itself —
/// canonicalization is one fixed function of the filesystem, so whatever
/// form a path was written in, the two sides reduce to the same canonical
/// text and the comparison succeeds.
pub proof fn lemma_project_match_reflexive(canon: Seq<char>)
    ensures
        project_matches(Some(canon), canon),
{
}

// --- progress and completion ---

/// An exact progress fraction (the application may render it as a float).
/// `num = -1, den = 1` is the indeterminate marker of the CLI fallback path.
pub struct ProgressFraction {
    pub num: i64,
    pub den: i64,
}

/// The progress fraction of a run: an explicit percent wins over the
/// completed/total ratio, and with neither (or a zero total) progress is
/// zero.
pub open spec fn progress_of(
    percent: Option<i64>,
    completed: Option<i64>,
    total: Option<i64>,
) -> (i64, i64) {
    match percent {
        Some(p) => (p, 100),
        None => {
            let t = match total {
                Some(t) => t,
                None => 0,
            };
            let c = match completed {
                Some(c) => c,
                None => 0,
            };
            if t > 0 {
                (c, t)
            } else {
                (0, 1)
            }
        },
    }
}

pub fn progress_fraction(percent: Option<i64>, completed: Option<i64>, total: Option<i64>) -> (r:
    ProgressFraction)
    ensures
        (r.num, r.den) == progress_of(percent, completed, total),
        r.den > 0,
{
    match percent {
        Some(p) => ProgressFraction { num: p, den: 100 },
        None => {
            let t = match total {
                Some(t) => t,
                None => 0,
            };
            let c = match completed {
                Some(c) => c,
                None => 0,
            };
            if t > 0 {
                ProgressFraction { num: c, den: t }
            } else {
                ProgressFraction { num: 0, den: 1 }
            }
        },
    }
}

/// Completion success: the status does not spell failure. The comparison
/// folds ASCII case, so `"Failed"`, `"ERROR"`, `"cancelled"` and
/// `"canceled"` all spell failure, and any other status — the empty string
/// included — spells success.
pub open spec fn completion_success(status: Seq<char>) -> bool {
    !(lower_seq(status) == "failed"@ || lower_seq(status) == "error"@ || lower_seq(status)
        == "cancelled"@ || lower_seq(status) == "canceled"@)
}

pub fn completion_success_exec(status: &str) -> (r: bool)
    ensures
        r == completion_success(status@),
{
    let low = to_lower(status);
    !(string_eq(&low, "failed") || string_eq(&low, "error") || string_eq(&low, "cancelled")
        || string_eq(&low, "canceled"))
}

// --- the normalized application events ---

/// Payload republished when analysis starts.
#[derive(Debug)]
pub struct AnalysisStartedEvent {
    pub item_type: String,
    pub item_id: String,
    pub operation: String,
}

/// Payload republished as analysis progresses. The fraction is exact; the
/// application may render it as a float.
pub struct AnalysisProgressEvent {
    pub item_type: String,
    pub item_id: String,
    pub progress: ProgressFraction,
    pub status: String,
    pub completed: usize,
    pub total: usize,
}

/// Payload republished when analysis completes.
pub struct AnalysisCompletedEvent {
    pub item_type: String,
    pub item_id: String,
    pub success: bool,
    pub error: Option<String>,
}

/// One normalized event, by category; the category fixes the application
/// topic it is republished under, independent of the daemon topic string.
pub enum AppEvent {
    Started(AnalysisStartedEvent),
    Progress(AnalysisProgressEvent),
    Completed(AnalysisCompletedEvent),
}

/// The category a daemon topic maps to.
pub enum TopicClass {
    Started,
    Progress,
    Completed,
    Other,
}

pub open spec fn topic_class(t: Seq<char>) -> TopicClass {
    if t == "wfl.analysis.started"@ || t == "wfl.analysis.queued"@ {
        TopicClass::Started
    } else if t == "wfl.analysis.progress"@ || t == "wfl.analysis.active"@ {
        TopicClass::Progress
    } else if t == "wfl.analysis.completed"@ {
        TopicClass::Completed
    } else {
        TopicClass::Other
    }
}

pub open spec fn or_str(o: Option<Seq<char>>, d: Seq<char>) -> Seq<char> {
    match o {
        Some(s) => s,
        None => d,
    }
}

pub open spec fn or_i64(o: Option<i64>, d: i64) -> i64 {
    match o {
        Some(n) => n,
        None => d,
    }
}

pub open spec fn clamp_to_usize(c: i64) -> usize {
    if c < 0 {
        0usize
    } else if c as int > usize::MAX as int {
        usize::MAX
    } else {
        c as usize
    }
}

fn or_string(o: Option<String>, d: &str) -> (r: String)
    ensures
        r@ == or_str(opt_view(o), d@),
{
    match o {
        Some(s) => s,
        None => String::from_str(d),
    }
}

/// A count fits the platform word, negatives reading as zero.
pub fn i64_to_usize_clamped(c: i64) -> (r: usize)
    ensures
        r == clamp_to_usize(c),
{
    if c < 0 {
        0
    } else if (c as u64) > (usize::MAX as u64) {
        usize::MAX
    } else {
        c as usize
    }
}

/// Maps one analysis event onto the application event it is republished as:
/// started/queued to Started, progress/active to Progress, completed to
/// Completed, anything else to nothing. The project filter runs over the
/// canonicalized project path of the run (`event_canon`), which the caller
/// derives; an event with no project path is global and passes. Unknown
/// fields fall back to a generic operation label, the target sentinel
/// `"all"`, a `"running"` status, and a `"completed"` status on completion;
/// a failing completion status becomes the error detail.
pub fn normalize_event(
    topic: &str,
    run: ParsedRun,
    event_canon: &Option<String>,
    requested_canon: &str,
) -> (r: Option<AppEvent>)
    ensures
        !project_matches(opt_view(*event_canon), requested_canon@) ==> r is None,
        topic_class(topic@) is Other ==> r is None,
        (project_matches(opt_view(*event_canon), requested_canon@) && topic_class(
            topic@,
        ) is Started) ==> (r matches Some(ev) && ev matches AppEvent::Started(s) && s.item_type@
            == or_str(run@.target_kind, "unknown"@) && s.item_id@ == or_str(run@.target_id, "all"@)
            && s.operation@ == or_str(run@.op, "analysis"@)),
        (project_matches(opt_view(*event_canon), requested_canon@) && topic_class(
            topic@,
        ) is Progress) ==> (r matches Some(ev) && ev matches AppEvent::Progress(p) && p.item_type@
            == or_str(run@.target_kind, "unknown"@) && p.item_id@ == or_str(run@.target_id, "all"@)
            && (p.progress.num, p.progress.den) == progress_of(
            run@.percent,
            run@.completed,
            run@.total,
        ) && p.status@ == or_str(run@.status, "running"@) && p.completed == clamp_to_usize(
            or_i64(run@.completed, 0),
        ) && p.total == clamp_to_usize(or_i64(run@.total, 0))),
        (project_matches(opt_view(*event_canon), requested_canon@) && topic_class(
            topic@,
        ) is Completed) ==> (r matches Some(ev) && ev matches AppEvent::Completed(c) && c.item_type@
            == or_str(run@.target_kind, "unknown"@) && c.item_id@ == or_str(run@.target_id, "all"@)
            && c.success == completion_success(or_str(run@.status, "completed"@)) && (c.success
            ==> c.error is None) && (!c.success ==> (c.error matches Some(e) && e@ == or_str(
            run@.status,
            "completed"@,
        )))),
{
    let started = str_eq(topic, "wfl.analysis.started") || str_eq(topic, "wfl.analysis.queued");
    let progress = str_eq(topic, "wfl.analysis.progress") || str_eq(topic, "wfl.analysis.active");
    let completed_t = str_eq(topic, "wfl.analysis.completed");
    if !(started || progress || completed_t) {
        return None;
    }
    if !event_matches_project(event_canon, requested_canon) {
        return None;
    }
    let item_type = or_string(run.target_kind, "unknown");
    let item_id = or_string(run.target_id, "all");
    if started {
        let operation = or_string(run.op, "analysis");
        Some(AppEvent::Started(AnalysisStartedEvent { item_type, item_id, operation }))
    } else if progress {
        let fraction = progress_fraction(run.percent, run.completed, run.total);
        let status = or_string(run.status, "running");
        let completed_n = i64_to_usize_clamped(
            match run.completed {
                Some(c) => c,
                None => 0,
            },
        );
        let total_n = i64_to_usize_clamped(
            match run.total {
                Some(t) => t,
                None => 0,
            },
        );
        Some(
            AppEvent::Progress(
                AnalysisProgressEvent {
                    item_type,
                    item_id,
                    progress: fraction,
                    status,
                    completed: completed_n,
                    total: total_n,
                },
            ),
        )
    } else {
        let status = or_string(run.status, "completed");
        let success = completion_success_exec(status.as_str());
        let error = if success {
            None
        } else {
            Some(status)
        };
        Some(AppEvent::Completed(AnalysisCompletedEvent { item_type, item_id, success, error }))
    }
}

} // verus!
