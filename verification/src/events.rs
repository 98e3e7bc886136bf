//! The application's internal event bus: the remaining payload shapes and
//! the fixed topic names normalized events are republished under.

use vstd::prelude::*;

use crate::runs::ProgressFraction;
use vstd::string::StringExecFns;

verus! {

/// Payload streamed while a parse runs. The fraction is exact; the
/// application may render it as a float.
pub struct ParserProgressEvent {
    pub request_id: String,
    pub phase: String,
    pub progress: ProgressFraction,
    pub line: Option<String>,
}

/// One streamed output line of a parse run as a progress payload: the fixed
/// `parsing` phase, the indeterminate fraction, and the line verbatim.
pub fn parser_progress_event(request_id: String, line: Option<String>) -> (r: ParserProgressEvent)
    ensures
        r.request_id == request_id,
        r.phase@ == "parsing"@,
        r.progress.num == -1 && r.progress.den == 1,
        r.line == line,
{
    ParserProgressEvent {
        request_id,
        phase: String::from_str("parsing"),
        progress: ProgressFraction { num: -1, den: 1 },
        line,
    }
}

/// Payload emitted when a parse run completes.
pub struct ParserCompletedEvent {
    pub request_id: String,
    pub success: bool,
    pub project_id: Option<String>,
    pub error: Option<String>,
}

/// Payload emitted when settings change.
pub struct SettingsChangedEvent {
    pub provider: String,
    pub model: Option<String>,
}

/// Payload emitted when a project is selected.
pub struct ProjectSelectedEvent {
    pub project_title: String,
    pub project_path: String,
}

/// The bus topic analysis-started events are republished under.
pub fn topic_analysis_started() -> (r: &'static str)
    ensures
        r@ == "daemon:analysis-started"@,
{
    "daemon:analysis-started"
}

/// The bus topic analysis-progress events are republished under.
pub fn topic_analysis_progress() -> (r: &'static str)
    ensures
        r@ == "daemon:analysis-progress"@,
{
    "daemon:analysis-progress"
}

/// The bus topic analysis-completed events are republished under.
pub fn topic_analysis_completed() -> (r: &'static str)
    ensures
        r@ == "daemon:analysis-completed"@,
{
    "daemon:analysis-completed"
}

/// The bus topic parse progress is streamed under.
pub fn topic_parser_progress() -> (r: &'static str)
    ensures
        r@ == "daemon:parser-progress"@,
{
    "daemon:parser-progress"
}

/// The bus topic parse completion is reported under.
pub fn topic_parser_completed() -> (r: &'static str)
    ensures
        r@ == "daemon:parser-completed"@,
{
    "daemon:parser-completed"
}

/// The bus topic settings changes are announced under.
pub fn topic_settings_changed() -> (r: &'static str)
    ensures
        r@ == "app:settings-changed"@,
{
    "app:settings-changed"
}

/// The bus topic project selection is announced under.
pub fn topic_project_selected() -> (r: &'static str)
    ensures
        r@ == "app:project-selected"@,
{
    "app:project-selected"
}

} // verus!
