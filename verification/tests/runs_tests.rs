use khaos_web_ui::json::parse_json;
use khaos_web_ui::runs::completion_success_exec;
use khaos_web_ui::runs::event_matches_project;
use khaos_web_ui::runs::normalize_event;
use khaos_web_ui::runs::parse_run;
use khaos_web_ui::runs::progress_fraction;
use khaos_web_ui::runs::AppEvent;

fn run_of(text: &str) -> khaos_web_ui::runs::ParsedRun {
    parse_run(&parse_json(text).unwrap()).unwrap()
}

#[test]
fn test_parse_run_direct_fields() {
    let run = run_of(
        "{\"runId\":\"r1\",\"op\":\"analyze-scene\",\"status\":\"running\",\
         \"completed\":3,\"total\":10,\"percent\":30,\
         \"target\":{\"kind\":\"scene\",\"id\":\"scn_1\"},\"projectPath\":\"/p.kspd\"}",
    );
    assert_eq!(run.op.as_deref(), Some("analyze-scene"));
    assert_eq!(run.status.as_deref(), Some("running"));
    assert_eq!(run.completed, Some(3));
    assert_eq!(run.total, Some(10));
    assert_eq!(run.percent, Some(30));
    assert_eq!(run.target_kind.as_deref(), Some("scene"));
    assert_eq!(run.target_id.as_deref(), Some("scn_1"));
    assert_eq!(run.project_path.as_deref(), Some("/p.kspd"));
}

#[test]
fn test_parse_run_nested_fields_take_precedence() {
    let run = run_of(
        "{\"status\":\"outer\",\"run\":{\"runId\":\"r1\",\"status\":\"inner\",\
         \"project\":\"/nested.kspd\"}}",
    );
    assert_eq!(run.status.as_deref(), Some("inner"));
    assert_eq!(run.project_path.as_deref(), Some("/nested.kspd"));
}

#[test]
fn test_parse_run_nested_project_beats_direct_path() {
    // Any nested project field outranks any direct one.
    let run = run_of(
        "{\"projectPath\":\"/direct.kspd\",\"run\":{\"runId\":\"r1\",\"project\":\"/nested.kspd\"}}",
    );
    assert_eq!(run.project_path.as_deref(), Some("/nested.kspd"));
}

#[test]
fn test_parse_run_direct_fields_fill_nested_gaps() {
    let run = run_of(
        "{\"percent\":40,\"target\":{\"kind\":\"character\",\"id\":\"chr_2\"},\
         \"run\":{\"runId\":\"r1\"}}",
    );
    assert_eq!(run.percent, Some(40));
    assert_eq!(run.target_kind.as_deref(), Some("character"));
    assert_eq!(run.target_id.as_deref(), Some("chr_2"));
}

#[test]
fn test_parse_run_without_run_id_is_discarded() {
    let data = parse_json("{\"op\":\"analyze-scene\",\"run\":{\"status\":\"x\"}}").unwrap();
    assert!(parse_run(&data).is_none());
    let data2 = parse_json("{\"status\":\"done\"}").unwrap();
    assert!(parse_run(&data2).is_none());
}

#[test]
fn test_discarded_run_is_never_republished() {
    let data = parse_json("{\"op\":\"analyze-scene\"}").unwrap();
    match parse_run(&data) {
        None => (),
        Some(_) => panic!("an event without a run identity must be discarded"),
    }
}

#[test]
fn test_progress_prefers_percent() {
    let f = progress_fraction(Some(50), Some(7), Some(9));
    assert_eq!((f.num, f.den), (50, 100));
    let as_float = f.num as f64 / f.den as f64;
    assert_eq!(as_float, 0.5);
}

#[test]
fn test_progress_falls_back_to_ratio() {
    let f = progress_fraction(None, Some(3), Some(10));
    assert_eq!((f.num, f.den), (3, 10));
    let as_float = f.num as f64 / f.den as f64;
    assert_eq!(as_float, 0.3);
}

#[test]
fn test_progress_defaults_to_zero() {
    let f = progress_fraction(None, None, None);
    assert_eq!((f.num, f.den), (0, 1));
    let g = progress_fraction(None, Some(4), Some(0));
    assert_eq!((g.num, g.den), (0, 1));
    assert_eq!(g.num as f64 / g.den as f64, 0.0);
}

#[test]
fn test_completion_status_mapping() {
    assert!(!completion_success_exec("Failed"));
    assert!(!completion_success_exec("ERROR"));
    assert!(!completion_success_exec("cancelled"));
    assert!(!completion_success_exec("canceled"));
    assert!(completion_success_exec(""));
    assert!(completion_success_exec("done"));
    assert!(completion_success_exec("Completed"));
}

#[test]
fn test_project_match_is_reflexive() {
    let canon = "/home/u/projects/film.kspd".to_string();
    assert!(event_matches_project(&Some(canon.clone()), &canon));
}

#[test]
fn test_event_without_project_is_global() {
    assert!(event_matches_project(&None, "/home/u/projects/film.kspd"));
}

#[test]
fn test_event_for_other_project_is_filtered() {
    let other = Some("/home/u/projects/other.kspd".to_string());
    assert!(!event_matches_project(&other, "/home/u/projects/film.kspd"));
}

#[test]
fn test_normalize_started_event() {
    let run = run_of("{\"runId\":\"r\",\"op\":\"analyze-scene\",\"target\":{\"kind\":\"scene\",\"id\":\"scn_1\"}}");
    match normalize_event("wfl.analysis.started", run, &None, "/p.kspd") {
        Some(AppEvent::Started(ev)) => {
            assert_eq!(ev.item_type, "scene");
            assert_eq!(ev.item_id, "scn_1");
            assert_eq!(ev.operation, "analyze-scene");
        }
        _ => panic!("expected a started event"),
    }
}

#[test]
fn test_normalize_started_defaults() {
    let run = run_of("{\"runId\":\"r\"}");
    match normalize_event("wfl.analysis.queued", run, &None, "/p.kspd") {
        Some(AppEvent::Started(ev)) => {
            assert_eq!(ev.item_type, "unknown");
            assert_eq!(ev.item_id, "all");
            assert_eq!(ev.operation, "analysis");
        }
        _ => panic!("expected a started event"),
    }
}

#[test]
fn test_normalize_progress_event() {
    let run = run_of("{\"runId\":\"r\",\"completed\":3,\"total\":10}");
    match normalize_event("wfl.analysis.progress", run, &None, "/p.kspd") {
        Some(AppEvent::Progress(ev)) => {
            assert_eq!((ev.progress.num, ev.progress.den), (3, 10));
            assert_eq!(ev.status, "running");
            assert_eq!(ev.completed, 3);
            assert_eq!(ev.total, 10);
        }
        _ => panic!("expected a progress event"),
    }
}

#[test]
fn test_normalize_completed_failure_carries_status() {
    let run = run_of("{\"runId\":\"r\",\"status\":\"Failed\"}");
    match normalize_event("wfl.analysis.completed", run, &None, "/p.kspd") {
        Some(AppEvent::Completed(ev)) => {
            assert!(!ev.success);
            assert_eq!(ev.error.as_deref(), Some("Failed"));
        }
        _ => panic!("expected a completed event"),
    }
}

#[test]
fn test_normalize_completed_success_has_no_error() {
    let run = run_of("{\"runId\":\"r\"}");
    match normalize_event("wfl.analysis.completed", run, &None, "/p.kspd") {
        Some(AppEvent::Completed(ev)) => {
            assert!(ev.success);
            assert!(ev.error.is_none());
        }
        _ => panic!("expected a completed event"),
    }
}

#[test]
fn test_normalize_filters_foreign_project() {
    let run = run_of("{\"runId\":\"r\",\"projectPath\":\"/other.kspd\"}");
    let canon = Some("/other.kspd".to_string());
    assert!(normalize_event("wfl.analysis.progress", run, &canon, "/p.kspd").is_none());
}

#[test]
fn test_normalize_ignores_unknown_topics() {
    let run = run_of("{\"runId\":\"r\"}");
    assert!(normalize_event("wfl.parser.progress", run, &None, "/p.kspd").is_none());
}
