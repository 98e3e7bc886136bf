use khaos_web_ui::dashboard::analysis_miss;
use khaos_web_ui::dashboard::extract_array_field;
use khaos_web_ui::dashboard::parse_location_summaries;
use khaos_web_ui::dashboard::parse_scene_summaries;
use khaos_web_ui::dashboard::project_summary_from;
use khaos_web_ui::dispatch::build_analyze_params;
use khaos_web_ui::dispatch::build_cli_args;
use khaos_web_ui::dispatch::choose_channel;
use khaos_web_ui::dispatch::cli_completion;
use khaos_web_ui::dispatch::cli_progress_event;
use khaos_web_ui::dispatch::daemon_dispatch_outcome;
use khaos_web_ui::dispatch::finish_daemon_status;
use khaos_web_ui::dispatch::item_type_of_operation;
use khaos_web_ui::dispatch::offline_status;
use khaos_web_ui::dispatch::operation_for_section;
use khaos_web_ui::dispatch::status_fields_of;
use khaos_web_ui::dispatch::DispatchChannel;
use khaos_web_ui::json::parse_json;
use khaos_web_ui::protocol::DaemonError;

#[test]
fn test_unreachable_daemon_falls_back_to_cli_and_reports_exit_code() {
    // Daemon unreachable: the status snapshot says not running.
    let status = offline_status();
    assert!(!status.running);
    // The dispatcher therefore picks the CLI channel.
    assert!(matches!(choose_channel(&status), DispatchChannel::Cli));
    // It spawns the CLI with the analyze arguments...
    let args = build_cli_args("scene", "", "/p.kspd", "scn_1").unwrap();
    assert_eq!(
        args,
        vec!["bot", "analyze-scene", "--save", "/p.kspd", "scn_1"]
    );
    // ...and a non-zero exit yields a failed completion whose message names
    // the code.
    let (event, result) = cli_completion(false, Some(2), "scene".to_string(), "scn_1".to_string());
    assert!(!event.success);
    assert!(event.error.as_deref().unwrap().contains("2"));
    assert!(!result.success);
    assert_eq!(
        result.error.as_deref(),
        Some("Analysis failed with exit code 2")
    );
}

#[test]
fn test_daemon_dispatch_success_means_queued() {
    let answer = parse_json("{\"queued\":true}").unwrap();
    let (result, event) =
        daemon_dispatch_outcome(Ok(answer), "scene".to_string(), "scn_1".to_string());
    assert!(event.is_none());
    let res = result.unwrap();
    assert!(res.success);
    assert!(res.error.is_none());
}

#[test]
fn test_daemon_dispatch_not_queued_is_a_failure() {
    let answer = parse_json("{\"queued\":false}").unwrap();
    let (result, event) =
        daemon_dispatch_outcome(Ok(answer), "scene".to_string(), "scn_1".to_string());
    assert!(event.is_none());
    let res = result.unwrap();
    assert!(!res.success);
    assert_eq!(res.error.as_deref(), Some("Analysis was not queued"));
}

#[test]
fn test_daemon_dispatch_transport_failure_emits_completion() {
    let (result, event) = daemon_dispatch_outcome(
        Err(DaemonError::Unreachable),
        "scene".to_string(),
        "scn_1".to_string(),
    );
    let msg = result.unwrap_err();
    assert_eq!(msg, "Daemon analysis failed: Daemon unreachable");
    let ev = event.unwrap();
    assert!(!ev.success);
    assert_eq!(ev.error.as_deref(), Some("Daemon unreachable"));
}

#[test]
fn test_status_running_requires_matching_project() {
    let answer = parse_json(
        "{\"projectPath\":\"/home/u/film.kspd\",\"watching\":true,\"busy\":false,\"queueDepth\":2}",
    )
    .unwrap();
    let fields = status_fields_of(&answer);
    assert_eq!(fields.project_path.as_deref(), Some("/home/u/film.kspd"));
    assert!(fields.watching);
    assert!(!fields.busy);
    assert_eq!(fields.queue_depth, 2);
    let same = finish_daemon_status(
        status_fields_of(&answer),
        Some("/home/u/film.kspd".to_string()),
        "/home/u/film.kspd",
    );
    assert!(same.running);
    let other = finish_daemon_status(
        status_fields_of(&answer),
        Some("/home/u/film.kspd".to_string()),
        "/home/u/other.kspd",
    );
    assert!(!other.running);
}

#[test]
fn test_status_accepts_project_alias_key() {
    let answer = parse_json("{\"project\":\"/p.kspd\"}").unwrap();
    let fields = status_fields_of(&answer);
    assert_eq!(fields.project_path.as_deref(), Some("/p.kspd"));
    assert_eq!(fields.queue_depth, 0);
}

#[test]
fn test_operation_for_section() {
    assert_eq!(
        operation_for_section("scenes").unwrap(),
        "analyze-all-scenes"
    );
    assert_eq!(
        operation_for_section("characters").unwrap(),
        "analyze-all-characters"
    );
    assert_eq!(
        operation_for_section("locations").unwrap(),
        "analyze-all-locations"
    );
    assert_eq!(
        operation_for_section("props").unwrap_err(),
        "Unknown section: props"
    );
}

#[test]
fn test_analyze_all_started_payload_names_the_section() {
    let (operation, started) =
        khaos_web_ui::dispatch::analyze_all_start("scenes").unwrap();
    assert_eq!(operation, "analyze-all-scenes");
    assert_eq!(started.item_type, "scenes");
    assert_eq!(started.item_id, "all");
    assert_eq!(started.operation, "analyze-all-scenes");
    assert_eq!(
        khaos_web_ui::dispatch::analyze_all_start("props").unwrap_err(),
        "Unknown section: props"
    );
}

#[test]
fn test_item_type_of_operation() {
    assert_eq!(item_type_of_operation("analyze-scene"), "scene");
    assert_eq!(item_type_of_operation("analyze-all-characters"), "character");
    assert_eq!(item_type_of_operation("analyze-location"), "location");
}

#[test]
fn test_analyze_params_shape() {
    let params = build_analyze_params("/p.kspd", "analyze-scene", "openai", "scn_1");
    assert_eq!(params.get_str("projectPath").as_deref(), Some("/p.kspd"));
    assert_eq!(params.get_str("operation").as_deref(), Some("analyze-scene"));
    assert_eq!(params.get_bool("wait"), Some(false));
    assert_eq!(params.get_bool("verbose"), Some(true));
    assert_eq!(params.get_str("provider").as_deref(), Some("openai"));
    assert_eq!(params.get_str("sceneId").as_deref(), Some("scn_1"));
    assert!(params.get("characterId").is_none());
}

#[test]
fn test_analyze_params_for_all_items_name_no_entity() {
    let params = build_analyze_params("/p.kspd", "analyze-all-scenes", "", "all");
    assert!(params.get("provider").is_none());
    assert!(params.get("sceneId").is_none());
    assert!(params.get("characterId").is_none());
    assert!(params.get("locationId").is_none());
}

#[test]
fn test_cli_args_with_provider() {
    let args = build_cli_args("character", "openai", "/p.kspd", "chr_1").unwrap();
    assert_eq!(
        args,
        vec![
            "bot",
            "analyze-character",
            "--save",
            "--provider",
            "openai",
            "/p.kspd",
            "chr_1"
        ]
    );
}

#[test]
fn test_cli_args_for_screenplay_take_no_entity() {
    let args = build_cli_args("analyze-screenplay", "", "/p.kspd", "all").unwrap();
    assert_eq!(args, vec!["bot", "analyze-screenplay", "--save", "/p.kspd"]);
}

#[test]
fn test_cli_args_reject_unknown_entity() {
    assert_eq!(
        build_cli_args("prop", "", "/p.kspd", "x").unwrap_err(),
        "Unknown entity type: prop"
    );
}

#[test]
fn test_cli_progress_is_indeterminate() {
    let ev = cli_progress_event("scene".to_string(), "scn_1".to_string());
    assert_eq!((ev.progress.num, ev.progress.den), (-1, 1));
    assert_eq!(ev.progress.num as f64 / ev.progress.den as f64, -1.0);
    assert_eq!(ev.status, "running");
    assert_eq!((ev.completed, ev.total), (0, 0));
}

#[test]
fn test_analysis_miss_classification() {
    assert!(analysis_miss("scene not found"));
    assert!(analysis_miss("there is no analysis yet"));
    assert!(analysis_miss("khaos-tools exited with code 1: boom"));
    assert!(!analysis_miss("permission denied"));
}

#[test]
fn test_extract_array_field_shapes() {
    let plain = parse_json("[1,2,3]").unwrap();
    assert_eq!(extract_array_field(&plain, "scenes").unwrap().len(), 3);
    let wrapped = parse_json("{\"scenes\":[1,2]}").unwrap();
    assert_eq!(extract_array_field(&wrapped, "scenes").unwrap().len(), 2);
    let null_field = parse_json("{\"scenes\":null}").unwrap();
    assert!(extract_array_field(&null_field, "scenes").is_none());
    let not_json_array = parse_json("\"text\"").unwrap();
    assert!(extract_array_field(&not_json_array, "scenes").is_none());
}

#[test]
fn test_parse_scene_summaries_reads_fields_and_fallback_index() {
    let arr = parse_json(
        "[{\"id\":\"s1\",\"slugline\":\"INT. LAB\",\"word_count\":12,\"characters\":[\"A\",\"B\"]},\
         7,{\"id\":\"s2\",\"index\":9}]",
    )
    .unwrap();
    let items = match arr {
        khaos_web_ui::json::Json::Arr(items) => items,
        _ => panic!("expected an array"),
    };
    let scenes = parse_scene_summaries(&items);
    assert_eq!(scenes.len(), 2);
    assert_eq!(scenes[0].id, "s1");
    assert_eq!(scenes[0].index, 0);
    assert_eq!(scenes[0].slugline, "INT. LAB");
    assert_eq!(scenes[0].word_count, 12);
    assert_eq!(scenes[0].characters, vec!["A", "B"]);
    assert_eq!(scenes[1].id, "s2");
    assert_eq!(scenes[1].index, 9);
}

#[test]
fn test_parse_location_summaries() {
    let arr = parse_json("[{\"id\":\"l1\",\"name\":\"Lab\",\"scene_count\":4,\"page_count\":2}]")
        .unwrap();
    let items = match arr {
        khaos_web_ui::json::Json::Arr(items) => items,
        _ => panic!("expected an array"),
    };
    let locations = parse_location_summaries(&items);
    assert_eq!(locations.len(), 1);
    assert_eq!(locations[0].name, "Lab");
    assert_eq!(locations[0].scene_count, 4);
}

#[test]
fn test_project_summary_spellings() {
    let counts = parse_json("{\"scene_count\":3,\"characters\":5,\"statistics\":{\"locations\":2}}")
        .unwrap();
    let summary = project_summary_from(&counts);
    assert_eq!(summary.scenes, 3);
    assert_eq!(summary.characters, 5);
    assert_eq!(summary.locations, 2);
    assert_eq!(summary.compositions, 0);
}
