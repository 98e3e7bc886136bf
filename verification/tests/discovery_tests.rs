use khaos_web_ui::discovery::count_entities;
use khaos_web_ui::discovery::get_tui_config_path;
use khaos_web_ui::discovery::get_ui_config_path;
use khaos_web_ui::discovery::is_kspd;
use khaos_web_ui::discovery::project_from_parts;
use khaos_web_ui::discovery::recent_capped;
use khaos_web_ui::discovery::recent_from_config;
use khaos_web_ui::discovery::scan_analysis_index;
use khaos_web_ui::discovery::search_projects;
use khaos_web_ui::discovery::update_recent;
use khaos_web_ui::json::parse_json;
use khaos_web_ui::keychain::delete_secret;
use khaos_web_ui::keychain::retrieve_secret;
use khaos_web_ui::keychain::store_secret;
use khaos_web_ui::query::dashboard_query;
use khaos_web_ui::query::encode_query_component;
use khaos_web_ui::types::Project;

fn project(title: &str, author: Option<&str>, path: &str) -> Project {
    Project {
        id: Project::id_from_path(path),
        title: title.to_string(),
        author: author.map(|a| a.to_string()),
        path: path.to_string(),
        modified: 0,
        scene_count: 0,
    }
}

#[test]
fn test_is_kspd_with_kspd_suffix() {
    assert!(is_kspd("/tmp/khaos/screenplay-1.kspd", true, false));
}

#[test]
fn test_is_kspd_with_manifest() {
    assert!(is_kspd("/tmp/khaos/draft-project", true, true));
}

#[test]
fn test_is_kspd_rejects_non_project() {
    assert!(!is_kspd("/tmp/khaos/not-a-project", true, false));
    assert!(!is_kspd("/tmp/khaos/file.kspd", false, false));
    // A bare dot-name has no extension, so only a manifest makes it a project.
    assert!(!is_kspd("/tmp/khaos/.kspd", true, false));
    assert!(is_kspd("/tmp/khaos/.kspd", true, true));
}

#[test]
fn test_project_metadata_title_from_manifest() {
    let manifest = parse_json("{\"title\":\"My Screenplay\",\"author\":\"John Doe\"}").unwrap();
    let p = project_from_parts(
        "/tmp/khaos/screenplay-1.kspd",
        "screenplay-1.kspd",
        Some(&manifest),
        1700000000,
        3,
    );
    assert_eq!(p.title, "My Screenplay");
    assert_eq!(p.author.as_deref(), Some("John Doe"));
    assert_eq!(p.scene_count, 3);
    assert_eq!(p.modified, 1700000000);
}

#[test]
fn test_project_metadata_falls_back_to_directory_name() {
    let p = project_from_parts(
        "/tmp/khaos/screenplay-1.kspd",
        "screenplay-1.kspd",
        None,
        0,
        0,
    );
    assert_eq!(p.title, "screenplay-1");
}

#[test]
fn test_id_from_path_is_stable() {
    let a = Project::id_from_path("/tmp/khaos/film.kspd");
    let b = Project::id_from_path("/tmp/khaos/film.kspd");
    let c = Project::id_from_path("/tmp/khaos/other.kspd");
    assert_eq!(a, b);
    assert_ne!(a, c);
    assert!(a.starts_with("proj_"));
}

#[test]
fn test_count_entities_array_format() {
    let v = parse_json("[{\"id\":\"s1\"},{\"id\":\"s2\"},{\"id\":\"s3\"}]").unwrap();
    assert_eq!(count_entities(&v, "scenes"), 3);
}

#[test]
fn test_count_entities_object_format() {
    let v = parse_json("{\"scenes\":[{\"id\":\"s1\"},{\"id\":\"s2\"}]}").unwrap();
    assert_eq!(count_entities(&v, "scenes"), 2);
    let other = parse_json("{\"scenes\":7}").unwrap();
    assert_eq!(count_entities(&other, "scenes"), 0);
}

#[test]
fn test_search_projects_matches_title_author_and_path() {
    let projects = vec![
        project("My Screenplay", Some("John Doe"), "/p/one.kspd"),
        project("Draft", Some("Ann"), "/p/two.kspd"),
        project("Other", None, "/archive/screenplay.kspd"),
    ];
    let by_title = search_projects(projects.clone(), "screenplay");
    assert_eq!(by_title.len(), 2);
    let by_author = search_projects(projects.clone(), "ANN");
    assert_eq!(by_author.len(), 1);
    assert_eq!(by_author[0].title, "Draft");
    let blank = search_projects(projects.clone(), "   ");
    assert_eq!(blank.len(), 3);
}

#[test]
fn test_update_recent_moves_to_front_and_caps_at_five() {
    let recent: Vec<String> = ["a", "b", "c", "d", "e"]
        .iter()
        .map(|s| s.to_string())
        .collect();
    let updated = update_recent(recent, "c".to_string());
    assert_eq!(updated, vec!["c", "a", "b", "d", "e"]);
    let recent2: Vec<String> = ["a", "b", "c", "d", "e"]
        .iter()
        .map(|s| s.to_string())
        .collect();
    let updated2 = update_recent(recent2, "z".to_string());
    assert_eq!(updated2, vec!["z", "a", "b", "c", "d"]);
}

#[test]
fn test_save_recent_projects_respects_limit() {
    let project_ids = vec![
        "proj-1".to_string(),
        "proj-2".to_string(),
        "proj-3".to_string(),
        "proj-4".to_string(),
        "proj-5".to_string(),
        "proj-6".to_string(),
        "proj-7".to_string(),
    ];
    let limited = recent_capped(&project_ids);
    assert_eq!(limited.len(), 5, "Implementation should take only first 5");
    assert_eq!(limited[0], "proj-1");
    assert_eq!(limited[4], "proj-5");
}

#[test]
fn test_recent_from_config_reads_string_items() {
    let config = parse_json("{\"recent_projects\":[\"p1\",7,\"p2\"],\"other\":1}").unwrap();
    assert_eq!(recent_from_config(&config), vec!["p1", "p2"]);
    let none = parse_json("{}").unwrap();
    assert!(recent_from_config(&none).is_empty());
}

#[test]
fn test_scan_analysis_index_nonexistent() {
    let names: Vec<String> = Vec::new();
    let index = scan_analysis_index(&names);
    assert!(index.scenes.is_empty());
    assert!(index.characters.is_empty());
    assert!(index.locations.is_empty());
}

#[test]
fn test_scan_analysis_index_with_files() {
    let names: Vec<String> = [
        "scn_001.json",
        "scn_002.json",
        "chr_001.json",
        "loc_001.json",
        "notes.txt",
    ]
    .iter()
    .map(|s| s.to_string())
    .collect();
    let index = scan_analysis_index(&names);
    assert_eq!(index.scenes.len(), 2);
    assert_eq!(index.characters.len(), 1);
    assert_eq!(index.locations.len(), 1);
    assert_eq!(index.scenes[0], "scn_001");
    assert_eq!(index.locations[0], "loc_001");
}

#[test]
fn test_projects_sorted_by_modified() {
    let mut a = project("A", None, "/p/a.kspd");
    a.modified = 10;
    let mut b = project("B", None, "/p/b.kspd");
    b.modified = 30;
    let mut c = project("C", None, "/p/c.kspd");
    c.modified = 20;
    let sorted = khaos_web_ui::discovery::sort_projects_by_modified(vec![a, b, c]);
    let titles: Vec<&str> = sorted.iter().map(|p| p.title.as_str()).collect();
    assert_eq!(titles, vec!["B", "C", "A"]);
    for i in 0..sorted.len() - 1 {
        assert!(sorted[i].modified >= sorted[i + 1].modified);
    }
}

#[test]
fn test_config_paths() {
    assert_eq!(
        get_tui_config_path("/home/u"),
        "/home/u/.config/khaos-tui/config.json"
    );
    assert_eq!(
        get_ui_config_path("/home/u"),
        "/home/u/.config/khaos-ui/config.json"
    );
}

#[test]
fn test_encode_query_component_unreserved_and_escaped() {
    assert_eq!(encode_query_component("AZaz09-._~"), "AZaz09-._~");
    assert_eq!(encode_query_component("a b/c"), "a%20b%2Fc");
    assert_eq!(encode_query_component("100%"), "100%25");
}

#[test]
fn test_dashboard_query_encodes_both_parts() {
    let q = dashboard_query("/p/my film.kspd", "My Film");
    assert_eq!(q, "project=%2Fp%2Fmy%20film.kspd&title=My%20Film");
}

#[test]
fn test_keychain_is_not_persistent_yet() {
    assert!(store_secret("k", "v").is_ok());
    assert_eq!(retrieve_secret("k"), Ok(None));
    assert!(delete_secret("k").is_ok());
}
