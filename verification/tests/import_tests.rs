use khaos_web_ui::import::check_collision;
use khaos_web_ui::import::generate_suggested_names;
use khaos_web_ui::import::normalize_project_filename;
use khaos_web_ui::import::parse_outcome;
use khaos_web_ui::import::resolve_target_path;
use khaos_web_ui::import::validate_import_file;
use khaos_web_ui::import::validate_title;

#[test]
fn test_validate_title_empty() {
    assert!(validate_title("").is_err());
    assert!(validate_title("   ").is_err());
}

#[test]
fn test_validate_title_too_long() {
    let long_title = "a".repeat(256);
    assert!(validate_title(&long_title).is_err());
}

#[test]
fn test_validate_title_valid() {
    assert!(validate_title("My Screenplay").is_ok());
    assert!(validate_title("a").is_ok());
    assert!(validate_title(&"a".repeat(255)).is_ok());
}

#[test]
fn test_normalize_project_filename() {
    assert_eq!(normalize_project_filename("My Project"), "My_Project");
    assert_eq!(normalize_project_filename("My Project!"), "My_Project!");
    assert_eq!(normalize_project_filename("Test <file>"), "Test__file");
    assert_eq!(normalize_project_filename("a/b\\c:d"), "a_b_c_d");
    assert_eq!(normalize_project_filename("hello   world"), "hello_world");
}

#[test]
fn test_normalize_project_filename_special_chars() {
    assert_eq!(
        normalize_project_filename("test<>:\"/\\|?*end"),
        "test_________end"
    );
}

#[test]
fn test_normalize_project_filename_trimming() {
    assert_eq!(normalize_project_filename("  *hello*  "), "hello");
}

#[test]
fn test_normalize_project_filename_empty() {
    assert_eq!(normalize_project_filename(""), "project");
    assert_eq!(normalize_project_filename("***"), "project");
}

#[test]
fn test_resolve_target_path() {
    let result = resolve_target_path("/tmp/projects", "My Screenplay").unwrap();
    assert_eq!(result, "/tmp/projects/My_Screenplay.kspd");
}

#[test]
fn test_resolve_target_path_normalizes() {
    let result = resolve_target_path("/home/user/projects", "Test: File").unwrap();
    assert_eq!(result, "/home/user/projects/Test__File.kspd");
}

#[test]
fn test_validate_import_file_nonexistent() {
    let result = validate_import_file("/nonexistent/file.fountain", false, false);
    assert!(result.is_err());
    assert!(result.unwrap_err().contains("File not found"));
}

#[test]
fn test_validate_import_file_wrong_extension() {
    let result = validate_import_file("/tmp/khaos_import_test/test.txt", true, false);
    assert!(result.is_err());
    assert!(result.unwrap_err().contains("Unsupported file type"));
}

#[test]
fn test_validate_import_file_directory() {
    let result = validate_import_file("/tmp/khaos_import_test_dir", true, true);
    assert!(result.is_err());
    assert!(result.unwrap_err().contains("not a directory"));
}

#[test]
fn test_validate_import_file_valid() {
    for ext in &["fountain", "fdx", "sbx", "md"] {
        let path = format!("/tmp/khaos_import_test_valid/test.{}", ext);
        assert!(
            validate_import_file(&path, true, false).is_ok(),
            "Should accept .{} files",
            ext
        );
    }
}

#[test]
fn test_validate_import_file_upper_case_extension() {
    assert!(validate_import_file("/tmp/script.FOUNTAIN", true, false).is_ok());
    assert!(validate_import_file("/tmp/script.Md", true, false).is_ok());
}

#[test]
fn test_validate_import_file_no_extension() {
    let result = validate_import_file("/tmp/script", true, false);
    assert!(result.is_err());
    assert!(result.unwrap_err().contains("Unsupported file type \"\""));
}

#[test]
fn test_validate_import_file_empty_path() {
    assert!(validate_import_file("", false, false).is_err());
}

#[test]
fn test_check_collision_no_collision() {
    assert!(!check_collision("/nonexistent/path.kspd", false, false));
}

#[test]
fn test_check_collision_kspd_directory() {
    assert!(check_collision("/tmp/projects/My_Screenplay.kspd", true, false));
    assert!(check_collision("/tmp/projects/plain-dir", true, true));
    assert!(!check_collision("/tmp/projects/plain-dir", true, false));
    assert!(!check_collision("/tmp/projects/file.kspd", false, false));
}

#[test]
fn test_generate_suggested_names() {
    let taken: Vec<String> = Vec::new();
    let suggestions = generate_suggested_names("My Project", &taken, 3);
    assert_eq!(suggestions.len(), 3);
    assert_eq!(suggestions[0], "My_Project_1");
    assert_eq!(suggestions[1], "My_Project_2");
    assert_eq!(suggestions[2], "My_Project_3");
}

#[test]
fn test_generate_suggested_names_skips_existing() {
    let taken = vec!["My_Project_1".to_string()];
    let suggestions = generate_suggested_names("My Project", &taken, 3);
    assert_eq!(suggestions.len(), 3);
    assert_eq!(suggestions[0], "My_Project_2");
    assert_eq!(suggestions[1], "My_Project_3");
    assert_eq!(suggestions[2], "My_Project_4");
}

#[test]
fn test_parse_outcome_success_names_project() {
    let r = parse_outcome(true, Some(0), "/tmp/projects/Out.kspd");
    assert!(r.success);
    assert!(r.error.is_none());
    assert_eq!(r.output_path.as_deref(), Some("/tmp/projects/Out.kspd"));
    let id = r.project_id.unwrap();
    assert!(id.starts_with("proj_"));
}

#[test]
fn test_parse_outcome_failure_reports_code() {
    let r = parse_outcome(false, Some(3), "/tmp/projects/Out.kspd");
    assert!(!r.success);
    assert!(r.project_id.is_none());
    assert_eq!(
        r.error.as_deref(),
        Some("khaos-tools exited with code 3")
    );
}
