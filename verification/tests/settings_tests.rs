use khaos_web_ui::discovery::config_path;
use khaos_web_ui::json::parse_json;
use khaos_web_ui::settings::check_api_key;
use khaos_web_ui::settings::effective_model;
use khaos_web_ui::settings::model_listed;
use khaos_web_ui::settings::ollama_status_from;
use khaos_web_ui::settings::render_settings;
use khaos_web_ui::settings::settings_from_json;
use khaos_web_ui::settings::validate_provider;
use khaos_web_ui::types::ProviderInfo;
use khaos_web_ui::types::SettingsConfig;

#[test]
fn test_check_api_key_mock_provider() {
    let result = check_api_key("mock", false);
    assert!(result.is_ok());
    assert!(result.unwrap());
}

#[test]
fn test_check_api_key_ollama_provider() {
    let result = check_api_key("ollama", false);
    assert!(result.is_ok());
    assert!(result.unwrap());
}

#[test]
fn test_check_api_key_unknown_provider() {
    let result = check_api_key("nonexistent", false);
    assert!(result.is_err());
}

#[test]
fn test_check_api_key_reports_environment() {
    assert_eq!(check_api_key("openai", true), Ok(true));
    assert_eq!(check_api_key("openai", false), Ok(false));
}

#[test]
fn test_provider_info_all_has_six_providers() {
    assert_eq!(ProviderInfo::all().len(), 6);
}

#[test]
fn test_provider_info_find_valid() {
    assert!(ProviderInfo::find("ollama").is_some());
    assert!(ProviderInfo::find("openai").is_some());
    assert!(ProviderInfo::find("mock").is_some());
}

#[test]
fn test_provider_info_find_invalid() {
    assert!(ProviderInfo::find("nonexistent").is_none());
}

#[test]
fn test_settings_config_default() {
    let config = SettingsConfig::default();
    assert_eq!(config.provider, "ollama");
    assert!(config.model.is_none());
    assert!(config.projects_root.is_none());
}

#[test]
fn test_validate_provider_mock() {
    let config = SettingsConfig {
        provider: "mock".to_string(),
        model: None,
        projects_root: None,
    };
    let result = validate_provider(&config, false, None);
    assert!(result.valid);
    assert!(result.errors.is_empty());
}

#[test]
fn test_validate_provider_unknown() {
    let config = SettingsConfig {
        provider: "nonexistent".to_string(),
        model: None,
        projects_root: None,
    };
    let result = validate_provider(&config, false, None);
    assert!(!result.valid);
    assert!(!result.errors.is_empty());
}

#[test]
fn test_validate_provider_missing_key() {
    let config = SettingsConfig {
        provider: "openai".to_string(),
        model: None,
        projects_root: None,
    };
    let result = validate_provider(&config, false, None);
    assert!(!result.valid);
    assert!(result.errors[0].contains("OPENAI_API_KEY"));
}

#[test]
fn test_effective_model_prefers_configured() {
    let provider = ProviderInfo::find("ollama").unwrap();
    let mut config = SettingsConfig::default();
    assert_eq!(effective_model(&config, &provider), "qwen3");
    config.model = Some("llama3".to_string());
    assert_eq!(effective_model(&config, &provider), "llama3");
}

#[test]
fn test_model_listed_token_and_tag() {
    let lines = vec![
        "NAME            ID      SIZE".to_string(),
        "qwen3:latest    abc     4 GB".to_string(),
        "phi4            def     2 GB".to_string(),
        "  indented      ghi     1 GB".to_string(),
    ];
    assert!(model_listed(&lines, "qwen3"));
    assert!(model_listed(&lines, "phi4"));
    assert!(model_listed(&lines, "indented"));
    assert!(!model_listed(&lines, "qwen"));
    assert!(!model_listed(&lines, "mistral"));
}

#[test]
fn test_ollama_status_not_installed() {
    let status = ollama_status_from(false, None, "qwen3");
    assert!(!status.installed);
    assert!(!status.model_available);
    assert_eq!(status.error.as_deref(), Some("Ollama is not installed"));
}

#[test]
fn test_ollama_status_model_missing() {
    let status = ollama_status_from(true, Some(Ok(false)), "qwen3");
    assert!(status.installed);
    assert!(!status.model_available);
    assert_eq!(
        status.error.as_deref(),
        Some("Model 'qwen3' not found. Run: ollama pull qwen3")
    );
}

#[test]
fn test_save_and_load_roundtrip() {
    let config = SettingsConfig {
        provider: "openai".to_string(),
        model: Some("gpt-4o-mini".to_string()),
        projects_root: Some("/tmp/projects".to_string()),
    };
    let content = render_settings(config);
    let value = parse_json(&content).unwrap();
    let loaded = settings_from_json(&value).unwrap();
    assert_eq!(loaded.provider, "openai");
    assert_eq!(loaded.model, Some("gpt-4o-mini".to_string()));
    assert_eq!(loaded.projects_root, Some("/tmp/projects".to_string()));
}

#[test]
fn test_settings_missing_provider_is_rejected() {
    let value = parse_json("{\"model\":\"m\"}").unwrap();
    assert!(settings_from_json(&value).is_err());
}

#[test]
fn test_config_path_is_json() {
    let path = config_path("/home/someone");
    assert!(path.ends_with("config.json"));
    assert_eq!(path, "/home/someone/.khaos-ui/config.json");
}
