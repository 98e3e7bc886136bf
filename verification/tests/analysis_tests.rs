use khaos_web_ui::analysis::character_analysis_from_json;
use khaos_web_ui::analysis::location_analysis_from_json;
use khaos_web_ui::analysis::scene_analysis_from_json;
use khaos_web_ui::dashboard::find_location;
use khaos_web_ui::dashboard::find_scene;
use khaos_web_ui::json::parse_json;
use khaos_web_ui::types::LocationSummary;
use khaos_web_ui::types::SceneSummary;

fn scene_record() -> String {
    let lists = [
        "themes",
        "plot_beats",
        "speaking_chars",
        "non_speaking_chars",
        "non_speaking_details",
        "callbacks",
        "continues_from",
        "sets_up",
        "strengths",
        "development_areas",
        "visual_symbols",
    ];
    let mut out = String::from("{\"title\":\"Opening\",\"summary\":null,\"pacing\":\"fast\"");
    for key in lists {
        out.push_str(&format!(",\"{}\":[\"x\"]", key));
    }
    out.push('}');
    out
}

#[test]
fn test_scene_analysis_reads_fields() {
    let value = parse_json(&scene_record()).unwrap();
    let analysis = scene_analysis_from_json(&value).unwrap();
    assert_eq!(analysis.title.as_deref(), Some("Opening"));
    assert!(analysis.summary.is_none());
    assert_eq!(analysis.pacing.as_deref(), Some("fast"));
    assert_eq!(analysis.themes, vec!["x"]);
    assert_eq!(analysis.visual_symbols, vec!["x"]);
    assert!(analysis.stakes.is_none());
}

#[test]
fn test_scene_analysis_rejects_wrong_shapes() {
    // A list field missing entirely.
    let missing = parse_json("{\"title\":\"Opening\"}").unwrap();
    assert!(scene_analysis_from_json(&missing).is_err());
    // A string field of the wrong type.
    let bad = parse_json(&scene_record().replace("\"fast\"", "7")).unwrap();
    assert!(scene_analysis_from_json(&bad).is_err());
    // Not an object at all.
    let not_obj = parse_json("[1]").unwrap();
    assert!(scene_analysis_from_json(&not_obj).is_err());
}

#[test]
fn test_character_analysis_reads_fields() {
    let lists = [
        "key_turning_points",
        "traits",
        "goals",
        "conflicts",
        "vulnerabilities",
        "relationships",
        "dialogue_patterns",
        "themes",
        "symbolic_elements",
    ];
    let mut text = String::from("{\"summary\":\"Lead role\",\"arc\":\"rise\"");
    for key in lists {
        text.push_str(&format!(",\"{}\":[]", key));
    }
    text.push('}');
    let value = parse_json(&text).unwrap();
    let analysis = character_analysis_from_json(&value).unwrap();
    assert_eq!(analysis.summary.as_deref(), Some("Lead role"));
    assert_eq!(analysis.arc.as_deref(), Some("rise"));
    assert!(analysis.traits.is_empty());
    assert!(analysis.genre_fit.is_none());
}

#[test]
fn test_location_analysis_reads_fields() {
    let lists = [
        "traits",
        "changes",
        "plot_anchors",
        "symbols",
        "themes",
        "character_connections",
    ];
    let mut text = String::from("{\"atmosphere\":\"cold\"");
    for key in lists {
        text.push_str(&format!(",\"{}\":[\"a\",\"b\"]", key));
    }
    text.push('}');
    let value = parse_json(&text).unwrap();
    let analysis = location_analysis_from_json(&value).unwrap();
    assert_eq!(analysis.atmosphere.as_deref(), Some("cold"));
    assert_eq!(analysis.symbols, vec!["a", "b"]);
    let bad = parse_json(&text.replace("[\"a\",\"b\"]", "[1]")).unwrap();
    assert!(location_analysis_from_json(&bad).is_err());
}

#[test]
fn test_find_scene_by_id() {
    let scene = |id: &str| SceneSummary {
        id: id.to_string(),
        index: 0,
        slugline: String::new(),
        duration: String::new(),
        word_count: 0,
        line_count: 0,
        characters: vec![],
    };
    let scenes = vec![scene("s1"), scene("s2")];
    assert_eq!(find_scene(scenes, "s2").unwrap().id, "s2");
    let scenes2 = vec![scene("s1")];
    assert!(find_scene(scenes2, "missing").is_none());
}

#[test]
fn test_find_location_by_id() {
    let location = |id: &str| LocationSummary {
        id: id.to_string(),
        name: String::new(),
        scene_count: 0,
        page_count: 0,
    };
    let locations = vec![location("l1"), location("l2")];
    assert_eq!(find_location(locations, "l1").unwrap().id, "l1");
}
