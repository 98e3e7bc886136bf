//! Decoding saved analysis records: the strict readers that turn one JSON
//! answer into a typed scene, character or location analysis. Every optional
//! field must be a string or null, every list field must be present and hold
//! only strings — anything else fails the read, as the reference reader
//! fails it.

use vstd::prelude::*;

use crate::discovery::strings_of;
use crate::json::Json;
use crate::runs::opt_view;
use crate::types::CharacterAnalysis;
use crate::types::LocationAnalysis;
use crate::types::SceneAnalysis;
use vstd::string::StringExecFns;

verus! {

/// The field under `key` is absent, null, or a string.
pub open spec fn opt_str_field_ok(j: Json, key: Seq<char>) -> bool {
    match j.spec_get(key) {
        None => true,
        Some(Json::Null) => true,
        Some(Json::Str(_)) => true,
        Some(_) => false,
    }
}

/// The string under `key`, if one is there.
pub open spec fn opt_str_field_view(j: Json, key: Seq<char>) -> Option<Seq<char>> {
    j.spec_get_str(key)
}

fn opt_str_field(j: &Json, key: &str) -> (r: Result<Option<String>, ()>)
    ensures
        r matches Ok(o) ==> opt_str_field_ok(*j, key@) && opt_view(o) == opt_str_field_view(
            *j,
            key@,
        ),
        r is Err ==> !opt_str_field_ok(*j, key@),
{
    match j.get(key) {
        None => Ok(None),
        Some(Json::Null) => Ok(None),
        Some(Json::Str(s)) => Ok(Some(s.clone())),
        Some(_) => Err(()),
    }
}

pub open spec fn all_strings(items: Seq<Json>) -> bool {
    forall|i: int| 0 <= i < items.len() ==> (#[trigger] items[i]) is Str
}

/// The field under `key` is an array of strings (a required field: its
/// absence fails the read).
pub open spec fn str_vec_field_ok(j: Json, key: Seq<char>) -> bool {
    match j.spec_get(key) {
        Some(v) => v is Arr && all_strings(v->Arr_0@),
        _ => false,
    }
}

pub open spec fn str_vec_field_view(j: Json, key: Seq<char>) -> Seq<Seq<char>> {
    match j.spec_get(key) {
        Some(v) => if v is Arr {
            strings_of(v->Arr_0@)
        } else {
            Seq::empty()
        },
        None => Seq::empty(),
    }
}

fn str_vec_field(j: &Json, key: &str) -> (r: Result<Vec<String>, ()>)
    ensures
        r matches Ok(v) ==> str_vec_field_ok(*j, key@) && v.deep_view() == str_vec_field_view(
            *j,
            key@,
        ),
        r is Err ==> !str_vec_field_ok(*j, key@),
{
    let items: &Vec<Json> = match j.get(key) {
        Some(Json::Arr(items)) => items,
        _ => {
            return Err(());
        },
    };
    let n = items.len();
    let mut out: Vec<String> = Vec::new();
    let mut i: usize = 0;
    proof {
        assert(items@.subrange(0, n as int) =~= items@);
    }
    while i < n
        invariant
            i <= n,
            n == items@.len(),
            j.spec_get(key@) matches Some(v) && v is Arr && v->Arr_0 == *items,
            forall|k: int| 0 <= k < i ==> (#[trigger] items@[k]) is Str,
            strings_of(items@) == out.deep_view() + strings_of(
                items@.subrange(i as int, n as int),
            ),
        decreases n - i,
    {
        proof {
            assert(items@.subrange(i as int, n as int)[0] == items@[i as int]);
            assert(items@.subrange(i as int, n as int).subrange(1, (n - i) as int)
                =~= items@.subrange(i + 1, n as int));
        }
        match items[i].as_str() {
            Some(s) => {
                out.push(s.clone());
                proof {
                    assert(out.deep_view() =~= out.deep_view().subrange(
                        0,
                        out.deep_view().len() - 1,
                    ) + seq![items@[i as int]->Str_0@]);
                }
            },
            None => {
                return Err(());
            },
        }
        i += 1;
    }
    proof {
        assert(strings_of(items@.subrange(n as int, n as int)) =~= Seq::<Seq<char>>::empty());
        assert(out.deep_view() =~= strings_of(items@));
    }
    Ok(out)
}

// --- scene analysis ---

/// The answer decodes as a scene analysis.
pub open spec fn scene_analysis_ok(j: Json) -> bool {
    &&& j is Obj
    &&& opt_str_field_ok(j, "title"@)
    &&& opt_str_field_ok(j, "scene_number"@)
    &&& opt_str_field_ok(j, "summary"@)
    &&& opt_str_field_ok(j, "narrative_role"@)
    &&& opt_str_field_ok(j, "emotional_tone"@)
    &&& opt_str_field_ok(j, "stakes"@)
    &&& str_vec_field_ok(j, "themes"@)
    &&& opt_str_field_ok(j, "theme_details"@)
    &&& str_vec_field_ok(j, "plot_beats"@)
    &&& opt_str_field_ok(j, "heading"@)
    &&& opt_str_field_ok(j, "pacing"@)
    &&& opt_str_field_ok(j, "estimated_runtime"@)
    &&& opt_str_field_ok(j, "length_pages"@)
    &&& opt_str_field_ok(j, "scene_type"@)
    &&& opt_str_field_ok(j, "time_of_day"@)
    &&& opt_str_field_ok(j, "genre_tone"@)
    &&& opt_str_field_ok(j, "style_notes"@)
    &&& str_vec_field_ok(j, "speaking_chars"@)
    &&& str_vec_field_ok(j, "non_speaking_chars"@)
    &&& str_vec_field_ok(j, "non_speaking_details"@)
    &&& str_vec_field_ok(j, "callbacks"@)
    &&& str_vec_field_ok(j, "continues_from"@)
    &&& str_vec_field_ok(j, "sets_up"@)
    &&& str_vec_field_ok(j, "strengths"@)
    &&& str_vec_field_ok(j, "development_areas"@)
    &&& str_vec_field_ok(j, "visual_symbols"@)
    &&& opt_str_field_ok(j, "location_significance"@)
}

/// The decoded record reads each field off the answer.
pub open spec fn scene_analysis_matches(j: Json, a: SceneAnalysis) -> bool {
    &&& opt_view(a.title) == opt_str_field_view(j, "title"@)
    &&& opt_view(a.scene_number) == opt_str_field_view(j, "scene_number"@)
    &&& opt_view(a.summary) == opt_str_field_view(j, "summary"@)
    &&& opt_view(a.narrative_role) == opt_str_field_view(j, "narrative_role"@)
    &&& opt_view(a.emotional_tone) == opt_str_field_view(j, "emotional_tone"@)
    &&& opt_view(a.stakes) == opt_str_field_view(j, "stakes"@)
    &&& a.themes.deep_view() == str_vec_field_view(j, "themes"@)
    &&& opt_view(a.theme_details) == opt_str_field_view(j, "theme_details"@)
    &&& a.plot_beats.deep_view() == str_vec_field_view(j, "plot_beats"@)
    &&& opt_view(a.heading) == opt_str_field_view(j, "heading"@)
    &&& opt_view(a.pacing) == opt_str_field_view(j, "pacing"@)
    &&& opt_view(a.estimated_runtime) == opt_str_field_view(j, "estimated_runtime"@)
    &&& opt_view(a.length_pages) == opt_str_field_view(j, "length_pages"@)
    &&& opt_view(a.scene_type) == opt_str_field_view(j, "scene_type"@)
    &&& opt_view(a.time_of_day) == opt_str_field_view(j, "time_of_day"@)
    &&& opt_view(a.genre_tone) == opt_str_field_view(j, "genre_tone"@)
    &&& opt_view(a.style_notes) == opt_str_field_view(j, "style_notes"@)
    &&& a.speaking_chars.deep_view() == str_vec_field_view(j, "speaking_chars"@)
    &&& a.non_speaking_chars.deep_view() == str_vec_field_view(j, "non_speaking_chars"@)
    &&& a.non_speaking_details.deep_view() == str_vec_field_view(j, "non_speaking_details"@)
    &&& a.callbacks.deep_view() == str_vec_field_view(j, "callbacks"@)
    &&& a.continues_from.deep_view() == str_vec_field_view(j, "continues_from"@)
    &&& a.sets_up.deep_view() == str_vec_field_view(j, "sets_up"@)
    &&& a.strengths.deep_view() == str_vec_field_view(j, "strengths"@)
    &&& a.development_areas.deep_view() == str_vec_field_view(j, "development_areas"@)
    &&& a.visual_symbols.deep_view() == str_vec_field_view(j, "visual_symbols"@)
    &&& opt_view(a.location_significance) == opt_str_field_view(j, "location_significance"@)
}

/// Reads a scene analysis out of a query answer, failing exactly when the
/// answer does not have the record's shape.
pub fn scene_analysis_from_json(j: &Json) -> (r: Result<SceneAnalysis, String>)
    ensures
        r is Ok <==> scene_analysis_ok(*j),
        r matches Ok(a) ==> scene_analysis_matches(*j, a),
        r matches Err(e) ==> e@ == "Failed to parse scene analysis"@,
{
    if !j.is_obj() {
        return Err(String::from_str("Failed to parse scene analysis"));
    }
    match scene_analysis_read(j) {
        Ok(a) => Ok(a),
        Err(()) => Err(String::from_str("Failed to parse scene analysis")),
    }
}

fn scene_analysis_read(j: &Json) -> (r: Result<SceneAnalysis, ()>)
    requires
        j is Obj,
    ensures
        r is Ok <==> scene_analysis_ok(*j),
        r matches Ok(a) ==> scene_analysis_matches(*j, a),
{
    let title = opt_str_field(j, "title")?;
    let scene_number = opt_str_field(j, "scene_number")?;
    let summary = opt_str_field(j, "summary")?;
    let narrative_role = opt_str_field(j, "narrative_role")?;
    let emotional_tone = opt_str_field(j, "emotional_tone")?;
    let stakes = opt_str_field(j, "stakes")?;
    let themes = str_vec_field(j, "themes")?;
    let theme_details = opt_str_field(j, "theme_details")?;
    let plot_beats = str_vec_field(j, "plot_beats")?;
    let heading = opt_str_field(j, "heading")?;
    let pacing = opt_str_field(j, "pacing")?;
    let estimated_runtime = opt_str_field(j, "estimated_runtime")?;
    let length_pages = opt_str_field(j, "length_pages")?;
    let scene_type = opt_str_field(j, "scene_type")?;
    let time_of_day = opt_str_field(j, "time_of_day")?;
    let genre_tone = opt_str_field(j, "genre_tone")?;
    let style_notes = opt_str_field(j, "style_notes")?;
    let speaking_chars = str_vec_field(j, "speaking_chars")?;
    let non_speaking_chars = str_vec_field(j, "non_speaking_chars")?;
    let non_speaking_details = str_vec_field(j, "non_speaking_details")?;
    let callbacks = str_vec_field(j, "callbacks")?;
    let continues_from = str_vec_field(j, "continues_from")?;
    let sets_up = str_vec_field(j, "sets_up")?;
    let strengths = str_vec_field(j, "strengths")?;
    let development_areas = str_vec_field(j, "development_areas")?;
    let visual_symbols = str_vec_field(j, "visual_symbols")?;
    let location_significance = opt_str_field(j, "location_significance")?;
    Ok(
        SceneAnalysis {
            title,
            scene_number,
            summary,
            narrative_role,
            emotional_tone,
            stakes,
            themes,
            theme_details,
            plot_beats,
            heading,
            pacing,
            estimated_runtime,
            length_pages,
            scene_type,
            time_of_day,
            genre_tone,
            style_notes,
            speaking_chars,
            non_speaking_chars,
            non_speaking_details,
            callbacks,
            continues_from,
            sets_up,
            strengths,
            development_areas,
            visual_symbols,
            location_significance,
        },
    )
}

// --- character analysis ---

pub open spec fn character_analysis_ok(j: Json) -> bool {
    &&& j is Obj
    &&& opt_str_field_ok(j, "summary"@)
    &&& opt_str_field_ok(j, "arc"@)
    &&& opt_str_field_ok(j, "emotional_journey"@)
    &&& opt_str_field_ok(j, "end_state"@)
    &&& opt_str_field_ok(j, "arc_quality"@)
    &&& str_vec_field_ok(j, "key_turning_points"@)
    &&& str_vec_field_ok(j, "traits"@)
    &&& str_vec_field_ok(j, "goals"@)
    &&& str_vec_field_ok(j, "conflicts"@)
    &&& opt_str_field_ok(j, "background"@)
    &&& opt_str_field_ok(j, "stakes"@)
    &&& opt_str_field_ok(j, "contradictions"@)
    &&& str_vec_field_ok(j, "vulnerabilities"@)
    &&& str_vec_field_ok(j, "relationships"@)
    &&& opt_str_field_ok(j, "dialogue_voice"@)
    &&& opt_str_field_ok(j, "dialogue_function"@)
    &&& str_vec_field_ok(j, "dialogue_patterns"@)
    &&& opt_str_field_ok(j, "dialogue_subtext"@)
    &&& str_vec_field_ok(j, "themes"@)
    &&& opt_str_field_ok(j, "thematic_role"@)
    &&& str_vec_field_ok(j, "symbolic_elements"@)
    &&& opt_str_field_ok(j, "narrative_role"@)
    &&& opt_str_field_ok(j, "narrative_importance"@)
    &&& opt_str_field_ok(j, "narrative_plot_function"@)
    &&& opt_str_field_ok(j, "genre_fit"@)
}

pub open spec fn character_analysis_matches(j: Json, a: CharacterAnalysis) -> bool {
    &&& opt_view(a.summary) == opt_str_field_view(j, "summary"@)
    &&& opt_view(a.arc) == opt_str_field_view(j, "arc"@)
    &&& opt_view(a.emotional_journey) == opt_str_field_view(j, "emotional_journey"@)
    &&& opt_view(a.end_state) == opt_str_field_view(j, "end_state"@)
    &&& opt_view(a.arc_quality) == opt_str_field_view(j, "arc_quality"@)
    &&& a.key_turning_points.deep_view() == str_vec_field_view(j, "key_turning_points"@)
    &&& a.traits.deep_view() == str_vec_field_view(j, "traits"@)
    &&& a.goals.deep_view() == str_vec_field_view(j, "goals"@)
    &&& a.conflicts.deep_view() == str_vec_field_view(j, "conflicts"@)
    &&& opt_view(a.background) == opt_str_field_view(j, "background"@)
    &&& opt_view(a.stakes) == opt_str_field_view(j, "stakes"@)
    &&& opt_view(a.contradictions) == opt_str_field_view(j, "contradictions"@)
    &&& a.vulnerabilities.deep_view() == str_vec_field_view(j, "vulnerabilities"@)
    &&& a.relationships.deep_view() == str_vec_field_view(j, "relationships"@)
    &&& opt_view(a.dialogue_voice) == opt_str_field_view(j, "dialogue_voice"@)
    &&& opt_view(a.dialogue_function) == opt_str_field_view(j, "dialogue_function"@)
    &&& a.dialogue_patterns.deep_view() == str_vec_field_view(j, "dialogue_patterns"@)
    &&& opt_view(a.dialogue_subtext) == opt_str_field_view(j, "dialogue_subtext"@)
    &&& a.themes.deep_view() == str_vec_field_view(j, "themes"@)
    &&& opt_view(a.thematic_role) == opt_str_field_view(j, "thematic_role"@)
    &&& a.symbolic_elements.deep_view() == str_vec_field_view(j, "symbolic_elements"@)
    &&& opt_view(a.narrative_role) == opt_str_field_view(j, "narrative_role"@)
    &&& opt_view(a.narrative_importance) == opt_str_field_view(j, "narrative_importance"@)
    &&& opt_view(a.narrative_plot_function) == opt_str_field_view(j, "narrative_plot_function"@)
    &&& opt_view(a.genre_fit) == opt_str_field_view(j, "genre_fit"@)
}

/// Reads a character analysis out of a query answer.
pub fn character_analysis_from_json(j: &Json) -> (r: Result<CharacterAnalysis, String>)
    ensures
        r is Ok <==> character_analysis_ok(*j),
        r matches Ok(a) ==> character_analysis_matches(*j, a),
        r matches Err(e) ==> e@ == "Failed to parse character analysis"@,
{
    if !j.is_obj() {
        return Err(String::from_str("Failed to parse character analysis"));
    }
    match character_analysis_read(j) {
        Ok(a) => Ok(a),
        Err(()) => Err(String::from_str("Failed to parse character analysis")),
    }
}

fn character_analysis_read(j: &Json) -> (r: Result<CharacterAnalysis, ()>)
    requires
        j is Obj,
    ensures
        r is Ok <==> character_analysis_ok(*j),
        r matches Ok(a) ==> character_analysis_matches(*j, a),
{
    let summary = opt_str_field(j, "summary")?;
    let arc = opt_str_field(j, "arc")?;
    let emotional_journey = opt_str_field(j, "emotional_journey")?;
    let end_state = opt_str_field(j, "end_state")?;
    let arc_quality = opt_str_field(j, "arc_quality")?;
    let key_turning_points = str_vec_field(j, "key_turning_points")?;
    let traits = str_vec_field(j, "traits")?;
    let goals = str_vec_field(j, "goals")?;
    let conflicts = str_vec_field(j, "conflicts")?;
    let background = opt_str_field(j, "background")?;
    let stakes = opt_str_field(j, "stakes")?;
    let contradictions = opt_str_field(j, "contradictions")?;
    let vulnerabilities = str_vec_field(j, "vulnerabilities")?;
    let relationships = str_vec_field(j, "relationships")?;
    let dialogue_voice = opt_str_field(j, "dialogue_voice")?;
    let dialogue_function = opt_str_field(j, "dialogue_function")?;
    let dialogue_patterns = str_vec_field(j, "dialogue_patterns")?;
    let dialogue_subtext = opt_str_field(j, "dialogue_subtext")?;
    let themes = str_vec_field(j, "themes")?;
    let thematic_role = opt_str_field(j, "thematic_role")?;
    let symbolic_elements = str_vec_field(j, "symbolic_elements")?;
    let narrative_role = opt_str_field(j, "narrative_role")?;
    let narrative_importance = opt_str_field(j, "narrative_importance")?;
    let narrative_plot_function = opt_str_field(j, "narrative_plot_function")?;
    let genre_fit = opt_str_field(j, "genre_fit")?;
    Ok(
        CharacterAnalysis {
            summary,
            arc,
            emotional_journey,
            end_state,
            arc_quality,
            key_turning_points,
            traits,
            goals,
            conflicts,
            background,
            stakes,
            contradictions,
            vulnerabilities,
            relationships,
            dialogue_voice,
            dialogue_function,
            dialogue_patterns,
            dialogue_subtext,
            themes,
            thematic_role,
            symbolic_elements,
            narrative_role,
            narrative_importance,
            narrative_plot_function,
            genre_fit,
        },
    )
}

// --- location analysis ---

pub open spec fn location_analysis_ok(j: Json) -> bool {
    &&& j is Obj
    &&& opt_str_field_ok(j, "summary"@)
    &&& opt_str_field_ok(j, "atmosphere"@)
    &&& opt_str_field_ok(j, "environment"@)
    &&& opt_str_field_ok(j, "visual_context"@)
    &&& opt_str_field_ok(j, "significance"@)
    &&& str_vec_field_ok(j, "traits"@)
    &&& str_vec_field_ok(j, "changes"@)
    &&& opt_str_field_ok(j, "narrative_role"@)
    &&& opt_str_field_ok(j, "story_role"@)
    &&& str_vec_field_ok(j, "plot_anchors"@)
    &&& str_vec_field_ok(j, "symbols"@)
    &&& str_vec_field_ok(j, "themes"@)
    &&& opt_str_field_ok(j, "thematic_role"@)
    &&& opt_str_field_ok(j, "location_type"@)
    &&& opt_str_field_ok(j, "region"@)
    &&& opt_str_field_ok(j, "classification"@)
    &&& str_vec_field_ok(j, "character_connections"@)
    &&& opt_str_field_ok(j, "production_notes"@)
    &&& opt_str_field_ok(j, "structural_observations"@)
}

pub open spec fn location_analysis_matches(j: Json, a: LocationAnalysis) -> bool {
    &&& opt_view(a.summary) == opt_str_field_view(j, "summary"@)
    &&& opt_view(a.atmosphere) == opt_str_field_view(j, "atmosphere"@)
    &&& opt_view(a.environment) == opt_str_field_view(j, "environment"@)
    &&& opt_view(a.visual_context) == opt_str_field_view(j, "visual_context"@)
    &&& opt_view(a.significance) == opt_str_field_view(j, "significance"@)
    &&& a.traits.deep_view() == str_vec_field_view(j, "traits"@)
    &&& a.changes.deep_view() == str_vec_field_view(j, "changes"@)
    &&& opt_view(a.narrative_role) == opt_str_field_view(j, "narrative_role"@)
    &&& opt_view(a.story_role) == opt_str_field_view(j, "story_role"@)
    &&& a.plot_anchors.deep_view() == str_vec_field_view(j, "plot_anchors"@)
    &&& a.symbols.deep_view() == str_vec_field_view(j, "symbols"@)
    &&& a.themes.deep_view() == str_vec_field_view(j, "themes"@)
    &&& opt_view(a.thematic_role) == opt_str_field_view(j, "thematic_role"@)
    &&& opt_view(a.location_type) == opt_str_field_view(j, "location_type"@)
    &&& opt_view(a.region) == opt_str_field_view(j, "region"@)
    &&& opt_view(a.classification) == opt_str_field_view(j, "classification"@)
    &&& a.character_connections.deep_view() == str_vec_field_view(j, "character_connections"@)
    &&& opt_view(a.production_notes) == opt_str_field_view(j, "production_notes"@)
    &&& opt_view(a.structural_observations) == opt_str_field_view(j, "structural_observations"@)
}

/// Reads a location analysis out of a query answer.
pub fn location_analysis_from_json(j: &Json) -> (r: Result<LocationAnalysis, String>)
    ensures
        r is Ok <==> location_analysis_ok(*j),
        r matches Ok(a) ==> location_analysis_matches(*j, a),
        r matches Err(e) ==> e@ == "Failed to parse location analysis"@,
{
    if !j.is_obj() {
        return Err(String::from_str("Failed to parse location analysis"));
    }
    match location_analysis_read(j) {
        Ok(a) => Ok(a),
        Err(()) => Err(String::from_str("Failed to parse location analysis")),
    }
}

fn location_analysis_read(j: &Json) -> (r: Result<LocationAnalysis, ()>)
    requires
        j is Obj,
    ensures
        r is Ok <==> location_analysis_ok(*j),
        r matches Ok(a) ==> location_analysis_matches(*j, a),
{
    let summary = opt_str_field(j, "summary")?;
    let atmosphere = opt_str_field(j, "atmosphere")?;
    let environment = opt_str_field(j, "environment")?;
    let visual_context = opt_str_field(j, "visual_context")?;
    let significance = opt_str_field(j, "significance")?;
    let traits = str_vec_field(j, "traits")?;
    let changes = str_vec_field(j, "changes")?;
    let narrative_role = opt_str_field(j, "narrative_role")?;
    let story_role = opt_str_field(j, "story_role")?;
    let plot_anchors = str_vec_field(j, "plot_anchors")?;
    let symbols = str_vec_field(j, "symbols")?;
    let themes = str_vec_field(j, "themes")?;
    let thematic_role = opt_str_field(j, "thematic_role")?;
    let location_type = opt_str_field(j, "location_type")?;
    let region = opt_str_field(j, "region")?;
    let classification = opt_str_field(j, "classification")?;
    let character_connections = str_vec_field(j, "character_connections")?;
    let production_notes = opt_str_field(j, "production_notes")?;
    let structural_observations = opt_str_field(j, "structural_observations")?;
    Ok(
        LocationAnalysis {
            summary,
            atmosphere,
            environment,
            visual_context,
            significance,
            traits,
            changes,
            narrative_role,
            story_role,
            plot_anchors,
            symbols,
            themes,
            thematic_role,
            location_type,
            region,
            classification,
            character_connections,
            production_notes,
            structural_observations,
        },
    )
}

} // verus!
