//! Shared data types of the application layer: projects, settings,
//! providers, dashboard summaries and analysis records.

use vstd::prelude::*;

use crate::strutil::hex_of;
use crate::strutil::u64_to_hex;
use vstd::string::StringExecFns;
use vstd::string::StringSliceAdditionalSpecFns;

verus! {

#[derive(Debug, Clone, PartialEq, Eq)]
pub struct Project {
    pub id: String,
    pub title: String,
    pub author: Option<String>,
    pub path: String,
    /// Unix timestamp of the last modification.
    pub modified: i64,
    pub scene_count: usize,
}

/// The manifest found in a project directory.
#[derive(Debug, Clone)]
pub struct ProjectManifest {
    pub title: Option<String>,
    pub author: Option<String>,
    pub description: Option<String>,
}

// --- a stable id from a project path ---

/// One step of the 64-bit FNV-1a fold.
pub open spec fn fnv1a_step(h: u64, b: u8) -> u64 {
    ((((h ^ (b as u64)) as int) * 0x100000001b3) % 0x10000000000000000) as u64
}

/// The 64-bit FNV-1a fold of a byte sequence.
pub open spec fn fnv1a_of(bytes: Seq<u8>) -> u64
    decreases bytes.len(),
{
    if bytes.len() == 0 {
        0xcbf29ce484222325u64
    } else {
        fnv1a_step(fnv1a_of(bytes.subrange(0, bytes.len() - 1)), bytes[bytes.len() - 1])
    }
}

/// The FNV-1a fold of a byte slice.
pub fn fnv1a(bytes: &[u8]) -> (r: u64)
    ensures
        r == fnv1a_of(bytes@),
{
    let n = bytes.len();
    let mut h: u64 = 0xcbf29ce484222325;
    let mut i: usize = 0;
    proof {
        assert(bytes@.subrange(0, 0) =~= Seq::<u8>::empty());
    }
    while i < n
        invariant
            i <= n,
            n == bytes@.len(),
            h == fnv1a_of(bytes@.subrange(0, i as int)),
        decreases n - i,
    {
        let b = bytes[i];
        h = (h ^ (b as u64)).wrapping_mul(0x100000001b3);
        proof {
            assert(bytes@.subrange(0, i + 1).subrange(0, i as int) =~= bytes@.subrange(
                0,
                i as int,
            ));
            assert(bytes@.subrange(0, i + 1)[i as int] == bytes@[i as int]);
        }
        i += 1;
    }
    proof {
        assert(bytes@.subrange(0, n as int) =~= bytes@);
    }
    h
}

impl Project {
    /// A stable id derived from the project path alone: a fixed 64-bit fold
    /// of its bytes, rendered in lower-case hex under a `proj_` prefix. The
    /// same path always gives the same id within and across runs.
    pub fn id_from_path(path: &str) -> (r: String)
        ensures
            r@ == "proj_"@ + hex_of(fnv1a_of(path.spec_bytes()) as nat),
    {
        let h = fnv1a(path.as_bytes());
        String::from_str("proj_").concat(u64_to_hex(h).as_str())
    }
}

#[derive(Debug, Clone)]
pub struct SystemInfo {
    pub platform: String,
    pub arch: String,
    pub daemon_connected: bool,
}

/// Raised by the import wizard when a project already sits at the target
/// path.
#[derive(Debug, Clone)]
pub struct CollisionInfo {
    pub existing_path: String,
    pub suggested_names: Vec<String>,
}

#[derive(Debug, Clone)]
pub struct ImportResult {
    pub success: bool,
    pub project_id: Option<String>,
    pub output_path: Option<String>,
    pub error: Option<String>,
}

#[derive(Debug, Clone)]
pub struct DaemonCheckResult {
    pub reachable: bool,
    pub version: Option<String>,
    pub error: Option<String>,
}

#[derive(Debug, Clone)]
pub struct ProviderValidationResult {
    pub valid: bool,
    pub checks_run: Vec<String>,
    pub errors: Vec<String>,
}

// --- settings ---

#[derive(Debug, Clone)]
pub struct SettingsConfig {
    pub provider: String,
    pub model: Option<String>,
    pub projects_root: Option<String>,
}

impl Default for SettingsConfig {
    /// The out-of-the-box settings: the local provider, no pinned model, no
    /// project-root override.
    fn default() -> (r: Self)
        ensures
            r.provider@ == "ollama"@,
            r.model is None,
            r.projects_root is None,
    {
        SettingsConfig { provider: String::from_str("ollama"), model: None, projects_root: None }
    }
}

#[derive(Debug, Clone)]
pub struct ProviderInfo {
    pub id: String,
    pub title: String,
    pub description: String,
    pub default_model: String,
    pub requires_key: bool,
    pub env_var: Option<String>,
}

/// Does a provider ask for an API key from the environment?
pub open spec fn provider_requires_key(id: Seq<char>) -> bool {
    id == "openai"@ || id == "mistralai"@ || id == "anthropic"@ || id == "groq"@
}

/// The environment variable a provider's key is read from.
pub open spec fn provider_env_var(id: Seq<char>) -> Option<Seq<char>> {
    if id == "openai"@ {
        Some("OPENAI_API_KEY"@)
    } else if id == "mistralai"@ {
        Some("MISTRALAI_API_KEY"@)
    } else if id == "anthropic"@ {
        Some("ANTHROPIC_API_KEY"@)
    } else if id == "groq"@ {
        Some("GROQ_API_KEY"@)
    } else {
        None
    }
}

/// The model used when the settings pin none.
pub open spec fn provider_default_model(id: Seq<char>) -> Seq<char> {
    if id == "ollama"@ {
        "qwen3"@
    } else if id == "openai"@ {
        "gpt-4o"@
    } else if id == "mistralai"@ {
        "mistral-large-latest"@
    } else if id == "anthropic"@ {
        "anthropic-latest"@
    } else if id == "groq"@ {
        "llama-3.3-70b-versatile"@
    } else {
        "mock-model"@
    }
}

/// A known provider id.
pub open spec fn provider_known(id: Seq<char>) -> bool {
    id == "ollama"@ || id == "openai"@ || id == "mistralai"@ || id == "anthropic"@ || id == "groq"@
        || id == "mock"@
}

/// The display title of a provider.
pub open spec fn provider_title(id: Seq<char>) -> Seq<char> {
    if id == "ollama"@ {
        "Ollama"@
    } else if id == "openai"@ {
        "OpenAI"@
    } else if id == "mistralai"@ {
        "Mistral AI"@
    } else if id == "anthropic"@ {
        "Anthropic"@
    } else if id == "groq"@ {
        "Groq"@
    } else {
        "Mock"@
    }
}

/// The one-line description of a provider.
pub open spec fn provider_description(id: Seq<char>) -> Seq<char> {
    if id == "ollama"@ {
        "Local LLM inference via Ollama"@
    } else if id == "openai"@ {
        "GPT models via OpenAI API"@
    } else if id == "mistralai"@ {
        "Mistral models via Mistral API"@
    } else if id == "anthropic"@ {
        "Hosted models via the Anthropic API"@
    } else if id == "groq"@ {
        "Fast inference via Groq API"@
    } else {
        "Mock provider for testing (no API calls)"@
    }
}

/// One catalog entry is internally consistent with the spec functions above.
pub open spec fn provider_entry_ok(p: ProviderInfo) -> bool {
    &&& provider_known(p.id@)
    &&& p.title@ == provider_title(p.id@)
    &&& p.description@ == provider_description(p.id@)
    &&& p.requires_key == provider_requires_key(p.id@)
    &&& crate::runs::opt_view(p.env_var) == provider_env_var(p.id@)
    &&& p.default_model@ == provider_default_model(p.id@)
}

proof fn lemma_provider_ids_distinct()
    ensures
        "ollama"@.len() == 6 && "openai"@.len() == 6 && "mistralai"@.len() == 9 && "anthropic"@.len()
            == 9 && "groq"@.len() == 4 && "mock"@.len() == 4,
        "ollama"@ != "openai"@,
        "mistralai"@ != "anthropic"@,
        "groq"@ != "mock"@,
{
    reveal_strlit("ollama");
    reveal_strlit("openai");
    reveal_strlit("mistralai");
    reveal_strlit("anthropic");
    reveal_strlit("groq");
    reveal_strlit("mock");
    assert("ollama"@[0] == 'o' && "openai"@[0] == 'o');
    assert("ollama"@[1] == 'l' && "openai"@[1] == 'p');
    assert("ollama"@ != "openai"@);
    assert("mistralai"@[0] == 'm' && "anthropic"@[0] == 'a');
    assert("mistralai"@ != "anthropic"@);
    assert("groq"@[0] == 'g' && "mock"@[0] == 'm');
    assert("groq"@ != "mock"@);
}

impl ProviderInfo {
    /// The fixed provider catalog: six providers, each consistent with the
    /// spec functions for keys, environment variables and default models.
    pub fn all() -> (r: Vec<ProviderInfo>)
        ensures
            r@.len() == 6,
            r@[0].id@ == "ollama"@,
            r@[1].id@ == "openai"@,
            r@[2].id@ == "mistralai"@,
            r@[3].id@ == "anthropic"@,
            r@[4].id@ == "groq"@,
            r@[5].id@ == "mock"@,
            forall|i: int| 0 <= i < 6 ==> provider_entry_ok(#[trigger] r@[i]),
    {
        proof {
            lemma_provider_ids_distinct();
        }
        let mut v: Vec<ProviderInfo> = Vec::new();
        v.push(
            ProviderInfo {
                id: String::from_str("ollama"),
                title: String::from_str("Ollama"),
                description: String::from_str("Local LLM inference via Ollama"),
                default_model: String::from_str("qwen3"),
                requires_key: false,
                env_var: None,
            },
        );
        v.push(
            ProviderInfo {
                id: String::from_str("openai"),
                title: String::from_str("OpenAI"),
                description: String::from_str("GPT models via OpenAI API"),
                default_model: String::from_str("gpt-4o"),
                requires_key: true,
                env_var: Some(String::from_str("OPENAI_API_KEY")),
            },
        );
        v.push(
            ProviderInfo {
                id: String::from_str("mistralai"),
                title: String::from_str("Mistral AI"),
                description: String::from_str("Mistral models via Mistral API"),
                default_model: String::from_str("mistral-large-latest"),
                requires_key: true,
                env_var: Some(String::from_str("MISTRALAI_API_KEY")),
            },
        );
        v.push(
            ProviderInfo {
                id: String::from_str("anthropic"),
                title: String::from_str("Anthropic"),
                description: String::from_str("Hosted models via the Anthropic API"),
                default_model: String::from_str("anthropic-latest"),
                requires_key: true,
                env_var: Some(String::from_str("ANTHROPIC_API_KEY")),
            },
        );
        v.push(
            ProviderInfo {
                id: String::from_str("groq"),
                title: String::from_str("Groq"),
                description: String::from_str("Fast inference via Groq API"),
                default_model: String::from_str("llama-3.3-70b-versatile"),
                requires_key: true,
                env_var: Some(String::from_str("GROQ_API_KEY")),
            },
        );
        v.push(
            ProviderInfo {
                id: String::from_str("mock"),
                title: String::from_str("Mock"),
                description: String::from_str("Mock provider for testing (no API calls)"),
                default_model: String::from_str("mock-model"),
                requires_key: false,
                env_var: None,
            },
        );
        v
    }

    /// The catalog entry under `id`, or nothing for an unknown id.
    pub fn find(id: &str) -> (r: Option<ProviderInfo>)
        ensures
            r is Some <==> provider_known(id@),
            r matches Some(p) ==> p.id@ == id@ && provider_entry_ok(p),
    {
        let all = Self::all();
        let mut v = all;
        proof {
            lemma_provider_ids_distinct();
        }
        if crate::strutil::str_eq(id, "ollama") {
            let p = v.remove(0);
            Some(p)
        } else if crate::strutil::str_eq(id, "openai") {
            Some(v.remove(1))
        } else if crate::strutil::str_eq(id, "mistralai") {
            Some(v.remove(2))
        } else if crate::strutil::str_eq(id, "anthropic") {
            Some(v.remove(3))
        } else if crate::strutil::str_eq(id, "groq") {
            Some(v.remove(4))
        } else if crate::strutil::str_eq(id, "mock") {
            Some(v.remove(5))
        } else {
            None
        }
    }
}

#[derive(Debug, Clone)]
pub struct OllamaStatus {
    pub installed: bool,
    pub model_available: bool,
    pub error: Option<String>,
}

#[derive(Debug, Clone)]
pub struct SettingsLoadResult {
    pub config: SettingsConfig,
    pub providers: Vec<ProviderInfo>,
}

// --- dashboard summaries ---

#[derive(Debug, Clone)]
pub struct ProjectSummary {
    pub scenes: usize,
    pub characters: usize,
    pub locations: usize,
    pub compositions: usize,
}

#[derive(Debug, Clone)]
pub struct SceneSummary {
    pub id: String,
    pub index: usize,
    pub slugline: String,
    pub duration: String,
    pub word_count: usize,
    pub line_count: usize,
    pub characters: Vec<String>,
}

#[derive(Debug, Clone)]
pub struct LocationSummary {
    pub id: String,
    pub name: String,
    pub scene_count: usize,
    pub page_count: usize,
}

#[derive(Debug, Clone)]
pub struct GraphSummary {
    pub total_entities: usize,
    pub total_relationships: usize,
}

#[derive(Debug, Clone)]
pub struct SceneAnalysis {
    pub title: Option<String>,
    pub scene_number: Option<String>,
    pub summary: Option<String>,
    pub narrative_role: Option<String>,
    pub emotional_tone: Option<String>,
    pub stakes: Option<String>,
    pub themes: Vec<String>,
    pub theme_details: Option<String>,
    pub plot_beats: Vec<String>,
    pub heading: Option<String>,
    pub pacing: Option<String>,
    pub estimated_runtime: Option<String>,
    pub length_pages: Option<String>,
    pub scene_type: Option<String>,
    pub time_of_day: Option<String>,
    pub genre_tone: Option<String>,
    pub style_notes: Option<String>,
    pub speaking_chars: Vec<String>,
    pub non_speaking_chars: Vec<String>,
    pub non_speaking_details: Vec<String>,
    pub callbacks: Vec<String>,
    pub continues_from: Vec<String>,
    pub sets_up: Vec<String>,
    pub strengths: Vec<String>,
    pub development_areas: Vec<String>,
    pub visual_symbols: Vec<String>,
    pub location_significance: Option<String>,
}

#[derive(Debug, Clone)]
pub struct CharacterAnalysis {
    pub summary: Option<String>,
    pub arc: Option<String>,
    pub emotional_journey: Option<String>,
    pub end_state: Option<String>,
    pub arc_quality: Option<String>,
    pub key_turning_points: Vec<String>,
    pub traits: Vec<String>,
    pub goals: Vec<String>,
    pub conflicts: Vec<String>,
    pub background: Option<String>,
    pub stakes: Option<String>,
    pub contradictions: Option<String>,
    pub vulnerabilities: Vec<String>,
    pub relationships: Vec<String>,
    pub dialogue_voice: Option<String>,
    pub dialogue_function: Option<String>,
    pub dialogue_patterns: Vec<String>,
    pub dialogue_subtext: Option<String>,
    pub themes: Vec<String>,
    pub thematic_role: Option<String>,
    pub symbolic_elements: Vec<String>,
    pub narrative_role: Option<String>,
    pub narrative_importance: Option<String>,
    pub narrative_plot_function: Option<String>,
    pub genre_fit: Option<String>,
}

#[derive(Debug, Clone)]
pub struct LocationAnalysis {
    pub summary: Option<String>,
    pub atmosphere: Option<String>,
    pub environment: Option<String>,
    pub visual_context: Option<String>,
    pub significance: Option<String>,
    pub traits: Vec<String>,
    pub changes: Vec<String>,
    pub narrative_role: Option<String>,
    pub story_role: Option<String>,
    pub plot_anchors: Vec<String>,
    pub symbols: Vec<String>,
    pub themes: Vec<String>,
    pub thematic_role: Option<String>,
    pub location_type: Option<String>,
    pub region: Option<String>,
    pub classification: Option<String>,
    pub character_connections: Vec<String>,
    pub production_notes: Option<String>,
    pub structural_observations: Option<String>,
}

#[derive(Debug, Clone, PartialEq, Eq)]
pub enum AnalysisState {
    Pending,
    Analyzing,
    Analyzed,
    Failed,
}

#[derive(Debug, Clone)]
pub struct ItemWithState<T: Clone> {
    pub item: T,
    pub state: AnalysisState,
    pub error: Option<String>,
}

/// Which saved analyses exist, by entity id.
#[derive(Debug, Clone)]
pub struct AnalysisIndex {
    pub scenes: Vec<String>,
    pub characters: Vec<String>,
    pub locations: Vec<String>,
}

#[derive(Debug, Clone)]
pub struct SceneDetail {
    pub summary: SceneSummary,
    pub analysis: Option<SceneAnalysis>,
}

#[derive(Debug, Clone)]
pub struct LocationDetail {
    pub summary: LocationSummary,
    pub analysis: Option<LocationAnalysis>,
}

} // verus!
