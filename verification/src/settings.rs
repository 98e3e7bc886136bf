//! Settings rules: API-key checks, Ollama status interpretation, provider
//! validation, and the settings file's JSON form. The surrounding
//! application reads environment variables, runs the Ollama binary and
//! touches the config file; every decision on what came back is here.

use vstd::prelude::*;

use crate::json::json_text;
use crate::json::pair_text;
use crate::json::Json;
use crate::strutil::is_space;
use crate::types::provider_known;
use crate::types::provider_requires_key;
use crate::types::OllamaStatus;
use crate::types::ProviderInfo;
use crate::types::ProviderValidationResult;
use crate::types::SettingsConfig;
use vstd::string::StringExecFns;

verus! {

/// Whether the provider's API key is available. A provider that needs no
/// key always passes; otherwise the caller reports whether the provider's
/// environment variable is set. An unknown provider is an error.
pub fn check_api_key(provider_id: &str, key_env_set: bool) -> (r: Result<bool, String>)
    ensures
        !provider_known(provider_id@) ==> (r matches Err(e) && e@ == "Unknown provider: "@
            + provider_id@),
        (provider_known(provider_id@) && !provider_requires_key(provider_id@)) ==> r == Ok::<
            bool,
            String,
        >(true),
        (provider_known(provider_id@) && provider_requires_key(provider_id@)) ==> r == Ok::<
            bool,
            String,
        >(key_env_set),
{
    let provider = match ProviderInfo::find(provider_id) {
        Some(p) => p,
        None => {
            return Err(String::from_str("Unknown provider: ").concat(provider_id));
        },
    };
    if !provider.requires_key {
        return Ok(true);
    }
    match provider.env_var {
        Some(_) => Ok(key_env_set),
        None => Ok(true),
    }
}

/// The model validation runs against: the configured one, or the provider's
/// default.
pub fn effective_model(config: &SettingsConfig, provider: &ProviderInfo) -> (r: String)
    ensures
        r@ == (match config.model {
            Some(m) => m@,
            None => provider.default_model@,
        }),
{
    match &config.model {
        Some(m) => m.clone(),
        None => provider.default_model.clone(),
    }
}

// --- reading `ollama list` output ---

/// The first white-space-delimited token of a line.
pub open spec fn leading_token(s: Seq<char>) -> Seq<char>
    decreases s.len(),
{
    if s.len() == 0 || is_space(s[0]) {
        Seq::empty()
    } else {
        seq![s[0]] + leading_token(s.subrange(1, s.len() as int))
    }
}

/// The string after its leading white space.
pub open spec fn skip_leading_ws(s: Seq<char>) -> Seq<char>
    decreases s.len(),
{
    if s.len() > 0 && is_space(s[0]) {
        skip_leading_ws(s.subrange(1, s.len() as int))
    } else {
        s
    }
}

/// The first white-space-delimited token of a line, leading white space
/// skipped; empty for a blank line.
pub open spec fn first_token(s: Seq<char>) -> Seq<char> {
    leading_token(skip_leading_ws(s))
}

/// A listing line names the model when its first token is the model name
/// itself or the model name directly followed by a colon (a tag).
pub open spec fn line_names_model(line: Seq<char>, model: Seq<char>) -> bool {
    let t = first_token(line);
    t == model || (t.len() > model.len() && t.subrange(0, model.len() as int + 1) == model
        + seq![':'])
}

proof fn lemma_skip_ws_step(s: Seq<char>, a: int)
    requires
        0 <= a <= s.len(),
        forall|j: int| 0 <= j < a ==> is_space(#[trigger] s[j]),
    ensures
        skip_leading_ws(s) == skip_leading_ws(s.subrange(a, s.len() as int)),
    decreases a,
{
    if a > 0 {
        let rest = s.subrange(1, s.len() as int);
        lemma_skip_ws_step(rest, a - 1);
        assert(rest.subrange(a - 1, rest.len() as int) =~= s.subrange(a, s.len() as int));
    } else {
        assert(s.subrange(0, s.len() as int) =~= s);
    }
}

proof fn lemma_leading_token_prefix(s: Seq<char>, i: int)
    requires
        0 <= i <= s.len(),
        forall|j: int| 0 <= j < i ==> !is_space(#[trigger] s[j]),
    ensures
        leading_token(s) =~= s.subrange(0, i) + leading_token(s.subrange(i, s.len() as int)),
    decreases i,
{
    if i == 0 {
        assert(s.subrange(0, s.len() as int) =~= s);
    } else {
        let rest = s.subrange(1, s.len() as int);
        lemma_leading_token_prefix(rest, i - 1);
        assert(rest.subrange(0, i - 1) =~= s.subrange(1, i));
        assert(rest.subrange(i - 1, rest.len() as int) =~= s.subrange(i, s.len() as int));
    }
}

/// The first token of one line of `ollama list` output, leading white space
/// skipped.
pub fn first_token_exec(line: &str) -> (r: String)
    ensures
        r@ == first_token(line@),
{
    let n = line.unicode_len();
    let mut a: usize = 0;
    while a < n && crate::strutil::is_space_char(line.get_char(a))
        invariant
            a <= n,
            n == line@.len(),
            forall|j: int| 0 <= j < a ==> is_space(#[trigger] line@[j]),
        decreases n - a,
    {
        a += 1;
    }
    let ghost word_start = line@.subrange(a as int, n as int);
    proof {
        lemma_skip_ws_step(line@, a as int);
        if a < n {
            assert(word_start[0] == line@[a as int]);
            assert(skip_leading_ws(word_start) == word_start);
        } else {
            assert(word_start.len() == 0);
        }
    }
    let mut i: usize = a;
    while i < n && !crate::strutil::is_space_char(line.get_char(i))
        invariant
            a <= i <= n,
            n == line@.len(),
            forall|j: int| a <= j < i ==> !is_space(#[trigger] line@[j]),
        decreases n - i,
    {
        i += 1;
    }
    let r = line.substring_char(a, i).to_owned();
    proof {
        assert(forall|j: int|
            0 <= j < i - a ==> !is_space(#[trigger] word_start[j]) && word_start[j] == line@[a + j]);
        lemma_leading_token_prefix(word_start, i - a);
        if i < n {
            assert(word_start.subrange(i - a, word_start.len() as int)[0] == line@[i as int]);
        }
        assert(leading_token(word_start.subrange(i - a, word_start.len() as int)) =~= Seq::<
            char,
        >::empty());
        assert(word_start.subrange(0, i - a) =~= line@.subrange(a as int, i as int));
        assert(r@ =~= first_token(line@));
    }
    r
}

pub open spec fn any_line_names_model(lines: Seq<String>, model: Seq<char>) -> bool {
    exists|i: int| 0 <= i < lines.len() && line_names_model((#[trigger] lines[i])@, model)
}

/// Does any line of the listing (as the application split it) name the
/// model, either exactly or under a tag?
pub fn model_listed(lines: &Vec<String>, model: &str) -> (r: bool)
    ensures
        r == any_line_names_model(lines@, model@),
{
    let n = lines.len();
    let m = model.unicode_len();
    let mut i: usize = 0;
    while i < n
        invariant
            i <= n,
            n == lines@.len(),
            m == model@.len(),
            forall|j: int| 0 <= j < i ==> !line_names_model((#[trigger] lines@[j])@, model@),
        decreases n - i,
    {
        let token = first_token_exec(lines[i].as_str());
        if crate::strutil::string_eq(&token, model) {
            return true;
        }
        let tn = token.as_str().unicode_len();
        if tn > m {
            let head = token.as_str().substring_char(0, m + 1);
            let mut tagged = model.to_owned();
            crate::strutil::push_char(&mut tagged, ':');
            if crate::strutil::str_eq(head, tagged.as_str()) {
                proof {
                    assert(token@.subrange(0, m + 1) =~= model@ + seq![':']);
                }
                return true;
            }
            proof {
                assert(token@.subrange(0, m + 1) == head@);
                assert(tagged@ =~= model@ + seq![':']);
            }
        }
        i += 1;
    }
    false
}

/// Ollama's status from what the probes returned: not installed ends the
/// check; an available model is clean; a missing model carries the pull
/// hint; a failed listing carries its own message.
pub fn ollama_status_from(installed: bool, model_check: Option<Result<bool, String>>, model: &str)
    -> (r: OllamaStatus)
    requires
        installed ==> model_check is Some,
    ensures
        r.installed == installed,
        !installed ==> !r.model_available && (r.error matches Some(e) && e@
            == "Ollama is not installed"@),
        installed ==> match model_check->Some_0 {
            Ok(true) => r.model_available && r.error is None,
            Ok(false) => !r.model_available && (r.error matches Some(e) && e@ == "Model '"@ + model@
                + "' not found. Run: ollama pull "@ + model@),
            Err(msg) => !r.model_available && r.error == Some(msg),
        },
{
    if !installed {
        return OllamaStatus {
            installed: false,
            model_available: false,
            error: Some(String::from_str("Ollama is not installed")),
        };
    }
    match model_check {
        Some(Ok(true)) => OllamaStatus { installed: true, model_available: true, error: None },
        Some(Ok(false)) => {
            let msg = String::from_str("Model '").concat(model).concat(
                "' not found. Run: ollama pull ",
            ).concat(model);
            proof {
                assert(msg@ =~= "Model '"@ + model@ + "' not found. Run: ollama pull "@ + model@);
            }
            OllamaStatus { installed: true, model_available: false, error: Some(msg) }
        },
        Some(Err(e)) => OllamaStatus { installed: true, model_available: false, error: Some(e) },
        None => OllamaStatus {
            installed: true,
            model_available: false,
            error: Some(String::from_str("Ollama is not installed")),
        },
    }
}

/// Validates a provider configuration from what the application probed: the
/// key environment variable, and — for the local provider — the Ollama
/// status. Reports which checks ran and every error found; valid means no
/// errors.
pub fn validate_provider(
    config: &SettingsConfig,
    key_env_set: bool,
    ollama: Option<OllamaStatus>,
) -> (r: ProviderValidationResult)
    requires
        provider_known(config.provider@) && config.provider@ == "ollama"@ ==> ollama is Some,
    ensures
        r.valid <==> r.errors@.len() == 0,
        !provider_known(config.provider@) ==> !r.valid && r.errors@.len() == 1
            && r.errors@[0]@ == "Unknown provider: "@ + config.provider@,
        (provider_known(config.provider@) && provider_requires_key(config.provider@)
            && !key_env_set) ==> !r.valid,
        (provider_known(config.provider@) && !provider_requires_key(config.provider@)
            && config.provider@ != "ollama"@) ==> r.valid,
        r.checks_run@.len() >= 1 && r.checks_run@[0]@ == "provider_exists"@,
        !provider_known(config.provider@) ==> r.checks_run@.len() == 1,
        (provider_known(config.provider@) && provider_requires_key(config.provider@))
            ==> r.checks_run@.len() == 2 && r.checks_run@[1]@ == "api_key"@,
        config.provider@ == "ollama"@ ==> r.checks_run@.len() == 3 && r.checks_run@[1]@
            == "ollama_installed"@ && r.checks_run@[2]@ == "ollama_model"@,
        (provider_known(config.provider@) && !provider_requires_key(config.provider@)
            && config.provider@ != "ollama"@) ==> r.checks_run@.len() == 1,
{
    proof {
        reveal_strlit("ollama");
        reveal_strlit("openai");
        reveal_strlit("mistralai");
        reveal_strlit("anthropic");
        reveal_strlit("groq");
        assert("ollama"@.len() == 6 && "openai"@.len() == 6 && "mistralai"@.len() == 9
            && "anthropic"@.len() == 9 && "groq"@.len() == 4);
        assert("ollama"@[1] == 'l' && "openai"@[1] == 'p');
        assert(!provider_requires_key("ollama"@));
    }
    let mut checks_run: Vec<String> = Vec::new();
    let mut errors: Vec<String> = Vec::new();
    checks_run.push(String::from_str("provider_exists"));
    let provider = match ProviderInfo::find(config.provider.as_str()) {
        Some(p) => p,
        None => {
            errors.push(String::from_str("Unknown provider: ").concat(config.provider.as_str()));
            return ProviderValidationResult { valid: false, checks_run, errors };
        },
    };
    if provider.requires_key {
        checks_run.push(String::from_str("api_key"));
        if !key_env_set {
            let var_name = match &provider.env_var {
                Some(v) => v.clone(),
                None => String::from_str("UNKNOWN"),
            };
            errors.push(
                String::from_str("Missing API key: ").concat(var_name.as_str()).concat(
                    " environment variable not set",
                ),
            );
        }
    }
    if crate::strutil::string_eq(&config.provider, "ollama") {
        checks_run.push(String::from_str("ollama_installed"));
        checks_run.push(String::from_str("ollama_model"));
        match ollama {
            Some(status) => {
                if !status.installed {
                    errors.push(String::from_str("Ollama is not installed"));
                } else if !status.model_available {
                    match status.error {
                        Some(err) => {
                            errors.push(err);
                        },
                        None => (),
                    }
                }
            },
            None => (),
        }
    }
    let valid = errors.len() == 0;
    ProviderValidationResult { valid, checks_run, errors }
}

// --- the settings file ---

/// The JSON value a settings file denotes: a required string `provider`, an
/// optional (string or null) `model` and `projects_root`. Anything else
/// fails the load.
pub open spec fn spec_settings_of(j: Json) -> Option<SettingsConfig> {
    match (j.spec_get("provider"@), crate::protocol::opt_str_of(j.spec_get("model"@)),
    crate::protocol::opt_str_of(j.spec_get("projects_root"@))) {
        (Some(Json::Str(p)), Some(model), Some(projects_root)) => Some(
            SettingsConfig { provider: p, model, projects_root },
        ),
        _ => None,
    }
}

/// Reads a settings value out of a parsed config file.
pub fn settings_from_json(j: &Json) -> (r: Result<SettingsConfig, String>)
    ensures
        match spec_settings_of(*j) {
            Some(c) => r matches Ok(got) && got.provider == c.provider && got.model == c.model
                && got.projects_root == c.projects_root,
            None => r matches Err(e) && e@ == "Failed to parse config file"@,
        },
{
    let provider = match j.get("provider") {
        Some(Json::Str(p)) => p.clone(),
        _ => {
            return Err(String::from_str("Failed to parse config file"));
        },
    };
    let model = match j.get("model") {
        None => None,
        Some(Json::Null) => None,
        Some(Json::Str(s)) => Some(s.clone()),
        Some(_) => {
            return Err(String::from_str("Failed to parse config file"));
        },
    };
    let projects_root = match j.get("projects_root") {
        None => None,
        Some(Json::Null) => None,
        Some(Json::Str(s)) => Some(s.clone()),
        Some(_) => {
            return Err(String::from_str("Failed to parse config file"));
        },
    };
    Ok(SettingsConfig { provider, model, projects_root })
}

/// An optional string as a JSON value: null when absent.
pub open spec fn opt_str_json(o: Option<String>) -> Json {
    match o {
        Some(s) => Json::Str(s),
        None => Json::Null,
    }
}

/// The exact text a settings value is written as: one JSON object holding
/// provider, model and projects_root, in that order.
pub open spec fn settings_text(c: SettingsConfig) -> Seq<char> {
    seq!['{'] + pair_text("provider"@, Json::Str(c.provider)) + seq![','] + pair_text(
        "model"@,
        opt_str_json(c.model),
    ) + seq![','] + pair_text("projects_root"@, opt_str_json(c.projects_root)) + seq!['}']
}

/// Renders a settings value for the config file.
#[verifier::rlimit(50)]
pub fn render_settings(c: SettingsConfig) -> (r: String)
    ensures
        r@ == settings_text(c),
{
    let ghost gc = c;
    let SettingsConfig { provider, model, projects_root } = c;
    let model_v = match model {
        Some(s) => Json::Str(s),
        None => Json::Null,
    };
    let root_v = match projects_root {
        Some(s) => Json::Str(s),
        None => Json::Null,
    };
    let mut fields: Vec<(String, Json)> = Vec::new();
    fields.push((String::from_str("provider"), Json::Str(provider)));
    fields.push((String::from_str("model"), model_v));
    fields.push((String::from_str("projects_root"), root_v));
    let v = Json::Obj(fields);
    let out = crate::json::render_json(&v);
    proof {
        let fs = v->Obj_0@;
        assert(fs.len() == 3);
        let p0 = pair_text("provider"@, Json::Str(gc.provider));
        let p1 = pair_text("model"@, opt_str_json(gc.model));
        let p2 = pair_text("projects_root"@, opt_str_json(gc.projects_root));
        let sub1 = fs.subrange(1, 3);
        let sub2 = fs.subrange(2, 3);
        let sub3 = fs.subrange(3, 3);
        assert(sub1[0] == fs[1]);
        assert(sub2[0] == fs[2]);
        assert(sub1.subrange(1, 2) =~= sub2);
        assert(sub2.subrange(1, 1) =~= sub3);
        assert(crate::json::obj_tail(sub3) == Seq::<char>::empty());
        assert(crate::json::obj_tail(sub2) =~= seq![','] + p2);
        assert(crate::json::obj_tail(sub1) =~= seq![','] + p1 + (seq![','] + p2));
        assert(crate::json::obj_text(fs) =~= p0 + seq![','] + p1 + seq![','] + p2);
        assert(json_text(v) =~= settings_text(gc));
    }
    out
}

} // verus!
