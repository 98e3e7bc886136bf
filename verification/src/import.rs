//! The import wizard's rules: title validation, filename normalization,
//! target-path resolution, import-file validation and collision suggestions.
//! The surrounding application supplies what only the filesystem knows
//! (whether a path exists, is a directory, holds a manifest).

use vstd::prelude::*;

use crate::strutil::after_last;
use crate::strutil::all_space;
use crate::strutil::contains_seq;
use crate::strutil::dec_of;
use crate::strutil::find_suffix_start;
use crate::strutil::is_space;
use crate::strutil::lower_seq;
use crate::strutil::push_char;
use crate::strutil::str_contains;
use crate::strutil::str_is_blank;
use crate::strutil::string_eq;
use crate::strutil::to_lower;
use crate::strutil::trim_char;
use crate::strutil::trim_char_exec;
use crate::strutil::u64_to_dec;
use crate::types::ImportResult;
use crate::types::Project;
use vstd::string::StringExecFns;
use vstd::string::StringSliceAdditionalSpecFns;

verus! {

/// Validates a project title: not blank, at most 255 bytes.
pub fn validate_title(title: &str) -> (r: Result<(), String>)
    ensures
        all_space(title@) ==> (r matches Err(e) && e@ == "Title cannot be empty"@),
        (!all_space(title@) && title.spec_bytes().len() > 255) ==> (r matches Err(e) && e@
            == "Title cannot exceed 255 characters"@),
        (!all_space(title@) && title.spec_bytes().len() <= 255) ==> r is Ok,
{
    if str_is_blank(title) {
        return Err(String::from_str("Title cannot be empty"));
    }
    if title.as_bytes().len() > 255 {
        return Err(String::from_str("Title cannot exceed 255 characters"));
    }
    Ok(())
}

// --- filename normalization ---

/// The characters a filename may not carry.
pub open spec fn is_reserved_char(c: char) -> bool {
    c == '<' || c == '>' || c == ':' || c == '"' || c == '/' || c == '\\' || c == '|' || c == '?'
        || c == '*'
}

/// Every reserved character replaced by one underscore.
pub open spec fn replace_reserved_spec(s: Seq<char>) -> Seq<char> {
    s.map_values(
        |c: char|
            if is_reserved_char(c) {
                '_'
            } else {
                c
            },
    )
}

/// Relies on regex::Regex::replace_all with the one-character class
/// `[<>:"/\|?*]`: each reserved character becomes one underscore and every
/// other character stays.
#[verifier::external_body]
fn replace_reserved(s: &str) -> (r: String)
    ensures
        r@ == replace_reserved_spec(s@),
{
    let re = regex::Regex::new(r#"[<>:"/\\|?*]"#).unwrap();
    re.replace_all(s, "_").into_owned()
}

/// Each maximal run of white space replaced by one underscore: an
/// underscore is written at the first character of a run, the rest of the
/// run is dropped.
pub open spec fn collapse_ws_from(s: Seq<char>, i: int, in_run: bool) -> Seq<char>
    decreases s.len() - i,
{
    if i < 0 || i >= s.len() {
        Seq::empty()
    } else if is_space(s[i]) {
        if in_run {
            collapse_ws_from(s, i + 1, true)
        } else {
            seq!['_'] + collapse_ws_from(s, i + 1, true)
        }
    } else {
        seq![s[i]] + collapse_ws_from(s, i + 1, false)
    }
}

pub open spec fn collapse_ws(s: Seq<char>) -> Seq<char> {
    collapse_ws_from(s, 0, false)
}

/// Relies on regex::Regex::replace_all with `\s+` (the Unicode white-space
/// class): each maximal run of white space becomes one underscore.
#[verifier::external_body]
fn collapse_whitespace(s: &str) -> (r: String)
    ensures
        r@ == collapse_ws(s@),
{
    let re = regex::Regex::new(r"\s+").unwrap();
    re.replace_all(s, "_").into_owned()
}

/// The normalized, filesystem-safe form of a title: reserved characters to
/// underscores, white-space runs to single underscores, underscores trimmed
/// from both ends, and the fixed name `project` when nothing remains.
pub open spec fn normalized_filename(title: Seq<char>) -> Seq<char> {
    let t = trim_char(collapse_ws(replace_reserved_spec(title)), '_');
    if t.len() == 0 {
        "project"@
    } else {
        t
    }
}

pub fn normalize_project_filename(title: &str) -> (r: String)
    ensures
        r@ == normalized_filename(title@),
{
    let replaced = replace_reserved(title);
    let collapsed = collapse_whitespace(replaced.as_str());
    let trimmed = trim_char_exec(collapsed.as_str(), '_');
    if trimmed.is_empty() {
        String::from_str("project")
    } else {
        trimmed.to_owned()
    }
}

// --- target path resolution ---

/// The target path of a new project: the projects directory, a separator
/// unless one already ends it, and the normalized title under the project
/// extension.
pub open spec fn target_path_spec(dir: Seq<char>, title: Seq<char>) -> Seq<char> {
    let sep: Seq<char> = if dir.len() > 0 && dir[dir.len() - 1] == '/' {
        Seq::empty()
    } else {
        seq!['/']
    };
    dir + sep + normalized_filename(title) + ".kspd"@
}

/// Resolves the `.kspd` path a title would be created at.
pub fn resolve_target_path(projects_dir: &str, title: &str) -> (r: Result<String, String>)
    ensures
        r matches Ok(p) && p@ == target_path_spec(projects_dir@, title@),
{
    let normalized = normalize_project_filename(title);
    let mut out = projects_dir.to_owned();
    let n = projects_dir.unicode_len();
    if !(n > 0 && projects_dir.get_char(n - 1) == '/') {
        push_char(&mut out, '/');
    }
    let out = out.concat(normalized.as_str()).concat(".kspd");
    proof {
        assert(out@ =~= target_path_spec(projects_dir@, title@));
    }
    Ok(out)
}

// --- import file validation ---

/// The extension of a path, as the filesystem sees it: within the portion
/// after the last separator, the part after the last dot — provided that dot
/// is not the name's first character. `None` when there is no such dot.
pub open spec fn extension_spec(path: Seq<char>) -> Option<Seq<char>> {
    let name = after_last(path, '/');
    if name.len() > 0 && contains_seq(name.subrange(1, name.len() as int), seq!['.']) {
        Some(after_last(name, '.'))
    } else {
        None
    }
}

/// The extension in the form errors report: a dot and the lower-cased
/// extension, or empty when there is none.
pub open spec fn dotted_extension(path: Seq<char>) -> Seq<char> {
    match extension_spec(path) {
        Some(e) => seq!['.'] + lower_seq(e),
        None => Seq::empty(),
    }
}

/// The extension of `path`, exactly as [`extension_spec`] gives it: not
/// lower-cased, `None` when the file name has no dot past its first
/// character.
pub fn extension_of(path: &str) -> (r: Option<String>)
    ensures
        match r {
            Some(e) => extension_spec(path@) == Some(e@),
            None => extension_spec(path@) is None,
        },
{
    let name_start = find_suffix_start(path, '/');
    let name = path.substring_char(name_start, path.unicode_len());
    let has_dot = if name.unicode_len() > 0 {
        let tail = name.substring_char(1, name.unicode_len());
        str_contains(tail, ".")
    } else {
        false
    };
    proof {
        reveal_strlit(".");
        assert("."@ =~= seq!['.']);
    }
    if !has_dot {
        return None;
    }
    let ext_start = find_suffix_start(name, '.');
    let ext = name.substring_char(ext_start, name.unicode_len());
    Some(ext.to_owned())
}

/// The dotted, lower-cased extension of `path`, or empty.
pub fn dotted_extension_of(path: &str) -> (r: String)
    ensures
        r@ == dotted_extension(path@),
{
    let ext = match extension_of(path) {
        Some(e) => e,
        None => {
            return String::new();
        },
    };
    let mut out = String::new();
    push_char(&mut out, '.');
    let low = to_lower(ext.as_str());
    let out = out.concat(low.as_str());
    proof {
        assert(out@ =~= dotted_extension(path@));
    }
    out
}

/// The dotted extensions an import accepts.
pub open spec fn allowed_extension(ext: Seq<char>) -> bool {
    ext == ".fountain"@ || ext == ".fdx"@ || ext == ".sbx"@ || ext == ".md"@
}

/// Validates an import file. The caller reports what the filesystem knows:
/// whether the path exists and whether it is a directory. The checks run in
/// order: empty path, missing file, directory, unsupported extension.
pub fn validate_import_file(path: &str, exists: bool, is_dir: bool) -> (r: Result<(), String>)
    ensures
        all_space(path@) ==> (r matches Err(e) && e@ == "File path cannot be empty"@),
        (!all_space(path@) && !exists) ==> (r matches Err(e) && e@ == "File not found: "@ + path@),
        (!all_space(path@) && exists && is_dir) ==> (r matches Err(e) && e@
            == "Please select a file, not a directory: "@ + path@),
        (!all_space(path@) && exists && !is_dir && !allowed_extension(dotted_extension(path@))) ==> (
        r matches Err(e) && e@ == "Unsupported file type \""@ + dotted_extension(path@)
            + "\". Allowed: .fountain, .fdx, .sbx, .md"@),
        (!all_space(path@) && exists && !is_dir && allowed_extension(dotted_extension(path@)))
            ==> r is Ok,
{
    if str_is_blank(path) {
        return Err(String::from_str("File path cannot be empty"));
    }
    if !exists {
        return Err(String::from_str("File not found: ").concat(path));
    }
    if is_dir {
        return Err(String::from_str("Please select a file, not a directory: ").concat(path));
    }
    let ext = dotted_extension_of(path);
    let ok = string_eq(&ext, ".fountain") || string_eq(&ext, ".fdx") || string_eq(&ext, ".sbx")
        || string_eq(&ext, ".md");
    if !ok {
        let msg = String::from_str("Unsupported file type \"").concat(ext.as_str()).concat(
            "\". Allowed: .fountain, .fdx, .sbx, .md",
        );
        proof {
            assert(msg@ =~= "Unsupported file type \""@ + dotted_extension(path@)
                + "\". Allowed: .fountain, .fdx, .sbx, .md"@);
        }
        return Err(msg);
    }
    Ok(())
}

// --- collisions and suggestions ---

/// A collision exists when a project already sits at the target path. The
/// caller reports what the filesystem knows of that path.
pub fn check_collision(target_path: &str, is_dir: bool, manifest_exists: bool) -> (r: bool)
    ensures
        r == crate::discovery::is_kspd_spec(target_path@, is_dir, manifest_exists),
{
    crate::discovery::is_kspd(target_path, is_dir, manifest_exists)
}

/// The `i`-th suggested name for a colliding title.
pub open spec fn candidate_name(normalized: Seq<char>, i: int) -> Seq<char> {
    normalized + seq!['_'] + dec_of(i as nat)
}

pub open spec fn name_taken(taken: Seq<String>, c: Seq<char>) -> bool {
    exists|j: int| 0 <= j < taken.len() && (#[trigger] taken[j])@ == c
}

/// The suggestions drawn from candidates `i..=limit`, skipping taken names,
/// until `want` are found.
pub open spec fn suggestions_from(
    normalized: Seq<char>,
    taken: Seq<String>,
    i: int,
    limit: int,
    want: int,
) -> Seq<Seq<char>>
    decreases limit + 1 - i,
{
    if i > limit || want <= 0 {
        Seq::empty()
    } else if name_taken(taken, candidate_name(normalized, i)) {
        suggestions_from(normalized, taken, i + 1, limit, want)
    } else {
        seq![candidate_name(normalized, i)] + suggestions_from(normalized, taken, i + 1, limit, want
            - 1)
    }
}

/// Suggests up to `max` alternative names `<normalized>_<i>`, trying `i`
/// from 1 to `max + 5` and skipping names in `taken` — the project names
/// (without their `.kspd` suffix) already present in the projects directory,
/// as the caller lists them.
pub fn generate_suggested_names(title: &str, taken: &Vec<String>, max: usize) -> (r: Vec<String>)
    requires
        max + 6 <= usize::MAX,
    ensures
        r.deep_view() == suggestions_from(
            normalized_filename(title@),
            taken@,
            1,
            max + 5,
            max as int,
        ),
{
    let normalized = normalize_project_filename(title);
    let limit = max + 5;
    let mut out: Vec<String> = Vec::new();
    let mut i: usize = 1;
    while i <= limit && out.len() < max
        invariant
            1 <= i <= limit + 1,
            limit == max + 5,
            max + 6 <= usize::MAX,
            out@.len() <= max,
            normalized@ == normalized_filename(title@),
            suggestions_from(normalized@, taken@, 1, limit as int, max as int) == out.deep_view()
                + suggestions_from(
                normalized@,
                taken@,
                i as int,
                limit as int,
                max - out@.len(),
            ),
        decreases limit + 1 - i,
    {
        let mut cand = normalized.clone();
        push_char(&mut cand, '_');
        let cand = cand.concat(u64_to_dec(i as u64).as_str());
        proof {
            assert(cand@ =~= candidate_name(normalized@, i as int));
        }
        let mut found = false;
        let m = taken.len();
        let mut j: usize = 0;
        while j < m
            invariant
                j <= m,
                m == taken@.len(),
                found <==> exists|k: int| 0 <= k < j && (#[trigger] taken@[k])@ == cand@,
            decreases m - j,
        {
            if string_eq(&taken[j], cand.as_str()) {
                found = true;
            }
            j += 1;
        }
        proof {
            assert(found == name_taken(taken@, candidate_name(normalized@, i as int)));
        }
        if !found {
            out.push(cand);
            proof {
                assert(out.deep_view() =~= out.deep_view().subrange(0, out.deep_view().len() - 1)
                    + seq![candidate_name(normalized@, i as int)]);
            }
        }
        i += 1;
    }
    proof {
        assert(suggestions_from(normalized@, taken@, i as int, limit as int, max - out@.len())
            =~= Seq::<Seq<char>>::empty());
        assert(out.deep_view() =~= suggestions_from(
            normalized@,
            taken@,
            1,
            limit as int,
            max as int,
        ));
    }
    out
}

/// The record of one finished parse run: success is the subprocess's exit
/// status alone; a successful run names the created project by its path.
pub fn parse_outcome(exit_success: bool, exit_code: Option<i32>, output_path: &str) -> (r:
    ImportResult)
    ensures
        r.success == exit_success,
        r.output_path matches Some(p) && p@ == output_path@,
        exit_success ==> (r.project_id matches Some(id) && id@ == "proj_"@ + crate::strutil::hex_of(
            crate::types::fnv1a_of(output_path.spec_bytes()) as nat,
        )) && r.error is None,
        !exit_success ==> r.project_id is None && (r.error matches Some(e) && e@
            == "khaos-tools exited with code "@ + crate::strutil::dec_int(
            match exit_code {
                Some(c) => c as int,
                None => -1,
            },
        )),
{
    let project_id = if exit_success {
        Some(Project::id_from_path(output_path))
    } else {
        None
    };
    let error = if exit_success {
        None
    } else {
        let code: i64 = match exit_code {
            Some(c) => c as i64,
            None => -1,
        };
        Some(
            String::from_str("khaos-tools exited with code ").concat(
                crate::strutil::i64_to_dec(code).as_str(),
            ),
        )
    };
    ImportResult { success: exit_success, project_id, output_path: Some(output_path.to_owned()), error }
}

} // verus!
