//! Project discovery and bookkeeping rules: what counts as a project
//! directory, how metadata read from disk becomes a project record, search,
//! the recent-projects list, and the saved-analysis index. The surrounding
//! application walks directories and reads files; every rule on what it
//! finds is here.

use vstd::prelude::*;

use crate::json::Json;
use crate::strutil::contains_seq;
use crate::strutil::lower_seq;
use crate::strutil::str_contains;
use crate::strutil::str_ends_with;
use crate::strutil::str_is_blank;
use crate::strutil::str_starts_with;
use crate::strutil::string_eq;
use crate::strutil::to_lower;
use crate::types::AnalysisIndex;
use vstd::multiset::Multiset;
use crate::types::Project;
use vstd::string::StringExecFns;
use vstd::string::StringSliceAdditionalSpecFns;

verus! {

// --- what counts as a project ---

/// A path names a project when it is a directory that either carries the
/// `kspd` extension (the extension of its file name, so a bare `.kspd` name
/// has none) or holds a manifest. The caller reports what the filesystem
/// knows.
pub open spec fn is_kspd_spec(path: Seq<char>, is_dir: bool, manifest_exists: bool) -> bool {
    is_dir && (crate::import::extension_spec(path) == Some("kspd"@) || manifest_exists)
}

pub fn is_kspd(path: &str, is_dir: bool, manifest_exists: bool) -> (r: bool)
    ensures
        r == is_kspd_spec(path@, is_dir, manifest_exists),
{
    let ext_matches = match crate::import::extension_of(path) {
        Some(e) => string_eq(&e, "kspd"),
        None => false,
    };
    is_dir && (ext_matches || manifest_exists)
}

// --- configuration paths ---

/// The app's own config file, under the home directory.
pub fn config_path(home: &str) -> (r: String)
    ensures
        r@ == home@ + "/.khaos-ui/config.json"@,
{
    home.to_owned().concat("/.khaos-ui/config.json")
}

/// The config file shared with the terminal client.
pub fn get_tui_config_path(home: &str) -> (r: String)
    ensures
        r@ == home@ + "/.config/khaos-tui/config.json"@,
{
    home.to_owned().concat("/.config/khaos-tui/config.json")
}

/// The UI-specific override config file.
pub fn get_ui_config_path(home: &str) -> (r: String)
    ensures
        r@ == home@ + "/.config/khaos-ui/config.json"@,
{
    home.to_owned().concat("/.config/khaos-ui/config.json")
}

// --- project metadata ---

/// The display title of a project: the manifest's non-empty `title` when one
/// is there, else the directory name; a trailing `.kspd` is stripped either
/// way.
pub open spec fn project_title(manifest: Option<Json>, dir_name: Seq<char>) -> Seq<char> {
    let t0 = match manifest {
        Some(m) => match m.spec_get_str("title"@) {
            Some(t) => if t.len() > 0 {
                t
            } else {
                dir_name
            },
            None => dir_name,
        },
        None => dir_name,
    };
    if t0.len() >= 5 && t0.subrange(t0.len() - 5, t0.len() as int) == ".kspd"@ {
        t0.subrange(0, t0.len() - 5)
    } else {
        t0
    }
}

/// Assembles a project record from what the application read off disk: the
/// path, the directory name, the parsed manifest if one parsed, the
/// modification time, and the scene count.
pub fn project_from_parts(
    path_str: &str,
    dir_name: &str,
    manifest: Option<&Json>,
    modified: i64,
    scene_count: usize,
) -> (r: Project)
    ensures
        r.id@ == "proj_"@ + crate::strutil::hex_of(
            crate::types::fnv1a_of(path_str.spec_bytes()) as nat,
        ),
        r.title@ == project_title(
            match manifest {
                Some(m) => Some(*m),
                None => None,
            },
            dir_name@,
        ),
        crate::runs::opt_view(r.author) == (match manifest {
            Some(m) => m.spec_get_str("author"@),
            None => None,
        }),
        r.path@ == path_str@,
        r.modified == modified,
        r.scene_count == scene_count,
{
    proof {
        reveal_strlit(".kspd");
    }
    let mut title = match manifest {
        Some(m) => match m.get_str("title") {
            Some(t) => {
                if t.as_str().is_empty() {
                    dir_name.to_owned()
                } else {
                    t
                }
            },
            None => dir_name.to_owned(),
        },
        None => dir_name.to_owned(),
    };
    if str_ends_with(title.as_str(), ".kspd") {
        let n = title.unicode_len();
        title = title.as_str().substring_char(0, n - 5).to_owned();
    }
    let author = match manifest {
        Some(m) => m.get_str("author"),
        None => None,
    };
    Project {
        id: Project::id_from_path(path_str),
        title,
        author,
        path: path_str.to_owned(),
        modified,
        scene_count,
    }
}

/// The number of entities a metadata value holds: the length of a top-level
/// array, else the length of the array under `key`, else zero.
pub open spec fn spec_count_entities(j: Json, key: Seq<char>) -> int {
    match j {
        Json::Arr(items) => items@.len() as int,
        _ => match j.spec_get(key) {
            Some(v) => if v is Arr {
                v->Arr_0@.len() as int
            } else {
                0
            },
            None => 0,
        },
    }
}

pub fn count_entities(j: &Json, key: &str) -> (r: usize)
    ensures
        r == spec_count_entities(*j, key@),
{
    match j {
        Json::Arr(items) => items.len(),
        _ => match j.get(key) {
            Some(Json::Arr(items)) => items.len(),
            _ => 0,
        },
    }
}

// --- search ---

/// Does a project match a (lower-cased) search query? By title, author or
/// path, case-folded.
pub open spec fn project_matches_query(p: Project, q: Seq<char>) -> bool {
    ||| contains_seq(lower_seq(p.title@), q)
    ||| (match p.author {
        Some(a) => contains_seq(lower_seq(a@), q),
        None => false,
    })
    ||| contains_seq(lower_seq(p.path@), q)
}

pub open spec fn filter_matching(s: Seq<Project>, q: Seq<char>) -> Seq<Project>
    decreases s.len(),
{
    if s.len() == 0 {
        Seq::empty()
    } else {
        (if project_matches_query(s[0], q) {
            seq![s[0]]
        } else {
            Seq::empty()
        }) + filter_matching(s.subrange(1, s.len() as int), q)
    }
}

fn project_matches_query_exec(p: &Project, q: &str) -> (r: bool)
    ensures
        r == project_matches_query(*p, q@),
{
    if str_contains(to_lower(p.title.as_str()).as_str(), q) {
        return true;
    }
    let by_author = match &p.author {
        Some(a) => str_contains(to_lower(a.as_str()).as_str(), q),
        None => false,
    };
    if by_author {
        return true;
    }
    str_contains(to_lower(p.path.as_str()).as_str(), q)
}

/// Filters projects by a search query: a blank query keeps them all; any
/// other query keeps the projects whose title, author or path contains the
/// query, case-folded, in their order.
pub fn search_projects(projects: Vec<Project>, query: &str) -> (r: Vec<Project>)
    ensures
        crate::strutil::all_space(query@) ==> r@ == projects@,
        !crate::strutil::all_space(query@) ==> r@ == filter_matching(
            projects@,
            lower_seq(query@),
        ),
{
    if str_is_blank(query) {
        return projects;
    }
    let q = to_lower(query);
    let mut items = projects;
    let ghost orig = items@;
    let mut out: Vec<Project> = Vec::new();
    while items.len() > 0
        invariant
            q@ == lower_seq(query@),
            filter_matching(orig, q@) == out@ + filter_matching(items@, q@),
        decreases items@.len(),
    {
        let ghost before = items@;
        let p = items.remove(0);
        proof {
            assert(items@ =~= before.subrange(1, before.len() as int));
        }
        if project_matches_query_exec(&p, q.as_str()) {
            out.push(p);
        }
    }
    proof {
        assert(filter_matching(items@, q@) =~= Seq::<Project>::empty());
        assert(out@ =~= filter_matching(orig, q@));
    }
    out
}

// --- ordering by modification time ---

/// Newest first.
pub open spec fn sorted_by_modified_desc(s: Seq<Project>) -> bool {
    forall|i: int, j: int|
        0 <= i < j < s.len() ==> (#[trigger] s[i]).modified >= (#[trigger] s[j]).modified
}

fn index_of_max_modified(items: &Vec<Project>) -> (r: usize)
    requires
        items@.len() > 0,
    ensures
        r < items@.len(),
        forall|k: int| 0 <= k < items@.len() ==> items@[r as int].modified >= (#[trigger] items@[k]).modified,
{
    let n = items.len();
    let mut best: usize = 0;
    let mut i: usize = 1;
    while i < n
        invariant
            best < i <= n,
            n == items@.len(),
            forall|k: int| 0 <= k < i ==> items@[best as int].modified >= (#[trigger] items@[k]).modified,
        decreases n - i,
    {
        if items[i].modified > items[best].modified {
            best = i;
        }
        i += 1;
    }
    best
}

/// Orders projects newest first. The result is a permutation of the input:
/// the same records, sorted by their modification time, descending.
pub fn sort_projects_by_modified(projects: Vec<Project>) -> (r: Vec<Project>)
    ensures
        sorted_by_modified_desc(r@),
        r@.to_multiset() == projects@.to_multiset(),
{
    let mut items = projects;
    let ghost orig = items@;
    let mut out: Vec<Project> = Vec::new();
    proof {
        out@.to_multiset_ensures();
        items@.to_multiset_ensures();
        assert(out@.to_multiset().add(items@.to_multiset()) =~= orig.to_multiset());
    }
    while items.len() > 0
        invariant
            items@.len() + out@.len() == orig.len(),
            sorted_by_modified_desc(out@),
            out@.to_multiset().add(items@.to_multiset()) == orig.to_multiset(),
            forall|k: int, e: int|
                0 <= k < out@.len() && 0 <= e < items@.len() ==> (#[trigger] out@[k]).modified >= (
                #[trigger] items@[e]).modified,
        decreases items@.len(),
    {
        let ghost items0 = items@;
        let ghost out0 = out@;
        let idx = index_of_max_modified(&items);
        let x = items.remove(idx);
        out.push(x);
        proof {
            items0.to_multiset_ensures();
            out0.to_multiset_ensures();
            assert(items@.to_multiset() =~= items0.to_multiset().remove(items0[idx as int]));
            assert(out@.to_multiset() =~= out0.to_multiset().insert(items0[idx as int]));
            assert(items0.contains(items0[idx as int]));
            assert(items0.to_multiset().count(items0[idx as int]) > 0);
            assert(out@.to_multiset().add(items@.to_multiset()) =~= out0.to_multiset().add(
                items0.to_multiset(),
            ));
            assert(forall|e: int|
                0 <= e < items@.len() ==> items0.contains(#[trigger] items@[e]));
        }
    }
    proof {
        items@.to_multiset_ensures();
        assert forall|a: Project| items@.to_multiset().count(a) == 0 by {
            assert(!items@.contains(a));
        }
        assert(items@.to_multiset() =~= Multiset::<Project>::empty());
        assert(out@.to_multiset().add(items@.to_multiset()) =~= out@.to_multiset());
    }
    out
}

// --- the recent-projects list ---

/// The recent list after selecting a project: the selected id in front, its
/// other occurrences removed, capped at the five most recent.
pub open spec fn updated_recent(recent: Seq<String>, id: String) -> Seq<String> {
    let kept = filter_not_id(recent, id@);
    let full = seq![id] + kept;
    if full.len() <= 5 {
        full
    } else {
        full.subrange(0, 5)
    }
}

pub open spec fn filter_not_id(s: Seq<String>, id: Seq<char>) -> Seq<String>
    decreases s.len(),
{
    if s.len() == 0 {
        Seq::empty()
    } else {
        (if s[0]@ == id {
            Seq::empty()
        } else {
            seq![s[0]]
        }) + filter_not_id(s.subrange(1, s.len() as int), id)
    }
}

/// Marks a project as active in the recent list.
pub fn update_recent(recent: Vec<String>, project_id: String) -> (r: Vec<String>)
    ensures
        r@ == updated_recent(recent@, project_id),
{
    let ghost gid = project_id;
    let mut out: Vec<String> = Vec::new();
    out.push(project_id);
    let n = recent.len();
    let mut i: usize = 0;
    proof {
        assert(recent@.subrange(0, n as int) =~= recent@);
    }
    let items = recent;
    while i < n
        invariant
            i <= n,
            n == items@.len(),
            out@.len() >= 1,
            out@[0] == gid,
            seq![gid] + filter_not_id(items@, gid@) == out@ + filter_not_id(
                items@.subrange(i as int, n as int),
                gid@,
            ),
        decreases n - i,
    {
        proof {
            assert(items@.subrange(i as int, n as int)[0] == items@[i as int]);
            assert(items@.subrange(i as int, n as int).subrange(1, (n - i) as int)
                =~= items@.subrange(i + 1, n as int));
        }
        if !string_eq(&items[i], out[0].as_str()) {
            let s = items[i].clone();
            out.push(s);
        }
        i += 1;
    }
    proof {
        assert(filter_not_id(items@.subrange(n as int, n as int), gid@) =~= Seq::<String>::empty());
        assert(out@ =~= seq![gid] + filter_not_id(items@, gid@));
    }
    if out.len() > 5 {
        out.truncate(5);
    }
    out
}

/// The first five ids, in order — what the recent-projects file keeps.
pub fn recent_capped(ids: &Vec<String>) -> (r: Vec<String>)
    ensures
        r@.len() == if ids@.len() <= 5 {
            ids@.len() as int
        } else {
            5int
        },
        forall|i: int| 0 <= i < r@.len() ==> (#[trigger] r@[i])@ == ids@[i]@,
{
    let n = if ids.len() > 5 {
        5
    } else {
        ids.len()
    };
    let mut out: Vec<String> = Vec::new();
    let mut i: usize = 0;
    while i < n
        invariant
            i <= n,
            n <= ids@.len(),
            out@.len() == i,
            forall|j: int| 0 <= j < i ==> (#[trigger] out@[j])@ == ids@[j]@,
        decreases n - i,
    {
        out.push(ids[i].clone());
        i += 1;
    }
    out
}

/// The string items of the `recent_projects` array in a config value;
/// anything else in the array is passed over.
pub open spec fn strings_of(items: Seq<Json>) -> Seq<Seq<char>>
    decreases items.len(),
{
    if items.len() == 0 {
        Seq::empty()
    } else {
        (match items[0] {
            Json::Str(s) => seq![s@],
            _ => Seq::empty(),
        }) + strings_of(items.subrange(1, items.len() as int))
    }
}

pub open spec fn spec_recent_of(config: Json) -> Seq<Seq<char>> {
    match config.spec_get("recent_projects"@) {
        Some(v) => if v is Arr {
            strings_of(v->Arr_0@)
        } else {
            Seq::empty()
        },
        None => Seq::empty(),
    }
}

/// Reads the recent-projects list out of a parsed config value.
pub fn recent_from_config(config: &Json) -> (r: Vec<String>)
    ensures
        r.deep_view() == spec_recent_of(*config),
{
    let items: &Vec<Json> = match config.get("recent_projects") {
        Some(Json::Arr(items)) => items,
        _ => {
            return Vec::new();
        },
    };
    let n = items.len();
    let mut out: Vec<String> = Vec::new();
    let mut i: usize = 0;
    proof {
        assert(items@.subrange(0, n as int) =~= items@);
    }
    while i < n
        invariant
            i <= n,
            n == items@.len(),
            strings_of(items@) == out.deep_view() + strings_of(
                items@.subrange(i as int, n as int),
            ),
        decreases n - i,
    {
        proof {
            assert(items@.subrange(i as int, n as int)[0] == items@[i as int]);
            assert(items@.subrange(i as int, n as int).subrange(1, (n - i) as int)
                =~= items@.subrange(i + 1, n as int));
        }
        match items[i].as_str() {
            Some(s) => {
                out.push(s.clone());
                proof {
                    assert(out.deep_view() =~= out.deep_view().subrange(
                        0,
                        out.deep_view().len() - 1,
                    ) + seq![items@[i as int]->Str_0@]);
                }
            },
            None => (),
        }
        i += 1;
    }
    proof {
        assert(strings_of(items@.subrange(n as int, n as int)) =~= Seq::<Seq<char>>::empty());
        assert(out.deep_view() =~= strings_of(items@));
    }
    out
}

// --- the saved-analysis index ---

/// A saved-analysis file of the given kind: a `.json` name under the kind's
/// prefix. The id is the name with the extension stripped.
pub open spec fn index_id(name: Seq<char>) -> Seq<char> {
    name.subrange(0, name.len() - 5)
}

pub open spec fn index_entry(name: Seq<char>, prefix: Seq<char>) -> bool {
    &&& name.len() >= 5
    &&& name.subrange(name.len() - 5, name.len() as int) == ".json"@
    &&& index_id(name).len() >= prefix.len()
    &&& index_id(name).subrange(0, prefix.len() as int) == prefix
}

pub open spec fn ids_with_prefix(names: Seq<String>, prefix: Seq<char>) -> Seq<Seq<char>>
    decreases names.len(),
{
    if names.len() == 0 {
        Seq::empty()
    } else {
        (if index_entry(names[0]@, prefix) {
            seq![index_id(names[0]@)]
        } else {
            Seq::empty()
        }) + ids_with_prefix(names.subrange(1, names.len() as int), prefix)
    }
}

fn ids_for_prefix(names: &Vec<String>, prefix: &str) -> (r: Vec<String>)
    requires
        prefix@ == "scn_"@ || prefix@ == "chr_"@ || prefix@ == "loc_"@,
    ensures
        r.deep_view() == ids_with_prefix(names@, prefix@),
{
    proof {
        reveal_strlit(".json");
    }
    let n = names.len();
    let mut out: Vec<String> = Vec::new();
    let mut i: usize = 0;
    proof {
        assert(names@.subrange(0, n as int) =~= names@);
    }
    while i < n
        invariant
            i <= n,
            n == names@.len(),
            ids_with_prefix(names@, prefix@) == out.deep_view() + ids_with_prefix(
                names@.subrange(i as int, n as int),
                prefix@,
            ),
        decreases n - i,
    {
        proof {
            reveal_strlit(".json");
            assert(names@.subrange(i as int, n as int)[0] == names@[i as int]);
            assert(names@.subrange(i as int, n as int).subrange(1, (n - i) as int)
                =~= names@.subrange(i + 1, n as int));
        }
        let name = &names[i];
        if str_ends_with(name.as_str(), ".json") {
            let len = name.as_str().unicode_len();
            let id = name.as_str().substring_char(0, len - 5);
            if str_starts_with(id, prefix) {
                out.push(id.to_owned());
                proof {
                    assert(out.deep_view() =~= out.deep_view().subrange(
                        0,
                        out.deep_view().len() - 1,
                    ) + seq![index_id(names@[i as int]@)]);
                }
            }
        }
        i += 1;
    }
    proof {
        assert(ids_with_prefix(names@.subrange(n as int, n as int), prefix@) =~= Seq::<
            Seq<char>,
        >::empty());
        assert(out.deep_view() =~= ids_with_prefix(names@, prefix@));
    }
    out
}

/// Classifies the file names of the analysis directory into the index of
/// saved analyses: `.json` files under `scn_`, `chr_` and `loc_` prefixes,
/// their ids in the order the names were listed.
pub fn scan_analysis_index(file_names: &Vec<String>) -> (r: AnalysisIndex)
    ensures
        r.scenes.deep_view() == ids_with_prefix(file_names@, "scn_"@),
        r.characters.deep_view() == ids_with_prefix(file_names@, "chr_"@),
        r.locations.deep_view() == ids_with_prefix(file_names@, "loc_"@),
{
    AnalysisIndex {
        scenes: ids_for_prefix(file_names, "scn_"),
        characters: ids_for_prefix(file_names, "chr_"),
        locations: ids_for_prefix(file_names, "loc_"),
    }
}

} // verus!
