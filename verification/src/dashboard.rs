//! Reading the CLI's query answers: array extraction, scene and location
//! summaries, project counts, and the classification of a missing saved
//! analysis. The application runs the subprocess; what its JSON means is
//! decided here.

use vstd::prelude::*;

use crate::discovery::strings_of;
use crate::json::Json;
use crate::runs::clamp_to_usize;
use crate::runs::i64_to_usize_clamped;
use crate::strutil::contains_seq;
use crate::strutil::str_contains;
use crate::types::LocationSummary;
use crate::types::ProjectSummary;
use crate::types::SceneSummary;
use vstd::string::StringExecFns;

verus! {

broadcast use
    vstd::seq::axiom_seq_index_decreases,
    vstd::seq::axiom_seq_subrange_decreases,
    vstd::std_specs::vec::axiom_vec_decreases_to_view,
;

/// The array a query answer denotes: the answer itself when it is an array,
/// else the array under `key` of an object answer, else nothing (which reads
/// as empty).
pub open spec fn spec_extract_array(data: Json, key: Seq<char>) -> Option<Json> {
    match data {
        Json::Arr(_) => Some(data),
        Json::Obj(_) => match data.spec_get(key) {
            Some(v) => if v is Arr {
                Some(v)
            } else {
                None
            },
            None => None,
        },
        _ => None,
    }
}

/// Extracts the item array of a query answer; `None` reads as an empty list.
pub fn extract_array_field<'a>(data: &'a Json, key: &str) -> (r: Option<&'a Vec<Json>>)
    ensures
        match r {
            Some(v) => spec_extract_array(*data, key@) matches Some(j) && j is Arr && j->Arr_0
                == *v,
            None => spec_extract_array(*data, key@) is None,
        },
{
    match data {
        Json::Arr(items) => Some(items),
        Json::Obj(_) => match data.get(key) {
            Some(Json::Arr(items)) => Some(items),
            _ => None,
        },
        _ => None,
    }
}

// --- summaries ---

/// A non-negative count field; anything else reads as zero.
pub open spec fn count_field(j: Json, key: Seq<char>) -> usize {
    match j.spec_get_i64(key) {
        Some(n) => if n >= 0 {
            clamp_to_usize(n)
        } else {
            0usize
        },
        None => 0usize,
    }
}

fn count_field_exec(j: &Json, key: &str) -> (r: usize)
    ensures
        r == count_field(*j, key@),
{
    match j.get_i64(key) {
        Some(n) => {
            if n >= 0 {
                i64_to_usize_clamped(n)
            } else {
                0
            }
        },
        None => 0,
    }
}

/// A string field, the empty string when absent or not a string.
pub open spec fn string_field_or_empty(j: Json, key: Seq<char>) -> Seq<char> {
    match j.spec_get_str(key) {
        Some(s) => s,
        None => Seq::empty(),
    }
}

fn string_field_exec(j: &Json, key: &str) -> (r: String)
    ensures
        r@ == string_field_or_empty(*j, key@),
{
    match j.get_str(key) {
        Some(s) => s,
        None => String::new(),
    }
}

/// The string items under an array field; anything else reads as empty.
pub open spec fn string_list_field(j: Json, key: Seq<char>) -> Seq<Seq<char>> {
    match j.spec_get(key) {
        Some(v) => if v is Arr {
            strings_of(v->Arr_0@)
        } else {
            Seq::empty()
        },
        None => Seq::empty(),
    }
}

fn string_list_exec(j: &Json, key: &str) -> (r: Vec<String>)
    ensures
        r.deep_view() == string_list_field(*j, key@),
{
    let items: &Vec<Json> = match j.get(key) {
        Some(Json::Arr(items)) => items,
        _ => {
            return Vec::new();
        },
    };
    let n = items.len();
    let mut out: Vec<String> = Vec::new();
    let mut i: usize = 0;
    proof {
        assert(items@.subrange(0, n as int) =~= items@);
    }
    while i < n
        invariant
            i <= n,
            n == items@.len(),
            strings_of(items@) == out.deep_view() + strings_of(
                items@.subrange(i as int, n as int),
            ),
        decreases n - i,
    {
        proof {
            assert(items@.subrange(i as int, n as int)[0] == items@[i as int]);
            assert(items@.subrange(i as int, n as int).subrange(1, (n - i) as int)
                =~= items@.subrange(i + 1, n as int));
        }
        match items[i].as_str() {
            Some(s) => {
                out.push(s.clone());
                proof {
                    assert(out.deep_view() =~= out.deep_view().subrange(
                        0,
                        out.deep_view().len() - 1,
                    ) + seq![items@[i as int]->Str_0@]);
                }
            },
            None => (),
        }
        i += 1;
    }
    proof {
        assert(strings_of(items@.subrange(n as int, n as int)) =~= Seq::<Seq<char>>::empty());
        assert(out.deep_view() =~= strings_of(items@));
    }
    out
}

/// The object items of an answer array, each with its position — the
/// position is the fallback scene index.
pub open spec fn obj_items(items: Seq<Json>, idx: int) -> Seq<(int, Json)>
    decreases items.len(),
{
    if items.len() == 0 {
        Seq::empty()
    } else {
        (if items[0] is Obj {
            seq![(idx, items[0])]
        } else {
            Seq::empty()
        }) + obj_items(items.subrange(1, items.len() as int), idx + 1)
    }
}

/// One scene summary read from one answer object: absent strings read as
/// empty, absent counts as zero, an absent index as the item's position.
pub open spec fn scene_matches(idx: int, item: Json, s: SceneSummary) -> bool {
    &&& s.id@ == string_field_or_empty(item, "id"@)
    &&& s.index as int == (match item.spec_get_i64("index"@) {
        Some(n) => if n >= 0 {
            clamp_to_usize(n) as int
        } else {
            idx
        },
        None => idx,
    })
    &&& s.slugline@ == string_field_or_empty(item, "slugline"@)
    &&& s.duration@ == string_field_or_empty(item, "duration"@)
    &&& s.word_count == count_field(item, "word_count"@)
    &&& s.line_count == count_field(item, "line_count"@)
    &&& s.characters.deep_view() == string_list_field(item, "characters"@)
}

/// One location summary read from one answer object.
pub open spec fn location_matches(item: Json, s: LocationSummary) -> bool {
    &&& s.id@ == string_field_or_empty(item, "id"@)
    &&& s.name@ == string_field_or_empty(item, "name"@)
    &&& s.scene_count == count_field(item, "scene_count"@)
    &&& s.page_count == count_field(item, "page_count"@)
}

proof fn lemma_obj_items_push(a: Seq<Json>, x: Json, idx: int)
    ensures
        obj_items(a.push(x), idx) =~= obj_items(a, idx) + (if x is Obj {
            seq![(idx + a.len() as int, x)]
        } else {
            Seq::<(int, Json)>::empty()
        }),
    decreases a.len(),
{
    let tail: Seq<(int, Json)> = if x is Obj {
        seq![(idx + a.len() as int, x)]
    } else {
        Seq::empty()
    };
    if a.len() == 0 {
        assert(a.push(x)[0] == x);
        assert(a.push(x).subrange(1, 1) =~= Seq::<Json>::empty());
        assert(obj_items(a.push(x).subrange(1, 1), idx + 1) == Seq::<(int, Json)>::empty());
        assert(obj_items(a.push(x), idx) == tail + Seq::<(int, Json)>::empty());
        assert(tail + Seq::<(int, Json)>::empty() =~= Seq::<(int, Json)>::empty() + tail);
    } else {
        let sub1 = a.subrange(1, a.len() as int);
        let head: Seq<(int, Json)> = if a[0] is Obj {
            seq![(idx, a[0])]
        } else {
            Seq::empty()
        };
        assert(a.push(x)[0] == a[0]);
        assert(a.push(x).subrange(1, a.len() as int + 1) =~= sub1.push(x));
        lemma_obj_items_push(sub1, x, idx + 1);
        assert(obj_items(a.push(x), idx) == head + obj_items(sub1.push(x), idx + 1));
        assert(obj_items(a, idx) == head + obj_items(sub1, idx + 1));
        assert(head + (obj_items(sub1, idx + 1) + tail) =~= (head + obj_items(sub1, idx + 1))
            + tail);
    }
}

fn scene_from_item(item: &Json, idx: usize) -> (r: SceneSummary)
    requires
        item is Obj,
    ensures
        scene_matches(idx as int, *item, r),
{
    let index = match item.get_i64("index") {
        Some(n) => {
            if n >= 0 {
                i64_to_usize_clamped(n)
            } else {
                idx
            }
        },
        None => idx,
    };
    SceneSummary {
        id: string_field_exec(item, "id"),
        index,
        slugline: string_field_exec(item, "slugline"),
        duration: string_field_exec(item, "duration"),
        word_count: count_field_exec(item, "word_count"),
        line_count: count_field_exec(item, "line_count"),
        characters: string_list_exec(item, "characters"),
    }
}

/// Reads the scene summaries out of an answer array: one per object item, in
/// order; items of any other shape are passed over, though they still count
/// for the fallback index.
pub fn parse_scene_summaries(items: &Vec<Json>) -> (r: Vec<SceneSummary>)
    ensures
        ({
            let pairs = obj_items(items@, 0);
            r@.len() == pairs.len() && (forall|k: int|
                0 <= k < pairs.len() ==> scene_matches(
                    (#[trigger] pairs[k]).0,
                    pairs[k].1,
                    r@[k],
                ))
        }),
{
    let n = items.len();
    let mut out: Vec<SceneSummary> = Vec::new();
    let mut i: usize = 0;
    proof {
        assert(items@.subrange(0, 0) =~= Seq::<Json>::empty());
    }
    while i < n
        invariant
            i <= n,
            n == items@.len(),
            ({
                let pairs = obj_items(items@.subrange(0, i as int), 0);
                out@.len() == pairs.len() && (forall|k: int|
                    0 <= k < pairs.len() ==> scene_matches(
                        (#[trigger] pairs[k]).0,
                        pairs[k].1,
                        out@[k],
                    ))
            }),
        decreases n - i,
    {
        if items[i].is_obj() {
            out.push(scene_from_item(&items[i], i));
        }
        proof {
            assert(items@.subrange(0, i + 1) =~= items@.subrange(0, i as int).push(
                items@[i as int],
            ));
            lemma_obj_items_push(items@.subrange(0, i as int), items@[i as int], 0);
        }
        i += 1;
    }
    proof {
        assert(items@.subrange(0, n as int) =~= items@);
    }
    out
}

/// Reads the location summaries out of an answer array.
pub fn parse_location_summaries(items: &Vec<Json>) -> (r: Vec<LocationSummary>)
    ensures
        ({
            let pairs = obj_items(items@, 0);
            r@.len() == pairs.len() && (forall|k: int|
                0 <= k < pairs.len() ==> location_matches((#[trigger] pairs[k]).1, r@[k]))
        }),
{
    let n = items.len();
    let mut out: Vec<LocationSummary> = Vec::new();
    let mut i: usize = 0;
    proof {
        assert(items@.subrange(0, 0) =~= Seq::<Json>::empty());
    }
    while i < n
        invariant
            i <= n,
            n == items@.len(),
            ({
                let pairs = obj_items(items@.subrange(0, i as int), 0);
                out@.len() == pairs.len() && (forall|k: int|
                    0 <= k < pairs.len() ==> location_matches((#[trigger] pairs[k]).1, out@[k]))
            }),
        decreases n - i,
    {
        if items[i].is_obj() {
            out.push(
                LocationSummary {
                    id: string_field_exec(&items[i], "id"),
                    name: string_field_exec(&items[i], "name"),
                    scene_count: count_field_exec(&items[i], "scene_count"),
                    page_count: count_field_exec(&items[i], "page_count"),
                },
            );
        }
        proof {
            assert(items@.subrange(0, i + 1) =~= items@.subrange(0, i as int).push(
                items@[i as int],
            ));
            lemma_obj_items_push(items@.subrange(0, i as int), items@[i as int], 0);
        }
        i += 1;
    }
    proof {
        assert(items@.subrange(0, n as int) =~= items@);
    }
    out
}

// --- project summary counts ---

/// The value a count is read from: the first of the two direct keys that is
/// present, else the key under `statistics`.
pub open spec fn summary_count_value(data: Json, count_key: Seq<char>, plain_key: Seq<char>) -> Option<
    Json,
> {
    match data.spec_get(count_key) {
        Some(v) => Some(v),
        None => match data.spec_get(plain_key) {
            Some(v) => Some(v),
            None => match data.spec_get("statistics"@) {
                Some(stats) => stats.spec_get(plain_key),
                None => None,
            },
        },
    }
}

/// The count that value denotes: a non-negative integer, else zero.
pub open spec fn summary_count(data: Json, count_key: Seq<char>, plain_key: Seq<char>) -> usize {
    match summary_count_value(data, count_key, plain_key) {
        Some(Json::Int(n)) => if n >= 0 {
            clamp_to_usize(n)
        } else {
            0usize
        },
        _ => 0usize,
    }
}

fn summary_count_exec(data: &Json, count_key: &str, plain_key: &str) -> (r: usize)
    ensures
        r == summary_count(*data, count_key@, plain_key@),
{
    let v: Option<&Json> = match data.get(count_key) {
        Some(v) => Some(v),
        None => match data.get(plain_key) {
            Some(v) => Some(v),
            None => match data.get("statistics") {
                Some(stats) => stats.get(plain_key),
                None => None,
            },
        },
    };
    match v {
        Some(Json::Int(n)) => {
            if *n >= 0 {
                i64_to_usize_clamped(*n)
            } else {
                0
            }
        },
        _ => 0,
    }
}

/// The compositions count has no `statistics` fallback.
pub open spec fn compositions_count(data: Json) -> usize {
    let v = match data.spec_get("composition_count"@) {
        Some(v) => Some(v),
        None => data.spec_get("compositions"@),
    };
    match v {
        Some(Json::Int(n)) => if n >= 0 {
            clamp_to_usize(n)
        } else {
            0usize
        },
        _ => 0usize,
    }
}

/// Reads the project summary counts out of a statistics answer, tolerating
/// the `<kind>_count`, plain, and nested-under-`statistics` spellings.
pub fn project_summary_from(data: &Json) -> (r: ProjectSummary)
    ensures
        r.scenes == summary_count(*data, "scene_count"@, "scenes"@),
        r.characters == summary_count(*data, "character_count"@, "characters"@),
        r.locations == summary_count(*data, "location_count"@, "locations"@),
        r.compositions == compositions_count(*data),
{
    let compositions = {
        let v: Option<&Json> = match data.get("composition_count") {
            Some(v) => Some(v),
            None => data.get("compositions"),
        };
        match v {
            Some(Json::Int(n)) => {
                if *n >= 0 {
                    i64_to_usize_clamped(*n)
                } else {
                    0
                }
            },
            _ => 0,
        }
    };
    ProjectSummary {
        scenes: summary_count_exec(data, "scene_count", "scenes"),
        characters: summary_count_exec(data, "character_count", "characters"),
        locations: summary_count_exec(data, "location_count", "locations"),
        compositions,
    }
}

// --- saved-analysis lookup ---

/// Does a query error mean "no saved analysis" rather than a real failure?
/// Yes when it speaks of a missing result or of the subprocess's exit.
pub fn analysis_miss(error: &str) -> (r: bool)
    ensures
        r == (contains_seq(error@, "not found"@) || contains_seq(error@, "no analysis"@)
            || contains_seq(error@, "exit"@)),
{
    str_contains(error, "not found") || str_contains(error, "no analysis") || str_contains(
        error,
        "exit",
    )
}

/// The first scene with the given id, removed from the list and handed out.
pub open spec fn find_by_scene_id(s: Seq<SceneSummary>, id: Seq<char>) -> Option<SceneSummary>
    decreases s.len(),
{
    if s.len() == 0 {
        None
    } else if s[0].id@ == id {
        Some(s[0])
    } else {
        find_by_scene_id(s.subrange(1, s.len() as int), id)
    }
}

pub fn find_scene(scenes: Vec<SceneSummary>, scene_id: &str) -> (r: Option<SceneSummary>)
    ensures
        r == find_by_scene_id(scenes@, scene_id@),
{
    let mut items = scenes;
    let ghost orig = items@;
    let n = items.len();
    let mut i: usize = 0;
    proof {
        assert(orig.subrange(0, n as int) =~= orig);
    }
    while i < n
        invariant
            i <= n,
            n == items@.len(),
            items@ == orig,
            orig == scenes@,
            find_by_scene_id(orig, scene_id@) == find_by_scene_id(
                orig.subrange(i as int, n as int),
                scene_id@,
            ),
        decreases n - i,
    {
        proof {
            assert(orig.subrange(i as int, n as int)[0] == orig[i as int]);
            assert(orig.subrange(i as int, n as int).subrange(1, (n - i) as int) =~= orig.subrange(
                i + 1,
                n as int,
            ));
        }
        if crate::strutil::str_eq(items[i].id.as_str(), scene_id) {
            proof {
                let sub = orig.subrange(i as int, n as int);
                assert(sub[0].id@ == scene_id@);
                assert(find_by_scene_id(sub, scene_id@) == Some(sub[0]));
                assert(find_by_scene_id(orig, scene_id@) == Some(orig[i as int]));
            }
            let s = items.remove(i);
            return Some(s);
        }
        i += 1;
    }
    None
}

/// The first location with the given id, removed from the list and handed
/// out.
pub open spec fn find_by_location_id(s: Seq<LocationSummary>, id: Seq<char>) -> Option<
    LocationSummary,
>
    decreases s.len(),
{
    if s.len() == 0 {
        None
    } else if s[0].id@ == id {
        Some(s[0])
    } else {
        find_by_location_id(s.subrange(1, s.len() as int), id)
    }
}

pub fn find_location(locations: Vec<LocationSummary>, location_id: &str) -> (r: Option<
    LocationSummary,
>)
    ensures
        r == find_by_location_id(locations@, location_id@),
{
    let mut items = locations;
    let ghost orig = items@;
    let n = items.len();
    let mut i: usize = 0;
    proof {
        assert(orig.subrange(0, n as int) =~= orig);
    }
    while i < n
        invariant
            i <= n,
            n == items@.len(),
            items@ == orig,
            orig == locations@,
            find_by_location_id(orig, location_id@) == find_by_location_id(
                orig.subrange(i as int, n as int),
                location_id@,
            ),
        decreases n - i,
    {
        proof {
            assert(orig.subrange(i as int, n as int)[0] == orig[i as int]);
            assert(orig.subrange(i as int, n as int).subrange(1, (n - i) as int) =~= orig.subrange(
                i + 1,
                n as int,
            ));
        }
        if crate::strutil::str_eq(items[i].id.as_str(), location_id) {
            proof {
                let sub = orig.subrange(i as int, n as int);
                assert(sub[0].id@ == location_id@);
                assert(find_by_location_id(sub, location_id@) == Some(sub[0]));
                assert(find_by_location_id(orig, location_id@) == Some(orig[i as int]));
            }
            let s = items.remove(i);
            return Some(s);
        }
        i += 1;
    }
    None
}

} // verus!
