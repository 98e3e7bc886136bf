//! The library's model of a JSON value, with verified accessors, a verified
//! text encoder, and a trusted decoder over `serde_json`.
//!
//! Numbers that fit a signed 64-bit integer are held as `Int`; any other
//! numeric token (a fraction, an exponent, a very large magnitude) is kept as
//! its literal text in `NumText`, which reads as no integer, string or bool —
//! the same answers the reference reader gives for such values.

use vstd::prelude::*;

use crate::strutil::dec_int;
use crate::strutil::dec_of;
use crate::strutil::digit_16;
use crate::strutil::digit16_exec;
use crate::strutil::i64_to_dec;
use crate::strutil::push_char;
use crate::strutil::str_eq;
use vstd::string::StringExecFns;

verus! {

broadcast use
    vstd::seq::axiom_seq_index_decreases,
    vstd::seq::axiom_seq_subrange_decreases,
    vstd::std_specs::vec::axiom_vec_decreases_to_view,
;

#[derive(Debug, PartialEq)]
pub enum Json {
    Null,
    Bool(bool),
    Int(i64),
    NumText(String),
    Str(String),
    Arr(Vec<Json>),
    Obj(Vec<(String, Json)>),
}

// --- lookup ---

/// First binding of `key` in an object's field list.
pub open spec fn obj_lookup(fields: Seq<(String, Json)>, key: Seq<char>) -> Option<Json>
    decreases fields.len(),
{
    if fields.len() == 0 {
        None
    } else if fields[0].0@ == key {
        Some(fields[0].1)
    } else {
        obj_lookup(fields.subrange(1, fields.len() as int), key)
    }
}

impl Json {
    /// The value bound to `key`, when this value is an object holding it.
    pub open spec fn spec_get(&self, key: Seq<char>) -> Option<Json> {
        match self {
            Json::Obj(fields) => obj_lookup(fields@, key),
            _ => None,
        }
    }

    pub open spec fn spec_as_str(&self) -> Option<Seq<char>> {
        match self {
            Json::Str(s) => Some(s@),
            _ => None,
        }
    }

    pub open spec fn spec_as_i64(&self) -> Option<i64> {
        match self {
            Json::Int(i) => Some(*i),
            _ => None,
        }
    }

    pub open spec fn spec_as_bool(&self) -> Option<bool> {
        match self {
            Json::Bool(b) => Some(*b),
            _ => None,
        }
    }

    pub fn is_obj(&self) -> (r: bool)
        ensures
            r == (*self is Obj),
    {
        matches!(self, Json::Obj(_))
    }

    pub fn get<'a>(&'a self, key: &str) -> (r: Option<&'a Json>)
        ensures
            match r {
                Some(v) => self.spec_get(key@) == Some(*v),
                None => self.spec_get(key@) is None,
            },
    {
        match self {
            Json::Obj(fields) => {
                let n = fields.len();
                let mut i: usize = 0;
                proof {
                    assert(fields@.subrange(0, n as int) =~= fields@);
                }
                while i < n
                    invariant
                        i <= n,
                        n == fields@.len(),
                        *self is Obj,
                        (*self)->Obj_0 == *fields,
                        obj_lookup(fields@, key@) == obj_lookup(
                            fields@.subrange(i as int, n as int),
                            key@,
                        ),
                    decreases n - i,
                {
                    proof {
                        assert(fields@.subrange(i as int, n as int)[0] == fields@[i as int]);
                    }
                    if str_eq(fields[i].0.as_str(), key) {
                        proof {
                            let sub = fields@.subrange(i as int, n as int);
                            assert(sub[0].0@ == key@);
                            assert(obj_lookup(sub, key@) == Some(sub[0].1));
                            assert(obj_lookup(fields@, key@) == Some(fields@[i as int].1));
                        }
                        return Some(&fields[i].1);
                    }
                    proof {
                        assert(fields@.subrange(i as int, n as int).subrange(
                            1,
                            (n - i) as int,
                        ) =~= fields@.subrange(i + 1, n as int));
                    }
                    i += 1;
                }
                proof {
                    assert(fields@.subrange(n as int, n as int).len() == 0);
                }
                None
            },
            _ => None,
        }
    }

    pub fn as_str<'a>(&'a self) -> (r: Option<&'a String>)
        ensures
            match r {
                Some(s) => self.spec_as_str() == Some(s@),
                None => self.spec_as_str() is None,
            },
    {
        match self {
            Json::Str(s) => Some(s),
            _ => None,
        }
    }

    pub fn as_i64(&self) -> (r: Option<i64>)
        ensures
            r == self.spec_as_i64(),
    {
        match self {
            Json::Int(i) => Some(*i),
            _ => None,
        }
    }

    pub fn as_bool(&self) -> (r: Option<bool>)
        ensures
            r == self.spec_as_bool(),
    {
        match self {
            Json::Bool(b) => Some(*b),
            _ => None,
        }
    }

    /// The string bound to `key`, if this value is an object and the binding
    /// is a string.
    pub open spec fn spec_get_str(&self, key: Seq<char>) -> Option<Seq<char>> {
        match self.spec_get(key) {
            Some(v) => v.spec_as_str(),
            None => None,
        }
    }

    pub open spec fn spec_get_i64(&self, key: Seq<char>) -> Option<i64> {
        match self.spec_get(key) {
            Some(v) => v.spec_as_i64(),
            None => None,
        }
    }

    pub open spec fn spec_get_bool(&self, key: Seq<char>) -> Option<bool> {
        match self.spec_get(key) {
            Some(v) => v.spec_as_bool(),
            None => None,
        }
    }

    /// The string bound to `key`, owned — the common "read a string field"
    /// step of envelope handling.
    pub fn get_str(&self, key: &str) -> (r: Option<String>)
        ensures
            match r {
                Some(s) => self.spec_get_str(key@) == Some(s@),
                None => self.spec_get_str(key@) is None,
            },
    {
        match self.get(key) {
            Some(v) => match v.as_str() {
                Some(s) => Some(s.clone()),
                None => None,
            },
            None => None,
        }
    }

    pub fn get_i64(&self, key: &str) -> (r: Option<i64>)
        ensures
            r == self.spec_get_i64(key@),
    {
        match self.get(key) {
            Some(v) => v.as_i64(),
            None => None,
        }
    }

    pub fn get_bool(&self, key: &str) -> (r: Option<bool>)
        ensures
            r == self.spec_get_bool(key@),
    {
        match self.get(key) {
            Some(v) => v.as_bool(),
            None => None,
        }
    }
}

/// Lookup passes over a prefix of fields whose keys all differ from `key`.
pub proof fn lemma_obj_lookup_skip(fields: Seq<(String, Json)>, key: Seq<char>, i: int)
    requires
        0 <= i <= fields.len(),
        forall|j: int| 0 <= j < i ==> (#[trigger] fields[j].0)@ != key,
    ensures
        obj_lookup(fields, key) == obj_lookup(fields.subrange(i, fields.len() as int), key),
    decreases i,
{
    if i == 0 {
        assert(fields.subrange(0, fields.len() as int) =~= fields);
    } else {
        let rest = fields.subrange(1, fields.len() as int);
        assert(obj_lookup(fields, key) == obj_lookup(rest, key));
        lemma_obj_lookup_skip(rest, key, i - 1);
        assert(rest.subrange(i - 1, rest.len() as int) =~= fields.subrange(
            i,
            fields.len() as int,
        ));
    }
}

/// Lookup finds the first field whose key is `key`.
pub proof fn lemma_obj_lookup_found(fields: Seq<(String, Json)>, key: Seq<char>, i: int)
    requires
        0 <= i < fields.len(),
        forall|j: int| 0 <= j < i ==> (#[trigger] fields[j].0)@ != key,
        fields[i].0@ == key,
    ensures
        obj_lookup(fields, key) == Some(fields[i].1),
{
    lemma_obj_lookup_skip(fields, key, i);
    assert(fields.subrange(i, fields.len() as int)[0] == fields[i]);
}

/// Lookup misses when no field carries `key`.
pub proof fn lemma_obj_lookup_absent(fields: Seq<(String, Json)>, key: Seq<char>)
    requires
        forall|j: int| 0 <= j < fields.len() ==> (#[trigger] fields[j].0)@ != key,
    ensures
        obj_lookup(fields, key) is None,
{
    lemma_obj_lookup_skip(fields, key, fields.len() as int);
}

// --- encoding to text ---

/// How one character of a string is written inside a JSON string literal:
/// the two-character escapes, `\u00XX` for the remaining control characters,
/// and every other character as itself.
pub open spec fn esc_char(c: char) -> Seq<char> {
    if c == '"' {
        seq!['\\', '"']
    } else if c == '\\' {
        seq!['\\', '\\']
    } else if c == '\u{8}' {
        seq!['\\', 'b']
    } else if c == '\u{c}' {
        seq!['\\', 'f']
    } else if c == '\n' {
        seq!['\\', 'n']
    } else if c == '\r' {
        seq!['\\', 'r']
    } else if c == '\t' {
        seq!['\\', 't']
    } else if (c as u32) < 32 {
        seq!['\\', 'u', '0', '0', digit_16((c as u32 / 16) as nat), digit_16((c as u32 % 16) as nat)]
    } else {
        seq![c]
    }
}

pub open spec fn esc_seq(s: Seq<char>) -> Seq<char>
    decreases s.len(),
{
    if s.len() == 0 {
        Seq::empty()
    } else {
        esc_char(s[0]) + esc_seq(s.subrange(1, s.len() as int))
    }
}

/// A JSON string literal: quotes around the escaped characters.
pub open spec fn str_lit(s: Seq<char>) -> Seq<char> {
    seq!['"'] + esc_seq(s) + seq!['"']
}

/// The text of one JSON value, exactly as this library writes it: no spaces,
/// object fields in the order held.
pub open spec fn json_text(v: Json) -> Seq<char>
    decreases v,
{
    match v {
        Json::Null => seq!['n', 'u', 'l', 'l'],
        Json::Bool(b) => if b {
            seq!['t', 'r', 'u', 'e']
        } else {
            seq!['f', 'a', 'l', 's', 'e']
        },
        Json::Int(i) => dec_int(i as int),
        Json::NumText(s) => s@,
        Json::Str(s) => str_lit(s@),
        Json::Arr(items) => seq!['['] + arr_text(items@) + seq![']'],
        Json::Obj(fields) => seq!['{'] + obj_text(fields@) + seq!['}'],
    }
}

pub open spec fn arr_text(items: Seq<Json>) -> Seq<char>
    decreases items,
{
    if items.len() == 0 {
        Seq::empty()
    } else {
        json_text(items[0]) + arr_tail(items.subrange(1, items.len() as int))
    }
}

pub open spec fn arr_tail(items: Seq<Json>) -> Seq<char>
    decreases items,
{
    if items.len() == 0 {
        Seq::empty()
    } else {
        seq![','] + json_text(items[0]) + arr_tail(items.subrange(1, items.len() as int))
    }
}

pub open spec fn obj_text(fields: Seq<(String, Json)>) -> Seq<char>
    decreases fields,
{
    if fields.len() == 0 {
        Seq::empty()
    } else {
        str_lit(fields[0].0@) + seq![':'] + json_text(fields[0].1) + obj_tail(
            fields.subrange(1, fields.len() as int),
        )
    }
}

pub open spec fn obj_tail(fields: Seq<(String, Json)>) -> Seq<char>
    decreases fields,
{
    if fields.len() == 0 {
        Seq::empty()
    } else {
        seq![','] + str_lit(fields[0].0@) + seq![':'] + json_text(fields[0].1) + obj_tail(
            fields.subrange(1, fields.len() as int),
        )
    }
}

/// One rendered object field.
pub open spec fn pair_text(key: Seq<char>, v: Json) -> Seq<char> {
    str_lit(key) + seq![':'] + json_text(v)
}

proof fn lemma_esc_push(a: Seq<char>, c: char)
    ensures
        esc_seq(a.push(c)) =~= esc_seq(a) + esc_char(c),
    decreases a.len(),
{
    if a.len() == 0 {
        assert(a.push(c)[0] == c);
        assert(a.push(c).subrange(1, 1) =~= Seq::<char>::empty());
        assert(esc_seq(Seq::<char>::empty()) == Seq::<char>::empty());
        assert(esc_seq(a.push(c)) == esc_char(c) + Seq::<char>::empty());
        assert(esc_char(c) + Seq::<char>::empty() =~= Seq::<char>::empty() + esc_char(c));
    } else {
        let sub1 = a.subrange(1, a.len() as int);
        assert(a.push(c)[0] == a[0]);
        assert(a.push(c).subrange(1, a.len() as int + 1) =~= sub1.push(c));
        lemma_esc_push(sub1, c);
        assert(esc_seq(a.push(c)) == esc_char(a[0]) + esc_seq(sub1.push(c)));
        assert(esc_seq(a) == esc_char(a[0]) + esc_seq(sub1));
        assert(esc_char(a[0]) + (esc_seq(sub1) + esc_char(c)) =~= (esc_char(a[0]) + esc_seq(sub1))
            + esc_char(c));
    }
}

proof fn lemma_arr_tail_push(a: Seq<Json>, x: Json)
    ensures
        arr_tail(a.push(x)) =~= arr_tail(a) + seq![','] + json_text(x),
    decreases a.len(),
{
    if a.len() == 0 {
        assert(a.push(x)[0] == x);
        assert(a.push(x).subrange(1, 1) =~= Seq::<Json>::empty());
        assert(arr_tail(Seq::<Json>::empty()) == Seq::<char>::empty());
        assert(arr_tail(a.push(x)) == seq![','] + json_text(x) + Seq::<char>::empty());
        assert(seq![','] + json_text(x) + Seq::<char>::empty() =~= Seq::<char>::empty() + seq![',']
            + json_text(x));
    } else {
        let sub1 = a.subrange(1, a.len() as int);
        assert(a.push(x)[0] == a[0]);
        assert(a.push(x).subrange(1, a.len() as int + 1) =~= sub1.push(x));
        lemma_arr_tail_push(sub1, x);
        assert(arr_tail(a.push(x)) == seq![','] + json_text(a[0]) + arr_tail(sub1.push(x)));
        assert(arr_tail(a) == seq![','] + json_text(a[0]) + arr_tail(sub1));
        assert(seq![','] + json_text(a[0]) + (arr_tail(sub1) + seq![','] + json_text(x)) =~= (
        seq![','] + json_text(a[0]) + arr_tail(sub1)) + seq![','] + json_text(x));
    }
}

proof fn lemma_arr_text_push(a: Seq<Json>, x: Json)
    ensures
        a.len() == 0 ==> arr_text(a.push(x)) =~= json_text(x),
        a.len() > 0 ==> arr_text(a.push(x)) =~= arr_text(a) + seq![','] + json_text(x),
    decreases a.len(),
{
    if a.len() == 0 {
        assert(a.push(x)[0] == x);
        assert(a.push(x).subrange(1, 1) =~= Seq::<Json>::empty());
    } else {
        let sub1 = a.subrange(1, a.len() as int);
        assert(a.push(x)[0] == a[0]);
        assert(a.push(x).subrange(1, a.len() as int + 1) =~= sub1.push(x));
        lemma_arr_tail_push(sub1, x);
        assert(arr_text(a.push(x)) == json_text(a[0]) + arr_tail(sub1.push(x)));
        assert(arr_text(a) == json_text(a[0]) + arr_tail(sub1));
        assert(json_text(a[0]) + (arr_tail(sub1) + seq![','] + json_text(x)) =~= (json_text(a[0])
            + arr_tail(sub1)) + seq![','] + json_text(x));
    }
}

proof fn lemma_obj_tail_push(a: Seq<(String, Json)>, k: String, x: Json)
    ensures
        obj_tail(a.push((k, x))) =~= obj_tail(a) + seq![','] + pair_text(k@, x),
    decreases a.len(),
{
    if a.len() == 0 {
        assert(a.push((k, x))[0] == (k, x));
        assert(a.push((k, x)).subrange(1, 1) =~= Seq::<(String, Json)>::empty());
        assert(obj_tail(Seq::<(String, Json)>::empty()) == Seq::<char>::empty());
        assert(obj_tail(a.push((k, x))) == seq![','] + str_lit(k@) + seq![':'] + json_text(x)
            + Seq::<char>::empty());
        assert(seq![','] + str_lit(k@) + seq![':'] + json_text(x) + Seq::<char>::empty() =~= Seq::<
            char,
        >::empty() + seq![','] + (str_lit(k@) + seq![':'] + json_text(x)));
    } else {
        let sub1 = a.subrange(1, a.len() as int);
        let head = seq![','] + str_lit(a[0].0@) + seq![':'] + json_text(a[0].1);
        assert(a.push((k, x))[0] == a[0]);
        assert(a.push((k, x)).subrange(1, a.len() as int + 1) =~= sub1.push((k, x)));
        lemma_obj_tail_push(sub1, k, x);
        assert(obj_tail(a.push((k, x))) == head + obj_tail(sub1.push((k, x))));
        assert(obj_tail(a) == head + obj_tail(sub1));
        assert(head + (obj_tail(sub1) + seq![','] + pair_text(k@, x)) =~= (head + obj_tail(sub1))
            + seq![','] + pair_text(k@, x));
    }
}

proof fn lemma_obj_text_push(a: Seq<(String, Json)>, k: String, x: Json)
    ensures
        a.len() == 0 ==> obj_text(a.push((k, x))) =~= pair_text(k@, x),
        a.len() > 0 ==> obj_text(a.push((k, x))) =~= obj_text(a) + seq![','] + pair_text(k@, x),
    decreases a.len(),
{
    if a.len() == 0 {
        assert(a.push((k, x))[0] == (k, x));
        assert(a.push((k, x)).subrange(1, 1) =~= Seq::<(String, Json)>::empty());
    } else {
        let sub1 = a.subrange(1, a.len() as int);
        let head = str_lit(a[0].0@) + seq![':'] + json_text(a[0].1);
        assert(a.push((k, x))[0] == a[0]);
        assert(a.push((k, x)).subrange(1, a.len() as int + 1) =~= sub1.push((k, x)));
        lemma_obj_tail_push(sub1, k, x);
        assert(obj_text(a.push((k, x))) == head + obj_tail(sub1.push((k, x))));
        assert(obj_text(a) == head + obj_tail(sub1));
        assert(head + (obj_tail(sub1) + seq![','] + pair_text(k@, x)) =~= (head + obj_tail(sub1))
            + seq![','] + pair_text(k@, x));
    }
}

/// Writes the escaped characters of `s` (no surrounding quotes).
fn write_escaped(out: &mut String, s: &str)
    ensures
        final(out)@ == old(out)@ + esc_seq(s@),
{
    let n = s.unicode_len();
    let mut i: usize = 0;
    proof {
        assert(esc_seq(s@.subrange(0, 0)) =~= Seq::<char>::empty());
        assert(old(out)@ + esc_seq(s@.subrange(0, 0)) =~= old(out)@);
    }
    while i < n
        invariant
            i <= n,
            n == s@.len(),
            out@ == old(out)@ + esc_seq(s@.subrange(0, i as int)),
        decreases n - i,
    {
        let c = s.get_char(i);
        if c == '"' {
            push_char(out, '\\');
            push_char(out, '"');
        } else if c == '\\' {
            push_char(out, '\\');
            push_char(out, '\\');
        } else if c == '\u{8}' {
            push_char(out, '\\');
            push_char(out, 'b');
        } else if c == '\u{c}' {
            push_char(out, '\\');
            push_char(out, 'f');
        } else if c == '\n' {
            push_char(out, '\\');
            push_char(out, 'n');
        } else if c == '\r' {
            push_char(out, '\\');
            push_char(out, 'r');
        } else if c == '\t' {
            push_char(out, '\\');
            push_char(out, 't');
        } else if (c as u32) < 32 {
            let u = c as u32;
            push_char(out, '\\');
            push_char(out, 'u');
            push_char(out, '0');
            push_char(out, '0');
            push_char(out, digit16_exec((u / 16) as u64));
            push_char(out, digit16_exec((u % 16) as u64));
        } else {
            push_char(out, c);
        }
        proof {
            assert(out@ =~= old(out)@ + esc_seq(s@.subrange(0, i as int)) + esc_char(
                s@[i as int],
            ));
            assert(s@.subrange(0, i + 1) =~= s@.subrange(0, i as int).push(s@[i as int]));
            lemma_esc_push(s@.subrange(0, i as int), s@[i as int]);
            assert(out@ =~= old(out)@ + esc_seq(s@.subrange(0, i + 1)));
        }
        i += 1;
    }
    proof {
        assert(s@.subrange(0, n as int) =~= s@);
    }
}

/// Writes a JSON string literal for `s`.
fn write_str_lit(out: &mut String, s: &str)
    ensures
        final(out)@ == old(out)@ + str_lit(s@),
{
    push_char(out, '"');
    write_escaped(out, s);
    push_char(out, '"');
    proof {
        assert(out@ =~= old(out)@ + str_lit(s@));
    }
}

/// Writes the JSON text of `v` onto `out`.
pub fn write_json(out: &mut String, v: &Json)
    ensures
        final(out)@ == old(out)@ + json_text(*v),
    decreases *v,
{
    match v {
        Json::Null => {
            push_char(out, 'n');
            push_char(out, 'u');
            push_char(out, 'l');
            push_char(out, 'l');
            proof {
                assert(out@ =~= old(out)@ + json_text(*v));
            }
        },
        Json::Bool(b) => {
            if *b {
                push_char(out, 't');
                push_char(out, 'r');
                push_char(out, 'u');
                push_char(out, 'e');
            } else {
                push_char(out, 'f');
                push_char(out, 'a');
                push_char(out, 'l');
                push_char(out, 's');
                push_char(out, 'e');
            }
            proof {
                assert(out@ =~= old(out)@ + json_text(*v));
            }
        },
        Json::Int(i) => {
            let num = i64_to_dec(*i);
            out.append(num.as_str());
        },
        Json::NumText(s) => {
            out.append(s.as_str());
        },
        Json::Str(s) => {
            write_str_lit(out, s.as_str());
        },
        Json::Arr(items) => {
            push_char(out, '[');
            let n = items.len();
            let mut i: usize = 0;
            proof {
                assert(arr_text(items@.subrange(0, 0)) =~= Seq::<char>::empty());
                assert(out@ =~= old(out)@ + seq!['['] + arr_text(items@.subrange(0, 0)));
            }
            while i < n
                invariant
                    i <= n,
                    n == items@.len(),
                    *v is Arr,
                    (*v)->Arr_0 == *items,
                    out@ == old(out)@ + seq!['['] + arr_text(items@.subrange(0, i as int)),
                decreases n - i,
            {
                proof {
                    assert(decreases_to!(*v => *items));
                    assert(decreases_to!(*items => items@));
                    assert(decreases_to!(items@ => items@[i as int]));
                }
                if i > 0 {
                    push_char(out, ',');
                }
                write_json(out, &items[i]);
                proof {
                    assert(items@.subrange(0, i + 1) =~= items@.subrange(0, i as int).push(
                        items@[i as int],
                    ));
                    lemma_arr_text_push(items@.subrange(0, i as int), items@[i as int]);
                    assert(out@ =~= old(out)@ + seq!['['] + arr_text(items@.subrange(0, i + 1)));
                }
                i += 1;
            }
            push_char(out, ']');
            proof {
                assert(items@.subrange(0, n as int) =~= items@);
                assert(out@ =~= old(out)@ + json_text(*v));
            }
        },
        Json::Obj(fields) => {
            push_char(out, '{');
            let n = fields.len();
            let mut i: usize = 0;
            proof {
                assert(obj_text(fields@.subrange(0, 0)) =~= Seq::<char>::empty());
                assert(out@ =~= old(out)@ + seq!['{'] + obj_text(fields@.subrange(0, 0)));
            }
            while i < n
                invariant
                    i <= n,
                    n == fields@.len(),
                    *v is Obj,
                    (*v)->Obj_0 == *fields,
                    out@ == old(out)@ + seq!['{'] + obj_text(fields@.subrange(0, i as int)),
                decreases n - i,
            {
                proof {
                    assert(decreases_to!(*v => *fields));
                    assert(decreases_to!(*fields => fields@));
                    assert(decreases_to!(fields@ => fields@[i as int]));
                    assert(decreases_to!(fields@[i as int] => fields@[i as int].1));
                }
                if i > 0 {
                    push_char(out, ',');
                }
                write_str_lit(out, fields[i].0.as_str());
                push_char(out, ':');
                write_json(out, &fields[i].1);
                proof {
                    assert(fields@.subrange(0, i + 1) =~= fields@.subrange(0, i as int).push(
                        fields@[i as int],
                    ));
                    assert(fields@[i as int] == (fields@[i as int].0, fields@[i as int].1));
                    lemma_obj_text_push(
                        fields@.subrange(0, i as int),
                        fields@[i as int].0,
                        fields@[i as int].1,
                    );
                    assert(out@ =~= old(out)@ + seq!['{'] + obj_text(fields@.subrange(0, i + 1)));
                }
                i += 1;
            }
            push_char(out, '}');
            proof {
                assert(fields@.subrange(0, n as int) =~= fields@);
                assert(out@ =~= old(out)@ + json_text(*v));
            }
        },
    }
}

// --- the one-line guarantee ---

/// No newline and no carriage return anywhere in the text: it stays one line
/// of the wire protocol.
pub open spec fn line_clean(s: Seq<char>) -> bool {
    forall|i: int| 0 <= i < s.len() ==> (#[trigger] s[i]) != '\n' && s[i] != '\r'
}

/// Values whose kept numeric tokens are newline-free. Every value decoded
/// from text and every value this library builds satisfies it; strings need
/// no condition, since encoding escapes them.
pub open spec fn line_safe(v: Json) -> bool
    decreases v,
{
    match v {
        Json::NumText(s) => line_clean(s@),
        Json::Arr(items) => forall|i: int|
            0 <= i < items@.len() ==> line_safe(#[trigger] items@[i]),
        Json::Obj(fields) => forall|i: int|
            0 <= i < fields@.len() ==> line_safe(#[trigger] fields@[i].1),
        _ => true,
    }
}

proof fn lemma_clean_concat(a: Seq<char>, b: Seq<char>)
    requires
        line_clean(a),
        line_clean(b),
    ensures
        line_clean(a + b),
{
    assert forall|i: int| 0 <= i < (a + b).len() implies ((#[trigger] (a + b)[i]) != '\n' && (a
        + b)[i] != '\r') by {
        if i < a.len() {
            assert((a + b)[i] == a[i]);
        } else {
            assert((a + b)[i] == b[i - a.len()]);
        }
    }
}

proof fn lemma_dec_clean(n: nat)
    ensures
        line_clean(dec_of(n)),
    decreases n,
{
    if n < 10 {
        assert(digit_16(n) != '\n' && digit_16(n) != '\r');
    } else {
        lemma_dec_clean(n / 10);
        assert(digit_16(n % 10) != '\n' && digit_16(n % 10) != '\r');
        assert(line_clean(dec_of(n / 10).push(digit_16(n % 10))));
    }
}

proof fn lemma_dec_int_clean(i: int)
    ensures
        line_clean(dec_int(i)),
{
    if i < 0 {
        lemma_dec_clean((-i) as nat);
        lemma_clean_concat(seq!['-'], dec_of((-i) as nat));
    } else {
        lemma_dec_clean(i as nat);
    }
}

proof fn lemma_esc_char_clean(c: char)
    ensures
        line_clean(esc_char(c)),
{
    assert('\n' as u32 == 10);
    assert('\r' as u32 == 13);
    if !(c == '"' || c == '\\' || c == '\u{8}' || c == '\u{c}' || c == '\n' || c == '\r' || c
        == '\t') && (c as u32) < 32 {
        assert(digit_16((c as u32 / 16) as nat) != '\n' && digit_16((c as u32 / 16) as nat)
            != '\r');
        assert(digit_16((c as u32 % 16) as nat) != '\n' && digit_16((c as u32 % 16) as nat)
            != '\r');
    }
}

proof fn lemma_esc_clean(s: Seq<char>)
    ensures
        line_clean(esc_seq(s)),
    decreases s.len(),
{
    if s.len() == 0 {
    } else {
        lemma_esc_char_clean(s[0]);
        lemma_esc_clean(s.subrange(1, s.len() as int));
        lemma_clean_concat(esc_char(s[0]), esc_seq(s.subrange(1, s.len() as int)));
    }
}

proof fn lemma_str_lit_clean(s: Seq<char>)
    ensures
        line_clean(str_lit(s)),
{
    lemma_esc_clean(s);
    lemma_clean_concat(seq!['"'], esc_seq(s));
    lemma_clean_concat(seq!['"'] + esc_seq(s), seq!['"']);
}

/// Law: the encoded text of a line-safe value never contains a newline or a
/// carriage return, so an encoded envelope is exactly one line of the
/// newline-delimited protocol.
pub proof fn lemma_json_text_one_line(v: Json)
    requires
        line_safe(v),
    ensures
        line_clean(json_text(v)),
    decreases v,
{
    match v {
        Json::Null => {},
        Json::Bool(b) => {},
        Json::Int(i) => {
            lemma_dec_int_clean(i as int);
        },
        Json::NumText(s) => {},
        Json::Str(s) => {
            lemma_str_lit_clean(s@);
        },
        Json::Arr(items) => {
            lemma_arr_text_clean(items@);
            lemma_clean_concat(seq!['['], arr_text(items@));
            lemma_clean_concat(seq!['['] + arr_text(items@), seq![']']);
        },
        Json::Obj(fields) => {
            lemma_obj_text_clean(fields@);
            lemma_clean_concat(seq!['{'], obj_text(fields@));
            lemma_clean_concat(seq!['{'] + obj_text(fields@), seq!['}']);
        },
    }
}

proof fn lemma_arr_text_clean(items: Seq<Json>)
    requires
        forall|i: int| 0 <= i < items.len() ==> line_safe(#[trigger] items[i]),
    ensures
        line_clean(arr_text(items)),
    decreases items,
{
    if items.len() == 0 {
    } else {
        let sub1 = items.subrange(1, items.len() as int);
        lemma_json_text_one_line(items[0]);
        lemma_arr_tail_clean(sub1);
        lemma_clean_concat(json_text(items[0]), arr_tail(sub1));
    }
}

proof fn lemma_arr_tail_clean(items: Seq<Json>)
    requires
        forall|i: int| 0 <= i < items.len() ==> line_safe(#[trigger] items[i]),
    ensures
        line_clean(arr_tail(items)),
    decreases items,
{
    if items.len() == 0 {
    } else {
        let sub1 = items.subrange(1, items.len() as int);
        lemma_json_text_one_line(items[0]);
        lemma_arr_tail_clean(sub1);
        lemma_clean_concat(seq![','], json_text(items[0]));
        lemma_clean_concat(seq![','] + json_text(items[0]), arr_tail(sub1));
    }
}

proof fn lemma_obj_text_clean(fields: Seq<(String, Json)>)
    requires
        forall|i: int| 0 <= i < fields.len() ==> line_safe(#[trigger] fields[i].1),
    ensures
        line_clean(obj_text(fields)),
    decreases fields,
{
    if fields.len() == 0 {
    } else {
        let sub1 = fields.subrange(1, fields.len() as int);
        lemma_str_lit_clean(fields[0].0@);
        lemma_json_text_one_line(fields[0].1);
        lemma_obj_tail_clean(sub1);
        lemma_clean_concat(str_lit(fields[0].0@), seq![':']);
        lemma_clean_concat(str_lit(fields[0].0@) + seq![':'], json_text(fields[0].1));
        lemma_clean_concat(
            str_lit(fields[0].0@) + seq![':'] + json_text(fields[0].1),
            obj_tail(sub1),
        );
    }
}

proof fn lemma_obj_tail_clean(fields: Seq<(String, Json)>)
    requires
        forall|i: int| 0 <= i < fields.len() ==> line_safe(#[trigger] fields[i].1),
    ensures
        line_clean(obj_tail(fields)),
    decreases fields,
{
    if fields.len() == 0 {
    } else {
        let sub1 = fields.subrange(1, fields.len() as int);
        lemma_str_lit_clean(fields[0].0@);
        lemma_json_text_one_line(fields[0].1);
        lemma_obj_tail_clean(sub1);
        lemma_clean_concat(seq![','], str_lit(fields[0].0@));
        lemma_clean_concat(seq![','] + str_lit(fields[0].0@), seq![':']);
        lemma_clean_concat(seq![','] + str_lit(fields[0].0@) + seq![':'], json_text(fields[0].1));
        lemma_clean_concat(
            seq![','] + str_lit(fields[0].0@) + seq![':'] + json_text(fields[0].1),
            obj_tail(sub1),
        );
    }
}

/// The JSON text of `v`, as one `String`.
pub fn render_json(v: &Json) -> (r: String)
    ensures
        r@ == json_text(*v),
{
    let mut out = String::new();
    write_json(&mut out, v);
    proof {
        assert(out@ =~= json_text(*v));
    }
    out
}

// --- decoding from text (trusted) ---

/// Declares serde_json::Value so the decoding boundary below can speak of it.
#[verifier::external_type_specification]
#[verifier::external_body]
pub struct ExValue(serde_json::Value);

/// The value that one JSON text parses to, or `None` for malformed text.
pub uninterp spec fn json_of(s: Seq<char>) -> Option<Json>;

/// Relies on serde_json::Value's six variants: each moves one-for-one onto
/// the corresponding library value; an integral number lands in `Int`, any
/// other number keeps its printed token.
#[verifier::external_body]
fn value_to_json(v: serde_json::Value) -> (r: Json) {
    match v {
        serde_json::Value::Null => Json::Null,
        serde_json::Value::Bool(b) => Json::Bool(b),
        serde_json::Value::Number(n) => match n.as_i64() {
            Some(i) => Json::Int(i),
            None => Json::NumText(n.to_string()),
        },
        serde_json::Value::String(s) => Json::Str(s),
        serde_json::Value::Array(a) => Json::Arr(a.into_iter().map(value_to_json).collect()),
        serde_json::Value::Object(o) => Json::Obj(
            o.into_iter().map(|p| (p.0, value_to_json(p.1))).collect(),
        ),
    }
}

/// Relies on serde_json::from_str: the same JSON text parses to the same
/// value tree on every machine, and malformed text parses to nothing. A
/// number's printed token never holds a newline.
#[verifier::external_body]
pub fn parse_json(s: &str) -> (r: Option<Json>)
    ensures
        r == json_of(s@),
        r matches Some(v) ==> line_safe(v),
{
    match serde_json::from_str::<serde_json::Value>(s) {
        Ok(v) => Some(value_to_json(v)),
        Err(_) => None,
    }
}

} // verus!
