//! Percent-encoding of query components, and the dashboard window's query
//! string.

use vstd::prelude::*;

use crate::strutil::push_char;
use vstd::string::StringExecFns;
use vstd::string::StringSliceAdditionalSpecFns;

verus! {

/// The bytes that stand for themselves in a query component (the unreserved
/// set: letters, digits, `-`, `.`, `_`, `~`).
pub open spec fn is_unreserved(b: u8) -> bool {
    (65 <= b && b <= 90) || (97 <= b && b <= 122) || (48 <= b && b <= 57) || b == 45 || b == 46
        || b == 95 || b == 126
}

/// The upper-case hex digits.
pub open spec fn hex_upper(d: nat) -> char {
    if d == 0 {
        '0'
    } else if d == 1 {
        '1'
    } else if d == 2 {
        '2'
    } else if d == 3 {
        '3'
    } else if d == 4 {
        '4'
    } else if d == 5 {
        '5'
    } else if d == 6 {
        '6'
    } else if d == 7 {
        '7'
    } else if d == 8 {
        '8'
    } else if d == 9 {
        '9'
    } else if d == 10 {
        'A'
    } else if d == 11 {
        'B'
    } else if d == 12 {
        'C'
    } else if d == 13 {
        'D'
    } else if d == 14 {
        'E'
    } else {
        'F'
    }
}

/// One byte of a query component: itself when unreserved, else `%XX`.
pub open spec fn enc_byte(b: u8) -> Seq<char> {
    if is_unreserved(b) {
        seq![b as char]
    } else {
        seq!['%', hex_upper((b / 16) as nat), hex_upper((b % 16) as nat)]
    }
}

pub open spec fn enc_bytes(bs: Seq<u8>) -> Seq<char>
    decreases bs.len(),
{
    if bs.len() == 0 {
        Seq::empty()
    } else {
        enc_byte(bs[0]) + enc_bytes(bs.subrange(1, bs.len() as int))
    }
}

proof fn lemma_enc_push(a: Seq<u8>, b: u8)
    ensures
        enc_bytes(a.push(b)) =~= enc_bytes(a) + enc_byte(b),
    decreases a.len(),
{
    if a.len() == 0 {
        assert(a.push(b)[0] == b);
        assert(a.push(b).subrange(1, 1) =~= Seq::<u8>::empty());
        assert(enc_bytes(Seq::<u8>::empty()) == Seq::<char>::empty());
        assert(enc_bytes(a.push(b)) == enc_byte(b) + Seq::<char>::empty());
        assert(enc_byte(b) + Seq::<char>::empty() =~= Seq::<char>::empty() + enc_byte(b));
    } else {
        let sub1 = a.subrange(1, a.len() as int);
        assert(a.push(b)[0] == a[0]);
        assert(a.push(b).subrange(1, a.len() as int + 1) =~= sub1.push(b));
        lemma_enc_push(sub1, b);
        assert(enc_bytes(a.push(b)) == enc_byte(a[0]) + enc_bytes(sub1.push(b)));
        assert(enc_bytes(a) == enc_byte(a[0]) + enc_bytes(sub1));
        assert(enc_byte(a[0]) + (enc_bytes(sub1) + enc_byte(b)) =~= (enc_byte(a[0]) + enc_bytes(
            sub1,
        )) + enc_byte(b));
    }
}

fn hex_upper_exec(d: u8) -> (c: char)
    requires
        d < 16,
    ensures
        c == hex_upper(d as nat),
{
    match d {
        0 => '0',
        1 => '1',
        2 => '2',
        3 => '3',
        4 => '4',
        5 => '5',
        6 => '6',
        7 => '7',
        8 => '8',
        9 => '9',
        10 => 'A',
        11 => 'B',
        12 => 'C',
        13 => 'D',
        14 => 'E',
        _ => 'F',
    }
}

/// Percent-encodes a string for use in a window query: each byte of its
/// UTF-8 form is kept when unreserved and written `%XX` otherwise.
pub fn encode_query_component(input: &str) -> (r: String)
    ensures
        r@ == enc_bytes(input.spec_bytes()),
{
    let bytes = input.as_bytes();
    let n = bytes.len();
    let mut out = String::new();
    let mut i: usize = 0;
    proof {
        assert(bytes@.subrange(0, 0) =~= Seq::<u8>::empty());
        assert(out@ =~= enc_bytes(bytes@.subrange(0, 0)));
    }
    while i < n
        invariant
            i <= n,
            n == bytes@.len(),
            out@ == enc_bytes(bytes@.subrange(0, i as int)),
        decreases n - i,
    {
        let b = bytes[i];
        let unreserved = (65 <= b && b <= 90) || (97 <= b && b <= 122) || (48 <= b && b <= 57) || b
            == 45 || b == 46 || b == 95 || b == 126;
        if unreserved {
            push_char(&mut out, b as char);
        } else {
            push_char(&mut out, '%');
            push_char(&mut out, hex_upper_exec(b / 16));
            push_char(&mut out, hex_upper_exec(b % 16));
        }
        proof {
            assert(bytes@.subrange(0, i + 1) =~= bytes@.subrange(0, i as int).push(
                bytes@[i as int],
            ));
            lemma_enc_push(bytes@.subrange(0, i as int), bytes@[i as int]);
            assert(out@ =~= enc_bytes(bytes@.subrange(0, i + 1)));
        }
        i += 1;
    }
    proof {
        assert(bytes@.subrange(0, n as int) =~= bytes@);
    }
    out
}

/// The query string the dashboard window opens with: the encoded project
/// path and title.
pub fn dashboard_query(project_path: &str, project_title: &str) -> (r: String)
    ensures
        r@ == "project="@ + enc_bytes(project_path.spec_bytes()) + "&title="@ + enc_bytes(
            project_title.spec_bytes(),
        ),
{
    let out = String::from_str("project=").concat(
        encode_query_component(project_path).as_str(),
    ).concat("&title=").concat(encode_query_component(project_title).as_str());
    proof {
        assert(out@ =~= "project="@ + enc_bytes(project_path.spec_bytes()) + "&title="@ + enc_bytes(
            project_title.spec_bytes(),
        ));
    }
    out
}

} // verus!
