//! Verified text helpers for the markup walk: byte and string equality,
//! white-space classification, and splitting a class attribute into its
//! tokens.

use vstd::prelude::*;
use vstd::string::{StrSliceExecFns, StringSliceAdditionalSpecFns};
use vstd::utf8::{decode_utf8, encode_utf8_decode_utf8, encode_utf8_valid_utf8, valid_utf8};

verus! {

/// Byte-for-byte equality of two slices.
pub fn bytes_eq(a: &[u8], b: &[u8]) -> (r: bool)
    ensures
        r == (a@ == b@),
{
    if a.len() != b.len() {
        return false;
    }
    let mut i: usize = 0;
    while i < a.len()
        invariant
            i <= a@.len(),
            a@.len() == b@.len(),
            forall|j: int| 0 <= j < i ==> a@[j] == b@[j],
        decreases a@.len() - i,
    {
        if a[i] != b[i] {
            return false;
        }
        i = i + 1;
    }
    proof {
        assert(a@ =~= b@);
    }
    true
}

/// Character-for-character equality of two string slices, decided on their
/// UTF-8 bytes.
pub fn str_eq(a: &str, b: &str) -> (r: bool)
    ensures
        r == (a@ == b@),
{
    let r = bytes_eq(a.as_bytes(), b.as_bytes());
    proof {
        if a.spec_bytes() == b.spec_bytes() {
            encode_utf8_decode_utf8(a@);
            encode_utf8_decode_utf8(b@);
        }
    }
    r
}

/// The characters with the Unicode white-space property: the split points
/// of a class attribute.
pub open spec fn is_ws_char(c: char) -> bool {
    let u = c as u32;
    u == 0x20 || (0x09 <= u && u <= 0x0D) || u == 0x85 || u == 0xA0 || u == 0x1680 || (0x2000 <= u
        && u <= 0x200A) || u == 0x2028 || u == 0x2029 || u == 0x202F || u == 0x205F || u == 0x3000
}

/// Decides `is_ws_char`.
pub fn is_ws(c: char) -> (r: bool)
    ensures
        r == is_ws_char(c),
{
    let u = c as u32;
    u == 0x20 || (0x09 <= u && u <= 0x0D) || u == 0x85 || u == 0xA0 || u == 0x1680 || (0x2000 <= u
        && u <= 0x200A) || u == 0x2028 || u == 0x2029 || u == 0x202F || u == 0x205F || u == 0x3000
}

/// One step per character: the white-space-separated tokens of `s` from
/// position `i` on, given the start of the token currently open, if any.
pub open spec fn split_ws_go(s: Seq<char>, i: int, cur: Option<int>) -> Seq<Seq<char>>
    decreases s.len() - i,
{
    if i < 0 || i > s.len() {
        Seq::empty()
    } else if i == s.len() {
        match cur {
            Option::Some(st) => seq![s.subrange(st, i)],
            Option::None => Seq::empty(),
        }
    } else if is_ws_char(s[i]) {
        match cur {
            Option::Some(st) => seq![s.subrange(st, i)] + split_ws_go(s, i + 1, Option::None),
            Option::None => split_ws_go(s, i + 1, Option::None),
        }
    } else {
        match cur {
            Option::Some(st) => split_ws_go(s, i + 1, Option::Some(st)),
            Option::None => split_ws_go(s, i + 1, Option::Some(i)),
        }
    }
}

/// The white-space-separated tokens of `s`, in order, each without any
/// white space of its own.
pub open spec fn split_ws(s: Seq<char>) -> Seq<Seq<char>> {
    split_ws_go(s, 0, Option::None)
}

/// The token of `s` that the pair `p` spans.
pub open spec fn span_text(s: Seq<char>, p: (usize, usize)) -> Seq<char> {
    s.subrange(p.0 as int, p.1 as int)
}

/// The `cur` argument of `split_ws_go` that a running `Option<usize>`
/// stands for.
pub open spec fn cur_of(cur: Option<usize>) -> Option<int> {
    match cur {
        Option::Some(st) => Option::Some(st as int),
        Option::None => Option::None,
    }
}

/// The positions of the white-space-separated tokens of `s`: `split_ws` of
/// its characters, each token given by its start and end position.
pub fn class_token_spans(s: &str) -> (r: Vec<(usize, usize)>)
    ensures
        r@.map_values(|p: (usize, usize)| span_text(s@, p)) == split_ws(s@),
        forall|k: int| 0 <= k < r@.len() ==> 0 <= #[trigger] r@[k].0 <= r@[k].1 <= s@.len(),
{
    let n = s.unicode_len();
    let mut out: Vec<(usize, usize)> = Vec::new();
    let mut i: usize = 0;
    let mut cur: Option<usize> = None;
    while i < n
        invariant
            i <= n,
            n == s@.len(),
            out@.map_values(|p: (usize, usize)| span_text(s@, p)) + split_ws_go(
                s@,
                i as int,
                cur_of(cur),
            ) == split_ws(s@),
            forall|k: int| 0 <= k < out@.len() ==> 0 <= #[trigger] out@[k].0 <= out@[k].1 <= i,
            match cur {
                Option::Some(st) => st <= i,
                Option::None => true,
            },
        decreases n - i,
    {
        let ghost prev = out@;
        let ghost prev_cur = cur;
        let c = s.get_char(i);
        if is_ws(c) {
            match cur {
                Some(st) => {
                    out.push((st, i));
                    cur = None;
                    proof {
                        assert(out@.map_values(|p: (usize, usize)| span_text(s@, p))
                            =~= prev.map_values(|p: (usize, usize)| span_text(s@, p)) + seq![
                            s@.subrange(st as int, i as int)]);
                        assert(prev.map_values(|p: (usize, usize)| span_text(s@, p))
                            + split_ws_go(s@, i as int, cur_of(prev_cur)) =~= out@.map_values(
                            |p: (usize, usize)| span_text(s@, p),
                        ) + split_ws_go(s@, i as int + 1, cur_of(cur)));
                    }
                },
                None => {},
            }
        } else {
            if cur.is_none() {
                cur = Some(i);
            }
        }
        i = i + 1;
    }
    let ghost prev = out@;
    match cur {
        Some(st) => {
            out.push((st, n));
            proof {
                assert(out@.map_values(|p: (usize, usize)| span_text(s@, p)) =~= prev.map_values(
                    |p: (usize, usize)| span_text(s@, p),
                ) + seq![s@.subrange(st as int, n as int)]);
            }
        },
        None => {},
    }
    out
}

/// Relies on `String::from_utf8`: it succeeds exactly on valid UTF-8 input
/// and yields its decoding, the sequence `decode_utf8` of `vstd` gives.
#[verifier::external_body]
pub(crate) fn utf8_to_string(bytes: &Vec<u8>) -> (r: Option<String>)
    ensures
        match r {
            Option::Some(s) => valid_utf8(bytes@) && s@ == decode_utf8(bytes@),
            Option::None => !valid_utf8(bytes@),
        },
{
    String::from_utf8(bytes.clone()).ok()
}

/// The ASCII lower-case form of one byte.
pub open spec fn lower_byte(b: u8) -> u8 {
    if 65 <= b <= 90 {
        (b + 32) as u8
    } else {
        b
    }
}

/// The bytes standing for ASCII white space: what a text node may hold and
/// still count as blank.
pub open spec fn is_ascii_ws_byte(b: u8) -> bool {
    b == 32 || b == 9 || b == 10 || b == 12 || b == 13
}

/// Whether every byte of `s` is ASCII white space; an empty node counts.
pub open spec fn all_ws_bytes(s: Seq<u8>) -> bool {
    forall|i: int| 0 <= i < s.len() ==> is_ascii_ws_byte(s[i])
}

/// Decides `all_ws_bytes`.
pub fn bytes_all_ws(s: &Vec<u8>) -> (r: bool)
    ensures
        r == all_ws_bytes(s@),
{
    let mut i: usize = 0;
    while i < s.len()
        invariant
            i <= s@.len(),
            forall|j: int| 0 <= j < i ==> is_ascii_ws_byte(s@[j]),
        decreases s@.len() - i,
    {
        let b = s[i];
        if !(b == 32 || b == 9 || b == 10 || b == 12 || b == 13) {
            return false;
        }
        i = i + 1;
    }
    true
}

} // verus!
