//! Text helpers shared by the rest of the crate: comparison, decimal
//! numerals, placeholder substitution, trimming and UTF-8 decoding.
//!
//! Every function here is stated over the characters (`Seq<char>`) or the
//! bytes (`Seq<u8>`) of its arguments.

use vstd::prelude::*;
use vstd::string::StringExecFns;
use vstd::string::StringSliceAdditionalSpecFns;
use vstd::string::StrSliceExecFns;
use vstd::utf8::decode_utf8;
use vstd::utf8::encode_utf8;
use vstd::utf8::valid_utf8;

verus! {

/// The characters of `s`, in order.
pub fn chars_of(s: &str) -> (v: Vec<char>)
    ensures
        v@ == s@,
{
    let mut v: Vec<char> = Vec::new();
    let chars = s.chars();
    for c in it: chars
        invariant
            v@ == it.seq().take(it.index() as int),
            it.seq() == s@,
    {
        v.push(c);
    }
    v
}

/// Whether two byte strings hold the same bytes.
pub fn bytes_eq(a: &[u8], b: &[u8]) -> (r: bool)
    ensures
        r == (a@ == b@),
{
    if a.len() != b.len() {
        return false;
    }
    let mut i: usize = 0;
    while i < a.len()
        invariant
            i <= a.len(),
            a.len() == b.len(),
            forall|k: int| 0 <= k < i ==> a@[k] == b@[k],
        decreases a.len() - i,
    {
        if a[i] != b[i] {
            return false;
        }
        i += 1;
    }
    assert(a@ =~= b@);
    true
}

/// Two texts with the same UTF-8 encoding are the same text.
pub proof fn lemma_encoding_is_injective(a: Seq<char>, b: Seq<char>)
    requires
        encode_utf8(a) == encode_utf8(b),
    ensures
        a == b,
{
    vstd::utf8::encode_utf8_decode_utf8(a);
    vstd::utf8::encode_utf8_decode_utf8(b);
}

/// Whether two texts hold the same characters.
pub fn str_eq(a: &str, b: &str) -> (r: bool)
    ensures
        r == (a@ == b@),
{
    let r = bytes_eq(a.as_bytes(), b.as_bytes());
    proof {
        if r {
            lemma_encoding_is_injective(a@, b@);
        }
    }
    r
}

/// The text that `bytes` encodes in UTF-8, where they encode one.
///
/// Trusted: calls `std::str::from_utf8`, which succeeds exactly on
/// well-formed UTF-8 and then hands the same bytes back as a `str`.
#[verifier::external_body]
fn utf8_text(bytes: &[u8]) -> (r: Option<&str>)
    ensures
        r is Some <==> valid_utf8(bytes@),
        r matches Some(s) ==> s.spec_bytes() == bytes@,
{
    match std::str::from_utf8(bytes) {
        Ok(s) => Some(s),
        Err(_) => None,
    }
}

/// Decodes a frame of bytes as text: `Some` exactly when the bytes are
/// well-formed UTF-8, and then the text they encode.
pub fn decode_text(bytes: &[u8]) -> (r: Option<String>)
    ensures
        r is Some <==> valid_utf8(bytes@),
        r matches Some(s) ==> s@ == decode_utf8(bytes@),
{
    match utf8_text(bytes) {
        Some(s) => {
            proof {
                vstd::utf8::encode_utf8_decode_utf8(s@);
            }
            Some(s.to_owned())
        },
        None => None,
    }
}

/// The decimal digit for `d`, where `d < 10`.
pub open spec fn digit_char(d: nat) -> char {
    if d == 0 {
        '0'
    } else if d == 1 {
        '1'
    } else if d == 2 {
        '2'
    } else if d == 3 {
        '3'
    } else if d == 4 {
        '4'
    } else if d == 5 {
        '5'
    } else if d == 6 {
        '6'
    } else if d == 7 {
        '7'
    } else if d == 8 {
        '8'
    } else {
        '9'
    }
}

/// The decimal numeral of `n`, most significant digit first, without
/// leading zeros.
pub open spec fn decimal_spec(n: nat) -> Seq<char>
    decreases n,
{
    if n < 10 {
        seq![digit_char(n)]
    } else {
        decimal_spec(n / 10).push(digit_char(n % 10))
    }
}

fn digit_str(d: u32) -> (s: &'static str)
    requires
        d < 10,
    ensures
        s@ == seq![digit_char(d as nat)],
{
    proof {
        reveal_strlit("0");
        reveal_strlit("1");
        reveal_strlit("2");
        reveal_strlit("3");
        reveal_strlit("4");
        reveal_strlit("5");
        reveal_strlit("6");
        reveal_strlit("7");
        reveal_strlit("8");
        reveal_strlit("9");
    }
    let s = if d == 0 {
        "0"
    } else if d == 1 {
        "1"
    } else if d == 2 {
        "2"
    } else if d == 3 {
        "3"
    } else if d == 4 {
        "4"
    } else if d == 5 {
        "5"
    } else if d == 6 {
        "6"
    } else if d == 7 {
        "7"
    } else if d == 8 {
        "8"
    } else {
        "9"
    };
    assert(s@ =~= seq![digit_char(d as nat)]);
    s
}

/// Writes `n` as a decimal numeral.
pub fn decimal(n: u32) -> (s: String)
    ensures
        s@ == decimal_spec(n as nat),
    decreases n,
{
    if n < 10 {
        digit_str(n).to_owned()
    } else {
        let mut s = decimal(n / 10);
        s.append(digit_str(n % 10));
        s
    }
}

/// Whether `needle` stands in `hay` at position `i`.
pub open spec fn occurs_at(hay: Seq<char>, needle: Seq<char>, i: int) -> bool {
    &&& 0 <= i
    &&& i + needle.len() <= hay.len()
    &&& hay.subrange(i, i + needle.len()) == needle
}

/// Whether `needle` stands somewhere in `hay`.
pub open spec fn occurs_in(hay: Seq<char>, needle: Seq<char>) -> bool {
    exists|i: int| occurs_at(hay, needle, i)
}

/// `hay` with every occurrence of `needle` replaced by `value`.
///
/// Occurrences are found from left to right and do not overlap: after a
/// match the search goes on behind it, so what was written for `value` is
/// not searched again. With an empty `needle` nothing is replaced.
pub open spec fn substitute_spec(hay: Seq<char>, needle: Seq<char>, value: Seq<char>) -> Seq<char>
    decreases hay.len(),
{
    if needle.len() == 0 || hay.len() < needle.len() {
        hay
    } else if occurs_at(hay, needle, 0) {
        value + substitute_spec(hay.skip(needle.len() as int), needle, value)
    } else {
        seq![hay[0]] + substitute_spec(hay.skip(1), needle, value)
    }
}

fn matches_at(hay: &Vec<char>, needle: &Vec<char>, i: usize) -> (r: bool)
    requires
        i + needle.len() <= hay.len(),
    ensures
        r == occurs_at(hay@, needle@, i as int),
{
    let mut k: usize = 0;
    while k < needle.len()
        invariant
            k <= needle.len(),
            i + needle.len() <= hay.len(),
            forall|j: int| 0 <= j < k ==> hay@[i + j] == needle@[j],
        decreases needle.len() - k,
    {
        if hay[i + k] != needle[k] {
            assert(hay@.subrange(i as int, i + needle.len())[k as int] == hay@[i + k]);
            return false;
        }
        k += 1;
    }
    assert(hay@.subrange(i as int, i + needle.len()) =~= needle@);
    true
}

proof fn lemma_substitute_step(hay: Seq<char>, needle: Seq<char>, value: Seq<char>, i: int)
    requires
        needle.len() > 0,
        0 <= i <= hay.len(),
    ensures
        i + needle.len() > hay.len() ==> substitute_spec(hay.skip(i), needle, value) == hay.skip(i),
        occurs_at(hay, needle, i) ==> substitute_spec(hay.skip(i), needle, value) == value
            + substitute_spec(hay.skip(i + needle.len()), needle, value),
        i + needle.len() <= hay.len() && !occurs_at(hay, needle, i) ==> substitute_spec(
            hay.skip(i),
            needle,
            value,
        ) == seq![hay[i]] + substitute_spec(hay.skip(i + 1), needle, value),
{
    let rest = hay.skip(i);
    if i + needle.len() <= hay.len() {
        assert(rest.subrange(0, needle.len() as int) =~= hay.subrange(i, i + needle.len()));
        assert(rest.skip(needle.len() as int) =~= hay.skip(i + needle.len()));
        assert(rest.skip(1) =~= hay.skip(i + 1));
        assert(rest[0] == hay[i]);
    }
}

/// A text in which the placeholder does not occur is left as it is.
pub proof fn lemma_substitute_without_occurrence(
    hay: Seq<char>,
    needle: Seq<char>,
    value: Seq<char>,
)
    requires
        !occurs_in(hay, needle),
    ensures
        substitute_spec(hay, needle, value) == hay,
    decreases hay.len(),
{
    if needle.len() > 0 && hay.len() >= needle.len() {
        assert(!occurs_at(hay, needle, 0));
        let rest = hay.skip(1);
        assert forall|i: int| !occurs_at(rest, needle, i) by {
            if occurs_at(rest, needle, i) {
                assert(hay.subrange(i + 1, i + 1 + needle.len()) =~= rest.subrange(
                    i,
                    i + needle.len(),
                ));
                assert(occurs_at(hay, needle, i + 1));
            }
        }
        lemma_substitute_without_occurrence(rest, needle, value);
        assert(seq![hay[0]] + rest =~= hay);
    }
}

/// Where the placeholder stands at one place only, the value is put there
/// as it is, whatever it holds: it is not searched, not even for the
/// placeholder itself.
pub proof fn lemma_substitute_sole_occurrence(
    before: Seq<char>,
    needle: Seq<char>,
    after: Seq<char>,
    value: Seq<char>,
)
    requires
        needle.len() > 0,
        forall|i: int| 0 <= i < before.len() ==> !occurs_at(before + needle + after, needle, i),
        !occurs_in(after, needle),
    ensures
        substitute_spec(before + needle + after, needle, value) == before + value + after,
    decreases before.len(),
{
    let hay = before + needle + after;
    if before.len() == 0 {
        assert(hay.subrange(0, needle.len() as int) =~= needle);
        assert(hay.skip(needle.len() as int) =~= after);
        lemma_substitute_without_occurrence(after, needle, value);
        assert(value + after =~= before + value + after);
    } else {
        let rest = before.skip(1);
        assert(!occurs_at(hay, needle, 0));
        assert(hay.skip(1) =~= rest + needle + after);
        assert forall|i: int| 0 <= i < rest.len() implies !occurs_at(
            rest + needle + after,
            needle,
            i,
        ) by {
            if occurs_at(rest + needle + after, needle, i) {
                assert(hay.subrange(i + 1, i + 1 + needle.len()) =~= (rest + needle + after).subrange(
                    i,
                    i + needle.len(),
                ));
                assert(occurs_at(hay, needle, i + 1));
            }
        }
        lemma_substitute_sole_occurrence(rest, needle, after, value);
        assert(seq![hay[0]] + (rest + value + after) =~= before + value + after);
    }
}

/// Replaces every occurrence of the placeholder `needle` in `hay` by
/// `value`, in one pass from left to right.
pub fn substitute(hay: &str, needle: &str, value: &str) -> (out: String)
    ensures
        out@ == substitute_spec(hay@, needle@, value@),
{
    let h = chars_of(hay);
    let n = chars_of(needle);
    if n.len() == 0 || h.len() < n.len() {
        return hay.to_owned();
    }
    let mut out = String::new();
    let mut start: usize = 0;
    let mut i: usize = 0;
    let last: usize = h.len() - n.len();
    proof {
        assert(hay@.skip(0) =~= hay@);
        assert(out@ + hay@.subrange(0, 0) =~= Seq::<char>::empty());
        assert(Seq::<char>::empty() + substitute_spec(hay@, needle@, value@)
            =~= substitute_spec(hay@, needle@, value@));
    }
    while i <= last
        invariant
            last == h.len() - n.len(),
            h@ == hay@,
            n@ == needle@,
            0 < n.len() <= h.len(),
            start <= i <= h.len(),
            substitute_spec(hay@, needle@, value@) == out@ + hay@.subrange(start as int, i as int)
                + substitute_spec(hay@.skip(i as int), needle@, value@),
        decreases h.len() - i,
    {
        proof {
            lemma_substitute_step(hay@, needle@, value@, i as int);
        }
        if matches_at(&h, &n, i) {
            let ghost before = out@;
            let ghost piece = hay@.subrange(start as int, i as int);
            let ghost rest = substitute_spec(hay@.skip(i + n.len()), needle@, value@);
            out.append(hay.substring_char(start, i));
            out.append(value);
            i = i + n.len();
            start = i;
            assert(out@ + hay@.subrange(start as int, i as int) + rest =~= before + piece + (
            value@ + rest));
        } else {
            let ghost before = out@;
            let ghost piece = hay@.subrange(start as int, i as int);
            let ghost rest = substitute_spec(hay@.skip(i + 1), needle@, value@);
            assert(before + hay@.subrange(start as int, i + 1) + rest =~= before + piece + (
            seq![hay@[i as int]] + rest));
            i = i + 1;
        }
    }
    proof {
        lemma_substitute_step(hay@, needle@, value@, i as int);
        assert(hay@.subrange(start as int, i as int) + hay@.skip(i as int) =~= hay@.skip(
            start as int,
        ));
        assert(hay@.skip(start as int) =~= hay@.subrange(start as int, hay@.len() as int));
    }
    out.append(hay.substring_char(start, h.len()));
    out
}

/// Whether `c` is white space: the blanks that are removed from the ends
/// of a line of output.
pub open spec fn is_space(c: char) -> bool {
    let u = c as u32;
    ||| 0x09 <= u <= 0x0d
    ||| u == 0x20
    ||| u == 0x85
    ||| u == 0xa0
    ||| u == 0x1680
    ||| 0x2000 <= u <= 0x200a
    ||| u == 0x2028
    ||| u == 0x2029
    ||| u == 0x202f
    ||| u == 0x205f
    ||| u == 0x3000
}

/// `s` without the white space at its start.
pub open spec fn trim_start_spec(s: Seq<char>) -> Seq<char>
    decreases s.len(),
{
    if s.len() > 0 && is_space(s[0]) {
        trim_start_spec(s.skip(1))
    } else {
        s
    }
}

/// `s` without the white space at its end.
pub open spec fn trim_end_spec(s: Seq<char>) -> Seq<char>
    decreases s.len(),
{
    if s.len() > 0 && is_space(s.last()) {
        trim_end_spec(s.drop_last())
    } else {
        s
    }
}

/// `s` without the white space at either end.
pub open spec fn trim_spec(s: Seq<char>) -> Seq<char> {
    trim_end_spec(trim_start_spec(s))
}

fn is_space_char(c: char) -> (r: bool)
    ensures
        r == is_space(c),
{
    let u: u32 = c as u32;
    (0x09 <= u && u <= 0x0d) || u == 0x20 || u == 0x85 || u == 0xa0 || u == 0x1680 || (0x2000
        <= u && u <= 0x200a) || u == 0x2028 || u == 0x2029 || u == 0x202f || u == 0x205f || u
        == 0x3000
}

/// Removes the white space at both ends of `s`.
pub fn trim(s: &str) -> (r: &str)
    ensures
        r@ == trim_spec(s@),
{
    let v = chars_of(s);
    let mut a: usize = 0;
    proof {
        assert(s@.skip(0) =~= s@);
    }
    while a < v.len() && is_space_char(v[a])
        invariant
            v@ == s@,
            a <= v.len(),
            trim_start_spec(s@) == trim_start_spec(s@.skip(a as int)),
        decreases v.len() - a,
    {
        proof {
            assert(s@.skip(a as int).skip(1) =~= s@.skip(a + 1));
        }
        a += 1;
    }
    let mut b: usize = v.len();
    proof {
        assert(s@.skip(a as int) =~= s@.subrange(a as int, b as int));
    }
    while b > a && is_space_char(v[b - 1])
        invariant
            v@ == s@,
            a <= b <= v.len(),
            trim_spec(s@) == trim_end_spec(s@.subrange(a as int, b as int)),
        decreases b - a,
    {
        proof {
            assert(s@.subrange(a as int, b as int).drop_last() =~= s@.subrange(
                a as int,
                b - 1,
            ));
        }
        b -= 1;
    }
    s.substring_char(a, b)
}

} // verus!
