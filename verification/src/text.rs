//! Text as sequences of characters: the small vocabulary that the rest of the
//! library is written in (decimal numbers, whitespace, trimming, prefixes).

use vstd::prelude::*;
use vstd::std_specs::iter::IteratorSpec;
use vstd::string::StringExecFns;
use vstd::utf8::*;

verus! {

/// Appends one character with `String::push`: the text afterwards is the
/// text before followed by that character.
#[verifier::external_body]
pub(crate) fn push_char(s: &mut String, c: char)
    ensures
        final(s)@ == old(s)@.push(c),
{
    s.push(c)
}

/// Decodes bytes with `String::from_utf8`: a text comes back exactly when the
/// bytes are well-formed UTF-8, and its encoding is those bytes again.
#[verifier::external_body]
pub(crate) fn decode(bytes: Vec<u8>) -> (r: Option<String>)
    ensures
        r is Some <==> valid_utf8(bytes@),
        r matches Some(s) ==> encode_utf8(s@) == bytes@,
{
    match String::from_utf8(bytes) {
        Ok(s) => Some(s),
        Err(_) => None,
    }
}

/// The characters of a text, in order.
pub fn chars_of(s: &str) -> (r: Vec<char>)
    ensures
        r@ == s@,
{
    let mut out: Vec<char> = Vec::new();
    let chars = s.chars();
    for c in it: chars
        invariant
            out@ == it.seq().take(it.index() as int),
            it.seq() == s@,
    {
        out.push(c);
    }
    out
}

/// Appends `v[from..to]` to `out`.
pub fn push_range(out: &mut String, v: &Vec<char>, from: usize, to: usize)
    requires
        from <= to <= v.len(),
    ensures
        final(out)@ == old(out)@ + v@.subrange(from as int, to as int),
{
    let mut i: usize = from;
    while i < to
        invariant
            from <= i <= to <= v.len(),
            out@ == old(out)@ + v@.subrange(from as int, i as int),
        decreases to - i,
    {
        push_char(out, v[i]);
        i += 1;
    }
}

/// The number of bytes that a text takes in UTF-8.
pub open spec fn byte_len(s: Seq<char>) -> nat {
    encode_utf8(s).len()
}

/// The character that stands for one decimal digit.
pub open spec fn digit_char(d: nat) -> char
    recommends
        d < 10,
{
    if d == 0 {
        '0'
    } else if d == 1 {
        '1'
    } else if d == 2 {
        '2'
    } else if d == 3 {
        '3'
    } else if d == 4 {
        '4'
    } else if d == 5 {
        '5'
    } else if d == 6 {
        '6'
    } else if d == 7 {
        '7'
    } else if d == 8 {
        '8'
    } else {
        '9'
    }
}

/// A natural number in decimal, without leading zeros.
pub open spec fn decimal(n: nat) -> Seq<char>
    decreases n,
{
    if n < 10 {
        seq![digit_char(n)]
    } else {
        decimal(n / 10).push(digit_char(n % 10))
    }
}

/// An integer in decimal, with a minus sign where it is negative.
pub open spec fn signed_decimal(i: int) -> Seq<char> {
    if i < 0 {
        seq!['-'] + decimal((-i) as nat)
    } else {
        decimal(i as nat)
    }
}

fn digit(d: u64) -> (c: char)
    requires
        d < 10,
    ensures
        c == digit_char(d as nat),
{
    if d == 0 {
        '0'
    } else if d == 1 {
        '1'
    } else if d == 2 {
        '2'
    } else if d == 3 {
        '3'
    } else if d == 4 {
        '4'
    } else if d == 5 {
        '5'
    } else if d == 6 {
        '6'
    } else if d == 7 {
        '7'
    } else if d == 8 {
        '8'
    } else {
        '9'
    }
}

/// Appends a natural number in decimal.
pub fn push_decimal(out: &mut String, n: u64)
    ensures
        final(out)@ == old(out)@ + decimal(n as nat),
    decreases n,
{
    if n >= 10 {
        push_decimal(out, n / 10);
    }
    push_char(out, digit(n % 10));
}

/// Appends an integer in decimal.
pub fn push_signed_decimal(out: &mut String, i: i64)
    ensures
        final(out)@ == old(out)@ + signed_decimal(i as int),
{
    if i < 0 {
        push_char(out, '-');
        // The magnitude of the least value does not fit in an `i64`.
        let magnitude: u64 = if i == i64::MIN {
            9223372036854775808u64
        } else {
            (-i) as u64
        };
        push_decimal(out, magnitude);
    } else {
        push_decimal(out, i as u64);
    }
}

/// A natural number in decimal.
pub fn decimal_string(n: u64) -> (r: String)
    ensures
        r@ == decimal(n as nat),
{
    let mut out = String::new();
    push_decimal(&mut out, n);
    out
}

/// Whether a character is white space: the characters that Unicode gives the
/// property `White_Space`.
pub open spec fn is_space(c: char) -> bool {
    let n = c as u32;
    (0x09 <= n <= 0x0D) || n == 0x20 || n == 0x85 || n == 0xA0 || n == 0x1680 || (0x2000 <= n
        <= 0x200A) || n == 0x2028 || n == 0x2029 || n == 0x202F || n == 0x205F || n == 0x3000
}

/// Whether a character is white space.
pub fn space(c: char) -> (r: bool)
    ensures
        r == is_space(c),
{
    let n: u32 = c as u32;
    (0x09 <= n && n <= 0x0D) || n == 0x20 || n == 0x85 || n == 0xA0 || n == 0x1680 || (0x2000 <= n
        && n <= 0x200A) || n == 0x2028 || n == 0x2029 || n == 0x202F || n == 0x205F || n == 0x3000
}

/// The number of characters at the start of a text that `p` holds of.
pub open spec fn leading(s: Seq<char>, p: spec_fn(char) -> bool) -> nat
    decreases s.len(),
{
    if s.len() > 0 && p(s[0]) {
        1 + leading(s.skip(1), p)
    } else {
        0
    }
}

/// `is_space` as a value.
pub open spec fn spaces() -> spec_fn(char) -> bool {
    |c: char| is_space(c)
}

/// The number of white-space characters that a text begins with.
pub open spec fn leading_spaces(s: Seq<char>) -> nat {
    leading(s, spaces())
}

/// The number of white-space characters that a text ends with.
pub open spec fn trailing_spaces(s: Seq<char>) -> nat
    decreases s.len(),
{
    if s.len() > 0 && is_space(s.last()) {
        1 + trailing_spaces(s.drop_last())
    } else {
        0
    }
}

/// A text without the white space that it begins with.
pub open spec fn trim_start(s: Seq<char>) -> Seq<char> {
    s.skip(leading_spaces(s) as int)
}

/// A text without the white space at either end.
pub open spec fn trim(s: Seq<char>) -> Seq<char> {
    let t = trim_start(s);
    t.take(t.len() - trailing_spaces(t))
}

/// `leading` counts no more than the text holds, `p` holds of everything it
/// counts, and not of what follows.
pub proof fn lemma_leading(s: Seq<char>, p: spec_fn(char) -> bool)
    ensures
        leading(s, p) <= s.len(),
        forall|i: int| 0 <= i < leading(s, p) ==> p(#[trigger] s[i]),
        leading(s, p) < s.len() ==> !p(s[leading(s, p) as int]),
    decreases s.len(),
{
    if s.len() > 0 && p(s[0]) {
        let t = s.skip(1);
        lemma_leading(t, p);
        assert forall|i: int| 0 <= i < leading(s, p) implies p(#[trigger] s[i]) by {
            if i > 0 {
                assert(s[i] == t[i - 1]);
            }
        }
        if leading(s, p) < s.len() {
            assert(s[leading(s, p) as int] == t[leading(t, p) as int]);
        }
    }
}

/// A count of characters at the start of a text that stops at the first
/// character of which `p` does not hold is `leading`.
pub proof fn lemma_leading_is(s: Seq<char>, p: spec_fn(char) -> bool, n: int)
    requires
        0 <= n <= s.len(),
        forall|i: int| 0 <= i < n ==> p(#[trigger] s[i]),
        n < s.len() ==> !p(s[n]),
    ensures
        leading(s, p) == n,
    decreases s.len(),
{
    if n > 0 {
        let t = s.skip(1);
        assert(p(s[0]));
        assert forall|i: int| 0 <= i < n - 1 implies p(#[trigger] t[i]) by {
            assert(t[i] == s[i + 1]);
        }
        if n - 1 < t.len() {
            assert(t[n - 1] == s[n]);
        }
        lemma_leading_is(t, p, n - 1);
    }
}

/// A count of trailing white space that stops at the last other character is
/// `trailing_spaces`.
pub proof fn lemma_trailing_spaces_is(s: Seq<char>, n: int)
    requires
        0 <= n <= s.len(),
        forall|i: int| s.len() - n <= i < s.len() ==> is_space(#[trigger] s[i]),
        n < s.len() ==> !is_space(s[s.len() - n - 1]),
    ensures
        trailing_spaces(s) == n,
    decreases s.len(),
{
    if n > 0 {
        let t = s.drop_last();
        assert(is_space(s[s.len() - 1]));
        assert forall|i: int| t.len() - (n - 1) <= i < t.len() implies is_space(
            #[trigger] t[i],
        ) by {
            assert(t[i] == s[i]);
        }
        if n - 1 < t.len() {
            assert(t[t.len() - (n - 1) - 1] == s[s.len() - n - 1]);
        }
        lemma_trailing_spaces_is(t, n - 1);
    }
}

/// The index of the first character at or after `from` that is not white
/// space, or the length where there is none.
pub fn skip_spaces(v: &Vec<char>, from: usize) -> (r: usize)
    requires
        from <= v.len(),
    ensures
        r == from + leading_spaces(v@.skip(from as int)),
        from <= r <= v.len(),
{
    let mut i: usize = from;
    while i < v.len() && space(v[i])
        invariant
            from <= i <= v.len(),
            forall|k: int| from <= k < i ==> is_space(#[trigger] v@[k]),
        decreases v.len() - i,
    {
        i += 1;
    }
    proof {
        let t = v@.skip(from as int);
        assert forall|k: int| 0 <= k < i - from implies spaces()(#[trigger] t[k]) by {
            assert(t[k] == v@[from + k]);
        }
        lemma_leading_is(t, spaces(), i - from);
    }
    i
}

/// The text without the white space at either end.
pub fn trimmed(s: &str) -> (r: String)
    ensures
        r@ == trim(s@),
{
    let v = chars_of(s);
    let start = skip_spaces(&v, 0);
    let mut end: usize = v.len();
    while end > start && space(v[end - 1])
        invariant
            start <= end <= v.len(),
            forall|k: int| end <= k < v.len() ==> is_space(#[trigger] v@[k]),
        decreases end,
    {
        end -= 1;
    }
    let mut out = String::new();
    push_range(&mut out, &v, start, end);
    proof {
        assert(v@.skip(0) == v@);
        let t = trim_start(s@);
        assert(t == v@.skip(start as int));
        lemma_leading(v@, spaces());
        assert forall|k: int| t.len() - (v.len() - end) <= k < t.len() implies is_space(
            #[trigger] t[k],
        ) by {
            assert(t[k] == v@[start + k]);
        }
        if v.len() - end < t.len() {
            assert(t[t.len() - (v.len() - end) - 1] == v@[end - 1]);
        }
        lemma_trailing_spaces_is(t, v.len() - end);
        assert(trim(s@) =~= v@.subrange(start as int, end as int));
    }
    out
}

/// Whether `s` begins with `p`.
pub fn starts_with(s: &Vec<char>, p: &Vec<char>) -> (r: bool)
    ensures
        r == p@.is_prefix_of(s@),
{
    if p.len() > s.len() {
        return false;
    }
    let mut i: usize = 0;
    while i < p.len()
        invariant
            i <= p.len() <= s.len(),
            forall|k: int| 0 <= k < i ==> s@[k] == p@[k],
        decreases p.len() - i,
    {
        if s[i] != p[i] {
            return false;
        }
        i += 1;
    }
    assert(p@ =~= s@.subrange(0, p@.len() as int));
    true
}

/// The text of an optional string.
pub open spec fn option_view(o: Option<String>) -> Option<Seq<char>> {
    match o {
        Some(s) => Some(s@),
        None => None,
    }
}

/// The texts of a list of strings, in order.
pub open spec fn strings_view(v: Seq<String>) -> Seq<Seq<char>> {
    v.map_values(|s: String| s@)
}

/// Appends a copy of a text to a list of strings.
pub fn push_str(v: &mut Vec<String>, s: &str)
    ensures
        strings_view(final(v)@) == strings_view(old(v)@).push(s@),
{
    v.push(String::from_str(s));
    assert(strings_view(v@) =~= strings_view(old(v)@).push(s@));
}

/// Appends the concatenation of two texts to a list of strings.
pub fn push_joined(v: &mut Vec<String>, a: &str, b: &str)
    ensures
        strings_view(final(v)@) == strings_view(old(v)@).push(a@ + b@),
{
    v.push(String::from_str(a).concat(b));
    assert(strings_view(v@) =~= strings_view(old(v)@).push(a@ + b@));
}

} // verus!
