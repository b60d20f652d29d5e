//! Character-level text: strings are read into vectors of characters, worked
//! on there, and written back.

use vstd::prelude::*;
use vstd::utf8::encode_utf8;

verus! {

/// `String::push` appends one character to the end of the string.
pub assume_specification[ String::push ](s: &mut String, c: char)
    ensures
        final(s)@ == old(s)@.push(c),
;

/// The view of an optional string.
pub open spec fn opt_view(s: Option<String>) -> Option<Seq<char>> {
    match s {
        Some(s) => Some(s@),
        None => None,
    }
}

/// The length of `s` in bytes, as UTF-8.
pub open spec fn byte_len(s: Seq<char>) -> nat {
    encode_utf8(s).len()
}

pub fn byte_len_of(s: &str) -> (n: usize)
    ensures
        n == byte_len(s@),
{
    s.as_bytes().len()
}

/// The views of a sequence of strings.
pub open spec fn views(words: Seq<String>) -> Seq<Seq<char>> {
    words.map_values(|w: String| w@)
}

/// The characters of `s`, in order.
pub fn chars_of(s: &str) -> (v: Vec<char>)
    ensures
        v@ == s@,
{
    let mut v: Vec<char> = Vec::new();
    for c in it: s.chars()
        invariant
            it.seq() == s@,
            v@ == s@.take(it.index()),
    {
        v.push(c);
    }
    v
}

/// The string made of the characters `v[from..to]`.
pub fn string_of(v: &Vec<char>, from: usize, to: usize) -> (s: String)
    requires
        from <= to <= v.len(),
    ensures
        s@ == v@.subrange(from as int, to as int),
{
    let mut s = String::new();
    let mut i: usize = from;
    while i < to
        invariant
            from <= i <= to <= v.len(),
            s@ == v@.subrange(from as int, i as int),
        decreases to - i,
    {
        s.push(v[i]);
        i += 1;
    }
    s
}

/// Whether `s` begins with `prefix`.
pub open spec fn has_prefix(s: Seq<char>, prefix: Seq<char>) -> bool {
    prefix.len() <= s.len() && s.take(prefix.len() as int) == prefix
}

/// Whether the characters of `v` from `from` on begin with `prefix`.
pub fn starts_with_at(v: &Vec<char>, from: usize, prefix: &Vec<char>) -> (b: bool)
    requires
        from <= v.len(),
    ensures
        b == has_prefix(v@.skip(from as int), prefix@),
{
    if prefix.len() > v.len() - from {
        return false;
    }
    let mut i: usize = 0;
    while i < prefix.len()
        invariant
            from <= v.len(),
            prefix.len() <= v.len() - from,
            i <= prefix.len(),
            forall|k: int| 0 <= k < i ==> v[from + k] == prefix[k],
        decreases prefix.len() - i,
    {
        if v[from + i] != prefix[i] {
            return false;
        }
        i += 1;
    }
    assert(v@.skip(from as int).take(prefix.len() as int) =~= prefix@);
    true
}

/// White space as Unicode defines it (the property `White_Space`).
pub open spec fn is_whitespace(c: char) -> bool {
    let n = c as u32;
    ||| 0x09 <= n <= 0x0D
    ||| n == 0x20
    ||| n == 0x85
    ||| n == 0xA0
    ||| n == 0x1680
    ||| 0x2000 <= n <= 0x200A
    ||| n == 0x2028
    ||| n == 0x2029
    ||| n == 0x202F
    ||| n == 0x205F
    ||| n == 0x3000
}

pub fn char_is_whitespace(c: char) -> (b: bool)
    ensures
        b == is_whitespace(c),
{
    let n: u32 = c as u32;
    (0x09 <= n && n <= 0x0D) || n == 0x20 || n == 0x85 || n == 0xA0 || n == 0x1680 || (0x2000 <= n
        && n <= 0x200A) || n == 0x2028 || n == 0x2029 || n == 0x202F || n == 0x205F || n == 0x3000
}

/// Where `s` without its leading white space begins.
pub open spec fn trim_start_at(s: Seq<char>) -> int
    decreases s.len(),
{
    if s.len() > 0 && is_whitespace(s[0]) {
        1 + trim_start_at(s.skip(1))
    } else {
        0
    }
}

/// Where `s` without its trailing white space ends.
pub open spec fn trim_end_at(s: Seq<char>) -> int
    decreases s.len(),
{
    if s.len() > 0 && is_whitespace(s.last()) {
        trim_end_at(s.drop_last())
    } else {
        s.len() as int
    }
}

/// `s` without the white space at its two ends.
pub open spec fn trimmed(s: Seq<char>) -> Seq<char> {
    let rest = s.skip(trim_start_at(s));
    rest.take(trim_end_at(rest))
}

/// `at` is where the leading white space of `s` ends, if all before it is
/// white space and the character at it is not.
proof fn lemma_trim_start_is(s: Seq<char>, at: int)
    requires
        0 <= at <= s.len(),
        forall|k: int| 0 <= k < at ==> is_whitespace(#[trigger] s[k]),
        at < s.len() ==> !is_whitespace(s[at]),
    ensures
        trim_start_at(s) == at,
    decreases s.len(),
{
    if s.len() > 0 && is_whitespace(s[0]) {
        assert(at > 0);
        assert forall|k: int| 0 <= k < at - 1 implies is_whitespace(#[trigger] s.skip(1)[k]) by {
            assert(s.skip(1)[k] == s[k + 1]);
        }
        lemma_trim_start_is(s.skip(1), at - 1);
    } else if s.len() > 0 {
        if at > 0 {
            assert(is_whitespace(s[0]));
        }
    }
}

/// `at` is where the trailing white space of `s` begins, if all from it on is
/// white space and the character before it is not.
proof fn lemma_trim_end_is(s: Seq<char>, at: int)
    requires
        0 <= at <= s.len(),
        forall|k: int| at <= k < s.len() ==> is_whitespace(#[trigger] s[k]),
        at > 0 ==> !is_whitespace(s[at - 1]),
    ensures
        trim_end_at(s) == at,
    decreases s.len(),
{
    if s.len() > 0 && is_whitespace(s.last()) {
        assert(at < s.len());
        assert forall|k: int| at <= k < s.drop_last().len() implies is_whitespace(
            #[trigger] s.drop_last()[k],
        ) by {
            assert(s.drop_last()[k] == s[k]);
        }
        lemma_trim_end_is(s.drop_last(), at);
    } else if s.len() > 0 {
        if at < s.len() {
            assert(is_whitespace(s[s.len() - 1]));
        }
    }
}

/// The bounds of `v` without the white space at its two ends.
pub fn trim_bounds(v: &Vec<char>) -> (b: (usize, usize))
    ensures
        b.0 <= b.1 <= v.len(),
        v@.subrange(b.0 as int, b.1 as int) == trimmed(v@),
{
    let mut start: usize = 0;
    while start < v.len() && char_is_whitespace(v[start])
        invariant
            start <= v.len(),
            forall|k: int| 0 <= k < start ==> is_whitespace(#[trigger] v[k]),
        decreases v.len() - start,
    {
        start += 1;
    }
    let mut end: usize = v.len();
    while end > start && char_is_whitespace(v[end - 1])
        invariant
            start <= end <= v.len(),
            forall|k: int| end <= k < v.len() ==> is_whitespace(#[trigger] v[k]),
        decreases end,
    {
        end -= 1;
    }
    proof {
        lemma_trim_start_is(v@, start as int);
        let rest = v@.skip(start as int);
        lemma_trim_end_is(rest, end - start);
    }
    (start, end)
}

/// The lower-case form of an ASCII letter; any other character as it is.
pub open spec fn ascii_lower(c: char) -> char {
    if 'A' <= c <= 'Z' {
        ((c as u8) + 32) as char
    } else {
        c
    }
}

pub fn to_ascii_lower(c: char) -> (l: char)
    ensures
        l == ascii_lower(c),
{
    if 'A' <= c && c <= 'Z' {
        ((c as u8) + 32) as char
    } else {
        c
    }
}

/// Whether `a` and `b` are equal once their ASCII letters are put in lower case.
pub open spec fn eq_ignore_ascii_case(a: Seq<char>, b: Seq<char>) -> bool {
    a.len() == b.len() && forall|i: int| 0 <= i < a.len() ==> ascii_lower(#[trigger] a[i]) == ascii_lower(b[i])
}

/// Whether `v[from..to]` equals `other` up to the case of ASCII letters.
pub fn range_eq_ignore_ascii_case(v: &Vec<char>, from: usize, to: usize, other: &Vec<char>) -> (b:
    bool)
    requires
        from <= to <= v.len(),
    ensures
        b == eq_ignore_ascii_case(v@.subrange(from as int, to as int), other@),
{
    if to - from != other.len() {
        return false;
    }
    let ghost sub = v@.subrange(from as int, to as int);
    let mut i: usize = 0;
    while i < other.len()
        invariant
            from <= to <= v.len(),
            to - from == other.len(),
            i <= other.len(),
            sub == v@.subrange(from as int, to as int),
            forall|k: int| 0 <= k < i ==> ascii_lower(#[trigger] sub[k]) == ascii_lower(other[k]),
        decreases other.len() - i,
    {
        if to_ascii_lower(v[from + i]) != to_ascii_lower(other[i]) {
            assert(sub[i as int] == v[from + i]);
            return false;
        }
        i += 1;
    }
    true
}

/// Whether `v[from..to]` is `other`.
pub fn range_eq(v: &Vec<char>, from: usize, to: usize, other: &Vec<char>) -> (b: bool)
    requires
        from <= to <= v.len(),
    ensures
        b == (v@.subrange(from as int, to as int) == other@),
{
    if to - from != other.len() {
        return false;
    }
    let ghost sub = v@.subrange(from as int, to as int);
    let mut i: usize = 0;
    while i < other.len()
        invariant
            from <= to <= v.len(),
            to - from == other.len(),
            i <= other.len(),
            sub == v@.subrange(from as int, to as int),
            forall|k: int| 0 <= k < i ==> #[trigger] sub[k] == other[k],
        decreases other.len() - i,
    {
        if v[from + i] != other[i] {
            return false;
        }
        i += 1;
    }
    assert(sub =~= other@);
    true
}

/// Whether `pat` stands in `s` at `at`.
pub open spec fn occurs_at(s: Seq<char>, pat: Seq<char>, at: int) -> bool {
    0 <= at && at + pat.len() <= s.len() && s.subrange(at, at + pat.len()) == pat
}

/// The first place at or after `from` at which `pat` stands in `s`.
pub open spec fn find_from(s: Seq<char>, pat: Seq<char>, from: int) -> Option<int>
    decreases s.len() - from,
{
    if from < 0 || from + pat.len() > s.len() {
        None
    } else if occurs_at(s, pat, from) {
        Some(from)
    } else if from >= s.len() {
        None
    } else {
        find_from(s, pat, from + 1)
    }
}

/// `s` without the first occurrence of `pat`; `s` where there is none.
pub open spec fn without_first(s: Seq<char>, pat: Seq<char>) -> Seq<char> {
    match find_from(s, pat, 0) {
        Some(at) => s.subrange(0, at) + s.subrange(at + pat.len(), s.len() as int),
        None => s,
    }
}

/// What of `s` stands before the first occurrence of `pat`; `s` where there
/// is none.
pub open spec fn before_first(s: Seq<char>, pat: Seq<char>) -> Seq<char> {
    match find_from(s, pat, 0) {
        Some(at) => s.subrange(0, at),
        None => s,
    }
}

/// The first place at or after `from` at which `pat` stands in `v`.
pub fn find(v: &Vec<char>, pat: &Vec<char>, from: usize) -> (at: Option<usize>)
    requires
        from <= v.len(),
    ensures
        match at {
            Some(i) => find_from(v@, pat@, from as int) == Some(i as int) && occurs_at(
                v@,
                pat@,
                i as int,
            ) && from <= i,
            None => find_from(v@, pat@, from as int) is None,
        },
{
    let mut i: usize = from;
    while pat.len() <= v.len() - i
        invariant
            from <= i <= v.len(),
            find_from(v@, pat@, from as int) == find_from(v@, pat@, i as int),
        decreases v.len() - i,
    {
        assert(v@.subrange(i as int, i + pat.len()) =~= v@.skip(i as int).take(pat.len() as int));
        if starts_with_at(v, i, pat) {
            return Some(i);
        }
        if i == v.len() {
            assert(v@.subrange(i as int, i as int) =~= pat@);
            return Some(i);
        }
        i += 1;
    }
    None
}

/// Appends `v[from..to]` to `out`.
pub fn push_range(out: &mut Vec<char>, v: &Vec<char>, from: usize, to: usize)
    requires
        from <= to <= v.len(),
    ensures
        final(out)@ == old(out)@ + v@.subrange(from as int, to as int),
{
    let mut i: usize = from;
    while i < to
        invariant
            from <= i <= to <= v.len(),
            out@ == old(out)@ + v@.subrange(from as int, i as int),
        decreases to - i,
    {
        out.push(v[i]);
        i += 1;
    }
}

/// `v` without the first occurrence of `pat`.
pub fn remove_first(v: &Vec<char>, pat: &Vec<char>) -> (out: Vec<char>)
    ensures
        out@ == without_first(v@, pat@),
{
    let mut out: Vec<char> = Vec::new();
    match find(v, pat, 0) {
        Some(at) => {
            assert(occurs_at(v@, pat@, at as int));
            push_range(&mut out, v, 0, at);
            push_range(&mut out, v, at + pat.len(), v.len());
        },
        None => {
            push_range(&mut out, v, 0, v.len());
        },
    }
    out
}

/// The string of all of `v`.
pub fn string_from(v: &Vec<char>) -> (s: String)
    ensures
        s@ == v@,
{
    string_of(v, 0, v.len())
}

/// Whether the two texts are the same.
pub fn str_eq(a: &str, b: &str) -> (eq: bool)
    ensures
        eq == (a@ == b@),
{
    let x = chars_of(a);
    let y = chars_of(b);
    assert(x@.subrange(0, x.len() as int) =~= x@);
    range_eq(&x, 0, x.len(), &y)
}

/// Whether `s` begins with `prefix`.
pub fn starts_with(s: &str, prefix: &str) -> (b: bool)
    ensures
        b == has_prefix(s@, prefix@),
{
    let x = chars_of(s);
    let y = chars_of(prefix);
    assert(x@.skip(0) =~= x@);
    starts_with_at(&x, 0, &y)
}

/// The character of a decimal digit.
pub open spec fn digit_char(d: nat) -> char {
    ((48 + d) as u8) as char
}

/// The decimal digits of `n`, the most significant first.
pub open spec fn digits(n: nat) -> Seq<char>
    decreases n,
{
    if n < 10 {
        seq![digit_char(n)]
    } else {
        digits(n / 10).push(digit_char(n % 10))
    }
}

/// `i` written in decimal, with a minus sign before a negative number.
pub open spec fn decimal(i: int) -> Seq<char> {
    if i < 0 {
        seq!['-'] + digits((-i) as nat)
    } else {
        digits(i as nat)
    }
}

fn push_digits(out: &mut String, n: u64)
    ensures
        final(out)@ == old(out)@ + digits(n as nat),
    decreases n,
{
    if n >= 10 {
        push_digits(out, n / 10);
    }
    let d: u8 = (n % 10) as u8;
    out.push((48u8 + d) as char);
}

/// Appends `n`, written in decimal, to `out`.
pub fn push_decimal(out: &mut String, n: u64)
    ensures
        final(out)@ == old(out)@ + digits(n as nat),
{
    push_digits(out, n);
}

/// `i` written in decimal.
pub fn to_decimal(i: i64) -> (s: String)
    ensures
        s@ == decimal(i as int),
{
    let mut s = String::new();
    if i < 0 {
        s.push('-');
        let magnitude: u64 = (-(i as i128)) as u64;
        push_digits(&mut s, magnitude);
    } else {
        push_digits(&mut s, i as u64);
    }
    s
}

} // verus!
