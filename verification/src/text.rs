//! Character-level text helpers over the `Seq<char>` view of strings.

use vstd::prelude::*;

verus! {

/// `needle` occurs in `hay` starting at position `i`.
pub open spec fn occurs_at(hay: Seq<char>, needle: Seq<char>, i: int) -> bool {
    &&& 0 <= i
    &&& i + needle.len() <= hay.len()
    &&& hay.subrange(i, i + needle.len()) == needle
}

/// `needle` is a contiguous part of `hay`.
pub open spec fn seq_contains(hay: Seq<char>, needle: Seq<char>) -> bool {
    exists|i: int| occurs_at(hay, needle, i)
}

pub open spec fn seq_starts_with(s: Seq<char>, prefix: Seq<char>) -> bool {
    occurs_at(s, prefix, 0)
}

pub open spec fn seq_ends_with(s: Seq<char>, suffix: Seq<char>) -> bool {
    occurs_at(s, suffix, s.len() - suffix.len())
}

/// Position of the first occurrence of `needle` in `hay` at or after `from`.
pub open spec fn first_occurrence_from(hay: Seq<char>, needle: Seq<char>, from: int) -> Option<int>
    decreases hay.len() - from,
{
    if from < 0 || from + needle.len() > hay.len() {
        None
    } else if occurs_at(hay, needle, from) {
        Some(from)
    } else if from >= hay.len() {
        None
    } else {
        first_occurrence_from(hay, needle, from + 1)
    }
}

/// Number of non-overlapping occurrences of a non-empty `needle`, scanning left to right from `from`.
pub open spec fn count_from(hay: Seq<char>, needle: Seq<char>, from: int) -> nat
    decreases hay.len() - from,
{
    if needle.len() == 0 || from < 0 || from + needle.len() > hay.len() {
        0
    } else if occurs_at(hay, needle, from) {
        1 + count_from(hay, needle, from + needle.len())
    } else {
        count_from(hay, needle, from + 1)
    }
}

/// Unicode `White_Space`, which `char::is_whitespace` and `str::trim` use.
pub open spec fn is_ws(c: char) -> bool {
    ||| c == '\t' || c == '\n' || c == '\u{0B}' || c == '\u{0C}' || c == '\r' || c == ' '
    ||| c == '\u{85}' || c == '\u{A0}' || c == '\u{1680}'
    ||| ('\u{2000}' <= c && c <= '\u{200A}')
    ||| c == '\u{2028}' || c == '\u{2029}' || c == '\u{202F}' || c == '\u{205F}' || c == '\u{3000}'
}

pub open spec fn leading_ws(s: Seq<char>) -> nat
    decreases s.len(),
{
    if s.len() > 0 && is_ws(s[0]) {
        1 + leading_ws(s.drop_first())
    } else {
        0
    }
}

pub open spec fn trailing_ws(s: Seq<char>) -> nat
    decreases s.len(),
{
    if s.len() > 0 && is_ws(s.last()) {
        1 + trailing_ws(s.drop_last())
    } else {
        0
    }
}

/// `s` without leading white space.
pub open spec fn seq_trim_start(s: Seq<char>) -> Seq<char> {
    s.subrange(leading_ws(s) as int, s.len() as int)
}

/// `s` without leading and trailing white space.
pub open spec fn seq_trim(s: Seq<char>) -> Seq<char> {
    let t = seq_trim_start(s);
    t.subrange(0, t.len() - trailing_ws(t))
}

pub open spec fn digit_char(d: nat) -> char {
    if d == 0 { '0' } else if d == 1 { '1' } else if d == 2 { '2' } else if d == 3 { '3' }
    else if d == 4 { '4' } else if d == 5 { '5' } else if d == 6 { '6' } else if d == 7 { '7' }
    else if d == 8 { '8' } else { '9' }
}

/// Decimal rendering of a natural number, as `Display` writes it.
pub open spec fn decimal(n: nat) -> Seq<char>
    decreases n,
{
    if n < 10 {
        seq![digit_char(n)]
    } else {
        decimal(n / 10).push(digit_char(n % 10))
    }
}

/// Decimal rendering of an integer, with a leading `-` when it is negative.
pub open spec fn signed_decimal(n: int) -> Seq<char> {
    if n < 0 { seq!['-'] + decimal((-n) as nat) } else { decimal(n as nat) }
}

/// Value of a digit in the given radix (at most 16), as `char::to_digit` gives it.
pub open spec fn digit_value(c: char, radix: nat) -> Option<nat> {
    let v: int = if '0' <= c && c <= '9' {
        c as int - '0' as int
    } else if 'a' <= c && c <= 'f' {
        c as int - 'a' as int + 10
    } else if 'A' <= c && c <= 'F' {
        c as int - 'A' as int + 10
    } else {
        99
    };
    if v < radix { Some(v as nat) } else { None }
}

pub open spec fn all_digits(s: Seq<char>, radix: nat) -> bool {
    forall|i: int| 0 <= i < s.len() ==> (#[trigger] digit_value(s[i], radix)) is Some
}

/// Value of a run of digits, most significant first.
pub open spec fn digits_value(s: Seq<char>, radix: nat) -> nat
    decreases s.len(),
{
    if s.len() == 0 {
        0
    } else {
        digits_value(s.drop_last(), radix) * radix + match digit_value(s.last(), radix) {
            Some(d) => d,
            None => 0,
        }
    }
}

/// What `from_str_radix` / `parse` gives for an unsigned integer type whose largest value is `max`:
/// an optional `+`, then one or more digits, with a value that fits.
pub open spec fn parse_unsigned_spec(s: Seq<char>, radix: nat, max: nat) -> Option<nat> {
    let body = if s.len() > 0 && s[0] == '+' { s.drop_first() } else { s };
    if body.len() == 0 || !all_digits(body, radix) || digits_value(body, radix) > max {
        None
    } else {
        Some(digits_value(body, radix))
    }
}

/// What `str::parse::<i64>` gives: an optional sign, then decimal digits, within range.
pub open spec fn parse_i64_spec(s: Seq<char>) -> Option<int> {
    if s.len() > 0 && s[0] == '-' {
        let body = s.drop_first();
        if body.len() == 0 || !all_digits(body, 10) || digits_value(body, 10) > 9223372036854775808 {
            None
        } else {
            Some(-(digits_value(body, 10) as int))
        }
    } else {
        match parse_unsigned_spec(s, 10, 9223372036854775807) {
            Some(v) => Some(v as int),
            None => None,
        }
    }
}

/// The view of an optional string.
pub open spec fn opt_view(o: Option<String>) -> Option<Seq<char>> {
    match o {
        Some(s) => Some(s@),
        None => None,
    }
}

/// The view of an optional string slice.
pub open spec fn opt_str_view(o: Option<&str>) -> Option<Seq<char>> {
    match o {
        Some(s) => Some(s@),
        None => None,
    }
}

/// A copy of an optional string.
pub fn clone_opt(o: &Option<String>) -> (r: Option<String>)
    ensures
        opt_view(r) == opt_view(*o),
{
    match o {
        Some(s) => Some(owned(s.as_str())),
        None => None,
    }
}

/// An owned copy of an optional string slice.
pub fn owned_opt(o: Option<&str>) -> (r: Option<String>)
    ensures
        opt_view(r) == opt_str_view(o),
{
    match o {
        Some(s) => Some(owned(s)),
        None => None,
    }
}

/// What `str::to_lowercase` returns (Unicode lower-case mapping).
pub uninterp spec fn lowercase(s: Seq<char>) -> Seq<char>;

/// What `str::to_uppercase` returns (Unicode upper-case mapping).
pub uninterp spec fn uppercase(s: Seq<char>) -> Seq<char>;

/// `str::to_lowercase`: the Unicode lower-case mapping of the string.
/// The contract only names the result; the Unicode tables are not restated.
#[verifier::external_body]
pub fn to_lowercase(s: &str) -> (res: String)
    ensures
        res@ == lowercase(s@),
{
    s.to_lowercase()
}

/// `str::to_uppercase`: the Unicode upper-case mapping of the string.
/// The contract only names the result; the Unicode tables are not restated.
#[verifier::external_body]
pub fn to_uppercase(s: &str) -> (res: String)
    ensures
        res@ == uppercase(s@),
{
    s.to_uppercase()
}

/// What `char::is_alphanumeric` returns: whether the character is Unicode alphabetic or numeric.
pub uninterp spec fn alphanumeric(c: char) -> bool;

/// `char::is_alphanumeric`. The contract only names the result; the Unicode property tables are
/// not restated.
#[verifier::external_body]
pub(crate) fn is_alphanumeric(c: char) -> (b: bool)
    ensures
        b == alphanumeric(c),
{
    c.is_alphanumeric()
}

/// `String: FromIterator<char>`: the string made of the given characters, in order.
#[verifier::external_body]
pub fn string_from_chars(v: &[char]) -> (res: String)
    ensures
        res@ == v@,
{
    v.iter().collect()
}

/// The characters of a string slice, in order.
pub fn chars_of(s: &str) -> (v: Vec<char>)
    ensures
        v@ == s@,
{
    let mut v: Vec<char> = Vec::new();
    for c in it: s.chars()
        invariant
            v@ == it.seq().take(it.index() as int),
            it.seq() == s@,
    {
        v.push(c);
    }
    v
}

/// An owned copy of a string slice.
pub fn owned(s: &str) -> (res: String)
    ensures
        res@ == s@,
{
    let v = chars_of(s);
    string_from_chars(v.as_slice())
}

/// The concatenation of two strings.
pub fn concat(a: &str, b: &str) -> (res: String)
    ensures
        res@ == a@ + b@,
{
    let mut v = chars_of(a);
    let w = chars_of(b);
    let mut i: usize = 0;
    while i < w.len()
        invariant
            0 <= i <= w@.len(),
            v@ == a@ + w@.take(i as int),
            w@ == b@,
        decreases w@.len() - i,
    {
        v.push(w[i]);
        i += 1;
        assert(w@.take(i as int) == w@.take(i - 1).push(w@[i - 1]));
    }
    assert(w@.take(w@.len() as int) == w@);
    string_from_chars(v.as_slice())
}

/// `hay` from position `i` on, with every occurrence of a non-empty `needle` found scanning left
/// to right, each after the previous one, replaced by `to`.
pub open spec fn replaced_from(hay: Seq<char>, needle: Seq<char>, to: Seq<char>, i: int) -> Seq<char>
    decreases hay.len() - i,
{
    if i < 0 || i >= hay.len() {
        Seq::empty()
    } else if needle.len() > 0 && occurs_at(hay, needle, i) {
        to + replaced_from(hay, needle, to, i + needle.len())
    } else {
        seq![hay[i]] + replaced_from(hay, needle, to, i + 1)
    }
}

/// `to` before every character of `hay` from position `i` on, and once more at the end: what
/// replacing the empty string does.
pub open spec fn interleaved_from(hay: Seq<char>, to: Seq<char>, i: int) -> Seq<char>
    decreases hay.len() - i,
{
    if i < 0 || i >= hay.len() {
        to
    } else {
        to + seq![hay[i]] + interleaved_from(hay, to, i + 1)
    }
}

/// `str::replace`: every non-overlapping occurrence of `needle`, left to right, replaced by `to`.
pub open spec fn replace_spec(hay: Seq<char>, needle: Seq<char>, to: Seq<char>) -> Seq<char> {
    if needle.len() == 0 { interleaved_from(hay, to, 0) } else { replaced_from(hay, needle, to, 0) }
}

/// `hay.replace(needle, to)`.
pub fn replace_str(hay: &str, needle: &str, to: &str) -> (res: String)
    ensures
        res@ == replace_spec(hay@, needle@, to@),
{
    let h = chars_of(hay);
    let n = chars_of(needle);
    let t = chars_of(to);
    let mut out: Vec<char> = Vec::new();
    let mut i: usize = 0;
    if n.len() == 0 {
        while i < h.len()
            invariant
                0 <= i <= h@.len(),
                out@ + interleaved_from(h@, t@, i as int) == interleaved_from(h@, t@, 0),
            decreases h@.len() - i,
        {
            let ghost before = out@;
            let mut j: usize = 0;
            while j < t.len()
                invariant
                    0 <= j <= t@.len(),
                    out@ == before + t@.take(j as int),
                decreases t@.len() - j,
            {
                out.push(t[j]);
                j += 1;
                assert(t@.take(j as int) == t@.take(j - 1).push(t@[j - 1]));
            }
            out.push(h[i]);
            assert(t@.take(t@.len() as int) =~= t@);
            assert(out@ + interleaved_from(h@, t@, i + 1) =~= before + interleaved_from(h@, t@, i as int));
            i += 1;
        }
        let ghost before = out@;
        let mut j: usize = 0;
        while j < t.len()
            invariant
                0 <= j <= t@.len(),
                out@ == before + t@.take(j as int),
            decreases t@.len() - j,
        {
            out.push(t[j]);
            j += 1;
            assert(t@.take(j as int) == t@.take(j - 1).push(t@[j - 1]));
        }
        assert(t@.take(t@.len() as int) =~= t@);
        return string_from_chars(out.as_slice());
    }
    while i < h.len()
        invariant
            0 <= i <= h@.len(),
            n@.len() > 0,
            out@ + replaced_from(h@, n@, t@, i as int) == replaced_from(h@, n@, t@, 0),
        decreases h@.len() - i,
    {
        let ghost before = out@;
        if n.len() <= h.len() - i && occurs_at_exec(h.as_slice(), n.as_slice(), i) {
            let mut j: usize = 0;
            while j < t.len()
                invariant
                    0 <= j <= t@.len(),
                    out@ == before + t@.take(j as int),
                decreases t@.len() - j,
            {
                out.push(t[j]);
                j += 1;
                assert(t@.take(j as int) == t@.take(j - 1).push(t@[j - 1]));
            }
            assert(t@.take(t@.len() as int) =~= t@);
            assert(out@ + replaced_from(h@, n@, t@, i + n@.len()) =~= before + replaced_from(h@, n@, t@, i as int));
            i += n.len();
        } else {
            out.push(h[i]);
            assert(out@ + replaced_from(h@, n@, t@, i + 1) =~= before + replaced_from(h@, n@, t@, i as int));
            i += 1;
        }
    }
    assert(out@ =~= replaced_from(h@, n@, t@, 0));
    string_from_chars(out.as_slice())
}

/// Appends `t` to `s`.
pub fn append(s: &mut String, t: &str)
    ensures
        final(s)@ == old(s)@ + t@,
{
    let r = concat(s.as_str(), t);
    *s = r;
}

/// Whether `needle` occurs in `hay` at position `i`.
pub fn occurs_at_exec(hay: &[char], needle: &[char], i: usize) -> (b: bool)
    ensures
        b == occurs_at(hay@, needle@, i as int),
{
    if i > hay.len() || needle.len() > hay.len() - i {
        return false;
    }
    let mut j: usize = 0;
    let hl = hay.len();
    while j < needle.len()
        invariant
            hl == hay@.len(),
            i + needle@.len() <= hay@.len(),
            0 <= j <= needle@.len(),
            forall|k: int| 0 <= k < j ==> hay@[i + k] == needle@[k],
        decreases needle@.len() - j,
    {
        assert(i + j < hay@.len());
        if hay[i + j] != needle[j] {
            assert(hay@.subrange(i as int, i + needle@.len())[j as int] != needle@[j as int]);
            return false;
        }
        j += 1;
    }
    assert(hay@.subrange(i as int, i + needle@.len()) =~= needle@);
    true
}

/// First position at or after `from` where `needle` occurs.
pub fn find_from(hay: &[char], needle: &[char], from: usize) -> (r: Option<usize>)
    ensures
        r matches Some(i) ==> first_occurrence_from(hay@, needle@, from as int) == Some(i as int),
        r is None ==> first_occurrence_from(hay@, needle@, from as int) is None,
{
    if from > hay.len() || needle.len() > hay.len() - from {
        return None;
    }
    let mut i = from;
    let last = hay.len() - needle.len();
    loop
        invariant
            from <= i <= last,
            last + needle@.len() == hay@.len(),
            first_occurrence_from(hay@, needle@, from as int) == first_occurrence_from(hay@, needle@, i as int),
        decreases last - i,
    {
        if occurs_at_exec(hay, needle, i) {
            return Some(i);
        }
        if i == last {
            assert(first_occurrence_from(hay@, needle@, i + 1) is None);
            return None;
        }
        i += 1;
    }
}

proof fn lemma_first_occurrence_some(hay: Seq<char>, needle: Seq<char>, from: int)
    requires
        0 <= from,
    ensures
        (first_occurrence_from(hay, needle, from) is Some) <==> (exists|i: int| i >= from && occurs_at(hay, needle, i)),
    decreases hay.len() - from,
{
    if from + needle.len() > hay.len() {
    } else if occurs_at(hay, needle, from) {
    } else if from >= hay.len() {
    } else {
        lemma_first_occurrence_some(hay, needle, from + 1);
        if exists|i: int| i >= from && occurs_at(hay, needle, i) {
            let i = choose|i: int| i >= from && occurs_at(hay, needle, i);
            assert(i != from);
            assert(i >= from + 1);
        }
    }
}

/// Whether `needle` occurs anywhere in `hay`.
pub fn chars_contain(hay: &[char], needle: &[char]) -> (b: bool)
    ensures
        b == seq_contains(hay@, needle@),
{
    proof { lemma_first_occurrence_some(hay@, needle@, 0); }
    find_from(hay, needle, 0).is_some()
}

/// `str::contains` with a string pattern.
pub fn str_contains(hay: &str, needle: &str) -> (b: bool)
    ensures
        b == seq_contains(hay@, needle@),
{
    let h = chars_of(hay);
    let n = chars_of(needle);
    chars_contain(h.as_slice(), n.as_slice())
}

/// `str::starts_with` with a string pattern.
pub fn str_starts_with(s: &str, prefix: &str) -> (b: bool)
    ensures
        b == seq_starts_with(s@, prefix@),
{
    let h = chars_of(s);
    let n = chars_of(prefix);
    occurs_at_exec(h.as_slice(), n.as_slice(), 0)
}

/// `str::ends_with` with a string pattern.
pub fn str_ends_with(s: &str, suffix: &str) -> (b: bool)
    ensures
        b == seq_ends_with(s@, suffix@),
{
    let h = chars_of(s);
    let n = chars_of(suffix);
    if n.len() > h.len() {
        return false;
    }
    occurs_at_exec(h.as_slice(), n.as_slice(), h.len() - n.len())
}

/// Equality of two strings, character by character.
pub fn str_eq(a: &str, b: &str) -> (r: bool)
    ensures
        r == (a@ == b@),
{
    let x = chars_of(a);
    let y = chars_of(b);
    if x.len() != y.len() {
        return false;
    }
    let r = occurs_at_exec(x.as_slice(), y.as_slice(), 0);
    proof {
        if r { assert(x@.subrange(0, x@.len() as int) =~= x@); }
        if a@ == b@ { assert(x@.subrange(0, y@.len() as int) =~= y@); }
    }
    r
}

/// Number of non-overlapping occurrences of a non-empty pattern, left to right.
pub fn count_occurrences(hay: &[char], needle: &[char]) -> (n: usize)
    requires
        needle@.len() > 0,
    ensures
        n == count_from(hay@, needle@, 0),
{
    let mut i: usize = 0;
    let mut n: usize = 0;
    while needle.len() <= hay.len() - i
        invariant
            needle@.len() > 0,
            i <= hay@.len(),
            n <= i,
            n + count_from(hay@, needle@, i as int) == count_from(hay@, needle@, 0),
        decreases hay@.len() - i,
    {
        if occurs_at_exec(hay, needle, i) {
            n += 1;
            i += needle.len();
        } else {
            i += 1;
        }
    }
    n
}

pub fn is_ws_exec(c: char) -> (b: bool)
    ensures
        b == is_ws(c),
{
    c == '\t' || c == '\n' || c == '\u{0B}' || c == '\u{0C}' || c == '\r' || c == ' '
        || c == '\u{85}' || c == '\u{A0}' || c == '\u{1680}'
        || ('\u{2000}' <= c && c <= '\u{200A}')
        || c == '\u{2028}' || c == '\u{2029}' || c == '\u{202F}' || c == '\u{205F}' || c == '\u{3000}'
}

proof fn lemma_leading_ws(s: Seq<char>, i: int)
    requires
        0 <= i <= s.len(),
        forall|k: int| 0 <= k < i ==> is_ws(s[k]),
        i == s.len() || !is_ws(s[i]),
    ensures
        leading_ws(s) == i,
    decreases i,
{
    if i > 0 {
        lemma_leading_ws(s.drop_first(), i - 1);
    }
}

proof fn lemma_trailing_ws(s: Seq<char>, i: int)
    requires
        0 <= i <= s.len(),
        forall|k: int| s.len() - i <= k < s.len() ==> is_ws(s[k]),
        i == s.len() || !is_ws(s[s.len() - 1 - i]),
    ensures
        trailing_ws(s) == i,
    decreases i,
{
    if i > 0 {
        lemma_trailing_ws(s.drop_last(), i - 1);
    }
}

/// `str::split` on one character: the pieces between its occurrences.
pub open spec fn split_char(s: Seq<char>, c: char) -> Seq<Seq<char>>
    decreases s.len(),
{
    if s.len() == 0 {
        seq![Seq::empty()]
    } else {
        let rest = split_char(s.drop_last(), c);
        if s.last() == c {
            rest.push(Seq::empty())
        } else {
            rest.update(rest.len() - 1, rest.last().push(s.last()))
        }
    }
}

pub proof fn lemma_split_nonempty(s: Seq<char>, c: char)
    ensures
        split_char(s, c).len() >= 1,
    decreases s.len(),
{
    if s.len() > 0 {
        lemma_split_nonempty(s.drop_last(), c);
    }
}

/// The pieces of `s` between occurrences of `sep` (`str::split`).
pub fn split_on(s: &str, sep: char) -> (parts: Vec<String>)
    ensures
        parts@.map_values(|p: String| p@) == split_char(s@, sep),
{
    let v = chars_of(s);
    let mut parts: Vec<String> = Vec::new();
    let mut cur: Vec<char> = Vec::new();
    let mut i: usize = 0;
    while i < v.len()
        invariant
            0 <= i <= v@.len(),
            v@ == s@,
            parts@.map_values(|p: String| p@).push(cur@) == split_char(v@.subrange(0, i as int), sep),
        decreases v@.len() - i,
    {
        let ghost pre = v@.subrange(0, i as int);
        let ghost nxt = v@.subrange(0, i + 1);
        assert(nxt.drop_last() =~= pre);
        assert(nxt.last() == v@[i as int]);
        proof { lemma_split_nonempty(pre, sep); }
        if v[i] == sep {
            let piece = string_from_chars(cur.as_slice());
            parts.push(piece);
            cur = Vec::new();
            assert(parts@.map_values(|p: String| p@).push(cur@) =~= split_char(nxt, sep));
        } else {
            let ghost old_parts = parts@.map_values(|p: String| p@);
            cur.push(v[i]);
            assert(parts@.map_values(|p: String| p@).push(cur@) =~= split_char(nxt, sep));
        }
        i += 1;
    }
    assert(v@.subrange(0, v@.len() as int) =~= v@);
    let piece = string_from_chars(cur.as_slice());
    parts.push(piece);
    parts
}

/// `str::trim_start`: the string without leading white space.
pub fn trim_start(s: &str) -> (res: String)
    ensures
        res@ == seq_trim_start(s@),
{
    let v = chars_of(s);
    let mut a: usize = 0;
    while a < v.len() && is_ws_exec(v[a])
        invariant
            a <= v@.len(),
            forall|k: int| 0 <= k < a ==> is_ws(v@[k]),
        decreases v@.len() - a,
    {
        a += 1;
    }
    proof { lemma_leading_ws(v@, a as int); }
    let rest = v.as_slice().split_at(a).1;
    assert(rest@ =~= s@.subrange(a as int, s@.len() as int));
    string_from_chars(rest)
}

/// `str::trim`: the string without leading and trailing white space.
pub fn trim(s: &str) -> (res: String)
    ensures
        res@ == seq_trim(s@),
{
    let v = chars_of(s);
    let mut a: usize = 0;
    while a < v.len() && is_ws_exec(v[a])
        invariant
            a <= v@.len(),
            forall|k: int| 0 <= k < a ==> is_ws(v@[k]),
        decreases v@.len() - a,
    {
        a += 1;
    }
    proof { lemma_leading_ws(v@, a as int); }
    let ghost t = v@.subrange(a as int, v@.len() as int);
    let mut b: usize = v.len();
    while b > a && is_ws_exec(v[b - 1])
        invariant
            a <= b <= v@.len(),
            t == v@.subrange(a as int, v@.len() as int),
            forall|k: int| b <= k < v@.len() ==> is_ws(v@[k]),
        decreases b,
    {
        b -= 1;
    }
    proof {
        lemma_trailing_ws(t, (v@.len() - b) as int);
    }
    let mut out: Vec<char> = Vec::new();
    let mut i = a;
    while i < b
        invariant
            a <= i <= b,
            b <= v@.len(),
            out@ == v@.subrange(a as int, i as int),
        decreases b - i,
    {
        out.push(v[i]);
        i += 1;
        assert(v@.subrange(a as int, i as int) == v@.subrange(a as int, i - 1).push(v@[i - 1]));
    }
    assert(out@ =~= seq_trim(s@));
    string_from_chars(out.as_slice())
}

/// Code-point lexicographic order on texts, which for UTF-8 strings is the byte order `String`
/// sorts by.
pub open spec fn text_lt(a: Seq<char>, b: Seq<char>) -> bool
    decreases a.len(),
{
    if a.len() == 0 {
        b.len() > 0
    } else if b.len() == 0 {
        false
    } else if a[0] < b[0] {
        true
    } else if a[0] > b[0] {
        false
    } else {
        text_lt(a.drop_first(), b.drop_first())
    }
}

pub proof fn lemma_text_lt_total(a: Seq<char>, b: Seq<char>)
    ensures
        a != b ==> (text_lt(a, b) || text_lt(b, a)),
        !(text_lt(a, b) && text_lt(b, a)),
        !text_lt(a, a),
    decreases a.len(),
{
    if a.len() > 0 && b.len() > 0 {
        lemma_text_lt_total(a.drop_first(), b.drop_first());
        if a[0] == b[0] && a != b {
            assert(a.drop_first() != b.drop_first()) by {
                if a.drop_first() == b.drop_first() {
                    assert(a =~= seq![a[0]] + a.drop_first());
                    assert(b =~= seq![b[0]] + b.drop_first());
                }
            }
        }
    } else if a.len() == 0 && b.len() == 0 {
        assert(a =~= b);
    }
    if a.len() > 0 {
        lemma_text_lt_total(a.drop_first(), a.drop_first());
    }
}

pub proof fn lemma_text_lt_trans(a: Seq<char>, b: Seq<char>, c: Seq<char>)
    requires
        text_lt(a, b),
        text_lt(b, c),
    ensures
        text_lt(a, c),
    decreases a.len(),
{
    if a.len() > 0 && b.len() > 0 && c.len() > 0 {
        if a[0] == b[0] && b[0] == c[0] {
            lemma_text_lt_trans(a.drop_first(), b.drop_first(), c.drop_first());
        }
    }
}

/// Whether `a` sorts before `b`.
pub fn text_less(a: &str, b: &str) -> (r: bool)
    ensures
        r == text_lt(a@, b@),
{
    let x = chars_of(a);
    let y = chars_of(b);
    let mut i: usize = 0;
    assert(x@.subrange(0, x@.len() as int) =~= x@);
    assert(y@.subrange(0, y@.len() as int) =~= y@);
    while i < x.len() && i < y.len()
        invariant
            0 <= i <= x@.len(),
            i <= y@.len(),
            x@ == a@,
            y@ == b@,
            text_lt(a@, b@) == text_lt(x@.subrange(i as int, x@.len() as int), y@.subrange(i as int, y@.len() as int)),
        decreases x@.len() - i,
    {
        let ghost xs = x@.subrange(i as int, x@.len() as int);
        let ghost ys = y@.subrange(i as int, y@.len() as int);
        assert(xs[0] == x@[i as int] && ys[0] == y@[i as int]);
        if x[i] < y[i] {
            return true;
        }
        if x[i] > y[i] {
            return false;
        }
        assert(xs.drop_first() =~= x@.subrange(i + 1, x@.len() as int));
        assert(ys.drop_first() =~= y@.subrange(i + 1, y@.len() as int));
        i += 1;
    }
    i == x.len() && i < y.len()
}

} // verus!
