//! Character-sequence helpers shared by the parsers and detectors.

use vstd::prelude::*;

verus! {

/// Whether `needle` occurs in `hay` as a contiguous run of characters.
pub open spec fn has_sub(hay: Seq<char>, needle: Seq<char>) -> bool {
    exists|i: int| 0 <= i <= hay.len() - needle.len() && #[trigger] hay.subrange(i, i + needle.len()) == needle
}

/// Whether `needle` occurs in `hay` starting at index `i`.
pub open spec fn sub_at(hay: Seq<char>, needle: Seq<char>, i: int) -> bool {
    0 <= i && i + needle.len() <= hay.len() && hay.subrange(i, i + needle.len()) == needle
}

/// The characters of a string slice, in order.
pub fn chars_of(s: &str) -> (r: Vec<char>)
    ensures
        r@ == s@,
{
    let mut v: Vec<char> = Vec::new();
    for c in it: s.chars()
        invariant
            v@ == it.seq().take(it.index() as int),
    {
        v.push(c);
    }
    v
}


/// Whether `needle` occurs in `hay`.
pub fn contains_chars(hay: &[char], needle: &[char]) -> (r: bool)
    ensures
        r == has_sub(hay@, needle@),
{
    if needle.len() > hay.len() {
        proof {
            assert forall|i: int| !(0 <= i <= hay@.len() - needle@.len() && #[trigger] hay@.subrange(i, i + needle@.len()) == needle@) by {}
        }
        return false;
    }
    if needle.len() == 0 {
        assert(hay@.subrange(0int, 0int + needle@.len()) =~= needle@);
        return true;
    }
    let last = hay.len() - needle.len();
    let mut i: usize = 0;
    while i <= last
        invariant
            last == hay@.len() - needle@.len(),
            last < hay@.len(),
            hay@.len() == hay.len(),
            i <= last + 1,
            forall|k: int| 0 <= k < i ==> #[trigger] hay@.subrange(k, k + needle@.len()) != needle@,
        decreases last + 1 - i,
    {
        if starts_at(hay, needle, i) {
            return true;
        }
        i = i + 1;
    }
    false
}

/// Whether `needle` occurs in `hay` starting at index `i`.
pub fn starts_at(hay: &[char], needle: &[char], i: usize) -> (r: bool)
    ensures
        r == sub_at(hay@, needle@, i as int),
{
    if i > hay.len() || needle.len() > hay.len() - i {
        return false;
    }
    let mut j: usize = 0;
    while j < needle.len()
        invariant
            i + needle@.len() <= hay@.len(),
            hay@.len() == hay.len(),
            needle@.len() == needle.len(),
            j <= needle@.len(),
            forall|k: int| 0 <= k < j ==> hay@[i + k] == needle@[k],
        decreases needle.len() - j,
    {
        if hay[i + j] != needle[j] {
            assert(hay@.subrange(i as int, i + needle@.len())[j as int] != needle@[j as int]);
            return false;
        }
        j = j + 1;
    }
    assert(hay@.subrange(i as int, i + needle@.len()) =~= needle@);
    true
}

/// Whether the characters of `s` contain the characters of the literal `needle`.
pub fn contains_str(hay: &[char], needle: &str) -> (r: bool)
    ensures
        r == has_sub(hay@, needle@),
{
    let n = chars_of(needle);
    contains_chars(hay, n.as_slice())
}

/// Whether `hay` begins with `needle`.
pub fn starts_with_str(hay: &[char], needle: &str) -> (r: bool)
    ensures
        r == (needle@.len() <= hay@.len() && hay@.take(needle@.len() as int) =~= needle@),
{
    let n = chars_of(needle);
    let r = starts_at(hay, n.as_slice(), 0);
    proof {
        if needle@.len() <= hay@.len() {
            assert(hay@.subrange(0, needle@.len() as int) =~= hay@.take(needle@.len() as int));
        }
    }
    r
}

/// Whether `hay` ends with `needle`.
pub fn ends_with_str(hay: &[char], needle: &str) -> (r: bool)
    ensures
        r == (needle@.len() <= hay@.len() && hay@.skip(hay@.len() - needle@.len()) =~= needle@),
{
    let n = chars_of(needle);
    if n.len() > hay.len() {
        return false;
    }
    let r = starts_at(hay, n.as_slice(), hay.len() - n.len());
    proof {
        assert(hay@.subrange(hay@.len() - needle@.len(), hay@.len() as int) =~= hay@.skip(hay@.len() - needle@.len()));
    }
    r
}

/// Whether two character sequences are equal.
pub fn chars_eq(a: &[char], b: &[char]) -> (r: bool)
    ensures
        r == (a@ == b@),
{
    if a.len() != b.len() {
        return false;
    }
    let r = starts_at(a, b, 0);
    proof {
        assert(a@.subrange(0, a@.len() as int) =~= a@);
    }
    r
}

/// Whether the characters of `a` are exactly those of the literal `b`.
pub fn chars_eq_str(a: &[char], b: &str) -> (r: bool)
    ensures
        r == (a@ == b@),
{
    let n = chars_of(b);
    chars_eq(a, n.as_slice())
}

/// Whether a string equals the literal `b`.
pub fn str_eq(a: &str, b: &str) -> (r: bool)
    ensures
        r == (a@ == b@),
{
    let x = chars_of(a);
    chars_eq_str(x.as_slice(), b)
}

/// The name for what `str::to_lowercase` returns: Unicode lowercase mapping.
pub uninterp spec fn unicode_lower(s: Seq<char>) -> Seq<char>;

/// The name for what `str::to_uppercase` returns: Unicode uppercase mapping.
pub uninterp spec fn unicode_upper(s: Seq<char>) -> Seq<char>;

/// ASCII lowercase of one character.
pub open spec fn ascii_lower_char(c: char) -> char {
    if 'A' <= c && c <= 'Z' { ((c as u32) + 32) as char } else { c }
}

/// ASCII uppercase of one character.
pub open spec fn ascii_upper_char(c: char) -> char {
    if 'a' <= c && c <= 'z' { ((c as u32) - 32) as char } else { c }
}

/// Whether every character is ASCII.
pub open spec fn all_ascii(s: Seq<char>) -> bool {
    forall|i: int| 0 <= i < s.len() ==> (#[trigger] s[i] as u32) < 128
}

/// `str::to_lowercase`. Its result is named `unicode_lower`; the contract
/// adds what the documentation states for ASCII input: every ASCII letter is
/// mapped to its lowercase form and every other ASCII character is kept.
/// What non-ASCII characters become is left to the name.
#[verifier::external_body]
pub(crate) fn to_lower(s: &str) -> (r: String)
    ensures
        r@ == unicode_lower(s@),
        all_ascii(s@) ==> r@ == s@.map_values(|c: char| ascii_lower_char(c)),
{
    s.to_lowercase()
}

/// `str::to_uppercase`. Its result is named `unicode_upper`; the contract
/// adds what the documentation states for ASCII input: every ASCII letter is
/// mapped to its uppercase form and every other ASCII character is kept.
/// What non-ASCII characters become is left to the name.
#[verifier::external_body]
pub(crate) fn to_upper(s: &str) -> (r: String)
    ensures
        r@ == unicode_upper(s@),
        all_ascii(s@) ==> r@ == s@.map_values(|c: char| ascii_upper_char(c)),
{
    s.to_uppercase()
}

/// The name for what `char::is_whitespace` returns: the Unicode
/// White_Space property.
pub uninterp spec fn white_space(c: char) -> bool;

/// `char::is_whitespace`. Its result is named `white_space`; for ASCII the
/// contract states the property's members: space and U+0009 to U+000D.
#[verifier::external_body]
pub(crate) fn is_whitespace(c: char) -> (r: bool)
    ensures
        r == white_space(c),
        (c as u32) < 128 ==> (r == (c == ' ' || ('\t' <= c && c <= '\r'))),
{
    c.is_whitespace()
}

/// A `String` holding the given characters.
pub fn string_of(cs: &[char]) -> (r: String)
    ensures
        r@ == cs@,
{
    let mut out = String::new();
    let mut i: usize = 0;
    while i < cs.len()
        invariant
            i <= cs@.len(),
            out@ == cs@.take(i as int),
        decreases cs.len() - i,
    {
        let one = char_string(cs[i]);
        out.append(one.as_str());
        assert(cs@.take(i + 1) =~= cs@.take(i as int).push(cs@[i as int]));
        i = i + 1;
    }
    assert(cs@.take(cs@.len() as int) =~= cs@);
    out
}

/// `char::to_string`: the one-character string.
#[verifier::external_body]
pub(crate) fn char_string(c: char) -> (r: String)
    ensures
        r@ == seq![c],
{
    c.to_string()
}


/// The first index at or after `from` where `pat` occurs in `t`.
#[verifier::opaque]
pub open spec fn find_from(t: Seq<char>, pat: Seq<char>, from: int) -> Option<int>
    decreases t.len() + 1 - from,
{
    if from < 0 || from + pat.len() > t.len() {
        None
    } else if t.subrange(from, from + pat.len()) == pat {
        Some(from)
    } else {
        find_from(t, pat, from + 1)
    }
}

/// The first index at or after `from` holding `c`.
#[verifier::opaque]
pub open spec fn find_char_from(t: Seq<char>, c: char, from: int) -> Option<int>
    decreases t.len() - from,
{
    if from < 0 || from >= t.len() {
        None
    } else if t[from] == c {
        Some(from)
    } else {
        find_char_from(t, c, from + 1)
    }
}

/// Where `find_from` finds something, the pattern lies inside the text.
pub proof fn lemma_find_from_bounds(t: Seq<char>, pat: Seq<char>, from: int)
    ensures
        find_from(t, pat, from) matches Some(p) ==> from <= p && p + pat.len() <= t.len(),
    decreases t.len() + 1 - from,
{
    reveal(find_from);
    if !(from < 0 || from + pat.len() > t.len()) && t.subrange(from, from + pat.len()) != pat {
        lemma_find_from_bounds(t, pat, from + 1);
    }
}

/// Where `find_char_from` finds something, it is inside the text.
pub proof fn lemma_find_char_from_bounds(t: Seq<char>, c: char, from: int)
    ensures
        find_char_from(t, c, from) matches Some(p) ==> from <= p < t.len(),
    decreases t.len() - from,
{
    reveal(find_char_from);
    if !(from < 0 || from >= t.len()) && t[from] != c {
        lemma_find_char_from_bounds(t, c, from + 1);
    }
}

/// The first occurrence of `pat` in `hay` at or after `from`.
pub fn find_chars_from(hay: &[char], pat: &[char], from: usize) -> (r: Option<usize>)
    ensures
        match r {
            Some(i) => find_from(hay@, pat@, from as int) == Some(i as int),
            None => find_from(hay@, pat@, from as int) is None,
        },
{
    reveal(find_from);
    if pat.len() == 0 {
        if from <= hay.len() {
            assert(hay@.subrange(from as int, from as int) =~= pat@);
            return Some(from);
        }
        return None;
    }
    let mut i: usize = from;
    while i <= hay.len() && pat.len() <= hay.len() - i
        invariant
            from <= i,
            pat@.len() >= 1,
            find_from(hay@, pat@, from as int) == find_from(hay@, pat@, i as int),
        decreases hay.len() - i,
    {
        proof {
            reveal(find_from);
        }
        if starts_at(hay, pat, i) {
            return Some(i);
        }
        i = i + 1;
    }
    None
}

/// The first occurrence of `c` in `hay` at or after `from`.
pub fn find_char_in(hay: &[char], c: char, from: usize) -> (r: Option<usize>)
    ensures
        match r {
            Some(i) => find_char_from(hay@, c, from as int) == Some(i as int),
            None => find_char_from(hay@, c, from as int) is None,
        },
{
    reveal(find_char_from);
    let mut i: usize = from;
    while i < hay.len()
        invariant
            from <= i,
            find_char_from(hay@, c, from as int) == find_char_from(hay@, c, i as int),
        decreases hay.len() - i,
    {
        proof {
            reveal(find_char_from);
        }
        if hay[i] == c {
            return Some(i);
        }
        i = i + 1;
    }
    None
}

/// The characters of `cs` from index `start` on.
pub fn suffix_from(cs: &[char], start: usize) -> (r: Vec<char>)
    requires
        start <= cs@.len(),
    ensures
        r@ == cs@.skip(start as int),
{
    let mut out: Vec<char> = Vec::new();
    let mut i: usize = start;
    while i < cs.len()
        invariant
            start <= i <= cs@.len(),
            out@ == cs@.subrange(start as int, i as int),
        decreases cs.len() - i,
    {
        out.push(cs[i]);
        assert(cs@.subrange(start as int, i + 1) =~= cs@.subrange(start as int, i as int).push(cs@[i as int]));
        i = i + 1;
    }
    assert(cs@.subrange(start as int, cs@.len() as int) =~= cs@.skip(start as int));
    out
}


/// Whether every character is an ASCII digit.
pub open spec fn all_digits(s: Seq<char>) -> bool {
    forall|i: int| 0 <= i < s.len() ==> '0' <= #[trigger] s[i] && s[i] <= '9'
}

/// The value of a string of ASCII digits.
pub open spec fn digits_int(s: Seq<char>) -> int
    decreases s.len(),
{
    if s.len() == 0 {
        0
    } else {
        digits_int(s.drop_last()) * 10 + (s.last() as int - '0' as int)
    }
}

/// What `str::parse::<i64>` gives: an optional `+` or `-` followed by one
/// or more ASCII digits whose value fits in an `i64`; `None` otherwise.
pub open spec fn parse_i64_spec(s: Seq<char>) -> Option<i64> {
    let neg = s.len() > 0 && s[0] == '-';
    let signed = s.len() > 0 && (s[0] == '-' || s[0] == '+');
    let digits = if signed { s.skip(1) } else { s };
    if digits.len() == 0 || !all_digits(digits) {
        None
    } else {
        let v = if neg { -digits_int(digits) } else { digits_int(digits) };
        if i64::MIN <= v && v <= i64::MAX {
            Some(v as i64)
        } else {
            None
        }
    }
}

proof fn lemma_digits_int_prefix(d: Seq<char>, k: int)
    requires
        all_digits(d),
        0 <= k <= d.len(),
    ensures
        0 <= digits_int(d.take(k)) <= digits_int(d),
    decreases d.len(),
{
    if k < d.len() {
        assert(all_digits(d.drop_last()));
        assert(d.drop_last().take(k) =~= d.take(k));
        lemma_digits_int_prefix(d.drop_last(), k);
        assert(d.last() == d[d.len() - 1]);
    } else {
        assert(d.take(k) =~= d);
        if d.len() > 0 {
            assert(all_digits(d.drop_last()));
            lemma_digits_int_prefix(d.drop_last(), d.len() - 1);
            assert(d.drop_last().take(d.len() - 1) =~= d.drop_last());
            assert(d.last() == d[d.len() - 1]);
        }
    }
}

/// `str::parse::<i64>`: an optional sign followed by decimal digits whose
/// value is in range; anything else is `None`.
pub(crate) fn parse_i64(s: &str) -> (r: Option<i64>)
    ensures
        r == parse_i64_spec(s@),
{
    let cs = chars_of(s);
    let n = cs.len();
    let neg = n > 0 && cs[0] == '-';
    let signed = n > 0 && (cs[0] == '-' || cs[0] == '+');
    let start: usize = if signed { 1 } else { 0 };
    let ghost d = s@.subrange(start as int, n as int);
    proof {
        if signed {
            assert(d =~= s@.skip(1));
        } else {
            assert(d =~= s@);
        }
    }
    if start == n {
        return None;
    }
    let limit: i128 = 9223372036854775808;
    let mut acc: i128 = 0;
    let mut j: usize = start;
    while j < n
        invariant
            cs@ == s@,
            n == cs@.len(),
            start <= j <= n,
            d == s@.subrange(start as int, n as int),
            all_digits(d.take(j - start)),
            acc as int == digits_int(d.take(j - start)),
            0 <= acc <= limit,
            limit == 9223372036854775808,
            signed == (s@.len() > 0 && (s@[0] == '-' || s@[0] == '+')),
            neg == (s@.len() > 0 && s@[0] == '-'),
            signed ==> d == s@.skip(1),
            !signed ==> d == s@,
            d.len() > 0,
        decreases n - j,
    {
        let c = cs[j];
        let k: usize = j - start;
        assert(d[k as int] == c);
        if !('0' <= c && c <= '9') {
            assert(!all_digits(d));
            return None;
        }
        let digit = (c as u32 - '0' as u32) as i128;
        proof {
            assert(d.take(k + 1).drop_last() =~= d.take(k as int));
            assert(d.take(k + 1).last() == c);
            assert(all_digits(d.take(k + 1)));
        }
        acc = acc * 10 + digit;
        j = j + 1;
        if acc > limit {
            proof {
                if all_digits(d) {
                    lemma_digits_int_prefix(d, (j - start) as int);
                }
            }
            return None;
        }
    }
    proof {
        assert(d.take(n - start) =~= d);
    }
    if neg {
        Some((-acc) as i64)
    } else if acc > 9223372036854775807 {
        None
    } else {
        Some(acc as i64)
    }
}

/// The decimal digits of a natural number, most significant first.
pub open spec fn nat_text(n: nat) -> Seq<char>
    decreases n,
{
    if n < 10 {
        seq![(n + '0' as nat) as char]
    } else {
        nat_text(n / 10) + seq![((n % 10) + '0' as nat) as char]
    }
}

/// The decimal text of an integer, with a leading `-` when negative.
pub open spec fn int_text(n: int) -> Seq<char> {
    if n < 0 {
        seq!['-'] + nat_text((-n) as nat)
    } else {
        nat_text(n as nat)
    }
}

fn digit_char(d: u64) -> (r: char)
    requires
        d < 10,
    ensures
        r == ((d + '0' as nat) as char),
{
    if d == 0 { '0' } else if d == 1 { '1' } else if d == 2 { '2' } else if d == 3 { '3' }
    else if d == 4 { '4' } else if d == 5 { '5' } else if d == 6 { '6' } else if d == 7 { '7' }
    else if d == 8 { '8' } else { '9' }
}

/// The decimal digits of `n`.
pub fn u64_text(n: u64) -> (r: Vec<char>)
    ensures
        r@ == nat_text(n as nat),
    decreases n,
{
    if n < 10 {
        let mut v: Vec<char> = Vec::new();
        v.push(digit_char(n));
        v
    } else {
        let mut v = u64_text(n / 10);
        v.push(digit_char(n % 10));
        v
    }
}

/// The decimal text of an `i64` (what `{}` formatting gives).
pub fn i64_text(n: i64) -> (r: String)
    ensures
        r@ == int_text(n as int),
{
    if n < 0 {
        let m: u64 = if n == i64::MIN {
            9223372036854775808u64
        } else {
            (-n) as u64
        };
        let digits = u64_text(m);
        let mut out: Vec<char> = Vec::new();
        out.push('-');
        let mut i: usize = 0;
        while i < digits.len()
            invariant
                i <= digits@.len(),
                out@ == seq!['-'] + digits@.take(i as int),
            decreases digits.len() - i,
        {
            out.push(digits[i]);
            assert(digits@.take(i + 1) =~= digits@.take(i as int).push(digits@[i as int]));
            i = i + 1;
        }
        assert(digits@.take(digits@.len() as int) =~= digits@);
        string_of(out.as_slice())
    } else {
        let digits = u64_text(n as u64);
        string_of(digits.as_slice())
    }
}


/// The pieces of `s` between occurrences of `c` (what `str::split` with a
/// character gives): one more piece than separators, empty pieces kept.
pub open spec fn split_spec(s: Seq<char>, c: char) -> Seq<Seq<char>>
    decreases s.len(),
{
    if s.len() == 0 {
        seq![Seq::empty()]
    } else {
        let prev = split_spec(s.drop_last(), c);
        if s.last() == c {
            prev.push(Seq::empty())
        } else {
            prev.update(prev.len() - 1, prev.last().push(s.last()))
        }
    }
}

/// `split_spec` always yields at least one piece.
pub proof fn lemma_split_nonempty(s: Seq<char>, c: char)
    ensures
        split_spec(s, c).len() >= 1,
    decreases s.len(),
{
    if s.len() > 0 {
        lemma_split_nonempty(s.drop_last(), c);
    }
}

/// Split `s` at every occurrence of `c`.
pub fn split_chars(s: &[char], c: char) -> (r: Vec<String>)
    ensures
        crate::url::strs_view(r@) == split_spec(s@, c),
{
    let mut parts: Vec<String> = Vec::new();
    let mut cur: Vec<char> = Vec::new();
    let mut i: usize = 0;
    while i < s.len()
        invariant
            i <= s@.len(),
            crate::url::strs_view(parts@).push(cur@) == split_spec(s@.take(i as int), c),
        decreases s.len() - i,
    {
        let ch = s[i];
        proof {
            assert(s@.take(i + 1).drop_last() =~= s@.take(i as int));
            lemma_split_nonempty(s@.take(i as int), c);
        }
        let ghost old_parts = crate::url::strs_view(parts@);
        let ghost old_cur = cur@;
        if ch == c {
            let piece = string_of(cur.as_slice());
            parts.push(piece);
            cur = Vec::new();
            assert(crate::url::strs_view(parts@) =~= old_parts.push(old_cur));
            assert(crate::url::strs_view(parts@).push(cur@) =~= old_parts.push(old_cur).push(Seq::empty()));
        } else {
            cur.push(ch);
            assert(crate::url::strs_view(parts@).push(cur@) =~= old_parts.push(old_cur).update(old_parts.len() as int, old_cur.push(ch)));
        }
        i = i + 1;
    }
    assert(s@.take(s@.len() as int) =~= s@);
    let ghost before = crate::url::strs_view(parts@);
    let last = string_of(cur.as_slice());
    parts.push(last);
    assert(crate::url::strs_view(parts@) =~= before.push(cur@));
    parts
}


/// Whether a character is written as itself by `Debug` for strings:
/// printable ASCII other than the quote and the backslash.
pub open spec fn debug_plain(c: char) -> bool {
    ' ' <= c && c <= '~' && c != '"' && c != '\\'
}

/// The name for what `{:?}` formatting gives for an optional string.
pub uninterp spec fn option_debug_text(o: Option<Seq<char>>) -> Seq<char>;

/// `{:?}` formatting of an `Option<&str>`. Its result is named
/// `option_debug_text`; the contract states the documented forms for
/// `None` and for strings of plain printable ASCII, which are quoted as
/// they are. How other characters are escaped is left to the name.
#[verifier::external_body]
pub(crate) fn debug_option_str(o: Option<&str>) -> (r: String)
    ensures
        r@ == option_debug_text(match o {
            Some(s) => Some(s@),
            None => None,
        }),
        o is None ==> r@ == "None"@,
        (o matches Some(s) && forall|i: int| 0 <= i < s@.len() ==> debug_plain(#[trigger] s@[i]))
            ==> r@ == "Some(\""@ + o->0@ + "\")"@,
{
    format!("{:?}", o)
}


/// Whether two texts are equal once ASCII letters are lowercased.
pub open spec fn eq_ignore_ascii_case_spec(a: Seq<char>, b: Seq<char>) -> bool {
    a.len() == b.len() && forall|i: int| 0 <= i < a.len() ==> ascii_lower_char(#[trigger] a[i]) == ascii_lower_char(b[i])
}

fn lower_ascii(c: char) -> (r: char)
    ensures
        r == ascii_lower_char(c),
{
    if 'A' <= c && c <= 'Z' {
        let u = (c as u32) + 32;
        assert(u <= 0x7f);
        char_from_ascii(u)
    } else {
        c
    }
}

fn char_from_ascii(u: u32) -> (r: char)
    requires
        u < 128,
    ensures
        r == (u as char),
{
    let b = u as u8;
    b as char
}

/// `str::eq_ignore_ascii_case`: equal once ASCII letters are lowercased.
pub fn eq_ignore_ascii_case(a: &str, b: &str) -> (r: bool)
    ensures
        r == eq_ignore_ascii_case_spec(a@, b@),
{
    let x = chars_of(a);
    let y = chars_of(b);
    if x.len() != y.len() {
        return false;
    }
    let mut i: usize = 0;
    while i < x.len()
        invariant
            x@ == a@,
            y@ == b@,
            x@.len() == y@.len(),
            i <= x@.len(),
            forall|k: int| 0 <= k < i ==> ascii_lower_char(#[trigger] a@[k]) == ascii_lower_char(b@[k]),
        decreases x.len() - i,
    {
        if lower_ascii(x[i]) != lower_ascii(y[i]) {
            return false;
        }
        i = i + 1;
    }
    true
}

} // verus!
