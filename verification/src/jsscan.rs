//! Scanning JavaScript object literals: balanced-brace extraction and
//! conversion of JS-style object text to JSON text.

use vstd::prelude::*;
use crate::text::{chars_of, is_whitespace, string_of, white_space};

verus! {

/// Whether the scanner is inside a JS string literal.
#[derive(Clone, Copy, Debug, PartialEq, Eq, Structural)]
pub enum StringContext {
    /// Not inside any string literal
    Plain,
    /// Inside a `'...'` string
    SingleQuoted,
    /// Inside a `"..."` string
    DoubleQuoted,
}

/// The brace scanner's state: nesting depth, string context, and whether
/// the previous character was an unconsumed backslash.
pub struct ScanState {
    pub depth: int,
    pub ctx: StringContext,
    pub escaped: bool,
}

/// The state after one more character (no early stop).
pub open spec fn scan_step(st: ScanState, ch: char) -> ScanState {
    if st.escaped {
        ScanState { escaped: false, ..st }
    } else if ch == '\\' {
        ScanState { escaped: true, ..st }
    } else {
        match st.ctx {
            StringContext::SingleQuoted => if ch == '\'' {
                ScanState { ctx: StringContext::Plain, ..st }
            } else {
                st
            },
            StringContext::DoubleQuoted => if ch == '"' {
                ScanState { ctx: StringContext::Plain, ..st }
            } else {
                st
            },
            StringContext::Plain => if ch == '\'' {
                ScanState { ctx: StringContext::SingleQuoted, ..st }
            } else if ch == '"' {
                ScanState { ctx: StringContext::DoubleQuoted, ..st }
            } else if ch == '{' {
                ScanState { depth: st.depth + 1, ..st }
            } else if ch == '}' {
                ScanState { depth: st.depth - 1, ..st }
            } else {
                st
            },
        }
    }
}

/// The scanner's state after the first `n` characters of `s`.
pub open spec fn scan(s: Seq<char>, n: int) -> ScanState
    decreases n,
{
    if n <= 0 {
        ScanState { depth: 0, ctx: StringContext::Plain, escaped: false }
    } else {
        scan_step(scan(s, n - 1), s[n - 1])
    }
}

/// Whether the character at `k` closes the outermost brace: a `}` outside
/// any string, not escaped, that brings the depth back to zero.
pub open spec fn closes_at(s: Seq<char>, k: int) -> bool {
    let st = scan(s, k);
    &&& !st.escaped
    &&& st.ctx == StringContext::Plain
    &&& s[k] == '}'
    &&& st.depth == 1
}

/// The end (exclusive) of the first balanced `{...}` run: one past the
/// first closing position, if there is one.
pub open spec fn balanced_end(s: Seq<char>) -> Option<int> {
    if exists|k: int| 0 <= k < s.len() && #[trigger] closes_at(s, k) {
        let k = choose|k: int| 0 <= k < s.len() && closes_at(s, k) && (forall|j: int| 0 <= j < k ==> !#[trigger] closes_at(s, j));
        Some(k + 1)
    } else {
        None
    }
}

proof fn lemma_scan_depth_bound(s: Seq<char>, n: int)
    requires
        0 <= n,
    ensures
        -n <= scan(s, n).depth <= n,
    decreases n,
{
    if n > 0 {
        lemma_scan_depth_bound(s, n - 1);
    }
}

proof fn lemma_least_close(s: Seq<char>, k: int)
    requires
        0 <= k < s.len(),
        closes_at(s, k),
        forall|j: int| 0 <= j < k ==> !#[trigger] closes_at(s, j),
    ensures
        balanced_end(s) == Some(k + 1),
{
    let w = choose|w: int| 0 <= w < s.len() && closes_at(s, w) && (forall|j: int| 0 <= j < w ==> !#[trigger] closes_at(s, j));
    assert(0 <= w < s.len() && closes_at(s, w) && (forall|j: int| 0 <= j < w ==> !#[trigger] closes_at(s, j)));
    if w < k {
        assert(!closes_at(s, w));
    }
    if k < w {
        assert(!closes_at(s, k));
    }
}

/// The first balanced `{...}` run at the start of `s`, if any.
pub open spec fn balanced_prefix(s: Seq<char>) -> Option<Seq<char>> {
    match balanced_end(s) {
        Some(n) => Some(s.take(n)),
        None => None,
    }
}

/// The view of an optional owned string.
pub open spec fn opt_string_view(r: Option<String>) -> Option<Seq<char>> {
    match r {
        Some(t) => Some(t@),
        None => None,
    }
}

/// Extract a balanced `{...}` substring, handling nested braces and string
/// literals: the shortest prefix of `s` whose last character is a `}` that
/// closes the first level of nesting, counting only braces outside quoted
/// strings and not escaped by a backslash. `None` when no prefix closes.
pub fn extract_balanced_braces(s: &str) -> (r: Option<String>)
    ensures
        opt_string_view(r) == balanced_prefix(s@),
        r matches Some(t) ==> s@.take(t@.len() as int) == t@ && t@.last() == '}',
{
    let cs = chars_of(s);
    balanced_braces_in(cs.as_slice())
}

/// `extract_balanced_braces` on a character slice.
pub fn balanced_braces_in(cs: &[char]) -> (r: Option<String>)
    ensures
        opt_string_view(r) == balanced_prefix(cs@),
        r matches Some(t) ==> cs@.take(t@.len() as int) == t@ && t@.last() == '}',
{
    let ghost s = cs@;
    let mut chars: Vec<char> = Vec::new();
    let mut depth: i128 = 0;
    let mut ctx = StringContext::Plain;
    let mut escaped = false;
    let mut i: usize = 0;
    while i < cs.len()
        invariant
            cs@ == s,
            i <= cs@.len(),
            chars@ == s.take(i as int),
            depth as int == scan(s, i as int).depth,
            ctx == scan(s, i as int).ctx,
            escaped == scan(s, i as int).escaped,
            forall|j: int| 0 <= j < i ==> !#[trigger] closes_at(s, j),
        decreases cs.len() - i,
    {
        let ch = cs[i];
        proof {
            lemma_scan_depth_bound(s, i as int);
            assert(s.take(i + 1) =~= s.take(i as int).push(ch));
        }
        chars.push(ch);
        if escaped {
            escaped = false;
        } else if ch == '\\' {
            escaped = true;
        } else {
            match ctx {
                StringContext::SingleQuoted => {
                    if ch == '\'' {
                        ctx = StringContext::Plain;
                    }
                },
                StringContext::DoubleQuoted => {
                    if ch == '"' {
                        ctx = StringContext::Plain;
                    }
                },
                StringContext::Plain => {
                    if ch == '\'' {
                        ctx = StringContext::SingleQuoted;
                    } else if ch == '"' {
                        ctx = StringContext::DoubleQuoted;
                    } else if ch == '{' {
                        depth = depth + 1;
                    } else if ch == '}' {
                        depth = depth - 1;
                        if depth == 0 {
                            proof {
                                assert(closes_at(s, i as int));
                                lemma_least_close(s, i as int);
                            }
                            return Some(string_of(chars.as_slice()));
                        }
                    }
                },
            }
        }
        proof {
            assert(!closes_at(s, i as int));
        }
        i = i + 1;
    }
    None
}

/// The normaliser's state: string context and a pending backslash.
pub struct NormState {
    pub ctx: StringContext,
    pub escaped: bool,
}

/// The normaliser's state after one more character.
pub open spec fn norm_step(st: NormState, ch: char) -> NormState {
    if st.escaped {
        NormState { ctx: st.ctx, escaped: false }
    } else if ch == '\\' {
        NormState { ctx: st.ctx, escaped: true }
    } else {
        match st.ctx {
            StringContext::DoubleQuoted => if ch == '"' {
                NormState { ctx: StringContext::Plain, escaped: false }
            } else {
                st
            },
            StringContext::SingleQuoted => if ch == '\'' {
                NormState { ctx: StringContext::Plain, escaped: false }
            } else {
                st
            },
            StringContext::Plain => if ch == '\'' {
                NormState { ctx: StringContext::SingleQuoted, escaped: false }
            } else if ch == '"' {
                NormState { ctx: StringContext::DoubleQuoted, escaped: false }
            } else {
                st
            },
        }
    }
}

/// The normaliser's state after the first `n` characters.
pub open spec fn norm_state(s: Seq<char>, n: int) -> NormState
    decreases n,
{
    if n <= 0 {
        NormState { ctx: StringContext::Plain, escaped: false }
    } else {
        norm_step(norm_state(s, n - 1), s[n - 1])
    }
}

/// The first character at or after `i` that is not white space.
pub open spec fn next_significant(s: Seq<char>, i: int) -> Option<char>
    decreases s.len() - i,
{
    if i < 0 || i >= s.len() {
        None
    } else if white_space(s[i]) {
        next_significant(s, i + 1)
    } else {
        Some(s[i])
    }
}

/// Whether the comma at `i` is a trailing comma: the next significant
/// character closes an object or an array.
pub open spec fn trailing_comma(s: Seq<char>, i: int) -> bool {
    next_significant(s, i + 1) == Some('}') || next_significant(s, i + 1) == Some(']')
}

/// Whether a character may start a bare JS identifier.
pub open spec fn ident_start(c: char) -> bool {
    ('a' <= c && c <= 'z') || ('A' <= c && c <= 'Z') || c == '_' || c == '$'
}

/// Whether a character may continue a bare JS identifier.
pub open spec fn ident_char(c: char) -> bool {
    ident_start(c) || ('0' <= c && c <= '9')
}

/// The start of the run of identifier characters that ends at `i`.
pub open spec fn run_start(s: Seq<char>, i: int) -> int
    decreases i,
{
    if i > 0 && i <= s.len() && ident_char(s[i - 1]) {
        run_start(s, i - 1)
    } else {
        i
    }
}

/// The end (exclusive) of the run of identifier characters that starts at `i`.
pub open spec fn run_end(s: Seq<char>, i: int) -> int
    decreases s.len() - i,
{
    if 0 <= i < s.len() && ident_char(s[i]) {
        run_end(s, i + 1)
    } else {
        i
    }
}

/// The last character before `i` that is not white space.
pub open spec fn prev_significant(s: Seq<char>, i: int) -> Option<char>
    decreases i,
{
    if i <= 0 || i > s.len() {
        None
    } else if white_space(s[i - 1]) {
        prev_significant(s, i - 1)
    } else {
        Some(s[i - 1])
    }
}

/// Whether the identifier run `[j, k)` is a bare object key: it starts like
/// an identifier, follows `{` or `,`, and is followed by `:`.
pub open spec fn bare_key(s: Seq<char>, j: int, k: int) -> bool {
    &&& 0 <= j < k <= s.len()
    &&& ident_start(s[j])
    &&& (prev_significant(s, j) == Some('{') || prev_significant(s, j) == Some(','))
    &&& next_significant(s, k) == Some(':')
}

/// Whether the character at `i` belongs to a bare object key.
pub open spec fn in_bare_key(s: Seq<char>, i: int) -> bool {
    ident_char(s[i]) && bare_key(s, run_start(s, i), run_end(s, i))
}

/// Whether the backslash at `i` escapes an apostrophe.
pub open spec fn escapes_apostrophe(s: Seq<char>, i: int) -> bool {
    i + 1 < s.len() && s[i + 1] == '\''
}

/// What the normaliser writes for the character at `i`, in state `st`:
/// single-quoted strings become double-quoted (double quotes inside them
/// escaped), `\'` inside a string becomes `'`, other escapes are copied,
/// a comma outside strings is dropped before `}` or `]`, and a bare object
/// key is put in double quotes.
pub open spec fn norm_emit(s: Seq<char>, i: int, st: NormState) -> Seq<char> {
    let ch = s[i];
    if st.escaped {
        seq![ch]
    } else if ch == '\\' {
        if st.ctx != StringContext::Plain && escapes_apostrophe(s, i) {
            Seq::empty()
        } else {
            seq![ch]
        }
    } else {
        match st.ctx {
            StringContext::DoubleQuoted => seq![ch],
            StringContext::SingleQuoted => if ch == '\'' {
                seq!['"']
            } else if ch == '"' {
                seq!['\\', '"']
            } else {
                seq![ch]
            },
            StringContext::Plain => if ch == '\'' || ch == '"' {
                seq!['"']
            } else if ch == ',' {
                if trailing_comma(s, i) {
                    Seq::empty()
                } else {
                    seq![',']
                }
            } else if in_bare_key(s, i) {
                (if i == run_start(s, i) { seq!['"'] } else { Seq::empty() })
                    + seq![ch]
                    + (if i + 1 == run_end(s, i) { seq!['"'] } else { Seq::empty() })
            } else {
                seq![ch]
            },
        }
    }
}

/// Whether the character at `i`, read in state `st`, is already JSON as it
/// stands: outside strings no apostrophe, no comma before `}` or `]` and no
/// bare key; inside strings no `\'` escape.
pub open spec fn json_char_at(s: Seq<char>, i: int, st: NormState) -> bool {
    !st.escaped ==> {
        &&& st.ctx == StringContext::Plain ==> {
            &&& s[i] != '\''
            &&& s[i] == ',' ==> !trailing_comma(s, i)
            &&& !in_bare_key(s, i)
        }
        &&& (st.ctx != StringContext::Plain && s[i] == '\\') ==> !escapes_apostrophe(s, i)
    }
}

/// Whether a text has the shape of JSON text in every character (as every
/// JSON document does: its strings are double-quoted, its keys are strings,
/// it has no trailing commas and only JSON escapes).
pub open spec fn json_shaped(s: Seq<char>) -> bool {
    forall|i: int| 0 <= i < s.len() ==> json_char_at(s, i, #[trigger] norm_state(s, i))
}

/// The normaliser's output for the first `n` characters.
pub open spec fn norm_out(s: Seq<char>, n: int) -> Seq<char>
    decreases n,
{
    if n <= 0 {
        Seq::empty()
    } else {
        norm_out(s, n - 1) + norm_emit(s, n - 1, norm_state(s, n - 1))
    }
}

/// The first non-white-space character at or after `from`.
fn next_significant_char(cs: &[char], from: usize) -> (r: Option<char>)
    ensures
        r == next_significant(cs@, from as int),
{
    let mut j: usize = from;
    while j < cs.len()
        invariant
            from <= j,
            next_significant(cs@, from as int) == next_significant(cs@, j as int),
        decreases cs.len() - j,
    {
        if !is_whitespace(cs[j]) {
            return Some(cs[j]);
        }
        j = j + 1;
    }
    None
}

fn is_ident_start(c: char) -> (r: bool)
    ensures
        r == ident_start(c),
{
    ('a' <= c && c <= 'z') || ('A' <= c && c <= 'Z') || c == '_' || c == '$'
}

fn is_ident_char(c: char) -> (r: bool)
    ensures
        r == ident_char(c),
{
    is_ident_start(c) || ('0' <= c && c <= '9')
}

/// The start of the identifier run ending at `i`.
fn run_start_at(cs: &[char], i: usize) -> (r: usize)
    requires
        i <= cs@.len(),
    ensures
        r as int == run_start(cs@, i as int),
        r <= i,
{
    let mut p: usize = i;
    while p > 0 && is_ident_char(cs[p - 1])
        invariant
            p <= i <= cs@.len(),
            run_start(cs@, i as int) == run_start(cs@, p as int),
        decreases p,
    {
        p = p - 1;
    }
    p
}

/// The end of the identifier run starting at `i`.
fn run_end_at(cs: &[char], i: usize) -> (r: usize)
    requires
        i <= cs@.len(),
    ensures
        r as int == run_end(cs@, i as int),
        i <= r <= cs@.len(),
{
    let mut p: usize = i;
    while p < cs.len() && is_ident_char(cs[p])
        invariant
            i <= p <= cs@.len(),
            run_end(cs@, i as int) == run_end(cs@, p as int),
        decreases cs.len() - p,
    {
        p = p + 1;
    }
    p
}

/// The last non-white-space character before `i`.
fn prev_significant_char(cs: &[char], i: usize) -> (r: Option<char>)
    requires
        i <= cs@.len(),
    ensures
        r == prev_significant(cs@, i as int),
{
    let mut p: usize = i;
    while p > 0
        invariant
            p <= i <= cs@.len(),
            prev_significant(cs@, i as int) == prev_significant(cs@, p as int),
        decreases p,
    {
        if !is_whitespace(cs[p - 1]) {
            return Some(cs[p - 1]);
        }
        p = p - 1;
    }
    None
}

/// Whether the identifier run `[j, k)` is a bare object key.
fn is_bare_key(cs: &[char], j: usize, k: usize) -> (r: bool)
    requires
        j < k <= cs@.len(),
    ensures
        r == bare_key(cs@, j as int, k as int),
{
    if !is_ident_start(cs[j]) {
        return false;
    }
    let before = prev_significant_char(cs, j);
    if before != Some('{') && before != Some(',') {
        return false;
    }
    next_significant_char(cs, k) == Some(':')
}

/// Normalize a JS object literal to valid JSON.
///
/// Converts single-quoted strings to double-quoted (double quotes inside
/// them are escaped), writes `\'` inside a string as `'`, quotes bare
/// object keys (an identifier after `{` or `,` and before `:`), copies
/// other backslash escapes as they are, and drops a comma outside strings
/// when the next non-white-space character is `}` or `]`.
pub fn normalize_js_to_json(js: &str) -> (r: String)
    ensures
        r@ == norm_out(js@, js@.len() as int),
{
    let cs = chars_of(js);
    let mut out: Vec<char> = Vec::new();
    let mut ctx = StringContext::Plain;
    let mut escaped = false;
    let mut i: usize = 0;
    while i < cs.len()
        invariant
            cs@ == js@,
            i <= cs@.len(),
            out@ == norm_out(js@, i as int),
            ctx == norm_state(js@, i as int).ctx,
            escaped == norm_state(js@, i as int).escaped,
        decreases cs.len() - i,
    {
        let ch = cs[i];
        let ghost before = out@;
        if escaped {
            escaped = false;
            out.push(ch);
        } else if ch == '\\' {
            escaped = true;
            let drops = match ctx {
                StringContext::Plain => false,
                _ => i + 1 < cs.len() && cs[i + 1] == '\'',
            };
            if !drops {
                out.push(ch);
            }
        } else {
            match ctx {
                StringContext::DoubleQuoted => {
                    if ch == '"' {
                        ctx = StringContext::Plain;
                    }
                    out.push(ch);
                },
                StringContext::SingleQuoted => {
                    if ch == '\'' {
                        ctx = StringContext::Plain;
                        out.push('"');
                    } else if ch == '"' {
                        out.push('\\');
                        out.push('"');
                    } else {
                        out.push(ch);
                    }
                },
                StringContext::Plain => {
                    if ch == '\'' {
                        ctx = StringContext::SingleQuoted;
                        out.push('"');
                    } else if ch == '"' {
                        ctx = StringContext::DoubleQuoted;
                        out.push('"');
                    } else if ch == ',' {
                        let next = next_significant_char(cs.as_slice(), i + 1);
                        if next != Some('}') && next != Some(']') {
                            out.push(',');
                        }
                    } else if is_ident_char(ch) {
                        let j = run_start_at(cs.as_slice(), i);
                        let k = run_end_at(cs.as_slice(), i + 1);
                        proof {
                            assert(run_end(js@, i as int) == run_end(js@, i + 1));
                        }
                        if is_bare_key(cs.as_slice(), j, k) {
                            if i == j {
                                out.push('"');
                            }
                            out.push(ch);
                            if i + 1 == k {
                                out.push('"');
                            }
                        } else {
                            out.push(ch);
                        }
                    } else {
                        out.push(ch);
                    }
                },
            }
        }
        proof {
            assert(out@ =~= before + norm_emit(js@, i as int, norm_state(js@, i as int)));
        }
        i = i + 1;
    }
    string_of(out.as_slice())
}

} // verus!
