//! Text helpers: trimming, file-name sanitising and the parsing and display
//! of the filter-trigger switch.

use vstd::prelude::*;
use vstd::string::*;

verus! {

/// Whether a character has the Unicode `White_Space` property, as
/// `char::is_whitespace` decides it.
pub uninterp spec fn is_white_space(c: char) -> bool;

/// The lowercase equivalent of a text, as `str::to_lowercase` computes it.
pub uninterp spec fn lowercase(s: Seq<char>) -> Seq<char>;

/// Calls `char::is_whitespace`; the contract names its result
/// `is_white_space(c)` and says nothing more of it.
#[verifier::external_body]
pub(crate) fn char_is_whitespace(c: char) -> (b: bool)
    ensures
        b == is_white_space(c),
{
    c.is_whitespace()
}

/// Calls `str::to_lowercase`; the contract names its result `lowercase(s@)`
/// and says nothing more of it.
#[verifier::external_body]
pub(crate) fn str_to_lowercase(s: &str) -> (r: String)
    ensures
        r@ == lowercase(s@),
{
    s.to_lowercase()
}

/// Calls `String::push`, which appends one character.
#[verifier::external_body]
fn push_char(s: &mut String, c: char)
    ensures
        final(s)@ == old(s)@.push(c),
{
    s.push(c)
}

/// Drops the leading characters that satisfy `p`.
pub open spec fn trim_start_by(s: Seq<char>, p: spec_fn(char) -> bool) -> Seq<char>
    decreases s.len(),
{
    if s.len() > 0 && p(s[0]) {
        trim_start_by(s.drop_first(), p)
    } else {
        s
    }
}

/// Drops the trailing characters that satisfy `p`.
pub open spec fn trim_end_by(s: Seq<char>, p: spec_fn(char) -> bool) -> Seq<char>
    decreases s.len(),
{
    if s.len() > 0 && p(s.last()) {
        trim_end_by(s.drop_last(), p)
    } else {
        s
    }
}

/// Drops the leading and trailing characters that satisfy `p`.
pub open spec fn trim_by(s: Seq<char>, p: spec_fn(char) -> bool) -> Seq<char> {
    trim_end_by(trim_start_by(s, p), p)
}

/// The predicate trimmed away: underscores, or white space.
pub open spec fn trim_pred(underscore: bool) -> spec_fn(char) -> bool {
    |c: char|
        if underscore {
            c == '_'
        } else {
            is_white_space(c)
        }
}

/// A text without leading and trailing white space (`str::trim`).
pub open spec fn trim_ws(s: Seq<char>) -> Seq<char> {
    trim_by(s, trim_pred(false))
}

/// Dropping the leading characters that satisfy `p` keeps `s[a..]` when `a`
/// is the first index whose character does not.
pub(crate) proof fn lemma_trim_start(s: Seq<char>, p: spec_fn(char) -> bool, a: int)
    requires
        0 <= a <= s.len(),
        forall|i: int| 0 <= i < a ==> p(#[trigger] s[i]),
        a == s.len() || !p(s[a]),
    ensures
        trim_start_by(s, p) == s.subrange(a, s.len() as int),
    decreases a,
{
    if a == 0 {
        assert(s.subrange(0, s.len() as int) =~= s);
    } else {
        let t = s.drop_first();
        assert forall|i: int| 0 <= i < a - 1 implies p(#[trigger] t[i]) by {
            assert(t[i] == s[i + 1]);
        }
        lemma_trim_start(t, p, a - 1);
        assert(t.subrange(a - 1, t.len() as int) =~= s.subrange(a, s.len() as int));
    }
}

proof fn lemma_trim_end(s: Seq<char>, p: spec_fn(char) -> bool, b: int)
    requires
        0 <= b <= s.len(),
        forall|i: int| b <= i < s.len() ==> p(#[trigger] s[i]),
        b == 0 || !p(s[b - 1]),
    ensures
        trim_end_by(s, p) == s.subrange(0, b),
    decreases s.len() - b,
{
    if b == s.len() {
        assert(s.subrange(0, b) =~= s);
    } else {
        let t = s.drop_last();
        assert forall|i: int| b <= i < t.len() implies p(#[trigger] t[i]) by {
            assert(t[i] == s[i]);
        }
        if b > 0 {
            assert(t[b - 1] == s[b - 1]);
        }
        lemma_trim_end(t, p, b);
        assert(t.subrange(0, b) =~= s.subrange(0, b));
    }
}

/// The characters of a text.
pub fn chars_of(s: &str) -> (v: Vec<char>)
    ensures
        v@ == s@,
{
    broadcast use vstd::string::group_string_axioms;

    let mut v: Vec<char> = Vec::new();
    for c in it: s.chars()
        invariant
            it.seq() == s@,
            v@ == it.seq().take(it.index() as int),
    {
        v.push(c);
    }
    assert(v@ =~= s@);
    v
}

/// The text made of `v[from..to]`.
pub(crate) fn string_of(v: &Vec<char>, from: usize, to: usize) -> (r: String)
    requires
        from <= to <= v@.len(),
    ensures
        r@ == v@.subrange(from as int, to as int),
{
    let mut r = String::new();
    for i in from..to
        invariant
            from <= to <= v@.len(),
            r@ == v@.subrange(from as int, i as int),
    {
        push_char(&mut r, v[i]);
        assert(r@ =~= v@.subrange(from as int, i + 1));
    }
    r
}

/// Bounds of the part of `v` that trimming keeps.
pub(crate) fn trim_bounds(v: &Vec<char>, underscore: bool) -> (r: (usize, usize))
    ensures
        r.0 <= r.1 <= v@.len(),
        v@.subrange(r.0 as int, r.1 as int) == trim_by(v@, trim_pred(underscore)),
        forall|i: int| 0 <= i < r.0 ==> (trim_pred(underscore))(#[trigger] v@[i]),
        forall|i: int| r.1 <= i < v@.len() ==> (trim_pred(underscore))(#[trigger] v@[i]),
        r.0 < r.1 ==> !(trim_pred(underscore))(v@[r.0 as int]) && !(trim_pred(underscore))(
            v@[r.1 - 1],
        ),
{
    let ghost p = trim_pred(underscore);
    let n = v.len();
    let mut a: usize = 0;
    while a < n
        invariant
            a <= n == v@.len(),
            p == trim_pred(underscore),
            forall|i: int| 0 <= i < a ==> p(#[trigger] v@[i]),
        ensures
            a <= n,
            forall|i: int| 0 <= i < a ==> p(#[trigger] v@[i]),
            a == n || !p(v@[a as int]),
        decreases n - a,
    {
        let c = v[a];
        let hit = if underscore {
            c == '_'
        } else {
            char_is_whitespace(c)
        };
        if !hit {
            break;
        }
        a += 1;
    }
    let mut b: usize = n;
    while b > a
        invariant
            a <= b <= n == v@.len(),
            p == trim_pred(underscore),
            forall|i: int| b <= i < n ==> p(#[trigger] v@[i]),
        ensures
            a <= b <= n,
            forall|i: int| b <= i < n ==> p(#[trigger] v@[i]),
            b == a || !p(v@[b - 1]),
        decreases b,
    {
        let c = v[b - 1];
        let hit = if underscore {
            c == '_'
        } else {
            char_is_whitespace(c)
        };
        if !hit {
            break;
        }
        b -= 1;
    }
    proof {
        lemma_trim_start(v@, p, a as int);
        let t = v@.subrange(a as int, n as int);
        assert forall|i: int| b - a <= i < t.len() implies p(#[trigger] t[i]) by {
            assert(t[i] == v@[i + a]);
        }
        if b > a {
            assert(t[b - a - 1] == v@[b - 1]);
        }
        lemma_trim_end(t, p, b - a);
        assert(t.subrange(0, b - a) =~= v@.subrange(a as int, b as int));
    }
    (a, b)
}

/// `s` without leading and trailing white space.
pub fn trim(s: &str) -> (r: String)
    ensures
        r@ == trim_ws(s@),
{
    let v = chars_of(s);
    let (a, b) = trim_bounds(&v, false);
    string_of(&v, a, b)
}

/// ASCII letters and digits.
pub open spec fn is_ascii_alnum(c: char) -> bool {
    ('0' <= c <= '9') || ('A' <= c <= 'Z') || ('a' <= c <= 'z')
}

/// How a character of a file-name component is rewritten: ASCII letters,
/// digits, '-' and '_' stay, anything else becomes '_'.
pub open spec fn sanitize_char(c: char) -> char {
    if is_ascii_alnum(c) {
        c
    } else if is_white_space(c) {
        '_'
    } else if c == '-' || c == '_' {
        c
    } else {
        '_'
    }
}

/// The component used when nothing usable remains.
pub open spec fn default_component() -> Seq<char> {
    seq!['d', 'e', 'f', 'a', 'u', 'l', 't']
}

/// A safe file or folder name made from a user-facing name: trimmed, every
/// unsafe character replaced by '_', leading and trailing '_' removed, and
/// "default" when that leaves nothing.
pub open spec fn spec_sanitize(s: Seq<char>) -> Seq<char> {
    let t = trim_ws(s);
    if t.len() == 0 {
        default_component()
    } else {
        let core = trim_by(t.map_values(|c: char| sanitize_char(c)), trim_pred(true));
        if core.len() == 0 {
            default_component()
        } else {
            core
        }
    }
}

fn sanitize_one(c: char) -> (r: char)
    ensures
        r == sanitize_char(c),
{
    if ('0' <= c && c <= '9') || ('A' <= c && c <= 'Z') || ('a' <= c && c <= 'z') {
        c
    } else if char_is_whitespace(c) {
        '_'
    } else if c == '-' || c == '_' {
        c
    } else {
        '_'
    }
}

fn default_component_string() -> (r: String)
    ensures
        r@ == default_component(),
{
    proof {
        reveal_strlit("default");
    }
    let r = String::from_str("default");
    assert(r@ =~= default_component());
    r
}

/// Makes a user-facing name safe to use as a file or folder name (see
/// `spec_sanitize`).
pub fn sanitize_component(value: &str) -> (r: String)
    ensures
        r@ == spec_sanitize(value@),
{
    let v = chars_of(value);
    let (a, b) = trim_bounds(&v, false);
    if a == b {
        return default_component_string();
    }
    let mut mapped: Vec<char> = Vec::new();
    let ghost t = v@.subrange(a as int, b as int);
    for i in a..b
        invariant
            a <= b <= v@.len(),
            t == v@.subrange(a as int, b as int),
            mapped@ == t.take(i - a).map_values(|c: char| sanitize_char(c)),
    {
        mapped.push(sanitize_one(v[i]));
        assert(mapped@ =~= t.take(i + 1 - a).map_values(|c: char| sanitize_char(c)));
    }
    assert(t.take(b - a) =~= t);
    let (c, d) = trim_bounds(&mapped, true);
    if c == d {
        default_component_string()
    } else {
        string_of(&mapped, c, d)
    }
}

/// A sanitised component is never empty, holds only ASCII letters, digits,
/// '-' and '_', and neither starts nor ends with '_'.
pub proof fn lemma_sanitized_is_safe(s: Seq<char>)
    ensures
        spec_sanitize(s).len() > 0,
        forall|i: int|
            0 <= i < spec_sanitize(s).len() ==> is_ascii_alnum(#[trigger] spec_sanitize(s)[i])
                || spec_sanitize(s)[i] == '-' || spec_sanitize(s)[i] == '_',
        spec_sanitize(s)[0] != '_',
        spec_sanitize(s).last() != '_',
{
    let t = trim_ws(s);
    if t.len() > 0 {
        let m = t.map_values(|c: char| sanitize_char(c));
        let p = trim_pred(true);
        // Bounds of the kept part of `m`.
        let a = trim_start_index(m, p);
        let b = trim_end_index(m, p, a);
        lemma_trim_start(m, p, a);
        let u = m.subrange(a, m.len() as int);
        assert forall|i: int| b - a <= i < u.len() implies p(#[trigger] u[i]) by {
            assert(u[i] == m[i + a]);
        }
        if b > a {
            assert(u[b - a - 1] == m[b - 1]);
        }
        lemma_trim_end(u, p, b - a);
        let core = trim_by(m, p);
        assert(core =~= m.subrange(a, b));
        assert forall|i: int| 0 <= i < core.len() implies is_ascii_alnum(#[trigger] core[i])
            || core[i] == '-' || core[i] == '_' by {
            assert(core[i] == m[i + a]);
            assert(m[i + a] == sanitize_char(t[i + a]));
        }
        if core.len() > 0 {
            assert(core[0] == m[a]);
            assert(core.last() == m[b - 1]);
        }
    }
}

/// The index where the part kept by `trim_start_by` begins.
proof fn trim_start_index(s: Seq<char>, p: spec_fn(char) -> bool) -> (a: int)
    ensures
        0 <= a <= s.len(),
        forall|i: int| 0 <= i < a ==> p(#[trigger] s[i]),
        a == s.len() || !p(s[a]),
    decreases s.len(),
{
    if s.len() > 0 && p(s[0]) {
        let t = s.drop_first();
        let a = trim_start_index(t, p);
        assert forall|i: int| 0 <= i < a + 1 implies p(#[trigger] s[i]) by {
            if i > 0 {
                assert(s[i] == t[i - 1]);
            }
        }
        if a + 1 < s.len() {
            assert(s[a + 1] == t[a]);
        }
        a + 1
    } else {
        0
    }
}

/// The index where the part kept by `trim_end_by` over `s[a..]` ends.
proof fn trim_end_index(s: Seq<char>, p: spec_fn(char) -> bool, a: int) -> (b: int)
    requires
        0 <= a <= s.len(),
    ensures
        a <= b <= s.len(),
        forall|i: int| b <= i < s.len() ==> p(#[trigger] s[i]),
        b == a || !p(s[b - 1]),
    decreases s.len() - a,
{
    if s.len() > a && p(s.last()) {
        let t = s.drop_last();
        let b = trim_end_index(t, p, a);
        assert forall|i: int| b <= i < s.len() implies p(#[trigger] s[i]) by {
            if i < t.len() {
                assert(s[i] == t[i]);
            }
        }
        if b > a {
            assert(s[b - 1] == t[b - 1]);
        }
        b
    } else {
        s.len() as int
    }
}

} // verus!
