//! Character-level helpers shared by the parsers.

use vstd::prelude::*;

verus! {

/// A character with the Unicode `White_Space` property, which `str::trim` and
/// `str::split_whitespace` go by.
pub open spec fn is_white(c: char) -> bool {
    let u = c as u32;
    (9 <= u <= 13) || u == 32 || u == 0x85 || u == 0xA0 || u == 0x1680 || (0x2000 <= u <= 0x200A)
        || u == 0x2028 || u == 0x2029 || u == 0x202F || u == 0x205F || u == 0x3000
}

/// `s` without its leading white space.
pub open spec fn trim_start(s: Seq<char>) -> Seq<char>
    decreases s.len(),
{
    if s.len() > 0 && is_white(s[0]) { trim_start(s.drop_first()) } else { s }
}

/// `s` without its trailing white space.
pub open spec fn trim_end(s: Seq<char>) -> Seq<char>
    decreases s.len(),
{
    if s.len() > 0 && is_white(s.last()) { trim_end(s.drop_last()) } else { s }
}

/// `s` without white space at either end.
pub open spec fn trimmed(s: Seq<char>) -> Seq<char> {
    trim_end(trim_start(s))
}

/// `w` stands in `s` as a whole word: delimited by white space or by the ends.
pub open spec fn has_word(s: Seq<char>, w: Seq<char>) -> bool {
    exists|i: int| 0 <= i && i + w.len() <= s.len() && #[trigger] s.subrange(i, i + w.len()) == w
        && (i == 0 || is_white(s[i - 1])) && (i + w.len() == s.len() || is_white(s[i + w.len()]))
}

pub(crate) fn is_white_exec(c: char) -> (r: bool)
    ensures
        r == is_white(c),
{
    let u = c as u32;
    (9 <= u && u <= 13) || u == 32 || u == 0x85 || u == 0xA0 || u == 0x1680 || (0x2000 <= u && u <= 0x200A)
        || u == 0x2028 || u == 0x2029 || u == 0x202F || u == 0x205F || u == 0x3000
}

/// Relies on `str::chars`: the characters of the string, in order.
#[verifier::external_body]
pub(crate) fn chars_of(s: &str) -> (r: Vec<char>)
    ensures
        r@ == s@,
{
    s.chars().collect()
}

proof fn lemma_trim_start(s: Seq<char>, i: int)
    requires
        0 <= i <= s.len(),
        forall|k: int| 0 <= k < i ==> is_white(s[k]),
    ensures
        trim_start(s) == trim_start(s.subrange(i, s.len() as int)),
    decreases i,
{
    if i > 0 {
        assert(s.drop_first().subrange(i - 1, s.drop_first().len() as int) =~= s.subrange(i, s.len() as int));
        lemma_trim_start(s.drop_first(), i - 1);
    } else {
        assert(s.subrange(0, s.len() as int) =~= s);
    }
}

proof fn lemma_trim_end(s: Seq<char>, j: int)
    requires
        0 <= j <= s.len(),
        forall|k: int| j <= k < s.len() ==> is_white(s[k]),
    ensures
        trim_end(s) == trim_end(s.subrange(0, j)),
    decreases s.len() - j,
{
    if j < s.len() {
        assert(s.drop_last().subrange(0, j) =~= s.subrange(0, j));
        lemma_trim_end(s.drop_last(), j);
    } else {
        assert(s.subrange(0, s.len() as int) =~= s);
    }
}

/// Removes white space at both ends, as `str::trim` does.
pub fn trim(s: &str) -> (r: String)
    ensures
        r@ == trimmed(s@),
{
    let cs = chars_of(s);
    let n = cs.len();
    let mut i: usize = 0;
    while i < n && is_white_exec(cs[i])
        invariant
            cs@ == s@,
            n == cs@.len(),
            i <= n,
            forall|k: int| 0 <= k < i ==> is_white(cs@[k]),
        decreases n - i,
    {
        i += 1;
    }
    proof { lemma_trim_start(s@, i as int); }
    let ghost rest = s@.subrange(i as int, n as int);
    assert(trim_start(rest) == rest);
    let mut j: usize = n;
    while j > i && is_white_exec(cs[j - 1])
        invariant
            cs@ == s@,
            n == cs@.len(),
            i <= j <= n,
            forall|k: int| j <= k < n ==> is_white(cs@[k]),
        decreases j,
    {
        j -= 1;
    }
    proof {
        let r2 = rest;
        assert forall|k: int| j - i <= k < r2.len() implies is_white(r2[k]) by {
            assert(r2[k] == s@[i + k]);
        }
        lemma_trim_end(r2, j - i);
        assert(r2.subrange(0, j - i) =~= s@.subrange(i as int, j as int));
        let t = s@.subrange(i as int, j as int);
        if t.len() > 0 {
            assert(!is_white(t.last()));
        }
    }
    s.substring_char(i, j).to_owned()
}

/// `c` lower-cases to the ASCII character `p`: `p` itself, its upper-case
/// letter, or the Kelvin sign, which lower-cases to `k`.
pub open spec fn ci_eq(c: char, p: char) -> bool {
    c == p || (97 <= p as u32 <= 122 && c as u32 + 32 == p as u32) || (p == 'k' && c as u32 == 0x212A)
}

/// `p` is a suffix of `s` up to ASCII case, where `p` is written in lower case.
pub open spec fn ends_with_ci(s: Seq<char>, p: Seq<char>) -> bool {
    p.len() <= s.len() && forall|j: int| 0 <= j < p.len() ==> ci_eq(#[trigger] s[s.len() - p.len() + j], p[j])
}

/// `p` occurs somewhere in `s`.
pub open spec fn occurs_in(p: Seq<char>, s: Seq<char>) -> bool {
    exists|i: int| 0 <= i && i + p.len() <= s.len() && #[trigger] s.subrange(i, i + p.len()) == p
}

pub(crate) fn ci_eq_exec(c: char, p: char) -> (r: bool)
    ensures
        r == ci_eq(c, p),
{
    let cu = c as u32;
    let pu = p as u32;
    c == p || (97 <= pu && pu <= 122 && cu + 32 == pu) || (p == 'k' && cu == 0x212A)
}

pub(crate) fn ends_with_ci_exec(s: &Vec<char>, p: &Vec<char>) -> (r: bool)
    ensures
        r == ends_with_ci(s@, p@),
{
    if p.len() > s.len() {
        return false;
    }
    let n = s.len();
    let off = n - p.len();
    let mut j: usize = 0;
    while j < p.len()
        invariant
            n == s@.len(),
            off == s@.len() - p@.len(),
            j <= p@.len(),
            forall|k: int| 0 <= k < j ==> ci_eq(#[trigger] s@[s@.len() - p@.len() + k], p@[k]),
        decreases p.len() - j,
    {
        if !ci_eq_exec(s[off + j], p[j]) {
            return false;
        }
        j += 1;
    }
    true
}

/// Does `p` occur in `s` at offset `i`?
fn occurs_at(p: &Vec<char>, s: &Vec<char>, i: usize) -> (r: bool)
    requires
        i + p@.len() <= s@.len(),
    ensures
        r == (s@.subrange(i as int, i + p@.len()) == p@),
{
    let n = s.len();
    let mut j: usize = 0;
    while j < p.len()
        invariant
            n == s@.len(),
            i + p@.len() <= s@.len(),
            j <= p@.len(),
            forall|k: int| 0 <= k < j ==> s@[i + k] == p@[k],
        decreases p.len() - j,
    {
        if s[i + j] != p[j] {
            assert(s@.subrange(i as int, i + p@.len())[j as int] != p@[j as int]);
            return false;
        }
        j += 1;
    }
    assert(s@.subrange(i as int, i + p@.len()) =~= p@);
    true
}

/// Does the text `s` contain `p`?
pub fn contains(s: &str, p: &str) -> (r: bool)
    ensures
        r == occurs_in(p@, s@),
{
    let sv = chars_of(s);
    let pv = chars_of(p);
    if pv.len() > sv.len() {
        return false;
    }
    let last = sv.len() - pv.len();
    let mut i: usize = 0;
    while i <= last
        invariant
            last == sv@.len() - pv@.len(),
            sv@ == s@,
            pv@ == p@,
            i <= last,
            forall|k: int| 0 <= k < i ==> #[trigger] s@.subrange(k, k + p@.len()) != p@,
        decreases last + 1 - i,
    {
        if occurs_at(&pv, &sv, i) {
            return true;
        }
        if i == last {
            return false;
        }
        i += 1;
    }
    false
}

} // verus!

verus! {

/// Does `w` stand in `s` as a whole white-space delimited word?
pub fn contains_word(s: &str, w: &str) -> (r: bool)
    ensures
        r == has_word(s@, w@),
{
    let sv = chars_of(s);
    let wv = chars_of(w);
    if wv.len() > sv.len() {
        return false;
    }
    let n = sv.len();
    let last = n - wv.len();
    let mut i: usize = 0;
    while i <= last
        invariant
            n == sv@.len(),
            last == sv@.len() - wv@.len(),
            sv@ == s@,
            wv@ == w@,
            i <= last,
            forall|k: int| 0 <= k < i ==> !(#[trigger] s@.subrange(k, k + w@.len()) == w@
                && (k == 0 || is_white(s@[k - 1])) && (k + w@.len() == s@.len() || is_white(s@[k + w@.len()]))),
        decreases last + 1 - i,
    {
        if occurs_at(&wv, &sv, i) {
            let before = i == 0 || is_white_exec(sv[i - 1]);
            let after = i == last || is_white_exec(sv[i + wv.len()]);
            if before && after {
                return true;
            }
        }
        if i == last {
            return false;
        }
        i += 1;
    }
    false
}

/// Concatenation of two strings.
pub(crate) fn join2(a: &str, b: &str) -> (r: String)
    ensures
        r@ == a@ + b@,
{
    String::from_str(a).concat(b)
}

/// Concatenation of three strings.
pub(crate) fn join3(a: &str, b: &str, c: &str) -> (r: String)
    ensures
        r@ == a@ + b@ + c@,
{
    String::from_str(a).concat(b).concat(c)
}

/// Concatenation of five strings.
pub(crate) fn join5(a: &str, b: &str, c: &str, d: &str, e: &str) -> (r: String)
    ensures
        r@ == a@ + b@ + c@ + d@ + e@,
{
    String::from_str(a).concat(b).concat(c).concat(d).concat(e)
}

} // verus!
