//! Recognition of ebook container formats by file name.

use vstd::prelude::*;
use crate::text::{chars_of, ends_with_ci, ends_with_ci_exec, join2};

verus! {

/// Ebook container formats that the library recognises by name.
#[derive(Debug, Clone, Copy, PartialEq, Eq, Hash, Structural)]
pub enum Format {
    Epub,
    Kepub,
    Mobi,
    Azw3,
}

/// The path up to the end of its final component: trailing separators and
/// trailing `.` components are dropped.
pub open spec fn strip_tail(p: Seq<char>) -> Seq<char>
    decreases p.len(),
{
    if p.len() > 0 && p.last() == '/' {
        strip_tail(p.drop_last())
    } else if p.len() == 1 && p[0] == '.' {
        seq![]
    } else if p.len() >= 2 && p.last() == '.' && p[p.len() - 2] == '/' {
        strip_tail(p.drop_last())
    } else {
        p
    }
}

/// The path's final component has the plain extension `e` (given in lower case),
/// compared up to case: the component ends in `.e`, and something other than a
/// directory separator stands before that dot.
pub open spec fn has_extension(p: Seq<char>, e: Seq<char>) -> bool {
    let q = strip_tail(p);
    ends_with_ci(q, seq!['.'] + e) && q.len() > e.len() + 1 && q[q.len() - e.len() - 2] != '/'
}

/// The format that a path names: the compound `.kepub.epub` suffix first, then
/// the plain extensions.
pub open spec fn format_of_path(p: Seq<char>) -> Option<Format> {
    if ends_with_ci(p, ".kepub.epub"@) {
        Some(Format::Kepub)
    } else if has_extension(p, "epub"@) {
        Some(Format::Epub)
    } else if has_extension(p, "mobi"@) {
        Some(Format::Mobi)
    } else if has_extension(p, "azw3"@) {
        Some(Format::Azw3)
    } else {
        None
    }
}

fn strip_tail_exec(p: &Vec<char>) -> (r: Vec<char>)
    ensures
        r@ == strip_tail(p@),
{
    let mut n: usize = p.len();
    let mut stopped = false;
    assert(p@.subrange(0, p@.len() as int) =~= p@);
    while n > 0 && !stopped
        invariant
            n <= p@.len(),
            strip_tail(p@.subrange(0, n as int)) == strip_tail(p@),
            stopped ==> strip_tail(p@.subrange(0, n as int)) == p@.subrange(0, n as int),
        decreases n as int + if stopped { 0int } else { 1int },
    {
        let ghost q = p@.subrange(0, n as int);
        if p[n - 1] == '/' {
            assert(q.drop_last() =~= p@.subrange(0, n - 1));
            n -= 1;
        } else if n == 1 && p[0] == '.' {
            assert(strip_tail(q) =~= p@.subrange(0, 0));
            n = 0;
        } else if n >= 2 && p[n - 1] == '.' && p[n - 2] == '/' {
            assert(q.drop_last() =~= p@.subrange(0, n - 1));
            n -= 1;
        } else {
            stopped = true;
        }
    }
    let mut r: Vec<char> = Vec::new();
    let mut i: usize = 0;
    while i < n
        invariant
            n <= p@.len(),
            i <= n,
            r@ =~= p@.subrange(0, i as int),
        decreases n - i,
    {
        r.push(p[i]);
        i += 1;
    }
    proof {
        let q = p@.subrange(0, n as int);
        if n == 0 {
            assert(q =~= Seq::<char>::empty());
            assert(strip_tail(q) == q);
        }
    }
    r
}

fn has_extension_exec(q: &Vec<char>, dotted: &Vec<char>, e: Ghost<Seq<char>>, p: Ghost<Seq<char>>) -> (r: bool)
    requires
        dotted@ == seq!['.'] + e@,
        q@ == strip_tail(p@),
    ensures
        r == has_extension(p@, e@),
{
    let p = q;
    if !ends_with_ci_exec(p, dotted) {
        return false;
    }
    if p.len() <= dotted.len() {
        return false;
    }
    p[p.len() - dotted.len() - 1] != '/'
}

/// `s` equals `p` up to ASCII case, where `p` is written in lower case.
pub open spec fn same_ci(s: Seq<char>, p: Seq<char>) -> bool {
    s.len() == p.len() && ends_with_ci(s, p)
}

/// The format that a short name gives, ignoring ASCII case.
pub open spec fn format_of_name(s: Seq<char>) -> Option<Format> {
    if same_ci(s, "epub"@) {
        Some(Format::Epub)
    } else if same_ci(s, "kepub"@) {
        Some(Format::Kepub)
    } else if same_ci(s, "mobi"@) {
        Some(Format::Mobi)
    } else if same_ci(s, "azw3"@) {
        Some(Format::Azw3)
    } else {
        None
    }
}

fn same_ci_exec(s: &Vec<char>, p: &str) -> (r: bool)
    ensures
        r == same_ci(s@, p@),
{
    let pv = chars_of(p);
    s.len() == pv.len() && ends_with_ci_exec(s, &pv)
}

impl Format {
    /// Reads a format from its short name (`epub`, `kepub`, `mobi`, `azw3`),
    /// ignoring ASCII case.
    pub fn from_name(s: &str) -> (r: Result<Format, String>)
        ensures
            format_of_name(s@) matches Some(f) ==> r == Ok::<Format, String>(f),
            format_of_name(s@) is None ==> (r matches Err(m) && m@ == "unknown format: "@ + s@),
    {
        let cs = chars_of(s);
        if same_ci_exec(&cs, "epub") {
            Ok(Format::Epub)
        } else if same_ci_exec(&cs, "kepub") {
            Ok(Format::Kepub)
        } else if same_ci_exec(&cs, "mobi") {
            Ok(Format::Mobi)
        } else if same_ci_exec(&cs, "azw3") {
            Ok(Format::Azw3)
        } else {
            Err(join2("unknown format: ", s))
        }
    }

    /// Detects the format of an ebook from its path, ignoring ASCII case.
    ///
    /// `.kepub.epub` is checked before `.epub`, so that a KePub file is not taken
    /// for a plain EPUB.
    pub fn from_path(path: &str) -> (r: Option<Format>)
        ensures
            r == format_of_path(path@),
    {
        let p = chars_of(path);
        let kepub = chars_of(".kepub.epub");
        if ends_with_ci_exec(&p, &kepub) {
            return Some(Format::Kepub);
        }
        let q = strip_tail_exec(&p);
        let epub = chars_of(".epub");
        proof { reveal_strlit(".epub"); reveal_strlit("epub"); }
        assert(epub@ =~= seq!['.'] + "epub"@);
        if has_extension_exec(&q, &epub, Ghost("epub"@), Ghost(path@)) {
            return Some(Format::Epub);
        }
        let mobi = chars_of(".mobi");
        proof { reveal_strlit(".mobi"); reveal_strlit("mobi"); }
        assert(mobi@ =~= seq!['.'] + "mobi"@);
        if has_extension_exec(&q, &mobi, Ghost("mobi"@), Ghost(path@)) {
            return Some(Format::Mobi);
        }
        let azw3 = chars_of(".azw3");
        proof { reveal_strlit(".azw3"); reveal_strlit("azw3"); }
        assert(azw3@ =~= seq!['.'] + "azw3"@);
        if has_extension_exec(&q, &azw3, Ghost("azw3"@), Ghost(path@)) {
            return Some(Format::Azw3);
        }
        None
    }

    /// The canonical file extension, without the leading dot.
    pub fn extension(&self) -> (r: &'static str)
        ensures
            r@ == match *self {
                Format::Epub => "epub"@,
                Format::Kepub => "kepub.epub"@,
                Format::Mobi => "mobi"@,
                Format::Azw3 => "azw3"@,
            },
    {
        match self {
            Format::Epub => "epub",
            Format::Kepub => "kepub.epub",
            Format::Mobi => "mobi",
            Format::Azw3 => "azw3",
        }
    }

    /// A human-readable name for the format.
    pub fn name(&self) -> (r: &'static str)
        ensures
            r@ == match *self {
                Format::Epub => "EPUB"@,
                Format::Kepub => "Kobo KePub"@,
                Format::Mobi => "Mobipocket"@,
                Format::Azw3 => "Kindle AZW3"@,
            },
    {
        match self {
            Format::Epub => "EPUB",
            Format::Kepub => "Kobo KePub",
            Format::Mobi => "Mobipocket",
            Format::Azw3 => "Kindle AZW3",
        }
    }
}

impl std::str::FromStr for Format {
    type Err = String;

    fn from_str(s: &str) -> (r: Result<Format, String>)
        ensures
            format_of_name(s@) matches Some(f) ==> r == Ok::<Format, String>(f),
            format_of_name(s@) is None ==> (r matches Err(m) && m@ == "unknown format: "@ + s@),
    {
        Format::from_name(s)
    }
}

} // verus!
