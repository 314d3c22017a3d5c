//! Opening an EPUB container: the archive reads, and the decisions made on
//! what they return.

use vstd::prelude::*;
use std::io::{Cursor, Read};
use zip::{CompressionMethod, ZipArchive};
use crate::cover::{
    choose_cover, cover_candidate, href_of_id, manifest_views, missing_cover_warning, resolve_cover,
    unlisted_cover_warning, CoverInfo,
};
use crate::drm::{classify_encryption, drm_from, DrmStatus};
use crate::error::Error;
use crate::format::{format_of_path, Format};
use crate::metadata::{Metadata, MetadataView};
use crate::opf::{opf_run, scan_package, ManifestItem, ManifestItemView, OpfView};
use crate::text::{chars_of, join2, join3, join5, trim, trimmed};
use crate::traits::{BookReader, CoverProvider, DrmDetector, MetadataProvider};
use crate::xml::{
    attr_value, attrs_of, events_ok, tag_ok, find_attr, local_name, local_of, read_events, same_text, xml_error_of, xml_events_of, Tag, XmlEvent,
};

verus! {

/// The outcome of reading a named entry of the archive.
pub enum EntryRead<T> {
    /// No entry of that name could be opened.
    Missing,
    /// The entry exists but reading it failed, for the given reason.
    Unreadable(String),
    Found(T),
}

/// The header fields of an entry that the mimetype convention looks at.
#[derive(Debug, Clone)]
pub struct EntryHeader {
    pub name: String,
    pub stored: bool,
}

// ---------------------------------------------------------------------------
// The archive
// ---------------------------------------------------------------------------

/// Why the bytes are not a ZIP archive, if they are not.
pub uninterp spec fn zip_error_of(data: Seq<u8>) -> Option<Seq<char>>;

/// The name of the archive's first physical entry, and whether it is stored
/// uncompressed, where that entry can be opened.
pub uninterp spec fn first_entry_of(data: Seq<u8>) -> Option<(Seq<char>, bool)>;

/// The uncompressed size of each entry that can be opened, by name.
pub uninterp spec fn entry_sizes_of(data: Seq<u8>) -> Map<Seq<char>, u64>;

/// What reading each entry that can be opened as UTF-8 text gives, by name:
/// the text, or why reading failed.
pub uninterp spec fn entry_texts_of(data: Seq<u8>) -> Map<Seq<char>, Result<Seq<char>, Seq<char>>>;

/// What reading each entry that can be opened gives, by name: its bytes, or
/// why reading failed.
pub uninterp spec fn entry_bytes_of(data: Seq<u8>) -> Map<Seq<char>, Result<Seq<u8>, Seq<char>>>;

/// The value of `m` at `k`, where `m` has one.
pub open spec fn lookup<V>(m: Map<Seq<char>, V>, k: Seq<char>) -> Option<V> {
    if m.contains_key(k) { Some(m[k]) } else { None }
}

pub open spec fn header_view(h: Option<EntryHeader>) -> Option<(Seq<char>, bool)> {
    match h {
        Some(e) => Some((e.name@, e.stored)),
        None => None,
    }
}

pub open spec fn read_view<T: View>(r: EntryRead<T>) -> Option<Result<T::V, Seq<char>>> {
    match r {
        EntryRead::Missing => None,
        EntryRead::Unreadable(e) => Some(Err(e@)),
        EntryRead::Found(t) => Some(Ok(t@)),
    }
}

/// Relies on `zip::ZipArchive::new`: why the bytes are not an archive.
#[verifier::external_body]
fn zip_error(data: &Vec<u8>) -> (r: Option<String>)
    ensures
        r.deep_view() == zip_error_of(data@),
{
    ZipArchive::new(Cursor::new(data.as_slice())).err().map(|e| e.to_string())
}

/// Relies on `zip::ZipArchive::by_index_decrypt` with no password: the first
/// entry, where it opens without one.
#[verifier::external_body]
fn first_entry(data: &Vec<u8>) -> (r: Option<EntryHeader>)
    ensures
        header_view(r) == first_entry_of(data@),
{
    let mut z = ZipArchive::new(Cursor::new(data.as_slice())).ok()?;
    let f = z.by_index_decrypt(0, &[]).ok()?.ok()?;
    Some(EntryHeader { name: f.name().to_string(), stored: matches!(f.compression(), CompressionMethod::Stored) })
}

/// Relies on `zip::ZipArchive::by_name_decrypt` with no password: the size of
/// the named entry, where it opens without one.
#[verifier::external_body]
fn entry_size(data: &Vec<u8>, name: &str) -> (r: Option<u64>)
    ensures
        r == lookup(entry_sizes_of(data@), name@),
{
    let mut z = ZipArchive::new(Cursor::new(data.as_slice())).ok()?;
    let f = z.by_name_decrypt(name, &[]).ok()?.ok()?;
    Some(f.size())
}

/// Relies on `zip::ZipArchive::by_name_decrypt` with no password and
/// `Read::read_to_string`: the named entry as UTF-8 text. The entry opens
/// exactly when `entry_size` finds it, by the same two calls.
#[verifier::external_body]
fn read_text(data: &Vec<u8>, name: &str) -> (r: EntryRead<String>)
    ensures
        read_view(r) == lookup(entry_texts_of(data@), name@),
        r is Missing <==> !entry_sizes_of(data@).contains_key(name@),
{
    let Ok(mut z) = ZipArchive::new(Cursor::new(data.as_slice())) else { return EntryRead::Missing };
    let Ok(Ok(mut f)) = z.by_name_decrypt(name, &[]) else { return EntryRead::Missing };
    let mut s = String::new();
    match f.read_to_string(&mut s) {
        Ok(_) => EntryRead::Found(s),
        Err(e) => EntryRead::Unreadable(e.to_string()),
    }
}

/// Relies on `zip::ZipArchive::by_name_decrypt` with no password and
/// `Read::read_to_end`: the raw bytes of the named entry. The entry opens
/// exactly when `entry_size` finds it, by the same two calls.
#[verifier::external_body]
fn read_bytes(data: &Vec<u8>, name: &str) -> (r: EntryRead<Vec<u8>>)
    ensures
        read_view(r) == lookup(entry_bytes_of(data@), name@),
        r is Missing <==> !entry_sizes_of(data@).contains_key(name@),
{
    let Ok(mut z) = ZipArchive::new(Cursor::new(data.as_slice())) else { return EntryRead::Missing };
    let Ok(Ok(mut f)) = z.by_name_decrypt(name, &[]) else { return EntryRead::Missing };
    let mut b = Vec::new();
    match f.read_to_end(&mut b) {
        Ok(_) => EntryRead::Found(b),
        Err(e) => EntryRead::Unreadable(e.to_string()),
    }
}

/// The text of the named entry, where it reads as UTF-8.
pub open spec fn text_of(data: Seq<u8>, name: Seq<char>) -> Option<Seq<char>> {
    match lookup(entry_texts_of(data), name) {
        Some(Ok(t)) => Some(t),
        _ => None,
    }
}

// ---------------------------------------------------------------------------
// Mimetype convention
// ---------------------------------------------------------------------------

/// The warnings that the mimetype convention gives, each problem on its own:
/// `first` is the first physical entry, `content` the text of the entry named
/// `mimetype`, where it was read.
pub open spec fn mimetype_messages(first: Option<(Seq<char>, bool)>, content: Option<Seq<char>>) -> Seq<Seq<char>> {
    let head = match first {
        None => seq!["mimetype file: ZIP archive is empty"@],
        Some((name, stored)) => (if name != "mimetype"@ {
            seq!["mimetype file: first ZIP entry is '"@ + name + "', expected 'mimetype'"@]
        } else {
            seq![]
        }) + (if stored { seq![] } else { seq!["mimetype file: should be stored uncompressed"@] }),
    };
    let body = match content {
        Some(c) => if trimmed(c) != "application/epub+zip"@ {
            seq!["mimetype file: expected 'application/epub+zip', got '"@ + trimmed(c) + "'"@]
        } else {
            seq![]
        },
        None => seq![],
    };
    head + body
}

/// The first entry is a stored `mimetype` entry whose trimmed text is the EPUB media type.
pub open spec fn conforming_mimetype(first: Option<(Seq<char>, bool)>, content: Option<Seq<char>>) -> bool {
    match (first, content) {
        (Some((name, stored)), Some(c)) => name == "mimetype"@ && stored && trimmed(c) == "application/epub+zip"@,
        _ => false,
    }
}

/// Records the mimetype convention's warnings; it never fails.
pub fn check_mimetype(first: &Option<EntryHeader>, content: &Option<String>, warnings: &mut Vec<String>)
    ensures
        final(warnings).deep_view() == old(warnings).deep_view() + mimetype_messages(header_view(*first), content.deep_view()),
        conforming_mimetype(header_view(*first), content.deep_view()) ==> final(warnings).deep_view() == old(warnings).deep_view(),
{
    let ghost w0 = warnings.deep_view();
    match first {
        None => {
            warnings.push(String::from_str("mimetype file: ZIP archive is empty"));
        },
        Some(h) => {
            if !same_text(h.name.as_str(), "mimetype") {
                warnings.push(join3("mimetype file: first ZIP entry is '", h.name.as_str(), "', expected 'mimetype'"));
            }
            if !h.stored {
                warnings.push(String::from_str("mimetype file: should be stored uncompressed"));
            }
        },
    }
    if let Some(c) = content {
        let t = trim(c.as_str());
        if !same_text(t.as_str(), "application/epub+zip") {
            warnings.push(join3("mimetype file: expected 'application/epub+zip', got '", t.as_str(), "'"));
        }
    }
    assert(warnings.deep_view() =~= w0 + mimetype_messages(header_view(*first), content.deep_view()));
}

/// Checks the archive against the mimetype convention.
pub fn validate_mimetype(data: &Vec<u8>, warnings: &mut Vec<String>)
    ensures
        final(warnings).deep_view() == old(warnings).deep_view()
            + mimetype_messages(first_entry_of(data@), text_of(data@, "mimetype"@)),
{
    let first = first_entry(data);
    let content = match read_text(data, "mimetype") {
        EntryRead::Found(s) => Some(s),
        _ => None,
    };
    check_mimetype(&first, &content, warnings);
}

// ---------------------------------------------------------------------------
// Container locator
// ---------------------------------------------------------------------------

/// The `full-path` of a tag, where it is a `rootfile` tag that has one.
pub open spec fn rootfile_of_tag(t: Tag) -> Option<Seq<char>> {
    if local_of(t.name@) == "rootfile"@ { attr_value(attrs_of(t.raw@, t.name@), "full-path"@) } else { None }
}

/// The `full-path` of the first start or self-closing `rootfile` tag that has one.
pub open spec fn rootfile_in(events: Seq<XmlEvent>) -> Option<Seq<char>>
    decreases events.len(),
{
    if events.len() == 0 {
        None
    } else {
        let here = match events[0] {
            XmlEvent::Start(t) | XmlEvent::Empty(t) => rootfile_of_tag(t),
            _ => None,
        };
        match here {
            Some(p) => Some(p),
            None => rootfile_in(events.drop_first()),
        }
    }
}

fn rootfile_of(t: &Tag) -> (r: Option<String>)
    requires
        tag_ok(*t),
    ensures
        r.deep_view() == rootfile_of_tag(*t),
{
    if same_text(local_name(t.name.as_str()), "rootfile") {
        find_attr(t, "full-path")
    } else {
        None
    }
}

/// Finds the package document's path among the events of the container file.
pub fn rootfile_path(events: &Vec<XmlEvent>) -> (r: Option<String>)
    requires
        events_ok(events@),
    ensures
        r.deep_view() == rootfile_in(events@),
{
    let mut i: usize = 0;
    assert(events@.subrange(0, events@.len() as int) =~= events@);
    while i < events.len()
        invariant
            events_ok(events@),
            i <= events@.len(),
            rootfile_in(events@) == rootfile_in(events@.subrange(i as int, events@.len() as int)),
        decreases events.len() - i,
    {
        assert(events@.subrange(i as int, events@.len() as int).drop_first() =~= events@.subrange(i + 1, events@.len() as int));
        assert(match events@[i as int] {
            XmlEvent::Start(t) | XmlEvent::Empty(t) => tag_ok(t),
            _ => true,
        });
        let found = match &events[i] {
            XmlEvent::Start(t) => rootfile_of(t),
            XmlEvent::Empty(t) => rootfile_of(t),
            _ => None,
        };
        if found.is_some() {
            return found;
        }
        i += 1;
    }
    None
}

/// What the container file's events decide: the package path, or the error
/// that ends the opening, with the warnings it adds.
pub open spec fn located(
    r: Result<String, Error>,
    w0: Seq<Seq<char>>,
    w1: Seq<Seq<char>>,
    events: Seq<XmlEvent>,
    error: Option<Seq<char>>,
) -> bool {
    match rootfile_in(events) {
        Some(p) => r matches Ok(s) && s@ == p && w1 == w0,
        None => match error {
            Some(e) => r matches Err(Error::InvalidBook(m)) && m@ == "failed to parse container.xml: "@ + e
                && w1 == w0.push("META-INF/container.xml: XML parse error: "@ + e),
            None => r matches Err(Error::InvalidBook(m)) && m@ == "container.xml: no rootfile element found"@
                && w1 == w0,
        },
    }
}

/// Locates the package document from the container file's events: the first
/// `rootfile` before the end, or before a syntax error, wins.
pub fn locate_in_events(events: &Vec<XmlEvent>, error: &Option<String>, warnings: &mut Vec<String>) -> (r: Result<String, Error>)
    requires
        events_ok(events@),
    ensures
        located(r, old(warnings).deep_view(), final(warnings).deep_view(), events@, error.deep_view()),
{
    if let Some(p) = rootfile_path(events) {
        return Ok(p);
    }
    match error {
        Some(e) => {
            let ghost w0 = warnings.deep_view();
            warnings.push(join2("META-INF/container.xml: XML parse error: ", e.as_str()));
            assert(warnings.deep_view() =~= w0.push("META-INF/container.xml: XML parse error: "@ + e@));
            Err(Error::InvalidBook(join2("failed to parse container.xml: ", e.as_str())))
        },
        None => Err(Error::InvalidBook(String::from_str("container.xml: no rootfile element found"))),
    }
}

/// Locates the package document, given what reading `META-INF/container.xml`
/// gave. A missing or unreadable container file ends the opening, after a
/// warning.
pub fn locate_package(read: EntryRead<String>, warnings: &mut Vec<String>) -> (r: Result<String, Error>)
    ensures
        read is Missing ==> (r matches Err(Error::InvalidBook(m)) && m@ == "META-INF/container.xml not found"@
            && final(warnings).deep_view() == old(warnings).deep_view().push("META-INF/container.xml is missing"@)),
        read matches EntryRead::Unreadable(e) ==> (r matches Err(Error::InvalidBook(m))
            && m@ == "failed to read container.xml: "@ + e@
            && final(warnings).deep_view() == old(warnings).deep_view().push("META-INF/container.xml: failed to read: "@ + e@)),
        read matches EntryRead::Found(t) ==> located(r, old(warnings).deep_view(), final(warnings).deep_view(),
            xml_events_of(t@), xml_error_of(t@)),
        r matches Err(e) ==> e is InvalidBook,
{
    match read {
        EntryRead::Missing => {
            let ghost w0 = warnings.deep_view();
            warnings.push(String::from_str("META-INF/container.xml is missing"));
            assert(warnings.deep_view() =~= w0.push("META-INF/container.xml is missing"@));
            Err(Error::InvalidBook(String::from_str("META-INF/container.xml not found")))
        },
        EntryRead::Unreadable(e) => {
            let ghost w0 = warnings.deep_view();
            warnings.push(join2("META-INF/container.xml: failed to read: ", e.as_str()));
            assert(warnings.deep_view() =~= w0.push("META-INF/container.xml: failed to read: "@ + e@));
            Err(Error::InvalidBook(join2("failed to read container.xml: ", e.as_str())))
        },
        EntryRead::Found(text) => {
            let (events, error) = read_events(text.as_str());
            locate_in_events(&events, &error, warnings)
        },
    }
}

// ---------------------------------------------------------------------------
// Package document
// ---------------------------------------------------------------------------

/// Position of the last `/` in `s`, if any.
pub open spec fn last_slash(s: Seq<char>) -> Option<int>
    decreases s.len(),
{
    if s.len() == 0 {
        None
    } else if s.last() == '/' {
        Some(s.len() - 1)
    } else {
        last_slash(s.drop_last())
    }
}

/// The directory of a container path: everything up to and including the
/// last `/`, or nothing.
pub open spec fn dir_part(s: Seq<char>) -> Seq<char> {
    match last_slash(s) {
        Some(i) => s.subrange(0, i + 1),
        None => seq![],
    }
}

proof fn lemma_last_slash(s: Seq<char>, i: int)
    requires
        -1 <= i < s.len(),
        forall|k: int| i < k < s.len() ==> s[k] != '/',
        i >= 0 ==> s[i] == '/',
    ensures
        last_slash(s) == (if i >= 0 { Some(i) } else { None::<int> }),
    decreases s.len(),
{
    if s.len() > 0 && s.last() != '/' {
        let p = s.drop_last();
        assert(forall|k: int| i < k < p.len() ==> p[k] == s[k]);
        lemma_last_slash(p, i);
    }
}

/// The directory of the package document, against which manifest hrefs resolve.
pub fn package_dir(path: &str) -> (r: &str)
    ensures
        r@ == dir_part(path@),
{
    let cs = chars_of(path);
    let mut i: usize = cs.len();
    while i > 0
        invariant
            cs@ == path@,
            i <= cs@.len(),
            forall|k: int| i <= k < cs@.len() ==> cs@[k] != '/',
        decreases i,
    {
        if cs[i - 1] == '/' {
            proof { lemma_last_slash(path@, i - 1); }
            return path.substring_char(0, i);
        }
        i -= 1;
    }
    proof { lemma_last_slash(path@, -1); }
    path.substring_char(0, 0)
}

/// The warnings for required metadata that the package lacks: title, then language.
pub open spec fn required_field_messages(m: crate::metadata::MetadataView) -> Seq<Seq<char>> {
    (if m.title is None { seq!["OPF: missing required <dc:title>"@] } else { seq![] })
        + (if m.language is None { seq!["OPF: missing required <dc:language>"@] } else { seq![] })
}

/// Records a warning for each required metadata field that is absent.
pub fn check_required_fields(m: &Metadata, warnings: &mut Vec<String>)
    ensures
        final(warnings).deep_view() == old(warnings).deep_view() + required_field_messages(m@),
{
    let ghost w0 = warnings.deep_view();
    if m.title.is_none() {
        warnings.push(String::from_str("OPF: missing required <dc:title>"));
    }
    if m.language.is_none() {
        warnings.push(String::from_str("OPF: missing required <dc:language>"));
    }
    assert(warnings.deep_view() =~= w0 + required_field_messages(m@));
}

/// The warning for a manifest item whose file the container lacks.
pub open spec fn unlisted_item_message(id: Seq<char>, href: Seq<char>) -> Seq<char> {
    "manifest item '"@ + id + "' references '"@ + href + "' which is not in the ZIP"@
}

/// The warnings for the manifest items whose file is absent, in manifest order.
pub open spec fn manifest_messages(items: Seq<ManifestItemView>, present: Seq<bool>) -> Seq<Seq<char>>
    decreases items.len(),
{
    if items.len() == 0 || present.len() == 0 {
        seq![]
    } else {
        let prev = manifest_messages(items.drop_last(), present.drop_last());
        if present.last() {
            prev
        } else {
            prev.push(unlisted_item_message(items.last().id, items.last().href))
        }
    }
}

/// Records a warning for each manifest item that `present` marks absent.
pub fn check_manifest(items: &Vec<ManifestItem>, present: &Vec<bool>, warnings: &mut Vec<String>)
    requires
        present@.len() == items@.len(),
    ensures
        final(warnings).deep_view() == old(warnings).deep_view() + manifest_messages(manifest_views(items@), present@),
{
    let ghost w0 = warnings.deep_view();
    let ghost all = manifest_views(items@);
    let mut i: usize = 0;
    while i < items.len()
        invariant
            present@.len() == items@.len(),
            all == manifest_views(items@),
            i <= items@.len(),
            warnings.deep_view() == w0 + manifest_messages(all.subrange(0, i as int), present@.subrange(0, i as int)),
        decreases items.len() - i,
    {
        assert(all.subrange(0, i + 1).drop_last() =~= all.subrange(0, i as int));
        assert(present@.subrange(0, i + 1).drop_last() =~= present@.subrange(0, i as int));
        let ghost prev = manifest_messages(all.subrange(0, i as int), present@.subrange(0, i as int));
        assert(all.subrange(0, i + 1).last() == items@[i as int]@);
        assert(present@.subrange(0, i + 1).last() == present@[i as int]);
        if !present[i] {
            let item = &items[i];
            warnings.push(join5("manifest item '", item.id.as_str(), "' references '", item.href.as_str(), "' which is not in the ZIP"));
            assert(warnings.deep_view() =~= (w0 + prev).push(unlisted_item_message(item.id@, item.href@)));
        }
        assert(warnings.deep_view() =~= w0 + manifest_messages(all.subrange(0, i + 1), present@.subrange(0, i + 1)));
        i += 1;
    }
    assert(all.subrange(0, all.len() as int) =~= all);
    assert(present@.subrange(0, present@.len() as int) =~= present@);
}

/// The archive holds the item, at the href joined to the package directory or
/// at the bare href.
pub open spec fn present_in(data: Seq<u8>, dir: Seq<char>, item: ManifestItemView) -> bool {
    entry_sizes_of(data).contains_key(dir + item.href) || entry_sizes_of(data).contains_key(item.href)
}

pub open spec fn presence(data: Seq<u8>, dir: Seq<char>, items: Seq<ManifestItemView>) -> Seq<bool> {
    items.map_values(|it: ManifestItemView| present_in(data, dir, it))
}

/// Which manifest items the archive holds.
fn manifest_presence(data: &Vec<u8>, opf_dir: &str, items: &Vec<ManifestItem>) -> (r: Vec<bool>)
    ensures
        r@ == presence(data@, opf_dir@, manifest_views(items@)),
{
    let mut present: Vec<bool> = Vec::new();
    let mut i: usize = 0;
    while i < items.len()
        invariant
            i <= items@.len(),
            present@ =~= presence(data@, opf_dir@, manifest_views(items@)).subrange(0, i as int),
        decreases items.len() - i,
    {
        let full_path = join2(opf_dir, items[i].href.as_str());
        let found = entry_size(data, full_path.as_str()).is_some() || entry_size(data, items[i].href.as_str()).is_some();
        present.push(found);
        i += 1;
    }
    present
}

/// Where the cover candidate resolves in the archive: the joined path first,
/// then the bare href, with the entry's size.
pub open spec fn cover_found(data: Seq<u8>, dir: Seq<char>, candidate: Option<Seq<char>>) -> Option<(Seq<char>, u64)> {
    match candidate {
        None => None,
        Some(h) => if entry_sizes_of(data).contains_key(dir + h) {
            Some((dir + h, entry_sizes_of(data)[dir + h]))
        } else if entry_sizes_of(data).contains_key(h) {
            Some((h, entry_sizes_of(data)[h]))
        } else {
            None
        },
    }
}

/// The warnings of cover detection: an unlisted cover meta id, then a candidate
/// that the archive lacks.
pub open spec fn cover_messages(data: Seq<u8>, dir: Seq<char>, cover_id: Option<Seq<char>>, items: Seq<ManifestItemView>) -> Seq<Seq<char>> {
    let first = match cover_id {
        Some(id) => if href_of_id(items, id) is None { seq![unlisted_cover_warning(id)] } else { seq![] },
        None => seq![],
    };
    let cand = cover_candidate(cover_id, items);
    first + (if cand is Some && cover_found(data, dir, cand) is None { seq![missing_cover_warning(cand->0)] } else { seq![] })
}

pub open spec fn cover_view(c: Option<CoverInfo>) -> Option<(Seq<char>, u64)> {
    match c {
        Some(i) => Some((i.href@, i.size)),
        None => None,
    }
}

/// Finds the cover: the candidate that the package names, resolved against
/// the archive with the package directory, then the bare href.
pub fn detect_cover(
    data: &Vec<u8>,
    opf_dir: &str,
    cover_id: &Option<String>,
    items: &Vec<ManifestItem>,
    warnings: &mut Vec<String>,
) -> (r: Option<CoverInfo>)
    ensures
        cover_view(r) == cover_found(data@, opf_dir@, cover_candidate(cover_id.deep_view(), manifest_views(items@))),
        final(warnings).deep_view() == old(warnings).deep_view()
            + cover_messages(data@, opf_dir@, cover_id.deep_view(), manifest_views(items@)),
{
    let ghost w0 = warnings.deep_view();
    let chosen = choose_cover(cover_id, items, warnings);
    let ghost w1 = warnings.deep_view();
    match chosen {
        None => {
            assert(warnings.deep_view() =~= w0 + cover_messages(data@, opf_dir@, cover_id.deep_view(), manifest_views(items@)));
            None
        },
        Some(href) => {
            let full_path = join2(opf_dir, href.as_str());
            let full_size = entry_size(data, full_path.as_str());
            let bare_size = if full_size.is_some() { None } else { entry_size(data, href.as_str()) };
            let r = resolve_cover(full_path.as_str(), href.as_str(), full_size, bare_size, warnings);
            assert(warnings.deep_view() =~= w0 + cover_messages(data@, opf_dir@, cover_id.deep_view(), manifest_views(items@)));
            r
        },
    }
}

/// What the package document gives: its version, the metadata and the cover.
pub struct Package {
    pub version: Option<String>,
    pub metadata: Metadata,
    pub cover: Option<CoverInfo>,
}

/// The warnings that a scanned package adds: missing required fields, cover
/// detection, then manifest items absent from the archive.
pub open spec fn package_messages(data: Seq<u8>, dir: Seq<char>, s: OpfView) -> Seq<Seq<char>> {
    required_field_messages(s.metadata) + cover_messages(data, dir, s.cover_id, s.manifest)
        + manifest_messages(s.manifest, presence(data, dir, s.manifest))
}

/// What scanning the package at `path`, whose scan ended in `s`, gives.
pub open spec fn package_from(p: Package, data: Seq<u8>, path: Seq<char>, s: OpfView) -> bool {
    p.version.deep_view() == s.version && p.metadata@ == s.metadata
        && cover_view(p.cover) == cover_found(data, dir_part(path), cover_candidate(s.cover_id, s.manifest))
}

/// The outcome of reading the package at `path`: `w0` and `w1` are the
/// warnings before and after.
pub open spec fn package_result(r: Result<Package, Error>, data: Seq<u8>, path: Seq<char>, w0: Seq<Seq<char>>, w1: Seq<Seq<char>>) -> bool {
    match lookup(entry_texts_of(data), path) {
        None => r matches Err(Error::InvalidBook(m)) && m@ == "OPF file not found: "@ + path
            && w1 == w0.push("OPF file not found in ZIP: "@ + path),
        Some(Err(e)) => r matches Err(Error::Io(m)) && m@ == e && w1 == w0,
        Some(Ok(t)) => match xml_error_of(t) {
            Some(e) => r matches Err(Error::InvalidBook(m)) && m@ == "failed to parse OPF: "@ + e
                && w1 == w0.push("OPF parse error: "@ + e),
            None => r matches Ok(p) && package_from(p, data, path, opf_run(xml_events_of(t)))
                && w1 == w0 + package_messages(data, dir_part(path), opf_run(xml_events_of(t))),
        },
    }
}

/// Reads and scans the package document. A missing, unreadable or malformed
/// document ends the opening; missing fields, an unresolved cover and
/// manifest items absent from the archive are warnings.
pub fn parse_package(data: &Vec<u8>, opf_path: &str, warnings: &mut Vec<String>) -> (r: Result<Package, Error>)
    ensures
        package_result(r, data@, opf_path@, old(warnings).deep_view(), final(warnings).deep_view()),
{
    let ghost w0 = warnings.deep_view();
    let text = match read_text(data, opf_path) {
        EntryRead::Missing => {
            warnings.push(join2("OPF file not found in ZIP: ", opf_path));
            assert(warnings.deep_view() =~= w0.push("OPF file not found in ZIP: "@ + opf_path@));
            return Err(Error::InvalidBook(join2("OPF file not found: ", opf_path)));
        },
        EntryRead::Unreadable(e) => return Err(Error::Io(e)),
        EntryRead::Found(t) => t,
    };
    let (events, error) = read_events(text.as_str());
    if let Some(e) = error {
        warnings.push(join2("OPF parse error: ", e.as_str()));
        assert(warnings.deep_view() =~= w0.push("OPF parse error: "@ + e@));
        return Err(Error::InvalidBook(join2("failed to parse OPF: ", e.as_str())));
    }
    let state = scan_package(&events);
    assert(state@.manifest =~= manifest_views(state.manifest@));
    check_required_fields(&state.metadata, warnings);
    let ghost w1 = warnings.deep_view();
    let opf_dir = package_dir(opf_path);
    let cover = detect_cover(data, opf_dir, &state.cover_id, &state.manifest, warnings);
    let ghost w2 = warnings.deep_view();
    let present = manifest_presence(data, opf_dir, &state.manifest);
    check_manifest(&state.manifest, &present, warnings);
    assert(warnings.deep_view() =~= w0 + package_messages(data@, opf_dir@, state@));
    Ok(Package { version: state.version, metadata: state.metadata, cover })
}

// ---------------------------------------------------------------------------
// DRM
// ---------------------------------------------------------------------------

/// The DRM status, given what reading `META-INF/encryption.xml` gave: no file
/// is no DRM, an unreadable one is unknown, and a readable one is classified.
pub fn drm_of_entry(read: EntryRead<String>) -> (r: DrmStatus)
    ensures
        read is Missing ==> r == DrmStatus::NoDrm,
        read is Unreadable ==> r == DrmStatus::Unknown,
        read matches EntryRead::Found(t) ==> drm_from(r, t@, xml_events_of(t@), xml_error_of(t@) is Some),
{
    match read {
        EntryRead::Missing => DrmStatus::NoDrm,
        EntryRead::Unreadable(_) => DrmStatus::Unknown,
        EntryRead::Found(text) => {
            let (events, error) = read_events(text.as_str());
            classify_encryption(text.as_str(), &events, error.is_some())
        },
    }
}

/// The DRM status that the archive's encryption declaration gives.
pub open spec fn drm_in(d: DrmStatus, data: Seq<u8>) -> bool {
    match lookup(entry_texts_of(data), "META-INF/encryption.xml"@) {
        None => d == DrmStatus::NoDrm,
        Some(Err(_)) => d == DrmStatus::Unknown,
        Some(Ok(t)) => drm_from(d, t, xml_events_of(t), xml_error_of(t) is Some),
    }
}

// ---------------------------------------------------------------------------
// The book
// ---------------------------------------------------------------------------

/// A parsed EPUB or KePub book: everything one scan of the container found.
pub struct EpubBook {
    path: String,
    format: Format,
    epub_version: Option<String>,
    metadata: Metadata,
    drm_status: DrmStatus,
    cover_info: Option<CoverInfo>,
    warnings: Vec<String>,
}

/// A book as mathematical values.
pub struct EpubBookView {
    pub path: Seq<char>,
    pub format: Format,
    pub epub_version: Option<Seq<char>>,
    pub metadata: MetadataView,
    pub drm_status: DrmStatus,
    pub cover_info: Option<CoverInfo>,
    pub warnings: Seq<Seq<char>>,
}

impl View for EpubBook {
    type V = EpubBookView;

    closed spec fn view(&self) -> EpubBookView {
        EpubBookView {
            path: self.path@,
            format: self.format,
            epub_version: self.epub_version.deep_view(),
            metadata: self.metadata@,
            drm_status: self.drm_status,
            cover_info: self.cover_info,
            warnings: self.warnings.deep_view(),
        }
    }
}

/// The path of the package document that the container file names.
pub open spec fn package_path_of(data: Seq<u8>) -> Option<Seq<char>> {
    match text_of(data, "META-INF/container.xml"@) {
        Some(t) => rootfile_in(xml_events_of(t)),
        None => None,
    }
}

/// What opening the bytes `data` found at `path` gives, once the format is
/// known and the bytes are an archive.
pub open spec fn opened(r: Result<EpubBook, Error>, path: Seq<char>, data: Seq<u8>) -> bool {
    match package_path_of(data) {
        None => r matches Err(Error::InvalidBook(_)),
        Some(p) => match lookup(entry_texts_of(data), p) {
            None => r matches Err(Error::InvalidBook(_)),
            Some(Err(_)) => r matches Err(Error::Io(_)),
            Some(Ok(t)) => if xml_error_of(t) is Some {
                r matches Err(Error::InvalidBook(_))
            } else {
                r matches Ok(b) && book_from(b@, path, data, p, opf_run(xml_events_of(t)))
            },
        },
    }
}

/// The fields of a book opened from `data`, whose package at `p` scanned to `s`.
pub open spec fn book_from(b: EpubBookView, path: Seq<char>, data: Seq<u8>, p: Seq<char>, s: OpfView) -> bool {
    b.path == path && Some(b.format) == format_of_path(path) && b.epub_version == s.version
        && b.metadata == s.metadata
        && cover_view(b.cover_info) == cover_found(data, dir_part(p), cover_candidate(s.cover_id, s.manifest))
        && b.warnings == mimetype_messages(first_entry_of(data), text_of(data, "mimetype"@))
            + package_messages(data, dir_part(p), s)
        && drm_in(b.drm_status, data)
}

impl EpubBook {
    /// Opens and scans an EPUB given its path and the bytes of its file.
    ///
    /// The path decides the format; the bytes must form a ZIP archive whose
    /// container file names a readable, well-formed package document.
    /// Anything else found wrong is recorded as a warning.
    pub fn open(path: &str, data: Vec<u8>) -> (r: Result<EpubBook, Error>)
        ensures
            format_of_path(path@) is None <==> r matches Err(Error::UnknownFormat(p)),
            r matches Err(Error::UnknownFormat(p)) ==> p@ == path@,
            format_of_path(path@) is Some && zip_error_of(data@) is Some ==> (r matches Err(Error::InvalidBook(m))
                && m@ == "not a valid ZIP archive: "@ + zip_error_of(data@)->0),
            format_of_path(path@) is Some && zip_error_of(data@) is None ==> opened(r, path@, data@),
    {
        let format = match Format::from_path(path) {
            Some(f) => f,
            None => return Err(Error::UnknownFormat(path.to_owned())),
        };
        if let Some(e) = zip_error(&data) {
            return Err(Error::InvalidBook(join2("not a valid ZIP archive: ", e.as_str())));
        }
        let mut warnings: Vec<String> = Vec::new();
        validate_mimetype(&data, &mut warnings);
        let ghost wm = warnings.deep_view();
        let container = read_text(&data, "META-INF/container.xml");
        let ghost cview = read_view(container);
        let opf_path = match locate_package(container, &mut warnings) {
            Ok(p) => p,
            Err(e) => {
                assert(package_path_of(data@) is None) by {
                    match cview {
                        Some(Ok(t)) => {
                            assert(text_of(data@, "META-INF/container.xml"@) == Some(t));
                        },
                        _ => {},
                    }
                }
                return Err(e);
            },
        };
        assert(package_path_of(data@) == Some(opf_path@) && warnings.deep_view() == wm);
        let package = match parse_package(&data, opf_path.as_str(), &mut warnings) {
            Ok(p) => p,
            Err(e) => return Err(e),
        };
        let drm_status = drm_of_entry(read_text(&data, "META-INF/encryption.xml"));
        let book = EpubBook {
            path: path.to_owned(),
            format,
            epub_version: package.version,
            metadata: package.metadata,
            drm_status,
            cover_info: package.cover,
            warnings,
        };
        Ok(book)
    }

    /// The path this book was opened from.
    pub fn path(&self) -> (r: &str)
        ensures
            r@ == self@.path,
    {
        self.path.as_str()
    }

    /// The detected format (EPUB or KePub).
    pub fn format(&self) -> (r: Format)
        ensures
            r == self@.format,
    {
        self.format
    }

    /// The `version` attribute of the package element, e.g. "2.0" or "3.0".
    pub fn epub_version(&self) -> (r: Option<&str>)
        ensures
            r.deep_view() == self@.epub_version,
    {
        match &self.epub_version {
            Some(v) => Some(v.as_str()),
            None => None,
        }
    }

    /// The warnings collected while scanning, in the order they arose.
    pub fn warnings(&self) -> (r: &[String])
        ensures
            r.deep_view() == self@.warnings,
    {
        self.warnings.as_slice()
    }

    /// The cover image found, if any.
    pub fn cover_info(&self) -> (r: Option<&CoverInfo>)
        ensures
            r matches Some(c) ==> self@.cover_info == Some(*c),
            r is None <==> self@.cover_info is None,
    {
        match &self.cover_info {
            Some(c) => Some(c),
            None => None,
        }
    }
}

/// Two books opened from the same path and bytes agree in every field: the
/// DRM statuses have the same variant and the same scheme name.
pub proof fn lemma_open_idempotent(r1: Result<EpubBook, Error>, r2: Result<EpubBook, Error>, path: Seq<char>, data: Seq<u8>)
    requires
        opened(r1, path, data),
        opened(r2, path, data),
        r1 is Ok,
        r2 is Ok,
    ensures
        r1->Ok_0@.path == r2->Ok_0@.path,
        r1->Ok_0@.format == r2->Ok_0@.format,
        r1->Ok_0@.epub_version == r2->Ok_0@.epub_version,
        r1->Ok_0@.metadata == r2->Ok_0@.metadata,
        cover_view(r1->Ok_0@.cover_info) == cover_view(r2->Ok_0@.cover_info),
        r1->Ok_0@.warnings == r2->Ok_0@.warnings,
        crate::drm::same_status(r1->Ok_0@.drm_status, r2->Ok_0@.drm_status),
{
}

impl BookReader for EpubBook {
    type Book = EpubBook;

    fn open(path: &str, data: Vec<u8>) -> (r: Result<EpubBook, Error>)
        ensures
            format_of_path(path@) is None <==> r matches Err(Error::UnknownFormat(p)),
            r matches Err(Error::UnknownFormat(p)) ==> p@ == path@,
            format_of_path(path@) is Some && zip_error_of(data@) is Some ==> (r matches Err(Error::InvalidBook(m))
                && m@ == "not a valid ZIP archive: "@ + zip_error_of(data@)->0),
            format_of_path(path@) is Some && zip_error_of(data@) is None ==> opened(r, path@, data@),
    {
        EpubBook::open(path, data)
    }
}

impl MetadataProvider for EpubBook {
    fn metadata(&self) -> (r: Result<Metadata, Error>)
        ensures
            r matches Ok(m) && m@ == self@.metadata,
    {
        Ok(self.metadata.copy())
    }
}

impl DrmDetector for EpubBook {
    fn drm_status(&self) -> (r: Result<DrmStatus, Error>)
        ensures
            r matches Ok(d) && d == self@.drm_status,
    {
        Ok(self.drm_status.copy())
    }
}

/// The cover bytes, given what reading the cover entry anew gave: a vanished
/// entry is an invalid book.
pub fn cover_from_entry(href: &str, read: EntryRead<Vec<u8>>) -> (r: Result<Option<Vec<u8>>, Error>)
    ensures
        read is Missing ==> (r matches Err(Error::InvalidBook(m)) && m@ == "cover image not found in ZIP: "@ + href@),
        read matches EntryRead::Unreadable(e) ==> (r matches Err(Error::Io(m)) && m@ == e@),
        read matches EntryRead::Found(b) ==> (r matches Ok(Some(c)) && c@ == b@),
{
    match read {
        EntryRead::Missing => Err(Error::InvalidBook(join2("cover image not found in ZIP: ", href))),
        EntryRead::Unreadable(e) => Err(Error::Io(e)),
        EntryRead::Found(b) => Ok(Some(b)),
    }
}

/// What reading the cover from `data` gives for a book whose cover is `c`.
pub open spec fn cover_read(r: Result<Option<Vec<u8>>, Error>, c: Option<CoverInfo>, data: Seq<u8>) -> bool {
    match c {
        None => r matches Ok(None),
        Some(info) => match zip_error_of(data) {
            Some(e) => r matches Err(Error::InvalidBook(m)) && m@ == "not a valid ZIP archive: "@ + e,
            None => match lookup(entry_bytes_of(data), info.href@) {
                None => r matches Err(Error::InvalidBook(m)) && m@ == "cover image not found in ZIP: "@ + info.href@,
                Some(Err(e)) => r matches Err(Error::Io(m)) && m@ == e,
                Some(Ok(b)) => r matches Ok(Some(v)) && v@ == b,
            },
        },
    }
}

impl CoverProvider for EpubBook {
    /// Reads the cover image from `data`, the bytes of the book's file read
    /// anew: no archive is kept open between calls.
    fn cover(&self, data: Vec<u8>) -> (r: Result<Option<Vec<u8>>, Error>)
        ensures
            cover_read(r, self@.cover_info, data@),
    {
        let info = match &self.cover_info {
            Some(info) => info,
            None => return Ok(None),
        };
        if let Some(e) = zip_error(&data) {
            return Err(Error::InvalidBook(join2("not a valid ZIP archive: ", e.as_str())));
        }
        cover_from_entry(info.href.as_str(), read_bytes(&data, info.href.as_str()))
    }
}

} // verus!
