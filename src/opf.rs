//! The package document scan: one forward pass over the XML events that
//! yields the package version, the metadata, the cover hint and the manifest.

use vstd::prelude::*;
use crate::metadata::{empty_metadata, Metadata, MetadataView};
use crate::text::{chars_of, trim, trimmed};
use crate::xml::{attr_value, attrs_of, events_ok, tag_ok, unescape_text, unescaped_of, find_attr, local_name, local_of, same_text, Tag, XmlEvent};

verus! {

/// One manifest entry: its id, its href and its `properties` attribute.
#[derive(Debug, Clone)]
pub struct ManifestItem {
    pub id: String,
    pub href: String,
    pub properties: Option<String>,
}

pub struct ManifestItemView {
    pub id: Seq<char>,
    pub href: Seq<char>,
    pub properties: Option<Seq<char>>,
}

impl View for ManifestItem {
    type V = ManifestItemView;

    open spec fn view(&self) -> ManifestItemView {
        ManifestItemView { id: self.id@, href: self.href@, properties: self.properties.deep_view() }
    }
}

/// The state of the scan: what has been found so far, whether it stands inside
/// `<metadata>` or `<manifest>`, and the element whose text is being collected.
pub struct OpfState {
    pub version: Option<String>,
    pub metadata: Metadata,
    pub in_metadata: bool,
    pub in_manifest: bool,
    pub current: Option<String>,
    pub text: String,
    pub cover_id: Option<String>,
    pub manifest: Vec<ManifestItem>,
}

pub struct OpfView {
    pub version: Option<Seq<char>>,
    pub metadata: MetadataView,
    pub in_metadata: bool,
    pub in_manifest: bool,
    pub current: Option<Seq<char>>,
    pub text: Seq<char>,
    pub cover_id: Option<Seq<char>>,
    pub manifest: Seq<ManifestItemView>,
}

impl View for OpfState {
    type V = OpfView;

    open spec fn view(&self) -> OpfView {
        OpfView {
            version: self.version.deep_view(),
            metadata: self.metadata@,
            in_metadata: self.in_metadata,
            in_manifest: self.in_manifest,
            current: self.current.deep_view(),
            text: self.text@,
            cover_id: self.cover_id.deep_view(),
            manifest: self.manifest@.map_values(|m: ManifestItem| m@),
        }
    }
}

/// A character that the ISBN heuristic keeps: an ASCII digit or an upper-case `X`.
pub open spec fn is_isbn_char(c: char) -> bool {
    ('0' as u32 <= c as u32 <= '9' as u32) || c == 'X'
}

/// How many characters of `s` the ISBN heuristic keeps.
pub open spec fn isbn_char_count(s: Seq<char>) -> nat
    decreases s.len(),
{
    if s.len() == 0 {
        0
    } else {
        isbn_char_count(s.drop_last()) + if is_isbn_char(s.last()) { 1nat } else { 0nat }
    }
}

/// Text looks like an ISBN when it keeps exactly 10 or 13 digits (or `X`).
pub open spec fn isbn_like(s: Seq<char>) -> bool {
    isbn_char_count(s) == 10 || isbn_char_count(s) == 13
}

/// Heuristic check that a string looks like an ISBN: after dropping everything
/// but ASCII digits and `X`, 10 or 13 characters remain. No checksum is tested.
pub fn looks_like_isbn(s: &str) -> (r: bool)
    ensures
        r == isbn_like(s@),
{
    let cs = chars_of(s);
    let mut n: usize = 0;
    let mut i: usize = 0;
    while i < cs.len()
        invariant
            cs@ == s@,
            i <= cs@.len(),
            n == isbn_char_count(cs@.subrange(0, i as int)),
            n <= i,
        decreases cs.len() - i,
    {
        assert(cs@.subrange(0, i + 1).drop_last() =~= cs@.subrange(0, i as int));
        let c = cs[i];
        let cu = c as u32;
        if (48 <= cu && cu <= 57) || c == 'X' {
            n += 1;
        }
        i += 1;
    }
    assert(cs@.subrange(0, cs@.len() as int) =~= cs@);
    n == 10 || n == 13
}

/// The initial state: nothing found, outside every region.
pub open spec fn opf_start() -> OpfView {
    OpfView {
        version: None,
        metadata: empty_metadata(),
        in_metadata: false,
        in_manifest: false,
        current: None,
        text: seq![],
        cover_id: None,
        manifest: seq![],
    }
}

/// Files the trimmed text of a finished metadata element under its field.
pub open spec fn file_text(m: MetadataView, elem: Seq<char>, text: Seq<char>) -> MetadataView {
    if elem == "title"@ {
        MetadataView { title: Some(text), ..m }
    } else if elem == "creator"@ {
        MetadataView { authors: m.authors.push(text), ..m }
    } else if elem == "description"@ {
        MetadataView { description: Some(text), ..m }
    } else if elem == "publisher"@ {
        MetadataView { publisher: Some(text), ..m }
    } else if elem == "language"@ {
        MetadataView { language: Some(text), ..m }
    } else if elem == "identifier"@ {
        if m.isbn is None && isbn_like(text) {
            MetadataView { isbn: Some(text), ..m }
        } else {
            m
        }
    } else if elem == "date"@ {
        MetadataView { publication_date: Some(text), ..m }
    } else if elem == "subject"@ {
        MetadataView { subjects: m.subjects.push(text), ..m }
    } else {
        m
    }
}

pub open spec fn on_start(s: OpfView, t: Tag) -> OpfView {
    let local = local_of(t.name@);
    if local == "package"@ {
        match attr_value(attrs_of(t.raw@, t.name@), "version"@) {
            Some(v) => OpfView { version: Some(v), ..s },
            None => s,
        }
    } else if local == "metadata"@ {
        OpfView { in_metadata: true, ..s }
    } else if local == "manifest"@ {
        OpfView { in_manifest: true, ..s }
    } else if s.in_metadata {
        OpfView { current: Some(local), text: seq![], ..s }
    } else {
        s
    }
}

pub open spec fn on_end(s: OpfView, name: Seq<char>) -> OpfView {
    let local = local_of(name);
    if local == "metadata"@ {
        OpfView { in_metadata: false, ..s }
    } else if local == "manifest"@ {
        OpfView { in_manifest: false, ..s }
    } else if s.in_metadata {
        let m = match s.current {
            Some(e) => if trimmed(s.text).len() > 0 { file_text(s.metadata, e, trimmed(s.text)) } else { s.metadata },
            None => s.metadata,
        };
        OpfView { metadata: m, current: None, ..s }
    } else {
        s
    }
}

pub open spec fn on_meta(s: OpfView, t: Tag) -> OpfView {
    match (attr_value(attrs_of(t.raw@, t.name@), "name"@), attr_value(attrs_of(t.raw@, t.name@), "content"@)) {
        (Some(n), Some(c)) => if n == "cover"@ {
            OpfView { cover_id: Some(c), ..s }
        } else if n == "calibre:series"@ {
            OpfView { metadata: MetadataView { series: Some(c), ..s.metadata }, ..s }
        } else if n == "calibre:series_index"@ {
            OpfView { metadata: MetadataView { series_index: Some(c), ..s.metadata }, ..s }
        } else {
            s
        },
        _ => s,
    }
}

pub open spec fn attr_or_empty(t: Tag, key: Seq<char>) -> Seq<char> {
    match attr_value(attrs_of(t.raw@, t.name@), key) {
        Some(v) => v,
        None => seq![],
    }
}

pub open spec fn on_item(s: OpfView, t: Tag) -> OpfView {
    let id = attr_or_empty(t, "id"@);
    if id.len() > 0 {
        let item = ManifestItemView {
            id: id,
            href: attr_or_empty(t, "href"@),
            properties: attr_value(attrs_of(t.raw@, t.name@), "properties"@),
        };
        OpfView { manifest: s.manifest.push(item), ..s }
    } else {
        s
    }
}

pub open spec fn on_empty(s: OpfView, t: Tag) -> OpfView {
    let local = local_of(t.name@);
    if local == "meta"@ && s.in_metadata {
        on_meta(s, t)
    } else if local == "item"@ && s.in_manifest {
        on_item(s, t)
    } else {
        s
    }
}

/// One step of the scan.
pub open spec fn opf_step(s: OpfView, e: XmlEvent) -> OpfView {
    match e {
        XmlEvent::Start(t) => on_start(s, t),
        XmlEvent::End(n) => on_end(s, n@),
        XmlEvent::Empty(t) => on_empty(s, t),
        XmlEvent::Text(x) => match unescaped_of(x@) {
            Some(u) => if s.current is Some { OpfView { text: s.text + u, ..s } } else { s },
            None => s,
        },
        XmlEvent::Other => s,
    }
}

/// The state after scanning `events` from the start.
pub open spec fn opf_run(events: Seq<XmlEvent>) -> OpfView
    decreases events.len(),
{
    if events.len() == 0 {
        opf_start()
    } else {
        opf_step(opf_run(events.drop_last()), events.last())
    }
}

fn attr_text_or_empty(t: &Tag, key: &str) -> (r: String)
    requires
        tag_ok(*t),
    ensures
        r@ == attr_or_empty(*t, key@),
{
    match find_attr(t, key) {
        Some(v) => v,
        None => String::new(),
    }
}

impl OpfState {
    pub fn new() -> (r: OpfState)
        ensures
            r@ == opf_start(),
    {
        let r = OpfState {
            version: None,
            metadata: Metadata::new(),
            in_metadata: false,
            in_manifest: false,
            current: None,
            text: String::new(),
            cover_id: None,
            manifest: Vec::new(),
        };
        assert(r@.manifest =~= seq![]);
        r
    }

    fn file_text(&mut self, elem: &String, text: String)
        ensures
            final(self)@ == (OpfView { metadata: file_text(old(self)@.metadata, elem@, text@), ..old(self)@ }),
    {
        let e = elem.as_str();
        if same_text(e, "title") {
            self.metadata.title = Some(text);
        } else if same_text(e, "creator") {
            self.metadata.authors.push(text);
        } else if same_text(e, "description") {
            self.metadata.description = Some(text);
        } else if same_text(e, "publisher") {
            self.metadata.publisher = Some(text);
        } else if same_text(e, "language") {
            self.metadata.language = Some(text);
        } else if same_text(e, "identifier") {
            if self.metadata.isbn.is_none() && looks_like_isbn(text.as_str()) {
                self.metadata.isbn = Some(text);
            }
        } else if same_text(e, "date") {
            self.metadata.publication_date = Some(text);
        } else if same_text(e, "subject") {
            self.metadata.subjects.push(text);
        }
        assert(self@.metadata.authors =~= file_text(old(self)@.metadata, elem@, text@).authors);
        assert(self@.metadata.subjects =~= file_text(old(self)@.metadata, elem@, text@).subjects);
    }

    fn on_start(&mut self, t: &Tag)
        requires
            tag_ok(*t),
        ensures
            final(self)@ == on_start(old(self)@, *t),
    {
        let local = local_name(t.name.as_str());
        if same_text(local, "package") {
            if let Some(v) = find_attr(t, "version") {
                self.version = Some(v);
            }
        } else if same_text(local, "metadata") {
            self.in_metadata = true;
        } else if same_text(local, "manifest") {
            self.in_manifest = true;
        } else if self.in_metadata {
            self.current = Some(local.to_owned());
            self.text = String::new();
        }
    }

    fn on_end(&mut self, name: &String)
        ensures
            final(self)@ == on_end(old(self)@, name@),
    {
        let local = local_name(name.as_str());
        if same_text(local, "metadata") {
            self.in_metadata = false;
        } else if same_text(local, "manifest") {
            self.in_manifest = false;
        } else if self.in_metadata {
            let current = self.current.take();
            if let Some(elem) = current {
                let text = trim(self.text.as_str());
                if !text.as_str().is_empty() {
                    self.file_text(&elem, text);
                }
            }
        }
    }

    fn on_meta(&mut self, t: &Tag)
        requires
            tag_ok(*t),
        ensures
            final(self)@ == on_meta(old(self)@, *t),
    {
        let name = find_attr(t, "name");
        let content = find_attr(t, "content");
        if let (Some(n), Some(c)) = (name, content) {
            if same_text(n.as_str(), "cover") {
                self.cover_id = Some(c);
            } else if same_text(n.as_str(), "calibre:series") {
                self.metadata.series = Some(c);
            } else if same_text(n.as_str(), "calibre:series_index") {
                self.metadata.series_index = Some(c);
            }
        }
    }

    fn on_item(&mut self, t: &Tag)
        requires
            tag_ok(*t),
        ensures
            final(self)@ == on_item(old(self)@, *t),
    {
        let id = attr_text_or_empty(t, "id");
        if !id.as_str().is_empty() {
            let href = attr_text_or_empty(t, "href");
            let properties = find_attr(t, "properties");
            let item = ManifestItem { id, href, properties };
            self.manifest.push(item);
            assert(self@.manifest =~= old(self)@.manifest.push(item@));
        }
    }

    /// Advances the scan by one event.
    pub fn step(&mut self, e: &XmlEvent)
        requires
            events_ok(seq![*e]),
        ensures
            final(self)@ == opf_step(old(self)@, *e),
    {
        assert(seq![*e][0] == *e);
        match e {
            XmlEvent::Start(t) => self.on_start(t),
            XmlEvent::End(n) => self.on_end(n),
            XmlEvent::Empty(t) => {
                let local = local_name(t.name.as_str());
                if same_text(local, "meta") && self.in_metadata {
                    self.on_meta(t);
                } else if same_text(local, "item") && self.in_manifest {
                    self.on_item(t);
                }
            },
            XmlEvent::Text(x) => {
                if self.current.is_some() {
                    if let Some(u) = unescape_text(x.as_str()) {
                        self.text.append(u.as_str());
                    }
                }
            },
            XmlEvent::Other => {},
        }
    }
}

/// Scans the events of a package document from the start.
pub fn scan_package(events: &Vec<XmlEvent>) -> (r: OpfState)
    requires
        events_ok(events@),
    ensures
        r@ == opf_run(events@),
{
    let mut s = OpfState::new();
    let mut i: usize = 0;
    while i < events.len()
        invariant
            events_ok(events@),
            i <= events@.len(),
            s@ == opf_run(events@.subrange(0, i as int)),
        decreases events.len() - i,
    {
        assert(events@.subrange(0, i + 1).drop_last() =~= events@.subrange(0, i as int));
        assert(seq![events@[i as int]] =~= events@.subrange(i as int, i + 1));
        assert(events_ok(seq![events@[i as int]])) by {
            assert forall|j: int| 0 <= j < 1 implies match #[trigger] seq![events@[i as int]][j] {
                XmlEvent::Start(t) | XmlEvent::Empty(t) => tag_ok(t),
                _ => true,
            } by {
                assert(seq![events@[i as int]][j] == events@[i as int]);
            }
        }
        s.step(&events[i]);
        i += 1;
    }
    assert(events@.subrange(0, events@.len() as int) =~= events@);
    s
}

/// Inside `<metadata>`, a creator element holding the text `x` adds that
/// text, unescaped and trimmed, to the end of the authors when it is not
/// empty; nothing else changes in the authors. Authors therefore keep the
/// document's order, and a name given twice is listed twice.
pub proof fn lemma_creator_appends(prefix: Seq<XmlEvent>, start: Tag, x: String, end: String)
    requires
        opf_run(prefix).in_metadata,
        local_of(start.name@) == "creator"@,
        local_of(end@) == "creator"@,
        unescaped_of(x@) is Some,
    ensures
        ({
            let after = opf_run(prefix + seq![XmlEvent::Start(start), XmlEvent::Text(x), XmlEvent::End(end)]);
            let t = trimmed(unescaped_of(x@)->0);
            &&& after.in_metadata
            &&& after.metadata.authors == if t.len() > 0 {
                opf_run(prefix).metadata.authors.push(t)
            } else {
                opf_run(prefix).metadata.authors
            }
        }),
{
    let a = XmlEvent::Start(start);
    let b = XmlEvent::Text(x);
    let c = XmlEvent::End(end);
    let e3 = prefix + seq![a, b, c];
    let e2 = prefix + seq![a, b];
    let e1 = prefix + seq![a];
    assert(e3.drop_last() =~= e2);
    assert(e2.drop_last() =~= e1);
    assert(e1.drop_last() =~= prefix);
    reveal_strlit("creator");
    reveal_strlit("package");
    reveal_strlit("metadata");
    reveal_strlit("manifest");
    reveal_strlit("title");
    assert("creator"@[0] != "package"@[0]);
    assert("creator"@ != "package"@);
    assert("creator"@.len() != "metadata"@.len());
    assert("creator"@ != "metadata"@);
    assert("creator"@ != "manifest"@);
    assert("creator"@ != "title"@);
    let s0 = opf_run(prefix);
    let u = unescaped_of(x@)->0;
    assert(opf_run(e1) == opf_step(s0, a));
    assert(opf_run(e1) == OpfView { current: Some("creator"@), text: seq![], ..s0 });
    assert(opf_run(e2) == opf_step(opf_run(e1), b));
    assert(opf_run(e2).text =~= u);
    assert(opf_run(e2).current == Some("creator"@));
    assert(opf_run(e2).in_metadata);
    assert(opf_run(e2).metadata == s0.metadata);
    assert(opf_run(e3) == opf_step(opf_run(e2), c));
    let t = trimmed(u);
    if t.len() > 0 {
        assert(file_text(s0.metadata, "creator"@, t).authors == s0.metadata.authors.push(t));
    }
}

} // verus!
