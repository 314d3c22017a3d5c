//! A flat stream of XML events, read with quick-xml and handed to the parsers
//! as plain values.

use vstd::prelude::*;
use quick_xml::events::BytesStart;
use quick_xml::events::Event::{Empty, End, Eof, Start, Text};
use quick_xml::Reader;
use crate::text::chars_of;

verus! {

/// One attribute of a tag: its qualified name and its value.
#[derive(Debug, Clone)]
pub struct Attr {
    pub key: String,
    pub value: String,
}

/// A start or self-closing tag: its qualified name, and its text between the
/// angle brackets (the name followed by the attributes).
#[derive(Debug, Clone)]
pub struct Tag {
    pub name: String,
    pub raw: String,
}

/// The events that the parsers of this library act on. Text is as it stands
/// in the document, entities not yet replaced.
#[derive(Debug, Clone)]
pub enum XmlEvent {
    Start(Tag),
    Empty(Tag),
    End(String),
    Text(String),
    Other,
}

/// A tag as the reader gives it: its name opens its text.
pub open spec fn tag_ok(t: Tag) -> bool {
    t.name@.len() <= t.raw@.len() && t.raw@.subrange(0, t.name@.len() as int) == t.name@
}

/// Every tag among the events is as the reader gives it.
pub open spec fn events_ok(events: Seq<XmlEvent>) -> bool {
    forall|i: int| 0 <= i < events.len() ==> match #[trigger] events[i] {
        XmlEvent::Start(t) | XmlEvent::Empty(t) => tag_ok(t),
        _ => true,
    }
}

/// The events of a document, in order, up to its end or its first syntax error.
pub uninterp spec fn xml_events_of(text: Seq<char>) -> Seq<XmlEvent>;

/// The syntax error that stops the reading of a document, if there is one.
pub uninterp spec fn xml_error_of(text: Seq<char>) -> Option<Seq<char>>;

/// The well-formed attributes of a tag whose text is `raw` and whose name is `name`.
pub uninterp spec fn attrs_of(raw: Seq<char>, name: Seq<char>) -> Seq<Attr>;

/// Text with its entities replaced, or nothing where an entity is malformed.
pub uninterp spec fn unescaped_of(text: Seq<char>) -> Option<Seq<char>>;

/// Relies on `quick_xml::Reader::read_event` over `Reader::from_str`: the
/// events of the document until its end or a syntax error. The result depends
/// on the text alone. A tag's name is the start of its text
/// (`BytesStart::name` is `buf[..name_len]`, cut at an ASCII character).
#[verifier::external_body]
pub fn read_events(text: &str) -> (r: (Vec<XmlEvent>, Option<String>))
    ensures
        r.0@ == xml_events_of(text@),
        r.1.deep_view() == xml_error_of(text@),
        events_ok(r.0@),
{
    let mut rd = Reader::from_str(text);
    let mut out = vec![];
    let s = |b: &_| String::from_utf8_lossy(b).into_owned();
    let t = |e: BytesStart| Tag { name: s(e.name().0), raw: s(&e) };
    loop {
        out.push(match rd.read_event() {
            Ok(Start(e)) => XmlEvent::Start(t(e)),
            Ok(Empty(e)) => XmlEvent::Empty(t(e)),
            Ok(End(e)) => XmlEvent::End(s(&e)),
            Ok(Text(e)) => XmlEvent::Text(s(&e)),
            Ok(Eof) => return (out, None),
            Err(e) => return (out, Some(e.to_string())),
            _ => XmlEvent::Other,
        });
    }
}

/// Relies on `quick_xml::events::BytesStart::attributes`: the well-formed
/// attributes of the tag, in order.
#[verifier::external_body]
pub fn tag_attrs(t: &Tag) -> (r: Vec<Attr>)
    requires
        tag_ok(*t),
    ensures
        r@ == attrs_of(t.raw@, t.name@),
{
    let e = BytesStart::from_content(t.raw.as_str(), t.name.len());
    let s = |b: &[u8]| String::from_utf8_lossy(b).into_owned();
    e.attributes().flatten().map(|a| Attr { key: s(a.key.as_ref()), value: s(&a.value) }).collect()
}

/// Relies on `quick_xml::escape::unescape`, which `BytesText::unescape` applies
/// to UTF-8 text: entities replaced, or nothing where one is malformed.
#[verifier::external_body]
pub fn unescape_text(text: &str) -> (r: Option<String>)
    ensures
        r.deep_view() == unescaped_of(text@),
{
    quick_xml::escape::unescape(text).ok().map(|c| c.into_owned())
}

/// Position of the first `:` in `s`, if any.
pub open spec fn colon_index(s: Seq<char>) -> Option<int>
    decreases s.len(),
{
    if s.len() == 0 {
        None
    } else if s.last() == ':' && colon_index(s.drop_last()) is None {
        Some(s.len() - 1)
    } else {
        colon_index(s.drop_last())
    }
}

/// The local part of a qualified name: what follows the first `:`, or the whole name.
pub open spec fn local_of(s: Seq<char>) -> Seq<char> {
    match colon_index(s) {
        Some(i) => s.subrange(i + 1, s.len() as int),
        None => s,
    }
}

proof fn lemma_colon_index(s: Seq<char>)
    ensures
        match colon_index(s) {
            Some(i) => 0 <= i < s.len() && s[i] == ':' && forall|k: int| 0 <= k < i ==> s[k] != ':',
            None => forall|k: int| 0 <= k < s.len() ==> s[k] != ':',
        },
    decreases s.len(),
{
    if s.len() > 0 {
        let p = s.drop_last();
        lemma_colon_index(p);
        assert(forall|k: int| 0 <= k < p.len() ==> p[k] == s[k]);
    }
}

proof fn lemma_colon_index_prefix(s: Seq<char>, i: int)
    requires
        0 <= i <= s.len(),
        forall|k: int| 0 <= k < i ==> s[k] != ':',
        i < s.len() ==> s[i] == ':',
    ensures
        colon_index(s) == (if i < s.len() { Some(i) } else { None::<int> }),
{
    lemma_colon_index(s);
}

/// Strips a namespace prefix from a qualified name: `dc:title` gives `title`,
/// `item` gives `item`.
pub fn local_name(name: &str) -> (r: &str)
    ensures
        r@ == local_of(name@),
{
    let cs = chars_of(name);
    let mut i: usize = 0;
    while i < cs.len()
        invariant
            cs@ == name@,
            i <= cs@.len(),
            forall|k: int| 0 <= k < i ==> cs@[k] != ':',
        decreases cs.len() - i,
    {
        if cs[i] == ':' {
            proof { lemma_colon_index_prefix(name@, i as int); }
            return name.substring_char(i + 1, cs.len());
        }
        i += 1;
    }
    proof { lemma_colon_index_prefix(name@, i as int); }
    name
}

/// Equality of two strings, by their characters.
pub fn same_text(a: &str, b: &str) -> (r: bool)
    ensures
        r == (a@ == b@),
{
    a.to_owned() == b.to_owned()
}

/// The value of the first attribute whose qualified name is `key`.
pub open spec fn attr_value(attrs: Seq<Attr>, key: Seq<char>) -> Option<Seq<char>>
    decreases attrs.len(),
{
    if attrs.len() == 0 {
        None
    } else if attrs[0].key@ == key {
        Some(attrs[0].value@)
    } else {
        attr_value(attrs.drop_first(), key)
    }
}

/// Looks up the value of the attribute `key` of a tag.
pub fn find_attr(tag: &Tag, key: &str) -> (r: Option<String>)
    requires
        tag_ok(*tag),
    ensures
        r.deep_view() == attr_value(attrs_of(tag.raw@, tag.name@), key@),
{
    let attrs = tag_attrs(tag);
    let mut i: usize = 0;
    assert(attrs@.subrange(0, attrs@.len() as int) =~= attrs@);
    while i < attrs.len()
        invariant
            attrs@ == attrs_of(tag.raw@, tag.name@),
            i <= attrs@.len(),
            attr_value(attrs@, key@) == attr_value(attrs@.subrange(i as int, attrs@.len() as int), key@),
        decreases attrs.len() - i,
    {
        let ghost rest = attrs@.subrange(i as int, attrs@.len() as int);
        assert(rest.drop_first() =~= attrs@.subrange(i + 1, attrs@.len() as int));
        if same_text(attrs[i].key.as_str(), key) {
            return Some(attrs[i].value.clone());
        }
        i += 1;
    }
    None
}

} // verus!
