//! DRM status and its classification from an encryption declaration.

use vstd::prelude::*;
use crate::text::{contains, occurs_in};
use crate::xml::{attr_value, attrs_of, events_ok, tag_ok, find_attr, local_name, local_of, same_text, Tag, XmlEvent};

verus! {

/// The DRM status of an ebook.
#[derive(Debug, Clone, PartialEq, Eq)]
pub enum DrmStatus {
    /// No DRM detected.
    NoDrm,
    /// DRM is present with a known scheme.
    Protected(DrmScheme),
    /// The DRM status could not be determined.
    Unknown,
}

/// Known DRM schemes.
#[derive(Debug, Clone, PartialEq, Eq)]
pub enum DrmScheme {
    AdobeAdept,
    KoboProtected,
    AmazonKindle,
    Other(String),
}

pub open spec fn scheme_text(s: DrmScheme) -> Seq<char> {
    match s {
        DrmScheme::AdobeAdept => "Adobe ADEPT"@,
        DrmScheme::KoboProtected => "Kobo Protected"@,
        DrmScheme::AmazonKindle => "Amazon Kindle"@,
        DrmScheme::Other(name) => name@,
    }
}

impl DrmScheme {
    /// The scheme as shown to a reader: its display name, or the raw scheme identifier.
    pub fn to_string(&self) -> (r: String)
        ensures
            r@ == scheme_text(*self),
    {
        match self {
            DrmScheme::AdobeAdept => String::from_str("Adobe ADEPT"),
            DrmScheme::KoboProtected => String::from_str("Kobo Protected"),
            DrmScheme::AmazonKindle => String::from_str("Amazon Kindle"),
            DrmScheme::Other(name) => name.clone(),
        }
    }
}

impl DrmStatus {
    /// A copy of the status.
    pub fn copy(&self) -> (r: DrmStatus)
        ensures
            r == *self,
    {
        match self {
            DrmStatus::NoDrm => DrmStatus::NoDrm,
            DrmStatus::Protected(DrmScheme::AdobeAdept) => DrmStatus::Protected(DrmScheme::AdobeAdept),
            DrmStatus::Protected(DrmScheme::KoboProtected) => DrmStatus::Protected(DrmScheme::KoboProtected),
            DrmStatus::Protected(DrmScheme::AmazonKindle) => DrmStatus::Protected(DrmScheme::AmazonKindle),
            DrmStatus::Protected(DrmScheme::Other(n)) => DrmStatus::Protected(DrmScheme::Other(n.clone())),
            DrmStatus::Unknown => DrmStatus::Unknown,
        }
    }

    /// The status as shown to a reader: `None`, `Protected (<scheme>)` or `Unknown`.
    pub fn to_string(&self) -> (r: String)
        ensures
            r@ == match *self {
                DrmStatus::NoDrm => "None"@,
                DrmStatus::Protected(s) => "Protected ("@ + scheme_text(s) + ")"@,
                DrmStatus::Unknown => "Unknown"@,
            },
    {
        match self {
            DrmStatus::NoDrm => String::from_str("None"),
            DrmStatus::Protected(s) => {
                let name = s.to_string();
                String::from_str("Protected (").concat(name.as_str()).concat(")")
            },
            DrmStatus::Unknown => String::from_str("Unknown"),
        }
    }
}

/// Two statuses have the same variant, and an unnamed scheme the same name.
pub open spec fn same_status(a: DrmStatus, b: DrmStatus) -> bool {
    match (a, b) {
        (DrmStatus::Protected(DrmScheme::Other(x)), DrmStatus::Protected(DrmScheme::Other(y))) => x@ == y@,
        _ => a == b,
    }
}

/// Algorithms that only obscure embedded fonts, which is not DRM.
pub open spec fn is_font_obfuscation(a: Seq<char>) -> bool {
    a == "http://www.idpf.org/2008/embedding"@ || a == "http://ns.adobe.com/pdf/enc#RC"@
}

/// The `Algorithm` attribute of each `EncryptionMethod` start or self-closing tag,
/// in document order.
pub open spec fn algorithms_of(events: Seq<XmlEvent>) -> Seq<Seq<char>>
    decreases events.len(),
{
    if events.len() == 0 {
        seq![]
    } else {
        let prev = algorithms_of(events.drop_last());
        match events.last() {
            XmlEvent::Start(t) | XmlEvent::Empty(t) => if local_of(t.name@) == "EncryptionMethod"@
                && attr_value(attrs_of(t.raw@, t.name@), "Algorithm"@) is Some {
                prev.push(attr_value(attrs_of(t.raw@, t.name@), "Algorithm"@)->0)
            } else {
                prev
            },
            _ => prev,
        }
    }
}

/// The first algorithm that is not font obfuscation.
pub open spec fn first_real_algorithm(algs: Seq<Seq<char>>) -> Option<Seq<char>>
    decreases algs.len(),
{
    if algs.len() == 0 {
        None
    } else if !is_font_obfuscation(algs[0]) {
        Some(algs[0])
    } else {
        first_real_algorithm(algs.drop_first())
    }
}

pub open spec fn mentions_adobe(xml: Seq<char>) -> bool {
    occurs_in("urn:adobe:ns:adept"@, xml) || occurs_in("http://ns.adobe.com/adept"@, xml)
}

pub open spec fn mentions_kobo(xml: Seq<char>) -> bool {
    occurs_in("urn:kobo:"@, xml)
}

/// The status that an encryption declaration gives: `xml` is its text, `events`
/// and `failed` what reading it as XML gave.
pub open spec fn drm_from(r: DrmStatus, xml: Seq<char>, events: Seq<XmlEvent>, failed: bool) -> bool {
    if mentions_adobe(xml) {
        r == DrmStatus::Protected(DrmScheme::AdobeAdept)
    } else if mentions_kobo(xml) {
        r == DrmStatus::Protected(DrmScheme::KoboProtected)
    } else if failed || algorithms_of(events).len() == 0 {
        r == DrmStatus::Unknown
    } else {
        match first_real_algorithm(algorithms_of(events)) {
            None => r == DrmStatus::NoDrm,
            Some(a) => r matches DrmStatus::Protected(DrmScheme::Other(name)) && name@ == a,
        }
    }
}

fn is_font_obfuscation_exec(a: &String) -> (r: bool)
    ensures
        r == is_font_obfuscation(a@),
{
    same_text(a.as_str(), "http://www.idpf.org/2008/embedding") || same_text(a.as_str(), "http://ns.adobe.com/pdf/enc#RC")
}

fn encryption_algorithm(t: &Tag) -> (r: Option<String>)
    requires
        tag_ok(*t),
    ensures
        r.deep_view() == (if local_of(t.name@) == "EncryptionMethod"@ { attr_value(attrs_of(t.raw@, t.name@), "Algorithm"@) } else { None }),
{
    if same_text(local_name(t.name.as_str()), "EncryptionMethod") {
        find_attr(t, "Algorithm")
    } else {
        None
    }
}

/// Collects the algorithms declared by `EncryptionMethod` elements.
pub fn collect_algorithms(events: &Vec<XmlEvent>) -> (r: Vec<String>)
    requires
        events_ok(events@),
    ensures
        r.deep_view() == algorithms_of(events@),
{
    let mut algs: Vec<String> = Vec::new();
    let mut i: usize = 0;
    while i < events.len()
        invariant
            events_ok(events@),
            i <= events@.len(),
            algs.deep_view() == algorithms_of(events@.subrange(0, i as int)),
        decreases events.len() - i,
    {
        assert(events@.subrange(0, i + 1).drop_last() =~= events@.subrange(0, i as int));
        assert(match events@[i as int] {
            XmlEvent::Start(t) | XmlEvent::Empty(t) => tag_ok(t),
            _ => true,
        });
        let found = match &events[i] {
            XmlEvent::Start(t) => encryption_algorithm(t),
            XmlEvent::Empty(t) => encryption_algorithm(t),
            _ => None,
        };
        if let Some(a) = found {
            algs.push(a);
        }
        assert(algs.deep_view() =~= algorithms_of(events@.subrange(0, i + 1)));
        i += 1;
    }
    assert(events@.subrange(0, events@.len() as int) =~= events@);
    algs
}

fn first_real(algs: &Vec<String>) -> (r: Option<String>)
    ensures
        r.deep_view() == first_real_algorithm(algs.deep_view()),
{
    let mut i: usize = 0;
    assert(algs.deep_view().subrange(0, algs@.len() as int) =~= algs.deep_view());
    while i < algs.len()
        invariant
            i <= algs@.len(),
            first_real_algorithm(algs.deep_view()) == first_real_algorithm(algs.deep_view().subrange(i as int, algs@.len() as int)),
        decreases algs.len() - i,
    {
        let ghost rest = algs.deep_view().subrange(i as int, algs@.len() as int);
        assert(rest.drop_first() =~= algs.deep_view().subrange(i + 1, algs@.len() as int));
        if !is_font_obfuscation_exec(&algs[i]) {
            return Some(algs[i].clone());
        }
        i += 1;
    }
    None
}

/// Classifies an encryption declaration. Adobe ADEPT and Kobo namespaces are
/// looked for in the raw text first; otherwise the declared algorithms decide:
/// none at all, or unreadable XML, is `Unknown`; font obfuscation alone is no
/// DRM; any other algorithm names the scheme.
pub fn classify_encryption(xml: &str, events: &Vec<XmlEvent>, failed: bool) -> (r: DrmStatus)
    requires
        events_ok(events@),
    ensures
        drm_from(r, xml@, events@, failed),
        mentions_adobe(xml@) ==> r == DrmStatus::Protected(DrmScheme::AdobeAdept),
{
    if contains(xml, "urn:adobe:ns:adept") || contains(xml, "http://ns.adobe.com/adept") {
        return DrmStatus::Protected(DrmScheme::AdobeAdept);
    }
    if contains(xml, "urn:kobo:") {
        return DrmStatus::Protected(DrmScheme::KoboProtected);
    }
    if failed {
        return DrmStatus::Unknown;
    }
    let algs = collect_algorithms(events);
    if algs.len() == 0 {
        return DrmStatus::Unknown;
    }
    match first_real(&algs) {
        None => DrmStatus::NoDrm,
        Some(a) => DrmStatus::Protected(DrmScheme::Other(a)),
    }
}

/// A declaration whose only algorithm is font obfuscation, and which names
/// neither Adobe ADEPT nor Kobo, is no DRM.
pub proof fn lemma_font_obfuscation_alone(r: DrmStatus, xml: Seq<char>, events: Seq<XmlEvent>, failed: bool)
    requires
        drm_from(r, xml, events, failed),
        !mentions_adobe(xml),
        !mentions_kobo(xml),
        !failed,
        algorithms_of(events) == seq!["http://www.idpf.org/2008/embedding"@],
    ensures
        r == DrmStatus::NoDrm,
{
    let algs = algorithms_of(events);
    assert(algs.drop_first() =~= Seq::<Seq<char>>::empty());
    assert(first_real_algorithm(algs.drop_first()) is None);
}

/// A declaration whose only algorithm is unrecognised, and which names neither
/// Adobe ADEPT nor Kobo, is protected by a scheme named after that algorithm.
pub proof fn lemma_single_unknown_algorithm(r: DrmStatus, xml: Seq<char>, events: Seq<XmlEvent>, failed: bool, a: Seq<char>)
    requires
        drm_from(r, xml, events, failed),
        !mentions_adobe(xml),
        !mentions_kobo(xml),
        !failed,
        algorithms_of(events) == seq![a],
        !is_font_obfuscation(a),
    ensures
        r matches DrmStatus::Protected(DrmScheme::Other(name)) && name@ == a,
{
    assert(algorithms_of(events)[0] == a);
}

} // verus!
