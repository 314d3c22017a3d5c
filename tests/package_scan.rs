use ebook_tools::drm::classify_encryption;
use ebook_tools::opf::scan_package;
use ebook_tools::xml::{read_events, tag_attrs, unescape_text, Tag, XmlEvent};
use ebook_tools::{DrmScheme, DrmStatus, Format};

fn tag(name: &str, attrs: &[(&str, &str)]) -> Tag {
    let mut raw = name.to_string();
    for (k, v) in attrs {
        raw.push_str(&format!(" {k}=\"{v}\""));
    }
    Tag { name: name.to_string(), raw }
}

#[test]
fn scan_of_hand_built_events() {
    let events = vec![
        XmlEvent::Start(tag("opf:package", &[("version", "2.0")])),
        XmlEvent::Start(tag("opf:metadata", &[])),
        XmlEvent::Start(tag("dc:creator", &[])),
        XmlEvent::Text(" Ann ".to_string()),
        XmlEvent::Text("Lee".to_string()),
        XmlEvent::End("dc:creator".to_string()),
        XmlEvent::Text("ignored".to_string()),
        XmlEvent::Empty(tag("meta", &[("name", "cover"), ("content", "img")])),
        XmlEvent::End("opf:metadata".to_string()),
        XmlEvent::Start(tag("manifest", &[])),
        XmlEvent::Empty(tag("item", &[("id", "img"), ("href", "c.png"), ("properties", "cover-image")])),
        XmlEvent::Empty(tag("item", &[("href", "no-id.png")])),
        XmlEvent::End("manifest".to_string()),
        XmlEvent::Empty(tag("item", &[("id", "outside"), ("href", "x")])),
    ];
    let s = scan_package(&events);
    assert_eq!(s.version.as_deref(), Some("2.0"));
    assert_eq!(s.metadata.authors, vec!["Ann Lee"]);
    assert_eq!(s.cover_id.as_deref(), Some("img"));
    assert_eq!(s.manifest.len(), 1);
    assert_eq!(s.manifest[0].id, "img");
    assert_eq!(s.manifest[0].href, "c.png");
    assert_eq!(s.manifest[0].properties.as_deref(), Some("cover-image"));
    assert!(!s.in_metadata && !s.in_manifest);
}

#[test]
fn reading_events_stops_at_a_syntax_error() {
    let (events, error) = read_events("<a><b>t</b></c>");
    assert!(error.is_some());
    assert!(matches!(&events[0], XmlEvent::Start(t) if t.name == "a"));
    let (events, error) = read_events("<a x=\"1\"/>");
    assert!(error.is_none());
    assert_eq!(events.len(), 1);
    let XmlEvent::Empty(t) = &events[0] else { panic!("expected a self-closing tag") };
    let attrs = tag_attrs(t);
    assert_eq!((attrs[0].key.as_str(), attrs[0].value.as_str()), ("x", "1"));
}

#[test]
fn entities_are_replaced_in_text() {
    assert_eq!(unescape_text("a &amp; b &lt;c&gt;"), Some("a & b <c>".to_string()));
    assert_eq!(unescape_text("bad &nosuch; entity"), None);
}

#[test]
fn classification_from_events() {
    let events = vec![XmlEvent::Empty(tag("enc:EncryptionMethod", &[("Algorithm", "urn:x")]))];
    assert_eq!(
        classify_encryption("<e/>", &events, false),
        DrmStatus::Protected(DrmScheme::Other("urn:x".to_string()))
    );
    assert_eq!(classify_encryption("<e/>", &events, true), DrmStatus::Unknown);
    assert_eq!(classify_encryption("urn:kobo:x", &events, false), DrmStatus::Protected(DrmScheme::KoboProtected));
}

#[test]
fn format_from_short_name() {
    assert_eq!("EPUB".parse::<Format>(), Ok(Format::Epub));
    assert_eq!("kepub".parse::<Format>(), Ok(Format::Kepub));
    assert_eq!("Mobi".parse::<Format>(), Ok(Format::Mobi));
    assert_eq!("azw3".parse::<Format>(), Ok(Format::Azw3));
    assert_eq!("pdf".parse::<Format>(), Err("unknown format: pdf".to_string()));
}
