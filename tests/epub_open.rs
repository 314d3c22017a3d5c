use std::io::{Cursor, Write};

use ebook_tools::epub::{check_mimetype, locate_package, EntryHeader, EntryRead};
use ebook_tools::{CoverProvider, DrmDetector, DrmScheme, DrmStatus, EpubBook, Error, MetadataProvider};
use zip::write::FileOptions;
use zip::{CompressionMethod, ZipWriter};

const CONTAINER: &str = r#"<?xml version="1.0"?>
<container version="1.0" xmlns="urn:oasis:names:tc:opendocument:xmlns:container">
  <rootfiles>
    <rootfile full-path="OEBPS/content.opf" media-type="application/oebps-package+xml"/>
  </rootfiles>
</container>"#;

fn zip_of(entries: &[(&str, &[u8], bool)]) -> Vec<u8> {
    let mut w = ZipWriter::new(Cursor::new(Vec::new()));
    for (name, data, stored) in entries {
        let method = if *stored { CompressionMethod::Stored } else { CompressionMethod::Deflated };
        w.start_file(*name, FileOptions::default().compression_method(method)).unwrap();
        w.write_all(data).unwrap();
    }
    w.finish().unwrap().into_inner()
}

fn opf(metadata: &str, manifest: &str) -> String {
    format!(
        r#"<?xml version="1.0"?>
<package version="3.0" xmlns="http://www.idpf.org/2007/opf" xmlns:dc="http://purl.org/dc/elements/1.1/">
  <metadata>{metadata}</metadata>
  <manifest>{manifest}</manifest>
</package>"#
    )
}

const BASIC_META: &str = "<dc:title>T</dc:title><dc:language>en</dc:language>";

fn book_with(opf_text: &str, extra: &[(&str, &[u8])]) -> Vec<u8> {
    let mut entries: Vec<(&str, &[u8], bool)> = vec![
        ("mimetype", b"application/epub+zip", true),
        ("META-INF/container.xml", CONTAINER.as_bytes(), false),
        ("OEBPS/content.opf", opf_text.as_bytes(), false),
    ];
    for (n, d) in extra {
        entries.push((n, d, false));
    }
    zip_of(&entries)
}

fn open(data: Vec<u8>) -> EpubBook {
    EpubBook::open("book.epub", data).unwrap()
}

#[test]
fn authors_keep_document_order_and_duplicates() {
    let meta = "<dc:title>T</dc:title><dc:language>en</dc:language>\
        <dc:creator>A</dc:creator><dc:creator>B</dc:creator><dc:creator>C</dc:creator><dc:creator>A</dc:creator>";
    let book = open(book_with(&opf(meta, ""), &[]));
    let m = book.metadata().unwrap();
    assert_eq!(m.authors, vec!["A", "B", "C", "A"]);
}

#[test]
fn three_creators_give_three_authors() {
    let meta = "<dc:title>T</dc:title><dc:language>en</dc:language>\
        <dc:creator>A</dc:creator><dc:creator>B</dc:creator><dc:creator>C</dc:creator>";
    let book = open(book_with(&opf(meta, ""), &[]));
    assert_eq!(book.metadata().unwrap().authors, vec!["A", "B", "C"]);
}

#[test]
fn isbn_accepted_from_thirteen_digits() {
    let meta = "<dc:title>T</dc:title><dc:language>en</dc:language>\
        <dc:identifier>urn:uuid:1234</dc:identifier><dc:identifier>978-0-13-468599-1</dc:identifier>\
        <dc:identifier>0-306-40615-2</dc:identifier>";
    let m = open(book_with(&opf(meta, ""), &[])).metadata().unwrap();
    assert_eq!(m.isbn.as_deref(), Some("978-0-13-468599-1"));
}

#[test]
fn isbn_rejected_from_five_digits() {
    let meta = "<dc:title>T</dc:title><dc:language>en</dc:language><dc:identifier>12345</dc:identifier>";
    let m = open(book_with(&opf(meta, ""), &[])).metadata().unwrap();
    assert_eq!(m.isbn, None);
}

#[test]
fn metadata_fields_are_trimmed_and_routed() {
    let meta = "<dc:title>  First  </dc:title><dc:title>Second</dc:title><dc:language> en </dc:language>\
        <dc:description>D</dc:description><dc:publisher>P</dc:publisher><dc:date>2020-01-01</dc:date>\
        <dc:subject>S1</dc:subject><dc:subject>   </dc:subject><dc:subject>S2</dc:subject>\
        <meta name=\"calibre:series\" content=\"Saga\"/><meta name=\"calibre:series_index\" content=\"2.5\"/>";
    let book = open(book_with(&opf(meta, ""), &[]));
    let m = book.metadata().unwrap();
    assert_eq!(m.title.as_deref(), Some("Second"));
    assert_eq!(m.language.as_deref(), Some("en"));
    assert_eq!(m.description.as_deref(), Some("D"));
    assert_eq!(m.publisher.as_deref(), Some("P"));
    assert_eq!(m.publication_date.as_deref(), Some("2020-01-01"));
    assert_eq!(m.subjects, vec!["S1", "S2"]);
    assert_eq!(m.series.as_deref(), Some("Saga"));
    assert_eq!(m.series_index.as_deref(), Some("2.5"));
    assert_eq!(book.epub_version(), Some("3.0"));
    assert!(book.warnings().is_empty(), "{:?}", book.warnings());
}

#[test]
fn entities_in_text_are_unescaped() {
    let meta = "<dc:title>Tom &amp; Jerry</dc:title><dc:language>en</dc:language>";
    let m = open(book_with(&opf(meta, ""), &[])).metadata().unwrap();
    assert_eq!(m.title.as_deref(), Some("Tom & Jerry"));
}

#[test]
fn missing_title_and_language_are_warnings() {
    let book = open(book_with(&opf("<dc:creator>A</dc:creator>", ""), &[]));
    assert_eq!(
        book.warnings(),
        &["OPF: missing required <dc:title>".to_string(), "OPF: missing required <dc:language>".to_string()]
    );
}

#[test]
fn cover_meta_wins_over_cover_image_property() {
    let manifest = r#"<item id="cvr" href="images/meta.jpg" media-type="image/jpeg"/>
        <item id="other" href="images/prop.jpg" media-type="image/jpeg" properties="cover-image"/>"#;
    let meta = format!("{BASIC_META}<meta name=\"cover\" content=\"cvr\"/>");
    let data = book_with(&opf(&meta, manifest), &[("OEBPS/images/meta.jpg", b"12345"), ("OEBPS/images/prop.jpg", b"xy")]);
    let book = open(data.clone());
    let info = book.cover_info().unwrap();
    assert_eq!(info.href, "OEBPS/images/meta.jpg");
    assert_eq!(info.size, 5);
    assert_eq!(book.cover(data).unwrap(), Some(b"12345".to_vec()));
}

#[test]
fn cover_meta_with_missing_file_does_not_fall_back() {
    let manifest = r#"<item id="cvr" href="images/gone.jpg" media-type="image/jpeg"/>
        <item id="other" href="images/prop.jpg" media-type="image/jpeg" properties="cover-image"/>"#;
    let meta = format!("{BASIC_META}<meta name=\"cover\" content=\"cvr\"/>");
    let book = open(book_with(&opf(&meta, manifest), &[("OEBPS/images/prop.jpg", b"xy")]));
    assert!(book.cover_info().is_none());
    assert_eq!(
        book.warnings(),
        &[
            "cover image file not found in ZIP: images/gone.jpg".to_string(),
            "manifest item 'cvr' references 'images/gone.jpg' which is not in the ZIP".to_string(),
        ]
    );
}

#[test]
fn cover_meta_missing_from_manifest_falls_back_to_property() {
    let manifest = r#"<item id="other" href="images/prop.jpg" properties="nav cover-image"/>"#;
    let meta = format!("{BASIC_META}<meta name=\"cover\" content=\"nope\"/>");
    let book = open(book_with(&opf(&meta, manifest), &[("OEBPS/images/prop.jpg", b"xy")]));
    assert_eq!(book.cover_info().unwrap().href, "OEBPS/images/prop.jpg");
    assert_eq!(book.warnings(), &["cover meta references item 'nope' which is not in the manifest".to_string()]);
}

#[test]
fn cover_resolves_through_bare_href() {
    let manifest = r#"<item id="c" href="cover.png" properties="cover-image"/>"#;
    let book = open(book_with(&opf(BASIC_META, manifest), &[("cover.png", b"abc")]));
    let info = book.cover_info().unwrap();
    assert_eq!(info.href, "cover.png");
    assert_eq!(info.size, 3);
}

#[test]
fn no_cover_is_no_warning() {
    let manifest = r#"<item id="ch1" href="ch1.xhtml"/>"#;
    let book = open(book_with(&opf(BASIC_META, manifest), &[("OEBPS/ch1.xhtml", b"<html/>")]));
    assert!(book.cover_info().is_none());
    assert!(book.warnings().is_empty());
    assert_eq!(book.cover(Vec::new()).unwrap(), None);
}

#[test]
fn vanished_cover_entry_is_invalid_book() {
    let manifest = r#"<item id="c" href="cover.png" properties="cover-image"/>"#;
    let book = open(book_with(&opf(BASIC_META, manifest), &[("OEBPS/cover.png", b"abc")]));
    let other = book_with(&opf(BASIC_META, ""), &[]);
    assert!(matches!(book.cover(other), Err(Error::InvalidBook(_))));
}

#[test]
fn missing_container_file_is_invalid_book() {
    let data = zip_of(&[("mimetype", b"application/epub+zip", true)]);
    assert!(matches!(EpubBook::open("book.epub", data), Err(Error::InvalidBook(_))));
}

#[test]
fn missing_container_file_warns_before_failing() {
    let mut warnings = Vec::new();
    let r = locate_package(EntryRead::Missing, &mut warnings);
    assert_eq!(r, Err(Error::InvalidBook("META-INF/container.xml not found".to_string())));
    assert_eq!(warnings, vec!["META-INF/container.xml is missing".to_string()]);
}

#[test]
fn container_without_rootfile_is_invalid_book() {
    let mut warnings = Vec::new();
    let r = locate_package(EntryRead::Found("<container><rootfiles/></container>".to_string()), &mut warnings);
    assert_eq!(r, Err(Error::InvalidBook("container.xml: no rootfile element found".to_string())));
    assert!(warnings.is_empty());
}

#[test]
fn container_rootfile_with_prefix_is_found() {
    let mut warnings = Vec::new();
    let r = locate_package(
        EntryRead::Found(r#"<c:container xmlns:c="x"><c:rootfile full-path="a/b.opf"/></c:container>"#.to_string()),
        &mut warnings,
    );
    assert_eq!(r, Ok("a/b.opf".to_string()));
}

#[test]
fn malformed_container_is_invalid_book_with_warning() {
    let mut warnings = Vec::new();
    let r = locate_package(EntryRead::Found("<container><a></b></container>".to_string()), &mut warnings);
    assert!(matches!(r, Err(Error::InvalidBook(_))));
    assert_eq!(warnings.len(), 1);
    assert!(warnings[0].starts_with("META-INF/container.xml: XML parse error: "));
}

#[test]
fn missing_package_document_is_invalid_book() {
    let data = zip_of(&[
        ("mimetype", b"application/epub+zip", true),
        ("META-INF/container.xml", CONTAINER.as_bytes(), false),
    ]);
    assert_eq!(
        EpubBook::open("book.epub", data).err(),
        Some(Error::InvalidBook("OPF file not found: OEBPS/content.opf".to_string()))
    );
}

#[test]
fn not_a_zip_is_invalid_book() {
    assert!(matches!(EpubBook::open("book.epub", b"hello".to_vec()), Err(Error::InvalidBook(_))));
}

#[test]
fn unknown_extension_is_unknown_format() {
    assert_eq!(
        EpubBook::open("book.txt", Vec::new()).err(),
        Some(Error::UnknownFormat("book.txt".to_string()))
    );
}

#[test]
fn conforming_mimetype_gives_no_warning() {
    let book = open(book_with(&opf(BASIC_META, ""), &[]));
    assert!(book.warnings().iter().all(|w| !w.starts_with("mimetype")));
    let mut warnings = Vec::new();
    let first = Some(EntryHeader { name: "mimetype".to_string(), stored: true });
    check_mimetype(&first, &Some("application/epub+zip\n".to_string()), &mut warnings);
    assert!(warnings.is_empty());
}

#[test]
fn compressed_mimetype_is_a_warning() {
    let data = zip_of(&[
        ("mimetype", b"application/epub+zip", false),
        ("META-INF/container.xml", CONTAINER.as_bytes(), false),
        ("OEBPS/content.opf", opf(BASIC_META, "").as_bytes(), false),
    ]);
    let book = open(data);
    assert_eq!(book.warnings(), &["mimetype file: should be stored uncompressed".to_string()]);
}

#[test]
fn mimetype_problems_each_warn() {
    let mut warnings = Vec::new();
    let first = Some(EntryHeader { name: "mimetype".to_string(), stored: false });
    check_mimetype(&first, &Some(" text/plain ".to_string()), &mut warnings);
    assert_eq!(
        warnings,
        vec![
            "mimetype file: should be stored uncompressed".to_string(),
            "mimetype file: expected 'application/epub+zip', got 'text/plain'".to_string(),
        ]
    );
    let mut warnings = Vec::new();
    check_mimetype(&None, &None, &mut warnings);
    assert_eq!(warnings, vec!["mimetype file: ZIP archive is empty".to_string()]);
}

#[test]
fn misplaced_mimetype_is_a_warning() {
    let data = zip_of(&[
        ("META-INF/container.xml", CONTAINER.as_bytes(), false),
        ("mimetype", b"application/epub+zip", true),
        ("OEBPS/content.opf", opf(BASIC_META, "").as_bytes(), false),
    ]);
    let book = open(data);
    assert_eq!(
        book.warnings(),
        &[
            "mimetype file: first ZIP entry is 'META-INF/container.xml', expected 'mimetype'".to_string(),
            "mimetype file: should be stored uncompressed".to_string(),
        ]
    );
}

#[test]
fn misplaced_mimetype_content_is_still_checked() {
    let data = zip_of(&[
        ("META-INF/container.xml", CONTAINER.as_bytes(), true),
        ("mimetype", b"text/plain", true),
        ("OEBPS/content.opf", opf(BASIC_META, "").as_bytes(), false),
    ]);
    let book = open(data);
    assert_eq!(
        book.warnings(),
        &[
            "mimetype file: first ZIP entry is 'META-INF/container.xml', expected 'mimetype'".to_string(),
            "mimetype file: expected 'application/epub+zip', got 'text/plain'".to_string(),
        ]
    );
}

#[test]
fn manifest_item_missing_from_archive_is_a_warning() {
    let manifest = r#"<item id="ch1" href="ch1.xhtml"/><item id="ch2" href="ch2.xhtml"/><item href="noid.xhtml"/>"#;
    let book = open(book_with(&opf(BASIC_META, manifest), &[("OEBPS/ch1.xhtml", b"x")]));
    assert_eq!(
        book.warnings(),
        &["manifest item 'ch2' references 'ch2.xhtml' which is not in the ZIP".to_string()]
    );
}

fn encrypted(enc: &str) -> DrmStatus {
    let data = zip_of(&[
        ("mimetype", b"application/epub+zip", true),
        ("META-INF/container.xml", CONTAINER.as_bytes(), false),
        ("META-INF/encryption.xml", enc.as_bytes(), false),
        ("OEBPS/content.opf", opf(BASIC_META, "").as_bytes(), false),
    ]);
    open(data).drm_status().unwrap()
}

fn encryption_doc(algorithms: &[&str]) -> String {
    let mut s = String::from(r#"<encryption xmlns="urn:oasis:names:tc:opendocument:xmlns:container" xmlns:enc="http://www.w3.org/2001/04/xmlenc#">"#);
    for a in algorithms {
        s.push_str(&format!(r#"<enc:EncryptedData><enc:EncryptionMethod Algorithm="{a}"/></enc:EncryptedData>"#));
    }
    s.push_str("</encryption>");
    s
}

#[test]
fn font_obfuscation_only_is_no_drm() {
    assert_eq!(encrypted(&encryption_doc(&["http://www.idpf.org/2008/embedding"])), DrmStatus::NoDrm);
    assert_eq!(
        encrypted(&encryption_doc(&["http://www.idpf.org/2008/embedding", "http://ns.adobe.com/pdf/enc#RC"])),
        DrmStatus::NoDrm
    );
}

#[test]
fn adept_namespace_is_adobe_whatever_the_algorithms() {
    let doc = encryption_doc(&["http://www.idpf.org/2008/embedding"]).replace("</encryption>", "<x xmlns=\"urn:adobe:ns:adept\"/></encryption>");
    assert_eq!(encrypted(&doc), DrmStatus::Protected(DrmScheme::AdobeAdept));
    let doc = encryption_doc(&["https://example.com/custom-enc"]).replace("</encryption>", "<!-- http://ns.adobe.com/adept --></encryption>");
    assert_eq!(encrypted(&doc), DrmStatus::Protected(DrmScheme::AdobeAdept));
}

#[test]
fn kobo_namespace_is_kobo() {
    let doc = encryption_doc(&["urn:kobo:encryption"]);
    assert_eq!(encrypted(&doc), DrmStatus::Protected(DrmScheme::KoboProtected));
}

#[test]
fn unrecognised_algorithm_names_the_scheme() {
    assert_eq!(
        encrypted(&encryption_doc(&["https://example.com/custom-enc"])),
        DrmStatus::Protected(DrmScheme::Other("https://example.com/custom-enc".to_string()))
    );
    assert_eq!(
        encrypted(&encryption_doc(&["http://www.idpf.org/2008/embedding", "http://www.w3.org/2001/04/xmlenc#aes128-cbc"])),
        DrmStatus::Protected(DrmScheme::Other("http://www.w3.org/2001/04/xmlenc#aes128-cbc".to_string()))
    );
}

#[test]
fn no_algorithms_or_bad_xml_is_unknown() {
    assert_eq!(encrypted(&encryption_doc(&[])), DrmStatus::Unknown);
    assert_eq!(encrypted("<encryption><a></b></encryption>"), DrmStatus::Unknown);
}

#[test]
fn no_encryption_file_is_no_drm() {
    let book = open(book_with(&opf(BASIC_META, ""), &[]));
    assert_eq!(book.drm_status().unwrap(), DrmStatus::NoDrm);
}

#[test]
fn opening_twice_gives_identical_snapshots() {
    let manifest = r#"<item id="cvr" href="c.jpg"/><item id="gone" href="gone.xhtml"/>"#;
    let meta = "<dc:creator>X</dc:creator><meta name=\"cover\" content=\"cvr\"/>";
    let data = book_with(&opf(meta, manifest), &[("OEBPS/c.jpg", b"jpg")]);
    let a = EpubBook::open("dir/book.kepub.epub", data.clone()).unwrap();
    let b = EpubBook::open("dir/book.kepub.epub", data).unwrap();
    assert_eq!(a.path(), b.path());
    assert_eq!(a.format(), b.format());
    assert_eq!(a.epub_version(), b.epub_version());
    assert_eq!(a.metadata().unwrap(), b.metadata().unwrap());
    assert_eq!(a.drm_status().unwrap(), b.drm_status().unwrap());
    assert_eq!(a.cover_info(), b.cover_info());
    assert_eq!(a.warnings(), b.warnings());
    assert_eq!(a.warnings().len(), 3);
}
