use ebook_tools::opf::looks_like_isbn;
use ebook_tools::text::{contains_word, trim};
use ebook_tools::xml::local_name;
use ebook_tools::{DrmScheme, DrmStatus, Format};

#[test]
fn kepub_compound_extension_wins() {
    assert_eq!(Format::from_path("book.kepub.epub"), Some(Format::Kepub));
    assert_eq!(Format::from_path("dir/Book.KEPUB.EPUB"), Some(Format::Kepub));
}

#[test]
fn extension_is_case_insensitive() {
    assert_eq!(Format::from_path("book.EPUB"), Some(Format::Epub));
    assert_eq!(Format::from_path("book.Mobi"), Some(Format::Mobi));
    assert_eq!(Format::from_path("a/b/book.azw3"), Some(Format::Azw3));
}

#[test]
fn final_component_decides_the_extension() {
    assert_eq!(Format::from_path("book.epub/"), Some(Format::Epub));
    assert_eq!(Format::from_path("book.mobi/."), Some(Format::Mobi));
    assert_eq!(Format::from_path("book.kepub.epub/"), Some(Format::Epub));
    assert_eq!(Format::from_path("dir.epub/x"), None);
    assert_eq!(Format::from_path("book.\u{212A}EPUB.epub"), Some(Format::Kepub));
}

#[test]
fn unknown_extensions_are_absent() {
    assert_eq!(Format::from_path("book.txt"), None);
    assert_eq!(Format::from_path("book"), None);
    assert_eq!(Format::from_path(".epub"), None);
    assert_eq!(Format::from_path("dir/.epub"), None);
    assert_eq!(Format::from_path("bookepub"), None);
}

#[test]
fn extensions_and_names() {
    assert_eq!(Format::Epub.extension(), "epub");
    assert_eq!(Format::Kepub.extension(), "kepub.epub");
    assert_eq!(Format::Mobi.extension(), "mobi");
    assert_eq!(Format::Azw3.extension(), "azw3");
    assert_eq!(Format::Epub.name(), "EPUB");
    assert_eq!(Format::Kepub.name(), "Kobo KePub");
    assert_eq!(Format::Mobi.name(), "Mobipocket");
    assert_eq!(Format::Azw3.name(), "Kindle AZW3");
}

#[test]
fn drm_rendering() {
    assert_eq!(DrmStatus::NoDrm.to_string(), "None");
    assert_eq!(DrmStatus::Unknown.to_string(), "Unknown");
    assert_eq!(DrmStatus::Protected(DrmScheme::AdobeAdept).to_string(), "Protected (Adobe ADEPT)");
    assert_eq!(DrmStatus::Protected(DrmScheme::KoboProtected).to_string(), "Protected (Kobo Protected)");
    assert_eq!(DrmStatus::Protected(DrmScheme::AmazonKindle).to_string(), "Protected (Amazon Kindle)");
    assert_eq!(DrmStatus::Protected(DrmScheme::Other("x:y".to_string())).to_string(), "Protected (x:y)");
}

#[test]
fn isbn_heuristic() {
    assert!(looks_like_isbn("978-0-13-468599-1"));
    assert!(looks_like_isbn("0-8044-2957-X"));
    assert!(!looks_like_isbn("12345"));
    assert!(!looks_like_isbn("0-8044-2957-x"));
    assert!(!looks_like_isbn(""));
}

#[test]
fn namespace_prefix_is_stripped() {
    assert_eq!(local_name("dc:title"), "title");
    assert_eq!(local_name("item"), "item");
    assert_eq!(local_name("a:b:c"), "b:c");
    assert_eq!(local_name(":x"), "x");
}

#[test]
fn cover_image_must_be_a_whole_word() {
    assert!(contains_word("cover-image", "cover-image"));
    assert!(contains_word("nav\tcover-image svg", "cover-image"));
    assert!(!contains_word("cover-images", "cover-image"));
    assert!(!contains_word("xcover-image", "cover-image"));
    assert!(!contains_word("", "cover-image"));
}

#[test]
fn trim_removes_unicode_white_space() {
    assert_eq!(trim("\u{3000}Title\u{A0}\n"), "Title");
    assert_eq!(trim(" \t\r\n"), "");
    assert_eq!(trim("a b"), "a b");
    assert_eq!(trim("\u{2003}x\u{2028}"), "x");
}
