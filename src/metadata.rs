//! Bibliographic metadata of an ebook.

use vstd::prelude::*;

verus! {

/// Metadata associated with an ebook. Every field starts empty.
///
/// `series_index` holds the text of the series position as the book gives it;
/// it is meant to be read as a decimal number, and is dropped by readers where it
/// is not one.
#[derive(Debug, Clone, PartialEq)]
pub struct Metadata {
    pub title: Option<String>,
    pub authors: Vec<String>,
    pub description: Option<String>,
    pub publisher: Option<String>,
    pub language: Option<String>,
    pub isbn: Option<String>,
    pub publication_date: Option<String>,
    pub subjects: Vec<String>,
    pub series: Option<String>,
    pub series_index: Option<String>,
}

/// The metadata as mathematical values.
pub struct MetadataView {
    pub title: Option<Seq<char>>,
    pub authors: Seq<Seq<char>>,
    pub description: Option<Seq<char>>,
    pub publisher: Option<Seq<char>>,
    pub language: Option<Seq<char>>,
    pub isbn: Option<Seq<char>>,
    pub publication_date: Option<Seq<char>>,
    pub subjects: Seq<Seq<char>>,
    pub series: Option<Seq<char>>,
    pub series_index: Option<Seq<char>>,
}

impl View for Metadata {
    type V = MetadataView;

    open spec fn view(&self) -> MetadataView {
        MetadataView {
            title: self.title.deep_view(),
            authors: self.authors.deep_view(),
            description: self.description.deep_view(),
            publisher: self.publisher.deep_view(),
            language: self.language.deep_view(),
            isbn: self.isbn.deep_view(),
            publication_date: self.publication_date.deep_view(),
            subjects: self.subjects.deep_view(),
            series: self.series.deep_view(),
            series_index: self.series_index.deep_view(),
        }
    }
}

pub open spec fn empty_metadata() -> MetadataView {
    MetadataView {
        title: None,
        authors: seq![],
        description: None,
        publisher: None,
        language: None,
        isbn: None,
        publication_date: None,
        subjects: seq![],
        series: None,
        series_index: None,
    }
}

impl Metadata {
    /// Metadata with every field empty.
    pub fn new() -> (r: Metadata)
        ensures
            r@ == empty_metadata(),
    {
        let r = Metadata {
            title: None,
            authors: Vec::new(),
            description: None,
            publisher: None,
            language: None,
            isbn: None,
            publication_date: None,
            subjects: Vec::new(),
            series: None,
            series_index: None,
        };
        assert(r.authors.deep_view() =~= seq![]);
        assert(r.subjects.deep_view() =~= seq![]);
        r
    }
}

fn copy_opt(o: &Option<String>) -> (r: Option<String>)
    ensures
        r.deep_view() == o.deep_view(),
{
    match o {
        Some(v) => Some(v.clone()),
        None => None,
    }
}

fn copy_list(v: &Vec<String>) -> (r: Vec<String>)
    ensures
        r.deep_view() == v.deep_view(),
{
    let mut r: Vec<String> = Vec::new();
    let mut i: usize = 0;
    while i < v.len()
        invariant
            i <= v@.len(),
            r@.len() == i,
            forall|k: int| 0 <= k < i ==> #[trigger] r@[k]@ == v@[k]@,
        decreases v.len() - i,
    {
        let c = v[i].clone();
        r.push(c);
        i += 1;
    }
    assert(r.deep_view() =~= v.deep_view());
    r
}

impl Metadata {
    /// A copy of the metadata, field for field.
    pub fn copy(&self) -> (r: Metadata)
        ensures
            r@ == self@,
    {
        Metadata {
            title: copy_opt(&self.title),
            authors: copy_list(&self.authors),
            description: copy_opt(&self.description),
            publisher: copy_opt(&self.publisher),
            language: copy_opt(&self.language),
            isbn: copy_opt(&self.isbn),
            publication_date: copy_opt(&self.publication_date),
            subjects: copy_list(&self.subjects),
            series: copy_opt(&self.series),
            series_index: copy_opt(&self.series_index),
        }
    }
}

impl Default for Metadata {
    fn default() -> (r: Metadata)
        ensures
            r@ == empty_metadata(),
    {
        Metadata::new()
    }
}

} // verus!
