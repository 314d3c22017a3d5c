//! Choosing and resolving the cover image of a package.

use vstd::prelude::*;
use crate::opf::{ManifestItem, ManifestItemView};
use crate::text::{contains_word, has_word, join2, join3};
use crate::xml::same_text;

verus! {

/// A cover image found in the container.
#[derive(Debug, Clone, PartialEq, Eq)]
pub struct CoverInfo {
    /// The container path of the image, as it was found.
    pub href: String,
    /// Size of the image in bytes.
    pub size: u64,
}

/// The href of the first manifest item with the given id.
pub open spec fn href_of_id(items: Seq<ManifestItemView>, id: Seq<char>) -> Option<Seq<char>>
    decreases items.len(),
{
    if items.len() == 0 {
        None
    } else if items[0].id == id {
        Some(items[0].href)
    } else {
        href_of_id(items.drop_first(), id)
    }
}

/// The item's `properties` attribute holds the white-space delimited word `cover-image`.
pub open spec fn flagged_cover(item: ManifestItemView) -> bool {
    item.properties is Some && has_word(item.properties->0, "cover-image"@)
}

/// The href of the first item flagged as the cover image.
pub open spec fn flagged_href(items: Seq<ManifestItemView>) -> Option<Seq<char>>
    decreases items.len(),
{
    if items.len() == 0 {
        None
    } else if flagged_cover(items[0]) {
        Some(items[0].href)
    } else {
        flagged_href(items.drop_first())
    }
}

/// The cover candidate: the item that the cover meta names, when the manifest
/// has it; otherwise the first item flagged `cover-image`.
pub open spec fn cover_candidate(cover_id: Option<Seq<char>>, items: Seq<ManifestItemView>) -> Option<Seq<char>> {
    match cover_id {
        Some(id) => match href_of_id(items, id) {
            Some(h) => Some(h),
            None => flagged_href(items),
        },
        None => flagged_href(items),
    }
}

/// The warning for a cover meta whose item is not in the manifest.
pub open spec fn unlisted_cover_warning(id: Seq<char>) -> Seq<char> {
    "cover meta references item '"@ + id + "' which is not in the manifest"@
}

pub open spec fn manifest_views(items: Seq<ManifestItem>) -> Seq<ManifestItemView> {
    items.map_values(|m: ManifestItem| m@)
}

fn find_href(items: &Vec<ManifestItem>, id: &String) -> (r: Option<String>)
    ensures
        r.deep_view() == href_of_id(manifest_views(items@), id@),
{
    let ghost all = manifest_views(items@);
    let mut i: usize = 0;
    assert(all.subrange(0, all.len() as int) =~= all);
    while i < items.len()
        invariant
            all == manifest_views(items@),
            i <= items@.len(),
            href_of_id(all, id@) == href_of_id(all.subrange(i as int, all.len() as int), id@),
        decreases items.len() - i,
    {
        assert(all.subrange(i as int, all.len() as int).drop_first() =~= all.subrange(i + 1, all.len() as int));
        if same_text(items[i].id.as_str(), id.as_str()) {
            return Some(items[i].href.clone());
        }
        i += 1;
    }
    None
}

fn is_flagged(item: &ManifestItem) -> (r: bool)
    ensures
        r == flagged_cover(item@),
{
    match &item.properties {
        None => false,
        Some(p) => contains_word(p.as_str(), "cover-image"),
    }
}

fn find_flagged(items: &Vec<ManifestItem>) -> (r: Option<String>)
    ensures
        r.deep_view() == flagged_href(manifest_views(items@)),
{
    let ghost all = manifest_views(items@);
    let mut i: usize = 0;
    assert(all.subrange(0, all.len() as int) =~= all);
    while i < items.len()
        invariant
            all == manifest_views(items@),
            i <= items@.len(),
            flagged_href(all) == flagged_href(all.subrange(i as int, all.len() as int)),
        decreases items.len() - i,
    {
        assert(all.subrange(i as int, all.len() as int).drop_first() =~= all.subrange(i + 1, all.len() as int));
        if is_flagged(&items[i]) {
            return Some(items[i].href.clone());
        }
        i += 1;
    }
    None
}

/// Picks the cover candidate of a package. A cover meta whose id the manifest
/// lacks adds a warning and gives way to the `cover-image` flag; one whose id
/// the manifest has decides, whatever the flags say.
pub fn choose_cover(cover_id: &Option<String>, items: &Vec<ManifestItem>, warnings: &mut Vec<String>) -> (r: Option<String>)
    ensures
        r.deep_view() == cover_candidate(cover_id.deep_view(), manifest_views(items@)),
        final(warnings).deep_view() == match cover_id.deep_view() {
            Some(id) => if href_of_id(manifest_views(items@), id) is None {
                old(warnings).deep_view().push(unlisted_cover_warning(id))
            } else {
                old(warnings).deep_view()
            },
            None => old(warnings).deep_view(),
        },
        cover_id.deep_view() is Some && href_of_id(manifest_views(items@), cover_id.deep_view()->0) is Some
            ==> r.deep_view() == href_of_id(manifest_views(items@), cover_id.deep_view()->0),
{
    if let Some(id) = cover_id {
        let found = find_href(items, id);
        if found.is_some() {
            return found;
        }
        warnings.push(join3("cover meta references item '", id.as_str(), "' which is not in the manifest"));
        assert(final(warnings).deep_view() =~= old(warnings).deep_view().push(unlisted_cover_warning(id@)));
    }
    find_flagged(items)
}

/// The warning for a cover candidate that is not in the container.
pub open spec fn missing_cover_warning(href: Seq<char>) -> Seq<char> {
    "cover image file not found in ZIP: "@ + href
}

/// Resolves a cover candidate against the container: `full_size` is the size
/// of the entry at `full_path` (the href joined to the package directory),
/// `bare_size` that of the entry at the bare href, each where the entry exists.
/// The joined path is preferred; where neither exists a warning is added.
pub fn resolve_cover(full_path: &str, href: &str, full_size: Option<u64>, bare_size: Option<u64>, warnings: &mut Vec<String>) -> (r: Option<CoverInfo>)
    ensures
        match full_size {
            Some(n) => r matches Some(c) && c.href@ == full_path@ && c.size == n,
            None => match bare_size {
                Some(n) => r matches Some(c) && c.href@ == href@ && c.size == n,
                None => r is None,
            },
        },
        final(warnings).deep_view() == if full_size is None && bare_size is None {
            old(warnings).deep_view().push(missing_cover_warning(href@))
        } else {
            old(warnings).deep_view()
        },
{
    if let Some(n) = full_size {
        return Some(CoverInfo { href: full_path.to_owned(), size: n });
    }
    if let Some(n) = bare_size {
        return Some(CoverInfo { href: href.to_owned(), size: n });
    }
    warnings.push(join2("cover image file not found in ZIP: ", href));
    assert(final(warnings).deep_view() =~= old(warnings).deep_view().push(missing_cover_warning(href@)));
    None
}

} // verus!
