//! Matching a keyword against the texts of an asset, without regard to case.

use crate::types::{texts, ResearchNFT, ResearchNFTView};
use vstd::prelude::*;

verus! {

/// What `str::to_lowercase` makes of a text.
pub uninterp spec fn lowercase(s: Seq<char>) -> Seq<char>;

/// Whether `needle` stands somewhere in `hay`, character for character.
pub open spec fn occurs_in(needle: Seq<char>, hay: Seq<char>) -> bool {
    exists|i: int|
        0 <= i && i + needle.len() <= hay.len() && #[trigger] hay.subrange(i, i + needle.len())
            == needle
}

/// Whether `needle` stands in one of the keywords, in the title or in the
/// description.
pub open spec fn occurs_in_any(
    needle: Seq<char>,
    title: Seq<char>,
    description: Seq<char>,
    keywords: Seq<Seq<char>>,
) -> bool {
    ||| exists|k: int| 0 <= k < keywords.len() && occurs_in(needle, #[trigger] keywords[k])
    ||| occurs_in(needle, title)
    ||| occurs_in(needle, description)
}

/// The lower-case forms of a list of texts.
pub open spec fn lowercase_all(v: Seq<Seq<char>>) -> Seq<Seq<char>> {
    v.map_values(|s: Seq<char>| lowercase(s))
}

/// Whether an asset matches a keyword that is in lower case already: the
/// keyword stands in the lower-case form of one of the asset's keywords, of
/// its title or of its description.
pub open spec fn asset_matches(a: ResearchNFTView, needle: Seq<char>) -> bool {
    occurs_in_any(
        needle,
        lowercase(a.title),
        lowercase(a.description),
        lowercase_all(a.metadata.keywords),
    )
}

/// The assets that match a keyword in lower case.
pub open spec fn matching(needle: Seq<char>) -> spec_fn(ResearchNFTView) -> bool {
    |a: ResearchNFTView| asset_matches(a, needle)
}

/// `str::to_lowercase`: the lower-case form of a text, which depends on the
/// text alone.
#[verifier::external_body]
fn to_lowercase(s: &String) -> (r: String)
    ensures
        r@ == lowercase(s@),
{
    s.to_lowercase()
}

/// `str::contains` with a string as its pattern: whether the pattern stands
/// somewhere in the text.
#[verifier::external_body]
fn contains_text(hay: &String, needle: &String) -> (r: bool)
    ensures
        r == occurs_in(needle@, hay@),
{
    hay.contains(needle.as_str())
}

/// The lower-case form of a keyword, as a search compares it.
pub fn lowered(keyword: &String) -> (r: String)
    ensures
        r@ == lowercase(keyword@),
{
    to_lowercase(keyword)
}

/// Whether `needle` stands in one of the keywords, in the title or in the
/// description, as they are given.
pub fn text_matches(
    needle: &String,
    title: &String,
    description: &String,
    keywords: &Vec<String>,
) -> (r: bool)
    ensures
        r == occurs_in_any(needle@, title@, description@, texts(keywords@)),
{
    let mut k: usize = 0;
    while k < keywords.len()
        invariant
            k <= keywords@.len(),
            forall|j: int| 0 <= j < k ==> !occurs_in(needle@, #[trigger] texts(keywords@)[j]),
        decreases keywords@.len() - k,
    {
        if contains_text(&keywords[k], needle) {
            assert(occurs_in(needle@, texts(keywords@)[k as int]));
            return true;
        }
        k += 1;
    }
    contains_text(title, needle) || contains_text(description, needle)
}

/// Whether an asset matches a keyword that is in lower case already.
pub fn matches_keyword(asset: &ResearchNFT, needle: &String) -> (r: bool)
    ensures
        r == asset_matches(asset@, needle@),
{
    let title = to_lowercase(&asset.title);
    let description = to_lowercase(&asset.description);
    let mut keywords: Vec<String> = Vec::with_capacity(asset.metadata.keywords.len());
    let mut k: usize = 0;
    while k < asset.metadata.keywords.len()
        invariant
            k <= asset.metadata.keywords@.len(),
            keywords@.len() == k,
            forall|j: int|
                0 <= j < k ==> (#[trigger] keywords@[j])@ == lowercase(
                    asset.metadata.keywords@[j]@,
                ),
        decreases asset.metadata.keywords@.len() - k,
    {
        keywords.push(to_lowercase(&asset.metadata.keywords[k]));
        k += 1;
    }
    assert(texts(keywords@) =~= lowercase_all(asset@.metadata.keywords));
    text_matches(needle, &title, &description, &keywords)
}

} // verus!
