//! Reading fetched pages: which addresses may be fetched, the readable text
//! of a page, and whether fetched sources support a claim.

use vstd::prelude::*;
use crate::research::{approved, is_approved_url};
use crate::worker::Worker;
use crate::text::{
    contains, has_substring, join, joined, lowercase_of, texts, to_lowercase, trim, trimmed,
};

verus! {

/// Name for the texts of the elements that a selector picks from a page, in
/// the order in which `scraper` hands the elements out, which is the order
/// in which its parser made them; `None` where the selector is not well
/// formed.
pub uninterp spec fn selected_texts(body: Seq<char>, selector: Seq<char>) -> Option<
    Seq<Seq<char>>,
>;

/// Parses a page and hands out the text of each element that a selector
/// picks.
///
/// Trusted: `scraper::Selector::parse`, `scraper::Html::parse_document`,
/// `scraper::Html::select` and `scraper::ElementRef::text`, the text nodes
/// of each element laid end to end. The result depends on the page and the
/// selector alone; the contract only names it.
#[verifier::external_body]
fn select_texts(body: &str, selector: &str) -> (r: Option<Vec<String>>)
    ensures
        match r {
            Some(found) => selected_texts(body@, selector@) == Some(texts(found@)),
            None => selected_texts(body@, selector@) is None,
        },
{
    let selector = scraper::Selector::parse(selector).ok()?;
    let document = scraper::Html::parse_document(body);
    let mut found: Vec<String> = Vec::new();
    for element in document.select(&selector) {
        found.push(element.text().collect::<String>());
    }
    Some(found)
}

/// The selector of the elements whose text counts as readable.
pub open spec fn text_selector() -> Seq<char> {
    "p, h1, h2, h3, h4, h5, h6, li, td, div"@
}

/// The fragments that stay: each one trimmed, and the empty ones left out.
pub open spec fn kept_fragments(fragments: Seq<Seq<char>>) -> Seq<Seq<char>>
    decreases fragments.len(),
{
    if fragments.len() == 0 {
        Seq::empty()
    } else if trimmed(fragments.last()).len() == 0 {
        kept_fragments(fragments.drop_last())
    } else {
        kept_fragments(fragments.drop_last()).push(trimmed(fragments.last()))
    }
}

/// The readable text made of fragments: the ones that stay, with one space
/// between neighbours.
pub open spec fn readable(fragments: Seq<Seq<char>>) -> Seq<char> {
    joined(kept_fragments(fragments), " "@)
}

/// Makes the readable text of the fragments of a page.
pub fn readable_text(fragments: &Vec<String>) -> (r: String)
    ensures
        r@ == readable(texts(fragments@)),
{
    let mut kept: Vec<String> = Vec::new();
    let mut i: usize = 0;
    assert(texts(fragments@).take(0) =~= Seq::<Seq<char>>::empty());
    assert(texts(kept@) =~= Seq::<Seq<char>>::empty());
    while i < fragments.len()
        invariant
            i <= fragments.len(),
            texts(kept@) == kept_fragments(texts(fragments@).take(i as int)),
        decreases fragments.len() - i,
    {
        let t = trim(fragments[i].as_str());
        proof {
            let all = texts(fragments@);
            assert(all.take(i + 1).drop_last() == all.take(i as int));
            assert(all.take(i + 1).last() == fragments@[i as int]@);
        }
        if t.as_str().unicode_len() > 0 {
            let ghost before = kept@;
            kept.push(t);
            assert(texts(kept@) == texts(before).push(t@));
        }
        i += 1;
    }
    assert(texts(fragments@).take(fragments.len() as int) == texts(fragments@));
    join(&kept, " ")
}

/// The readable text of a page: that of the text of its paragraphs,
/// headings, list items, table cells and blocks.
pub fn extract_text(body: &str) -> (r: String)
    ensures
        r@ == match selected_texts(body@, text_selector()) {
            Some(fragments) => readable(fragments),
            None => Seq::<char>::empty(),
        },
{
    match select_texts(body, "p, h1, h2, h3, h4, h5, h6, li, td, div") {
        Some(fragments) => readable_text(&fragments),
        None => String::new(),
    }
}

/// Says whether `url` may be fetched: only addresses that name an approved
/// source may. The refusal names the address.
pub fn check_fetch(url: &str) -> (r: Result<(), String>)
    ensures
        match r {
            Ok(_) => approved(url@),
            Err(message) => !approved(url@) && message@ == "URL from non-approved domain: "@
                + url@,
        },
{
    if is_approved_url(url) {
        Ok(())
    } else {
        let mut message = "URL from non-approved domain: ".to_string();
        message.append(url);
        Err(message)
    }
}

/// Makes of the answer to a fetch what the fetch gives: the readable text
/// of the page where the answer was a success, and a failure that names
/// the address where it was not.
pub fn content_from_response(url: &str, success: bool, body: &str) -> (r: Result<String, String>)
    ensures
        match r {
            Ok(text) => success && text@ == match selected_texts(body@, text_selector()) {
                Some(fragments) => readable(fragments),
                None => Seq::<char>::empty(),
            },
            Err(message) => !success && message@ == "Failed to fetch content from URL: "@ + url@,
        },
{
    if success {
        Ok(extract_text(body))
    } else {
        let mut message = "Failed to fetch content from URL: ".to_string();
        message.append(url);
        Err(message)
    }
}

/// Whether a text holds a claim, both in lower case.
pub fn supports_with(claim_lowered: &str, content_lowered: &str) -> (r: bool)
    ensures
        r == has_substring(content_lowered@, claim_lowered@),
{
    contains(content_lowered, claim_lowered)
}

/// Whether a text holds a claim, letter case apart.
pub open spec fn backs(claim: Seq<char>, content: Seq<char>) -> bool {
    has_substring(lowercase_of(content), lowercase_of(claim))
}

/// Tells whether a text holds a claim, letter case apart.
pub fn supports(claim: &str, content: &str) -> (r: bool)
    ensures
        r == backs(claim@, content@),
{
    let claim_lowered = to_lowercase(claim);
    let content_lowered = to_lowercase(content);
    supports_with(claim_lowered.as_str(), content_lowered.as_str())
}

/// The text fetched from the `i`-th source; a source that was not fetched
/// counts as one whose fetch failed.
pub open spec fn content_at(contents: Seq<Option<String>>, i: int) -> Option<Seq<char>> {
    if 0 <= i < contents.len() {
        crate::models::opt_text(contents[i])
    } else {
        None
    }
}

/// The sources that support a claim: those whose fetched text holds it,
/// in their order.
pub open spec fn evidence(
    claim: Seq<char>,
    sources: Seq<Seq<char>>,
    contents: Seq<Option<String>>,
) -> Seq<Seq<char>>
    decreases sources.len(),
{
    if sources.len() == 0 {
        Seq::empty()
    } else {
        let earlier = evidence(claim, sources.drop_last(), contents);
        match content_at(contents, sources.len() - 1) {
            Some(content) => if backs(claim, content) {
                earlier.push(sources.last())
            } else {
                earlier
            },
            None => earlier,
        }
    }
}

impl Worker {
    /// Weighs a claim against its sources. `contents` holds, in the order of
    /// the sources, the readable text fetched from each, or `None` where the
    /// fetch failed. Hands back whether any source supports the claim, and the
    /// sources that do.
    pub fn verify_claim(
        &self,
        claim: &str,
        sources: &Vec<String>,
        contents: &Vec<Option<String>>,
    ) -> (r: (bool, Vec<String>))
        ensures
            texts(r.1@) == evidence(claim@, texts(sources@), contents@),
            r.0 == (r.1.len() > 0),
    {
        let claim_lowered = to_lowercase(claim);
        let mut supporting: Vec<String> = Vec::new();
        let mut i: usize = 0;
        assert(texts(sources@).take(0) =~= Seq::<Seq<char>>::empty());
        assert(texts(supporting@) =~= Seq::<Seq<char>>::empty());
        while i < sources.len()
            invariant
                i <= sources.len(),
                claim_lowered@ == lowercase_of(claim@),
                texts(supporting@) == evidence(claim@, texts(sources@).take(i as int), contents@),
            decreases sources.len() - i,
        {
            proof {
                let all = texts(sources@);
                assert(all.take(i + 1).drop_last() == all.take(i as int));
                assert(all.take(i + 1).last() == sources@[i as int]@);
            }
            let holds = if i < contents.len() {
                match &contents[i] {
                    Some(content) => {
                        let content_lowered = to_lowercase(content.as_str());
                        supports_with(claim_lowered.as_str(), content_lowered.as_str())
                    },
                    None => false,
                }
            } else {
                false
            };
            if holds {
                let ghost before = supporting@;
                supporting.push(sources[i].clone());
                assert(texts(supporting@) == texts(before).push(sources@[i as int]@));
            }
            i += 1;
        }
        assert(texts(sources@).take(sources.len() as int) == texts(sources@));
        (supporting.len() > 0, supporting)
    }
}

} // verus!
