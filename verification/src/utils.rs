//! Helpers for dates, report text and citations.

use vstd::prelude::*;
use crate::clock::{day_month_year, Timestamp};
use crate::models::{citation_views, Citation, CitationView};
use crate::table::Table;

verus! {

/// A JSON value of `serde_json`, carried through as it is.
#[verifier::external_type_specification]
#[verifier::external_body]
pub struct ExJsonValue(serde_json::Value);

/// Name for whether a JSON value is an object.
pub uninterp spec fn json_is_object(value: serde_json::Value) -> bool;

/// Name for the keys of a JSON value that is an object.
pub uninterp spec fn json_object_keys(value: serde_json::Value) -> Set<Seq<char>>;

/// Whether a JSON value is an object.
///
/// Trusted: `serde_json::Value::is_object`; the contract names its answer.
#[verifier::external_body]
fn value_is_object(value: &serde_json::Value) -> (r: bool)
    ensures
        r == json_is_object(*value),
{
    value.is_object()
}

/// Whether a JSON value is an object that has the key `key`.
///
/// Trusted: `serde_json::Value::get` with a text index, which finds a
/// member only in an object and only under a key that the object has.
#[verifier::external_body]
fn value_has_key(value: &serde_json::Value, key: &str) -> (r: bool)
    ensures
        r == (json_is_object(*value) && json_object_keys(*value).contains(key@)),
{
    value.get(key).is_some()
}

/// The day of `date` as `DD-Mon-YYYY`, such as `15-May-2023`.
pub fn format_indian_date(date: Timestamp) -> (s: String)
    ensures
        s@ == day_month_year(date.spec_secs() as int, date.spec_nanos() as int),
{
    date.day_text()
}

/// Brings a text into the house style. The style asks for no change yet:
/// the text comes back as it is.
pub fn normalize_goi_text(text: &str) -> (r: String)
    ensures
        r@ == text@,
{
    text.to_string()
}

/// What is wrong with a citation given as JSON, if anything: what it is and
/// which members it has decide, and the first fault found is named.
pub open spec fn citation_fault(
    is_object: bool,
    has_url: bool,
    has_doi: bool,
    has_title: bool,
    has_publisher: bool,
    has_year: bool,
) -> Option<Seq<char>> {
    if !is_object {
        Some("Citation must be an object"@)
    } else if !has_url && !has_doi {
        Some("Citation must have either URL or DOI"@)
    } else if !has_title {
        Some("Citation must have a title"@)
    } else if !has_publisher {
        Some("Citation must have a publisher"@)
    } else if !has_year {
        Some("Citation must have a year"@)
    } else {
        None
    }
}

/// Judges a citation by what it is and which members it has.
pub fn check_citation_members(
    is_object: bool,
    has_url: bool,
    has_doi: bool,
    has_title: bool,
    has_publisher: bool,
    has_year: bool,
) -> (r: Result<(), String>)
    ensures
        match r {
            Ok(_) => citation_fault(is_object, has_url, has_doi, has_title, has_publisher, has_year)
                is None,
            Err(message) => citation_fault(
                is_object,
                has_url,
                has_doi,
                has_title,
                has_publisher,
                has_year,
            ) == Some(message@),
        },
{
    if !is_object {
        Err("Citation must be an object".to_string())
    } else if !has_url && !has_doi {
        Err("Citation must have either URL or DOI".to_string())
    } else if !has_title {
        Err("Citation must have a title".to_string())
    } else if !has_publisher {
        Err("Citation must have a publisher".to_string())
    } else if !has_year {
        Err("Citation must have a year".to_string())
    } else {
        Ok(())
    }
}

/// Checks that a citation given as JSON is an object with a `url` or a
/// `doi`, a `title`, a `publisher` and a `year`.
pub fn validate_citation_format(citation_json: &serde_json::Value) -> (r: Result<(), String>)
    ensures
        ({
            let keys = json_object_keys(*citation_json);
            let fault = citation_fault(
                json_is_object(*citation_json),
                keys.contains("url"@),
                keys.contains("doi"@),
                keys.contains("title"@),
                keys.contains("publisher"@),
                keys.contains("year"@),
            );
            match r {
                Ok(_) => fault is None,
                Err(message) => fault == Some(message@),
            }
        }),
{
    let is_object = value_is_object(citation_json);
    check_citation_members(
        is_object,
        value_has_key(citation_json, "url"),
        value_has_key(citation_json, "doi"),
        value_has_key(citation_json, "title"),
        value_has_key(citation_json, "publisher"),
        value_has_key(citation_json, "year"),
    )
}

/// The key by which two citations count as the same: address, a hyphen,
/// title.
pub open spec fn citation_key(c: CitationView) -> Seq<char> {
    c.url + "-"@ + c.title
}

/// Whether one of the first `n` citations has the key `key`.
pub open spec fn key_seen(cs: Seq<CitationView>, n: int, key: Seq<char>) -> bool {
    exists|j: int| 0 <= j < n && j < cs.len() && citation_key(#[trigger] cs[j]) == key
}

/// The citations without repetitions: of those that share a key only the
/// first stays, and what stays keeps its order.
pub open spec fn deduplicated(cs: Seq<CitationView>) -> Seq<CitationView>
    decreases cs.len(),
{
    if cs.len() == 0 {
        Seq::<CitationView>::empty()
    } else if key_seen(cs, cs.len() - 1, citation_key(cs.last())) {
        deduplicated(cs.drop_last())
    } else {
        deduplicated(cs.drop_last()).push(cs.last())
    }
}

/// What stays after removing repetitions holds every key of the citations
/// given, holds no other key, and holds no key twice.
pub proof fn lemma_deduplicated_keys(cs: Seq<CitationView>)
    ensures
        deduplicated(cs).len() <= cs.len(),
        forall|key: Seq<char>|
            #![trigger key_seen(cs, cs.len() as int, key)]
            key_seen(cs, cs.len() as int, key) <==> key_seen(
                deduplicated(cs),
                deduplicated(cs).len() as int,
                key,
            ),
        forall|i: int, j: int|
            0 <= i < j < deduplicated(cs).len() ==> citation_key(#[trigger] deduplicated(cs)[i])
                != citation_key(#[trigger] deduplicated(cs)[j]),
    decreases cs.len(),
{
    if cs.len() > 0 {
        let rest = cs.drop_last();
        let last = cs.last();
        let out = deduplicated(cs);
        let out_rest = deduplicated(rest);
        lemma_deduplicated_keys(rest);
        let repeated = key_seen(cs, cs.len() - 1, citation_key(last));
        assert(repeated == key_seen(rest, rest.len() as int, citation_key(last))) by {
            if repeated {
                let j = choose|j: int|
                    0 <= j < cs.len() - 1 && j < cs.len() && citation_key(#[trigger] cs[j])
                        == citation_key(last);
                assert(citation_key(rest[j]) == citation_key(last));
            }
            if key_seen(rest, rest.len() as int, citation_key(last)) {
                let j = choose|j: int|
                    0 <= j < rest.len() && j < rest.len() && citation_key(#[trigger] rest[j])
                        == citation_key(last);
                assert(citation_key(cs[j]) == citation_key(last));
            }
        }
        assert forall|key: Seq<char>|
            #![trigger key_seen(cs, cs.len() as int, key)]
            key_seen(cs, cs.len() as int, key) <==> key_seen(out, out.len() as int, key) by {
            if key_seen(cs, cs.len() as int, key) {
                let j = choose|j: int|
                    0 <= j < cs.len() && j < cs.len() && citation_key(#[trigger] cs[j]) == key;
                if j < cs.len() - 1 {
                    assert(citation_key(rest[j]) == key);
                    assert(key_seen(rest, rest.len() as int, key));
                }
                if key_seen(rest, rest.len() as int, key) {
                    let k = choose|k: int|
                        0 <= k < out_rest.len() && k < out_rest.len() && citation_key(
                            #[trigger] out_rest[k],
                        ) == key;
                    assert(citation_key(out[k]) == key);
                } else {
                    assert(key == citation_key(last));
                    assert(citation_key(out[out.len() - 1]) == key);
                }
            }
            if key_seen(out, out.len() as int, key) {
                let k = choose|k: int|
                    0 <= k < out.len() && k < out.len() && citation_key(#[trigger] out[k]) == key;
                if k < out_rest.len() {
                    assert(citation_key(out_rest[k]) == key);
                    assert(key_seen(rest, rest.len() as int, key));
                    let j = choose|j: int|
                        0 <= j < rest.len() && j < rest.len() && citation_key(#[trigger] rest[j])
                            == key;
                    assert(citation_key(cs[j]) == key);
                } else {
                    assert(citation_key(cs[cs.len() - 1]) == key);
                }
            }
        }
        assert forall|i: int, j: int| 0 <= i < j < out.len() implies citation_key(
            #[trigger] out[i],
        ) != citation_key(#[trigger] out[j]) by {
            if j < out_rest.len() {
                assert(out[i] == out_rest[i] && out[j] == out_rest[j]);
            } else {
                assert(!repeated);
                assert(out[i] == out_rest[i]);
                if citation_key(out[i]) == citation_key(last) {
                    assert(key_seen(out_rest, out_rest.len() as int, citation_key(last)));
                }
            }
        }
    }
}

/// Removes repeated citations, keeping the first of each key.
pub fn deduplicate_citations(citations: Vec<Citation>) -> (unique: Vec<Citation>)
    ensures
        citation_views(unique@) == deduplicated(citation_views(citations@)),
{
    let ghost all = citation_views(citations@);
    let mut seen: Table<bool> = Table::new();
    let mut unique: Vec<Citation> = Vec::new();
    let mut i: usize = 0;
    while i < citations.len()
        invariant
            i <= citations.len(),
            all == citation_views(citations@),
            citation_views(unique@) == deduplicated(all.take(i as int)),
            forall|key: Seq<char>|
                #![trigger seen@.contains_key(key)]
                #![trigger key_seen(all, i as int, key)]
                seen@.contains_key(key) <==> key_seen(all, i as int, key),
        decreases citations.len() - i,
    {
        let citation = citations[i].clone();
        let mut key = citation.url.clone();
        key.append("-");
        key.append(citation.title.as_str());
        proof {
            let prefix = all.take(i + 1);
            assert(prefix.drop_last() == all.take(i as int));
            assert(prefix.last() == all[i as int]);
            assert(key@ == citation_key(all[i as int]));
            assert(key_seen(prefix, i as int, key@) == key_seen(all, i as int, key@)) by {
                if key_seen(prefix, i as int, key@) {
                    let j = choose|j: int|
                        0 <= j < i && j < prefix.len() && citation_key(#[trigger] prefix[j])
                            == key@;
                    assert(citation_key(all[j]) == key@);
                }
                if key_seen(all, i as int, key@) {
                    let j = choose|j: int|
                        0 <= j < i && j < all.len() && citation_key(#[trigger] all[j]) == key@;
                    assert(citation_key(prefix[j]) == key@);
                }
            }
        }
        let ghost seen_before = seen@;
        if !seen.contains_key(key.as_str()) {
            let ghost before = unique@;
            let _ = seen.insert(key, true);
            unique.push(citation);
            assert(citation_views(unique@) == citation_views(before).push(all[i as int]));
        } else {
        }
        proof {
            assert forall|q: Seq<char>|
                #![trigger seen@.contains_key(q)]
                #![trigger key_seen(all, i + 1, q)]
                seen@.contains_key(q) <==> key_seen(all, i + 1, q) by {
                assert(seen_before.contains_key(q) <==> key_seen(all, i as int, q));
                if key_seen(all, i + 1, q) {
                    let j = choose|j: int|
                        0 <= j < i + 1 && j < all.len() && citation_key(#[trigger] all[j]) == q;
                    if j < i {
                        assert(key_seen(all, i as int, q));
                    } else {
                        assert(q == key@);
                    }
                }
                if seen@.contains_key(q) {
                    if q == key@ {
                        assert(citation_key(all[i as int]) == q);
                    } else {
                        assert(seen_before.contains_key(q));
                        assert(key_seen(all, i as int, q));
                        let j = choose|j: int|
                            0 <= j < i && j < all.len() && citation_key(#[trigger] all[j]) == q;
                        assert(citation_key(all[j]) == q);
                    }
                }
            }
        }
        i += 1;
    }
    assert(all.take(citations.len() as int) == all);
    unique
}

} // verus!
