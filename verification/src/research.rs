//! Constrained research: which sources may be consulted, what a search of
//! each gives, how the text of a page is read, and whether a source
//! supports a claim.

use vstd::prelude::*;
use crate::models::{research_views, ResearchResult, ResearchResultView};
use crate::worker::Worker;
use crate::text::{
    contains, glue, glue4, has_substring, lowercase_of, replace_char, replaced, same_text,
    to_lowercase,
};

verus! {

/// Number of approved sources.
pub const DOMAIN_COUNT: usize = 11;

/// The approved sources, in the order in which they are searched; beyond
/// the last one, the last one.
pub open spec fn domain_at(i: int) -> Seq<char> {
    if i == 0 {
        "arxiv.org"@
    } else if i == 1 {
        "ieeexplore.ieee.org"@
    } else if i == 2 {
        "dl.acm.org"@
    } else if i == 3 {
        "springer.com"@
    } else if i == 4 {
        "sciencedirect.com"@
    } else if i == 5 {
        "nvd.nist.gov"@
    } else if i == 6 {
        "cve.mitre.org"@
    } else if i == 7 {
        "owasp.org"@
    } else if i == 8 {
        "sans.org"@
    } else if i == 9 {
        "cisa.gov"@
    } else {
        "us-cert.cisa.gov"@
    }
}

/// The `i`-th approved source; beyond the last one, the last one.
pub fn safe_domain(i: usize) -> (d: &'static str)
    ensures
        d@ == domain_at(i as int),
{
    if i == 0 {
        "arxiv.org"
    } else if i == 1 {
        "ieeexplore.ieee.org"
    } else if i == 2 {
        "dl.acm.org"
    } else if i == 3 {
        "springer.com"
    } else if i == 4 {
        "sciencedirect.com"
    } else if i == 5 {
        "nvd.nist.gov"
    } else if i == 6 {
        "cve.mitre.org"
    } else if i == 7 {
        "owasp.org"
    } else if i == 8 {
        "sans.org"
    } else if i == 9 {
        "cisa.gov"
    } else {
        "us-cert.cisa.gov"
    }
}

/// A finding with one source.
pub open spec fn finding(content: Seq<char>, url: Seq<char>, percent: u8) -> ResearchResultView {
    ResearchResultView {
        content,
        source_url: url,
        provenance: seq![url],
        verification_percent: percent,
    }
}

/// What a search of `domain` for `query` gives, where `lowered` is the
/// query in lower case. Three sources answer only queries that name their
/// subjects; every other source always answers.
pub open spec fn domain_results(domain: Seq<char>, query: Seq<char>, lowered: Seq<char>) -> Seq<
    ResearchResultView,
> {
    if domain == "arxiv.org"@ {
        if has_substring(lowered, "cybersecurity"@) || has_substring(lowered, "security"@) {
            seq![
                finding(
                    "Simulated research content from arXiv about "@ + query,
                    "https://arxiv.org/search/?query="@ + replaced(query, ' ', "+"@),
                    90,
                ),
            ]
        } else {
            Seq::empty()
        }
    } else if domain == "ieeexplore.ieee.org"@ {
        if has_substring(lowered, "cybersecurity"@) || has_substring(lowered, "encryption"@) {
            seq![
                finding(
                    "Simulated research content from IEEE Xplore about "@ + query,
                    "https://ieeexplore.ieee.org/search/?query="@ + replaced(query, ' ', "%20"@),
                    85,
                ),
            ]
        } else {
            Seq::empty()
        }
    } else if domain == "nvd.nist.gov"@ {
        if has_substring(lowered, "vulnerability"@) || has_substring(lowered, "cve"@) {
            seq![
                finding(
                    "Simulated vulnerability research from NVD about "@ + query,
                    "https://nvd.nist.gov/vuln/search/results?query="@ + replaced(
                        query,
                        ' ',
                        "%20"@,
                    ),
                    95,
                ),
            ]
        } else {
            Seq::empty()
        }
    } else {
        seq![
            finding(
                "Simulated research content from "@ + domain + " about "@ + query,
                "https://"@ + domain + "/search?q="@ + replaced(query, ' ', "%20"@),
                70,
            ),
        ]
    }
}

fn make_finding(content: String, url: String, percent: u8) -> (r: ResearchResult)
    ensures
        r@ == finding(content@, url@, percent),
{
    let mut provenance: Vec<String> = Vec::new();
    provenance.push(url.clone());
    let r = ResearchResult {
        content,
        source_url: url,
        provenance,
        verification_percent: percent,
    };
    assert(r@.provenance =~= seq![url@]);
    r
}

/// Searches `domain` for `query`, given the query in lower case.
pub fn search_domain_with(domain: &str, query: &str, lowered: &str) -> (results: Vec<
    ResearchResult,
>)
    ensures
        research_views(results@) == domain_results(domain@, query@, lowered@),
        results.len() <= 1,
{
    let mut results: Vec<ResearchResult> = Vec::new();
    if same_text(domain, "arxiv.org") {
        if contains(lowered, "cybersecurity") || contains(lowered, "security") {
            results.push(
                make_finding(
                    glue("Simulated research content from arXiv about ", query),
                    glue(
                        "https://arxiv.org/search/?query=",
                        replace_char(query, ' ', "+").as_str(),
                    ),
                    90,
                ),
            );
        }
    } else if same_text(domain, "ieeexplore.ieee.org") {
        if contains(lowered, "cybersecurity") || contains(lowered, "encryption") {
            results.push(
                make_finding(
                    glue("Simulated research content from IEEE Xplore about ", query),
                    glue(
                        "https://ieeexplore.ieee.org/search/?query=",
                        replace_char(query, ' ', "%20").as_str(),
                    ),
                    85,
                ),
            );
        }
    } else if same_text(domain, "nvd.nist.gov") {
        if contains(lowered, "vulnerability") || contains(lowered, "cve") {
            results.push(
                make_finding(
                    glue("Simulated vulnerability research from NVD about ", query),
                    glue(
                        "https://nvd.nist.gov/vuln/search/results?query=",
                        replace_char(query, ' ', "%20").as_str(),
                    ),
                    95,
                ),
            );
        }
    } else {
        results.push(
            make_finding(
                glue4("Simulated research content from ", domain, " about ", query),
                glue4("https://", domain, "/search?q=", replace_char(query, ' ', "%20").as_str()),
                70,
            ),
        );
    }
    assert(research_views(results@) =~= domain_results(domain@, query@, lowered@));
    results
}

/// Searches `domain` for `query`.
pub fn search_domain(domain: &str, query: &str) -> (results: Vec<ResearchResult>)
    ensures
        research_views(results@) == domain_results(domain@, query@, lowercase_of(query@)),
        results.len() <= 1,
{
    let lowered = to_lowercase(query);
    search_domain_with(domain, query, lowered.as_str())
}

/// What the searches of the first `n` approved sources give, end to end.
pub open spec fn results_of_first(n: int, query: Seq<char>, lowered: Seq<char>) -> Seq<
    ResearchResultView,
>
    decreases n,
{
    if n <= 0 {
        Seq::empty()
    } else {
        results_of_first(n - 1, query, lowered) + domain_results(domain_at(n - 1), query, lowered)
    }
}

/// The findings of a constrained research: what all approved sources give,
/// in order, cut off after `max_results`.
pub open spec fn research_results(query: Seq<char>, lowered: Seq<char>, max_results: int) -> Seq<
    ResearchResultView,
> {
    let all = results_of_first(DOMAIN_COUNT as int, query, lowered);
    if max_results < all.len() {
        all.take(max_results)
    } else {
        all
    }
}

/// What the first sources give stands at the head of what more sources
/// give.
pub proof fn lemma_results_grow(n: int, m: int, query: Seq<char>, lowered: Seq<char>)
    requires
        0 <= n <= m,
    ensures
        results_of_first(n, query, lowered).len() <= results_of_first(m, query, lowered).len(),
        results_of_first(m, query, lowered).take(
            results_of_first(n, query, lowered).len() as int,
        ) == results_of_first(n, query, lowered),
    decreases m - n,
{
    let small = results_of_first(n, query, lowered);
    if n < m {
        lemma_results_grow(n, m - 1, query, lowered);
        let middle = results_of_first(m - 1, query, lowered);
        let big = results_of_first(m, query, lowered);
        assert(big.take(small.len() as int) == middle.take(small.len() as int));
    } else {
        assert(small.take(small.len() as int) == small);
    }
}

/// Searches the approved sources in order for `query`, given the query in
/// lower case, and keeps at most `max_results` findings.
pub fn research_with(query: &str, lowered: &str, max_results: usize) -> (results: Vec<
    ResearchResult,
>)
    ensures
        research_views(results@) == research_results(query@, lowered@, max_results as int),
{
    let mut results: Vec<ResearchResult> = Vec::new();
    let mut i: usize = 0;
    assert(research_views(results@) =~= results_of_first(0, query@, lowered@));
    while i < DOMAIN_COUNT && results.len() < max_results
        invariant
            i <= DOMAIN_COUNT,
            research_views(results@) == results_of_first(i as int, query@, lowered@),
            i > 0 ==> results_of_first(i - 1, query@, lowered@).len() < max_results,
        decreases DOMAIN_COUNT - i,
    {
        let found = search_domain_with(safe_domain(i), query, lowered);
        let ghost before = results@;
        let mut found = found;
        let ghost added = found@;
        results.append(&mut found);
        assert(research_views(results@) =~= research_views(before) + research_views(added));
        i += 1;
    }
    proof {
        lemma_results_grow(i as int, DOMAIN_COUNT as int, query@, lowered@);
    }
    if results.len() > max_results {
        results.truncate(max_results);
    }
    proof {
        let all = results_of_first(DOMAIN_COUNT as int, query@, lowered@);
        let got = results_of_first(i as int, query@, lowered@);
        if got.len() > max_results {
            assert(all.take(max_results as int) =~= got.take(max_results as int));
        } else if i < DOMAIN_COUNT {
            assert(got.len() == max_results);
            assert(all.take(max_results as int) == got);
        }
        assert(research_views(results@) =~= research_results(
            query@,
            lowered@,
            max_results as int,
        ));
    }
    results
}

impl Worker {
    /// Searches the approved sources in order for `query` and keeps at most
    /// `max_results` findings.
    pub fn perform_constrained_research(&self, query: &str, max_results: usize) -> (results: Vec<
        ResearchResult,
    >)
        ensures
            research_views(results@) == research_results(
                query@,
                lowercase_of(query@),
                max_results as int,
            ),
    {
        let lowered = to_lowercase(query);
        research_with(query, lowered.as_str(), max_results)
    }
}

/// Whether an address names one of the approved sources.
pub open spec fn approved(url: Seq<char>) -> bool {
    exists|i: int| 0 <= i < DOMAIN_COUNT && has_substring(url, #[trigger] domain_at(i))
}

/// Tells whether an address names one of the approved sources.
pub fn is_approved_url(url: &str) -> (r: bool)
    ensures
        r == approved(url@),
{
    let mut i: usize = 0;
    while i < DOMAIN_COUNT
        invariant
            i <= DOMAIN_COUNT,
            forall|j: int| 0 <= j < i ==> !has_substring(url@, #[trigger] domain_at(j)),
        decreases DOMAIN_COUNT - i,
    {
        if contains(url, safe_domain(i)) {
            return true;
        }
        i += 1;
    }
    false
}

} // verus!
