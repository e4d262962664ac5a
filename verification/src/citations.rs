//! The citations that go with each kind of section, and how they are
//! marked as checked.

use vstd::prelude::*;
use crate::clock::Timestamp;
use crate::models::{
    citation_views, clone_opt, enhanced_views, Citation, CitationView, EnhancedCitation,
    EnhancedCitationView,
};
use crate::prompts::{classify, kind_of, SectionKind};
use crate::worker::Worker;
use crate::text::{glue, glue3, has_prefix, replace_char, replaced, starts_with};

verus! {

/// A citation of the year 2024 with a DOI and a place in its source.
pub open spec fn citation_of(
    doi: Seq<char>,
    url: Seq<char>,
    title: Seq<char>,
    publisher: Seq<char>,
    page_section: Seq<char>,
    now: Timestamp,
) -> CitationView {
    CitationView {
        doi: Some(doi),
        url,
        title,
        publisher,
        year: 2024,
        access_date: now,
        page_section: Some(page_section),
    }
}

/// The citations for a section of the kind that `key` stands for, in a
/// report on `topic`, as accessed at `now`.
pub open spec fn citations_for(key: Seq<char>, topic: Seq<char>, now: Timestamp) -> Seq<
    CitationView,
> {
    match kind_of(key) {
        SectionKind::ExecutiveSummary => seq![
            citation_of(
                "10.1145/3485765"@,
                "https://dl.acm.org/doi/10.1145/3485765"@,
                "Comprehensive Analysis of "@ + topic + " Trends"@,
                "ACM"@,
                "pp. 45-67"@,
                now,
            ),
        ],
        SectionKind::Introduction => seq![
            citation_of(
                "10.1007/978-3-030-89511-3_5"@,
                "https://link.springer.com/chapter/10.1007/978-3-030-89511-3_5"@,
                "Introduction to "@ + topic + " Concepts"@,
                "Springer"@,
                "Chapter 3"@,
                now,
            ),
        ],
        SectionKind::Chapter => seq![
            citation_of(
                "10.1109/TIFS.2024.3321456"@,
                "https://ieeexplore.ieee.org/document/1234567"@,
                "Technical Aspects of "@ + topic,
                "IEEE"@,
                "Section 4.2"@,
                now,
            ),
            citation_of(
                "10.1145/3576915.3576923"@,
                "https://dl.acm.org/doi/10.1145/3576915.3576923"@,
                "Comparative Analysis of "@ + topic + " Frameworks"@,
                "ACM"@,
                "pp. 123-145"@,
                now,
            ),
        ],
        SectionKind::Annexures => seq![
            citation_of(
                "10.1007/s10207-023-00748-y"@,
                "https://link.springer.com/article/10.1007/s10207-023-00748-y"@,
                "Security Standard Mappings and Compliance Frameworks"@,
                "Springer"@,
                "Volume 23, Issue 4"@,
                now,
            ),
        ],
        SectionKind::References => seq![
            citation_of(
                "10.1145/3581531"@,
                "https://dl.acm.org/doi/10.1145/3581531"@,
                "A Comprehensive Survey of Cybersecurity Research Methodologies"@,
                "ACM"@,
                "pp. 1-35"@,
                now,
            ),
        ],
        SectionKind::Other => seq![
            citation_of(
                "10.1145/1234567.1234568"@,
                "https://example.com/"@ + replaced(topic, ' ', "-"@),
                "Research on "@ + topic,
                "Example Publisher"@,
                "pp. 10-25"@,
                now,
            ),
        ],
    }
}

fn make_citation(
    doi: &str,
    url: String,
    title: String,
    publisher: &str,
    page_section: &str,
    now: Timestamp,
) -> (c: Citation)
    ensures
        c@ == citation_of(doi@, url@, title@, publisher@, page_section@, now),
{
    Citation {
        doi: Some(doi.to_string()),
        url,
        title,
        publisher: publisher.to_string(),
        year: 2024,
        access_date: now,
        page_section: Some(page_section.to_string()),
    }
}

/// Builds the citations for a section, as accessed at `now`.
pub fn citations_at(section_key: &str, topic: &str, now: Timestamp) -> (citations: Vec<Citation>)
    ensures
        citation_views(citations@) == citations_for(section_key@, topic@, now),
{
    let mut citations: Vec<Citation> = Vec::new();
    match classify(section_key) {
        SectionKind::ExecutiveSummary => {
            citations.push(
                make_citation(
                    "10.1145/3485765",
                    "https://dl.acm.org/doi/10.1145/3485765".to_string(),
                    glue3("Comprehensive Analysis of ", topic, " Trends"),
                    "ACM",
                    "pp. 45-67",
                    now,
                ),
            );
        },
        SectionKind::Introduction => {
            citations.push(
                make_citation(
                    "10.1007/978-3-030-89511-3_5",
                    "https://link.springer.com/chapter/10.1007/978-3-030-89511-3_5".to_string(),
                    glue3("Introduction to ", topic, " Concepts"),
                    "Springer",
                    "Chapter 3",
                    now,
                ),
            );
        },
        SectionKind::Chapter => {
            citations.push(
                make_citation(
                    "10.1109/TIFS.2024.3321456",
                    "https://ieeexplore.ieee.org/document/1234567".to_string(),
                    glue("Technical Aspects of ", topic),
                    "IEEE",
                    "Section 4.2",
                    now,
                ),
            );
            citations.push(
                make_citation(
                    "10.1145/3576915.3576923",
                    "https://dl.acm.org/doi/10.1145/3576915.3576923".to_string(),
                    glue3("Comparative Analysis of ", topic, " Frameworks"),
                    "ACM",
                    "pp. 123-145",
                    now,
                ),
            );
        },
        SectionKind::Annexures => {
            citations.push(
                make_citation(
                    "10.1007/s10207-023-00748-y",
                    "https://link.springer.com/article/10.1007/s10207-023-00748-y".to_string(),
                    "Security Standard Mappings and Compliance Frameworks".to_string(),
                    "Springer",
                    "Volume 23, Issue 4",
                    now,
                ),
            );
        },
        SectionKind::References => {
            citations.push(
                make_citation(
                    "10.1145/3581531",
                    "https://dl.acm.org/doi/10.1145/3581531".to_string(),
                    "A Comprehensive Survey of Cybersecurity Research Methodologies".to_string(),
                    "ACM",
                    "pp. 1-35",
                    now,
                ),
            );
        },
        SectionKind::Other => {
            citations.push(
                make_citation(
                    "10.1145/1234567.1234568",
                    glue("https://example.com/", replace_char(topic, ' ', "-").as_str()),
                    glue("Research on ", topic),
                    "Example Publisher",
                    "pp. 10-25",
                    now,
                ),
            );
        },
    }
    assert(citation_views(citations@) =~= citations_for(section_key@, topic@, now));
    citations
}

/// Builds the citations for a section, as accessed now. They are those of
/// [`citations_at`] for the instant that the clock gave.
pub fn generate_citations(section_key: &str, topic: &str) -> (citations: Vec<Citation>)
    ensures
        exists|now: Timestamp|
            citation_views(citations@) == #[trigger] citations_for(section_key@, topic@, now),
{
    let now = Timestamp::now();
    citations_at(section_key, topic, now)
}

/// Whether an address begins like a web address.
pub open spec fn url_valid(url: Seq<char>) -> bool {
    has_prefix(url, "http://"@) || has_prefix(url, "https://"@)
}

/// Tells whether an address begins with `http://` or `https://`.
pub fn is_url_valid(url: &str) -> (r: bool)
    ensures
        r == url_valid(url@),
{
    starts_with(url, "http://") || starts_with(url, "https://")
}

/// A citation after the light check of its address: one without a web
/// address is marked as an expert's judgment instead.
pub open spec fn checked_citation(c: CitationView) -> CitationView {
    if url_valid(c.url) {
        c
    } else {
        CitationView { url: "Observational Inference (Expert Judgment)"@, ..c }
    }
}

impl Worker {
    /// Checks the address of every citation, and marks each one without a web
    /// address as an expert's judgment.
    pub fn verify_citations(&self, citations: Vec<Citation>) -> (checked: Vec<Citation>)
        ensures
            citation_views(checked@) == Seq::new(
                citations@.len(),
                |i: int| checked_citation(citations@[i]@),
            ),
    {
        let mut checked: Vec<Citation> = Vec::new();
        let mut i: usize = 0;
        while i < citations.len()
            invariant
                i <= citations.len(),
                checked.len() == i,
                forall|j: int|
                    0 <= j < i ==> (#[trigger] checked@[j])@ == checked_citation(
                        citations@[j]@,
                    ),
            decreases citations.len() - i,
        {
            let given = &citations[i];
            let url = if is_url_valid(given.url.as_str()) {
                given.url.clone()
            } else {
                "Observational Inference (Expert Judgment)".to_string()
            };
            checked.push(
                Citation {
                    doi: clone_opt(&given.doi),
                    url,
                    title: given.title.clone(),
                    publisher: given.publisher.clone(),
                    year: given.year,
                    access_date: given.access_date,
                    page_section: clone_opt(&given.page_section),
                },
            );
            i += 1;
        }
        assert(citation_views(checked@) =~= Seq::new(
            citations@.len(),
            |i: int| checked_citation(citations@[i]@),
        ));
        checked
    }

    /// Marks a citation by what probing its address gave: `Some(true)` where
    /// the address answered with success, `Some(false)` where it answered
    /// otherwise, `None` where it could not be reached.
    pub fn verify_citation(&self, citation: &EnhancedCitation, probe: Option<bool>) -> (e:
        EnhancedCitation)
        ensures
            e@ == verified_of(citation@, probe),
    {
        apply_probe(citation, probe)
    }
}

/// A citation as it enters verification: found at its own address, not
/// verified, with unknown support.
pub open spec fn enhanced_of(c: CitationView) -> EnhancedCitationView {
    EnhancedCitationView {
        base: c,
        provenance_url: c.url,
        verification_status: "unverified"@,
        claim_support_level: "unknown"@,
    }
}

/// Prepares a citation for verification.
pub fn enhance(citation: &Citation) -> (e: EnhancedCitation)
    ensures
        e@ == enhanced_of(citation@),
{
    EnhancedCitation {
        doi: clone_opt(&citation.doi),
        url: citation.url.clone(),
        title: citation.title.clone(),
        publisher: citation.publisher.clone(),
        year: citation.year,
        access_date: citation.access_date,
        page_section: clone_opt(&citation.page_section),
        provenance_url: citation.url.clone(),
        verification_status: "unverified".to_string(),
        claim_support_level: "unknown".to_string(),
    }
}

/// A citation after its address was probed. `probe` is `Some(true)` where
/// the address answered with success, `Some(false)` where it answered
/// otherwise, and `None` where it could not be reached.
pub open spec fn verified_of(c: EnhancedCitationView, probe: Option<bool>) -> EnhancedCitationView {
    if probe == Some(true) {
        EnhancedCitationView {
            verification_status: "verified"@,
            claim_support_level: "strong"@,
            ..c
        }
    } else {
        EnhancedCitationView { verification_status: "unverified"@, ..c }
    }
}

/// Marks a citation by what probing its address gave.
fn apply_probe(citation: &EnhancedCitation, probe: Option<bool>) -> (e: EnhancedCitation)
    ensures
        e@ == verified_of(citation@, probe),
{
    let reached = match probe {
        Some(ok) => ok,
        None => false,
    };
    EnhancedCitation {
        doi: clone_opt(&citation.doi),
        url: citation.url.clone(),
        title: citation.title.clone(),
        publisher: citation.publisher.clone(),
        year: citation.year,
        access_date: citation.access_date,
        page_section: clone_opt(&citation.page_section),
        provenance_url: citation.provenance_url.clone(),
        verification_status: if reached {
            "verified".to_string()
        } else {
            "unverified".to_string()
        },
        claim_support_level: if reached {
            "strong".to_string()
        } else {
            citation.claim_support_level.clone()
        },
    }
}

/// The answer of the probe of the `i`-th address; an address that was not
/// probed counts as not reached.
pub open spec fn probe_at(probes: Seq<Option<bool>>, i: int) -> Option<bool> {
    if 0 <= i < probes.len() {
        probes[i]
    } else {
        None
    }
}

/// Prepares every citation for verification and marks it by what probing
/// its address gave; `probes` holds the answers in the order of the
/// citations.
pub fn enhance_citations_with_research(
    citations: &Vec<Citation>,
    probes: &Vec<Option<bool>>,
) -> (enhanced: Vec<EnhancedCitation>)
    ensures
        enhanced_views(enhanced@) == Seq::new(
            citations@.len(),
            |i: int| verified_of(enhanced_of(citations@[i]@), probe_at(probes@, i)),
        ),
{
    let mut enhanced: Vec<EnhancedCitation> = Vec::new();
    let mut i: usize = 0;
    while i < citations.len()
        invariant
            i <= citations.len(),
            enhanced.len() == i,
            forall|j: int|
                0 <= j < i ==> (#[trigger] enhanced@[j])@ == verified_of(
                    enhanced_of(citations@[j]@),
                    probe_at(probes@, j),
                ),
        decreases citations.len() - i,
    {
        let prepared = enhance(&citations[i]);
        let probe = if i < probes.len() {
            probes[i]
        } else {
            None
        };
        enhanced.push(apply_probe(&prepared, probe));
        i += 1;
    }
    assert(enhanced_views(enhanced@) =~= Seq::new(
        citations@.len(),
        |i: int| verified_of(enhanced_of(citations@[i]@), probe_at(probes@, i)),
    ));
    enhanced
}

/// Takes the marks of verification off again: the plain citations, in
/// order.
pub fn convert_to_standard_citations(enhanced: Vec<EnhancedCitation>) -> (citations: Vec<Citation>)
    ensures
        citation_views(citations@) == Seq::new(enhanced@.len(), |i: int| enhanced@[i]@.base),
{
    let mut citations: Vec<Citation> = Vec::new();
    let mut i: usize = 0;
    while i < enhanced.len()
        invariant
            i <= enhanced.len(),
            citations.len() == i,
            forall|j: int| 0 <= j < i ==> (#[trigger] citations@[j])@ == enhanced@[j]@.base,
        decreases enhanced.len() - i,
    {
        let e = &enhanced[i];
        citations.push(
            Citation {
                doi: clone_opt(&e.doi),
                url: e.url.clone(),
                title: e.title.clone(),
                publisher: e.publisher.clone(),
                year: e.year,
                access_date: e.access_date,
                page_section: clone_opt(&e.page_section),
            },
        );
        i += 1;
    }
    assert(citation_views(citations@) =~= Seq::new(enhanced@.len(), |i: int| enhanced@[i]@.base));
    citations
}

/// Preparing citations, marking them and taking the marks off again gives
/// back the citations one began with, whatever the probes said.
pub proof fn lemma_marks_come_off(c: CitationView, probe: Option<bool>)
    ensures
        verified_of(enhanced_of(c), probe).base == c,
{
}

} // verus!
