use research_jobs::clock::Timestamp;
use research_jobs::models::{Job, ResearchResult};
use research_jobs::pages::{
    check_fetch, content_from_response, extract_text, readable_text, supports, supports_with,
};
use research_jobs::research::{
    is_approved_url, research_with, safe_domain, search_domain, search_domain_with, DOMAIN_COUNT,
};
use research_jobs::worker::Worker;

fn worker() -> Worker {
    Worker::new(Job {
        id: "job-1".to_string(),
        topic: "Zero Trust".to_string(),
        depth: 3,
        created_at: Timestamp::new(1_704_412_800, 0).unwrap(),
        status: "processing".to_string(),
    })
}

#[test]
fn the_approved_sources() {
    assert_eq!(DOMAIN_COUNT, 11);
    let all: Vec<&str> = (0..DOMAIN_COUNT).map(safe_domain).collect();
    assert_eq!(
        all,
        vec![
            "arxiv.org",
            "ieeexplore.ieee.org",
            "dl.acm.org",
            "springer.com",
            "sciencedirect.com",
            "nvd.nist.gov",
            "cve.mitre.org",
            "owasp.org",
            "sans.org",
            "cisa.gov",
            "us-cert.cisa.gov"
        ]
    );
    assert_eq!(safe_domain(11), "us-cert.cisa.gov");
    assert_eq!(safe_domain(usize::MAX), "us-cert.cisa.gov");
}

#[test]
fn arxiv_answers_queries_about_security() {
    let found = search_domain("arxiv.org", "Cloud Security basics");
    assert_eq!(
        found,
        vec![ResearchResult {
            content: "Simulated research content from arXiv about Cloud Security basics"
                .to_string(),
            source_url: "https://arxiv.org/search/?query=Cloud+Security+basics".to_string(),
            provenance: vec!["https://arxiv.org/search/?query=Cloud+Security+basics".to_string()],
            verification_percent: 90,
        }]
    );
    assert_eq!(search_domain("arxiv.org", "CYBERSECURITY").len(), 1);
    assert!(search_domain("arxiv.org", "gardening").is_empty());
    // the query must be given in lower case to the function that takes it
    assert!(search_domain_with("arxiv.org", "Security", "Security").is_empty());
    assert_eq!(search_domain_with("arxiv.org", "Security", "security").len(), 1);
}

#[test]
fn ieee_and_nvd_answer_their_subjects() {
    let ieee = search_domain("ieeexplore.ieee.org", "Encryption at rest");
    assert_eq!(ieee.len(), 1);
    assert_eq!(ieee[0].content, "Simulated research content from IEEE Xplore about Encryption at rest");
    assert_eq!(ieee[0].source_url, "https://ieeexplore.ieee.org/search/?query=Encryption%20at%20rest");
    assert_eq!(ieee[0].verification_percent, 85);
    assert!(search_domain("ieeexplore.ieee.org", "security").is_empty());

    let nvd = search_domain("nvd.nist.gov", "CVE 2024");
    assert_eq!(nvd.len(), 1);
    assert_eq!(nvd[0].content, "Simulated vulnerability research from NVD about CVE 2024");
    assert_eq!(nvd[0].source_url, "https://nvd.nist.gov/vuln/search/results?query=CVE%202024");
    assert_eq!(nvd[0].provenance, vec![nvd[0].source_url.clone()]);
    assert_eq!(nvd[0].verification_percent, 95);
    assert_eq!(search_domain("nvd.nist.gov", "a Vulnerability").len(), 1);
    assert!(search_domain("nvd.nist.gov", "security").is_empty());
}

#[test]
fn every_other_source_always_answers() {
    let found = search_domain("owasp.org", "top ten");
    assert_eq!(found.len(), 1);
    assert_eq!(found[0].content, "Simulated research content from owasp.org about top ten");
    assert_eq!(found[0].source_url, "https://owasp.org/search?q=top%20ten");
    assert_eq!(found[0].verification_percent, 70);
    assert_eq!(search_domain("anything.example", "x").len(), 1);
}

#[test]
fn research_goes_through_the_sources_in_order() {
    let all = worker().perform_constrained_research("Cybersecurity CVE", 100);
    assert_eq!(all.len(), 11);
    assert_eq!(all[0].verification_percent, 90);
    assert_eq!(all[1].verification_percent, 85);
    assert_eq!(all[2].source_url, "https://dl.acm.org/search?q=Cybersecurity%20CVE");
    assert_eq!(all[5].verification_percent, 95);
    assert_eq!(all[10].source_url, "https://us-cert.cisa.gov/search?q=Cybersecurity%20CVE");

    let plain = worker().perform_constrained_research("gardening", 100);
    assert_eq!(plain.len(), 8);
    assert_eq!(plain[0].source_url, "https://dl.acm.org/search?q=gardening");
}

#[test]
fn research_is_cut_off_at_the_maximum() {
    let all = worker().perform_constrained_research("Cybersecurity CVE", 100);
    for max in 0..13 {
        let some = worker().perform_constrained_research("Cybersecurity CVE", max);
        assert_eq!(some.len(), std::cmp::min(max, 11));
        assert_eq!(some[..], all[..some.len()]);
    }
    assert!(research_with("x", "x", 0).is_empty());
    assert_eq!(research_with("x", "x", 3).len(), 3);
}

#[test]
fn only_approved_sources_may_be_fetched() {
    assert!(is_approved_url("https://arxiv.org/abs/1234"));
    assert!(is_approved_url("http://www.cisa.gov/news"));
    assert!(is_approved_url("us-cert.cisa.gov"));
    assert!(!is_approved_url("https://example.com/"));
    assert!(!is_approved_url("https://ARXIV.org/"));
    assert!(!is_approved_url(""));
    assert_eq!(check_fetch("https://owasp.org/top10"), Ok(()));
    assert_eq!(
        check_fetch("https://evil.example/"),
        Err("URL from non-approved domain: https://evil.example/".to_string())
    );
}

#[test]
fn the_readable_text_of_a_page() {
    let page = "<html><head><title>Skip me</title></head><body>\
                <h1>  Heading </h1><p>Hello <b>bold</b> world</p>\
                <ul><li>one</li><li>   </li><li>two</li></ul>\
                <span>not selected</span><table><tr><td> cell </td></tr></table>\
                </body></html>";
    assert_eq!(extract_text(page), "Heading Hello bold world one two cell");
    assert_eq!(extract_text(""), "");
    assert_eq!(extract_text("plain text"), "");
    // a block holds the text of everything inside it, and so do the blocks inside
    assert_eq!(extract_text("<div>a<p> b </p></div>"), "a b b");
}

#[test]
fn fragments_are_trimmed_and_the_empty_ones_dropped() {
    let fragments =
        vec![" a ".to_string(), "".to_string(), "\t\n".to_string(), "b  c".to_string()];
    assert_eq!(readable_text(&fragments), "a b  c");
    assert_eq!(readable_text(&vec![]), "");
    assert_eq!(readable_text(&vec!["  ".to_string()]), "");
}

#[test]
fn an_answer_to_a_fetch_gives_text_or_a_failure() {
    assert_eq!(
        content_from_response("https://arxiv.org/x", true, "<p> found </p>"),
        Ok("found".to_string())
    );
    assert_eq!(
        content_from_response("https://arxiv.org/x", false, "<p> found </p>"),
        Err("Failed to fetch content from URL: https://arxiv.org/x".to_string())
    );
}

#[test]
fn a_claim_is_weighed_against_the_fetched_sources() {
    assert!(supports("Zero Trust", "An essay on ZERO TRUST networks"));
    assert!(!supports("Zero Trust", "An essay on perimeter defence"));
    assert!(supports("", "anything"));
    assert!(supports_with("zero", "sub zero"));
    assert!(!supports_with("Zero", "sub zero"));

    let sources = vec![
        "https://arxiv.org/a".to_string(),
        "https://owasp.org/b".to_string(),
        "https://sans.org/c".to_string(),
        "https://cisa.gov/d".to_string(),
    ];
    let contents = vec![
        Some("All about Zero Trust".to_string()),
        None,
        Some("nothing of the kind".to_string()),
    ];
    let (supported, evidence) = worker().verify_claim("zero trust", &sources, &contents);
    assert!(supported);
    assert_eq!(evidence, vec!["https://arxiv.org/a".to_string()]);

    let (supported, evidence) = worker().verify_claim("quantum", &sources, &contents);
    assert!(!supported);
    assert!(evidence.is_empty());

    let (supported, evidence) = worker().verify_claim("x", &vec![], &vec![]);
    assert!(!supported);
    assert!(evidence.is_empty());
}
