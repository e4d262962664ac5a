//! The kinds of section a report has, and the prompt that asks the content
//! generator for each.

use vstd::prelude::*;
use crate::decimal::{
    decimal, i32_to_string, lemma_decimal_nat_reads_back, lemma_decimal_round_trip, parse_i32,
    parsed_i32,
};
use crate::outline::chapter_key;
use crate::text::{has_prefix, same_text, starts_with, strip_start, stripped_start};

verus! {

/// What kind of section a key stands for.
#[derive(Clone, Copy, Debug, PartialEq, Eq, Structural)]
pub enum SectionKind {
    ExecutiveSummary,
    Introduction,
    /// A numbered chapter: any key that begins with `topic_chapter_`.
    Chapter,
    Annexures,
    References,
    /// Any other key.
    Other,
}

/// The kind of section that `key` stands for.
pub open spec fn kind_of(key: Seq<char>) -> SectionKind {
    if key == "executive_summary"@ {
        SectionKind::ExecutiveSummary
    } else if key == "introduction"@ {
        SectionKind::Introduction
    } else if has_prefix(key, "topic_chapter_"@) {
        SectionKind::Chapter
    } else if key == "annexures"@ {
        SectionKind::Annexures
    } else if key == "references"@ {
        SectionKind::References
    } else {
        SectionKind::Other
    }
}

/// The number of the chapter that `key` stands for: what follows the
/// leading `topic_chapter_`, read as a decimal `i32`, and 1 where that is no
/// such number.
pub open spec fn chapter_number(key: Seq<char>) -> int {
    match parsed_i32(stripped_start(key, "topic_chapter_"@)) {
        Some(n) => n,
        None => 1,
    }
}

/// The prompt for a section.
pub open spec fn prompt(key: Seq<char>, title: Seq<char>, topic: Seq<char>, depth: int) -> Seq<
    char,
> {
    match kind_of(key) {
        SectionKind::ExecutiveSummary => {
            "Write a comprehensive executive summary for a research report on '"@ + topic
                + "'. The summary should outline the key findings, challenges, and recommendations in a formal Government of India writing style. The research depth is "@
                + decimal(depth) + " out of 5."@
        },
        SectionKind::Introduction => {
            "Write an introduction section for a research report on '"@ + topic
                + "'. The introduction should define the scope, assumptions, and key terminology relevant to this topic. Use formal Government of India writing style. The research depth is "@
                + decimal(depth) + " out of 5."@
        },
        SectionKind::Chapter => {
            "Write a detailed section about aspect "@ + decimal(chapter_number(key)) + " of '"@
                + topic
                + "' in a research report. Focus on technical aspects, challenges, and current state of the field. Use formal Government of India writing style and include specific examples where relevant. The research depth is "@
                + decimal(depth) + " out of 5."@
        },
        SectionKind::Annexures => {
            "Write annexures for a research report on '"@ + topic
                + "'. Include a comprehensive glossary of terms, mappings between different security standards and frameworks, and any relevant matrices. Use formal Government of India writing style."@
        },
        SectionKind::References => {
            "Generate a comprehensive list of references for a research report on '"@ + topic
                + "'. Include at least 6-10 relevant citations in IEEE format. Use formal Government of India writing style."@
        },
        SectionKind::Other => {
            "Write a comprehensive section about '"@ + title + "' in a research report on '"@
                + topic + "'. The research depth is "@ + decimal(depth)
                + " out of 5. Use formal Government of India writing style."@
        },
    }
}

/// The keys of the numbered chapters of an outline are read back: the key
/// of the `i`-th chapter stands for a chapter, and for the number `i`.
pub proof fn lemma_chapter_key_reads_back(i: int)
    requires
        0 <= i <= i32::MAX,
    ensures
        kind_of(chapter_key(i)) == SectionKind::Chapter,
        chapter_number(chapter_key(i)) == i,
{
    reveal_strlit("topic_chapter_");
    reveal_strlit("executive_summary");
    reveal_strlit("introduction");
    let prefix = "topic_chapter_"@;
    let key = chapter_key(i);
    let digits = decimal(i);
    lemma_decimal_nat_reads_back(i as nat);
    lemma_decimal_round_trip(i);
    assert(key.subrange(0, prefix.len() as int) == prefix);
    assert(key[0] == 't');
    assert(key.skip(prefix.len() as int) == digits);
    assert(digits[0] != 't');
    if has_prefix(digits, prefix) {
        assert(digits.subrange(0, prefix.len() as int)[0] == prefix[0]);
    }
    assert(stripped_start(digits, prefix) == digits);
    assert(stripped_start(key, prefix) == digits);
}

/// Tells what kind of section `key` stands for.
pub fn classify(key: &str) -> (kind: SectionKind)
    ensures
        kind == kind_of(key@),
{
    if same_text(key, "executive_summary") {
        SectionKind::ExecutiveSummary
    } else if same_text(key, "introduction") {
        SectionKind::Introduction
    } else if starts_with(key, "topic_chapter_") {
        SectionKind::Chapter
    } else if same_text(key, "annexures") {
        SectionKind::Annexures
    } else if same_text(key, "references") {
        SectionKind::References
    } else {
        SectionKind::Other
    }
}

/// Reads the number of the chapter that `key` stands for.
pub fn chapter_number_of(key: &str) -> (n: i32)
    ensures
        n == chapter_number(key@),
{
    let rest = strip_start(key, "topic_chapter_");
    match parse_i32(rest.as_str()) {
        Some(n) => n,
        None => 1,
    }
}

/// Builds the prompt that asks the content generator for a section.
pub fn build_prompt(section_key: &str, section_title: &str, topic: &str, depth: i32) -> (p: String)
    ensures
        p@ == prompt(section_key@, section_title@, topic@, depth as int),
{
    let depth_text = i32_to_string(depth);
    match classify(section_key) {
        SectionKind::ExecutiveSummary => {
            let mut p =
                "Write a comprehensive executive summary for a research report on '".to_string();
            p.append(topic);
            p.append(
                "'. The summary should outline the key findings, challenges, and recommendations in a formal Government of India writing style. The research depth is ",
            );
            p.append(depth_text.as_str());
            p.append(" out of 5.");
            p
        },
        SectionKind::Introduction => {
            let mut p = "Write an introduction section for a research report on '".to_string();
            p.append(topic);
            p.append(
                "'. The introduction should define the scope, assumptions, and key terminology relevant to this topic. Use formal Government of India writing style. The research depth is ",
            );
            p.append(depth_text.as_str());
            p.append(" out of 5.");
            p
        },
        SectionKind::Chapter => {
            let number = i32_to_string(chapter_number_of(section_key));
            let mut p = "Write a detailed section about aspect ".to_string();
            p.append(number.as_str());
            p.append(" of '");
            p.append(topic);
            p.append(
                "' in a research report. Focus on technical aspects, challenges, and current state of the field. Use formal Government of India writing style and include specific examples where relevant. The research depth is ",
            );
            p.append(depth_text.as_str());
            p.append(" out of 5.");
            p
        },
        SectionKind::Annexures => {
            let mut p = "Write annexures for a research report on '".to_string();
            p.append(topic);
            p.append(
                "'. Include a comprehensive glossary of terms, mappings between different security standards and frameworks, and any relevant matrices. Use formal Government of India writing style.",
            );
            p
        },
        SectionKind::References => {
            let mut p =
                "Generate a comprehensive list of references for a research report on '".to_string();
            p.append(topic);
            p.append(
                "'. Include at least 6-10 relevant citations in IEEE format. Use formal Government of India writing style.",
            );
            p
        },
        SectionKind::Other => {
            let mut p = "Write a comprehensive section about '".to_string();
            p.append(section_title);
            p.append("' in a research report on '");
            p.append(topic);
            p.append("'. The research depth is ");
            p.append(depth_text.as_str());
            p.append(" out of 5. Use formal Government of India writing style.");
            p
        },
    }
}

} // verus!
