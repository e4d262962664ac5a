//! The artifacts that are recorded with each kind of section.

use vstd::prelude::*;
use crate::clock::Timestamp;
use crate::decimal::{decimal, i32_to_string};
use crate::ident::{fresh_id, is_identifier};
use crate::models::{new_artifact_views, ArtifactView, NewArtifact};
use crate::prompts::{chapter_number, chapter_number_of, classify, kind_of, SectionKind};
use crate::text::{glue, glue3, glue4};

verus! {

/// What is specific to one artifact: its title, type, content and
/// description.
pub struct ArtifactText {
    pub title: Seq<char>,
    pub artifact_type: Seq<char>,
    pub content: Seq<char>,
    pub description: Seq<char>,
}

/// The artifacts that go with a section of the kind that `key` stands for:
/// one or two, in order.
pub open spec fn artifact_texts(key: Seq<char>, title: Seq<char>, topic: Seq<char>) -> Seq<
    ArtifactText,
> {
    match kind_of(key) {
        SectionKind::ExecutiveSummary => seq![
            ArtifactText {
                title: "Executive Summary - "@ + topic,
                artifact_type: "summary"@,
                content: "Executive summary with key findings and recommendations for "@ + topic,
                description: "Executive summary highlighting main points"@,
            },
        ],
        SectionKind::Introduction => seq![
            ArtifactText {
                title: "Terminology Table - "@ + topic,
                artifact_type: "table"@,
                content: "Terminology table for "@ + topic + " concepts"@,
                description: "Key terms and definitions for the research topic"@,
            },
        ],
        SectionKind::Chapter => {
            let number = decimal(chapter_number(key));
            seq![
                ArtifactText {
                    title: "Technical Analysis - Chapter "@ + number,
                    artifact_type: "analysis"@,
                    content: "Technical analysis of aspect "@ + number + " of "@ + topic,
                    description: "In-depth analysis of chapter "@ + number + " topic"@,
                },
                ArtifactText {
                    title: "Code Snippets - Chapter "@ + number,
                    artifact_type: "code"@,
                    content: "Relevant code samples for "@ + topic + " in chapter "@ + number,
                    description: "Code examples related to the technical content"@,
                },
            ]
        },
        SectionKind::Annexures => seq![
            ArtifactText {
                title: "Security Standard Mappings"@,
                artifact_type: "mapping"@,
                content: "Mappings between different security standards and frameworks"@,
                description: "Cross-reference table of security standards"@,
            },
            ArtifactText {
                title: "Glossary of Terms"@,
                artifact_type: "glossary"@,
                content: "Comprehensive glossary of cybersecurity terms"@,
                description: "Definition of terms used throughout the report"@,
            },
        ],
        SectionKind::References => seq![
            ArtifactText {
                title: "Complete Bibliography"@,
                artifact_type: "bibliography"@,
                content: "Complete list of "@ + topic + " references"@,
                description: "Full bibliography in IEEE format"@,
            },
        ],
        SectionKind::Other => seq![
            ArtifactText {
                title: "Section Content - "@ + title,
                artifact_type: "content"@,
                content: "Detailed content for section: "@ + title,
                description: "Main content for "@ + title,
            },
        ],
    }
}

/// The artifact record made of its text, its identifier and where it
/// belongs.
pub open spec fn artifact_of(
    text: ArtifactText,
    id: Seq<char>,
    job_id: Seq<char>,
    key: Seq<char>,
    now: Timestamp,
) -> ArtifactView {
    ArtifactView {
        id,
        job_id,
        section_key: key,
        title: text.title,
        artifact_type: text.artifact_type,
        content: text.content,
        description: text.description,
        created_at: now,
    }
}

/// The artifact records for a section: those of [`artifact_texts`], the
/// first under `first_id` and the second, if there is one, under
/// `second_id`.
pub open spec fn artifacts_for(
    job_id: Seq<char>,
    key: Seq<char>,
    title: Seq<char>,
    topic: Seq<char>,
    first_id: Seq<char>,
    second_id: Seq<char>,
    now: Timestamp,
) -> Seq<ArtifactView> {
    let texts = artifact_texts(key, title, topic);
    Seq::new(
        texts.len(),
        |i: int| artifact_of(texts[i], if i == 0 { first_id } else { second_id }, job_id, key, now),
    )
}

fn record(
    id: String,
    job_id: &str,
    key: &str,
    title: String,
    artifact_type: &str,
    content: String,
    description: String,
    now: Timestamp,
) -> (a: NewArtifact)
    ensures
        a@ == artifact_of(
            ArtifactText {
                title: title@,
                artifact_type: artifact_type@,
                content: content@,
                description: description@,
            },
            id@,
            job_id@,
            key@,
            now,
        ),
{
    NewArtifact {
        id,
        job_id: job_id.to_string(),
        section_key: key.to_string(),
        title,
        artifact_type: artifact_type.to_string(),
        content,
        description,
        created_at: now,
    }
}

/// Builds the artifact records for a section of the job `job_id`, created
/// at `now`, under the identifiers given.
pub fn artifacts_with(
    job_id: &str,
    section_key: &str,
    section_title: &str,
    topic: &str,
    first_id: String,
    second_id: String,
    now: Timestamp,
) -> (artifacts: Vec<NewArtifact>)
    ensures
        new_artifact_views(artifacts@) == artifacts_for(
            job_id@,
            section_key@,
            section_title@,
            topic@,
            first_id@,
            second_id@,
            now,
        ),
        1 <= artifacts.len() <= 2,
{
    let mut artifacts: Vec<NewArtifact> = Vec::new();
    match classify(section_key) {
        SectionKind::ExecutiveSummary => {
            artifacts.push(
                record(
                    first_id,
                    job_id,
                    section_key,
                    glue("Executive Summary - ", topic),
                    "summary",
                    glue("Executive summary with key findings and recommendations for ", topic),
                    "Executive summary highlighting main points".to_string(),
                    now,
                ),
            );
        },
        SectionKind::Introduction => {
            artifacts.push(
                record(
                    first_id,
                    job_id,
                    section_key,
                    glue("Terminology Table - ", topic),
                    "table",
                    glue3("Terminology table for ", topic, " concepts"),
                    "Key terms and definitions for the research topic".to_string(),
                    now,
                ),
            );
        },
        SectionKind::Chapter => {
            let number = i32_to_string(chapter_number_of(section_key));
            artifacts.push(
                record(
                    first_id,
                    job_id,
                    section_key,
                    glue("Technical Analysis - Chapter ", number.as_str()),
                    "analysis",
                    glue4("Technical analysis of aspect ", number.as_str(), " of ", topic),
                    glue3("In-depth analysis of chapter ", number.as_str(), " topic"),
                    now,
                ),
            );
            artifacts.push(
                record(
                    second_id,
                    job_id,
                    section_key,
                    glue("Code Snippets - Chapter ", number.as_str()),
                    "code",
                    glue4("Relevant code samples for ", topic, " in chapter ", number.as_str()),
                    "Code examples related to the technical content".to_string(),
                    now,
                ),
            );
        },
        SectionKind::Annexures => {
            artifacts.push(
                record(
                    first_id,
                    job_id,
                    section_key,
                    "Security Standard Mappings".to_string(),
                    "mapping",
                    "Mappings between different security standards and frameworks".to_string(),
                    "Cross-reference table of security standards".to_string(),
                    now,
                ),
            );
            artifacts.push(
                record(
                    second_id,
                    job_id,
                    section_key,
                    "Glossary of Terms".to_string(),
                    "glossary",
                    "Comprehensive glossary of cybersecurity terms".to_string(),
                    "Definition of terms used throughout the report".to_string(),
                    now,
                ),
            );
        },
        SectionKind::References => {
            artifacts.push(
                record(
                    first_id,
                    job_id,
                    section_key,
                    "Complete Bibliography".to_string(),
                    "bibliography",
                    glue3("Complete list of ", topic, " references"),
                    "Full bibliography in IEEE format".to_string(),
                    now,
                ),
            );
        },
        SectionKind::Other => {
            artifacts.push(
                record(
                    first_id,
                    job_id,
                    section_key,
                    glue("Section Content - ", section_title),
                    "content",
                    glue("Detailed content for section: ", section_title),
                    glue("Main content for ", section_title),
                    now,
                ),
            );
        },
    }
    assert(new_artifact_views(artifacts@) =~= artifacts_for(
        job_id@,
        section_key@,
        section_title@,
        topic@,
        first_id@,
        second_id@,
        now,
    ));
    artifacts
}

/// Builds the artifact records for a section of the job `job_id`, with
/// fresh identifiers and the instant that the clock gives. They are those
/// of [`artifacts_with`] for what was drawn. The depth has no part in them.
pub fn generate_artifacts(
    job_id: &str,
    section_key: &str,
    section_title: &str,
    topic: &str,
    depth: i32,
) -> (artifacts: Vec<NewArtifact>)
    ensures
        1 <= artifacts.len() <= 2,
        exists|first_id: Seq<char>, second_id: Seq<char>, now: Timestamp|
            {
                &&& is_identifier(first_id)
                &&& is_identifier(second_id)
                &&& new_artifact_views(artifacts@) == #[trigger] artifacts_for(
                    job_id@,
                    section_key@,
                    section_title@,
                    topic@,
                    first_id,
                    second_id,
                    now,
                )
            },
{
    let first_id = fresh_id();
    let second_id = fresh_id();
    let now = Timestamp::now();
    artifacts_with(job_id, section_key, section_title, topic, first_id, second_id, now)
}

} // verus!
