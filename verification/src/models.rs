//! The records of the system: jobs, sections, citations, artifacts and
//! progress events, each with the mathematical view its contracts speak of.

use vstd::prelude::*;
use crate::clock::Timestamp;

verus! {

/// The text of an optional string.
pub open spec fn opt_text(o: Option<String>) -> Option<Seq<char>> {
    match o {
        Some(s) => Some(s@),
        None => None,
    }
}

/// Copies an optional string.
pub fn clone_opt(o: &Option<String>) -> (r: Option<String>)
    ensures
        opt_text(r) == opt_text(*o),
{
    match o {
        Some(s) => Some(s.clone()),
        None => None,
    }
}

/// View of a [`Job`] or a [`NewJob`].
pub struct JobView {
    pub id: Seq<char>,
    pub topic: Seq<char>,
    pub depth: i32,
    pub created_at: Timestamp,
    pub status: Seq<char>,
}

/// One request for a report, as it is stored.
#[derive(Debug, PartialEq, Eq)]
pub struct Job {
    pub id: String,
    pub topic: String,
    pub depth: i32,
    pub created_at: Timestamp,
    pub status: String,
}

impl View for Job {
    type V = JobView;

    open spec fn view(&self) -> JobView {
        JobView {
            id: self.id@,
            topic: self.topic@,
            depth: self.depth,
            created_at: self.created_at,
            status: self.status@,
        }
    }
}

impl Clone for Job {
    fn clone(&self) -> (r: Self)
        ensures
            r@ == self@,
    {
        Job {
            id: self.id.clone(),
            topic: self.topic.clone(),
            depth: self.depth,
            created_at: self.created_at,
            status: self.status.clone(),
        }
    }
}

/// A job that has not been stored yet.
#[derive(Debug, PartialEq, Eq)]
pub struct NewJob {
    pub id: String,
    pub topic: String,
    pub depth: i32,
    pub created_at: Timestamp,
    pub status: String,
}

impl View for NewJob {
    type V = JobView;

    open spec fn view(&self) -> JobView {
        JobView {
            id: self.id@,
            topic: self.topic@,
            depth: self.depth,
            created_at: self.created_at,
            status: self.status@,
        }
    }
}

impl Clone for NewJob {
    fn clone(&self) -> (r: Self)
        ensures
            r@ == self@,
    {
        NewJob {
            id: self.id.clone(),
            topic: self.topic.clone(),
            depth: self.depth,
            created_at: self.created_at,
            status: self.status.clone(),
        }
    }
}

/// View of a [`Section`] or a [`NewSection`].
pub struct SectionView {
    pub id: Seq<char>,
    pub job_id: Seq<char>,
    pub key: Seq<char>,
    pub title: Seq<char>,
    pub progress: i32,
    pub status: Seq<char>,
    pub output_md: Seq<char>,
}

/// One section of a job's report, as it is stored.
#[derive(Debug, PartialEq, Eq)]
pub struct Section {
    pub id: String,
    pub job_id: String,
    pub key: String,
    pub title: String,
    pub progress: i32,
    pub status: String,
    pub output_md: String,
}

impl View for Section {
    type V = SectionView;

    open spec fn view(&self) -> SectionView {
        SectionView {
            id: self.id@,
            job_id: self.job_id@,
            key: self.key@,
            title: self.title@,
            progress: self.progress,
            status: self.status@,
            output_md: self.output_md@,
        }
    }
}

impl Clone for Section {
    fn clone(&self) -> (r: Self)
        ensures
            r@ == self@,
    {
        Section {
            id: self.id.clone(),
            job_id: self.job_id.clone(),
            key: self.key.clone(),
            title: self.title.clone(),
            progress: self.progress,
            status: self.status.clone(),
            output_md: self.output_md.clone(),
        }
    }
}

/// A section that has not been stored yet.
#[derive(Debug, PartialEq, Eq)]
pub struct NewSection {
    pub id: String,
    pub job_id: String,
    pub key: String,
    pub title: String,
    pub progress: i32,
    pub status: String,
    pub output_md: String,
}

impl View for NewSection {
    type V = SectionView;

    open spec fn view(&self) -> SectionView {
        SectionView {
            id: self.id@,
            job_id: self.job_id@,
            key: self.key@,
            title: self.title@,
            progress: self.progress,
            status: self.status@,
            output_md: self.output_md@,
        }
    }
}

impl Clone for NewSection {
    fn clone(&self) -> (r: Self)
        ensures
            r@ == self@,
    {
        NewSection {
            id: self.id.clone(),
            job_id: self.job_id.clone(),
            key: self.key.clone(),
            title: self.title.clone(),
            progress: self.progress,
            status: self.status.clone(),
            output_md: self.output_md.clone(),
        }
    }
}

/// View of a [`Citation`].
pub struct CitationView {
    pub doi: Option<Seq<char>>,
    pub url: Seq<char>,
    pub title: Seq<char>,
    pub publisher: Seq<char>,
    pub year: i32,
    pub access_date: Timestamp,
    pub page_section: Option<Seq<char>>,
}

/// A reference to a published source.
#[derive(Debug, PartialEq, Eq)]
pub struct Citation {
    pub doi: Option<String>,
    pub url: String,
    pub title: String,
    pub publisher: String,
    pub year: i32,
    pub access_date: Timestamp,
    pub page_section: Option<String>,
}

impl View for Citation {
    type V = CitationView;

    open spec fn view(&self) -> CitationView {
        CitationView {
            doi: opt_text(self.doi),
            url: self.url@,
            title: self.title@,
            publisher: self.publisher@,
            year: self.year,
            access_date: self.access_date,
            page_section: opt_text(self.page_section),
        }
    }
}

impl Clone for Citation {
    fn clone(&self) -> (r: Self)
        ensures
            r@ == self@,
    {
        Citation {
            doi: clone_opt(&self.doi),
            url: self.url.clone(),
            title: self.title.clone(),
            publisher: self.publisher.clone(),
            year: self.year,
            access_date: self.access_date,
            page_section: clone_opt(&self.page_section),
        }
    }
}

/// The views of a vector of citations.
pub open spec fn citation_views(v: Seq<Citation>) -> Seq<CitationView> {
    Seq::new(v.len(), |i: int| v[i]@)
}

/// View of a [`SectionDraft`].
pub struct SectionDraftView {
    pub content: Seq<char>,
    pub citations: Seq<CitationView>,
}

/// What a worker hands back for one section: its text and its citations.
#[derive(Debug, PartialEq, Eq)]
pub struct SectionDraft {
    pub content: String,
    pub citations: Vec<Citation>,
}

impl View for SectionDraft {
    type V = SectionDraftView;

    open spec fn view(&self) -> SectionDraftView {
        SectionDraftView { content: self.content@, citations: citation_views(self.citations@) }
    }
}

/// View of a [`JobSubmission`].
pub struct JobSubmissionView {
    pub topic: Seq<char>,
    pub depth: i32,
}

/// What a caller sends to ask for a report.
#[derive(Debug, PartialEq, Eq)]
pub struct JobSubmission {
    pub topic: String,
    pub depth: i32,
}

impl View for JobSubmission {
    type V = JobSubmissionView;

    open spec fn view(&self) -> JobSubmissionView {
        JobSubmissionView { topic: self.topic@, depth: self.depth }
    }
}

/// View of an [`SseEvent`].
pub struct EventView {
    pub kind: Seq<char>,
    pub text: Option<Seq<char>>,
    pub section_key: Option<Seq<char>>,
    pub section_title: Option<Seq<char>>,
    pub progress: Option<i32>,
}

/// One progress event, as observers of a job receive it.
#[derive(Debug, PartialEq, Eq)]
pub struct SseEvent {
    pub kind: String,
    pub text: Option<String>,
    pub section_key: Option<String>,
    pub section_title: Option<String>,
    pub progress: Option<i32>,
}

impl View for SseEvent {
    type V = EventView;

    open spec fn view(&self) -> EventView {
        EventView {
            kind: self.kind@,
            text: opt_text(self.text),
            section_key: opt_text(self.section_key),
            section_title: opt_text(self.section_title),
            progress: self.progress,
        }
    }
}

impl Clone for SseEvent {
    fn clone(&self) -> (r: Self)
        ensures
            r@ == self@,
    {
        SseEvent {
            kind: self.kind.clone(),
            text: clone_opt(&self.text),
            section_key: clone_opt(&self.section_key),
            section_title: clone_opt(&self.section_title),
            progress: self.progress,
        }
    }
}

/// View of an [`Artifact`] or a [`NewArtifact`].
pub struct ArtifactView {
    pub id: Seq<char>,
    pub job_id: Seq<char>,
    pub section_key: Seq<char>,
    pub title: Seq<char>,
    pub artifact_type: Seq<char>,
    pub content: Seq<char>,
    pub description: Seq<char>,
    pub created_at: Timestamp,
}

/// Collateral produced with a section, as it is stored.
#[derive(Debug, PartialEq, Eq)]
pub struct Artifact {
    pub id: String,
    pub job_id: String,
    pub section_key: String,
    pub title: String,
    pub artifact_type: String,
    pub content: String,
    pub description: String,
    pub created_at: Timestamp,
}

impl View for Artifact {
    type V = ArtifactView;

    open spec fn view(&self) -> ArtifactView {
        ArtifactView {
            id: self.id@,
            job_id: self.job_id@,
            section_key: self.section_key@,
            title: self.title@,
            artifact_type: self.artifact_type@,
            content: self.content@,
            description: self.description@,
            created_at: self.created_at,
        }
    }
}

/// An artifact that has not been stored yet.
#[derive(Debug, PartialEq, Eq)]
pub struct NewArtifact {
    pub id: String,
    pub job_id: String,
    pub section_key: String,
    pub title: String,
    pub artifact_type: String,
    pub content: String,
    pub description: String,
    pub created_at: Timestamp,
}

impl View for NewArtifact {
    type V = ArtifactView;

    open spec fn view(&self) -> ArtifactView {
        ArtifactView {
            id: self.id@,
            job_id: self.job_id@,
            section_key: self.section_key@,
            title: self.title@,
            artifact_type: self.artifact_type@,
            content: self.content@,
            description: self.description@,
            created_at: self.created_at,
        }
    }
}

/// The views of a vector of artifacts that are not stored yet.
pub open spec fn new_artifact_views(v: Seq<NewArtifact>) -> Seq<ArtifactView> {
    Seq::new(v.len(), |i: int| v[i]@)
}

/// View of a [`ResearchResult`].
pub struct ResearchResultView {
    pub content: Seq<char>,
    pub source_url: Seq<char>,
    pub provenance: Seq<Seq<char>>,
    pub verification_percent: u8,
}

/// One finding of a search, with where it came from and how far it is
/// trusted, in percent.
#[derive(Debug, PartialEq, Eq)]
pub struct ResearchResult {
    pub content: String,
    pub source_url: String,
    pub provenance: Vec<String>,
    pub verification_percent: u8,
}

impl View for ResearchResult {
    type V = ResearchResultView;

    open spec fn view(&self) -> ResearchResultView {
        ResearchResultView {
            content: self.content@,
            source_url: self.source_url@,
            provenance: crate::text::texts(self.provenance@),
            verification_percent: self.verification_percent,
        }
    }
}

/// The views of a vector of research results.
pub open spec fn research_views(v: Seq<ResearchResult>) -> Seq<ResearchResultView> {
    Seq::new(v.len(), |i: int| v[i]@)
}

/// View of an [`EnhancedCitation`].
pub struct EnhancedCitationView {
    pub base: CitationView,
    pub provenance_url: Seq<char>,
    pub verification_status: Seq<char>,
    pub claim_support_level: Seq<char>,
}

/// A citation with where it was found and how far it was checked.
#[derive(Debug, PartialEq, Eq)]
pub struct EnhancedCitation {
    pub doi: Option<String>,
    pub url: String,
    pub title: String,
    pub publisher: String,
    pub year: i32,
    pub access_date: Timestamp,
    pub page_section: Option<String>,
    pub provenance_url: String,
    pub verification_status: String,
    pub claim_support_level: String,
}

impl View for EnhancedCitation {
    type V = EnhancedCitationView;

    open spec fn view(&self) -> EnhancedCitationView {
        EnhancedCitationView {
            base: CitationView {
                doi: opt_text(self.doi),
                url: self.url@,
                title: self.title@,
                publisher: self.publisher@,
                year: self.year,
                access_date: self.access_date,
                page_section: opt_text(self.page_section),
            },
            provenance_url: self.provenance_url@,
            verification_status: self.verification_status@,
            claim_support_level: self.claim_support_level@,
        }
    }
}

/// The views of a vector of enhanced citations.
pub open spec fn enhanced_views(v: Seq<EnhancedCitation>) -> Seq<EnhancedCitationView> {
    Seq::new(v.len(), |i: int| v[i]@)
}

/// The views of a vector of events.
pub open spec fn event_views(v: Seq<SseEvent>) -> Seq<EventView> {
    Seq::new(v.len(), |i: int| v[i]@)
}

/// The views of a vector of sections.
pub open spec fn section_views(v: Seq<Section>) -> Seq<SectionView> {
    Seq::new(v.len(), |i: int| v[i]@)
}

/// The views of a vector of sections that are not stored yet.
pub open spec fn new_section_views(v: Seq<NewSection>) -> Seq<SectionView> {
    Seq::new(v.len(), |i: int| v[i]@)
}

} // verus!
