use research_jobs::api::new_job;
use research_jobs::artifacts::generate_artifacts;
use research_jobs::citations::{enhance_citations_with_research, generate_citations};
use research_jobs::clock::Timestamp;
use research_jobs::error::ManagerError;
use research_jobs::manager::Manager;
use research_jobs::models::{Job, JobSubmission};
use research_jobs::registry::Stop;
use research_jobs::worker::Worker;

/// A supervisor's handle that counts how often it was stopped.
struct Counted<'a>(&'a std::cell::Cell<u32>);

impl Stop for Counted<'_> {
    fn stop(&self) {
        self.0.set(self.0.get() + 1)
    }
}

fn worker() -> Worker {
    Worker::new(Job {
        id: "job-1".to_string(),
        topic: "Network Security".to_string(),
        depth: 2,
        created_at: Timestamp::now(),
        status: "processing".to_string(),
    })
}

// Test the enhanced research functionality
#[test]
fn test_constrained_research() {
    println!("Testing constrained research functionality...");
    let results = worker().perform_constrained_research("network security", 5);
    assert_eq!(results.len(), 5);
    assert_eq!(results[0].source_url, "https://arxiv.org/search/?query=network+security");
    for result in &results {
        assert_eq!(result.provenance, vec![result.source_url.clone()]);
        assert!(result.verification_percent >= 70);
    }
}

// Test the artifact generation
#[test]
fn test_artifact_generation() {
    println!("Testing artifact generation functionality...");
    let outline = research_jobs::outline::generate_outline(2);
    let mut count = 0;
    for (key, title) in &outline {
        let artifacts = generate_artifacts("job-1", key, title, "Network Security", 2);
        assert!(!artifacts.is_empty());
        for artifact in &artifacts {
            assert_eq!(artifact.job_id, "job-1");
            assert_eq!(artifact.section_key, *key);
        }
        count += artifacts.len();
    }
    // one for each of summary, introduction and references, two for each
    // chapter and for the annexures
    assert_eq!(count, 3 + 2 * 8 + 2);
}

// Test the enhanced citation verification
#[test]
fn test_enhanced_citations() {
    println!("Testing enhanced citation verification...");
    let citations = generate_citations("topic_chapter_1", "Network Security");
    let enhanced = enhance_citations_with_research(&citations, &vec![Some(true), Some(false)]);
    assert_eq!(enhanced.len(), 2);
    assert_eq!(enhanced[0].provenance_url, citations[0].url);
    assert_eq!(enhanced[0].verification_status, "verified");
    assert_eq!(enhanced[0].claim_support_level, "strong");
    assert_eq!(enhanced[1].provenance_url, citations[1].url);
    assert_eq!(enhanced[1].verification_status, "unverified");
    assert_eq!(enhanced[1].claim_support_level, "unknown");
}

// Test the job cancellation/resumption endpoints
#[test]
fn test_job_resilience_endpoints() {
    println!("Testing job cancellation and resumption endpoints...");
    let (first, second, third) =
        (std::cell::Cell::new(0), std::cell::Cell::new(0), std::cell::Cell::new(0));
    let mut manager: Manager<Counted> = Manager::new();
    let submission = JobSubmission { topic: "Network Security".to_string(), depth: 2 };
    let record = new_job("job-1".to_string(), submission, Timestamp::now());
    manager.create_job(record).unwrap();
    manager.process_job_with("job-1", vec![], Counted(&first)).unwrap();

    assert_eq!(manager.cancel_job("job-1"), Ok(()));
    assert_eq!(manager.get_job_status("job-1").unwrap().status, "cancelled");
    assert_eq!(manager.cancel_job("job-1"), Err(ManagerError::NotFound));
    assert_eq!(first.get(), 1);

    let resumed = manager.resume_job("job-1", Counted(&second)).unwrap();
    assert_eq!(resumed.status, "processing");
    assert_eq!(manager.resume_job("job-1", Counted(&third)), Err(ManagerError::Conflict));
    assert_eq!(third.get(), 1);
    assert_eq!(second.get(), 0);
    assert_eq!(manager.cancel_job("job-1"), Ok(()));
    assert_eq!((first.get(), second.get(), third.get()), (1, 1, 1));
}
