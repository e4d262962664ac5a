use research_jobs::clock::Timestamp;
use research_jobs::error::ManagerError;
use research_jobs::manager::{new_sections, store_section, Manager, Report};
use research_jobs::api::new_job;
use research_jobs::models::{JobSubmission, NewJob, SseEvent};
use research_jobs::outline::generate_outline;
use research_jobs::registry::Stop;
use research_jobs::status::JobStatus;
use std::cell::Cell;
use std::rc::Rc;
use tokio::sync::broadcast::error::TryRecvError;
use tokio::sync::broadcast::Receiver;

fn stamp() -> Timestamp {
    Timestamp::new(1_704_412_800, 0).unwrap()
}

fn ids(n: usize) -> Vec<String> {
    (0..n).map(|i| format!("section-{i}")).collect()
}

fn submission(depth: i32) -> JobSubmission {
    JobSubmission { topic: "Zero Trust".to_string(), depth }
}

/// A supervisor's handle that remembers whether it was stopped.
#[derive(Clone, Debug)]
struct Handle(Rc<Cell<bool>>);

impl Handle {
    fn new() -> Handle {
        Handle(Rc::new(Cell::new(false)))
    }

    fn was_stopped(&self) -> bool {
        self.0.get()
    }
}

impl Stop for Handle {
    fn stop(&self) {
        self.0.set(true)
    }
}

fn fresh_job(job_id: &str, depth: i32) -> NewJob {
    new_job(job_id.to_string(), submission(depth), stamp())
}

fn start(manager: &mut Manager<Handle>, job_id: &str, depth: i32, count: usize) -> Handle {
    let job = manager.create_job(fresh_job(job_id, depth)).unwrap();
    assert_eq!(job.id, job_id);
    let handle = Handle::new();
    let sections = manager.process_job_with(job_id, ids(count), handle.clone()).unwrap();
    assert_eq!(sections.len(), count);
    assert!(!handle.was_stopped());
    handle
}

/// A manager with one job `job-1` of depth 1, and the handle of its
/// supervisor.
fn supervised() -> (Manager<Handle>, Handle) {
    let mut manager: Manager<Handle> = Manager::new();
    let handle = start(&mut manager, "job-1", 1, 10);
    (manager, handle)
}

/// A manager with one job `job-1` of depth 1.
fn running() -> Manager<Handle> {
    supervised().0
}

/// Everything that waits for a receiver, in order.
fn drain(receiver: &mut Receiver<SseEvent>) -> Vec<SseEvent> {
    let mut events = Vec::new();
    loop {
        match receiver.try_recv() {
            Ok(e) => events.push(e),
            Err(TryRecvError::Empty) | Err(TryRecvError::Closed) => return events,
            Err(TryRecvError::Lagged(n)) => panic!("lagged by {n}"),
        }
    }
}

fn kinds(events: &[SseEvent]) -> Vec<&str> {
    events.iter().map(|e| e.kind.as_str()).collect()
}

fn complete_section(manager: &mut Manager<Handle>, job_id: &str, key: &str) {
    manager.report(job_id, key, Report::Started).unwrap();
    for p in [0, 25, 50, 75, 100] {
        manager.report(job_id, key, Report::Progress(p)).unwrap();
    }
    manager.report(job_id, key, Report::Completed(format!("text of {key}"))).unwrap();
}

#[test]
fn a_created_job_is_submitted_and_waits() {
    let mut manager: Manager<Handle> = Manager::new();
    let job = manager.create_job(fresh_job("job-1", 3)).unwrap();
    assert_eq!(job.id, "job-1");
    assert_eq!(job.topic, "Zero Trust");
    assert_eq!(job.depth, 3);
    assert_eq!(job.created_at, stamp());
    assert_eq!(job.status, "submitted");
    assert_eq!(manager.get_job_status("job-1"), Ok(job));
    assert!(manager.sections("job-1").unwrap().is_empty());
    assert!(!manager.is_active("job-1"));

    // nothing runs yet: there is nothing to cancel, resume or close
    assert_eq!(manager.cancel_job("job-1"), Err(ManagerError::NotFound));
    assert_eq!(manager.resume_job("job-1", Handle::new()), Err(ManagerError::Conflict));
    assert_eq!(manager.finalize_job("job-1"), Err(ManagerError::NotFound));
    assert_eq!(manager.fail_job("job-1", "x"), Err(ManagerError::NotFound));
    assert_eq!(manager.report("job-1", "introduction", Report::Started), Err(ManagerError::NotFound));
    assert_eq!(manager.get_job_status("job-1").unwrap().status, "submitted");

    // its channel is there, and a subscriber that joins now sees the outline
    let mut subscriber = manager.subscribe("job-1").unwrap();
    manager.process_job_with("job-1", ids(14), Handle::new()).unwrap();
    let events = drain(&mut subscriber);
    assert_eq!(kinds(&events), vec!["outline"]);
    assert_eq!(events[0].text.as_ref().unwrap().lines().count(), 14);
}

#[test]
fn processing_needs_a_submitted_job() {
    let (mut manager, first) = supervised();
    let second = Handle::new();
    assert_eq!(
        manager.process_job_with("job-1", ids(10), second.clone()),
        Err(ManagerError::Conflict)
    );
    // a supervisor that is not registered is stopped; the registered one runs on
    assert!(second.was_stopped());
    assert!(!first.was_stopped());
    let third = Handle::new();
    assert_eq!(manager.process_job_with("nope", ids(10), third.clone()), Err(ManagerError::NotFound));
    assert!(third.was_stopped());
    assert_eq!(manager.cancel_job("job-1"), Ok(()));
    assert_eq!(
        manager.process_job_with("job-1", ids(10), Handle::new()),
        Err(ManagerError::Conflict)
    );
    assert!(!manager.is_active("job-1"));

    manager.create_job(fresh_job("job-2", 1)).unwrap();
    assert_eq!(manager.evict_channel("job-2"), Ok(()));
    let fourth = Handle::new();
    assert_eq!(
        manager.process_job_with("job-2", ids(10), fourth.clone()),
        Err(ManagerError::NotFound)
    );
    assert!(fourth.was_stopped());
    assert_eq!(manager.get_job_status("job-2").unwrap().status, "submitted");
}

#[test]
fn sections_without_an_identifier_given_get_the_empty_one() {
    let mut manager: Manager<Handle> = Manager::new();
    manager.create_job(fresh_job("job-1", 1)).unwrap();
    let sections = manager.process_job_with("job-1", ids(3), Handle::new()).unwrap();
    assert_eq!(sections.len(), 10);
    assert_eq!(sections[2].id, "section-2");
    assert_eq!(sections[3].id, "");
    assert_eq!(sections[9].id, "");
    assert_eq!(sections[9].key, "references");
}

#[test]
fn submit_stores_the_job_and_its_sections() {
    let mut manager: Manager<Handle> = Manager::new();
    start(&mut manager, "job-1", 3, 14);

    let stored = manager.get_job_status("job-1").unwrap();
    assert_eq!(stored.status, "processing");
    assert_eq!(stored.topic, "Zero Trust");
    assert_eq!(stored.depth, 3);
    assert_eq!(stored.created_at, stamp());
    assert!(manager.is_active("job-1"));

    let sections = manager.sections("job-1").unwrap();
    assert_eq!(sections.len(), 14);
    let outline = generate_outline(3);
    for (i, section) in sections.iter().enumerate() {
        assert_eq!(section.id, format!("section-{i}"));
        assert_eq!(section.job_id, "job-1");
        assert_eq!(section.key, outline[i].0);
        assert_eq!(section.title, outline[i].1);
        assert_eq!(section.progress, 0);
        assert_eq!(section.status, "pending");
        assert_eq!(section.output_md, "");
    }
}

#[test]
fn a_taken_id_is_refused() {
    let mut manager = running();
    let again = manager.create_job(fresh_job("job-1", 5));
    assert_eq!(again, Err(ManagerError::Conflict));
    let mut odd = fresh_job("job-2", 5);
    odd.status = "processing".to_string();
    assert_eq!(manager.create_job(odd), Err(ManagerError::Conflict));
    assert_eq!(manager.get_job_status("job-2"), Err(ManagerError::NotFound));
    assert!(manager.subscribe("job-2").is_err());
    assert_eq!(manager.sections("job-1").unwrap().len(), 10);
    assert_eq!(manager.get_job_status("job-1").unwrap().depth, 1);
    assert_eq!(manager.cancel_job("job-1"), Ok(()));
}

#[test]
fn processing_draws_fresh_identifiers_for_the_sections() {
    let mut manager: Manager<Handle> = Manager::new();
    manager.create_job(fresh_job("job-1", 1)).unwrap();
    let sections = manager.process_job("job-1", Handle::new()).unwrap();
    assert_eq!(sections.len(), 10);
    assert_eq!(sections, manager.sections("job-1").unwrap());
    let mut ids: Vec<&str> = sections.iter().map(|s| s.id.as_str()).collect();
    assert!(ids.iter().all(|id| id.len() == 36));
    ids.sort();
    ids.dedup();
    assert_eq!(ids.len(), 10);
    let refused = Handle::new();
    assert_eq!(manager.process_job("job-1", refused.clone()), Err(ManagerError::Conflict));
    assert!(refused.was_stopped());
    assert_eq!(manager.process_job("nope", Handle::new()), Err(ManagerError::NotFound));
}

#[test]
fn submit_draws_identifiers_of_the_right_shape() {
    let mut manager: Manager<Handle> = Manager::new();
    let job = manager.submit(submission(2), Handle::new()).unwrap();
    assert_eq!(job.status, "submitted");
    assert_eq!(job.topic, "Zero Trust");
    assert_eq!(manager.get_job_status(&job.id).unwrap().status, "processing");
    assert!(manager.is_active(&job.id));
    let sections = manager.sections(&job.id).unwrap();
    assert_eq!(sections.len(), 12);
    let mut all: Vec<String> = sections.iter().map(|s| s.id.clone()).collect();
    all.push(job.id.clone());
    for id in &all {
        assert_eq!(id.len(), 36);
        for (i, c) in id.chars().enumerate() {
            if i == 8 || i == 13 || i == 18 || i == 23 {
                assert_eq!(c, '-');
            } else {
                assert!(c.is_ascii_digit() || ('a'..='f').contains(&c));
            }
        }
    }
    all.sort();
    all.dedup();
    assert_eq!(all.len(), 13);
    let other = manager.submit(submission(2), Handle::new()).unwrap();
    assert_ne!(other.id, job.id);
    assert!(job.created_at.secs() > 1_600_000_000);
}

#[test]
fn get_status_of_an_unknown_job_is_not_found() {
    let manager = running();
    assert_eq!(manager.get_job_status("nope"), Err(ManagerError::NotFound));
    assert_eq!(manager.sections("nope"), Err(ManagerError::NotFound));
    assert!(!manager.is_active("nope"));
}

#[test]
fn cancel_stops_the_supervisor_marks_the_job_and_publishes_once() {
    let (mut manager, supervisor) = supervised();
    let mut subscriber = manager.subscribe("job-1").unwrap();
    assert_eq!(manager.cancel_job("job-1"), Ok(()));
    assert!(supervisor.was_stopped());
    assert_eq!(manager.get_job_status("job-1").unwrap().status, "cancelled");
    assert!(!manager.is_active("job-1"));

    let events = drain(&mut subscriber);
    assert_eq!(events.len(), 1);
    assert_eq!(
        events[0],
        SseEvent {
            kind: "cancel".to_string(),
            text: Some("Job was cancelled by user".to_string()),
            section_key: None,
            section_title: None,
            progress: None,
        }
    );

    assert_eq!(manager.cancel_job("job-1"), Err(ManagerError::NotFound));
    assert_eq!(manager.cancel_job("nope"), Err(ManagerError::NotFound));
    assert!(drain(&mut subscriber).is_empty());
}

#[test]
fn no_events_of_workers_after_cancel() {
    let mut manager = running();
    let mut subscriber = manager.subscribe("job-1").unwrap();
    manager.report("job-1", "introduction", Report::Started).unwrap();
    manager.cancel_job("job-1").unwrap();
    let before = manager.sections("job-1").unwrap();

    let late = [
        Report::Progress(50),
        Report::Completed("late".to_string()),
        Report::Failed("late".to_string()),
        Report::Started,
    ];
    for report in late {
        assert_eq!(manager.report("job-1", "introduction", report), Err(ManagerError::NotFound));
    }
    assert_eq!(manager.sections("job-1").unwrap(), before);
    assert_eq!(manager.get_job_status("job-1").unwrap().status, "cancelled");

    let events = drain(&mut subscriber);
    assert_eq!(kinds(&events), vec!["worker_start", "cancel"]);
}

#[test]
fn resume_needs_a_cancelled_or_failed_job() {
    let (mut manager, first) = supervised();
    let second = Handle::new();
    assert_eq!(manager.resume_job("job-1", second.clone()), Err(ManagerError::Conflict));
    assert!(second.was_stopped());
    assert_eq!(manager.get_job_status("job-1").unwrap().status, "processing");
    assert_eq!(manager.resume_job("nope", Handle::new()), Err(ManagerError::NotFound));
    // the running supervisor is still the first one
    assert!(!first.was_stopped());
    assert_eq!(manager.cancel_job("job-1"), Ok(()));
    assert!(first.was_stopped());
}

#[test]
fn resume_of_a_complete_job_changes_nothing() {
    let mut manager = running();
    let keys: Vec<String> =
        manager.sections("job-1").unwrap().iter().map(|s| s.key.clone()).collect();
    for key in &keys {
        complete_section(&mut manager, "job-1", key);
    }
    assert_eq!(manager.finalize_job("job-1"), Ok(JobStatus::Complete));
    let sections = manager.sections("job-1").unwrap();
    let mut subscriber = manager.subscribe("job-1").unwrap();

    assert_eq!(manager.resume_job("job-1", Handle::new()), Err(ManagerError::Conflict));
    assert_eq!(manager.get_job_status("job-1").unwrap().status, "complete");
    assert_eq!(manager.sections("job-1").unwrap(), sections);
    assert!(!manager.is_active("job-1"));
    assert!(drain(&mut subscriber).is_empty());
}

#[test]
fn resume_resets_the_sections_and_starts_again() {
    let mut manager = running();
    complete_section(&mut manager, "job-1", "introduction");
    manager.report("job-1", "annexures", Report::Started).unwrap();
    manager.report("job-1", "annexures", Report::Progress(50)).unwrap();
    manager.cancel_job("job-1").unwrap();
    let mut subscriber = manager.subscribe("job-1").unwrap();

    let second = Handle::new();
    let job = manager.resume_job("job-1", second.clone()).unwrap();
    assert_eq!(job.status, "processing");
    assert_eq!(job.id, "job-1");
    assert!(manager.is_active("job-1"));
    for section in manager.sections("job-1").unwrap() {
        assert_eq!(section.progress, 0);
        assert_eq!(section.output_md, "");
        assert_eq!(section.status, "pending");
    }
    let events = drain(&mut subscriber);
    assert_eq!(kinds(&events), vec!["outline"]);

    // only one new supervisor is started
    let third = Handle::new();
    assert_eq!(manager.resume_job("job-1", third.clone()), Err(ManagerError::Conflict));
    assert!(third.was_stopped());
    assert!(!second.was_stopped());
    assert_eq!(manager.cancel_job("job-1"), Ok(()));
    assert!(second.was_stopped());
}

#[test]
fn resume_fails_once_the_channel_is_gone() {
    let mut manager = running();
    manager.cancel_job("job-1").unwrap();
    assert_eq!(manager.evict_channel("job-1"), Ok(()));
    assert_eq!(manager.resume_job("job-1", Handle::new()), Err(ManagerError::NotFound));
    assert_eq!(manager.get_job_status("job-1").unwrap().status, "cancelled");
    assert!(manager.subscribe("job-1").is_err());
}

#[test]
fn a_channel_is_evicted_only_when_the_job_rests() {
    let mut manager = running();
    assert_eq!(manager.evict_channel("job-1"), Err(ManagerError::Conflict));
    assert_eq!(manager.evict_channel("nope"), Err(ManagerError::NotFound));
    manager.cancel_job("job-1").unwrap();
    assert_eq!(manager.evict_channel("job-1"), Ok(()));
    assert_eq!(manager.evict_channel("job-1"), Err(ManagerError::NotFound));
}

#[test]
fn finalize_completes_a_job_whose_sections_are_all_done() {
    let (mut manager, supervisor) = supervised();
    let mut subscriber = manager.subscribe("job-1").unwrap();
    let keys: Vec<String> =
        manager.sections("job-1").unwrap().iter().map(|s| s.key.clone()).collect();
    assert_eq!(keys.len(), 10);
    for key in &keys {
        complete_section(&mut manager, "job-1", key);
    }
    assert_eq!(manager.finalize_job("job-1"), Ok(JobStatus::Complete));
    assert_eq!(manager.get_job_status("job-1").unwrap().status, "complete");
    assert!(!manager.is_active("job-1"));
    // a supervisor that has come to its end is not stopped
    assert!(!supervisor.was_stopped());
    for section in manager.sections("job-1").unwrap() {
        assert_eq!(section.progress, 100);
        assert_eq!(section.status, "complete");
        assert_eq!(section.output_md, format!("text of {}", section.key));
    }
    let events = drain(&mut subscriber);
    assert_eq!(events.len(), 10 * 8 + 1);
    let last = events.last().unwrap();
    assert_eq!(
        *last,
        SseEvent {
            kind: "job_complete".to_string(),
            text: Some("Research completed successfully".to_string()),
            section_key: None,
            section_title: None,
            progress: Some(100),
        }
    );
}

#[test]
fn finalize_twice_is_finalize_once() {
    let mut manager = running();
    let mut subscriber = manager.subscribe("job-1").unwrap();
    let keys: Vec<String> =
        manager.sections("job-1").unwrap().iter().map(|s| s.key.clone()).collect();
    for key in &keys {
        complete_section(&mut manager, "job-1", key);
    }
    assert_eq!(manager.finalize_job("job-1"), Ok(JobStatus::Complete));
    assert_eq!(manager.finalize_job("job-1"), Err(ManagerError::NotFound));
    assert_eq!(manager.finalize_job("nope"), Err(ManagerError::NotFound));
    assert_eq!(manager.get_job_status("job-1").unwrap().status, "complete");
    let events = drain(&mut subscriber);
    let completions = events.iter().filter(|e| e.kind == "job_complete").count();
    assert_eq!(completions, 1);
}

#[test]
fn finalize_fails_a_job_with_an_unfinished_section() {
    let mut manager = running();
    let mut subscriber = manager.subscribe("job-1").unwrap();
    let keys: Vec<String> =
        manager.sections("job-1").unwrap().iter().map(|s| s.key.clone()).collect();
    for key in keys.iter().skip(1) {
        complete_section(&mut manager, "job-1", key);
    }
    manager.report("job-1", &keys[0], Report::Started).unwrap();
    manager.report("job-1", &keys[0], Report::Failed("generator down".to_string())).unwrap();

    assert_eq!(manager.finalize_job("job-1"), Ok(JobStatus::Failed));
    assert_eq!(manager.get_job_status("job-1").unwrap().status, "failed");
    assert!(!manager.is_active("job-1"));
    let sections = manager.sections("job-1").unwrap();
    assert_eq!(sections[0].progress, 0);
    assert_eq!(sections[0].status, "in_progress");

    let events = drain(&mut subscriber);
    assert!(events.iter().all(|e| e.kind != "job_complete"));
    let last = events.last().unwrap();
    assert_eq!(last.kind, "error");
    assert_eq!(last.text.as_deref(), Some("Job ended with unfinished sections"));

    // a failed job may be resumed
    assert!(manager.resume_job("job-1", Handle::new()).is_ok());
    assert_eq!(manager.get_job_status("job-1").unwrap().status, "processing");
}

#[test]
fn a_job_that_fails_as_a_whole_says_why() {
    let (mut manager, supervisor) = supervised();
    let mut subscriber = manager.subscribe("job-1").unwrap();
    assert_eq!(manager.fail_job("job-1", "disk full"), Ok(()));
    assert!(supervisor.was_stopped());
    assert_eq!(manager.get_job_status("job-1").unwrap().status, "failed");
    assert!(!manager.is_active("job-1"));
    let events = drain(&mut subscriber);
    assert_eq!(
        events,
        vec![SseEvent {
            kind: "error".to_string(),
            text: Some("Job processing failed: disk full".to_string()),
            section_key: None,
            section_title: None,
            progress: None,
        }]
    );
    assert_eq!(manager.fail_job("job-1", "again"), Err(ManagerError::NotFound));
    assert_eq!(manager.finalize_job("job-1"), Err(ManagerError::NotFound));
    assert!(manager.resume_job("job-1", Handle::new()).is_ok());
}

#[test]
fn a_successful_run_publishes_rising_progress_up_to_100() {
    let mut manager = running();
    let mut subscriber = manager.subscribe("job-1").unwrap();
    complete_section(&mut manager, "job-1", "topic_chapter_2");
    let events = drain(&mut subscriber);
    assert_eq!(
        kinds(&events),
        vec![
            "worker_start",
            "progress",
            "progress",
            "progress",
            "progress",
            "progress",
            "worker_complete",
            "content"
        ]
    );
    let progress: Vec<i32> = events.iter().map(|e| e.progress.unwrap()).collect();
    assert_eq!(progress, vec![0, 0, 25, 50, 75, 100, 100, 100]);
    for e in &events {
        assert_eq!(e.section_key.as_deref(), Some("topic_chapter_2"));
        assert_eq!(e.section_title.as_deref(), Some("Topic-Specific Chapter 2"));
    }
    assert_eq!(events[7].text.as_deref(), Some("text of topic_chapter_2"));
    assert_eq!(events[6].text, None);
}

#[test]
fn progress_may_not_fall_or_leave_its_range() {
    let mut manager = running();
    let key = "references";
    assert_eq!(manager.report("job-1", key, Report::Progress(10)), Err(ManagerError::Conflict));
    assert_eq!(
        manager.report("job-1", key, Report::Completed("x".to_string())),
        Err(ManagerError::Conflict)
    );
    manager.report("job-1", key, Report::Started).unwrap();
    assert_eq!(manager.report("job-1", key, Report::Started), Err(ManagerError::Conflict));
    manager.report("job-1", key, Report::Progress(50)).unwrap();
    assert_eq!(manager.report("job-1", key, Report::Progress(25)), Err(ManagerError::Conflict));
    assert_eq!(manager.report("job-1", key, Report::Progress(101)), Err(ManagerError::Conflict));
    assert_eq!(manager.report("job-1", key, Report::Progress(-1)), Err(ManagerError::Conflict));
    manager.report("job-1", key, Report::Progress(50)).unwrap();
    let sections = manager.sections("job-1").unwrap();
    let section = sections.iter().find(|s| s.key == key).unwrap();
    assert_eq!(section.progress, 50);
    assert_eq!(section.status, "in_progress");

    assert_eq!(
        manager.report("job-1", "no_such_section", Report::Started),
        Err(ManagerError::NotFound)
    );
    assert_eq!(manager.report("nope", key, Report::Started), Err(ManagerError::NotFound));
}

#[test]
fn a_failed_worker_reports_an_error_and_leaves_its_siblings_alone() {
    let mut manager = running();
    let mut subscriber = manager.subscribe("job-1").unwrap();
    manager.report("job-1", "introduction", Report::Started).unwrap();
    manager.report("job-1", "annexures", Report::Started).unwrap();
    manager.report("job-1", "introduction", Report::Failed("boom".to_string())).unwrap();
    manager.report("job-1", "annexures", Report::Progress(25)).unwrap();
    let events = drain(&mut subscriber);
    assert_eq!(kinds(&events), vec!["worker_start", "worker_start", "error", "progress"]);
    assert_eq!(
        events[2],
        SseEvent {
            kind: "error".to_string(),
            text: Some("boom".to_string()),
            section_key: Some("introduction".to_string()),
            section_title: Some("Introduction".to_string()),
            progress: None,
        }
    );
    assert!(manager.is_active("job-1"));
    assert_eq!(manager.get_job_status("job-1").unwrap().status, "processing");
}

#[test]
fn subscribers_see_only_what_comes_after_them() {
    let mut manager = running();
    manager.report("job-1", "introduction", Report::Started).unwrap();
    let mut late = manager.subscribe("job-1").unwrap();
    assert_eq!(late.try_recv(), Err(TryRecvError::Empty));
    manager.report("job-1", "introduction", Report::Progress(25)).unwrap();
    let mut later = manager.subscribe("job-1").unwrap();
    let seen = drain(&mut late);
    assert_eq!(seen.len(), 1);
    assert_eq!(seen[0].kind, "progress");
    assert_eq!(seen[0].progress, Some(25));
    assert_eq!(later.try_recv(), Err(TryRecvError::Empty));
    assert!(manager.subscribe("nope").is_err());
    assert_eq!(manager.subscribe("nope").err(), Some(ManagerError::NotFound));
}

#[test]
fn publishing_never_waits_for_a_slow_subscriber() {
    let mut manager = running();
    let mut slow = manager.subscribe("job-1").unwrap();
    let mut quick = manager.subscribe("job-1").unwrap();
    manager.report("job-1", "introduction", Report::Started).unwrap();
    assert_eq!(drain(&mut quick).len(), 1);
    for _ in 0..300 {
        manager.report("job-1", "introduction", Report::Progress(10)).unwrap();
        assert_eq!(drain(&mut quick).len(), 1);
    }
    // the slow one has lost the oldest events, and is told so
    assert!(matches!(slow.try_recv(), Err(TryRecvError::Lagged(_))));
    let rest = drain(&mut slow);
    assert!(rest.len() >= 100);
    assert!(rest.len() < 301);
    assert!(rest.iter().all(|e| e.kind == "progress"));
}

#[test]
fn an_evicted_channel_is_closed_for_its_receivers() {
    let mut manager = running();
    let mut subscriber = manager.subscribe("job-1").unwrap();
    manager.cancel_job("job-1").unwrap();
    manager.evict_channel("job-1").unwrap();
    let left = subscriber.try_recv().unwrap();
    assert_eq!(left.kind, "cancel");
    assert_eq!(subscriber.try_recv(), Err(TryRecvError::Closed));
}

#[test]
fn jobs_do_not_touch_each_other() {
    let mut manager = running();
    let other = start(&mut manager, "job-2", 5, 16);
    let mut watcher = manager.subscribe("job-2").unwrap();
    manager.cancel_job("job-1").unwrap();
    assert!(!other.was_stopped());
    assert_eq!(manager.get_job_status("job-2").unwrap().status, "processing");
    assert!(manager.is_active("job-2"));
    assert!(drain(&mut watcher).is_empty());
    assert_eq!(manager.sections("job-2").unwrap().len(), 16);
    manager.attest();
}

#[test]
fn new_sections_follow_the_outline() {
    let outline = generate_outline(1);
    let planned = new_sections("job-9", &outline, &ids(10));
    assert_eq!(planned.len(), 10);
    assert_eq!(planned[2].key, "topic_chapter_1");
    assert_eq!(planned[2].title, "Topic-Specific Chapter 1");
    assert_eq!(planned[2].id, "section-2");
    assert_eq!(planned[2].job_id, "job-9");
    assert_eq!(planned[2].progress, 0);
    assert_eq!(planned[2].status, "pending");
    assert_eq!(planned[2].output_md, "");
    let stored = store_section(planned[2].clone());
    assert_eq!(stored.key, planned[2].key);
    assert_eq!(stored.id, planned[2].id);
    assert_eq!(stored.status, "pending");
}

#[test]
fn a_task_that_supervises_is_aborted_on_cancel() {
    let runtime = tokio::runtime::Builder::new_current_thread().enable_time().build().unwrap();
    let (alive, mut gone) = tokio::sync::oneshot::channel::<()>();
    let task: tokio::task::JoinHandle<()> = runtime.spawn(async move {
        let _alive = alive;
        std::future::pending::<()>().await;
    });

    let mut manager: Manager<tokio::task::JoinHandle<()>> = Manager::new();
    manager.create_job(fresh_job("job-1", 1)).unwrap();
    manager.process_job_with("job-1", ids(10), task).unwrap();
    runtime.block_on(async { tokio::task::yield_now().await });
    assert!(matches!(gone.try_recv(), Err(tokio::sync::oneshot::error::TryRecvError::Empty)));

    assert_eq!(manager.cancel_job("job-1"), Ok(()));
    let ended = runtime.block_on(async {
        tokio::time::timeout(std::time::Duration::from_secs(10), &mut gone).await
    });
    // the task was dropped without having sent anything
    assert!(matches!(ended, Ok(Err(_))));
    assert_eq!(manager.get_job_status("job-1").unwrap().status, "cancelled");
}
