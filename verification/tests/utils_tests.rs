use research_jobs::api::{failure_response, fresh_job, new_job};
use research_jobs::clock::{Timestamp, MAX_SECS, MIN_SECS};
use research_jobs::error::ManagerError;
use research_jobs::events::{
    cancel_event, content_event, error_event, job_complete_event, outline_event, progress_event,
    section_error_event, worker_complete_event, worker_start_event, EventKind,
};
use research_jobs::generation::{
    bearer, first_content, interpret_response, model_or_default, require_key, Choice,
    GenerationError, Message, OpenRouterResponse,
};
use research_jobs::models::{Citation, JobSubmission, SseEvent};
use research_jobs::outline::generate_outline;
use research_jobs::status::JobStatus;
use research_jobs::storage::{backend_for, Backend};
use research_jobs::utils::{
    check_citation_members, deduplicate_citations, format_indian_date, normalize_goi_text,
    validate_citation_format,
};

fn stamp() -> Timestamp {
    Timestamp::new(1_704_412_800, 0).unwrap()
}

fn citation(url: &str, title: &str, publisher: &str) -> Citation {
    Citation {
        doi: None,
        url: url.to_string(),
        title: title.to_string(),
        publisher: publisher.to_string(),
        year: 2024,
        access_date: stamp(),
        page_section: None,
    }
}

fn json(text: &str) -> serde_json::Value {
    serde_json::from_str(text).unwrap()
}

#[test]
fn dates_are_written_day_month_year() {
    assert_eq!(format_indian_date(Timestamp::new(1_684_146_600, 0).unwrap()), "15-May-2023");
    assert_eq!(format_indian_date(stamp()), "05-Jan-2024");
    assert_eq!(format_indian_date(Timestamp::new(0, 0).unwrap()), "01-Jan-1970");
    assert_eq!(format_indian_date(Timestamp::new(-1, 999_999_999).unwrap()), "31-Dec-1969");
    assert_eq!(Timestamp::new(0, 0).unwrap().day_text(), "01-Jan-1970");
}

#[test]
fn timestamps_outside_the_calendar_are_refused() {
    assert!(Timestamp::new(i64::MAX, 0).is_none());
    assert!(Timestamp::new(i64::MIN, 0).is_none());
    assert!(Timestamp::new(0, 2_000_000_000).is_none());
    // the calendar runs from the year -262143 to the year 262142
    assert_eq!(MIN_SECS, -8_334_601_228_800);
    assert_eq!(MAX_SECS, 8_210_266_876_799);
    assert!(Timestamp::new(MIN_SECS, 0).is_some());
    assert!(Timestamp::new(MIN_SECS - 1, 0).is_none());
    assert!(Timestamp::new(MIN_SECS - 1, 999_999_999).is_none());
    assert!(Timestamp::new(MAX_SECS, 999_999_999).is_some());
    assert!(Timestamp::new(MAX_SECS + 1, 0).is_none());
    assert_eq!(format_indian_date(Timestamp::new(MIN_SECS, 0).unwrap()), "01-Jan--262143");
    assert_eq!(format_indian_date(Timestamp::new(MAX_SECS, 0).unwrap()), "31-Dec-+262142");
    // a leap second is written in the last second of a minute only
    assert!(Timestamp::new(59, 1_000_000_000).is_some());
    assert!(Timestamp::new(59, 1_999_999_999).is_some());
    assert!(Timestamp::new(58, 1_000_000_000).is_none());
    assert!(Timestamp::new(60, 1_000_000_000).is_none());
    assert!(Timestamp::new(-1, 1_500_000_000).is_some());
    assert!(Timestamp::new(-2, 1_500_000_000).is_none());
    assert!(Timestamp::new(MAX_SECS, 1_999_999_999).is_some());
    assert!(Timestamp::new(0, 999_999_999).is_some());
    assert!(Timestamp::new(0, u32::MAX).is_none());
    for secs in [-61i64, -60, -1, 0, 1, 59, 60, 119, 86_399, 86_400, 1_704_412_799] {
        let wanted = secs.rem_euclid(60) == 59;
        assert_eq!(Timestamp::new(secs, 1_000_000_000).is_some(), wanted);
    }
    let t = Timestamp::new(12, 34).unwrap();
    assert_eq!(t.secs(), 12);
    assert_eq!(t.nanos(), 34);
    let now = Timestamp::now();
    assert!(now.secs() > 1_600_000_000);
    assert!(now.nanos() < 2_000_000_000);
    assert_eq!(Timestamp::new(now.secs(), now.nanos()), Some(now));
}

#[test]
fn the_house_style_changes_nothing() {
    assert_eq!(normalize_goi_text("Some  Text\n"), "Some  Text\n");
    assert_eq!(normalize_goi_text(""), "");
}

#[test]
fn a_citation_must_be_an_object_with_its_members() {
    let good = json(r#"{"url": "https://a", "title": "T", "publisher": "P", "year": 2024}"#);
    assert_eq!(validate_citation_format(&good), Ok(()));
    let with_doi = json(r#"{"doi": "10.1/x", "title": "T", "publisher": "P", "year": null}"#);
    assert_eq!(validate_citation_format(&with_doi), Ok(()));

    assert_eq!(
        validate_citation_format(&json(r#"["url", "title", "publisher", "year"]"#)),
        Err("Citation must be an object".to_string())
    );
    assert_eq!(
        validate_citation_format(&json(r#""url""#)),
        Err("Citation must be an object".to_string())
    );
    assert_eq!(
        validate_citation_format(&serde_json::Value::Null),
        Err("Citation must be an object".to_string())
    );
    assert_eq!(
        validate_citation_format(&json(r#"{"title": "T", "publisher": "P", "year": 2024}"#)),
        Err("Citation must have either URL or DOI".to_string())
    );
    assert_eq!(
        validate_citation_format(&json(r#"{}"#)),
        Err("Citation must have either URL or DOI".to_string())
    );
    assert_eq!(
        validate_citation_format(&json(r#"{"url": "u", "publisher": "P", "year": 2024}"#)),
        Err("Citation must have a title".to_string())
    );
    assert_eq!(
        validate_citation_format(&json(r#"{"url": "u", "title": "T", "year": 2024}"#)),
        Err("Citation must have a publisher".to_string())
    );
    assert_eq!(
        validate_citation_format(&json(r#"{"url": "u", "title": "T", "publisher": "P"}"#)),
        Err("Citation must have a year".to_string())
    );
    assert_eq!(
        validate_citation_format(&json(r#"{"URL": "u", "title": "T", "publisher": "P", "year": 1}"#)),
        Err("Citation must have either URL or DOI".to_string())
    );
}

#[test]
fn citation_members_are_judged_in_order() {
    assert_eq!(check_citation_members(true, true, false, true, true, true), Ok(()));
    assert_eq!(check_citation_members(true, false, true, true, true, true), Ok(()));
    assert_eq!(
        check_citation_members(false, true, true, true, true, true),
        Err("Citation must be an object".to_string())
    );
    assert_eq!(
        check_citation_members(true, false, false, false, false, false),
        Err("Citation must have either URL or DOI".to_string())
    );
    assert_eq!(
        check_citation_members(true, true, true, false, false, false),
        Err("Citation must have a title".to_string())
    );
    assert_eq!(
        check_citation_members(true, true, true, true, false, false),
        Err("Citation must have a publisher".to_string())
    );
    assert_eq!(
        check_citation_members(true, true, true, true, true, false),
        Err("Citation must have a year".to_string())
    );
}

#[test]
fn repeated_citations_are_removed() {
    let a = citation("https://a", "One", "first");
    let b = citation("https://b", "One", "second");
    let a_again = citation("https://a", "One", "third");
    let c = citation("https://a", "Two", "fourth");
    let unique =
        deduplicate_citations(vec![a.clone(), b.clone(), a_again, c.clone(), b.clone(), a.clone()]);
    assert_eq!(unique, vec![a.clone(), b, c]);
    assert_eq!(deduplicate_citations(vec![]), vec![]);
    assert_eq!(deduplicate_citations(vec![a.clone()]), vec![a]);
    // the key is the address, a hyphen and the title, end to end
    let x = citation("p-q", "r", "x");
    let y = citation("p", "q-r", "y");
    assert_eq!(deduplicate_citations(vec![x.clone(), y]), vec![x]);
}

#[test]
fn statuses_have_names() {
    let all = [
        (JobStatus::Submitted, "submitted"),
        (JobStatus::Processing, "processing"),
        (JobStatus::Complete, "complete"),
        (JobStatus::Cancelled, "cancelled"),
        (JobStatus::Failed, "failed"),
    ];
    for (status, name) in all {
        assert_eq!(status.as_str(), name);
        assert_eq!(JobStatus::parse(name), Some(status));
    }
    assert_eq!(JobStatus::parse("failed: generator down"), Some(JobStatus::Failed));
    assert_eq!(JobStatus::parse("partly failed"), Some(JobStatus::Failed));
    assert_eq!(JobStatus::parse("Failed"), None);
    assert_eq!(JobStatus::parse(""), None);
    assert_eq!(JobStatus::parse("done"), None);
    assert!(JobStatus::Cancelled.is_resumable());
    assert!(JobStatus::Failed.is_resumable());
    assert!(!JobStatus::Submitted.is_resumable());
    assert!(!JobStatus::Processing.is_resumable());
    assert!(!JobStatus::Complete.is_resumable());
}

#[test]
fn events_carry_their_kind_and_fields() {
    let kinds = [
        (EventKind::Outline, "outline"),
        (EventKind::WorkerStart, "worker_start"),
        (EventKind::Progress, "progress"),
        (EventKind::Content, "content"),
        (EventKind::WorkerComplete, "worker_complete"),
        (EventKind::Cancel, "cancel"),
        (EventKind::Error, "error"),
        (EventKind::JobComplete, "job_complete"),
    ];
    for (kind, name) in kinds {
        assert_eq!(kind.as_str(), name);
    }
    let section = |kind: &str, text: Option<&str>, progress: Option<i32>| SseEvent {
        kind: kind.to_string(),
        text: text.map(|t| t.to_string()),
        section_key: Some("k".to_string()),
        section_title: Some("T".to_string()),
        progress,
    };
    assert_eq!(worker_start_event("k", "T"), section("worker_start", None, Some(0)));
    assert_eq!(progress_event("k", "T", 75), section("progress", None, Some(75)));
    assert_eq!(worker_complete_event("k", "T"), section("worker_complete", None, Some(100)));
    assert_eq!(content_event("k", "T", "body"), section("content", Some("body"), Some(100)));
    assert_eq!(section_error_event("k", "T", "bad"), section("error", Some("bad"), None));
    let job = |kind: &str, text: &str, progress: Option<i32>| SseEvent {
        kind: kind.to_string(),
        text: Some(text.to_string()),
        section_key: None,
        section_title: None,
        progress,
    };
    assert_eq!(error_event("bad"), job("error", "bad", None));
    assert_eq!(cancel_event(), job("cancel", "Job was cancelled by user", None));
    assert_eq!(
        job_complete_event(),
        job("job_complete", "Research completed successfully", Some(100))
    );
}

#[test]
fn the_outline_event_lists_the_titles() {
    let event = outline_event(&generate_outline(-2));
    assert_eq!(event.kind, "outline");
    assert_eq!(
        event.text.as_deref(),
        Some("\u{2022} Executive Summary\n\u{2022} Introduction\n\u{2022} Annexures\n\u{2022} References")
    );
    assert_eq!(event.section_key, None);
    assert_eq!(event.progress, None);
    assert_eq!(outline_event(&vec![]).text.as_deref(), Some(""));
    let lines = outline_event(&generate_outline(5)).text.unwrap();
    assert_eq!(lines.lines().count(), 16);
    assert_eq!(lines.lines().nth(13), Some("\u{2022} Topic-Specific Chapter 12"));
}

#[test]
fn errors_have_messages() {
    assert_eq!(ManagerError::NotFound.message(), "not found");
    assert_eq!(ManagerError::Conflict.message(), "conflict");
    assert_eq!(ManagerError::UpstreamFailure.message(), "upstream failure");
    assert_eq!(ManagerError::PersistenceFailure.message(), "persistence failure");
    assert_eq!(ManagerError::Cancelled.message(), "cancelled");
    assert_eq!(failure_response(ManagerError::NotFound), (404, "Job not found".to_string()));
    assert_eq!(
        failure_response(ManagerError::Conflict),
        (409, "Job cannot be resumed in its current state".to_string())
    );
    assert_eq!(failure_response(ManagerError::UpstreamFailure).0, 502);
    assert_eq!(failure_response(ManagerError::PersistenceFailure).0, 500);
    assert_eq!(failure_response(ManagerError::Cancelled).0, 500);
}

#[test]
fn a_new_job_is_named_submitted() {
    let job = new_job(
        "id-1".to_string(),
        JobSubmission { topic: "Zero Trust".to_string(), depth: 4 },
        stamp(),
    );
    assert_eq!(job.id, "id-1");
    assert_eq!(job.topic, "Zero Trust");
    assert_eq!(job.depth, 4);
    assert_eq!(job.created_at, stamp());
    assert_eq!(job.status, "submitted");

    let drawn = fresh_job(JobSubmission { topic: "Zero Trust".to_string(), depth: 4 });
    assert_eq!(drawn.id.len(), 36);
    assert_eq!(drawn.topic, "Zero Trust");
    assert_eq!(drawn.depth, 4);
    assert_eq!(drawn.status, "submitted");
    assert!(drawn.created_at.secs() > 1_600_000_000);
    let again = fresh_job(JobSubmission { topic: "Zero Trust".to_string(), depth: 4 });
    assert_ne!(drawn.id, again.id);
}

#[test]
fn the_backend_follows_the_connection_string() {
    assert_eq!(backend_for("postgres://u@h/db"), Backend::Postgres);
    assert_eq!(backend_for("postgresql://u@h/db"), Backend::Postgres);
    assert_eq!(backend_for("sqlite://data.db"), Backend::Sqlite);
    assert_eq!(backend_for("postgres:/u"), Backend::Sqlite);
    assert_eq!(backend_for("POSTGRES://u"), Backend::Sqlite);
    assert_eq!(backend_for(""), Backend::Sqlite);
}

fn answer(contents: &[&str]) -> OpenRouterResponse {
    OpenRouterResponse {
        choices: contents
            .iter()
            .map(|c| Choice { message: Message { content: Some(c.to_string()) } })
            .collect(),
    }
}

#[test]
fn an_answer_of_the_generator_is_weighed() {
    assert_eq!(
        interpret_response(true, "".to_string(), Some(answer(&["first", "second"]))),
        Ok("first".to_string())
    );
    assert_eq!(
        interpret_response(true, "ignored".to_string(), Some(answer(&[]))),
        Err(GenerationError::NoContent)
    );
    assert_eq!(
        interpret_response(true, "not json".to_string(), None),
        Err(GenerationError::NoContent)
    );
    assert_eq!(
        interpret_response(false, "rate limited".to_string(), Some(answer(&["first"]))),
        Err(GenerationError::Upstream("rate limited".to_string()))
    );
    assert_eq!(first_content(&answer(&["only"])), Some("only".to_string()));
    assert_eq!(first_content(&answer(&[])), None);
    // only the first choice is read: it decides, whatever the others hold
    let mut mixed = answer(&["first", "second"]);
    mixed.choices[1].message.content = None;
    assert_eq!(interpret_response(true, "".to_string(), Some(mixed)), Ok("first".to_string()));
    let mut headless = answer(&["first", "second"]);
    headless.choices[0].message.content = None;
    assert_eq!(first_content(&headless), None);
    assert_eq!(
        interpret_response(true, "".to_string(), Some(headless)),
        Err(GenerationError::NoContent)
    );
    assert_eq!(
        GenerationError::Upstream("rate limited".to_string()).message(),
        "OpenRouter API error: rate limited"
    );
    assert_eq!(GenerationError::NoContent.message(), "No content found in OpenRouter response");
    assert_eq!(
        GenerationError::MissingKey.message(),
        "OPENROUTER_API_KEY environment variable not set"
    );
}

#[test]
fn a_request_to_the_generator_is_prepared() {
    assert_eq!(model_or_default(None), "alibaba/tongyi-deepresearch-30b-a3b");
    assert_eq!(model_or_default(Some("x/y".to_string())), "x/y");
    assert_eq!(require_key(Some("k".to_string())), Ok("k".to_string()));
    assert_eq!(require_key(None), Err(GenerationError::MissingKey));
    assert_eq!(bearer("SECRET"), "Bearer SECRET");
}
