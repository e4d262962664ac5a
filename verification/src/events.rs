//! The vocabulary of progress events and the events themselves.

use vstd::prelude::*;
use crate::models::{EventView, SseEvent};
use crate::text::{join, joined, texts};

verus! {

/// The kinds of progress event.
#[derive(Clone, Copy, Debug, PartialEq, Eq, Structural)]
pub enum EventKind {
    Outline,
    WorkerStart,
    Progress,
    Content,
    WorkerComplete,
    Cancel,
    Error,
    JobComplete,
}

impl EventKind {
    /// The name that an event of this kind carries.
    pub open spec fn name(self) -> Seq<char> {
        match self {
            EventKind::Outline => "outline"@,
            EventKind::WorkerStart => "worker_start"@,
            EventKind::Progress => "progress"@,
            EventKind::Content => "content"@,
            EventKind::WorkerComplete => "worker_complete"@,
            EventKind::Cancel => "cancel"@,
            EventKind::Error => "error"@,
            EventKind::JobComplete => "job_complete"@,
        }
    }

    /// The name that an event of this kind carries.
    pub fn as_str(self) -> (s: &'static str)
        ensures
            s@ == self.name(),
    {
        match self {
            EventKind::Outline => "outline",
            EventKind::WorkerStart => "worker_start",
            EventKind::Progress => "progress",
            EventKind::Content => "content",
            EventKind::WorkerComplete => "worker_complete",
            EventKind::Cancel => "cancel",
            EventKind::Error => "error",
            EventKind::JobComplete => "job_complete",
        }
    }
}

/// One line of the outline text for each entry: a bullet and the title.
pub open spec fn bullet_lines(entries: Seq<(Seq<char>, Seq<char>)>) -> Seq<Seq<char>> {
    Seq::new(entries.len(), |i: int| "\u{2022} "@ + entries[i].1)
}

/// The text of an outline event: the bulleted titles, one to a line.
pub open spec fn outline_text(entries: Seq<(Seq<char>, Seq<char>)>) -> Seq<char> {
    joined(bullet_lines(entries), "\n"@)
}

/// The event that announces a job's outline.
pub open spec fn outline_view(entries: Seq<(Seq<char>, Seq<char>)>) -> EventView {
    EventView {
        kind: EventKind::Outline.name(),
        text: Some(outline_text(entries)),
        section_key: None,
        section_title: None,
        progress: None,
    }
}

/// An event of `kind` about one section, with its progress.
pub open spec fn section_view(
    kind: EventKind,
    key: Seq<char>,
    title: Seq<char>,
    text: Option<Seq<char>>,
    progress: i32,
) -> EventView {
    EventView {
        kind: kind.name(),
        text,
        section_key: Some(key),
        section_title: Some(title),
        progress: Some(progress),
    }
}

/// The event that a worker publishes when it takes up a section.
pub open spec fn worker_start_view(key: Seq<char>, title: Seq<char>) -> EventView {
    section_view(EventKind::WorkerStart, key, title, None, 0)
}

/// The event that reports a section's progress in percent.
pub open spec fn progress_view(key: Seq<char>, title: Seq<char>, progress: i32) -> EventView {
    section_view(EventKind::Progress, key, title, None, progress)
}

/// The event that a worker publishes when its section is done.
pub open spec fn worker_complete_view(key: Seq<char>, title: Seq<char>) -> EventView {
    section_view(EventKind::WorkerComplete, key, title, None, 100)
}

/// The event that carries a finished section's text.
pub open spec fn content_view(key: Seq<char>, title: Seq<char>, content: Seq<char>) -> EventView {
    section_view(EventKind::Content, key, title, Some(content), 100)
}

/// The event that reports a failure of one section's worker.
pub open spec fn section_error_view(
    key: Seq<char>,
    title: Seq<char>,
    message: Seq<char>,
) -> EventView {
    EventView {
        kind: EventKind::Error.name(),
        text: Some(message),
        section_key: Some(key),
        section_title: Some(title),
        progress: None,
    }
}

/// The event that reports a failure of the job as a whole.
pub open spec fn error_view(message: Seq<char>) -> EventView {
    EventView {
        kind: EventKind::Error.name(),
        text: Some(message),
        section_key: None,
        section_title: None,
        progress: None,
    }
}

/// The event that reports a cancellation.
pub open spec fn cancel_view() -> EventView {
    EventView {
        kind: EventKind::Cancel.name(),
        text: Some("Job was cancelled by user"@),
        section_key: None,
        section_title: None,
        progress: None,
    }
}

/// The event that reports a job's completion.
pub open spec fn job_complete_view() -> EventView {
    EventView {
        kind: EventKind::JobComplete.name(),
        text: Some("Research completed successfully"@),
        section_key: None,
        section_title: None,
        progress: Some(100),
    }
}

/// Builds the event that announces a job's outline.
pub fn outline_event(entries: &Vec<(String, String)>) -> (e: SseEvent)
    ensures
        e@ == outline_view(crate::outline::entry_views(entries@)),
{
    let ghost views = crate::outline::entry_views(entries@);
    let mut lines: Vec<String> = Vec::new();
    let mut i: usize = 0;
    while i < entries.len()
        invariant
            i <= entries.len(),
            views == crate::outline::entry_views(entries@),
            texts(lines@) == bullet_lines(views).take(i as int),
        decreases entries.len() - i,
    {
        let mut line = "\u{2022} ".to_string();
        line.append(entries[i].1.as_str());
        let ghost before = lines@;
        lines.push(line);
        assert(texts(lines@) == texts(before).push(line@));
        assert(bullet_lines(views).take(i + 1) == bullet_lines(views).take(i as int).push(
            bullet_lines(views)[i as int],
        ));
        i += 1;
    }
    assert(bullet_lines(views).take(entries.len() as int) == bullet_lines(views));
    SseEvent {
        kind: EventKind::Outline.as_str().to_string(),
        text: Some(join(&lines, "\n")),
        section_key: None,
        section_title: None,
        progress: None,
    }
}

/// Builds the event that a worker publishes when it takes up a section.
pub fn worker_start_event(key: &str, title: &str) -> (e: SseEvent)
    ensures
        e@ == worker_start_view(key@, title@),
{
    SseEvent {
        kind: EventKind::WorkerStart.as_str().to_string(),
        text: None,
        section_key: Some(key.to_string()),
        section_title: Some(title.to_string()),
        progress: Some(0),
    }
}

/// Builds the event that reports a section's progress in percent.
pub fn progress_event(key: &str, title: &str, progress: i32) -> (e: SseEvent)
    ensures
        e@ == progress_view(key@, title@, progress),
{
    SseEvent {
        kind: EventKind::Progress.as_str().to_string(),
        text: None,
        section_key: Some(key.to_string()),
        section_title: Some(title.to_string()),
        progress: Some(progress),
    }
}

/// Builds the event that a worker publishes when its section is done.
pub fn worker_complete_event(key: &str, title: &str) -> (e: SseEvent)
    ensures
        e@ == worker_complete_view(key@, title@),
{
    SseEvent {
        kind: EventKind::WorkerComplete.as_str().to_string(),
        text: None,
        section_key: Some(key.to_string()),
        section_title: Some(title.to_string()),
        progress: Some(100),
    }
}

/// Builds the event that carries a finished section's text.
pub fn content_event(key: &str, title: &str, content: &str) -> (e: SseEvent)
    ensures
        e@ == content_view(key@, title@, content@),
{
    SseEvent {
        kind: EventKind::Content.as_str().to_string(),
        text: Some(content.to_string()),
        section_key: Some(key.to_string()),
        section_title: Some(title.to_string()),
        progress: Some(100),
    }
}

/// Builds the event that reports a failure of one section's worker.
pub fn section_error_event(key: &str, title: &str, message: &str) -> (e: SseEvent)
    ensures
        e@ == section_error_view(key@, title@, message@),
{
    SseEvent {
        kind: EventKind::Error.as_str().to_string(),
        text: Some(message.to_string()),
        section_key: Some(key.to_string()),
        section_title: Some(title.to_string()),
        progress: None,
    }
}

/// Builds the event that reports a failure of the job as a whole.
pub fn error_event(message: &str) -> (e: SseEvent)
    ensures
        e@ == error_view(message@),
{
    SseEvent {
        kind: EventKind::Error.as_str().to_string(),
        text: Some(message.to_string()),
        section_key: None,
        section_title: None,
        progress: None,
    }
}

/// Builds the event that reports a cancellation.
pub fn cancel_event() -> (e: SseEvent)
    ensures
        e@ == cancel_view(),
{
    SseEvent {
        kind: EventKind::Cancel.as_str().to_string(),
        text: Some("Job was cancelled by user".to_string()),
        section_key: None,
        section_title: None,
        progress: None,
    }
}

/// Builds the event that reports a job's completion.
pub fn job_complete_event() -> (e: SseEvent)
    ensures
        e@ == job_complete_view(),
{
    SseEvent {
        kind: EventKind::JobComplete.as_str().to_string(),
        text: Some("Research completed successfully".to_string()),
        section_key: None,
        section_title: None,
        progress: Some(100),
    }
}

} // verus!
