//! The life of a job as a state machine over the records, the registry of
//! running jobs and the event channels, and what holds of every state that
//! this machine can reach.

use vstd::prelude::*;
use crate::bus::{ChannelView, CHANNEL_CAPACITY};
use crate::clock::Timestamp;
use crate::error::ManagerError;
use crate::events::{
    cancel_view, content_view, error_view, job_complete_view, outline_view, progress_view,
    section_error_view, worker_complete_view, worker_start_view,
};
use crate::models::{EventView, JobView, SectionView};
use crate::outline::outline;
use crate::status::{complete_name, in_progress_name, pending_name, JobStatus};

verus! {

/// A job with its sections, as the orchestration core sees it.
pub struct JobState {
    pub id: Seq<char>,
    pub topic: Seq<char>,
    pub depth: i32,
    pub created_at: Timestamp,
    pub status: JobStatus,
    pub sections: Seq<SectionView>,
}

impl JobState {
    /// The job record as it is shown to callers.
    pub open spec fn job_view(self) -> JobView {
        JobView {
            id: self.id,
            topic: self.topic,
            depth: self.depth,
            created_at: self.created_at,
            status: self.status.name(),
        }
    }
}

/// The whole state of the orchestration core.
pub struct SystemState<H> {
    /// The stored jobs, by id.
    pub jobs: Map<Seq<char>, JobState>,
    /// The registry of running jobs: the handle of each job's supervisor.
    pub active: Map<Seq<char>, H>,
    /// The channel of each job that has one, with the capacity it was
    /// opened with and every event sent on it.
    pub channels: Map<Seq<char>, ChannelView>,
}

/// The text of the event that closes a job some of whose sections were not
/// produced.
pub open spec fn unfinished_text() -> Seq<char> {
    "Job ended with unfinished sections"@
}

/// Whether the section at `i` has the key `key`.
pub open spec fn has_key(sections: Seq<SectionView>, key: Seq<char>, i: int) -> bool {
    0 <= i < sections.len() && sections[i].key == key
}

/// Whether some section has the key `key`.
pub open spec fn contains_section(sections: Seq<SectionView>, key: Seq<char>) -> bool {
    exists|i: int| has_key(sections, key, i)
}

/// Position of the section with the key `key`.
pub open spec fn index_of_key(sections: Seq<SectionView>, key: Seq<char>) -> int {
    choose|i: int| has_key(sections, key, i)
}

/// No two sections share a key.
pub open spec fn keys_unique(sections: Seq<SectionView>) -> bool {
    forall|i: int, j: int|
        0 <= i < j < sections.len() ==> (#[trigger] sections[i]).key != (#[trigger] sections[j]).key
}

/// Every section has a progress from 0 to 100: a pending section 0, a
/// complete one 100.
pub open spec fn progress_sound(sections: Seq<SectionView>) -> bool {
    forall|i: int|
        0 <= i < sections.len() ==> {
            &&& 0 <= (#[trigger] sections[i]).progress <= 100
            &&& sections[i].status == pending_name() ==> sections[i].progress == 0
            &&& sections[i].status == complete_name() ==> sections[i].progress == 100
        }
}

/// Every section is complete.
pub open spec fn all_complete(sections: Seq<SectionView>) -> bool {
    forall|i: int| 0 <= i < sections.len() ==> (#[trigger] sections[i]).status == complete_name()
}

/// A section as it is first stored: pending, at progress 0, without text.
pub open spec fn initial_section(
    job_id: Seq<char>,
    entry: (Seq<char>, Seq<char>),
    section_id: Seq<char>,
) -> SectionView {
    SectionView {
        id: section_id,
        job_id,
        key: entry.0,
        title: entry.1,
        progress: 0,
        status: pending_name(),
        output_md: Seq::empty(),
    }
}

/// The `i`-th of the identifiers given; where fewer were given, the empty
/// one.
pub open spec fn id_at(ids: Seq<Seq<char>>, i: int) -> Seq<char> {
    if 0 <= i < ids.len() {
        ids[i]
    } else {
        Seq::empty()
    }
}

/// The sections of a new job: one for each outline entry, in order, each
/// under the identifier of its position.
pub open spec fn initial_sections(
    job_id: Seq<char>,
    entries: Seq<(Seq<char>, Seq<char>)>,
    section_ids: Seq<Seq<char>>,
) -> Seq<SectionView> {
    Seq::new(entries.len(), |i: int| initial_section(job_id, entries[i], id_at(section_ids, i)))
}

/// A section put back to its first state, for a new run.
pub open spec fn reset_section(s: SectionView) -> SectionView {
    SectionView { progress: 0, status: pending_name(), output_md: Seq::empty(), ..s }
}

/// All sections put back to their first state.
pub open spec fn reset_sections(sections: Seq<SectionView>) -> Seq<SectionView> {
    Seq::new(sections.len(), |i: int| reset_section(sections[i]))
}

/// The channels after `event` was sent for `job_id`. Without a channel
/// nothing is sent.
pub open spec fn emit(
    channels: Map<Seq<char>, ChannelView>,
    job_id: Seq<char>,
    event: EventView,
) -> Map<Seq<char>, ChannelView> {
    if channels.contains_key(job_id) {
        channels.insert(job_id, channels[job_id].published(event))
    } else {
        channels
    }
}

/// Everything ever published for `job_id`; nothing if it has no channel.
pub open spec fn history<H>(s: SystemState<H>, job_id: Seq<char>) -> Seq<EventView> {
    if s.channels.contains_key(job_id) {
        s.channels[job_id].sent
    } else {
        Seq::empty()
    }
}

/// What holds of every state that the core can reach.
///
/// A job in the registry is stored, is processing and has a channel. A
/// channel belongs to a stored job and was opened with the capacity of a
/// job's channel. A job is stored under its own id, its
/// sections have distinct keys and sound progress, and if it is complete
/// then so is every one of its sections.
pub open spec fn consistent<H>(s: SystemState<H>) -> bool {
    &&& forall|id: Seq<char>| #[trigger]
        s.active.contains_key(id) ==> {
            &&& s.jobs.contains_key(id)
            &&& s.jobs[id].status == JobStatus::Processing
            &&& s.channels.contains_key(id)
        }
    &&& forall|id: Seq<char>| #[trigger]
        s.channels.contains_key(id) ==> {
            &&& s.jobs.contains_key(id)
            &&& s.channels[id].capacity == CHANNEL_CAPACITY
        }
    &&& forall|id: Seq<char>| #[trigger]
        s.jobs.contains_key(id) ==> {
            &&& s.jobs[id].id == id
            &&& keys_unique(s.jobs[id].sections)
            &&& progress_sound(s.jobs[id].sections)
            &&& s.jobs[id].status == JobStatus::Complete ==> all_complete(s.jobs[id].sections)
        }
}

/// The state in which nothing was ever submitted.
pub open spec fn empty_state<H>() -> SystemState<H> {
    SystemState { jobs: Map::empty(), active: Map::empty(), channels: Map::empty() }
}

// ---------------------------------------------------------------- create

/// Why the creation of a job is refused, if it is: the record is not named
/// submitted, or its id is taken.
pub open spec fn create_error<H>(s: SystemState<H>, job: JobView) -> Option<ManagerError> {
    if job.status != JobStatus::Submitted.name() || s.jobs.contains_key(job.id) {
        Some(ManagerError::Conflict)
    } else {
        None
    }
}

/// The state after a job was created: it is stored as submitted, without
/// sections yet, and has a fresh channel of the capacity of a job's
/// channel.
pub open spec fn created<H>(s: SystemState<H>, job: JobView) -> SystemState<H> {
    if create_error(s, job) is Some {
        s
    } else {
        SystemState {
            jobs: s.jobs.insert(
                job.id,
                JobState {
                    id: job.id,
                    topic: job.topic,
                    depth: job.depth,
                    created_at: job.created_at,
                    status: JobStatus::Submitted,
                    sections: Seq::empty(),
                },
            ),
            active: s.active,
            channels: s.channels.insert(job.id, ChannelView::fresh()),
        }
    }
}

// --------------------------------------------------------------- process

/// Why the processing of a job is refused, if it is: the job is absent; or
/// it is not a submitted one; or its channel is gone.
pub open spec fn process_error<H>(s: SystemState<H>, job_id: Seq<char>) -> Option<ManagerError> {
    if !s.jobs.contains_key(job_id) {
        Some(ManagerError::NotFound)
    } else if s.jobs[job_id].status != JobStatus::Submitted {
        Some(ManagerError::Conflict)
    } else if !s.channels.contains_key(job_id) {
        Some(ManagerError::NotFound)
    } else {
        None
    }
}

/// The state after the processing of a submitted job began: its outline
/// was published, it is stored as processing with one pending section for
/// each outline entry, and its supervisor is registered.
pub open spec fn processed<H>(
    s: SystemState<H>,
    job_id: Seq<char>,
    section_ids: Seq<Seq<char>>,
    handle: H,
) -> SystemState<H> {
    if process_error(s, job_id) is Some {
        s
    } else {
        let job = s.jobs[job_id];
        let entries = outline(job.depth as int);
        SystemState {
            jobs: s.jobs.insert(
                job_id,
                JobState {
                    status: JobStatus::Processing,
                    sections: initial_sections(job_id, entries, section_ids),
                    ..job
                },
            ),
            active: s.active.insert(job_id, handle),
            channels: emit(s.channels, job_id, outline_view(entries)),
        }
    }
}

// ---------------------------------------------------------------- submit

/// The record of a new job: the submission under an id and an instant,
/// named submitted.
pub open spec fn new_job_view(
    job_id: Seq<char>,
    topic: Seq<char>,
    depth: i32,
    created_at: Timestamp,
) -> JobView {
    JobView { id: job_id, topic, depth, created_at, status: JobStatus::Submitted.name() }
}

/// The state after a submission: the job was created and its processing
/// began. A submission under an id that is taken changes nothing.
pub open spec fn submitted<H>(
    s: SystemState<H>,
    job_id: Seq<char>,
    topic: Seq<char>,
    depth: i32,
    created_at: Timestamp,
    section_ids: Seq<Seq<char>>,
    handle: H,
) -> SystemState<H> {
    let job = new_job_view(job_id, topic, depth, created_at);
    if create_error(s, job) is Some {
        s
    } else {
        processed(created(s, job), job_id, section_ids, handle)
    }
}

// ---------------------------------------------------------------- cancel

/// Why a cancellation is refused, if it is: the job has no registry entry.
pub open spec fn cancel_error<H>(s: SystemState<H>, job_id: Seq<char>) -> Option<ManagerError> {
    if !s.active.contains_key(job_id) {
        Some(ManagerError::NotFound)
    } else {
        None
    }
}

/// The state after a cancellation: the job is cancelled, its registry entry
/// is gone and the cancel event was published.
pub open spec fn cancelled<H>(s: SystemState<H>, job_id: Seq<char>) -> SystemState<H> {
    if cancel_error(s, job_id) is Some {
        s
    } else {
        SystemState {
            jobs: s.jobs.insert(
                job_id,
                JobState { status: JobStatus::Cancelled, ..s.jobs[job_id] },
            ),
            active: s.active.remove(job_id),
            channels: emit(s.channels, job_id, cancel_view()),
        }
    }
}

// ---------------------------------------------------------------- resume

/// Why a resumption is refused, if it is: the job is absent; or it is
/// neither cancelled nor failed; or its channel is gone.
pub open spec fn resume_error<H>(s: SystemState<H>, job_id: Seq<char>) -> Option<ManagerError> {
    if !s.jobs.contains_key(job_id) {
        Some(ManagerError::NotFound)
    } else if !s.jobs[job_id].status.resumable() {
        Some(ManagerError::Conflict)
    } else if !s.channels.contains_key(job_id) {
        Some(ManagerError::NotFound)
    } else {
        None
    }
}

/// The state after a resumption: every section is back at progress 0
/// without text, the job is processing, its new supervisor is registered
/// and its outline was published again on the channel it already had.
pub open spec fn resumed<H>(s: SystemState<H>, job_id: Seq<char>, handle: H) -> SystemState<H> {
    if resume_error(s, job_id) is Some {
        s
    } else {
        let job = s.jobs[job_id];
        SystemState {
            jobs: s.jobs.insert(
                job_id,
                JobState {
                    status: JobStatus::Processing,
                    sections: reset_sections(job.sections),
                    ..job
                },
            ),
            active: s.active.insert(job_id, handle),
            channels: emit(s.channels, job_id, outline_view(outline(job.depth as int))),
        }
    }
}

// ------------------------------------------------------------------ fail

/// The text of the event that reports that processing a job failed for
/// `cause`.
pub open spec fn failure_text(cause: Seq<char>) -> Seq<char> {
    "Job processing failed: "@ + cause
}

/// Why the failing of a job is refused, if it is: the job has no registry
/// entry.
pub open spec fn fail_error<H>(s: SystemState<H>, job_id: Seq<char>) -> Option<ManagerError> {
    if !s.active.contains_key(job_id) {
        Some(ManagerError::NotFound)
    } else {
        None
    }
}

/// The state after a running job failed as a whole: the job is failed, its
/// registry entry is gone and an error event with the cause was published.
pub open spec fn failed<H>(s: SystemState<H>, job_id: Seq<char>, cause: Seq<char>) -> SystemState<
    H,
> {
    if fail_error(s, job_id) is Some {
        s
    } else {
        SystemState {
            jobs: s.jobs.insert(job_id, JobState { status: JobStatus::Failed, ..s.jobs[job_id] }),
            active: s.active.remove(job_id),
            channels: emit(s.channels, job_id, error_view(failure_text(cause))),
        }
    }
}

// -------------------------------------------------------------- finalize

/// Why a finalization is refused, if it is: the job has no registry entry.
pub open spec fn finalize_error<H>(s: SystemState<H>, job_id: Seq<char>) -> Option<ManagerError> {
    if !s.active.contains_key(job_id) {
        Some(ManagerError::NotFound)
    } else {
        None
    }
}

/// The status in which a finalization leaves a job: complete if every
/// section is complete, failed otherwise.
pub open spec fn final_status(sections: Seq<SectionView>) -> JobStatus {
    if all_complete(sections) {
        JobStatus::Complete
    } else {
        JobStatus::Failed
    }
}

/// The event that a finalization publishes.
pub open spec fn final_event(sections: Seq<SectionView>) -> EventView {
    if all_complete(sections) {
        job_complete_view()
    } else {
        error_view(unfinished_text())
    }
}

/// The state after a finalization: the job has its final status, its
/// registry entry is gone and the closing event was published.
pub open spec fn finalized<H>(s: SystemState<H>, job_id: Seq<char>) -> SystemState<H> {
    if finalize_error(s, job_id) is Some {
        s
    } else {
        let job = s.jobs[job_id];
        SystemState {
            jobs: s.jobs.insert(
                job_id,
                JobState { status: final_status(job.sections), ..job },
            ),
            active: s.active.remove(job_id),
            channels: emit(s.channels, job_id, final_event(job.sections)),
        }
    }
}

// -------------------------------------------------------------- sections

/// One of the things a section's worker reports.
pub enum WorkerReport {
    /// The worker took the section up.
    Started,
    /// The section is so many percent done.
    Progress(i32),
    /// The section's text was produced.
    Completed(Seq<char>),
    /// The worker failed, with a message.
    Failed(Seq<char>),
}

/// Whether a section admits a report: a start needs a pending section; a
/// progress needs a section in progress and a percentage that is at most
/// 100 and not below the section's; a completion or a failure needs a
/// section in progress.
pub open spec fn admits(section: SectionView, report: WorkerReport) -> bool {
    match report {
        WorkerReport::Started => section.status == pending_name(),
        WorkerReport::Progress(p) => section.status == in_progress_name() && section.progress <= p
            <= 100,
        _ => section.status == in_progress_name(),
    }
}

/// Why a worker's report is refused, if it is: the job has no registry
/// entry or no such section; or the section does not admit the report.
pub open spec fn report_error<H>(
    s: SystemState<H>,
    job_id: Seq<char>,
    key: Seq<char>,
    report: WorkerReport,
) -> Option<ManagerError> {
    if !s.active.contains_key(job_id) || !s.jobs.contains_key(job_id) || !contains_section(
        s.jobs[job_id].sections,
        key,
    ) {
        Some(ManagerError::NotFound)
    } else if !admits(
        s.jobs[job_id].sections[index_of_key(s.jobs[job_id].sections, key)],
        report,
    ) {
        Some(ManagerError::Conflict)
    } else {
        None
    }
}

/// The section after an accepted report.
pub open spec fn section_after(section: SectionView, report: WorkerReport) -> SectionView {
    match report {
        WorkerReport::Started => SectionView { status: in_progress_name(), ..section },
        WorkerReport::Progress(p) => SectionView { progress: p, ..section },
        WorkerReport::Completed(content) => SectionView {
            progress: 100,
            status: complete_name(),
            output_md: content,
            ..section
        },
        WorkerReport::Failed(_) => section,
    }
}

/// The events that an accepted report publishes, in order.
pub open spec fn report_events(section: SectionView, report: WorkerReport) -> Seq<EventView> {
    match report {
        WorkerReport::Started => seq![worker_start_view(section.key, section.title)],
        WorkerReport::Progress(p) => seq![progress_view(section.key, section.title, p)],
        WorkerReport::Completed(content) => seq![
            worker_complete_view(section.key, section.title),
            content_view(section.key, section.title, content),
        ],
        WorkerReport::Failed(message) => seq![
            section_error_view(section.key, section.title, message),
        ],
    }
}

/// The channels after `events` were published for `job_id`, in order.
pub open spec fn emit_all(
    channels: Map<Seq<char>, ChannelView>,
    job_id: Seq<char>,
    events: Seq<EventView>,
) -> Map<Seq<char>, ChannelView>
    decreases events.len(),
{
    if events.len() == 0 {
        channels
    } else {
        emit(emit_all(channels, job_id, events.drop_last()), job_id, events.last())
    }
}

/// The state after a worker's report: an accepted report changes its
/// section and publishes its events; a refused one changes nothing.
pub open spec fn reported<H>(
    s: SystemState<H>,
    job_id: Seq<char>,
    key: Seq<char>,
    report: WorkerReport,
) -> SystemState<H> {
    if report_error(s, job_id, key, report) is Some {
        s
    } else {
        let job = s.jobs[job_id];
        let i = index_of_key(job.sections, key);
        SystemState {
            jobs: s.jobs.insert(
                job_id,
                JobState {
                    sections: job.sections.update(i, section_after(job.sections[i], report)),
                    ..job
                },
            ),
            active: s.active,
            channels: emit_all(s.channels, job_id, report_events(job.sections[i], report)),
        }
    }
}

// ----------------------------------------------------------------- evict

/// Why the eviction of a job's channel is refused, if it is: there is no
/// channel; or the job is still running.
pub open spec fn evict_error<H>(s: SystemState<H>, job_id: Seq<char>) -> Option<ManagerError> {
    if !s.channels.contains_key(job_id) {
        Some(ManagerError::NotFound)
    } else if s.active.contains_key(job_id) {
        Some(ManagerError::Conflict)
    } else {
        None
    }
}

/// The state after a job's channel was evicted.
pub open spec fn evicted<H>(s: SystemState<H>, job_id: Seq<char>) -> SystemState<H> {
    if evict_error(s, job_id) is Some {
        s
    } else {
        SystemState { channels: s.channels.remove(job_id), ..s }
    }
}

// ----------------------------------------------------------------- steps

/// One operation of the core.
pub enum Step<H> {
    Create { job: JobView },
    Process { job_id: Seq<char>, section_ids: Seq<Seq<char>>, handle: H },
    Cancel { job_id: Seq<char> },
    Resume { job_id: Seq<char>, handle: H },
    Finalize { job_id: Seq<char> },
    Fail { job_id: Seq<char>, cause: Seq<char> },
    Report { job_id: Seq<char>, key: Seq<char>, report: WorkerReport },
    Evict { job_id: Seq<char> },
}

/// The state after one operation.
pub open spec fn after<H>(s: SystemState<H>, step: Step<H>) -> SystemState<H> {
    match step {
        Step::Create { job } => created(s, job),
        Step::Process { job_id, section_ids, handle } => processed(s, job_id, section_ids, handle),
        Step::Cancel { job_id } => cancelled(s, job_id),
        Step::Resume { job_id, handle } => resumed(s, job_id, handle),
        Step::Finalize { job_id } => finalized(s, job_id),
        Step::Fail { job_id, cause } => failed(s, job_id, cause),
        Step::Report { job_id, key, report } => reported(s, job_id, key, report),
        Step::Evict { job_id } => evicted(s, job_id),
    }
}

/// The state after a run of operations, in order.
pub open spec fn after_all<H>(s: SystemState<H>, steps: Seq<Step<H>>) -> SystemState<H>
    decreases steps.len(),
{
    if steps.len() == 0 {
        s
    } else {
        after(after_all(s, steps.drop_last()), steps.last())
    }
}

// ------------------------------------------------------------------ laws

/// The three section states have three different names.
pub proof fn lemma_section_names_differ()
    ensures
        pending_name() != in_progress_name(),
        pending_name() != complete_name(),
        in_progress_name() != complete_name(),
{
    reveal_strlit("pending");
    reveal_strlit("in_progress");
    reveal_strlit("complete");
    assert(pending_name()[0] == 'p');
    assert(in_progress_name()[0] == 'i');
}

/// With distinct keys, the section found under a key is the one at any
/// position that has the key.
pub proof fn lemma_index_of_key(sections: Seq<SectionView>, key: Seq<char>, i: int)
    requires
        keys_unique(sections),
        has_key(sections, key, i),
    ensures
        contains_section(sections, key),
        index_of_key(sections, key) == i,
{
}

/// Publishing creates no channel and removes none, leaves the channels of
/// other jobs as they were, and leaves the job's own channel its capacity.
pub proof fn lemma_emit_all_frame(
    channels: Map<Seq<char>, ChannelView>,
    job_id: Seq<char>,
    events: Seq<EventView>,
)
    ensures
        emit_all(channels, job_id, events).dom() == channels.dom(),
        forall|other: Seq<char>|
            other != job_id && channels.contains_key(other) ==> #[trigger] emit_all(
                channels,
                job_id,
                events,
            )[other] == channels[other],
        channels.contains_key(job_id) ==> emit_all(channels, job_id, events)[job_id].capacity
            == channels[job_id].capacity,
    decreases events.len(),
{
    if events.len() > 0 {
        lemma_emit_all_frame(channels, job_id, events.drop_last());
    }
}

/// Publishing one event, or two in a row, as single steps.
pub proof fn lemma_emit_all_unfold(
    channels: Map<Seq<char>, ChannelView>,
    job_id: Seq<char>,
    first: EventView,
    second: EventView,
)
    ensures
        emit_all(channels, job_id, seq![first]) == emit(channels, job_id, first),
        emit_all(channels, job_id, seq![first, second]) == emit(
            emit(channels, job_id, first),
            job_id,
            second,
        ),
{
    reveal_with_fuel(emit_all, 3);
}

/// The empty state is consistent.
pub proof fn lemma_empty_consistent<H>()
    ensures
        consistent(empty_state::<H>()),
{
}

/// The creation of a job leaves a consistent state consistent.
pub proof fn lemma_create_preserves<H>(s: SystemState<H>, job: JobView)
    requires
        consistent(s),
    ensures
        consistent(created(s, job)),
{
}

/// The start of a job's processing leaves a consistent state consistent.
pub proof fn lemma_process_preserves<H>(
    s: SystemState<H>,
    job_id: Seq<char>,
    section_ids: Seq<Seq<char>>,
    handle: H,
)
    requires
        consistent(s),
    ensures
        consistent(processed(s, job_id, section_ids, handle)),
{
    if process_error(s, job_id) is None {
        let depth = s.jobs[job_id].depth;
        let entries = outline(depth as int);
        let sections = initial_sections(job_id, entries, section_ids);
        lemma_section_names_differ();
        assert(keys_unique(sections)) by {
            assert forall|i: int, j: int| 0 <= i < j < sections.len() implies (
            #[trigger] sections[i]).key != (#[trigger] sections[j]).key by {
                crate::outline::lemma_outline_keys_distinct(depth as int, i, j);
            }
        }
    }
}

/// A submission leaves a consistent state consistent, and leaves the job
/// processing, registered, and with a channel of the capacity of a job's
/// channel on which exactly its outline was published.
pub proof fn lemma_submit_preserves<H>(
    s: SystemState<H>,
    job_id: Seq<char>,
    topic: Seq<char>,
    depth: i32,
    created_at: Timestamp,
    section_ids: Seq<Seq<char>>,
    handle: H,
)
    requires
        consistent(s),
    ensures
        consistent(submitted(s, job_id, topic, depth, created_at, section_ids, handle)),
        !s.jobs.contains_key(job_id) ==> ({
            let t = submitted(s, job_id, topic, depth, created_at, section_ids, handle);
            &&& t.jobs.contains_key(job_id)
            &&& t.jobs[job_id].status == JobStatus::Processing
            &&& t.jobs[job_id].sections == initial_sections(
                job_id,
                outline(depth as int),
                section_ids,
            )
            &&& t.active.contains_key(job_id)
            &&& t.active[job_id] == handle
            &&& t.channels.contains_key(job_id)
            &&& t.channels[job_id].capacity == CHANNEL_CAPACITY
            &&& history(t, job_id) == seq![outline_view(outline(depth as int))]
        }),
{
    let job = new_job_view(job_id, topic, depth, created_at);
    lemma_process_preserves(created(s, job), job_id, section_ids, handle);
}

/// A cancellation leaves a consistent state consistent.
pub proof fn lemma_cancel_preserves<H>(s: SystemState<H>, job_id: Seq<char>)
    requires
        consistent(s),
    ensures
        consistent(cancelled(s, job_id)),
{
}

/// The failing of a job leaves a consistent state consistent.
pub proof fn lemma_fail_preserves<H>(s: SystemState<H>, job_id: Seq<char>, cause: Seq<char>)
    requires
        consistent(s),
    ensures
        consistent(failed(s, job_id, cause)),
{
}

/// A resumption leaves a consistent state consistent.
pub proof fn lemma_resume_preserves<H>(s: SystemState<H>, job_id: Seq<char>, handle: H)
    requires
        consistent(s),
    ensures
        consistent(resumed(s, job_id, handle)),
{
    if resume_error(s, job_id) is None {
        let t = resumed(s, job_id, handle);
        lemma_section_names_differ();
        assert forall|id: Seq<char>| #[trigger] t.jobs.contains_key(id) implies {
            &&& t.jobs[id].id == id
            &&& keys_unique(t.jobs[id].sections)
            &&& progress_sound(t.jobs[id].sections)
            &&& t.jobs[id].status == JobStatus::Complete ==> all_complete(t.jobs[id].sections)
        } by {}
        assert forall|id: Seq<char>| #[trigger] t.active.contains_key(id) implies {
            &&& t.jobs.contains_key(id)
            &&& t.jobs[id].status == JobStatus::Processing
            &&& t.channels.contains_key(id)
        } by {}
        assert forall|id: Seq<char>| #[trigger]
            t.channels.contains_key(id) implies t.jobs.contains_key(id) by {}
    }
}

/// A finalization leaves a consistent state consistent.
pub proof fn lemma_finalize_preserves<H>(s: SystemState<H>, job_id: Seq<char>)
    requires
        consistent(s),
    ensures
        consistent(finalized(s, job_id)),
{
}

/// A worker's report leaves a consistent state consistent.
pub proof fn lemma_report_preserves<H>(
    s: SystemState<H>,
    job_id: Seq<char>,
    key: Seq<char>,
    report: WorkerReport,
)
    requires
        consistent(s),
    ensures
        consistent(reported(s, job_id, key, report)),
{
    if report_error(s, job_id, key, report) is None {
        let t = reported(s, job_id, key, report);
        let job = s.jobs[job_id];
        let i = index_of_key(job.sections, key);
        lemma_section_names_differ();
        lemma_emit_all_frame(s.channels, job_id, report_events(job.sections[i], report));
        assert forall|id: Seq<char>| #[trigger] t.jobs.contains_key(id) implies {
            &&& t.jobs[id].id == id
            &&& keys_unique(t.jobs[id].sections)
            &&& progress_sound(t.jobs[id].sections)
            &&& t.jobs[id].status == JobStatus::Complete ==> all_complete(t.jobs[id].sections)
        } by {}
        assert forall|id: Seq<char>| #[trigger] t.channels.contains_key(id) implies {
            &&& t.jobs.contains_key(id)
            &&& t.channels[id].capacity == CHANNEL_CAPACITY
        } by {
            assert(s.channels.contains_key(id));
        }
    }
}

/// An eviction leaves a consistent state consistent.
pub proof fn lemma_evict_preserves<H>(s: SystemState<H>, job_id: Seq<char>)
    requires
        consistent(s),
    ensures
        consistent(evicted(s, job_id)),
{
}

/// After a cancellation that was accepted, the job is stored as cancelled
/// and has left the registry, the cancel event is the last one published
/// for it, and no report of a worker publishes anything for it or changes
/// anything at all.
pub proof fn lemma_cancel_is_final<H>(
    s: SystemState<H>,
    job_id: Seq<char>,
    key: Seq<char>,
    report: WorkerReport,
)
    requires
        consistent(s),
        cancel_error(s, job_id) is None,
    ensures
        cancelled(s, job_id).jobs.contains_key(job_id),
        cancelled(s, job_id).jobs[job_id].status == JobStatus::Cancelled,
        cancelled(s, job_id).jobs[job_id].job_view().status == "cancelled"@,
        !cancelled(s, job_id).active.contains_key(job_id),
        history(cancelled(s, job_id), job_id) == history(s, job_id).push(cancel_view()),
        reported(cancelled(s, job_id), job_id, key, report) == cancelled(s, job_id),
{
}

/// Whether a step resumes the job `id`.
pub open spec fn resumes<H>(step: Step<H>, id: Seq<char>) -> bool {
    step matches Step::Resume { job_id, .. } && job_id == id
}

/// A cancelled job rests until it is resumed: whatever operations follow a
/// cancellation, as long as none of them resumes the job, the job stays
/// cancelled and out of the registry, and nothing is published for it
/// after the cancel event.
pub proof fn lemma_cancelled_job_rests<H>(s: SystemState<H>, id: Seq<char>, steps: Seq<Step<H>>)
    requires
        consistent(s),
        cancel_error(s, id) is None,
        forall|k: int| 0 <= k < steps.len() ==> !resumes(#[trigger] steps[k], id),
    ensures
        ({
            let end = after_all(cancelled(s, id), steps);
            &&& consistent(end)
            &&& end.jobs.contains_key(id)
            &&& end.jobs[id].status == JobStatus::Cancelled
            &&& !end.active.contains_key(id)
            &&& end.channels.contains_key(id) ==> end.channels[id].sent == history(s, id).push(
                cancel_view(),
            )
        }),
    decreases steps.len(),
{
    if steps.len() > 0 {
        let earlier = steps.drop_last();
        lemma_cancelled_job_rests(s, id, earlier);
        let before = after_all(cancelled(s, id), earlier);
        let step = steps.last();
        lemma_step_preserves(before, step);
        match step {
            Step::Report { job_id, key, report } => {
                if report_error(before, job_id, key, report) is None {
                    let job = before.jobs[job_id];
                    let section = job.sections[index_of_key(job.sections, key)];
                    lemma_emit_all_frame(before.channels, job_id, report_events(section, report));
                }
            },
            _ => {},
        }
    }
}

/// Without a registry entry for the job, no report of a worker is accepted:
/// nothing is published and nothing changes.
pub proof fn lemma_reports_need_registry<H>(
    s: SystemState<H>,
    job_id: Seq<char>,
    key: Seq<char>,
    report: WorkerReport,
)
    requires
        !s.active.contains_key(job_id),
    ensures
        report_error(s, job_id, key, report) == Some(ManagerError::NotFound),
        reported(s, job_id, key, report) == s,
{
}

/// Resuming a job that is stored as submitted, processing or complete is
/// refused as a conflict and changes nothing.
pub proof fn lemma_resume_conflict<H>(s: SystemState<H>, job_id: Seq<char>, handle: H)
    requires
        s.jobs.contains_key(job_id),
        s.jobs[job_id].status == JobStatus::Processing || s.jobs[job_id].status
            == JobStatus::Complete || s.jobs[job_id].status == JobStatus::Submitted,
    ensures
        resume_error(s, job_id) == Some(ManagerError::Conflict),
        resumed(s, job_id, handle) == s,
{
}

/// Of two resumptions in a row, the second is refused as a conflict: only
/// one new supervisor is started.
pub proof fn lemma_resume_once<H>(s: SystemState<H>, job_id: Seq<char>, first: H, second: H)
    requires
        resume_error(s, job_id) is None,
    ensures
        resume_error(resumed(s, job_id, first), job_id) == Some(ManagerError::Conflict),
        resumed(resumed(s, job_id, first), job_id, second) == resumed(s, job_id, first),
{
}

/// Finalizing twice is finalizing once: the second call finds no registry
/// entry, is refused as not found, removes nothing and publishes nothing.
pub proof fn lemma_finalize_once<H>(s: SystemState<H>, job_id: Seq<char>)
    requires
        consistent(s),
        finalize_error(s, job_id) is None,
    ensures
        finalize_error(finalized(s, job_id), job_id) == Some(ManagerError::NotFound),
        finalized(finalized(s, job_id), job_id) == finalized(s, job_id),
        history(finalized(s, job_id), job_id) == history(s, job_id).push(
            final_event(s.jobs[job_id].sections),
        ),
{
}

/// In a consistent state, every section of a complete job has progress 100.
pub proof fn lemma_complete_means_all_done<H>(s: SystemState<H>, job_id: Seq<char>, i: int)
    requires
        consistent(s),
        s.jobs.contains_key(job_id),
        s.jobs[job_id].status == JobStatus::Complete,
        0 <= i < s.jobs[job_id].sections.len(),
    ensures
        s.jobs[job_id].sections[i].progress == 100,
        s.jobs[job_id].sections[i].status == complete_name(),
{
}

/// A finalization makes a job complete only if every section is complete,
/// and then every section has progress 100.
pub proof fn lemma_finalize_checks_sections<H>(s: SystemState<H>, job_id: Seq<char>, i: int)
    requires
        consistent(s),
        finalize_error(s, job_id) is None,
        finalized(s, job_id).jobs[job_id].status == JobStatus::Complete,
        0 <= i < s.jobs[job_id].sections.len(),
    ensures
        finalized(s, job_id).jobs[job_id].sections[i].progress == 100,
{
}

/// An accepted report never lowers a section's progress. Every event it
/// publishes carries a progress between the one the section had and the one
/// it has afterwards, and a completion leaves the section at exactly 100.
pub proof fn lemma_progress_never_falls(section: SectionView, report: WorkerReport, k: int)
    requires
        0 <= section.progress <= 100,
        section.status == pending_name() ==> section.progress == 0,
        admits(section, report),
        0 <= k < report_events(section, report).len(),
    ensures
        section.progress <= section_after(section, report).progress <= 100,
        report_events(section, report)[k].progress matches Some(p) ==> section.progress <= p
            <= section_after(section, report).progress,
        report is Completed ==> section_after(section, report).progress == 100
            && report_events(section, report).last().progress == Some(100i32),
{
}

/// Every operation leaves a consistent state consistent.
pub proof fn lemma_step_preserves<H>(s: SystemState<H>, step: Step<H>)
    requires
        consistent(s),
    ensures
        consistent(after(s, step)),
{
    match step {
        Step::Create { job } => lemma_create_preserves(s, job),
        Step::Process { job_id, section_ids, handle } => lemma_process_preserves(
            s,
            job_id,
            section_ids,
            handle,
        ),
        Step::Cancel { job_id } => lemma_cancel_preserves(s, job_id),
        Step::Resume { job_id, handle } => lemma_resume_preserves(s, job_id, handle),
        Step::Finalize { job_id } => lemma_finalize_preserves(s, job_id),
        Step::Fail { job_id, cause } => lemma_fail_preserves(s, job_id, cause),
        Step::Report { job_id, key, report } => lemma_report_preserves(s, job_id, key, report),
        Step::Evict { job_id } => lemma_evict_preserves(s, job_id),
    }
}

/// Every state that operations lead to from the empty state is consistent.
pub proof fn lemma_reachable_is_consistent<H>(steps: Seq<Step<H>>)
    ensures
        consistent(after_all(empty_state::<H>(), steps)),
    decreases steps.len(),
{
    if steps.len() > 0 {
        lemma_reachable_is_consistent(steps.drop_last());
        lemma_step_preserves(after_all(empty_state::<H>(), steps.drop_last()), steps.last());
    }
}

/// No operation removes a job, and every operation leaves the status of
/// each job as it is or moves it along one of the moves of the state
/// machine.
pub proof fn lemma_steps_follow_the_machine<H>(s: SystemState<H>, step: Step<H>, id: Seq<char>)
    requires
        consistent(s),
        s.jobs.contains_key(id),
    ensures
        after(s, step).jobs.contains_key(id),
        after(s, step).jobs[id].status == s.jobs[id].status || s.jobs[id].status.can_become(
            after(s, step).jobs[id].status,
        ),
{
}

/// A complete job is at rest: whatever operation follows, the job and its
/// sections stay exactly as they are.
pub proof fn lemma_complete_is_at_rest<H>(s: SystemState<H>, step: Step<H>, id: Seq<char>)
    requires
        consistent(s),
        s.jobs.contains_key(id),
        s.jobs[id].status == JobStatus::Complete,
    ensures
        after(s, step).jobs.contains_key(id),
        after(s, step).jobs[id] == s.jobs[id],
{
}

/// A supervisor is registered only for a job that has none: after any
/// operation, a job whose handle is new had no handle before.
pub proof fn lemma_one_supervisor<H>(s: SystemState<H>, step: Step<H>, id: Seq<char>)
    requires
        consistent(s),
        s.active.contains_key(id),
        after(s, step).active.contains_key(id),
    ensures
        after(s, step).active[id] == s.active[id],
{
}

/// Entries come into the registry when a supervisor starts and leave it
/// when the job is cancelled, closed or failed: an operation after which a
/// job has an entry that it had not begins or resumes its processing, and
/// one after which a job has lost its entry cancels, finalizes or fails it.
pub proof fn lemma_registry_moves<H>(s: SystemState<H>, step: Step<H>, id: Seq<char>)
    requires
        consistent(s),
    ensures
        !s.active.contains_key(id) && after(s, step).active.contains_key(id) ==> {
            ||| step matches Step::Process { job_id, .. } && job_id == id
            ||| step matches Step::Resume { job_id, .. } && job_id == id
        },
        s.active.contains_key(id) && !after(s, step).active.contains_key(id) ==> {
            ||| step matches Step::Cancel { job_id } && job_id == id
            ||| step matches Step::Finalize { job_id } && job_id == id
            ||| step matches Step::Fail { job_id, .. } && job_id == id
        },
{
}

/// The outline of a job is computed once: after its processing has begun,
/// no operation gives the job another number of sections or changes the
/// key, title, identifier or owner of any of them.
pub proof fn lemma_outline_is_kept<H>(s: SystemState<H>, step: Step<H>, id: Seq<char>, i: int)
    requires
        consistent(s),
        s.jobs.contains_key(id),
        s.jobs[id].status != JobStatus::Submitted,
        0 <= i < s.jobs[id].sections.len(),
    ensures
        after(s, step).jobs[id].sections.len() == s.jobs[id].sections.len(),
        after(s, step).jobs[id].sections[i].key == s.jobs[id].sections[i].key,
        after(s, step).jobs[id].sections[i].title == s.jobs[id].sections[i].title,
        after(s, step).jobs[id].sections[i].id == s.jobs[id].sections[i].id,
        after(s, step).jobs[id].sections[i].job_id == s.jobs[id].sections[i].job_id,
{
}

/// What was published stays published: unless the channel of a job is
/// evicted or made afresh, every operation leaves the events published for
/// the job in place and at most adds events after them.
pub proof fn lemma_history_grows<H>(s: SystemState<H>, step: Step<H>, id: Seq<char>)
    requires
        consistent(s),
        s.channels.contains_key(id),
        !(step matches Step::Evict { job_id } && job_id == id),
    ensures
        after(s, step).channels.contains_key(id),
        history(s, id).len() <= history(after(s, step), id).len(),
        history(after(s, step), id).take(history(s, id).len() as int) == history(s, id),
{
    match step {
        Step::Report { job_id, key, report } => {
            if report_error(s, job_id, key, report) is None {
                let job = s.jobs[job_id];
                let section = job.sections[index_of_key(job.sections, key)];
                let events = report_events(section, report);
                lemma_emit_all_frame(s.channels, job_id, events);
                if job_id == id {
                    lemma_emit_all_unfold(s.channels, id, events[0], events[0]);
                    if events.len() == 2 {
                        lemma_emit_all_unfold(s.channels, id, events[0], events[1]);
                    }
                }
            }
        },
        _ => {},
    }
}

} // verus!
