//! The job lifecycle manager: it holds the stored jobs, the registry of
//! running jobs and the event bus, and moves them together as the state
//! machine of [`crate::lifecycle`] says.

use vstd::prelude::*;
use crate::api::fresh_job;
use crate::bus::EventBus;
use crate::clock::Timestamp;
use crate::error::ManagerError;
use crate::events::{
    cancel_event, content_event, error_event, job_complete_event, outline_event, progress_event,
    section_error_event, worker_complete_event, worker_start_event,
};
use crate::ident::{fresh_id, is_identifier};
use crate::lifecycle::{
    all_complete, cancel_error, cancelled, consistent, contains_section, create_error, created,
    empty_state, evict_error, evicted, fail_error, failed, final_status, finalize_error, finalized,
    has_key, id_at, initial_section, initial_sections, lemma_cancel_preserves,
    lemma_create_preserves, lemma_emit_all_unfold, lemma_evict_preserves, lemma_fail_preserves,
    lemma_finalize_preserves, lemma_index_of_key, lemma_process_preserves, lemma_report_preserves,
    lemma_resume_preserves, lemma_section_names_differ, process_error, processed, report_error,
    report_events, reported, reset_section, reset_sections, resume_error, resumed, section_after,
    submitted, JobState, SystemState, WorkerReport,
};
use crate::models::{
    new_section_views, section_views, Job, JobSubmission, NewJob, NewSection, Section, SseEvent,
};
use crate::outline::{entry_views, generate_outline, outline};
use crate::registry::{Registry, Stop};
use crate::status::{complete_name, JobStatus, SectionStatus};
use crate::table::Table;
use crate::text::{same_text, texts};

verus! {

/// A stored job with its sections.
pub struct JobRecord {
    pub id: String,
    pub topic: String,
    pub depth: i32,
    pub created_at: Timestamp,
    pub status: JobStatus,
    pub sections: Vec<Section>,
}

impl View for JobRecord {
    type V = JobState;

    open spec fn view(&self) -> JobState {
        JobState {
            id: self.id@,
            topic: self.topic@,
            depth: self.depth,
            created_at: self.created_at,
            status: self.status,
            sections: section_views(self.sections@),
        }
    }
}

impl JobRecord {
    /// The job record as it is shown to callers.
    pub fn to_job(&self) -> (job: Job)
        ensures
            job@ == self@.job_view(),
    {
        Job {
            id: self.id.clone(),
            topic: self.topic.clone(),
            depth: self.depth,
            created_at: self.created_at,
            status: self.status.as_str().to_string(),
        }
    }
}

/// One of the things a section's worker reports to the manager.
#[derive(Debug, PartialEq, Eq)]
pub enum Report {
    /// The worker took the section up.
    Started,
    /// The section is so many percent done.
    Progress(i32),
    /// The section's text was produced.
    Completed(String),
    /// The worker failed, with a message.
    Failed(String),
}

impl View for Report {
    type V = WorkerReport;

    open spec fn view(&self) -> WorkerReport {
        match self {
            Report::Started => WorkerReport::Started,
            Report::Progress(p) => WorkerReport::Progress(*p),
            Report::Completed(content) => WorkerReport::Completed(content@),
            Report::Failed(message) => WorkerReport::Failed(message@),
        }
    }
}

/// The sections of a new job, not stored yet: one for each outline entry,
/// under the identifiers given in order, pending, at progress 0 and without
/// text. Where fewer identifiers than entries are given, the sections left
/// over get the empty identifier.
pub fn new_sections(job_id: &str, entries: &Vec<(String, String)>, ids: &Vec<String>) -> (sections:
    Vec<NewSection>)
    ensures
        new_section_views(sections@) == initial_sections(
            job_id@,
            entry_views(entries@),
            texts(ids@),
        ),
{
    let mut sections: Vec<NewSection> = Vec::new();
    let mut i: usize = 0;
    while i < entries.len()
        invariant
            i <= entries.len(),
            sections.len() == i,
            forall|j: int|
                0 <= j < i ==> (#[trigger] sections@[j])@ == initial_section(
                    job_id@,
                    entry_views(entries@)[j],
                    id_at(texts(ids@), j),
                ),
        decreases entries.len() - i,
    {
        let id = if i < ids.len() {
            ids[i].clone()
        } else {
            String::new()
        };
        sections.push(
            NewSection {
                id,
                job_id: job_id.to_string(),
                key: entries[i].0.clone(),
                title: entries[i].1.clone(),
                progress: 0,
                status: SectionStatus::Pending.as_str().to_string(),
                output_md: String::new(),
            },
        );
        i += 1;
    }
    assert(new_section_views(sections@) =~= initial_sections(
        job_id@,
        entry_views(entries@),
        texts(ids@),
    ));
    sections
}

/// The stored form of a new section: the same record.
pub fn store_section(section: NewSection) -> (stored: Section)
    ensures
        stored@ == section@,
{
    Section {
        id: section.id,
        job_id: section.job_id,
        key: section.key,
        title: section.title,
        progress: section.progress,
        status: section.status,
        output_md: section.output_md,
    }
}

fn store_sections(sections: &Vec<NewSection>) -> (stored: Vec<Section>)
    ensures
        section_views(stored@) == new_section_views(sections@),
{
    let mut stored: Vec<Section> = Vec::new();
    let mut i: usize = 0;
    while i < sections.len()
        invariant
            i <= sections.len(),
            stored.len() == i,
            forall|j: int| 0 <= j < i ==> (#[trigger] stored@[j])@ == sections@[j]@,
        decreases sections.len() - i,
    {
        stored.push(store_section(sections[i].clone()));
        i += 1;
    }
    assert(section_views(stored@) =~= new_section_views(sections@));
    stored
}

fn sections_complete(sections: &Vec<Section>) -> (r: bool)
    ensures
        r == all_complete(section_views(sections@)),
{
    let mut i: usize = 0;
    while i < sections.len()
        invariant
            i <= sections.len(),
            forall|j: int|
                0 <= j < i ==> (#[trigger] section_views(sections@)[j]).status
                    == complete_name(),
        decreases sections.len() - i,
    {
        if !same_text(sections[i].status.as_str(), SectionStatus::Complete.as_str()) {
            assert(section_views(sections@)[i as int].status != complete_name());
            return false;
        }
        i += 1;
    }
    true
}

fn reset_all(sections: &Vec<Section>) -> (fresh: Vec<Section>)
    ensures
        section_views(fresh@) == reset_sections(section_views(sections@)),
{
    let mut fresh: Vec<Section> = Vec::new();
    let mut i: usize = 0;
    while i < sections.len()
        invariant
            i <= sections.len(),
            fresh.len() == i,
            forall|j: int|
                0 <= j < i ==> (#[trigger] fresh@[j])@ == reset_section(
                    sections@[j]@,
                ),
        decreases sections.len() - i,
    {
        fresh.push(
            Section {
                id: sections[i].id.clone(),
                job_id: sections[i].job_id.clone(),
                key: sections[i].key.clone(),
                title: sections[i].title.clone(),
                progress: 0,
                status: SectionStatus::Pending.as_str().to_string(),
                output_md: String::new(),
            },
        );
        i += 1;
    }
    assert(section_views(fresh@) =~= reset_sections(section_views(sections@)));
    fresh
}

fn copy_sections(sections: &Vec<Section>) -> (copy: Vec<Section>)
    ensures
        section_views(copy@) == section_views(sections@),
{
    let mut copy: Vec<Section> = Vec::new();
    let mut i: usize = 0;
    while i < sections.len()
        invariant
            i <= sections.len(),
            copy.len() == i,
            forall|j: int| 0 <= j < i ==> (#[trigger] copy@[j])@ == sections@[j]@,
        decreases sections.len() - i,
    {
        copy.push(sections[i].clone());
        i += 1;
    }
    assert(section_views(copy@) =~= section_views(sections@));
    copy
}

fn find_section(sections: &Vec<Section>, key: &str) -> (r: Option<usize>)
    ensures
        match r {
            Some(i) => has_key(section_views(sections@), key@, i as int),
            None => !contains_section(section_views(sections@), key@),
        },
{
    let mut i: usize = 0;
    while i < sections.len()
        invariant
            i <= sections.len(),
            forall|j: int| 0 <= j < i ==> !has_key(section_views(sections@), key@, j),
        decreases sections.len() - i,
    {
        if same_text(sections[i].key.as_str(), key) {
            return Some(i);
        }
        i += 1;
    }
    None
}

/// The views of the records of a table of jobs.
pub open spec fn job_states(records: Map<Seq<char>, JobRecord>) -> Map<Seq<char>, JobState> {
    Map::new(|id: Seq<char>| records.contains_key(id), |id: Seq<char>| records[id]@)
}

/// The orchestration core: stored jobs, registry of running jobs and event
/// bus. `H` is the type of the handle by which a supervisor is stopped.
pub struct Manager<H: Stop> {
    jobs: Table<JobRecord>,
    registry: Registry<H>,
    bus: EventBus,
    stopped: Ghost<Seq<H>>,
}

/// Stops a supervisor and notes it at the end of the account of the
/// supervisors stopped.
fn stop_noted<H: Stop>(handle: H, stopped: Ghost<Seq<H>>) -> (noted: Ghost<Seq<H>>)
    ensures
        noted@ == stopped@.push(handle),
{
    handle.stop();
    Ghost(stopped@.push(handle))
}

impl<H: Stop> View for Manager<H> {
    type V = SystemState<H>;

    /// The stored jobs, the registry and the channels. Which supervisors
    /// were stopped is told apart from this state, by
    /// [`Manager::stopped`].
    closed spec fn view(&self) -> SystemState<H> {
        SystemState { jobs: job_states(self.jobs@), active: self.registry@, channels: self.bus@ }
    }
}

impl<H: Stop> Manager<H> {
    #[verifier::type_invariant]
    spec fn wf(self) -> bool {
        consistent(self@)
    }

    /// The supervisors that the manager has stopped, in the order in which
    /// it stopped them: those of the jobs it cancelled or failed, and those
    /// that were offered to it and that it did not take.
    pub closed spec fn stopped(&self) -> Seq<H> {
        self.stopped@
    }

    /// Stops a supervisor that was offered and is not taken.
    fn refuse(&mut self, handle: H)
        ensures
            final(self)@ == old(self)@,
            final(self).stopped() == old(self).stopped().push(handle),
    {
        proof {
            use_type_invariant(&*self);
        }
        self.stopped = stop_noted(handle, self.stopped);
    }

    /// A core in which nothing was ever submitted and no supervisor was
    /// stopped.
    pub fn new() -> (m: Self)
        ensures
            m@ == empty_state::<H>(),
            m.stopped() == Seq::<H>::empty(),
    {
        let jobs: Table<JobRecord> = Table::new();
        let registry: Registry<H> = Registry::new();
        let bus = EventBus::new();
        assert(job_states(jobs@) =~= Map::<Seq<char>, JobState>::empty());
        Manager { jobs, registry, bus, stopped: Ghost(Seq::empty()) }
    }

    /// Shows that the state is consistent, as every state of a core is.
    pub fn attest(&self)
        ensures
            consistent(self@),
    {
        proof {
            use_type_invariant(self);
        }
    }

    /// Whether `job_id` has a supervisor in the registry.
    pub fn is_active(&self, job_id: &str) -> (r: bool)
        ensures
            r == self@.active.contains_key(job_id@),
    {
        self.registry.is_active(job_id)
    }

    /// The job stored under `job_id`.
    pub fn get_job_status(&self, job_id: &str) -> (r: Result<Job, ManagerError>)
        ensures
            match r {
                Ok(job) => {
                    &&& self@.jobs.contains_key(job_id@)
                    &&& job@ == self@.jobs[job_id@].job_view()
                },
                Err(e) => !self@.jobs.contains_key(job_id@) && e == ManagerError::NotFound,
            },
    {
        match self.jobs.get(job_id) {
            Some(record) => Ok(record.to_job()),
            None => Err(ManagerError::NotFound),
        }
    }

    /// Cancels a running job: its supervisor is stopped and taken out of
    /// the registry, the job is stored as cancelled and the cancel event is
    /// published. A finalization, by contrast, stops nobody: the supervisor
    /// has come to its end by then.
    pub fn cancel_job(&mut self, job_id: &str) -> (r: Result<(), ManagerError>)
        ensures
            final(self)@ == cancelled(old(self)@, job_id@),
            final(self).stopped() == if r is Ok {
                old(self).stopped().push(old(self)@.active[job_id@])
            } else {
                old(self).stopped()
            },
            match r {
                Ok(_) => cancel_error(old(self)@, job_id@) is None,
                Err(e) => cancel_error(old(self)@, job_id@) == Some(e),
            },
    {
        proof {
            use_type_invariant(&*self);
        }
        if !self.registry.is_active(job_id) {
            return Err(ManagerError::NotFound);
        }
        let ghost before = self@;
        let mut taken = Manager::<H>::new();
        std::mem::swap(self, &mut taken);
        let Manager { jobs, registry, bus, stopped } = taken;
        let mut jobs = jobs;
        let mut registry = registry;
        let mut bus = bus;
        assert(before.jobs.contains_key(job_id@));
        let handle = registry.take(job_id);
        let record = jobs.remove(job_id);
        match (handle, record) {
            (Some(handle), Some(record)) => {
                let mut record = record;
                let stopped = stop_noted(handle, stopped);
                record.status = JobStatus::Cancelled;
                let _ = jobs.insert(job_id.to_string(), record);
                let _ = bus.publish(job_id, cancel_event());
                proof {
                    lemma_cancel_preserves(before, job_id@);
                    assert(job_states(jobs@) =~= cancelled(before, job_id@).jobs);
                }
                *self = Manager { jobs, registry, bus, stopped };
                Ok(())
            },
            _ => {
                assert(false);
                Err(ManagerError::NotFound)
            },
        }
    }

    /// Fails a running job as a whole: its supervisor is stopped and taken
    /// out of the registry, the job is stored as failed and an error event
    /// that names the cause is published.
    pub fn fail_job(&mut self, job_id: &str, cause: &str) -> (r: Result<(), ManagerError>)
        ensures
            final(self)@ == failed(old(self)@, job_id@, cause@),
            final(self).stopped() == if r is Ok {
                old(self).stopped().push(old(self)@.active[job_id@])
            } else {
                old(self).stopped()
            },
            match r {
                Ok(_) => fail_error(old(self)@, job_id@) is None,
                Err(e) => fail_error(old(self)@, job_id@) == Some(e),
            },
    {
        proof {
            use_type_invariant(&*self);
        }
        if !self.registry.is_active(job_id) {
            return Err(ManagerError::NotFound);
        }
        let ghost before = self@;
        let mut taken = Manager::<H>::new();
        std::mem::swap(self, &mut taken);
        let Manager { jobs, registry, bus, stopped } = taken;
        let mut jobs = jobs;
        let mut registry = registry;
        let mut bus = bus;
        assert(before.jobs.contains_key(job_id@));
        let handle = registry.take(job_id);
        let record = jobs.remove(job_id);
        match (handle, record) {
            (Some(handle), Some(record)) => {
                let mut record = record;
                let stopped = stop_noted(handle, stopped);
                record.status = JobStatus::Failed;
                let _ = jobs.insert(job_id.to_string(), record);
                let mut text = "Job processing failed: ".to_string();
                text.append(cause);
                let _ = bus.publish(job_id, error_event(text.as_str()));
                proof {
                    lemma_fail_preserves(before, job_id@, cause@);
                    assert(job_states(jobs@) =~= failed(before, job_id@, cause@).jobs);
                }
                *self = Manager { jobs, registry, bus, stopped };
                Ok(())
            },
            _ => {
                assert(false);
                Err(ManagerError::NotFound)
            },
        }
    }

    /// Creates a job: stores the record as submitted, without sections yet,
    /// and gives the job a fresh channel. Hands back the stored job. A
    /// record that is not named submitted, or whose id is taken, is refused
    /// as a conflict.
    pub fn create_job(&mut self, new_job: NewJob) -> (r: Result<Job, ManagerError>)
        ensures
            final(self)@ == created(old(self)@, new_job@),
            final(self).stopped() == old(self).stopped(),
            match r {
                Ok(job) => create_error(old(self)@, new_job@) is None && job@ == new_job@,
                Err(e) => create_error(old(self)@, new_job@) == Some(e),
            },
    {
        proof {
            use_type_invariant(&*self);
        }
        if !same_text(new_job.status.as_str(), JobStatus::Submitted.as_str()) {
            return Err(ManagerError::Conflict);
        }
        if self.jobs.contains_key(new_job.id.as_str()) {
            return Err(ManagerError::Conflict);
        }
        let ghost before = self@;
        let job_id = new_job.id.clone();
        let record = JobRecord {
            id: new_job.id,
            topic: new_job.topic,
            depth: new_job.depth,
            created_at: new_job.created_at,
            status: JobStatus::Submitted,
            sections: Vec::new(),
        };
        let job = record.to_job();
        let mut taken = Manager::<H>::new();
        std::mem::swap(self, &mut taken);
        let Manager { jobs, registry, bus, stopped } = taken;
        let mut jobs = jobs;
        let mut bus = bus;
        assert(section_views(record.sections@) =~= Seq::empty());
        bus.create_channel(job_id.as_str());
        let _ = jobs.insert(job_id, record);
        proof {
            lemma_create_preserves(before, new_job@);
            assert(job_states(jobs@) =~= created(before, new_job@).jobs);
        }
        *self = Manager { jobs, registry, bus, stopped };
        Ok(job)
    }

    /// Begins the processing of a submitted job: publishes its outline,
    /// stores one pending section for each outline entry under the
    /// identifiers given in order, stores the job as processing and
    /// registers `handle` as its supervisor. Hands back the stored
    /// sections, in outline order. Where the processing is refused, the
    /// supervisor offered is stopped.
    pub fn process_job_with(
        &mut self,
        job_id: &str,
        section_ids: Vec<String>,
        handle: H,
    ) -> (r: Result<Vec<Section>, ManagerError>)
        ensures
            final(self)@ == processed(old(self)@, job_id@, texts(section_ids@), handle),
            final(self).stopped() == if r is Ok {
                old(self).stopped()
            } else {
                old(self).stopped().push(handle)
            },
            match r {
                Ok(sections) => {
                    &&& process_error(old(self)@, job_id@) is None
                    &&& section_views(sections@) == final(self)@.jobs[job_id@].sections
                },
                Err(e) => process_error(old(self)@, job_id@) == Some(e),
            },
    {
        proof {
            use_type_invariant(&*self);
        }
        let depth = match self.jobs.get(job_id) {
            Some(record) => {
                match record.status {
                    JobStatus::Submitted => record.depth,
                    _ => {
                        self.refuse(handle);
                        return Err(ManagerError::Conflict);
                    },
                }
            },
            None => {
                self.refuse(handle);
                return Err(ManagerError::NotFound);
            },
        };
        if !self.bus.has_channel(job_id) {
            self.refuse(handle);
            return Err(ManagerError::NotFound);
        }
        let ghost before = self@;
        let entries = generate_outline(depth);
        let planned = new_sections(job_id, &entries, &section_ids);
        let sections = store_sections(&planned);
        let handed = copy_sections(&sections);
        let mut taken = Manager::<H>::new();
        std::mem::swap(self, &mut taken);
        let Manager { jobs, registry, bus, stopped } = taken;
        let mut jobs = jobs;
        let mut registry = registry;
        let mut bus = bus;
        match jobs.remove(job_id) {
            Some(record) => {
                let started = JobRecord {
                    id: record.id,
                    topic: record.topic,
                    depth: record.depth,
                    created_at: record.created_at,
                    status: JobStatus::Processing,
                    sections,
                };
                let _ = jobs.insert(job_id.to_string(), started);
                let _ = bus.publish(job_id, outline_event(&entries));
                let _ = registry.register(job_id, handle);
                proof {
                    let after = processed(before, job_id@, texts(section_ids@), handle);
                    lemma_process_preserves(before, job_id@, texts(section_ids@), handle);
                    assert(job_states(jobs@) =~= after.jobs);
                }
                *self = Manager { jobs, registry, bus, stopped };
                Ok(handed)
            },
            None => {
                assert(false);
                Err(ManagerError::NotFound)
            },
        }
    }

    /// Begins the processing of a submitted job as
    /// [`Manager::process_job_with`] does, under fresh identifiers for the
    /// sections. Which identifiers were drawn shows in the sections handed
    /// back.
    pub fn process_job(&mut self, job_id: &str, handle: H) -> (r: Result<
        Vec<Section>,
        ManagerError,
    >)
        ensures
            exists|section_ids: Seq<Seq<char>>|
                {
                    &&& forall|i: int|
                        0 <= i < section_ids.len() ==> is_identifier(#[trigger] section_ids[i])
                    &&& old(self)@.jobs.contains_key(job_id@) ==> section_ids.len() == outline(
                        old(self)@.jobs[job_id@].depth as int,
                    ).len()
                    &&& final(self)@ == #[trigger] processed(
                        old(self)@,
                        job_id@,
                        section_ids,
                        handle,
                    )
                },
            final(self).stopped() == if r is Ok {
                old(self).stopped()
            } else {
                old(self).stopped().push(handle)
            },
            match r {
                Ok(sections) => {
                    &&& process_error(old(self)@, job_id@) is None
                    &&& section_views(sections@) == final(self)@.jobs[job_id@].sections
                },
                Err(e) => process_error(old(self)@, job_id@) == Some(e),
            },
    {
        let wanted = match self.jobs.get(job_id) {
            Some(record) => generate_outline(record.depth).len(),
            None => 0,
        };
        let mut section_ids: Vec<String> = Vec::new();
        while section_ids.len() < wanted
            invariant
                section_ids.len() <= wanted,
                forall|i: int|
                    0 <= i < section_ids.len() ==> is_identifier((#[trigger] section_ids@[i])@),
            decreases wanted - section_ids.len(),
        {
            section_ids.push(fresh_id());
        }
        let ghost ids = texts(section_ids@);
        let r = self.process_job_with(job_id, section_ids, handle);
        assert(self@ == processed(old(self)@, job_id@, ids, handle));
        r
    }

    /// Submits a job: draws a fresh identifier for the job and fresh ones
    /// for its sections, reads the clock, creates the job and begins its
    /// processing. The record handed back is the job as it was created,
    /// still named submitted; the stored job is processing by then. Which
    /// identifiers and instant were drawn shows in the job handed back and
    /// in the stored sections. The submission succeeds unless the
    /// identifier drawn for the job is taken, which needs a stored job
    /// under an identifier of that shape; it is then refused and the
    /// supervisor offered is stopped.
    pub fn submit(&mut self, submission: JobSubmission, handle: H) -> (r: Result<
        Job,
        ManagerError,
    >)
        ensures
            final(self).stopped() == if r is Ok {
                old(self).stopped()
            } else {
                old(self).stopped().push(handle)
            },
            match r {
                Ok(job) => {
                    &&& !old(self)@.jobs.contains_key(job@.id)
                    &&& is_identifier(job@.id)
                    &&& job@.topic == submission@.topic
                    &&& job@.depth == submission.depth
                    &&& job@.status == JobStatus::Submitted.name()
                    &&& exists|section_ids: Seq<Seq<char>>|
                        {
                            &&& section_ids.len() == outline(submission.depth as int).len()
                            &&& forall|i: int|
                                0 <= i < section_ids.len() ==> is_identifier(
                                    #[trigger] section_ids[i],
                                )
                            &&& final(self)@ == #[trigger] submitted(
                                old(self)@,
                                job@.id,
                                submission@.topic,
                                submission.depth,
                                job@.created_at,
                                section_ids,
                                handle,
                            )
                        }
                },
                Err(e) => {
                    &&& e == ManagerError::Conflict
                    &&& final(self)@ == old(self)@
                    &&& exists|id: Seq<char>|
                        is_identifier(id) && #[trigger] old(self)@.jobs.contains_key(id)
                },
            },
    {
        let ghost topic = submission@.topic;
        let ghost depth = submission.depth;
        match self.create_job(fresh_job(submission)) {
            Ok(job) => {
                let ghost middle = self@;
                let started = self.process_job(job.id.as_str(), handle);
                assert(started is Ok);
                proof {
                    let section_ids = choose|section_ids: Seq<Seq<char>>|
                        {
                            &&& forall|i: int|
                                0 <= i < section_ids.len() ==> is_identifier(
                                    #[trigger] section_ids[i],
                                )
                            &&& middle.jobs.contains_key(job@.id) ==> section_ids.len() == outline(
                                middle.jobs[job@.id].depth as int,
                            ).len()
                            &&& self@ == #[trigger] processed(middle, job@.id, section_ids, handle)
                        };
                    assert(self@ == submitted(
                        old(self)@,
                        job@.id,
                        topic,
                        depth,
                        job@.created_at,
                        section_ids,
                        handle,
                    ));
                }
                Ok(job)
            },
            Err(e) => {
                self.refuse(handle);
                Err(e)
            },
        }
    }

    /// Resumes a cancelled or failed job: every section goes back to
    /// progress 0 without text, the job is processing again, `handle` is
    /// registered as its new supervisor and its outline is published on the
    /// channel it already has. Hands back the stored job. Where the
    /// resumption is refused, the supervisor offered is stopped.
    pub fn resume_job(&mut self, job_id: &str, handle: H) -> (r: Result<Job, ManagerError>)
        ensures
            final(self)@ == resumed(old(self)@, job_id@, handle),
            final(self).stopped() == if r is Ok {
                old(self).stopped()
            } else {
                old(self).stopped().push(handle)
            },
            match r {
                Ok(job) => {
                    &&& resume_error(old(self)@, job_id@) is None
                    &&& job@ == final(self)@.jobs[job_id@].job_view()
                },
                Err(e) => resume_error(old(self)@, job_id@) == Some(e),
            },
    {
        proof {
            use_type_invariant(&*self);
        }
        let resumable = match self.jobs.get(job_id) {
            Some(record) => record.status.is_resumable(),
            None => {
                self.refuse(handle);
                return Err(ManagerError::NotFound);
            },
        };
        if !resumable {
            self.refuse(handle);
            return Err(ManagerError::Conflict);
        }
        if !self.bus.has_channel(job_id) {
            self.refuse(handle);
            return Err(ManagerError::NotFound);
        }
        let ghost before = self@;
        let mut taken = Manager::<H>::new();
        std::mem::swap(self, &mut taken);
        let Manager { jobs, registry, bus, stopped } = taken;
        let mut jobs = jobs;
        let mut registry = registry;
        let mut bus = bus;
        match jobs.remove(job_id) {
            Some(record) => {
                let entries = generate_outline(record.depth);
                let fresh = JobRecord {
                    id: record.id,
                    topic: record.topic,
                    depth: record.depth,
                    created_at: record.created_at,
                    status: JobStatus::Processing,
                    sections: reset_all(&record.sections),
                };
                let job = fresh.to_job();
                let _ = jobs.insert(job_id.to_string(), fresh);
                let _ = registry.register(job_id, handle);
                let _ = bus.publish(job_id, outline_event(&entries));
                proof {
                    lemma_resume_preserves(before, job_id@, handle);
                    assert(job_states(jobs@) =~= resumed(before, job_id@, handle).jobs);
                }
                *self = Manager { jobs, registry, bus, stopped };
                Ok(job)
            },
            None => {
                assert(false);
                Err(ManagerError::NotFound)
            },
        }
    }

    /// Closes a job whose workers have all returned: the job becomes
    /// complete if every section is complete and failed otherwise, its
    /// registry entry is removed, and the closing event is published.
    /// Hands back the status that the job was given. A job without a
    /// registry entry is left alone.
    pub fn finalize_job(&mut self, job_id: &str) -> (r: Result<JobStatus, ManagerError>)
        ensures
            final(self)@ == finalized(old(self)@, job_id@),
            final(self).stopped() == old(self).stopped(),
            match r {
                Ok(status) => finalize_error(old(self)@, job_id@) is None && status
                    == final_status(old(self)@.jobs[job_id@].sections),
                Err(e) => finalize_error(old(self)@, job_id@) == Some(e),
            },
    {
        proof {
            use_type_invariant(&*self);
        }
        if !self.registry.is_active(job_id) {
            return Err(ManagerError::NotFound);
        }
        let ghost before = self@;
        assert(before.jobs.contains_key(job_id@));
        let mut taken = Manager::<H>::new();
        std::mem::swap(self, &mut taken);
        let Manager { jobs, registry, bus, stopped } = taken;
        let mut jobs = jobs;
        let mut registry = registry;
        let mut bus = bus;
        let _ = registry.take(job_id);
        match jobs.remove(job_id) {
            Some(record) => {
                let mut record = record;
                let done = sections_complete(&record.sections);
                let status = if done {
                    JobStatus::Complete
                } else {
                    JobStatus::Failed
                };
                record.status = status;
                let _ = jobs.insert(job_id.to_string(), record);
                if done {
                    let _ = bus.publish(job_id, job_complete_event());
                } else {
                    let _ = bus.publish(job_id, error_event("Job ended with unfinished sections"));
                }
                proof {
                    lemma_finalize_preserves(before, job_id@);
                    assert(job_states(jobs@) =~= finalized(before, job_id@).jobs);
                }
                *self = Manager { jobs, registry, bus, stopped };
                Ok(status)
            },
            None => {
                assert(false);
                Err(ManagerError::NotFound)
            },
        }
    }

    /// Takes in what a section's worker reports. An accepted report changes
    /// the section and publishes its events; a refused one changes nothing.
    pub fn report(&mut self, job_id: &str, key: &str, report: Report) -> (r: Result<
        (),
        ManagerError,
    >)
        ensures
            final(self)@ == reported(old(self)@, job_id@, key@, report@),
            final(self).stopped() == old(self).stopped(),
            match r {
                Ok(_) => report_error(old(self)@, job_id@, key@, report@) is None,
                Err(e) => report_error(old(self)@, job_id@, key@, report@) == Some(e),
            },
    {
        proof {
            use_type_invariant(&*self);
            lemma_section_names_differ();
        }
        if !self.registry.is_active(job_id) {
            return Err(ManagerError::NotFound);
        }
        let ghost before = self@;
        let ghost old_sections = before.jobs[job_id@].sections;
        let at: usize = match self.jobs.get(job_id) {
            Some(record) => {
                match find_section(&record.sections, key) {
                    Some(i) => {
                        proof {
                            lemma_index_of_key(old_sections, key@, i as int);
                        }
                        let section = &record.sections[i];
                        assert(section@ == old_sections[i as int]);
                        let accepted = match &report {
                            Report::Started => same_text(
                                section.status.as_str(),
                                SectionStatus::Pending.as_str(),
                            ),
                            Report::Progress(p) => same_text(
                                section.status.as_str(),
                                SectionStatus::InProgress.as_str(),
                            ) && section.progress <= *p && *p <= 100,
                            _ => same_text(
                                section.status.as_str(),
                                SectionStatus::InProgress.as_str(),
                            ),
                        };
                        if !accepted {
                            return Err(ManagerError::Conflict);
                        }
                        i
                    },
                    None => {
                        return Err(ManagerError::NotFound);
                    },
                }
            },
            None => {
                return Err(ManagerError::NotFound);
            },
        };
        let mut taken = Manager::<H>::new();
        std::mem::swap(self, &mut taken);
        let Manager { jobs, registry, bus, stopped } = taken;
        let mut jobs = jobs;
        let mut bus = bus;
        match jobs.remove(job_id) {
            Some(record) => {
                let mut record = record;
                assert(section_views(record.sections@) == old_sections);
                let old = &record.sections[at];
                let title = old.title.clone();
                let updated = match &report {
                    Report::Started => Section {
                        id: old.id.clone(),
                        job_id: old.job_id.clone(),
                        key: old.key.clone(),
                        title: old.title.clone(),
                        progress: old.progress,
                        status: SectionStatus::InProgress.as_str().to_string(),
                        output_md: old.output_md.clone(),
                    },
                    Report::Progress(p) => Section {
                        id: old.id.clone(),
                        job_id: old.job_id.clone(),
                        key: old.key.clone(),
                        title: old.title.clone(),
                        progress: *p,
                        status: old.status.clone(),
                        output_md: old.output_md.clone(),
                    },
                    Report::Completed(content) => Section {
                        id: old.id.clone(),
                        job_id: old.job_id.clone(),
                        key: old.key.clone(),
                        title: old.title.clone(),
                        progress: 100,
                        status: SectionStatus::Complete.as_str().to_string(),
                        output_md: content.clone(),
                    },
                    Report::Failed(_) => old.clone(),
                };
                assert(updated@ == section_after(old_sections[at as int], report@));
                record.sections.set(at, updated);
                assert(section_views(record.sections@) =~= old_sections.update(
                    at as int,
                    section_after(old_sections[at as int], report@),
                ));
                let _ = jobs.insert(job_id.to_string(), record);
                proof {
                    let events = report_events(old_sections[at as int], report@);
                    lemma_emit_all_unfold(before.channels, job_id@, events[0], events[0]);
                    if events.len() == 2 {
                        lemma_emit_all_unfold(before.channels, job_id@, events[0], events[1]);
                        assert(events == seq![events[0], events[1]]);
                    } else {
                        assert(events == seq![events[0]]);
                    }
                }
                match report {
                    Report::Started => {
                        let _ = bus.publish(job_id, worker_start_event(key, title.as_str()));
                    },
                    Report::Progress(p) => {
                        let _ = bus.publish(job_id, progress_event(key, title.as_str(), p));
                    },
                    Report::Completed(content) => {
                        let _ = bus.publish(job_id, worker_complete_event(key, title.as_str()));
                        let _ = bus.publish(
                            job_id,
                            content_event(key, title.as_str(), content.as_str()),
                        );
                    },
                    Report::Failed(message) => {
                        let _ = bus.publish(
                            job_id,
                            section_error_event(key, title.as_str(), message.as_str()),
                        );
                    },
                }
                proof {
                    lemma_report_preserves(before, job_id@, key@, report@);
                    assert(job_states(jobs@) =~= reported(before, job_id@, key@, report@).jobs);
                    assert(bus@ =~= reported(before, job_id@, key@, report@).channels);
                }
                *self = Manager { jobs, registry, bus, stopped };
                Ok(())
            },
            None => {
                assert(false);
                Err(ManagerError::NotFound)
            },
        }
    }

    /// The sections of the job stored under `job_id`, in outline order.
    pub fn sections(&self, job_id: &str) -> (r: Result<Vec<Section>, ManagerError>)
        ensures
            match r {
                Ok(sections) => self@.jobs.contains_key(job_id@) && section_views(sections@)
                    == self@.jobs[job_id@].sections,
                Err(e) => !self@.jobs.contains_key(job_id@) && e == ManagerError::NotFound,
            },
    {
        match self.jobs.get(job_id) {
            Some(record) => Ok(copy_sections(&record.sections)),
            None => Err(ManagerError::NotFound),
        }
    }

    /// Removes the channel of a job that is not running, so that a finished
    /// job does not hold its events for ever.
    pub fn evict_channel(&mut self, job_id: &str) -> (r: Result<(), ManagerError>)
        ensures
            final(self)@ == evicted(old(self)@, job_id@),
            final(self).stopped() == old(self).stopped(),
            match r {
                Ok(_) => evict_error(old(self)@, job_id@) is None,
                Err(e) => evict_error(old(self)@, job_id@) == Some(e),
            },
    {
        proof {
            use_type_invariant(&*self);
        }
        if !self.bus.has_channel(job_id) {
            return Err(ManagerError::NotFound);
        }
        if self.registry.is_active(job_id) {
            return Err(ManagerError::Conflict);
        }
        let ghost before = self@;
        let mut taken = Manager::<H>::new();
        std::mem::swap(self, &mut taken);
        let Manager { jobs, registry, bus, stopped } = taken;
        let mut bus = bus;
        let _ = bus.evict(job_id);
        proof {
            lemma_evict_preserves(before, job_id@);
        }
        *self = Manager { jobs, registry, bus, stopped };
        Ok(())
    }

    /// A new receiver of the events of `job_id`. It is handed what is sent
    /// from now on, and none of what was sent before.
    pub fn subscribe(&self, job_id: &str) -> (r: Result<
        tokio::sync::broadcast::Receiver<SseEvent>,
        ManagerError,
    >)
        ensures
            match r {
                Ok(_) => self@.channels.contains_key(job_id@),
                Err(e) => !self@.channels.contains_key(job_id@) && e == ManagerError::NotFound,
            },
    {
        match self.bus.subscribe(job_id) {
            Some(receiver) => Ok(receiver),
            None => Err(ManagerError::NotFound),
        }
    }
}

} // verus!
