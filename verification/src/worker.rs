//! The section worker: what it asks of the content generator, and what it
//! reports to the manager before its work and after it.
//!
//! A worker reports its start, then does all of its work that may fail:
//! it asks the generator for the text, has the citations made, and has the
//! artifacts and the text stored. Only then does it report progress, so
//! that a run that fails never shows a progress of 100.

use vstd::prelude::*;
use crate::citations::convert_to_standard_citations;
use crate::lifecycle::{
    admits, lemma_section_names_differ, report_events, section_after, WorkerReport,
};
use crate::manager::Report;
use crate::models::{EnhancedCitation, EventView, Job, SectionDraft, SectionDraftView, SectionView};
use crate::prompts::{build_prompt, prompt};
use crate::status::{complete_name, in_progress_name, pending_name};
use crate::text::glue;

verus! {

/// The percentages that a worker reports once the text of its section is
/// there: from 0 to 100 in steps of 25.
pub open spec fn progress_plan() -> Seq<i32> {
    seq![0i32, 25i32, 50i32, 75i32, 100i32]
}

/// The percentages that a worker reports once the text of its section is
/// there.
pub fn progress_steps() -> (steps: Vec<i32>)
    ensures
        steps@ == progress_plan(),
{
    let mut steps: Vec<i32> = Vec::new();
    let mut p: i32 = 0;
    while p <= 100
        invariant
            0 <= p <= 125,
            p % 25 == 0,
            steps@ == progress_plan().take(p as int / 25),
        decreases 125 - p,
    {
        steps.push(p);
        assert(steps@ == progress_plan().take(p as int / 25 + 1)) by {
            assert(progress_plan()[p as int / 25] == p);
            assert(progress_plan().take(p as int / 25 + 1) == progress_plan().take(
                p as int / 25,
            ).push(p));
        }
        p += 25;
    }
    assert(progress_plan().take(5) == progress_plan());
    steps
}

/// The step of a run at which the run failed, with the cause.
#[derive(Debug, PartialEq, Eq)]
pub enum RunFailure {
    /// The content generator gave no text.
    Generator(String),
    /// The citations could not be made.
    Citations(String),
    /// The artifacts could not be stored.
    Artifacts(String),
    /// The text of the section could not be stored.
    Store(String),
}

/// View of a [`RunFailure`].
pub enum RunFailureView {
    Generator(Seq<char>),
    Citations(Seq<char>),
    Artifacts(Seq<char>),
    Store(Seq<char>),
}

impl View for RunFailure {
    type V = RunFailureView;

    open spec fn view(&self) -> RunFailureView {
        match self {
            RunFailure::Generator(cause) => RunFailureView::Generator(cause@),
            RunFailure::Citations(cause) => RunFailureView::Citations(cause@),
            RunFailure::Artifacts(cause) => RunFailureView::Artifacts(cause@),
            RunFailure::Store(cause) => RunFailureView::Store(cause@),
        }
    }
}

impl RunFailureView {
    /// The message of the failure: the cause, and for a step after the
    /// generator the step before it.
    pub open spec fn text(self) -> Seq<char> {
        match self {
            RunFailureView::Generator(cause) => cause,
            RunFailureView::Citations(cause) => "Citations failed: "@ + cause,
            RunFailureView::Artifacts(cause) => "Artifacts failed: "@ + cause,
            RunFailureView::Store(cause) => "Storing the section failed: "@ + cause,
        }
    }
}

impl RunFailure {
    /// The message of the failure.
    pub fn message(&self) -> (s: String)
        ensures
            s@ == self@.text(),
    {
        match self {
            RunFailure::Generator(cause) => cause.clone(),
            RunFailure::Citations(cause) => glue("Citations failed: ", cause.as_str()),
            RunFailure::Artifacts(cause) => glue("Artifacts failed: ", cause.as_str()),
            RunFailure::Store(cause) => glue("Storing the section failed: ", cause.as_str()),
        }
    }
}

/// What a worker reports after its work: on success the planned
/// percentages and then the completion with the text; on failure the
/// failure with its message, and nothing else.
pub open spec fn reports_for(outcome: Result<Seq<char>, Seq<char>>) -> Seq<WorkerReport> {
    match outcome {
        Ok(content) => Seq::new(5, |i: int| WorkerReport::Progress(progress_plan()[i])).push(
            WorkerReport::Completed(content),
        ),
        Err(message) => seq![WorkerReport::Failed(message)],
    }
}

/// The views of a vector of reports.
pub open spec fn report_views(v: Seq<Report>) -> Seq<WorkerReport> {
    Seq::new(v.len(), |i: int| v[i]@)
}

/// What of the outcome of a run shows in the reports: the text of the
/// draft, or the message of the failure.
pub open spec fn outcome_view(outcome: Result<SectionDraft, RunFailure>) -> Result<
    Seq<char>,
    Seq<char>,
> {
    match outcome {
        Ok(draft) => Ok(draft.content@),
        Err(failure) => Err(failure@.text()),
    }
}

/// The worker of the sections of one job.
pub struct Worker {
    job: Job,
}

impl Worker {
    /// A worker for the sections of `job`.
    pub fn new(job: Job) -> (w: Worker)
        ensures
            w.job() == job,
    {
        Worker { job }
    }

    /// The job whose sections this worker produces.
    pub closed spec fn job(&self) -> Job {
        self.job
    }

    /// The prompt by which this worker asks for the text of a section.
    pub fn prompt_for(&self, section_key: &str, section_title: &str) -> (p: String)
        ensures
            p@ == prompt(section_key@, section_title@, self.job()@.topic, self.job()@.depth as int),
    {
        build_prompt(section_key, section_title, self.job.topic.as_str(), self.job.depth)
    }

    /// What this worker reports first, before it does any work.
    pub fn first_report(&self) -> (r: Report)
        ensures
            r@ == WorkerReport::Started,
    {
        Report::Started
    }

    /// What this worker reports, in order, after its work: `outcome` is the
    /// draft of the section where every step of the run succeeded, and
    /// the failure of the first step that failed otherwise.
    pub fn reports_after(&self, outcome: Result<SectionDraft, RunFailure>) -> (reports: Vec<
        Report,
    >)
        ensures
            report_views(reports@) == reports_for(outcome_view(outcome)),
    {
        let mut reports: Vec<Report> = Vec::new();
        match outcome {
            Ok(draft) => {
                let steps = progress_steps();
                let mut i: usize = 0;
                while i < steps.len()
                    invariant
                        i <= steps.len(),
                        steps@ == progress_plan(),
                        reports.len() == i,
                        forall|j: int|
                            0 <= j < i ==> (#[trigger] reports@[j])@ == WorkerReport::Progress(
                                progress_plan()[j],
                            ),
                    decreases steps.len() - i,
                {
                    reports.push(Report::Progress(steps[i]));
                    i += 1;
                }
                reports.push(Report::Completed(draft.content));
                assert(report_views(reports@) =~= reports_for(outcome_view(outcome)));
            },
            Err(failure) => {
                reports.push(Report::Failed(failure.message()));
                assert(report_views(reports@) =~= reports_for(outcome_view(outcome)));
            },
        }
        reports
    }

    /// The draft of a section: its text, and its citations with the marks
    /// of verification taken off.
    pub fn process_section(&self, content: String, citations: Vec<EnhancedCitation>) -> (draft:
        SectionDraft)
        ensures
            draft@ == (SectionDraftView {
                content: content@,
                citations: Seq::new(citations@.len(), |i: int| citations@[i]@.base),
            }),
    {
        SectionDraft { content, citations: convert_to_standard_citations(citations) }
    }
}

/// The section after a run of reports, each taken in if the section admits
/// it and passed over if not.
pub open spec fn section_after_all(section: SectionView, reports: Seq<WorkerReport>) -> SectionView
    decreases reports.len(),
{
    if reports.len() == 0 {
        section
    } else {
        let before = section_after_all(section, reports.drop_last());
        if admits(before, reports.last()) {
            section_after(before, reports.last())
        } else {
            before
        }
    }
}

/// The percentages carried by the events of a run of reports, in the order
/// in which the events are published.
pub open spec fn observed_progress(section: SectionView, reports: Seq<WorkerReport>) -> Seq<i32>
    decreases reports.len(),
{
    if reports.len() == 0 {
        Seq::empty()
    } else {
        let earlier = observed_progress(section, reports.drop_last());
        let before = section_after_all(section, reports.drop_last());
        if admits(before, reports.last()) {
            earlier + event_progress(report_events(before, reports.last()))
        } else {
            earlier
        }
    }
}

/// The percentages carried by a run of events; events without one carry
/// none.
pub open spec fn event_progress(events: Seq<EventView>) -> Seq<i32>
    decreases events.len(),
{
    if events.len() == 0 {
        Seq::empty()
    } else {
        match events.last().progress {
            Some(p) => event_progress(events.drop_last()).push(p),
            None => event_progress(events.drop_last()),
        }
    }
}

/// Whether a run of percentages never falls and stays between `low` and
/// `high`.
pub open spec fn rising_within(values: Seq<i32>, low: int, high: int) -> bool {
    &&& forall|i: int| 0 <= i < values.len() ==> low <= #[trigger] values[i] <= high
    &&& forall|i: int, j: int| 0 <= i <= j < values.len() ==> values[i] <= values[j]
}

/// Whatever a section's worker reports and in whatever order, the progress
/// that observers see for the section never falls: it starts no lower than
/// the section stood, and ends no higher than the section stands
/// afterwards, which is at most 100.
pub proof fn lemma_observed_progress_rises(section: SectionView, reports: Seq<WorkerReport>)
    requires
        0 <= section.progress <= 100,
        section.status == pending_name() ==> section.progress == 0,
    ensures
        section.progress <= section_after_all(section, reports).progress <= 100,
        section_after_all(section, reports).status == pending_name() ==> section_after_all(
            section,
            reports,
        ).progress == 0,
        rising_within(
            observed_progress(section, reports),
            section.progress as int,
            section_after_all(section, reports).progress as int,
        ),
    decreases reports.len(),
{
    lemma_section_names_differ();
    if reports.len() > 0 {
        let earlier = reports.drop_last();
        lemma_observed_progress_rises(section, earlier);
        let before = section_after_all(section, earlier);
        let seen = observed_progress(section, earlier);
        let report = reports.last();
        if admits(before, report) {
            let events = report_events(before, report);
            let added = event_progress(events);
            let after = section_after(before, report);
            reveal_with_fuel(event_progress, 3);
            match report {
                WorkerReport::Started => {
                    assert(events.drop_last() == Seq::<EventView>::empty());
                    assert(added == seq![0i32]);
                },
                WorkerReport::Progress(p) => {
                    assert(events.drop_last() == Seq::<EventView>::empty());
                    assert(added == seq![p]);
                },
                WorkerReport::Completed(content) => {
                    assert(events.drop_last() == seq![events[0]]);
                    assert(events.drop_last().drop_last() == Seq::<
                        EventView,
                    >::empty());
                    assert(added == seq![100i32, 100i32]);
                },
                WorkerReport::Failed(message) => {
                    assert(events.drop_last() == Seq::<EventView>::empty());
                    assert(added == Seq::<i32>::empty());
                },
            }
            let all = seen + added;
            assert forall|i: int, j: int| 0 <= i <= j < all.len() implies all[i] <= all[j] by {
                if j < seen.len() {
                    assert(all[i] == seen[i] && all[j] == seen[j]);
                } else if i < seen.len() {
                    assert(all[i] == seen[i]);
                    assert(all[j] == added[j - seen.len()]);
                } else {
                    assert(all[i] == added[i - seen.len()]);
                    assert(all[j] == added[j - seen.len()]);
                }
            }
            assert forall|i: int| 0 <= i < all.len() implies section.progress <= #[trigger] all[i]
                <= after.progress by {
                if i < seen.len() {
                    assert(all[i] == seen[i]);
                } else {
                    assert(all[i] == added[i - seen.len()]);
                }
            }
        }
    }
}

/// A worker that starts on a pending section and whose every step succeeds
/// has every report taken in, and leaves the section complete at exactly
/// 100 with the generated text; the last progress that observers see is
/// 100.
pub proof fn lemma_successful_run(section: SectionView, content: Seq<char>)
    requires
        section.status == pending_name(),
        section.progress == 0,
    ensures
        ({
            let reports = seq![WorkerReport::Started] + reports_for(Ok(content));
            let end = section_after_all(section, reports);
            &&& end.progress == 100
            &&& end.status == complete_name()
            &&& end.output_md == content
            &&& observed_progress(section, reports) == seq![
                0i32,
                0i32,
                25i32,
                50i32,
                75i32,
                100i32,
                100i32,
                100i32,
            ]
        }),
{
    lemma_section_names_differ();
    let reports = seq![WorkerReport::Started] + reports_for(Ok(content));
    let r0 = seq![WorkerReport::Started];
    let r1 = r0.push(WorkerReport::Progress(0));
    let r2 = r1.push(WorkerReport::Progress(25));
    let r3 = r2.push(WorkerReport::Progress(50));
    let r4 = r3.push(WorkerReport::Progress(75));
    let r5 = r4.push(WorkerReport::Progress(100));
    let r6 = r5.push(WorkerReport::Completed(content));
    assert(reports =~= r6);
    assert(r0.drop_last() == Seq::<WorkerReport>::empty());
    assert(r1.drop_last() == r0);
    assert(r2.drop_last() == r1);
    assert(r3.drop_last() == r2);
    assert(r4.drop_last() == r3);
    assert(r5.drop_last() == r4);
    assert(r6.drop_last() == r5);
    reveal_with_fuel(section_after_all, 2);
    reveal_with_fuel(observed_progress, 2);
    reveal_with_fuel(event_progress, 3);
    let s0 = section_after_all(section, r0);
    assert(s0 == section_after(section, WorkerReport::Started));
    let e0 = report_events(section, WorkerReport::Started);
    assert(e0.drop_last() == Seq::<EventView>::empty());
    assert(observed_progress(section, r0) =~= seq![0i32]);
    let s1 = section_after_all(section, r1);
    assert(s1 == section_after(s0, WorkerReport::Progress(0)));
    assert(report_events(s0, WorkerReport::Progress(0)).drop_last() == Seq::<
        EventView,
    >::empty());
    assert(observed_progress(section, r1) =~= seq![0i32, 0i32]);
    let s2 = section_after_all(section, r2);
    assert(s2 == section_after(s1, WorkerReport::Progress(25)));
    assert(report_events(s1, WorkerReport::Progress(25)).drop_last() == Seq::<
        EventView,
    >::empty());
    assert(observed_progress(section, r2) =~= seq![0i32, 0i32, 25i32]);
    let s3 = section_after_all(section, r3);
    assert(s3 == section_after(s2, WorkerReport::Progress(50)));
    assert(report_events(s2, WorkerReport::Progress(50)).drop_last() == Seq::<
        EventView,
    >::empty());
    assert(observed_progress(section, r3) =~= seq![0i32, 0i32, 25i32, 50i32]);
    let s4 = section_after_all(section, r4);
    assert(s4 == section_after(s3, WorkerReport::Progress(75)));
    assert(report_events(s3, WorkerReport::Progress(75)).drop_last() == Seq::<
        EventView,
    >::empty());
    assert(observed_progress(section, r4) =~= seq![0i32, 0i32, 25i32, 50i32, 75i32]);
    let s5 = section_after_all(section, r5);
    assert(s5 == section_after(s4, WorkerReport::Progress(100)));
    assert(report_events(s4, WorkerReport::Progress(100)).drop_last() == Seq::<
        EventView,
    >::empty());
    assert(observed_progress(section, r5) =~= seq![0i32, 0i32, 25i32, 50i32, 75i32, 100i32]);
    let s6 = section_after_all(section, r6);
    assert(s6 == section_after(s5, WorkerReport::Completed(content)));
    let e6 = report_events(s5, WorkerReport::Completed(content));
    assert(e6.drop_last() == seq![e6[0]]);
    assert(e6.drop_last().drop_last() == Seq::<EventView>::empty());
    assert(event_progress(e6) =~= seq![100i32, 100i32]);
    assert(observed_progress(section, r6) =~= seq![
        0i32,
        0i32,
        25i32,
        50i32,
        75i32,
        100i32,
        100i32,
        100i32,
    ]);
}

/// A run that fails, at whatever step and for whatever cause, leaves the
/// section where it stood after the start: not complete, at progress 0,
/// and no observer sees a progress above 0.
pub proof fn lemma_failed_run(section: SectionView, failure: RunFailureView)
    requires
        section.status == pending_name(),
        section.progress == 0,
    ensures
        ({
            let reports = seq![WorkerReport::Started] + reports_for(Err(failure.text()));
            let end = section_after_all(section, reports);
            &&& end.progress == 0
            &&& end.status == in_progress_name()
            &&& end.status != complete_name()
            &&& observed_progress(section, reports) == seq![0i32]
        }),
{
    let message = failure.text();
    lemma_section_names_differ();
    let r0 = seq![WorkerReport::Started];
    let r1 = r0.push(WorkerReport::Failed(message));
    assert(seq![WorkerReport::Started] + reports_for(Err(message)) =~= r1);
    assert(r0.drop_last() == Seq::<WorkerReport>::empty());
    assert(r1.drop_last() == r0);
    reveal_with_fuel(section_after_all, 2);
    reveal_with_fuel(observed_progress, 2);
    reveal_with_fuel(event_progress, 3);
    let s0 = section_after_all(section, r0);
    assert(s0 == section_after(section, WorkerReport::Started));
    assert(report_events(section, WorkerReport::Started).drop_last() == Seq::<
        EventView,
    >::empty());
    assert(observed_progress(section, r0) =~= seq![0i32]);
    assert(report_events(s0, WorkerReport::Failed(message)).drop_last() == Seq::<
        EventView,
    >::empty());
    assert(observed_progress(section, r1) =~= seq![0i32]);
}

/// The progress that observers see of a run reaches 100 exactly if the
/// run succeeded: whatever the outcome of the work, the percentages seen
/// never fall, and one of them is 100 if and only if every step of the run
/// succeeded.
pub proof fn lemma_hundred_only_on_success(
    section: SectionView,
    outcome: Result<Seq<char>, Seq<char>>,
)
    requires
        section.status == pending_name(),
        section.progress == 0,
    ensures
        ({
            let reports = seq![WorkerReport::Started] + reports_for(outcome);
            let seen = observed_progress(section, reports);
            &&& rising_within(seen, 0, 100)
            &&& (exists|k: int| 0 <= k < seen.len() && #[trigger] seen[k] == 100) <==> outcome is Ok
            &&& section_after_all(section, reports).status == complete_name() <==> outcome is Ok
        }),
{
    lemma_section_names_differ();
    let reports = seq![WorkerReport::Started] + reports_for(outcome);
    let seen = observed_progress(section, reports);
    lemma_observed_progress_rises(section, reports);
    match outcome {
        Ok(content) => {
            lemma_successful_run(section, content);
            assert(seen[5] == 100);
        },
        Err(message) => {
            lemma_failed_run(section, RunFailureView::Generator(message));
            assert(seen[0] == 0);
        },
    }
}

} // verus!
