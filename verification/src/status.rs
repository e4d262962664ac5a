//! The states of a job and of a section, and the moves between them.

use vstd::prelude::*;
use crate::text::{contains, has_substring, same_text};

verus! {

/// Where a job stands in its life.
#[derive(Clone, Copy, Debug, PartialEq, Eq, Structural)]
pub enum JobStatus {
    /// Created, sections not stored yet.
    Submitted,
    /// Sections stored; workers may be running.
    Processing,
    /// Every section was produced.
    Complete,
    /// Stopped on request.
    Cancelled,
    /// Ended without every section produced.
    Failed,
}

impl JobStatus {
    /// The name under which a status is stored and shown.
    pub open spec fn name(self) -> Seq<char> {
        match self {
            JobStatus::Submitted => "submitted"@,
            JobStatus::Processing => "processing"@,
            JobStatus::Complete => "complete"@,
            JobStatus::Cancelled => "cancelled"@,
            JobStatus::Failed => "failed"@,
        }
    }

    /// The status that a stored name stands for: one of the five names, or,
    /// as a failed variant, any other text that holds `failed`.
    pub open spec fn named(s: Seq<char>) -> Option<JobStatus> {
        if s == "submitted"@ {
            Some(JobStatus::Submitted)
        } else if s == "processing"@ {
            Some(JobStatus::Processing)
        } else if s == "complete"@ {
            Some(JobStatus::Complete)
        } else if s == "cancelled"@ {
            Some(JobStatus::Cancelled)
        } else if has_substring(s, "failed"@) {
            Some(JobStatus::Failed)
        } else {
            None
        }
    }

    /// Whether a job may move from `self` to `next`.
    pub open spec fn can_become(self, next: JobStatus) -> bool {
        match (self, next) {
            (JobStatus::Submitted, JobStatus::Processing) => true,
            (JobStatus::Processing, JobStatus::Complete) => true,
            (JobStatus::Processing, JobStatus::Cancelled) => true,
            (JobStatus::Processing, JobStatus::Failed) => true,
            (JobStatus::Cancelled, JobStatus::Processing) => true,
            (JobStatus::Failed, JobStatus::Processing) => true,
            _ => false,
        }
    }

    /// Whether a job in this status may be resumed.
    pub open spec fn resumable(self) -> bool {
        self == JobStatus::Cancelled || self == JobStatus::Failed
    }

    /// The name under which this status is stored and shown.
    pub fn as_str(self) -> (s: &'static str)
        ensures
            s@ == self.name(),
    {
        match self {
            JobStatus::Submitted => "submitted",
            JobStatus::Processing => "processing",
            JobStatus::Complete => "complete",
            JobStatus::Cancelled => "cancelled",
            JobStatus::Failed => "failed",
        }
    }

    /// Reads a stored status name.
    pub fn parse(s: &str) -> (r: Option<JobStatus>)
        ensures
            r == JobStatus::named(s@),
    {
        if same_text(s, "submitted") {
            Some(JobStatus::Submitted)
        } else if same_text(s, "processing") {
            Some(JobStatus::Processing)
        } else if same_text(s, "complete") {
            Some(JobStatus::Complete)
        } else if same_text(s, "cancelled") {
            Some(JobStatus::Cancelled)
        } else if contains(s, "failed") {
            Some(JobStatus::Failed)
        } else {
            None
        }
    }

    /// Whether a job in this status may be resumed.
    pub fn is_resumable(self) -> (r: bool)
        ensures
            r == self.resumable(),
    {
        match self {
            JobStatus::Cancelled => true,
            JobStatus::Failed => true,
            _ => false,
        }
    }
}

/// No move leaves a complete job.
pub proof fn lemma_complete_is_final(next: JobStatus)
    ensures
        !JobStatus::Complete.can_become(next),
{
}

/// A job may be resumed exactly from the states that lead back to
/// processing, and those are none of submitted, processing and complete.
pub proof fn lemma_resumable_leads_to_processing(from: JobStatus)
    ensures
        from.resumable() <==> (from.can_become(JobStatus::Processing) && from
            != JobStatus::Submitted),
{
}

/// Every status is read back from its own name.
pub proof fn lemma_name_round_trip(status: JobStatus)
    ensures
        JobStatus::named(status.name()) == Some(status),
{
    reveal_strlit("submitted");
    reveal_strlit("processing");
    reveal_strlit("complete");
    reveal_strlit("cancelled");
    reveal_strlit("failed");
    if status == JobStatus::Failed {
        let s = "failed"@;
        assert("submitted"@.len() == 9);
        assert("processing"@.len() == 10);
        assert("complete"@.len() == 8);
        assert("cancelled"@.len() == 9);
        assert(s.len() == 6);
        assert(s.subrange(0, 6) == s);
        assert(crate::text::occurs_at(s, s, 0));
    } else {
        assert("submitted"@[0] == 's');
        assert("processing"@[0] == 'p');
        assert("complete"@[1] == 'o');
        assert("cancelled"@[1] == 'a');
    }
}

/// Where a section stands in its life.
#[derive(Clone, Copy, Debug, PartialEq, Eq, Structural)]
pub enum SectionStatus {
    /// No worker has taken the section up.
    Pending,
    /// The section's worker is running.
    InProgress,
    /// The section was produced.
    Complete,
}

impl SectionStatus {
    /// The name under which a section's state is stored and shown.
    pub open spec fn name(self) -> Seq<char> {
        match self {
            SectionStatus::Pending => "pending"@,
            SectionStatus::InProgress => "in_progress"@,
            SectionStatus::Complete => "complete"@,
        }
    }

    /// The name under which a section's state is stored and shown.
    pub fn as_str(self) -> (s: &'static str)
        ensures
            s@ == self.name(),
    {
        match self {
            SectionStatus::Pending => "pending",
            SectionStatus::InProgress => "in_progress",
            SectionStatus::Complete => "complete",
        }
    }
}

/// Name of a section that no worker has taken up.
pub open spec fn pending_name() -> Seq<char> {
    SectionStatus::Pending.name()
}

/// Name of a section whose worker is running.
pub open spec fn in_progress_name() -> Seq<char> {
    SectionStatus::InProgress.name()
}

/// Name of a section that was produced.
pub open spec fn complete_name() -> Seq<char> {
    SectionStatus::Complete.name()
}

} // verus!
