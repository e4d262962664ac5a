//! What the transport layer needs of the core: the record of a new job and
//! the answer to a failed request.

use vstd::prelude::*;
use crate::clock::Timestamp;
use crate::error::ManagerError;
use crate::ident::{fresh_id, is_identifier};
use crate::lifecycle::new_job_view;
use crate::models::{JobSubmission, NewJob};
use crate::status::JobStatus;

verus! {

/// The record of a job as it is first stored: the submission under the
/// identifier and the instant given, named submitted.
pub fn new_job(id: String, submission: JobSubmission, created_at: Timestamp) -> (job: NewJob)
    ensures
        job@ == new_job_view(id@, submission@.topic, submission.depth, created_at),
{
    NewJob {
        id,
        topic: submission.topic,
        depth: submission.depth,
        created_at,
        status: JobStatus::Submitted.as_str().to_string(),
    }
}

/// The record of a job as it is first stored, under a fresh identifier and
/// the instant that the clock gives.
pub fn fresh_job(submission: JobSubmission) -> (job: NewJob)
    ensures
        is_identifier(job@.id),
        job@ == new_job_view(job@.id, submission@.topic, submission.depth, job@.created_at),
{
    new_job(fresh_id(), submission, Timestamp::now())
}

/// The status code that answers a request refused for `error`.
pub open spec fn status_code(error: ManagerError) -> u16 {
    match error {
        ManagerError::NotFound => 404,
        ManagerError::Conflict => 409,
        ManagerError::UpstreamFailure => 502,
        ManagerError::PersistenceFailure => 500,
        ManagerError::Cancelled => 500,
    }
}

/// The text that answers a request about a job refused for `error`.
pub open spec fn failure_text(error: ManagerError) -> Seq<char> {
    match error {
        ManagerError::NotFound => "Job not found"@,
        ManagerError::Conflict => "Job cannot be resumed in its current state"@,
        ManagerError::UpstreamFailure => "Content generation failed"@,
        ManagerError::PersistenceFailure => "Storage failed"@,
        ManagerError::Cancelled => "Job was cancelled"@,
    }
}

/// The status code and text that answer a request about a job refused for
/// `error`.
pub fn failure_response(error: ManagerError) -> (r: (u16, String))
    ensures
        r.0 == status_code(error),
        r.1@ == failure_text(error),
{
    match error {
        ManagerError::NotFound => (404, "Job not found".to_string()),
        ManagerError::Conflict => (409, "Job cannot be resumed in its current state".to_string()),
        ManagerError::UpstreamFailure => (502, "Content generation failed".to_string()),
        ManagerError::PersistenceFailure => (500, "Storage failed".to_string()),
        ManagerError::Cancelled => (500, "Job was cancelled".to_string()),
    }
}

} // verus!
