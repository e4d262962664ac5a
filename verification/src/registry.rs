//! The registry of running jobs: for each job that has a supervisor, the
//! handle by which that supervisor can be stopped.

use vstd::prelude::*;
use crate::table::Table;

verus! {

/// The handle of a task of `tokio`, carried through as it is.
#[verifier::external_type_specification]
#[verifier::external_body]
#[verifier::reject_recursive_types(T)]
pub struct ExJoinHandle<T>(tokio::task::JoinHandle<T>);

/// The error with which a task of `tokio` ends when it is cancelled or
/// fails hard; it occurs in the type of a task's handle.
#[verifier::external_type_specification]
#[verifier::external_body]
pub struct ExJoinError(tokio::task::JoinError);

/// Cancels a task.
///
/// Trusted: `tokio::task::JoinHandle::abort`, which has no result; the
/// task ends when it next yields, if it has not ended before.
#[verifier::external_body]
fn abort_task(handle: &tokio::task::JoinHandle<()>) {
    handle.abort()
}

/// What a supervisor's handle must offer: a way to stop the supervisor and,
/// with it, the workers it drives.
pub trait Stop {
    /// Stops the supervisor. Stopping one that has ended changes nothing.
    fn stop(&self);
}

impl Stop for tokio::task::JoinHandle<()> {
    fn stop(&self) {
        abort_task(self)
    }
}

/// The handles of the supervisors of all running jobs, by job id.
pub struct Registry<H> {
    handles: Table<H>,
}

impl<H> View for Registry<H> {
    type V = Map<Seq<char>, H>;

    closed spec fn view(&self) -> Map<Seq<char>, H> {
        self.handles@
    }
}

impl<H> Registry<H> {
    /// A registry without entries.
    pub fn new() -> (r: Self)
        ensures
            r@ == Map::<Seq<char>, H>::empty(),
    {
        Registry { handles: Table::new() }
    }

    /// Whether `job_id` has an entry.
    pub fn is_active(&self, job_id: &str) -> (r: bool)
        ensures
            r == self@.contains_key(job_id@),
    {
        self.handles.contains_key(job_id)
    }

    /// Enters `handle` for `job_id`, and hands back the handle that the job
    /// had before, if it had one.
    pub fn register(&mut self, job_id: &str, handle: H) -> (previous: Option<H>)
        ensures
            final(self)@ == old(self)@.insert(job_id@, handle),
            match previous {
                Some(h) => old(self)@.contains_key(job_id@) && h == old(self)@[job_id@],
                None => !old(self)@.contains_key(job_id@),
            },
    {
        self.handles.insert(job_id.to_string(), handle)
    }

    /// Removes the entry of `job_id` and hands its handle out.
    pub fn take(&mut self, job_id: &str) -> (taken: Option<H>)
        ensures
            final(self)@ == old(self)@.remove(job_id@),
            match taken {
                Some(h) => old(self)@.contains_key(job_id@) && h == old(self)@[job_id@],
                None => !old(self)@.contains_key(job_id@),
            },
    {
        self.handles.remove(job_id)
    }
}

} // verus!
