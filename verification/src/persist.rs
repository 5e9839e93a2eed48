//! The order of the file operations behind a dump and a load.
//!
//! Nothing here touches a file. A caller performs one [`Step`], reports what
//! came of it, and is told by [`next_step`] what to do next: a dump replaces
//! the file in full, a load refuses a location at which nothing exists, and
//! the first failure ends either.

use vstd::prelude::*;

use crate::error::DatabaseError;

verus! {

/// What is being done with the file.
#[derive(Clone, Copy, Debug)]
pub enum Job {
    /// Writing a database out.
    Dump,
    /// Reading a database in.
    Load,
}

/// One operation on the file at the resolved location, or the end of the job.
#[derive(Debug)]
pub enum Step {
    /// Find out whether anything exists at the location.
    Probe,
    /// Remove what exists there.
    Remove,
    /// Create the file.
    Create,
    /// Write the encoded database, all of it.
    Write,
    /// Read the file, all of it.
    Read,
    /// The job is done.
    Done,
    /// The job has failed, and nothing further is to be done.
    Failed(DatabaseError),
}

/// What came of a step.
#[derive(Debug)]
pub enum Report {
    /// The probe found something at the location.
    Present,
    /// The probe found nothing there.
    Absent,
    /// The operation went through.
    Completed,
    /// The operation failed.
    Broke(std::io::Error),
}

/// The steps that a job is made of.
pub open spec fn belongs(job: Job, step: Step) -> bool {
    match job {
        Job::Dump => !(step is Read),
        Job::Load => step is Probe || step is Read || step is Done || step is Failed,
    }
}

/// Whether `report` is an answer that `step` can get. A finished job gets none.
pub open spec fn answers(step: Step, report: Report) -> bool {
    match step {
        Step::Probe => report is Present || report is Absent,
        Step::Remove | Step::Create | Step::Write | Step::Read => report is Completed
            || report is Broke,
        Step::Done | Step::Failed(_) => false,
    }
}

/// The step that follows `step` once `report` has come in.
pub open spec fn following(job: Job, step: Step, report: Report) -> Step {
    match report {
        Report::Broke(cause) => Step::Failed(DatabaseError::IOError(cause)),
        Report::Present => match job {
            Job::Dump => Step::Remove,
            Job::Load => Step::Read,
        },
        Report::Absent => match job {
            Job::Dump => Step::Create,
            Job::Load => Step::Failed(DatabaseError::DatabaseNotFound),
        },
        Report::Completed => match step {
            Step::Remove => Step::Create,
            Step::Create => Step::Write,
            _ => Step::Done,
        },
    }
}

/// A bound on the number of operations that are still to come, `step` included.
pub open spec fn steps_left(step: Step) -> nat {
    match step {
        Step::Probe => 4,
        Step::Remove => 3,
        Step::Create => 2,
        Step::Write | Step::Read => 1,
        Step::Done | Step::Failed(_) => 0,
    }
}

/// The step that every job begins with.
pub fn first_step() -> (step: Step)
    ensures
        step == Step::Probe,
{
    Step::Probe
}

/// Decides what to do after `step` has been tried and `report` has come back.
pub fn next_step(job: Job, step: Step, report: Report) -> (next: Step)
    requires
        belongs(job, step),
        answers(step, report),
    ensures
        next == following(job, step, report),
        belongs(job, next),
{
    match report {
        Report::Broke(cause) => Step::Failed(DatabaseError::IOError(cause)),
        Report::Present => match job {
            Job::Dump => Step::Remove,
            Job::Load => Step::Read,
        },
        Report::Absent => match job {
            Job::Dump => Step::Create,
            Job::Load => Step::Failed(DatabaseError::DatabaseNotFound),
        },
        Report::Completed => match step {
            Step::Remove => Step::Create,
            Step::Create => Step::Write,
            _ => Step::Done,
        },
    }
}

/// A load reads only what a probe has found, and ends with
/// [`DatabaseError::DatabaseNotFound`], without reading, where the probe found
/// nothing.
pub proof fn lemma_load_reads_only_what_exists(step: Step, report: Report)
    requires
        belongs(Job::Load, step),
        answers(step, report),
    ensures
        following(Job::Load, step, report) is Read <==> step is Probe && report is Present,
        step is Probe && report is Absent ==> following(Job::Load, step, report) == Step::Failed(
            DatabaseError::DatabaseNotFound,
        ),
{
}

/// A dump removes only what a probe has found, creates the file before it
/// writes, and is done only once the write went through.
pub proof fn lemma_dump_replaces_in_full(step: Step, report: Report)
    requires
        belongs(Job::Dump, step),
        answers(step, report),
    ensures
        following(Job::Dump, step, report) is Remove <==> step is Probe && report is Present,
        following(Job::Dump, step, report) is Create <==> (step is Probe && report is Absent) || (
        step is Remove && report is Completed),
        following(Job::Dump, step, report) is Write <==> step is Create && report is Completed,
        following(Job::Dump, step, report) is Done <==> step is Write && report is Completed,
{
}

/// Every answer brings a job closer to its end, so a job is over after four
/// operations at most.
pub proof fn lemma_job_ends(job: Job, step: Step, report: Report)
    requires
        belongs(job, step),
        answers(step, report),
    ensures
        steps_left(following(job, step, report)) < steps_left(step),
{
}

/// The first failure ends a job, whichever it is, with its cause kept.
pub proof fn lemma_failure_ends_job(job: Job, step: Step, cause: std::io::Error)
    requires
        belongs(job, step),
        answers(step, Report::Broke(cause)),
    ensures
        following(job, step, Report::Broke(cause)) == Step::Failed(DatabaseError::IOError(cause)),
{
}

} // verus!
