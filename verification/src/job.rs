//! Data carried by a single project-creation job: its identity, its
//! eventual result, and the record describing the created project.

use vstd::prelude::*;

use crate::model::{DescModel, JobModel, ResultModel};

verus! {

/// Identifies which scaffolding template a job builds from.
#[derive(Clone, Copy, Debug, PartialEq, Eq, Structural)]
pub enum Template {
    Blank,
    Minimal,
}

/// Record describing a newly created project, appended to the project
/// list when a job succeeds.
pub struct ProjectDescriptor {
    pub path: String,
    pub template: Template,
}

impl View for ProjectDescriptor {
    type V = DescModel;

    open spec fn view(&self) -> DescModel {
        DescModel { path: self.path@, template: self.template }
    }
}

impl Clone for ProjectDescriptor {
    fn clone(&self) -> (r: Self)
        ensures
            r == *self,
    {
        ProjectDescriptor { path: self.path.clone(), template: self.template }
    }
}

/// What went wrong when a job failed; carried as data, never thrown.
pub struct ErrorDetail {
    pub message: String,
}

impl View for ErrorDetail {
    type V = Seq<char>;

    open spec fn view(&self) -> Seq<char> {
        self.message@
    }
}

/// The outcome a job hands back across the asynchronous boundary,
/// produced exactly once per job.
pub enum JobResult {
    Success(ProjectDescriptor),
    Failure(ErrorDetail),
}

impl View for JobResult {
    type V = ResultModel;

    open spec fn view(&self) -> ResultModel {
        match self {
            JobResult::Success(d) => ResultModel::Success(d@),
            JobResult::Failure(e) => ResultModel::Failure(e@),
        }
    }
}

/// Abstract view of what one non-blocking check of the job handed back.
pub open spec fn poll_model(p: Option<JobResult>) -> Option<ResultModel> {
    match p {
        Some(r) => Some(r@),
        None => None,
    }
}

/// Identity of the one in-flight job: the arguments it was started with.
/// The asynchronous computation itself lives with the host; the controller
/// only tracks that the slot is occupied and by which request.
pub struct PendingJob {
    pub template: Template,
    pub path: String,
}

impl View for PendingJob {
    type V = JobModel;

    open spec fn view(&self) -> JobModel {
        JobModel { template: self.template, path: self.path@ }
    }
}

} // verus!
