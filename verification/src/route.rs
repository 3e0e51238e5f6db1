//! One route from its address to its outcome, and the summary of a run.

use crate::browser::{artifact_path, CaptureFailure, CapturePlan};
use crate::config::Config;
use crate::diff::{micro_percent_of, DiffError, Verdict};
use crate::text::{contains_text, remove_all, texts, without_all};
use crate::{DiffResult, SkipError};
use vstd::prelude::*;

verus! {

/// The slug of a route: its address without the trusted origin.
pub open spec fn slug_of(url: Seq<char>, trusted: Seq<char>) -> Seq<char> {
    without_all(url, trusted)
}

/// Whether a route is left out: whether its slug is among the ignored ones.
pub open spec fn is_ignored(config: Config, url: Seq<char>) -> bool {
    texts(config.ignored@).contains(slug_of(url, config.trusted@))
}

/// The slug of a route: its address without the trusted origin.
pub fn slug_from_url(url: &String, config: &Config) -> (slug: String)
    ensures
        slug@ == slug_of(url@, config.trusted@),
{
    remove_all(url.as_str(), config.trusted.as_str())
}

/// Decides what is to be done with a route. An ignored route is skipped:
/// nothing is planned for it, so no page is visited and no file written.
/// Every other route gets the plan of its capture.
pub fn plan_route(url: &String, config: &Config) -> (decision: Result<CapturePlan, SkipError>)
    ensures
        is_ignored(*config, url@) <==> decision is Err,
        decision matches Ok(plan) ==> {
            let slug = slug_of(url@, config.trusted@);
            &&& plan.trusted_url@ == config.trusted@ + slug
            &&& plan.testing_url@ == config.testing@ + slug
            &&& plan.trusted_path@ == artifact_path(config.screenshots@, slug, "_trusted.png"@)
            &&& plan.testing_path@ == artifact_path(config.screenshots@, slug, "_testing.png"@)
            &&& plan.diff_path@ == artifact_path(config.screenshots@, slug, "_diff.png"@)
        },
{
    let slug = slug_from_url(url, config);
    if contains_text(&config.ignored, &slug) {
        Err(SkipError::new())
    } else {
        Ok(CapturePlan::new(config, &slug))
    }
}

/// The kinds of error that a route can end in.
#[derive(Clone, Copy, Debug, PartialEq, Eq, Structural)]
pub enum ErrorKind {
    Navigation,
    ElementNotFound,
    Bounds,
    CorruptImage,
    DimensionMismatch,
    ArtifactIO,
}

/// What became of a route.
#[derive(Debug)]
pub enum RouteOutcome {
    /// The two captures agree within the threshold.
    Pass,
    /// They differ by this many millionths of a percent; the artifact shows
    /// where.
    Fail { micro_percent: u64, artifact_path: String },
    /// The route was ignored.
    Skipped,
    /// The route could not be captured or compared.
    Error { kind: ErrorKind, message: String },
}

/// The kind of error that a failed capture ends in.
pub open spec fn kind_of_failure(failure: CaptureFailure) -> ErrorKind {
    match failure {
        CaptureFailure::Navigation => ErrorKind::Navigation,
        CaptureFailure::ElementNotFound => ErrorKind::ElementNotFound,
        CaptureFailure::Bounds => ErrorKind::Bounds,
        CaptureFailure::ArtifactIO => ErrorKind::ArtifactIO,
    }
}

/// The kind of error that a failed comparison ends in.
pub open spec fn kind_of_diff_error(error: DiffError) -> ErrorKind {
    match error {
        DiffError::CorruptImage { .. } => ErrorKind::CorruptImage,
        DiffError::DimensionMismatch { .. } => ErrorKind::DimensionMismatch,
        DiffError::ArtifactIO { .. } => ErrorKind::ArtifactIO,
    }
}

/// The outcome of a route that was skipped.
pub fn outcome_of_skip(skip: SkipError) -> (outcome: RouteOutcome)
    ensures
        outcome is Skipped,
{
    RouteOutcome::Skipped
}

/// The outcome of a route whose capture was given up.
pub fn outcome_of_failure(failure: CaptureFailure, message: String) -> (outcome: RouteOutcome)
    ensures
        outcome == (RouteOutcome::Error { kind: kind_of_failure(failure), message }),
{
    let kind = match failure {
        CaptureFailure::Navigation => ErrorKind::Navigation,
        CaptureFailure::ElementNotFound => ErrorKind::ElementNotFound,
        CaptureFailure::Bounds => ErrorKind::Bounds,
        CaptureFailure::ArtifactIO => ErrorKind::ArtifactIO,
    };
    RouteOutcome::Error { kind, message }
}

/// The outcome of a route whose captures were compared: a pass or a fail as
/// the verdict says, the fail with its percent difference and the artifact's
/// path; an error of the comparison's kind where it gave no verdict.
pub fn outcome_of_comparison(compared: Result<DiffResult, DiffError>, diff_path: String) -> (outcome:
    RouteOutcome)
    ensures
        match compared {
            Ok(result) => match result.verdict {
                Verdict::Pass => outcome is Pass,
                Verdict::Fail => outcome == (RouteOutcome::Fail {
                    micro_percent: micro_percent_of(result.score@) as u64,
                    artifact_path: diff_path,
                }),
            },
            Err(error) => outcome matches RouteOutcome::Error { kind, .. } && kind
                == kind_of_diff_error(error),
        },
{
    match compared {
        Ok(result) => match result.verdict {
            Verdict::Pass => RouteOutcome::Pass,
            Verdict::Fail => RouteOutcome::Fail {
                micro_percent: result.score.micro_percent(),
                artifact_path: diff_path,
            },
        },
        Err(DiffError::CorruptImage { message }) => RouteOutcome::Error {
            kind: ErrorKind::CorruptImage,
            message,
        },
        Err(DiffError::DimensionMismatch { .. }) => RouteOutcome::Error {
            kind: ErrorKind::DimensionMismatch,
            message: "the two captures differ in size".to_string(),
        },
        Err(DiffError::ArtifactIO { message }) => RouteOutcome::Error {
            kind: ErrorKind::ArtifactIO,
            message,
        },
    }
}

/// The routes of a run by what became of them, each bucket in the order of
/// the run.
#[derive(Debug)]
pub struct Summary {
    pub passes: Vec<String>,
    pub fails: Vec<String>,
    pub skipped: Vec<String>,
    pub errors: Vec<String>,
}

impl Summary {
    /// The summary of a run in which no route was tested yet.
    pub fn new() -> (summary: Summary)
        ensures
            summary.passes@.len() == 0,
            summary.fails@.len() == 0,
            summary.skipped@.len() == 0,
            summary.errors@.len() == 0,
    {
        Summary { passes: Vec::new(), fails: Vec::new(), skipped: Vec::new(), errors: Vec::new() }
    }

    /// The number of routes in the summary.
    pub open spec fn total(&self) -> nat {
        self.passes@.len() + self.fails@.len() + self.skipped@.len() + self.errors@.len()
    }

    /// Files a route under its outcome: its slug is added to the bucket of
    /// that outcome, and the other buckets stay as they are.
    pub fn record(&mut self, slug: String, outcome: &RouteOutcome)
        ensures
            final(self).passes@ == if outcome is Pass {
                old(self).passes@.push(slug)
            } else {
                old(self).passes@
            },
            final(self).fails@ == if outcome is Fail {
                old(self).fails@.push(slug)
            } else {
                old(self).fails@
            },
            final(self).skipped@ == if outcome is Skipped {
                old(self).skipped@.push(slug)
            } else {
                old(self).skipped@
            },
            final(self).errors@ == if outcome is Error {
                old(self).errors@.push(slug)
            } else {
                old(self).errors@
            },
            final(self).total() == old(self).total() + 1,
    {
        match outcome {
            RouteOutcome::Pass => self.passes.push(slug),
            RouteOutcome::Fail { .. } => self.fails.push(slug),
            RouteOutcome::Skipped => self.skipped.push(slug),
            RouteOutcome::Error { .. } => self.errors.push(slug),
        }
    }
}

} // verus!
