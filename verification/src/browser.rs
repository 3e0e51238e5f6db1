//! The capture orchestrator: what the browser tab is asked to do for one
//! route, and in which order.
//!
//! The tab itself belongs to the caller. The caller starts with [`begin`],
//! carries out each command it is handed, and reports how that went to
//! [`advance`], which hands out the next command.

use crate::config::Config;
use crate::text::joined;
use crate::url_utils::{get_name_from_slug, slug_name};
use std::time::Duration;
use vstd::prelude::*;

verus! {

/// The delay before any capture, in microseconds: it absorbs the jitter of
/// network and device.
pub const BASE_DELAY_MICROS: u64 = 30_000;

/// The rendered area, in square pixels, that adds one microsecond of delay.
pub const AREA_PER_MICRO: u64 = 10;

/// The width every page is laid out at before it is measured.
pub const INITIAL_WIDTH: u32 = 1600;

/// The time, in microseconds, that a page of the given area is left to
/// settle: the base delay and one microsecond for every ten square pixels.
pub open spec fn render_delay(area: nat) -> nat {
    BASE_DELAY_MICROS as nat + area / (AREA_PER_MICRO as nat)
}

/// A larger page never gets a shorter delay.
pub proof fn lemma_render_delay_monotone(smaller: nat, larger: nat)
    requires
        smaller <= larger,
    ensures
        render_delay(smaller) <= render_delay(larger),
{
}

/// The time, in microseconds, that a page of the given area is left to
/// settle.
pub fn render_delay_micros(area: u64) -> (micros: u64)
    ensures
        micros == render_delay(area as nat),
{
    BASE_DELAY_MICROS + area / AREA_PER_MICRO
}

/// The duration of that many microseconds, as `Duration::from_micros` makes
/// it.
pub uninterp spec fn duration_of_micros(micros: u64) -> Duration;

/// `Duration::from_micros` makes a duration of that many microseconds.
/// Claimed: the duration depends on the number alone.
pub assume_specification[ Duration::from_micros ](micros: u64) -> (duration: Duration)
    ensures
        duration == duration_of_micros(micros),
;

/// The time that a capture of that many square pixels is left to settle.
pub fn calculate_render_sleep(px_in_capture: &u32) -> (delay: Duration)
    ensures
        delay == duration_of_micros(render_delay(*px_in_capture as nat) as u64),
{
    Duration::from_micros(render_delay_micros(*px_in_capture as u64))
}

/// One of the two origins that a route is rendered on.
#[derive(Clone, Copy, Debug, PartialEq, Eq, Structural)]
pub enum Origin {
    Trusted,
    Testing,
}

/// The steps of one capture, in their order.
#[derive(Clone, Copy, Debug, PartialEq, Eq, Structural)]
pub enum Step {
    Navigate,
    FixWidth,
    ForceScrollbar,
    MovePointer,
    Measure,
    Resize,
    Settle,
    Screenshot,
    Persist,
}

/// The kinds of failure that end a capture.
#[derive(Clone, Copy, Debug, PartialEq, Eq, Structural)]
pub enum CaptureFailure {
    /// The page could not be reached, or did not load in time.
    Navigation,
    /// An element that the capture needs never appeared.
    ElementNotFound,
    /// The tab refused its bounds, or they cannot be expressed.
    Bounds,
    /// A screenshot could not be written.
    ArtifactIO,
}

/// Where a capture stands.
#[derive(Clone, Copy, Debug, PartialEq, Eq, Structural)]
pub enum Phase {
    /// A command was handed out and its reply is awaited.
    Awaiting { origin: Origin, step: Step },
    /// Both screenshots are taken and written.
    Finished,
    /// The capture was given up.
    Aborted { failure: CaptureFailure },
}

/// The state of one route's capture: where it stands, and the size of the
/// content as it was last measured.
#[derive(Clone, Copy, Debug, PartialEq, Eq, Structural)]
pub struct CaptureState {
    pub phase: Phase,
    pub content_width: u32,
    pub content_height: u32,
}

/// What the caller is asked to do next.
#[derive(Clone, Copy, Debug, PartialEq, Eq)]
pub enum Command {
    /// Go to the route on this origin and wait until it has loaded.
    Navigate { origin: Origin },
    /// Set those bounds of the tab that are given, and leave the others.
    SetBounds { left: Option<u32>, top: Option<u32>, width: Option<u32>, height: Option<u32> },
    /// Make the page's body always show its scrollbar.
    ForceScrollbar,
    /// Move the pointer over the page's body.
    MovePointer,
    /// Measure the laid-out content box of the page.
    Measure,
    /// Wait for this many microseconds.
    Settle { micros: u64 },
    /// Take an opaque PNG screenshot, clipped to the content with its margins.
    Screenshot,
    /// Write the screenshot just taken to this origin's file.
    Persist { origin: Origin },
    /// The capture is complete.
    Finish,
    /// The capture is given up.
    Abort { failure: CaptureFailure },
}

/// How the last command went.
#[derive(Clone, Copy, Debug, PartialEq, Eq, Structural)]
pub enum Reply {
    /// It was carried out.
    Done,
    /// The content was measured, with this width and height.
    Measured { width: u32, height: u32 },
    /// It failed.
    Failed,
}

/// The step that follows `step` in the capture of one origin, if one does.
pub open spec fn step_after(step: Step) -> Option<Step> {
    match step {
        Step::Navigate => Some(Step::FixWidth),
        Step::FixWidth => Some(Step::ForceScrollbar),
        Step::ForceScrollbar => Some(Step::MovePointer),
        Step::MovePointer => Some(Step::Measure),
        Step::Measure => Some(Step::Resize),
        Step::Resize => Some(Step::Settle),
        Step::Settle => Some(Step::Screenshot),
        Step::Screenshot => Some(Step::Persist),
        Step::Persist => None,
    }
}

/// The kind of failure that a failed step stands for.
pub open spec fn failure_of(step: Step) -> CaptureFailure {
    match step {
        Step::Navigate => CaptureFailure::Navigation,
        Step::ForceScrollbar | Step::MovePointer | Step::Measure => CaptureFailure::ElementNotFound,
        Step::FixWidth | Step::Resize | Step::Settle | Step::Screenshot => CaptureFailure::Bounds,
        Step::Persist => CaptureFailure::ArtifactIO,
    }
}

/// The command that asks for `step` on `origin`, for content of the given
/// size.
pub open spec fn command_for(origin: Origin, step: Step, width: u32, height: u32) -> Command {
    match step {
        Step::Navigate => Command::Navigate { origin },
        Step::FixWidth => Command::SetBounds {
            left: Some(0u32),
            top: Some(0u32),
            width: Some(INITIAL_WIDTH),
            height: None,
        },
        Step::ForceScrollbar => Command::ForceScrollbar,
        Step::MovePointer => Command::MovePointer,
        Step::Measure => Command::Measure,
        Step::Resize => Command::SetBounds {
            left: None,
            top: None,
            width: None,
            height: Some((height + 1) as u32),
        },
        Step::Settle => Command::Settle {
            micros: render_delay(width as nat * height as nat) as u64,
        },
        Step::Screenshot => Command::Screenshot,
        Step::Persist => Command::Persist { origin },
    }
}

/// Whether `reply` reports that `step` was carried out: a measurement for
/// the step that measures, a plain success for every other.
pub open spec fn answers(step: Step, reply: Reply) -> bool {
    match reply {
        Reply::Done => step != Step::Measure,
        Reply::Measured { .. } => step == Step::Measure,
        Reply::Failed => false,
    }
}

/// The state in which the command for `step` on `origin` is awaited.
pub open spec fn awaiting(origin: Origin, step: Step, width: u32, height: u32) -> CaptureState {
    CaptureState {
        phase: Phase::Awaiting { origin, step },
        content_width: width,
        content_height: height,
    }
}

/// The state in which the capture is given up.
pub open spec fn aborted(failure: CaptureFailure, width: u32, height: u32) -> CaptureState {
    CaptureState { phase: Phase::Aborted { failure }, content_width: width, content_height: height }
}

/// The state and the command that follow `state` on `reply`.
///
/// A capture that is finished or given up stays so. A step that was not
/// carried out ends the capture with the failure that the step stands for. So
/// does a measured height that leaves no room for the pixel of slack.
/// Otherwise the next step of the same origin follows, with the content size
/// taken from the reply where it is a measurement; after the trusted origin's
/// last step the testing origin's first, and after the testing origin's last
/// the capture is finished.
pub open spec fn transition(state: CaptureState, reply: Reply) -> (CaptureState, Command) {
    match state.phase {
        Phase::Finished => (state, Command::Finish),
        Phase::Aborted { failure } => (state, Command::Abort { failure }),
        Phase::Awaiting { origin, step } => {
            let (width, height) = match reply {
                Reply::Measured { width, height } => (width, height),
                _ => (state.content_width, state.content_height),
            };
            if !answers(step, reply) {
                (
                    aborted(failure_of(step), state.content_width, state.content_height),
                    Command::Abort { failure: failure_of(step) },
                )
            } else if step == Step::Measure && height == u32::MAX {
                (
                    aborted(CaptureFailure::Bounds, width, height),
                    Command::Abort { failure: CaptureFailure::Bounds },
                )
            } else {
                match step_after(step) {
                    Some(next) => (
                        awaiting(origin, next, width, height),
                        command_for(origin, next, width, height),
                    ),
                    None => match origin {
                        Origin::Trusted => (
                            awaiting(Origin::Testing, Step::Navigate, width, height),
                            Command::Navigate { origin: Origin::Testing },
                        ),
                        Origin::Testing => (
                            CaptureState {
                                phase: Phase::Finished,
                                content_width: width,
                                content_height: height,
                            },
                            Command::Finish,
                        ),
                    },
                }
            }
        },
    }
}

/// Starts the capture of a route: the trusted origin is visited first.
pub fn begin() -> (start: (CaptureState, Command))
    ensures
        start.0 == awaiting(Origin::Trusted, Step::Navigate, 0, 0),
        start.1 == (Command::Navigate { origin: Origin::Trusted }),
{
    (
        CaptureState {
            phase: Phase::Awaiting { origin: Origin::Trusted, step: Step::Navigate },
            content_width: 0,
            content_height: 0,
        },
        Command::Navigate { origin: Origin::Trusted },
    )
}

fn next_step(step: Step) -> (next: Option<Step>)
    ensures
        next == step_after(step),
{
    match step {
        Step::Navigate => Some(Step::FixWidth),
        Step::FixWidth => Some(Step::ForceScrollbar),
        Step::ForceScrollbar => Some(Step::MovePointer),
        Step::MovePointer => Some(Step::Measure),
        Step::Measure => Some(Step::Resize),
        Step::Resize => Some(Step::Settle),
        Step::Settle => Some(Step::Screenshot),
        Step::Screenshot => Some(Step::Persist),
        Step::Persist => None,
    }
}

fn failure_for(step: Step) -> (failure: CaptureFailure)
    ensures
        failure == failure_of(step),
{
    match step {
        Step::Navigate => CaptureFailure::Navigation,
        Step::ForceScrollbar | Step::MovePointer | Step::Measure => CaptureFailure::ElementNotFound,
        Step::FixWidth | Step::Resize | Step::Settle | Step::Screenshot => CaptureFailure::Bounds,
        Step::Persist => CaptureFailure::ArtifactIO,
    }
}

fn issue(origin: Origin, step: Step, width: u32, height: u32) -> (command: Command)
    requires
        step == Step::Resize ==> height < u32::MAX,
    ensures
        command == command_for(origin, step, width, height),
{
    match step {
        Step::Navigate => Command::Navigate { origin },
        Step::FixWidth => Command::SetBounds {
            left: Some(0),
            top: Some(0),
            width: Some(INITIAL_WIDTH),
            height: None,
        },
        Step::ForceScrollbar => Command::ForceScrollbar,
        Step::MovePointer => Command::MovePointer,
        Step::Measure => Command::Measure,
        Step::Resize => Command::SetBounds {
            left: None,
            top: None,
            width: None,
            height: Some(height + 1),
        },
        Step::Settle => {
            proof {
                crate::pixels::lemma_area_fits(width, height);
            }
            Command::Settle { micros: render_delay_micros((width as u64) * (height as u64)) }
        },
        Step::Screenshot => Command::Screenshot,
        Step::Persist => Command::Persist { origin },
    }
}

/// Takes the reply to the last command and hands out the next one.
pub fn advance(state: CaptureState, reply: Reply) -> (next: (CaptureState, Command))
    ensures
        next == transition(state, reply),
{
    match state.phase {
        Phase::Finished => (state, Command::Finish),
        Phase::Aborted { failure } => (state, Command::Abort { failure }),
        Phase::Awaiting { origin, step } => {
            let carried_out = match reply {
                Reply::Done => step != Step::Measure,
                Reply::Measured { .. } => step == Step::Measure,
                Reply::Failed => false,
            };
            if !carried_out {
                let failure = failure_for(step);
                return (
                    CaptureState {
                        phase: Phase::Aborted { failure },
                        content_width: state.content_width,
                        content_height: state.content_height,
                    },
                    Command::Abort { failure },
                );
            }
            let (width, height) = match reply {
                Reply::Measured { width, height } => (width, height),
                _ => (state.content_width, state.content_height),
            };
            if step == Step::Measure && height == u32::MAX {
                return (
                    CaptureState {
                        phase: Phase::Aborted { failure: CaptureFailure::Bounds },
                        content_width: width,
                        content_height: height,
                    },
                    Command::Abort { failure: CaptureFailure::Bounds },
                );
            }
            match next_step(step) {
                Some(next) => (
                    CaptureState {
                        phase: Phase::Awaiting { origin, step: next },
                        content_width: width,
                        content_height: height,
                    },
                    issue(origin, next, width, height),
                ),
                None => match origin {
                    Origin::Trusted => (
                        CaptureState {
                            phase: Phase::Awaiting { origin: Origin::Testing, step: Step::Navigate },
                            content_width: width,
                            content_height: height,
                        },
                        Command::Navigate { origin: Origin::Testing },
                    ),
                    Origin::Testing => (
                        CaptureState {
                            phase: Phase::Finished,
                            content_width: width,
                            content_height: height,
                        },
                        Command::Finish,
                    ),
                },
            }
        },
    }
}

/// A failed step ends the capture at once: the next command gives it up, and
/// so does every command after it.
pub proof fn lemma_failure_aborts(state: CaptureState, later: Reply)
    requires
        state.phase is Awaiting,
    ensures
        transition(state, Reply::Failed).1 is Abort,
        transition(state, Reply::Failed).0.phase is Aborted,
        transition(transition(state, Reply::Failed).0, later) == transition(state, Reply::Failed),
{
}

/// The testing origin is visited only once the trusted screenshot is
/// written: the command to navigate there follows nothing but the successful
/// write of the trusted origin's file.
pub proof fn lemma_trusted_before_testing(state: CaptureState, reply: Reply)
    requires
        transition(state, reply).1 == (Command::Navigate { origin: Origin::Testing }),
    ensures
        state.phase == (Phase::Awaiting { origin: Origin::Trusted, step: Step::Persist }),
        reply == Reply::Done,
{
}

/// No file is written for a capture that failed: the command to write an
/// origin's file follows nothing but that origin's successful screenshot.
pub proof fn lemma_persist_follows_screenshot(state: CaptureState, reply: Reply, origin: Origin)
    requires
        transition(state, reply).1 == (Command::Persist { origin }),
    ensures
        state.phase == (Phase::Awaiting { origin, step: Step::Screenshot }),
        reply == Reply::Done,
{
}

/// The bounds are resized once for each origin, right after its content was
/// measured, to the measured height and one pixel of slack.
pub proof fn lemma_resize_follows_measure(state: CaptureState, reply: Reply, height: u32)
    requires
        transition(state, reply).1 == (Command::SetBounds {
            left: None,
            top: None,
            width: None,
            height: Some(height),
        }),
    ensures
        state.phase matches Phase::Awaiting { step: Step::Measure, .. },
        reply matches Reply::Measured { height: measured, .. } && measured + 1 == height,
{
}

/// The capture is complete only once the testing screenshot is written.
pub proof fn lemma_finish_follows_testing(state: CaptureState, reply: Reply)
    requires
        state.phase is Awaiting,
        transition(state, reply).1 is Finish,
    ensures
        state.phase == (Phase::Awaiting { origin: Origin::Testing, step: Step::Persist }),
        reply == Reply::Done,
{
}

/// The addresses and files of one route's capture.
#[derive(Debug)]
pub struct CapturePlan {
    pub trusted_url: String,
    pub testing_url: String,
    pub trusted_path: String,
    pub testing_path: String,
    pub diff_path: String,
}

/// The path of a route's file in the screenshot directory:
/// the directory, a slash, the route's name and the suffix.
pub open spec fn artifact_path(directory: Seq<char>, slug: Seq<char>, suffix: Seq<char>) -> Seq<
    char,
> {
    directory + "/"@ + slug_name(slug) + suffix
}

/// The path of a route's file in the screenshot directory.
pub fn path_in(directory: &String, slug: &String, suffix: &str) -> (path: String)
    ensures
        path@ == artifact_path(directory@, slug@, suffix@),
{
    let name = get_name_from_slug(slug);
    let with_slash = joined(directory.as_str(), "/");
    let with_name = joined(with_slash.as_str(), name.as_str());
    joined(with_name.as_str(), suffix)
}

impl CapturePlan {
    /// The plan for a route: each origin's address is the origin followed by
    /// the slug, and the three files lie in the screenshot directory under
    /// the route's name.
    pub fn new(config: &Config, slug: &String) -> (plan: CapturePlan)
        ensures
            plan.trusted_url@ == config.trusted@ + slug@,
            plan.testing_url@ == config.testing@ + slug@,
            plan.trusted_path@ == artifact_path(config.screenshots@, slug@, "_trusted.png"@),
            plan.testing_path@ == artifact_path(config.screenshots@, slug@, "_testing.png"@),
            plan.diff_path@ == artifact_path(config.screenshots@, slug@, "_diff.png"@),
    {
        CapturePlan {
            trusted_url: joined(config.trusted.as_str(), slug.as_str()),
            testing_url: joined(config.testing.as_str(), slug.as_str()),
            trusted_path: path_in(&config.screenshots, slug, "_trusted.png"),
            testing_path: path_in(&config.screenshots, slug, "_testing.png"),
            diff_path: path_in(&config.screenshots, slug, "_diff.png"),
        }
    }
}

} // verus!
