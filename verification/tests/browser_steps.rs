use nitpx::browser::{
    advance, begin, calculate_render_sleep, path_in, render_delay_micros, CaptureFailure,
    CapturePlan, CaptureState, Command, Origin, Phase, Reply, Step, BASE_DELAY_MICROS,
};
use nitpx::config::Config;
use nitpx::diff::Threshold;
use std::time::Duration;

fn config() -> Config {
    Config {
        headless: true,
        ignored: vec!["/blog".to_string()],
        routes: "/,/about".to_string(),
        screenshots: "/tmp/shots".to_string(),
        threshold: Threshold::zero(),
        testing: "http://localhost:3000".to_string(),
        trusted: "https://example.com".to_string(),
    }
}

#[test]
fn sleeps_one_second_per_ten_million_px() {
    // Ten million square pixels add one second to the base delay.
    assert_eq!(
        calculate_render_sleep(&10_000_000),
        Duration::from_micros(BASE_DELAY_MICROS) + Duration::from_secs(1)
    );
}

#[test]
fn render_delay_reference_points() {
    assert_eq!(render_delay_micros(0), 30_000);
    assert_eq!(render_delay_micros(9), 30_000);
    assert_eq!(render_delay_micros(10), 30_001);
    assert_eq!(render_delay_micros(10_000_000), 1_030_000);
    assert_eq!(render_delay_micros(40_000_000), 4_030_000);
    assert_eq!(render_delay_micros(u64::MAX), 30_000 + u64::MAX / 10);
}

#[test]
fn render_delay_never_shrinks() {
    let areas: [u64; 7] = [0, 1, 9, 10, 11, 1_600_000, 10_000_000];
    for pair in areas.windows(2) {
        assert!(render_delay_micros(pair[0]) <= render_delay_micros(pair[1]));
    }
}

#[test]
fn render_sleep_is_a_duration_of_the_delay() {
    assert_eq!(calculate_render_sleep(&0), Duration::from_micros(30_000));
    assert_eq!(calculate_render_sleep(&1_600_000), Duration::from_micros(190_000));
    assert_eq!(
        calculate_render_sleep(&u32::MAX),
        Duration::from_micros(30_000 + (u32::MAX as u64) / 10)
    );
}

#[test]
fn capture_runs_both_origins_in_order() {
    let (mut state, first) = begin();
    assert_eq!(first, Command::Navigate { origin: Origin::Trusted });
    let mut issued = vec![first];
    for _ in 0..18 {
        let reply = match state.phase {
            Phase::Awaiting { step: Step::Measure, .. } => {
                Reply::Measured { width: 1600, height: 2000 }
            }
            _ => Reply::Done,
        };
        let (next, command) = advance(state, reply);
        state = next;
        issued.push(command);
    }
    let fix_width =
        Command::SetBounds { left: Some(0), top: Some(0), width: Some(1600), height: None };
    let resize = Command::SetBounds { left: None, top: None, width: None, height: Some(2001) };
    let settle = Command::Settle { micros: 30_000 + 320_000 };
    let expected = vec![
        Command::Navigate { origin: Origin::Trusted },
        fix_width,
        Command::ForceScrollbar,
        Command::MovePointer,
        Command::Measure,
        resize,
        settle,
        Command::Screenshot,
        Command::Persist { origin: Origin::Trusted },
        Command::Navigate { origin: Origin::Testing },
        fix_width,
        Command::ForceScrollbar,
        Command::MovePointer,
        Command::Measure,
        resize,
        settle,
        Command::Screenshot,
        Command::Persist { origin: Origin::Testing },
        Command::Finish,
    ];
    assert_eq!(issued, expected);
    assert_eq!(state.phase, Phase::Finished);
    // A finished capture stays finished.
    let (after, command) = advance(state, Reply::Done);
    assert_eq!(after, state);
    assert_eq!(command, Command::Finish);
}

#[test]
fn failed_navigation_aborts_the_route() {
    let (state, _) = begin();
    let (state, command) = advance(state, Reply::Failed);
    assert_eq!(command, Command::Abort { failure: CaptureFailure::Navigation });
    assert_eq!(state.phase, Phase::Aborted { failure: CaptureFailure::Navigation });
    let (again, command) = advance(state, Reply::Done);
    assert_eq!(again, state);
    assert_eq!(command, Command::Abort { failure: CaptureFailure::Navigation });
}

#[test]
fn each_step_fails_with_its_own_kind() {
    let cases = [
        (Step::Navigate, CaptureFailure::Navigation),
        (Step::FixWidth, CaptureFailure::Bounds),
        (Step::ForceScrollbar, CaptureFailure::ElementNotFound),
        (Step::MovePointer, CaptureFailure::ElementNotFound),
        (Step::Measure, CaptureFailure::ElementNotFound),
        (Step::Resize, CaptureFailure::Bounds),
        (Step::Screenshot, CaptureFailure::Bounds),
        (Step::Persist, CaptureFailure::ArtifactIO),
    ];
    for (step, failure) in cases {
        let state = CaptureState {
            phase: Phase::Awaiting { origin: Origin::Testing, step },
            content_width: 10,
            content_height: 10,
        };
        let (next, command) = advance(state, Reply::Failed);
        assert_eq!(command, Command::Abort { failure });
        assert_eq!(next.phase, Phase::Aborted { failure });
    }
}

#[test]
fn failed_screenshot_writes_no_file() {
    let state = CaptureState {
        phase: Phase::Awaiting { origin: Origin::Trusted, step: Step::Screenshot },
        content_width: 1600,
        content_height: 900,
    };
    let (_, command) = advance(state, Reply::Failed);
    assert_eq!(command, Command::Abort { failure: CaptureFailure::Bounds });
    let (_, command) = advance(state, Reply::Done);
    assert_eq!(command, Command::Persist { origin: Origin::Trusted });
}

#[test]
fn measurement_is_wanted_where_the_page_is_measured() {
    let measuring = CaptureState {
        phase: Phase::Awaiting { origin: Origin::Trusted, step: Step::Measure },
        content_width: 0,
        content_height: 0,
    };
    let (_, command) = advance(measuring, Reply::Done);
    assert_eq!(command, Command::Abort { failure: CaptureFailure::ElementNotFound });
    let (next, command) = advance(measuring, Reply::Measured { width: 800, height: 600 });
    assert_eq!(
        command,
        Command::SetBounds { left: None, top: None, width: None, height: Some(601) }
    );
    assert_eq!((next.content_width, next.content_height), (800, 600));

    let moving = CaptureState {
        phase: Phase::Awaiting { origin: Origin::Trusted, step: Step::MovePointer },
        content_width: 0,
        content_height: 0,
    };
    let (_, command) = advance(moving, Reply::Measured { width: 800, height: 600 });
    assert_eq!(command, Command::Abort { failure: CaptureFailure::ElementNotFound });
}

#[test]
fn height_without_room_for_slack_is_refused() {
    let measuring = CaptureState {
        phase: Phase::Awaiting { origin: Origin::Trusted, step: Step::Measure },
        content_width: 0,
        content_height: 0,
    };
    let (next, command) = advance(measuring, Reply::Measured { width: 1, height: u32::MAX });
    assert_eq!(command, Command::Abort { failure: CaptureFailure::Bounds });
    assert_eq!(next.phase, Phase::Aborted { failure: CaptureFailure::Bounds });
    let (_, command) = advance(measuring, Reply::Measured { width: 1, height: u32::MAX - 1 });
    assert_eq!(
        command,
        Command::SetBounds { left: None, top: None, width: None, height: Some(u32::MAX) }
    );
}

#[test]
fn settle_time_follows_the_measured_area() {
    let resizing = CaptureState {
        phase: Phase::Awaiting { origin: Origin::Testing, step: Step::Resize },
        content_width: 2000,
        content_height: 20_000,
    };
    let (_, command) = advance(resizing, Reply::Done);
    // Forty million square pixels: four seconds and the base delay.
    assert_eq!(command, Command::Settle { micros: 4_030_000 });
}

#[test]
fn plan_names_addresses_and_files() {
    let plan = CapturePlan::new(&config(), &"/Blog/Post".to_string());
    assert_eq!(plan.trusted_url, "https://example.com/Blog/Post");
    assert_eq!(plan.testing_url, "http://localhost:3000/Blog/Post");
    assert_eq!(plan.trusted_path, "/tmp/shots/_blog_post_trusted.png");
    assert_eq!(plan.testing_path, "/tmp/shots/_blog_post_testing.png");
    assert_eq!(plan.diff_path, "/tmp/shots/_blog_post_diff.png");
}

#[test]
fn homepage_files_are_named_homepage() {
    let dir = "shots".to_string();
    assert_eq!(path_in(&dir, &"".to_string(), "_trusted.png"), "shots/HOMEPAGE_trusted.png");
    assert_eq!(path_in(&dir, &"/".to_string(), "_diff.png"), "shots/HOMEPAGE_diff.png");
}
