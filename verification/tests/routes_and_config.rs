use nitpx::config::{
    config_to_env, config_to_flags, get_config, get_config_file_path, join_commas,
    threshold_text, threshold_to_text, CliConfig, Config, ConfigError, EnvConfig, ThresholdInput,
};
use nitpx::diff::{DiffError, Score, Threshold, Verdict};
use nitpx::route::{
    outcome_of_comparison, outcome_of_failure, outcome_of_skip, plan_route, slug_from_url,
    ErrorKind, RouteOutcome, Summary,
};
use nitpx::text::{
    chars_of, contains_text, joined, matches_at, remove_all, split_commas, string_of,
    without_repetitions,
};
use nitpx::url_utils::{
    get_name_from_slug, get_urls, replace_escaped_dots, replace_slashes, trim_bounds,
    url_set_to_urls, Loc, RouteSource, SitemapUrl, UrlSet,
};
use nitpx::browser::CaptureFailure;
use nitpx::{DiffResult, SkipError};

fn name(slug: &str) -> String {
    get_name_from_slug(&slug.to_string())
}

fn config() -> Config {
    Config {
        headless: true,
        ignored: vec!["/blog".to_string(), "/drafts".to_string()],
        routes: "/,/about".to_string(),
        screenshots: "/tmp/shots".to_string(),
        threshold: Threshold::zero(),
        testing: "http://localhost:3000".to_string(),
        trusted: "https://example.com".to_string(),
    }
}

fn no_flags() -> CliConfig {
    CliConfig {
        config: None,
        noheadless: false,
        screenshots: None,
        testing: None,
        trusted: None,
        threshold: None,
        ignored: None,
        routes: None,
    }
}

fn no_env() -> EnvConfig {
    EnvConfig {
        headless: None,
        ignored: None,
        routes: None,
        screenshots: None,
        testing: None,
        threshold: None,
        trusted: None,
    }
}

#[test]
fn homepage_slugs_are_named_homepage() {
    assert_eq!(name(""), "HOMEPAGE");
    assert_eq!(name("/"), "HOMEPAGE");
}

#[test]
fn slug_names_are_lower_case_without_slashes() {
    assert_eq!(name("/blog"), "_blog");
    assert_eq!(name("/Blog/Post-1"), "_blog_post-1");
    assert_eq!(name("/ÄÖ/Ü"), "_äö_ü");
    assert_eq!(name("//"), "__");
    assert!(!name("/a/b/c/").contains('/'));
}

#[test]
fn slug_names_replace_escaped_full_stops() {
    assert_eq!(name("a\\.b"), "a_b");
    assert_eq!(name("a.b"), "a.b");
    assert_eq!(name("\\\\..\\."), "\\_._");
    assert_eq!(name("x\\"), "x\\");
}

#[test]
fn slug_names_are_trimmed() {
    assert_eq!(name("  /About \t\n"), "_about");
    assert_eq!(name(" a b "), "a b");
    assert_eq!(name("\u{2003}x\u{a0}"), "x");
    assert_eq!(name("   "), "");
}

#[test]
fn naming_a_name_again_changes_nothing() {
    for slug in ["/blog", "/Blog/Post", " /x/y ", "a\\.b", "/a_b/c.d"] {
        let once = name(slug);
        assert_eq!(name(&once), once);
    }
    // The homepage's name is in upper case, and is no name of itself.
    assert_eq!(name("HOMEPAGE"), "homepage");
}

#[test]
fn passes_over_characters() {
    let chars = chars_of(" a/b\\.c ");
    assert_eq!(replace_slashes(&chars), chars_of(" a_b\\.c "));
    assert_eq!(replace_escaped_dots(&chars), chars_of(" a/b_c "));
    assert_eq!(trim_bounds(&chars), (1, 7));
    assert_eq!(trim_bounds(&chars_of("   ")), (3, 3));
    assert_eq!(trim_bounds(&chars_of("")), (0, 0));
    assert_eq!(string_of(&chars, 1, 4), "a/b");
    assert_eq!(chars_of("héé"), vec!['h', 'é', 'é']);
}

#[test]
fn text_helpers() {
    assert_eq!(joined("ab", "cd"), "abcd");
    assert_eq!(joined("", ""), "");
    assert!(matches_at(&chars_of("hello"), &chars_of("ll"), 2));
    assert!(!matches_at(&chars_of("hello"), &chars_of("ll"), 3));
    assert!(!matches_at(&chars_of("hello"), &chars_of("lo"), 4));
    assert!(matches_at(&chars_of("hello"), &chars_of(""), 5));
    assert!(!matches_at(&chars_of("hello"), &chars_of(""), 6));
    assert_eq!(remove_all("https://a.com/x", "https://a.com"), "/x");
    assert_eq!(remove_all("aaa", "aa"), "a");
    assert_eq!(remove_all("abcabc", "bc"), "aa");
    assert_eq!(remove_all("abc", ""), "abc");
    assert_eq!(remove_all("", "abc"), "");
    assert_eq!(remove_all("abc", "abcd"), "abc");
    let items = vec!["a".to_string(), "".to_string()];
    assert!(contains_text(&items, &"".to_string()));
    assert!(contains_text(&items, &"a".to_string()));
    assert!(!contains_text(&items, &"b".to_string()));
}

#[test]
fn splitting_at_commas() {
    assert_eq!(split_commas(""), vec![""]);
    assert_eq!(split_commas("a"), vec!["a"]);
    assert_eq!(split_commas("/a,/b"), vec!["/a", "/b"]);
    assert_eq!(split_commas("a,,b,"), vec!["a", "", "b", ""]);
    assert_eq!(split_commas(","), vec!["", ""]);
}

#[test]
fn joining_with_commas() {
    assert_eq!(join_commas(&vec![]), "");
    assert_eq!(join_commas(&vec!["a".to_string()]), "a");
    assert_eq!(join_commas(&vec!["a".to_string(), "".to_string(), "b".to_string()]), "a,,b");
}

#[test]
fn sitemap_addresses_in_order() {
    let urlset = UrlSet {
        urls: vec![
            SitemapUrl { loc: Loc { name: "https://example.com/".to_string() } },
            SitemapUrl { loc: Loc { name: "https://example.com/about".to_string() } },
            SitemapUrl { loc: Loc::default() },
        ],
    };
    assert_eq!(
        url_set_to_urls(urlset),
        vec!["https://example.com/".to_string(), "https://example.com/about".to_string(), "".to_string()]
    );
    assert!(url_set_to_urls(UrlSet { urls: vec![] }).is_empty());
}

#[test]
fn routes_come_from_the_list_or_the_sitemap() {
    match get_urls(&config()) {
        RouteSource::Listed { routes } => assert_eq!(routes, vec!["/", "/about"]),
        other => panic!("expected a list, got {:?}", other),
    }
    let mut from_sitemap = config();
    from_sitemap.routes = "sitemap".to_string();
    from_sitemap.trusted = "https://example.com/".to_string();
    match get_urls(&from_sitemap) {
        RouteSource::Sitemap { location } => {
            assert_eq!(location, "https://example.com/sitemap.xml")
        }
        other => panic!("expected the sitemap, got {:?}", other),
    }
}

#[test]
fn ignored_route_is_skipped() {
    let skipped = plan_route(&"/blog".to_string(), &config());
    assert!(skipped.is_err());
    assert!(matches!(outcome_of_skip(skipped.unwrap_err()), RouteOutcome::Skipped));
    assert!(plan_route(&"https://example.com/blog".to_string(), &config()).is_err());
    assert!(plan_route(&"https://example.com/drafts".to_string(), &config()).is_err());
}

#[test]
fn slug_is_the_address_without_the_trusted_origin() {
    assert_eq!(slug_from_url(&"https://example.com/about".to_string(), &config()), "/about");
    assert_eq!(slug_from_url(&"https://example.com".to_string(), &config()), "");
    assert_eq!(slug_from_url(&"/about".to_string(), &config()), "/about");
}

#[test]
fn other_route_is_captured() {
    let plan = plan_route(&"https://example.com/about".to_string(), &config()).unwrap();
    assert_eq!(plan.trusted_url, "https://example.com/about");
    assert_eq!(plan.testing_url, "http://localhost:3000/about");
    assert_eq!(plan.trusted_path, "/tmp/shots/_about_trusted.png");
    assert_eq!(plan.testing_path, "/tmp/shots/_about_testing.png");
    assert_eq!(plan.diff_path, "/tmp/shots/_about_diff.png");
    assert!(plan_route(&"/blogs".to_string(), &config()).is_ok());
    assert!(plan_route(&"".to_string(), &config()).is_ok());
}

#[test]
fn outcomes_of_comparisons() {
    let pass = DiffResult { score: Score::identical(), verdict: Verdict::Pass, artifact: vec![] };
    assert!(matches!(outcome_of_comparison(Ok(pass), "d.png".to_string()), RouteOutcome::Pass));
    let fail = DiffResult { score: Score::identical(), verdict: Verdict::Fail, artifact: vec![] };
    match outcome_of_comparison(Ok(fail), "d.png".to_string()) {
        RouteOutcome::Fail { micro_percent, artifact_path } => {
            assert_eq!(micro_percent, 0);
            assert_eq!(artifact_path, "d.png");
        }
        other => panic!("expected a fail, got {:?}", other),
    }
    let corrupt = DiffError::CorruptImage { message: "bad".to_string() };
    match outcome_of_comparison(Err(corrupt), "d.png".to_string()) {
        RouteOutcome::Error { kind, message } => {
            assert_eq!(kind, ErrorKind::CorruptImage);
            assert_eq!(message, "bad");
        }
        other => panic!("expected an error, got {:?}", other),
    }
    let mismatch = DiffError::DimensionMismatch {
        trusted_width: 1,
        trusted_height: 2,
        testing_width: 3,
        testing_height: 4,
    };
    assert!(matches!(
        outcome_of_comparison(Err(mismatch), "d.png".to_string()),
        RouteOutcome::Error { kind: ErrorKind::DimensionMismatch, .. }
    ));
    let unwritable = DiffError::ArtifactIO { message: "disk".to_string() };
    assert!(matches!(
        outcome_of_comparison(Err(unwritable), "d.png".to_string()),
        RouteOutcome::Error { kind: ErrorKind::ArtifactIO, .. }
    ));
}

#[test]
fn outcomes_of_failed_captures() {
    let cases = [
        (CaptureFailure::Navigation, ErrorKind::Navigation),
        (CaptureFailure::ElementNotFound, ErrorKind::ElementNotFound),
        (CaptureFailure::Bounds, ErrorKind::Bounds),
        (CaptureFailure::ArtifactIO, ErrorKind::ArtifactIO),
    ];
    for (failure, wanted) in cases {
        match outcome_of_failure(failure, "why".to_string()) {
            RouteOutcome::Error { kind, message } => {
                assert_eq!(kind, wanted);
                assert_eq!(message, "why");
            }
            other => panic!("expected an error, got {:?}", other),
        }
    }
}

#[test]
fn summary_files_each_route_once() {
    let mut summary = Summary::new();
    summary.record("/a".to_string(), &RouteOutcome::Pass);
    summary.record("/b".to_string(), &RouteOutcome::Skipped);
    summary.record(
        "/c".to_string(),
        &RouteOutcome::Fail { micro_percent: 5, artifact_path: "c.png".to_string() },
    );
    summary.record(
        "/d".to_string(),
        &RouteOutcome::Error { kind: ErrorKind::Navigation, message: "down".to_string() },
    );
    summary.record("/e".to_string(), &RouteOutcome::Pass);
    assert_eq!(summary.passes, vec!["/a", "/e"]);
    assert_eq!(summary.skipped, vec!["/b"]);
    assert_eq!(summary.fails, vec!["/c"]);
    assert_eq!(summary.errors, vec!["/d"]);
}

#[test]
fn skip_error_says_skip() {
    assert_eq!(SkipError::new().message(), "skip");
}

#[test]
fn config_file_lies_in_the_config_directory() {
    assert_eq!(get_config_file_path("/home/u/.config/nitpx"), "/home/u/.config/nitpx/config.json");
}

#[test]
fn command_line_beats_environment_beats_file() {
    let mut cli = no_flags();
    cli.trusted = Some("https://cli.example/".to_string());
    let mut env = no_env();
    env.trusted = Some("https://env.example/".to_string());
    env.testing = Some("https://env-testing.example/".to_string());
    env.headless = Some("false".to_string());
    let file = config();
    let resolved = get_config(&cli, &env, Some(&file), ThresholdInput::Unreadable).unwrap();
    assert_eq!(resolved.trusted, "https://cli.example/");
    assert_eq!(resolved.testing, "https://env-testing.example/");
    assert_eq!(resolved.screenshots, "/tmp/shots");
    assert_eq!(resolved.routes, "/,/about");
    assert_eq!(resolved.ignored, vec!["/blog", "/drafts"]);
    assert!(!resolved.headless);
    assert_eq!(resolved.threshold.micro_percent(), 0);
}

#[test]
fn defaults_fill_what_nothing_gives() {
    let mut cli = no_flags();
    cli.trusted = Some("https://example.com/".to_string());
    cli.testing = Some("http://localhost:8000/".to_string());
    cli.screenshots = Some("shots".to_string());
    let resolved = get_config(&cli, &no_env(), None, ThresholdInput::Unreadable).unwrap();
    assert!(resolved.headless);
    assert_eq!(resolved.routes, "sitemap");
    assert_eq!(resolved.ignored, vec![""]);
    assert_eq!(resolved.threshold.micro_percent(), 0);
}

#[test]
fn headless_flag_layers() {
    let file = config();
    let mut cli = no_flags();
    let mut env = no_env();
    let run = |cli: &CliConfig, env: &EnvConfig| {
        get_config(cli, env, Some(&file), ThresholdInput::Unreadable).unwrap().headless
    };
    assert!(run(&cli, &env));
    env.headless = Some("no".to_string());
    assert!(run(&cli, &env));
    env.headless = Some("false".to_string());
    assert!(!run(&cli, &env));
    env.headless = Some("true".to_string());
    cli.noheadless = true;
    assert!(!run(&cli, &env));
}

#[test]
fn threshold_layers() {
    let mut file = config();
    file.threshold = Threshold::new(2_500_000).unwrap();
    let given = ThresholdInput::Given(Threshold::new(5_000_000).unwrap());
    let resolved = get_config(&no_flags(), &no_env(), Some(&file), given).unwrap();
    assert_eq!(resolved.threshold.micro_percent(), 5_000_000);
    let resolved =
        get_config(&no_flags(), &no_env(), Some(&file), ThresholdInput::Unreadable).unwrap();
    assert_eq!(resolved.threshold.micro_percent(), 2_500_000);
    assert_eq!(
        get_config(&no_flags(), &no_env(), Some(&file), ThresholdInput::OutOfRange).unwrap_err(),
        ConfigError::ThresholdOutOfRange
    );
    let mut cli = no_flags();
    let mut env = no_env();
    assert_eq!(threshold_text(&cli, &env), "");
    env.threshold = Some("1.5".to_string());
    assert_eq!(threshold_text(&cli, &env), "1.5");
    cli.threshold = Some("2".to_string());
    assert_eq!(threshold_text(&cli, &env), "2");
}

#[test]
fn missing_and_bad_values_are_told_apart() {
    let unreadable = ThresholdInput::Unreadable;
    assert_eq!(
        get_config(&no_flags(), &no_env(), None, unreadable).unwrap_err(),
        ConfigError::MissingTrusted
    );
    let mut cli = no_flags();
    cli.trusted = Some("not an address".to_string());
    assert_eq!(
        get_config(&cli, &no_env(), None, unreadable).unwrap_err(),
        ConfigError::BadTrustedUrl
    );
    cli.trusted = Some("https://example.com/".to_string());
    assert_eq!(
        get_config(&cli, &no_env(), None, unreadable).unwrap_err(),
        ConfigError::MissingTesting
    );
    cli.testing = Some("/relative".to_string());
    assert_eq!(
        get_config(&cli, &no_env(), None, unreadable).unwrap_err(),
        ConfigError::BadTestingUrl
    );
    cli.testing = Some("http://localhost:3000".to_string());
    assert_eq!(
        get_config(&cli, &no_env(), None, unreadable).unwrap_err(),
        ConfigError::MissingScreenshots
    );
    cli.screenshots = Some("shots".to_string());
    assert!(get_config(&cli, &no_env(), None, unreadable).is_ok());
}

#[test]
fn ignored_slugs_come_from_the_first_layer_that_has_them() {
    let file = config();
    let mut env = no_env();
    env.ignored = Some("/x,/y".to_string());
    let resolved = get_config(&no_flags(), &env, Some(&file), ThresholdInput::Unreadable).unwrap();
    assert_eq!(resolved.ignored, vec!["/x", "/y"]);
    let mut cli = no_flags();
    cli.ignored = Some("/z".to_string());
    let resolved = get_config(&cli, &env, Some(&file), ThresholdInput::Unreadable).unwrap();
    assert_eq!(resolved.ignored, vec!["/z"]);
}

#[test]
fn threshold_as_decimal_percent() {
    let text = |micro: u32| threshold_to_text(Threshold::new(micro).unwrap());
    assert_eq!(text(0), "0");
    assert_eq!(text(5_000_000), "5");
    assert_eq!(text(100_000_000), "100");
    assert_eq!(text(500_000), "0.5");
    assert_eq!(text(1_250_000), "1.25");
    assert_eq!(text(1), "0.000001");
    assert_eq!(text(10_000_010), "10.00001");
    assert_eq!(text(99_999_999), "99.999999");
    // The same text that a floating-point number of percent prints as.
    for micro in [0u32, 1, 70, 500_000, 1_250_000, 33_333_333, 100_000_000] {
        assert_eq!(text(micro), format!("{}", f64::from(micro) / 1_000_000.0));
    }
}

#[test]
fn config_as_environment() {
    let mut shown = config();
    shown.threshold = Threshold::new(2_500_000).unwrap();
    assert_eq!(
        config_to_env(&shown),
        "
export NITPX_HEADLESS=\"true\"
export NITPX_IGNORED=\"/blog,/drafts\"
export NITPX_ROUTES=\"/,/about\"
export NITPX_SCREENSHOTS=\"/tmp/shots\"
export NITPX_TESTING=\"http://localhost:3000\"
export NITPX_THRESHOLD=\"2.5\"
export NITPX_TRUSTED=\"https://example.com\""
    );
}

#[test]
fn config_as_flags() {
    let mut shown = config();
    shown.headless = false;
    shown.ignored = vec![];
    assert_eq!(
        config_to_flags(&shown),
        "--headless false --ignored  --routes /,/about --screenshots /tmp/shots --testing http://localhost:3000 --threshold 0 --trusted https://example.com"
    );
}

#[test]
fn repeated_slugs_are_ignored_once() {
    let list = |items: &[&str]| items.iter().map(|s| s.to_string()).collect::<Vec<String>>();
    assert_eq!(without_repetitions(&list(&["/a", "/b", "/a", "", "/b", ""])), vec!["/a", "/b", ""]);
    assert!(without_repetitions(&list(&[])).is_empty());
    let mut cli = no_flags();
    cli.ignored = Some("/a,/b,/a".to_string());
    let resolved =
        get_config(&cli, &no_env(), Some(&config()), ThresholdInput::Unreadable).unwrap();
    assert_eq!(resolved.ignored, vec!["/a", "/b"]);
}
