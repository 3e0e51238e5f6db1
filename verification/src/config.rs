//! The configuration of a run.

use crate::codec::{is_url, parses_as_url};
use crate::diff::Threshold;
use crate::text::{comma_pieces, deduplicated, split_commas, texts, without_repetitions};
use vstd::prelude::*;
use vstd::string::StringExecFns;

verus! {

/// What the command line gave; `None` where a flag was not given.
#[derive(Hash, Clone, PartialEq, Eq, Debug)]
pub struct CliConfig {
    pub config: Option<String>,
    pub noheadless: bool,
    pub screenshots: Option<String>,
    pub testing: Option<String>,
    pub trusted: Option<String>,
    pub threshold: Option<String>,
    pub ignored: Option<String>,
    pub routes: Option<String>,
}

/// The resolved configuration of a run.
#[derive(Debug, Clone)]
pub struct Config {
    /// Whether the browser runs without a window.
    pub headless: bool,
    /// The slugs that are left out. A slug that is both a route and ignored
    /// is left out.
    pub ignored: Vec<String>,
    /// `sitemap`, or the slugs to test, separated by commas.
    pub routes: String,
    /// The directory that holds the screenshots.
    pub screenshots: String,
    /// The percent difference that is tolerated.
    pub threshold: Threshold,
    /// The origin under test.
    pub testing: String,
    /// The known-good origin.
    pub trusted: String,
}

/// What a configuration says: its strings as rows of characters, and its
/// threshold in millionths of a percent.
pub struct ConfigView {
    pub headless: bool,
    pub ignored: Seq<Seq<char>>,
    pub routes: Seq<char>,
    pub screenshots: Seq<char>,
    pub threshold: nat,
    pub testing: Seq<char>,
    pub trusted: Seq<char>,
}

impl View for Config {
    type V = ConfigView;

    open spec fn view(&self) -> ConfigView {
        ConfigView {
            headless: self.headless,
            ignored: texts(self.ignored@),
            routes: self.routes@,
            screenshots: self.screenshots@,
            threshold: self.threshold@,
            testing: self.testing@,
            trusted: self.trusted@,
        }
    }
}

/// What the environment gave; `None` where a variable is not set.
#[derive(Debug)]
pub struct EnvConfig {
    pub headless: Option<String>,
    pub ignored: Option<String>,
    pub routes: Option<String>,
    pub screenshots: Option<String>,
    pub testing: Option<String>,
    pub threshold: Option<String>,
    pub trusted: Option<String>,
}

/// What became of the threshold's text when it was read as a number.
#[derive(Clone, Copy, Debug)]
pub enum ThresholdInput {
    /// The text is no number.
    Unreadable,
    /// The text is a number below 0 or above 100.
    OutOfRange,
    /// The text is this threshold.
    Given(Threshold),
}

/// Why no configuration could be resolved.
#[derive(Clone, Copy, Debug, PartialEq, Eq, Structural)]
pub enum ConfigError {
    /// No trusted origin is given anywhere.
    MissingTrusted,
    /// The trusted origin is no address.
    BadTrustedUrl,
    /// No testing origin is given anywhere.
    MissingTesting,
    /// The testing origin is no address.
    BadTestingUrl,
    /// No screenshot directory is given anywhere.
    MissingScreenshots,
    /// The threshold is not between 0 and 100.
    ThresholdOutOfRange,
}

/// The first of the command line and the environment that gives a value.
pub open spec fn flag_or_env(cli: Option<String>, env: Option<String>) -> Option<Seq<char>> {
    match cli {
        Some(text) => Some(text@),
        None => match env {
            Some(text) => Some(text@),
            None => None,
        },
    }
}

/// The first of command line, environment and file that gives a value.
pub open spec fn layered(
    cli: Option<String>,
    env: Option<String>,
    file: Option<Seq<char>>,
) -> Option<Seq<char>> {
    match flag_or_env(cli, env) {
        Some(text) => Some(text),
        None => file,
    }
}

/// `items` with a comma between each two.
pub open spec fn comma_joined(items: Seq<Seq<char>>) -> Seq<char>
    decreases items.len(),
{
    if items.len() == 0 {
        Seq::<char>::empty()
    } else if items.len() == 1 {
        items[0]
    } else {
        comma_joined(items.drop_last()) + seq![','] + items.last()
    }
}

/// Whether a string holds no comma.
pub open spec fn comma_free(text: Seq<char>) -> bool {
    forall|i: int| 0 <= i < text.len() ==> text[i] != ','
}

/// Text without commas that is added to a string lengthens its last piece.
pub proof fn lemma_pieces_of_longer(s: Seq<char>, word: Seq<char>)
    requires
        comma_free(word),
    ensures
        comma_pieces(s).len() >= 1,
        comma_pieces(s + word) == comma_pieces(s).update(
            comma_pieces(s).len() - 1,
            comma_pieces(s).last() + word,
        ),
    decreases word.len(),
{
    let pieces = comma_pieces(s);
    assert(pieces.len() >= 1) by {
        lemma_pieces_exist(s);
    }
    if word.len() == 0 {
        assert(s + word =~= s);
        assert(pieces.last() + word =~= pieces.last());
        assert(pieces.update(pieces.len() - 1, pieces.last()) =~= pieces);
    } else {
        let shorter = word.drop_last();
        lemma_pieces_of_longer(s, shorter);
        assert((s + word).drop_last() =~= s + shorter);
        assert((s + word).last() == word[word.len() - 1]);
        assert((pieces.last() + shorter).push(word.last()) =~= pieces.last() + word);
        assert(comma_pieces(s + word) =~= pieces.update(
            pieces.len() - 1,
            pieces.last() + word,
        ));
    }
}

/// Every string has at least one piece.
pub proof fn lemma_pieces_exist(s: Seq<char>)
    ensures
        comma_pieces(s).len() >= 1,
    decreases s.len(),
{
    if s.len() > 0 {
        lemma_pieces_exist(s.drop_last());
    }
}

/// Joining and splitting are inverse: a list of at least one string, none of
/// which holds a comma, is the list of the pieces of its joined text.
pub proof fn lemma_pieces_of_joined(items: Seq<Seq<char>>)
    requires
        items.len() >= 1,
        forall|i: int| 0 <= i < items.len() ==> comma_free(#[trigger] items[i]),
    ensures
        comma_pieces(comma_joined(items)) == items,
    decreases items.len(),
{
    let empty = Seq::<char>::empty();
    if items.len() == 1 {
        lemma_pieces_of_longer(empty, items[0]);
        assert(empty + items[0] =~= items[0]);
        assert(comma_pieces(empty) =~= seq![empty]);
        assert(seq![empty].update(0, empty + items[0]) =~= items);
    } else {
        let before = items.drop_last();
        let joined_before = comma_joined(before);
        assert forall|i: int| 0 <= i < before.len() implies comma_free(#[trigger] before[i]) by {
            assert(before[i] == items[i]);
        }
        lemma_pieces_of_joined(before);
        let with_comma = joined_before + seq![','];
        assert(with_comma.drop_last() =~= joined_before);
        assert(with_comma.last() == ',');
        assert(comma_pieces(with_comma) == before.push(empty));
        lemma_pieces_of_longer(with_comma, items.last());
        assert(empty + items.last() =~= items.last());
        assert(before.push(empty).update(before.len() as int, items.last()) =~= items);
    }
}

/// Whether the browser runs without a window: never where the command line
/// says so; else as the environment says, where anything but `false` means
/// yes; else as the file says; else yes.
pub open spec fn resolved_headless(cli: CliConfig, env: EnvConfig, file: Option<Config>) -> bool {
    if cli.noheadless {
        false
    } else {
        match env.headless {
            Some(text) => text@ != "false"@,
            None => match file {
                Some(config) => config.headless,
                None => true,
            },
        }
    }
}

/// The text that lists the ignored slugs: the first of command line and
/// environment that gives one; else the file's slugs with commas between
/// them; else the empty text.
pub open spec fn ignored_text(cli: CliConfig, env: EnvConfig, file: Option<Config>) -> Seq<char> {
    match flag_or_env(cli.ignored, env.ignored) {
        Some(text) => text,
        None => match file {
            Some(config) => comma_joined(texts(config.ignored@)),
            None => Seq::<char>::empty(),
        },
    }
}

/// The ignored slugs: the pieces between the commas of the text that lists
/// them, each once.
pub open spec fn resolved_ignored(cli: CliConfig, env: EnvConfig, file: Option<Config>) -> Seq<
    Seq<char>,
> {
    deduplicated(comma_pieces(ignored_text(cli, env, file)))
}

/// The threshold: the one read from the command line or the environment;
/// where that text is no number, the file's; where there is no file, 0.
pub open spec fn resolved_threshold(threshold: ThresholdInput, file: Option<Config>) -> Option<
    nat,
> {
    match threshold {
        ThresholdInput::Given(given) => Some(given@),
        ThresholdInput::OutOfRange => None,
        ThresholdInput::Unreadable => match file {
            Some(config) => Some(config.threshold@),
            None => Some(0nat),
        },
    }
}

/// The text of the threshold that is to be read as a number: the command
/// line's, else the environment's, else the empty text.
pub fn threshold_text(cli: &CliConfig, env: &EnvConfig) -> (text: String)
    ensures
        text@ == match flag_or_env(cli.threshold, env.threshold) {
            Some(given) => given,
            None => Seq::<char>::empty(),
        },
{
    match &cli.threshold {
        Some(text) => text.clone(),
        None => match &env.threshold {
            Some(text) => text.clone(),
            None => String::new(),
        },
    }
}

fn pick(cli: &Option<String>, env: &Option<String>) -> (picked: Option<String>)
    ensures
        match (picked, flag_or_env(*cli, *env)) {
            (Some(text), Some(wanted)) => text@ == wanted,
            (None, None) => true,
            _ => false,
        },
{
    match cli {
        Some(text) => Some(text.clone()),
        None => match env {
            Some(text) => Some(text.clone()),
            None => None,
        },
    }
}

/// Joins strings with commas.
pub fn join_commas(items: &Vec<String>) -> (out: String)
    ensures
        out@ == comma_joined(texts(items@)),
{
    let mut out = String::new();
    let mut i: usize = 0;
    while i < items.len()
        invariant
            i <= items@.len(),
            out@ == comma_joined(texts(items@).take(i as int)),
        decreases items@.len() - i,
    {
        let ghost done = texts(items@).take(i as int);
        let ghost next = texts(items@).take(i + 1);
        assert(next.drop_last() =~= done);
        assert(next.last() == items@[i as int]@);
        if i > 0 {
            out.push(',');
        }
        let word = crate::text::chars_of(items[i].as_str());
        let ghost before = out@;
        let mut k: usize = 0;
        while k < word.len()
            invariant
                k <= word@.len(),
                out@ == before + word@.take(k as int),
            decreases word@.len() - k,
        {
            out.push(word[k]);
            assert(before + word@.take(k + 1) =~= (before + word@.take(k as int)).push(
                word@[k as int],
            ));
            k += 1;
        }
        assert(word@.take(k as int) =~= word@);
        assert(Seq::<char>::empty() + word@ =~= word@);
        assert(out@ =~= comma_joined(next)) by {
            if i > 0 {
                assert(before =~= comma_joined(done) + seq![',']);
            }
        }
        i += 1;
    }
    assert(texts(items@).take(i as int) =~= texts(items@));
    out
}

/// What the layers resolve to, or the first reason why they do not. The
/// checks come in this order: the trusted origin is given and is an address;
/// the testing origin likewise; the screenshot directory is given; the
/// threshold is in range.
pub open spec fn resolution(
    cli: CliConfig,
    env: EnvConfig,
    file: Option<Config>,
    threshold: ThresholdInput,
) -> Result<ConfigView, ConfigError> {
    let trusted = layered(
        cli.trusted,
        env.trusted,
        match file {
            Some(config) => Some(config.trusted@),
            None => None,
        },
    );
    let testing = layered(
        cli.testing,
        env.testing,
        match file {
            Some(config) => Some(config.testing@),
            None => None,
        },
    );
    let screenshots = layered(
        cli.screenshots,
        env.screenshots,
        match file {
            Some(config) => Some(config.screenshots@),
            None => None,
        },
    );
    let routes = layered(
        cli.routes,
        env.routes,
        match file {
            Some(config) => Some(config.routes@),
            None => Some("sitemap"@),
        },
    );
    if trusted is None {
        Err(ConfigError::MissingTrusted)
    } else if !is_url(trusted->0) {
        Err(ConfigError::BadTrustedUrl)
    } else if testing is None {
        Err(ConfigError::MissingTesting)
    } else if !is_url(testing->0) {
        Err(ConfigError::BadTestingUrl)
    } else if screenshots is None {
        Err(ConfigError::MissingScreenshots)
    } else if resolved_threshold(threshold, file) is None {
        Err(ConfigError::ThresholdOutOfRange)
    } else {
        Ok(
            ConfigView {
                headless: resolved_headless(cli, env, file),
                ignored: resolved_ignored(cli, env, file),
                routes: routes->0,
                screenshots: screenshots->0,
                threshold: resolved_threshold(threshold, file)->0,
                testing: testing->0,
                trusted: trusted->0,
            },
        )
    }
}

/// Resolves the configuration of a run from its layers: the command line
/// beats the environment, which beats the file, which beats the defaults.
/// `threshold` is what reading [`threshold_text`] as a number gave.
pub fn get_config(
    cli_config: &CliConfig,
    env: &EnvConfig,
    file_config: Option<&Config>,
    threshold: ThresholdInput,
) -> (outcome: Result<Config, ConfigError>)
    ensures
        match (
            outcome,
            resolution(
                *cli_config,
                *env,
                match file_config {
                    Some(config) => Some(*config),
                    None => None,
                },
                threshold,
            ),
        ) {
            (Ok(config), Ok(wanted)) => config@ == wanted,
            (Err(error), Err(wanted)) => error == wanted,
            _ => false,
        },
{
    let headless: bool = if cli_config.noheadless {
        false
    } else {
        match &env.headless {
            Some(text) => *text != "false".to_string(),
            None => match file_config {
                Some(config) => config.headless,
                None => true,
            },
        }
    };
    let trusted = match pick(&cli_config.trusted, &env.trusted) {
        Some(text) => text,
        None => match file_config {
            Some(config) => config.trusted.clone(),
            None => {
                return Err(ConfigError::MissingTrusted);
            },
        },
    };
    if !parses_as_url(trusted.as_str()) {
        return Err(ConfigError::BadTrustedUrl);
    }
    let testing = match pick(&cli_config.testing, &env.testing) {
        Some(text) => text,
        None => match file_config {
            Some(config) => config.testing.clone(),
            None => {
                return Err(ConfigError::MissingTesting);
            },
        },
    };
    if !parses_as_url(testing.as_str()) {
        return Err(ConfigError::BadTestingUrl);
    }
    let screenshots = match pick(&cli_config.screenshots, &env.screenshots) {
        Some(text) => text,
        None => match file_config {
            Some(config) => config.screenshots.clone(),
            None => {
                return Err(ConfigError::MissingScreenshots);
            },
        },
    };
    let ignored_text = match pick(&cli_config.ignored, &env.ignored) {
        Some(text) => text,
        None => match file_config {
            Some(config) => join_commas(&config.ignored),
            None => String::new(),
        },
    };
    let ignored = without_repetitions(&split_commas(ignored_text.as_str()));
    let threshold = match threshold {
        ThresholdInput::Given(given) => given,
        ThresholdInput::OutOfRange => {
            return Err(ConfigError::ThresholdOutOfRange);
        },
        ThresholdInput::Unreadable => match file_config {
            Some(config) => config.threshold,
            None => Threshold::zero(),
        },
    };
    let routes = match pick(&cli_config.routes, &env.routes) {
        Some(text) => text,
        None => match file_config {
            Some(config) => config.routes.clone(),
            None => "sitemap".to_string(),
        },
    };
    Ok(Config { headless, routes, ignored, screenshots, testing, threshold, trusted })
}

/// The text of a truth value.
pub open spec fn bool_text(value: bool) -> Seq<char> {
    if value {
        "true"@
    } else {
        "false"@
    }
}

/// The character of a decimal digit.
pub open spec fn digit_char(digit: nat) -> char {
    if digit == 0 {
        '0'
    } else if digit == 1 {
        '1'
    } else if digit == 2 {
        '2'
    } else if digit == 3 {
        '3'
    } else if digit == 4 {
        '4'
    } else if digit == 5 {
        '5'
    } else if digit == 6 {
        '6'
    } else if digit == 7 {
        '7'
    } else if digit == 8 {
        '8'
    } else {
        '9'
    }
}

/// The decimal digits of a number, without leading zeros.
pub open spec fn digits(n: nat) -> Seq<char>
    decreases n,
{
    if n < 10 {
        seq![digit_char(n)]
    } else {
        digits(n / 10).push(digit_char(n % 10))
    }
}

/// The digits of `part / (10 * unit)` after the decimal point, without
/// trailing zeros: the digit at the place of `unit` first.
pub open spec fn fraction_digits(part: nat, unit: nat) -> Seq<char>
    decreases unit,
{
    if part == 0 || unit == 0 {
        Seq::<char>::empty()
    } else {
        seq![digit_char(part / unit)] + fraction_digits(part % unit, unit / 10)
    }
}

/// A threshold as a decimal number of percent: the whole percent, and where
/// there is a fraction, a point and up to six digits without trailing zeros.
pub open spec fn percent_text(micro_percent: nat) -> Seq<char> {
    if micro_percent % 1_000_000 == 0 {
        digits(micro_percent / 1_000_000)
    } else {
        digits(micro_percent / 1_000_000) + seq!['.'] + fraction_digits(
            micro_percent % 1_000_000,
            100_000,
        )
    }
}

fn digit_of(digit: u32) -> (ch: char)
    requires
        digit < 10,
    ensures
        ch == digit_char(digit as nat),
{
    if digit == 0 {
        '0'
    } else if digit == 1 {
        '1'
    } else if digit == 2 {
        '2'
    } else if digit == 3 {
        '3'
    } else if digit == 4 {
        '4'
    } else if digit == 5 {
        '5'
    } else if digit == 6 {
        '6'
    } else if digit == 7 {
        '7'
    } else if digit == 8 {
        '8'
    } else {
        '9'
    }
}

fn push_digits(out: &mut String, n: u32)
    ensures
        final(out)@ == old(out)@ + digits(n as nat),
    decreases n,
{
    if n >= 10 {
        push_digits(out, n / 10);
    }
    let ghost before = out@;
    out.push(digit_of(n % 10));
    proof {
        if n >= 10 {
            assert(before.push(digit_char((n % 10) as nat)) =~= old(out)@ + digits(
                (n / 10) as nat,
            ).push(digit_char((n % 10) as nat)));
        } else {
            assert(before.push(digit_char(n as nat)) =~= old(out)@ + seq![digit_char(n as nat)]);
        }
    }
}

/// Whether a number is a power of ten.
pub open spec fn is_power_of_ten(unit: nat) -> bool
    decreases unit,
{
    unit == 1 || (unit >= 10 && unit % 10 == 0 && is_power_of_ten(unit / 10))
}

fn push_fraction(out: &mut String, part: u32, unit: u32)
    requires
        part < 10 * unit,
        is_power_of_ten(unit as nat),
    ensures
        final(out)@ == old(out)@ + fraction_digits(part as nat, unit as nat),
    decreases unit,
{
    if part == 0 || unit == 0 {
        assert(out@ + Seq::<char>::empty() =~= out@);
    } else {
        assert(part / unit < 10) by (nonlinear_arith)
            requires
                part < 10 * unit,
                unit > 0,
        ;
        assert(part % unit < unit);
        out.push(digit_of(part / unit));
        let ghost before = out@;
        if unit / 10 == 0 {
            assert(fraction_digits((part % unit) as nat, 0) =~= Seq::<char>::empty());
            assert(before + Seq::<char>::empty() =~= before);
            assert(before =~= old(out)@ + (seq![digit_char((part / unit) as nat)]
                + fraction_digits((part % unit) as nat, (unit / 10) as nat)));
        } else {
            push_fraction(out, part % unit, unit / 10);
            assert(out@ =~= old(out)@ + (seq![digit_char((part / unit) as nat)] + fraction_digits(
                (part % unit) as nat,
                (unit / 10) as nat,
            )));
        }
    }
}

/// Writes a threshold as a decimal number of percent.
pub fn threshold_to_text(threshold: Threshold) -> (text: String)
    ensures
        text@ == percent_text(threshold@),
{
    let micro: u32 = threshold.micro_percent();
    let mut text = String::new();
    push_digits(&mut text, micro / 1_000_000);
    assert(text@ =~= digits((micro / 1_000_000) as nat));
    if micro % 1_000_000 != 0 {
        text.push('.');
        proof {
            reveal_with_fuel(is_power_of_ten, 7);
        }
        push_fraction(&mut text, micro % 1_000_000, 100_000);
        assert(digits((micro / 1_000_000) as nat).push('.') =~= digits((micro / 1_000_000) as nat)
            + seq!['.']);
    }
    text
}

fn bool_to_text(value: bool) -> (text: &'static str)
    ensures
        text@ == bool_text(value),
{
    if value {
        "true"
    } else {
        "false"
    }
}

/// A configuration as the environment variables that give it.
pub open spec fn env_text(config: ConfigView) -> Seq<char> {
    "\nexport NITPX_HEADLESS=\""@ + bool_text(config.headless)
        + "\"\nexport NITPX_IGNORED=\""@ + comma_joined(config.ignored)
        + "\"\nexport NITPX_ROUTES=\""@ + config.routes + "\"\nexport NITPX_SCREENSHOTS=\""@
        + config.screenshots + "\"\nexport NITPX_TESTING=\""@ + config.testing
        + "\"\nexport NITPX_THRESHOLD=\""@ + percent_text(config.threshold)
        + "\"\nexport NITPX_TRUSTED=\""@ + config.trusted + "\""@
}

/// A configuration as the command line flags that give it.
pub open spec fn flags_text(config: ConfigView) -> Seq<char> {
    "--headless "@ + bool_text(config.headless) + " --ignored "@ + comma_joined(config.ignored)
        + " --routes "@ + config.routes + " --screenshots "@ + config.screenshots + " --testing "@
        + config.testing + " --threshold "@ + percent_text(config.threshold) + " --trusted "@
        + config.trusted
}

/// Writes a configuration as the environment variables that give it.
pub fn config_to_env(config: &Config) -> (text: String)
    ensures
        text@ == env_text(config@),
{
    let ignored = join_commas(&config.ignored);
    let threshold = threshold_to_text(config.threshold);
    let mut text = "\nexport NITPX_HEADLESS=\"".to_string();
    text.append(bool_to_text(config.headless));
    text.append("\"\nexport NITPX_IGNORED=\"");
    text.append(ignored.as_str());
    text.append("\"\nexport NITPX_ROUTES=\"");
    text.append(config.routes.as_str());
    text.append("\"\nexport NITPX_SCREENSHOTS=\"");
    text.append(config.screenshots.as_str());
    text.append("\"\nexport NITPX_TESTING=\"");
    text.append(config.testing.as_str());
    text.append("\"\nexport NITPX_THRESHOLD=\"");
    text.append(threshold.as_str());
    text.append("\"\nexport NITPX_TRUSTED=\"");
    text.append(config.trusted.as_str());
    text.append("\"");
    text
}

/// Writes a configuration as the command line flags that give it.
pub fn config_to_flags(config: &Config) -> (text: String)
    ensures
        text@ == flags_text(config@),
{
    let ignored = join_commas(&config.ignored);
    let threshold = threshold_to_text(config.threshold);
    let mut text = "--headless ".to_string();
    text.append(bool_to_text(config.headless));
    text.append(" --ignored ");
    text.append(ignored.as_str());
    text.append(" --routes ");
    text.append(config.routes.as_str());
    text.append(" --screenshots ");
    text.append(config.screenshots.as_str());
    text.append(" --testing ");
    text.append(config.testing.as_str());
    text.append(" --threshold ");
    text.append(threshold.as_str());
    text.append(" --trusted ");
    text.append(config.trusted.as_str());
    text
}

/// The path of the configuration file in a configuration directory.
pub fn get_config_file_path(config_dir: &str) -> (path: String)
    ensures
        path@ == config_dir@ + "/config.json"@,
{
    crate::text::joined(config_dir, "/config.json")
}

} // verus!
