//! The configuration and the store that keeps the last good one across
//! reloads.

use crate::detect::calculate_hash;
use crate::detect::fingerprint;
use crate::text::to_chars;
use crate::text::ReplacementRule;
use crate::text::rules_view;
use vstd::prelude::*;
use vstd::string::StringExecFns;

verus! {

/// Name of the directory that holds the configuration file.
pub const CONFIG_DIR_NAME: &'static str = "clipboard-formatter";

/// Name of the configuration file.
pub const CONFIG_FILE_NAME: &'static str = "config.toml";

/// The separator between the parts of a path.
pub const PATH_SEPARATOR: char = '/';

/// The two intervals of the monitoring loop, in milliseconds.
#[derive(Clone, Copy, Debug, PartialEq, Eq, Structural)]
pub struct AppSettings {
    /// Pause between two looks at the clipboard.
    pub clipboard_poll_interval: u64,
    /// Pause between two looks of the file watch at the configuration file.
    pub config_reload_interval: u64,
}

/// A configuration: the intervals, the replacement rules in their order, and
/// the characters that are not folded.
#[derive(Clone, Debug)]
pub struct AppConfig {
    pub app: AppSettings,
    pub replacements: Vec<ReplacementRule>,
    pub exclusions: Vec<char>,
}

/// A configuration, as a mathematical value.
pub ghost struct ConfigView {
    pub app: AppSettings,
    pub rules: Seq<(Seq<char>, Seq<char>)>,
    pub exclusions: Seq<char>,
}

impl View for AppConfig {
    type V = ConfigView;

    open spec fn view(&self) -> ConfigView {
        ConfigView {
            app: self.app,
            rules: rules_view(self.replacements@),
            exclusions: self.exclusions@,
        }
    }
}

impl ConfigView {
    /// A configuration is valid when no rule has an empty original.
    pub open spec fn valid(self) -> bool {
        forall|i: int| 0 <= i < self.rules.len() ==> (#[trigger] self.rules[i]).0.len() > 0
    }
}

impl AppConfig {
    /// The characters that are exempt from folding.
    pub fn exclusion_list(&self) -> (list: &[char])
        ensures
            list@ == self@.exclusions,
    {
        self.exclusions.as_slice()
    }
}

/// Why no configuration is at hand.
#[derive(Clone, Copy, Debug, PartialEq, Eq, Structural)]
pub enum ConfigError {
    /// Neither the environment nor the platform names a configuration
    /// directory.
    NoConfigDir,
    /// The configuration file could not be read.
    Unreadable,
    /// The file's text is not a configuration document.
    Malformed,
    /// The rule at this index has an empty original.
    EmptyOriginal(usize),
}

impl ConfigError {
    /// The error in words.
    pub fn message(&self) -> (text: String)
        ensures
            text@ == match *self {
                ConfigError::NoConfigDir => "Failed to get config directory"@,
                ConfigError::Unreadable => "Failed to read config.toml"@,
                ConfigError::Malformed => "Failed to parse config.toml"@,
                ConfigError::EmptyOriginal(_) => "Replacement with an empty original in config.toml"@,
            },
    {
        match self {
            ConfigError::NoConfigDir => "Failed to get config directory".to_owned(),
            ConfigError::Unreadable => "Failed to read config.toml".to_owned(),
            ConfigError::Malformed => "Failed to parse config.toml".to_owned(),
            ConfigError::EmptyOriginal(_) => "Replacement with an empty original in config.toml".to_owned(),
        }
    }
}

/// What reading and parsing the configuration file gave.
#[derive(Clone, Debug)]
pub enum LoadAttempt {
    /// The file could not be read.
    Unreadable,
    /// The text is not a configuration document.
    Malformed,
    /// The configuration that the text describes.
    Parsed(AppConfig),
}

/// A load attempt, as a mathematical value.
pub ghost enum AttemptView {
    Unreadable,
    Malformed,
    Parsed(ConfigView),
}

impl View for LoadAttempt {
    type V = AttemptView;

    open spec fn view(&self) -> AttemptView {
        match self {
            LoadAttempt::Unreadable => AttemptView::Unreadable,
            LoadAttempt::Malformed => AttemptView::Malformed,
            LoadAttempt::Parsed(config) => AttemptView::Parsed(config@),
        }
    }
}

/// Number of rules at the head of `rules` whose original is not empty.
pub open spec fn leading_valid(rules: Seq<(Seq<char>, Seq<char>)>) -> nat
    decreases rules.len(),
{
    if rules.len() == 0 || rules[0].0.len() == 0 {
        0
    } else {
        1 + leading_valid(rules.drop_first())
    }
}

/// What a load attempt amounts to: the configuration where it could be read
/// and parsed and is valid, else the reason, which for an invalid
/// configuration names the first rule with an empty original.
pub open spec fn load_spec(attempt: AttemptView) -> Result<ConfigView, ConfigError> {
    match attempt {
        AttemptView::Unreadable => Err(ConfigError::Unreadable),
        AttemptView::Malformed => Err(ConfigError::Malformed),
        AttemptView::Parsed(config) => if leading_valid(config.rules) == config.rules.len() {
            Ok(config)
        } else {
            Err(ConfigError::EmptyOriginal(leading_valid(config.rules) as usize))
        },
    }
}

/// The path of `name` inside the directory `dir`: the two joined by one
/// separator, which is left out where `dir` is empty or ends in one.
pub open spec fn join_spec(dir: Seq<char>, name: Seq<char>) -> Seq<char> {
    if dir.len() == 0 || dir.last() == PATH_SEPARATOR {
        dir + name
    } else {
        dir.push(PATH_SEPARATOR) + name
    }
}

/// The path of the configuration file below the configuration directory `dir`.
pub open spec fn config_path_spec(dir: Seq<char>) -> Seq<char> {
    join_spec(join_spec(dir, CONFIG_DIR_NAME@), CONFIG_FILE_NAME@)
}

/// The configuration directory: the one that the environment names, else the
/// platform's.
pub open spec fn chosen_dir(
    xdg_config_home: Option<String>,
    platform_config_dir: Option<String>,
) -> Option<Seq<char>> {
    match xdg_config_home {
        Some(dir) => Some(dir@),
        None => match platform_config_dir {
            Some(dir) => Some(dir@),
            None => None,
        },
    }
}

/// What the store knows, as a mathematical value.
pub ghost struct StoreView {
    /// Path of the configuration file.
    pub path: Seq<char>,
    /// The configuration in force: the last one that loaded.
    pub config: ConfigView,
    /// Fingerprint of the text that the configuration in force came from.
    pub good_digest: u64,
    /// Whether the last reload failed, so that its failure has been reported.
    pub failure_logged: bool,
    /// Fingerprint of the text that failed last; it counts while
    /// `failure_logged` holds.
    pub failed_digest: u64,
}

/// What a successful reload amounts to.
#[derive(Clone, Copy, Debug, PartialEq, Eq, Structural)]
pub enum ReloadNotice {
    /// The text is the one that the configuration in force came from:
    /// nothing was touched and nothing is to be reported.
    Unchanged,
    /// A new configuration is in force.
    Reloaded,
}

/// A failed reload. The configuration in force before it stays in force.
#[derive(Clone, Copy, Debug, PartialEq, Eq, Structural)]
pub struct ReloadFailure {
    /// Why the text gave no configuration.
    pub error: ConfigError,
    /// Whether this failure starts a streak and is to be reported; a failure
    /// of the same text as the failure before it is not.
    pub first_in_streak: bool,
}

/// Whether a reload finds the text that the configuration in force came
/// from: no failure is pending, and the fingerprint is the one kept.
pub open spec fn same_as_in_force(state: StoreView, digest: u64) -> bool {
    !state.failure_logged && digest == state.good_digest
}

/// The store after a reload with the text of fingerprint `digest`.
pub open spec fn reload_state(state: StoreView, digest: u64, attempt: AttemptView) -> StoreView {
    match load_spec(attempt) {
        Ok(config) => if same_as_in_force(state, digest) {
            state
        } else {
            StoreView { config: config, good_digest: digest, failure_logged: false, ..state }
        },
        Err(_) => StoreView { failure_logged: true, failed_digest: digest, ..state },
    }
}

/// What a reload with the text of fingerprint `digest` reports.
pub open spec fn reload_result(state: StoreView, digest: u64, attempt: AttemptView) -> Result<
    ReloadNotice,
    ReloadFailure,
> {
    match load_spec(attempt) {
        Ok(_) => if same_as_in_force(state, digest) {
            Ok(ReloadNotice::Unchanged)
        } else {
            Ok(ReloadNotice::Reloaded)
        },
        Err(error) => Err(
            ReloadFailure {
                error: error,
                first_in_streak: !(state.failure_logged && state.failed_digest == digest),
            },
        ),
    }
}

/// Joins a directory and a name to one path.
pub fn join_path(dir: &str, name: &str) -> (path: String)
    ensures
        path@ == join_spec(dir@, name@),
{
    let parts = to_chars(dir);
    let mut path = String::from_str(dir);
    if parts.len() > 0 && parts[parts.len() - 1] != PATH_SEPARATOR {
        path.push(PATH_SEPARATOR);
    }
    path.append(name);
    path
}

/// The store of the configuration: it holds the last configuration that
/// loaded, and keeps it when a reload fails.
pub struct ConfigManager {
    config_path: String,
    config: AppConfig,
    good_digest: u64,
    failure_logged: bool,
    failed_digest: u64,
}

impl View for ConfigManager {
    type V = StoreView;

    closed spec fn view(&self) -> StoreView {
        StoreView {
            path: self.config_path@,
            config: self.config@,
            good_digest: self.good_digest,
            failure_logged: self.failure_logged,
            failed_digest: self.failed_digest,
        }
    }
}

impl ConfigManager {
    #[verifier::type_invariant]
    spec fn holds_valid_config(self) -> bool {
        self.config@.valid()
    }

    /// The path of the configuration file: below the directory that the
    /// environment names, else below the platform's, else nowhere.
    pub fn get_config_path_static(
        xdg_config_home: Option<String>,
        platform_config_dir: Option<String>,
    ) -> (path: Result<String, ConfigError>)
        ensures
            match chosen_dir(xdg_config_home, platform_config_dir) {
                Some(dir) => path matches Ok(p) && p@ == config_path_spec(dir),
                None => path == Err::<String, ConfigError>(ConfigError::NoConfigDir),
            },
    {
        let config_dir = match xdg_config_home {
            Some(dir) => dir,
            None => match platform_config_dir {
                Some(dir) => dir,
                None => {
                    return Err(ConfigError::NoConfigDir);
                },
            },
        };
        let app_dir = join_path(config_dir.as_str(), CONFIG_DIR_NAME);
        Ok(join_path(app_dir.as_str(), CONFIG_FILE_NAME))
    }

    /// Judges a load attempt: a parsed configuration is accepted when it is
    /// valid.
    pub fn load_config(attempt: LoadAttempt) -> (loaded: Result<AppConfig, ConfigError>)
        ensures
            match load_spec(attempt@) {
                Ok(config) => loaded matches Ok(accepted) && accepted@ == config,
                Err(error) => loaded == Err::<AppConfig, ConfigError>(error),
            },
            loaded matches Ok(accepted) ==> accepted@.valid(),
    {
        match attempt {
            LoadAttempt::Unreadable => Err(ConfigError::Unreadable),
            LoadAttempt::Malformed => Err(ConfigError::Malformed),
            LoadAttempt::Parsed(config) => {
                let ghost rules = config@.rules;
                let mut i: usize = 0;
                assert(rules.skip(0) =~= rules);
                while i < config.replacements.len()
                    invariant
                        i <= config.replacements.len(),
                        rules == config@.rules,
                        attempt@ == AttemptView::Parsed(config@),
                        leading_valid(rules.skip(i as int)) + i == leading_valid(rules),
                    decreases config.replacements.len() - i,
                {
                    proof {
                        assert(rules.skip(i as int)[0] == config.replacements@[i as int]@);
                        assert(rules.skip(i as int).drop_first() =~= rules.skip(i + 1));
                    }
                    if config.replacements[i].original.as_str().is_empty() {
                        assert(leading_valid(rules) == i);
                        return Err(ConfigError::EmptyOriginal(i));
                    }
                    i += 1;
                }
                proof {
                    leading_valid_bounds(rules);
                }
                Ok(config)
            },
        }
    }

    /// The store as it starts: it holds what the first load attempt gave, for
    /// the file at `config_path` with the text `text`.
    pub fn new(config_path: String, text: &str, attempt: LoadAttempt) -> (made: Result<
        ConfigManager,
        ConfigError,
    >)
        ensures
            match load_spec(attempt@) {
                Ok(config) => made matches Ok(manager) && manager@ == (StoreView {
                    path: config_path@,
                    config: config,
                    good_digest: fingerprint(text@),
                    failure_logged: false,
                    failed_digest: 0,
                }),
                Err(error) => made matches Err(e) && e == error,
            },
    {
        match Self::load_config(attempt) {
            Ok(config) => Ok(
                ConfigManager {
                    config_path,
                    config,
                    good_digest: calculate_hash(text),
                    failure_logged: false,
                    failed_digest: 0,
                },
            ),
            Err(error) => Err(error),
        }
    }

    /// Takes in what reading the configuration file again gave: `text` is the
    /// text read (empty where the file could not be read), `attempt` what the
    /// parser made of it. A valid configuration replaces the one in force,
    /// unless its text has the fingerprint of the text in force and no failure
    /// is pending: then nothing changes. Any failure leaves the one in force
    /// untouched, and is marked for report unless the same text failed just
    /// before.
    pub fn reload_config(&mut self, text: &str, attempt: LoadAttempt) -> (outcome: Result<
        ReloadNotice,
        ReloadFailure,
    >)
        ensures
            final(self)@ == reload_state(old(self)@, fingerprint(text@), attempt@),
            outcome == reload_result(old(self)@, fingerprint(text@), attempt@),
    {
        proof {
            use_type_invariant(&*self);
        }
        let digest = calculate_hash(text);
        match Self::load_config(attempt) {
            Ok(new_config) => {
                if !self.failure_logged && digest == self.good_digest {
                    Ok(ReloadNotice::Unchanged)
                } else {
                    self.config = new_config;
                    self.good_digest = digest;
                    self.failure_logged = false;
                    Ok(ReloadNotice::Reloaded)
                }
            },
            Err(error) => {
                let first_in_streak = !(self.failure_logged && self.failed_digest == digest);
                self.failure_logged = true;
                self.failed_digest = digest;
                Err(ReloadFailure { error, first_in_streak })
            },
        }
    }

    /// The configuration in force.
    pub fn get_config(&self) -> (config: &AppConfig)
        ensures
            config@ == self@.config,
            config@.valid(),
    {
        proof {
            use_type_invariant(self);
        }
        &self.config
    }

    /// The path of the configuration file.
    pub fn get_config_path(&self) -> (path: &String)
        ensures
            path@ == self@.path,
    {
        &self.config_path
    }
}

/// The head of `rules` counted by `leading_valid` holds no empty original, and
/// the rule behind it, if there is one, has an empty original.
pub proof fn leading_valid_bounds(rules: Seq<(Seq<char>, Seq<char>)>)
    ensures
        leading_valid(rules) <= rules.len(),
        forall|i: int| 0 <= i < leading_valid(rules) ==> (#[trigger] rules[i]).0.len() > 0,
        leading_valid(rules) < rules.len() ==> rules[leading_valid(rules) as int].0.len() == 0,
    decreases rules.len(),
{
    if rules.len() == 0 || rules[0].0.len() == 0 {
    } else {
        let rest = rules.drop_first();
        leading_valid_bounds(rest);
        assert forall|i: int| 0 <= i < leading_valid(rules) implies (#[trigger] rules[i]).0.len()
            > 0 by {
            if i > 0 {
                assert(rules[i] == rest[i - 1]);
            }
        }
        if leading_valid(rules) < rules.len() {
            assert(rules[leading_valid(rules) as int] == rest[leading_valid(rest) as int]);
        }
    }
}

/// A load attempt succeeds exactly for a parsed configuration that is valid,
/// and then gives that configuration.
pub proof fn load_succeeds_when_valid(attempt: AttemptView)
    ensures
        load_spec(attempt) is Ok <==> (attempt matches AttemptView::Parsed(config)
            && config.valid()),
        load_spec(attempt) matches Ok(config) ==> attempt == AttemptView::Parsed(config),
{
    if let AttemptView::Parsed(config) = attempt {
        leading_valid_bounds(config.rules);
    }
}

/// A failed reload leaves the configuration in force as it was and reports
/// the failure; a reload that succeeds after it puts the new configuration in
/// force and clears the failure flag.
pub proof fn reload_keeps_last_good(
    state: StoreView,
    bad_digest: u64,
    bad: AttemptView,
    good_digest: u64,
    good: AttemptView,
)
    requires
        load_spec(bad) is Err,
        load_spec(good) is Ok,
    ensures
        reload_state(state, bad_digest, bad).config == state.config,
        reload_state(state, bad_digest, bad).failure_logged,
        reload_result(state, bad_digest, bad) matches Err(failure) && failure.error == load_spec(
            bad,
        )->Err_0,
        reload_state(reload_state(state, bad_digest, bad), good_digest, good).config == load_spec(
            good,
        )->Ok_0,
        !reload_state(reload_state(state, bad_digest, bad), good_digest, good).failure_logged,
        reload_result(reload_state(state, bad_digest, bad), good_digest, good) == Ok::<
            ReloadNotice,
            ReloadFailure,
        >(ReloadNotice::Reloaded),
{
}

/// Whatever is handed to a reload, a valid configuration stays in force.
pub proof fn reload_keeps_config_valid(state: StoreView, digest: u64, attempt: AttemptView)
    requires
        state.config.valid(),
    ensures
        reload_state(state, digest, attempt).config.valid(),
        reload_state(state, digest, attempt).path == state.path,
{
    load_succeeds_when_valid(attempt);
}

/// A failure is marked for report once per streak: the failure of a text
/// that failed just before is not marked again, and the first failure after a
/// successful reload is marked whatever its text.
pub proof fn failure_is_reported_once_per_streak(
    state: StoreView,
    digest: u64,
    first: AttemptView,
    second: AttemptView,
)
    requires
        load_spec(first) is Err,
        load_spec(second) is Err,
    ensures
        reload_result(reload_state(state, digest, first), digest, second) matches Err(failure)
            && !failure.first_in_streak,
        !state.failure_logged ==> (reload_result(state, digest, first) matches Err(failure)
            && failure.first_in_streak),
{
}

} // verus!
