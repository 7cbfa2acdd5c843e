//! How the program logs: which component, into which directory, from which
//! level on.

use vstd::prelude::*;
use vstd::string::*;
use crate::text::{push_str_chars, str_eq, string_of};

verus! {

/// The levels of a log line, from the most talkative on.
#[derive(Clone, Copy, Debug, PartialEq, Eq, Structural)]
pub enum Level {
    TRACE,
    DEBUG,
    INFO,
    WARN,
    ERROR,
}

/// What `str::to_uppercase` makes of a text.
pub uninterp spec fn uppercase_of(text: Seq<char>) -> Seq<char>;

/// `text` in upper case: std's `str::to_uppercase`, which goes by the Unicode
/// tables.
#[verifier::external_body]
fn to_uppercase(text: &str) -> (upper: String)
    ensures
        upper@ == uppercase_of(text@),
{
    text.to_uppercase()
}

/// The current local time as `YYYYMMDD_HHMMSS`: chrono's `Local::now()`,
/// written by `format("%Y%m%d_%H%M%S")`. Nothing is claimed of the text, which
/// depends on the clock and on the time zone of the machine.
#[verifier::external_body]
fn local_timestamp() -> (text: String) {
    chrono::Local::now().format("%Y%m%d_%H%M%S").to_string()
}

/// The level that a name in upper case stands for; `INFO` for any other text.
pub open spec fn level_named(upper: Seq<char>) -> Level {
    if upper == "TRACE"@ {
        Level::TRACE
    } else if upper == "DEBUG"@ {
        Level::DEBUG
    } else if upper == "INFO"@ {
        Level::INFO
    } else if upper == "WARN"@ || upper == "WARNING"@ {
        Level::WARN
    } else if upper == "ERROR"@ {
        Level::ERROR
    } else {
        Level::INFO
    }
}

/// The level that the name `upper`, in upper case, stands for.
pub fn level_of_name(upper: &str) -> (level: Level)
    ensures
        level == level_named(upper@),
{
    if str_eq(upper, "TRACE") {
        Level::TRACE
    } else if str_eq(upper, "DEBUG") {
        Level::DEBUG
    } else if str_eq(upper, "INFO") {
        Level::INFO
    } else if str_eq(upper, "WARN") || str_eq(upper, "WARNING") {
        Level::WARN
    } else if str_eq(upper, "ERROR") {
        Level::ERROR
    } else {
        Level::INFO
    }
}

/// The level that is configured by `value`, the setting `LOG_LEVEL` where it
/// is set: the level that it names in any mix of cases, or `INFO`.
pub open spec fn configured_level(value: Option<Seq<char>>) -> Level {
    match value {
        Some(name) => level_named(uppercase_of(name)),
        None => Level::INFO,
    }
}

/// The level that is configured by `value`.
pub fn get_log_level(value: Option<&str>) -> (level: Level)
    ensures
        level == configured_level(match value {
            Some(name) => Some(name@),
            None => None,
        }),
{
    match value {
        Some(name) => {
            let upper = to_uppercase(name);
            level_of_name(upper.as_str())
        },
        None => Level::INFO,
    }
}

/// The name of a level as a filter takes it.
pub open spec fn level_directive(level: Level) -> Seq<char> {
    match level {
        Level::TRACE => "trace"@,
        Level::DEBUG => "debug"@,
        Level::INFO => "info"@,
        Level::WARN => "warn"@,
        Level::ERROR => "error"@,
    }
}

/// The name of `level` as a filter takes it.
pub fn level_str(level: Level) -> (name: &'static str)
    ensures
        name@ == level_directive(level),
{
    match level {
        Level::TRACE => "trace",
        Level::DEBUG => "debug",
        Level::INFO => "info",
        Level::WARN => "warn",
        Level::ERROR => "error",
    }
}

/// The name of the log file of `component`, opened at `timestamp`.
pub open spec fn log_file_name(component: Seq<char>, timestamp: Seq<char>) -> Seq<char> {
    component + "_"@ + timestamp + ".log"@
}

/// What setting up the log takes: the directory to make, the file to open
/// in it, and the directives of the filter, the level first.
#[derive(Debug)]
pub struct LoggingPlan {
    pub log_dir: String,
    pub log_file_name: String,
    pub directives: Vec<String>,
}

/// Whether `directives` is the filter for `level`: the level, then three
/// libraries that are held to warnings.
pub open spec fn is_filter(directives: Seq<String>, level: Level) -> bool {
    &&& directives.len() == 4
    &&& directives[0]@ == level_directive(level)
    &&& directives[1]@ == "h2=warn"@
    &&& directives[2]@ == "tower=warn"@
    &&& directives[3]@ == "hyper=warn"@
}

/// The configuration of the log.
#[derive(Debug)]
pub struct LoggingConfig {
    pub component: String,
    pub log_dir: String,
    pub level: Level,
}

impl LoggingConfig {
    /// The configuration for `component`, with the directory `logs` and the
    /// level that `log_level` configures.
    pub fn new(component: &str, log_level: Option<&str>) -> (out: Self)
        ensures
            out.component@ == component@,
            out.log_dir@ == "logs"@,
            out.level == configured_level(match log_level {
                Some(name) => Some(name@),
                None => None,
            }),
    {
        LoggingConfig {
            component: String::from_str(component),
            log_dir: String::from_str("logs"),
            level: get_log_level(log_level),
        }
    }

    /// The configuration for `component`, with the directory `log_dir` and
    /// the level that `log_level` configures.
    pub fn with_log_dir(component: &str, log_dir: &str, log_level: Option<&str>) -> (out: Self)
        ensures
            out.component@ == component@,
            out.log_dir@ == log_dir@,
            out.level == configured_level(match log_level {
                Some(name) => Some(name@),
                None => None,
            }),
    {
        LoggingConfig {
            component: String::from_str(component),
            log_dir: String::from_str(log_dir),
            level: get_log_level(log_level),
        }
    }

    /// The directives of the filter for the level of this configuration.
    pub fn create_env_filter(&self) -> (directives: Vec<String>)
        ensures
            is_filter(directives@, self.level),
    {
        let mut directives: Vec<String> = Vec::new();
        directives.push(String::from_str(level_str(self.level)));
        directives.push(String::from_str("h2=warn"));
        directives.push(String::from_str("tower=warn"));
        directives.push(String::from_str("hyper=warn"));
        directives
    }

    /// What setting up the log takes when the file is opened at `timestamp`.
    pub fn plan_at(&self, timestamp: &str) -> (plan: LoggingPlan)
        ensures
            plan.log_dir@ == self.log_dir@,
            plan.log_file_name@ == log_file_name(self.component@, timestamp@),
            is_filter(plan.directives@, self.level),
    {
        let mut name: Vec<char> = Vec::new();
        push_str_chars(&mut name, self.component.as_str());
        push_str_chars(&mut name, "_");
        push_str_chars(&mut name, timestamp);
        push_str_chars(&mut name, ".log");
        assert(name@ =~= log_file_name(self.component@, timestamp@));
        LoggingPlan {
            log_dir: self.log_dir.clone(),
            log_file_name: string_of(&name),
            directives: self.create_env_filter(),
        }
    }

    /// What setting up the log takes now: the file is named after the
    /// component and the local time.
    pub fn initialize(&self) -> (plan: LoggingPlan)
        ensures
            plan.log_dir@ == self.log_dir@,
            exists|timestamp: Seq<char>|
                plan.log_file_name@ == #[trigger] log_file_name(self.component@, timestamp),
            is_filter(plan.directives@, self.level),
    {
        let timestamp = local_timestamp();
        self.plan_at(timestamp.as_str())
    }
}

/// What setting up the log of `component` takes, in the directory `logs`.
pub fn initialize_logging(component: &str, log_level: Option<&str>) -> (plan: LoggingPlan)
    ensures
        plan.log_dir@ == "logs"@,
        exists|timestamp: Seq<char>|
            plan.log_file_name@ == #[trigger] log_file_name(component@, timestamp),
        is_filter(plan.directives@, configured_level(match log_level {
            Some(name) => Some(name@),
            None => None,
        })),
{
    LoggingConfig::new(component, log_level).initialize()
}

/// What setting up the log of `component` takes, in the directory `log_dir`.
pub fn initialize_logging_with_dir(component: &str, log_dir: &str, log_level: Option<&str>) -> (plan:
    LoggingPlan)
    ensures
        plan.log_dir@ == log_dir@,
        exists|timestamp: Seq<char>|
            plan.log_file_name@ == #[trigger] log_file_name(component@, timestamp),
        is_filter(plan.directives@, configured_level(match log_level {
            Some(name) => Some(name@),
            None => None,
        })),
{
    LoggingConfig::with_log_dir(component, log_dir, log_level).initialize()
}

} // verus!
