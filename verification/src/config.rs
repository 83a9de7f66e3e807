//! What one invocation asks for: the query, the file to read, and whether
//! letter case counts.

use vstd::prelude::*;

verus! {

/// The environment variable whose presence, whatever its value, asks for a
/// search that ignores letter case.
pub const CASE_INSENSITIVE_VARIABLE: &'static str = "CASE_INSENSITIVE";

/// The settings of one search.
#[derive(Debug, PartialEq, Eq)]
pub struct Config {
    /// The text to look for.
    pub query: String,
    /// The path of the file to read.
    pub filename: String,
    /// Whether letter case counts in the comparison.
    pub case_sensitive: bool,
}

/// A `Config` as plain values.
pub struct ConfigView {
    pub query: Seq<char>,
    pub filename: Seq<char>,
    pub case_sensitive: bool,
}

impl View for Config {
    type V = ConfigView;

    open spec fn view(&self) -> ConfigView {
        ConfigView {
            query: self.query@,
            filename: self.filename@,
            case_sensitive: self.case_sensitive,
        }
    }
}

/// Why no `Config` could be made.
#[derive(Debug, Clone, Copy, PartialEq, Eq)]
pub enum ConfigError {
    /// The argument list holds fewer than a program name, a query and a
    /// file name.
    NotEnoughArguments,
}

impl ConfigError {
    /// The message for the user.
    pub fn message(&self) -> (text: &'static str)
        ensures
            text@ == "not enough arguments"@,
    {
        match self {
            ConfigError::NotEnoughArguments => "not enough arguments",
        }
    }
}

impl Config {
    /// Makes the configuration from a process's argument list and from
    /// `ignore_case`, which says whether `CASE_INSENSITIVE_VARIABLE` is set
    /// in the environment. The second and third arguments become the query
    /// and the file name; the first, the program's name, is ignored, and so
    /// are any after the third. Fewer than three arguments are an error,
    /// whatever they hold.
    pub fn new(args: &[String], ignore_case: bool) -> (outcome: Result<Config, ConfigError>)
        ensures
            args@.len() < 3 ==> outcome == Err::<Config, ConfigError>(
                ConfigError::NotEnoughArguments,
            ),
            args@.len() >= 3 ==> outcome is Ok && outcome->Ok_0@ == (ConfigView {
                query: args@[1]@,
                filename: args@[2]@,
                case_sensitive: !ignore_case,
            }),
    {
        if args.len() < 3 {
            return Err(ConfigError::NotEnoughArguments);
        }
        let query = args[1].clone();
        let filename = args[2].clone();
        Ok(Config { query, filename, case_sensitive: !ignore_case })
    }
}

} // verus!
