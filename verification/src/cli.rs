//! Options given on the command line, and the rules that turn the parsed
//! arguments into them.
use std::path::PathBuf;

use vstd::prelude::*;

use crate::config::parse::{parse_usize, parse_usize_spec, str_chars};
use crate::config::{Dimensions, Shell};
use crate::index::{Column, Line};

verus! {

/// std's owned file system path, carried through unchanged.
#[verifier::external_type_specification]
#[verifier::external_body]
pub struct ExPathBuf(PathBuf);

/// The path that std's `PathBuf::from` makes of a string.
pub uninterp spec fn path_of(s: Seq<char>) -> PathBuf;

/// Calls std's `PathBuf::from` on a string; the result is named, as a
/// function of the string alone.
#[verifier::external_body]
fn path_from_string(s: String) -> (p: PathBuf)
    ensures
        p == path_of(s@),
{
    PathBuf::from(s)
}

/// How much is logged.
#[derive(Debug, Clone, Copy, PartialEq, Eq, Structural)]
pub enum LogLevel {
    Off,
    Error,
    Warn,
    Info,
    Debug,
    Trace,
}

/// Options specified on the command line
pub struct Options {
    pub live_config_reload: Option<bool>,
    pub print_events: bool,
    pub ref_test: bool,
    pub dimensions: Option<Dimensions>,
    pub title: Option<String>,
    pub class: Option<String>,
    pub log_level: LogLevel,
    pub command: Option<Shell>,
    pub working_dir: Option<PathBuf>,
    pub config: Option<PathBuf>,
    pub persistent_logging: bool,
}

impl Default for Options {
    fn default() -> (r: Options)
        ensures
            r.live_config_reload is None,
            !r.print_events,
            !r.ref_test,
            r.dimensions is None,
            r.title is None,
            r.class is None,
            r.log_level == LogLevel::Warn,
            r.command is None,
            r.working_dir is None,
            r.config is None,
            !r.persistent_logging,
    {
        Options {
            live_config_reload: None,
            print_events: false,
            ref_test: false,
            dimensions: None,
            title: None,
            class: None,
            log_level: LogLevel::Warn,
            command: None,
            working_dir: None,
            config: None,
            persistent_logging: false,
        }
    }
}

/// The command line as the argument parser read it.
pub struct Arguments {
    pub ref_test: bool,
    pub print_events: bool,
    pub live_config_reload: bool,
    pub no_live_config_reload: bool,
    pub persistent_logging: bool,
    /// The values given to `--dimensions`: columns, then lines.
    pub dimensions: Option<Vec<String>>,
    pub title: Option<String>,
    pub class: Option<String>,
    /// How often `-q` was given.
    pub quiet: u64,
    /// How often `-v` was given.
    pub verbose: u64,
    pub working_directory: Option<String>,
    pub config_file: Option<String>,
    /// The command and its arguments, after `-e`.
    pub command: Option<Vec<String>>,
}

/// The log level that `-q` and `-v` counts give: each `-q` logs less, each
/// `-v` more, and printing events logs at least informational messages.
pub open spec fn log_level_spec(quiet: u64, verbose: u64, print_events: bool) -> LogLevel {
    if verbose == 0 && !print_events {
        if quiet == 0 {
            LogLevel::Warn
        } else if quiet == 1 {
            LogLevel::Error
        } else {
            LogLevel::Off
        }
    } else if verbose <= 1 {
        LogLevel::Info
    } else if verbose == 2 {
        LogLevel::Debug
    } else {
        LogLevel::Trace
    }
}

/// The log level for the given counts of `-q` and `-v`.
pub fn log_level(quiet: u64, verbose: u64, print_events: bool) -> (r: LogLevel)
    ensures
        r == log_level_spec(quiet, verbose, print_events),
{
    let mut level = LogLevel::Warn;
    if quiet == 1 {
        level = LogLevel::Error;
    } else if quiet >= 2 {
        level = LogLevel::Off;
    }
    if verbose == 0 && !print_events {
    } else if verbose <= 1 {
        level = LogLevel::Info;
    } else if verbose == 2 {
        level = LogLevel::Debug;
    } else {
        level = LogLevel::Trace;
    }
    level
}

/// The window dimensions that `--dimensions` values give: both the columns
/// and the lines must read as numbers.
pub open spec fn dimensions_spec(values: Seq<String>) -> Option<(usize, usize)> {
    if values.len() >= 2 {
        match (parse_usize_spec(values[0]@), parse_usize_spec(values[1]@)) {
            (Some(c), Some(l)) => Some((c, l)),
            _ => None,
        }
    } else {
        None
    }
}

/// Reads the columns and lines given to `--dimensions`.
pub fn parse_dimensions(values: &Vec<String>) -> (r: Option<Dimensions>)
    ensures
        dimensions_spec(values@) is None ==> r is None,
        dimensions_spec(values@) matches Some((c, l)) ==> (r matches Some(d) && d.spec_columns()
            == Column(c) && d.spec_lines() == Line(l)),
{
    if values.len() < 2 {
        return None;
    }
    let width = parse_usize(&str_chars(values[0].as_str()));
    let height = parse_usize(&str_chars(values[1].as_str()));
    match (width, height) {
        (Some(w), Some(h)) => Some(Dimensions::new(Column(w), Line(h))),
        _ => None,
    }
}

/// Splits a command line into its program and arguments.
fn command_of(mut parts: Vec<String>) -> (r: Option<Shell>)
    ensures
        parts@.len() == 0 ==> r is None,
        parts@.len() > 0 ==> (r matches Some(s) && s.spec_program() == parts@[0]@ && s.spec_args()
            == parts@.drop_first()),
{
    if parts.len() == 0 {
        return None;
    }
    let program = parts.remove(0);
    Some(Shell::new_with_args(program, parts))
}

impl Options {
    /// The options that a parsed command line gives.
    pub fn from_arguments(args: Arguments) -> (r: Options)
        ensures
            r.ref_test == args.ref_test,
            r.print_events == args.print_events,
            r.live_config_reload == (if args.live_config_reload {
                Some(true)
            } else if args.no_live_config_reload {
                Some(false)
            } else {
                None
            }),
            r.persistent_logging == args.persistent_logging,
            args.dimensions is None ==> r.dimensions is None,
            args.dimensions matches Some(v) ==> (dimensions_spec(v@) is None ==> r.dimensions is None),
            args.dimensions matches Some(v) ==> (dimensions_spec(v@) matches Some((c, l)) ==> (
            r.dimensions matches Some(d) && d.spec_columns() == Column(c) && d.spec_lines() == Line(
                l,
            ))),
            r.class == args.class,
            r.title == args.title,
            r.log_level == log_level_spec(args.quiet, args.verbose, args.print_events),
            args.working_directory is None ==> r.working_dir is None,
            args.working_directory matches Some(d) ==> r.working_dir == Some(path_of(d@)),
            args.config_file is None ==> r.config is None,
            args.config_file matches Some(c) ==> r.config == Some(path_of(c@)),
            args.command is None ==> r.command is None,
            args.command matches Some(parts) ==> (parts@.len() == 0 ==> r.command is None),
            args.command matches Some(parts) ==> (parts@.len() > 0 ==> (r.command matches Some(s)
                && s.spec_program() == parts@[0]@ && s.spec_args() == parts@.drop_first())),
    {
        let live_config_reload = if args.live_config_reload {
            Some(true)
        } else if args.no_live_config_reload {
            Some(false)
        } else {
            None
        };
        let dimensions = match &args.dimensions {
            Some(values) => parse_dimensions(values),
            None => None,
        };
        let working_dir = match args.working_directory {
            Some(d) => Some(path_from_string(d)),
            None => None,
        };
        let config = match args.config_file {
            Some(c) => Some(path_from_string(c)),
            None => None,
        };
        let command = match args.command {
            Some(parts) => command_of(parts),
            None => None,
        };
        Options {
            live_config_reload,
            print_events: args.print_events,
            ref_test: args.ref_test,
            dimensions,
            title: args.title,
            class: args.class,
            log_level: log_level(args.quiet, args.verbose, args.print_events),
            command,
            working_dir,
            config,
            persistent_logging: args.persistent_logging,
        }
    }

    pub fn dimensions(&self) -> (r: Option<Dimensions>)
        ensures
            r == self.dimensions,
    {
        self.dimensions
    }

    pub fn command(&self) -> (r: Option<&Shell>)
        ensures
            self.command is None ==> r is None,
            self.command matches Some(s) ==> r == Some(&s),
    {
        self.command.as_ref()
    }

    pub fn config_path(&self) -> (r: Option<&PathBuf>)
        ensures
            self.config is None ==> r is None,
            self.config matches Some(p) ==> r == Some(&p),
    {
        self.config.as_ref()
    }
}

} // verus!
