//! What is logged, and the flags through which the logger tells the rest of
//! the program that errors or warnings were logged.
use std::sync::atomic::{AtomicBool, Ordering};
use std::sync::Arc;

use vstd::prelude::*;

use crate::cli::LogLevel;
use crate::config::parse::str_chars;

verus! {

/// Proxy object for communicating with the logger: whether errors or
/// warnings were logged, and where the log file is once it exists.
pub struct LoggerProxy {
    errors: Arc<AtomicBool>,
    warnings: Arc<AtomicBool>,
    created: Arc<AtomicBool>,
    path: String,
}

impl Clone for LoggerProxy {
    fn clone(&self) -> (r: LoggerProxy)
        ensures
            r.spec_path() == self.spec_path(),
    {
        LoggerProxy {
            errors: Arc::clone(&self.errors),
            warnings: Arc::clone(&self.warnings),
            created: Arc::clone(&self.created),
            path: self.path.clone(),
        }
    }
}

impl Default for LoggerProxy {
    fn default() -> (r: LoggerProxy)
        ensures
            r.spec_path().len() == 0,
    {
        LoggerProxy {
            errors: Arc::new(AtomicBool::new(false)),
            warnings: Arc::new(AtomicBool::new(false)),
            created: Arc::new(AtomicBool::new(false)),
            path: String::new(),
        }
    }
}

impl LoggerProxy {
    /// The path of the log file.
    pub closed spec fn spec_path(&self) -> Seq<char> {
        self.path@
    }

    /// A proxy over the logger's flags and the path of its log file.
    pub fn new(
        errors: Arc<AtomicBool>,
        warnings: Arc<AtomicBool>,
        created: Arc<AtomicBool>,
        path: String,
    ) -> (r: LoggerProxy)
        ensures
            r.spec_path() == path@,
    {
        LoggerProxy { errors, warnings, created, path }
    }

    /// Check for new logged errors.
    pub fn errors(&self) -> bool {
        self.errors.load(Ordering::Relaxed)
    }

    /// Check for new logged warnings.
    pub fn warnings(&self) -> bool {
        self.warnings.load(Ordering::Relaxed)
    }

    /// Get the path of the log file if it has been created.
    pub fn log_path(&self) -> (r: Option<&str>)
        ensures
            r matches Some(p) ==> p@ == self.spec_path(),
    {
        if self.created.load(Ordering::Relaxed) {
            Some(self.path.as_str())
        } else {
            None
        }
    }

    /// Clear log warnings/errors from the UI.
    pub fn clear(&mut self)
        ensures
            final(self).spec_path() == old(self).spec_path(),
    {
        self.errors.store(false, Ordering::Relaxed);
        self.warnings.store(false, Ordering::Relaxed);
    }
}

/// The level of a log record.
#[derive(Debug, Clone, Copy, PartialEq, Eq, Structural)]
pub enum Level {
    Error,
    Warn,
    Info,
    Debug,
    Trace,
}

/// How verbose a level is: errors least.
pub open spec fn level_rank(level: Level) -> nat {
    match level {
        Level::Error => 1,
        Level::Warn => 2,
        Level::Info => 3,
        Level::Debug => 4,
        Level::Trace => 5,
    }
}

/// How verbose a filter lets the log be: nothing when off.
pub open spec fn filter_rank(filter: LogLevel) -> nat {
    match filter {
        LogLevel::Off => 0,
        LogLevel::Error => 1,
        LogLevel::Warn => 2,
        LogLevel::Info => 3,
        LogLevel::Debug => 4,
        LogLevel::Trace => 5,
    }
}

fn level_rank_of(level: Level) -> (r: u8)
    ensures
        r == level_rank(level),
{
    match level {
        Level::Error => 1,
        Level::Warn => 2,
        Level::Info => 3,
        Level::Debug => 4,
        Level::Trace => 5,
    }
}

fn filter_rank_of(filter: LogLevel) -> (r: u8)
    ensures
        r == filter_rank(filter),
{
    match filter {
        LogLevel::Off => 0,
        LogLevel::Error => 1,
        LogLevel::Warn => 2,
        LogLevel::Info => 3,
        LogLevel::Debug => 4,
        LogLevel::Trace => 5,
    }
}

/// A record is logged when its level passes the filter and it comes from
/// this program's own modules.
pub open spec fn record_logged_spec(level: Level, filter: LogLevel, target: Seq<char>) -> bool {
    level_rank(level) <= filter_rank(filter) && target.len() >= 9 && target.take(9) == "alacritty"@
}

/// Whether a record of `level` from the module `target` is logged.
pub fn record_logged(level: Level, filter: LogLevel, target: &str) -> (r: bool)
    ensures
        r == record_logged_spec(level, filter, target@),
{
    if level_rank_of(level) > filter_rank_of(filter) {
        return false;
    }
    let t = str_chars(target);
    if t.len() < 9 {
        return false;
    }
    let p = str_chars("alacritty");
    proof {
        reveal_strlit("alacritty");
    }
    let mut i: usize = 0;
    while i < 9
        invariant
            i <= 9,
            t@ == target@,
            t@.len() >= 9,
            p@ == "alacritty"@,
            p@.len() == 9,
            forall|j: int| 0 <= j < i ==> t@[j] == p@[j],
        decreases 9 - i,
    {
        if t[i] != p[i] {
            assert(t@.take(9)[i as int] != p@[i as int]);
            return false;
        }
        i = i + 1;
    }
    assert(t@.take(9) == p@);
    true
}

/// Which flag a logged record raises: errors and warnings have their own.
#[derive(Debug, Clone, Copy, PartialEq, Eq, Structural)]
pub enum Raised {
    Errors,
    Warnings,
    Neither,
}

/// The flag that logging a record of `level` raises.
pub fn raised_flag(level: Level) -> (r: Raised)
    ensures
        level == Level::Error ==> r == Raised::Errors,
        level == Level::Warn ==> r == Raised::Warnings,
        level != Level::Error && level != Level::Warn ==> r == Raised::Neither,
{
    match level {
        Level::Error => Raised::Errors,
        Level::Warn => Raised::Warnings,
        _ => Raised::Neither,
    }
}

} // verus!
