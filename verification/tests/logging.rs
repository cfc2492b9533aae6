use alacritty::cli::LogLevel;
use alacritty::logging::{raised_flag, record_logged, Level, LoggerProxy, Raised};
use std::sync::atomic::{AtomicBool, Ordering};
use std::sync::Arc;

#[test]
fn proxy_reads_and_clears_flags() {
    let errors = Arc::new(AtomicBool::new(true));
    let warnings = Arc::new(AtomicBool::new(true));
    let created = Arc::new(AtomicBool::new(false));
    let mut proxy =
        LoggerProxy::new(errors.clone(), warnings.clone(), created.clone(), "/tmp/x.log".into());
    assert!(proxy.errors());
    assert!(proxy.warnings());
    assert_eq!(proxy.log_path(), None);
    created.store(true, Ordering::Relaxed);
    assert_eq!(proxy.log_path(), Some("/tmp/x.log"));
    proxy.clear();
    assert!(!errors.load(Ordering::Relaxed));
    assert!(!proxy.warnings());
    let default = LoggerProxy::default();
    assert!(!default.errors());
    assert_eq!(default.clone().log_path(), None);
}

#[test]
fn records_of_this_program_pass_the_filter() {
    assert!(record_logged(Level::Warn, LogLevel::Warn, "alacritty::grid"));
    assert!(record_logged(Level::Error, LogLevel::Info, "alacritty"));
    assert!(!record_logged(Level::Info, LogLevel::Warn, "alacritty"));
    assert!(!record_logged(Level::Error, LogLevel::Off, "alacritty"));
    assert!(!record_logged(Level::Error, LogLevel::Trace, "vte::parser"));
    assert!(!record_logged(Level::Error, LogLevel::Trace, "alac"));
    assert_eq!(raised_flag(Level::Error), Raised::Errors);
    assert_eq!(raised_flag(Level::Warn), Raised::Warnings);
    assert_eq!(raised_flag(Level::Debug), Raised::Neither);
}
