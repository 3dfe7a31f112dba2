use nova_rs::logging::{BasicLogger, LogLevel, LogStream};

#[test]
fn it_works() {
    assert_eq!(2 + 2, 4);
}

#[test]
fn logger_always_logs_errors_warnings_and_info() {
    let logger = BasicLogger::new(false, false);
    assert!(logger.enabled(LogLevel::Error));
    assert!(logger.enabled(LogLevel::Warn));
    assert!(logger.enabled(LogLevel::Info));
    assert!(!logger.enabled(LogLevel::Debug));
    assert!(!logger.enabled(LogLevel::Trace));
}

#[test]
fn logger_logs_debug_and_trace_where_enabled() {
    let debug_only = BasicLogger::new(true, false);
    assert!(debug_only.enabled(LogLevel::Debug));
    assert!(!debug_only.enabled(LogLevel::Trace));
    let trace_only = BasicLogger::new(false, true);
    assert!(!trace_only.enabled(LogLevel::Debug));
    assert!(trace_only.enabled(LogLevel::Trace));
}

#[test]
fn logger_sends_warnings_and_errors_to_stderr() {
    let logger = BasicLogger::new(true, true);
    let line = |level, text: &str| Some((level, text.to_string()));
    assert_eq!(
        logger.log(LogLevel::Error, "Something went wrong..."),
        line(LogStream::Stderr, "[ERROR]: Something went wrong...")
    );
    assert_eq!(
        logger.log(LogLevel::Warn, "Failed to load optional dependency"),
        line(LogStream::Stderr, "[WARN]: Failed to load optional dependency")
    );
    assert_eq!(
        logger.log(LogLevel::Info, "Program started successfully."),
        line(LogStream::Stdout, "[INFO]: Program started successfully.")
    );
    assert_eq!(logger.log(LogLevel::Debug, "x = 30"), line(LogStream::Stdout, "[DEBUG]: x = 30"));
    assert_eq!(
        logger.log(LogLevel::Trace, "Reading char..."),
        line(LogStream::Stdout, "[TRACE]: Reading char...")
    );
    assert_eq!(logger.log(LogLevel::Info, ""), line(LogStream::Stdout, "[INFO]: "));
}

#[test]
fn logger_sends_disabled_levels_nowhere() {
    let logger = BasicLogger::new(false, false);
    assert_eq!(logger.log(LogLevel::Debug, "x = 30"), None);
    assert_eq!(logger.log(LogLevel::Trace, "Reading char..."), None);
    assert_eq!(
        logger.log(LogLevel::Info, "started"),
        Some((LogStream::Stdout, "[INFO]: started".to_string()))
    );
    logger.flush();
}

#[test]
fn log_level_names() {
    assert_eq!(LogLevel::Error.name(), "ERROR");
    assert_eq!(LogLevel::Warn.name(), "WARN");
    assert_eq!(LogLevel::Info.name(), "INFO");
    assert_eq!(LogLevel::Debug.name(), "DEBUG");
    assert_eq!(LogLevel::Trace.name(), "TRACE");
}
