use std::sync::{Arc, Mutex};
use zubr_pipeline::logging::{append_decimal, format_log_line, GlobalLogger, LogLevel, LogOutput};

struct MockOutput {
    messages: Arc<Mutex<Vec<String>>>,
}

impl MockOutput {
    fn new() -> Self {
        Self { messages: Arc::new(Mutex::new(Vec::new())) }
    }

    fn get_messages(&self) -> Vec<String> {
        self.messages.lock().unwrap().drain(..).collect()
    }
}

impl LogOutput for MockOutput {
    fn write(&self, message: &str) -> Result<(), String> {
        self.messages.lock().unwrap().push(message.to_string());
        Ok(())
    }
}

struct FailingOutput;

impl LogOutput for FailingOutput {
    fn write(&self, _message: &str) -> Result<(), String> {
        Err("closed".to_string())
    }
}

#[test]
fn test_logger_level_filtering() {
    let logger = GlobalLogger::new(MockOutput::new(), LogLevel::Warn);
    assert!(!logger.enabled(LogLevel::Debug));
    assert!(logger.enabled(LogLevel::Error));
}

#[test]
fn test_logger_formatting() {
    let logger = GlobalLogger::new(MockOutput::new(), LogLevel::Debug);
    let written = logger.log(LogLevel::Info, Some("test.rs"), Some(42), "test message");
    assert_eq!(written, Some(Ok(())));
    let messages = logger.output.get_messages();
    assert_eq!(messages.len(), 1);
    assert!(messages[0].contains("INFO"));
    assert!(messages[0].contains("test message"));
    assert!(messages[0].contains("test.rs:42"));
}

#[test]
fn filtered_message_is_not_written() {
    let logger = GlobalLogger::new(MockOutput::new(), LogLevel::Info);
    assert_eq!(logger.log(LogLevel::Debug, None, None, "hidden"), None);
    assert!(logger.output.get_messages().is_empty());
    assert!(logger.prepare(LogLevel::Trace, None, None, "hidden").is_none());
}

#[test]
fn every_level_passes_its_own_filter_and_the_more_severe_ones() {
    let levels = [LogLevel::Error, LogLevel::Warn, LogLevel::Info, LogLevel::Debug, LogLevel::Trace];
    for (i, filter) in levels.iter().enumerate() {
        let logger = GlobalLogger::new(MockOutput::new(), *filter);
        for (j, msg) in levels.iter().enumerate() {
            assert_eq!(logger.enabled(*msg), j <= i);
        }
    }
}

#[test]
fn write_error_is_handed_back() {
    let logger = GlobalLogger::new(FailingOutput, LogLevel::Trace);
    assert_eq!(
        logger.log(LogLevel::Error, None, None, "x"),
        Some(Err("closed".to_string()))
    );
    assert_eq!(logger.flush(), Ok(()));
}

#[test]
fn log_line_layout() {
    let line = format_log_line("T", LogLevel::Warn, Some("a.rs"), Some(7), "hello");
    assert_eq!(line, "[T] [WARN] [a.rs:7] hello");
    let line = format_log_line("2024", LogLevel::Trace, None, None, "");
    assert_eq!(line, "[2024] [TRACE] [unknown:0] ");
}

#[test]
fn prepared_line_ends_with_the_location_and_message() {
    let logger = GlobalLogger::new(MockOutput::new(), LogLevel::Error);
    let line = logger.prepare(LogLevel::Error, Some("m.rs"), Some(1234), "boom").unwrap();
    assert!(line.starts_with('['));
    assert!(line.ends_with("] [ERROR] [m.rs:1234] boom"));
    assert!(line.contains(" UTC]"));
}

#[test]
fn decimal_forms() {
    let mut s = String::from("n=");
    append_decimal(&mut s, 0);
    assert_eq!(s, "n=0");
    let mut s = String::new();
    append_decimal(&mut s, 4294967295);
    assert_eq!(s, "4294967295");
    let mut s = String::new();
    append_decimal(&mut s, 100);
    assert_eq!(s, "100");
}

#[test]
fn level_names_and_ranks() {
    assert_eq!(LogLevel::Error.name(), "ERROR");
    assert_eq!(LogLevel::Warn.name(), "WARN");
    assert_eq!(LogLevel::Info.name(), "INFO");
    assert_eq!(LogLevel::Debug.name(), "DEBUG");
    assert_eq!(LogLevel::Trace.name(), "TRACE");
    assert_eq!(LogLevel::Error.rank(), 1);
    assert_eq!(LogLevel::Trace.rank(), 5);
}

#[test]
fn timestamps_follow_the_library_pattern() {
    assert_eq!(zubr_pipeline::logging::timestamp_pattern(), "%Y-%m-%d %H:%M:%S%.3f UTC");
}
