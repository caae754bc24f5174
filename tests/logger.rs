use rquant::logger::{LogColor, LogInfo, LogSeverity, Logger};

#[test]
fn escape_codes_of_colors() {
    assert_eq!("\x1b[91m", LogColor::Red.get_escape_code());
    assert_eq!("\x1b[93m", LogColor::Yellow.get_escape_code());
    assert_eq!("\x1b[92m", LogColor::Green.get_escape_code());
    assert_eq!("\x1b[96m", LogColor::Cyan.get_escape_code());
    assert_eq!("\x1b[90m", LogColor::Grey.get_escape_code());
    assert_eq!("\x1b[97m", LogColor::White.get_escape_code());
}

#[test]
fn names_of_severities() {
    assert_eq!("Debug", LogSeverity::Debug.get_name());
    assert_eq!("Info", LogSeverity::Info.get_name());
    assert_eq!("Warning", LogSeverity::Warning.get_name());
    assert_eq!("Error", LogSeverity::Error.get_name());
}

#[test]
fn loginfo_new_keeps_fields() {
    let info = LogInfo::new(LogSeverity::Warning, LogColor::Grey);
    assert_eq!(LogSeverity::Warning, info.severity);
    assert_eq!(LogColor::Grey, info.color);
}

#[test]
fn logger_levels_have_fixed_colors() {
    let debug = Logger::debug("d", "a.rs", 1);
    assert_eq!(LogInfo::new(LogSeverity::Debug, LogColor::Green), debug.info);
    let info = Logger::info("i", "b.rs", 2);
    assert_eq!(LogInfo::new(LogSeverity::Info, LogColor::Cyan), info.info);
    let warn = Logger::warn("w", "c.rs", 3);
    assert_eq!(LogInfo::new(LogSeverity::Warning, LogColor::Yellow), warn.info);
    let error = Logger::error("e", "d.rs", 4);
    assert_eq!(LogInfo::new(LogSeverity::Error, LogColor::Red), error.info);
    assert_eq!("e", error.message);
    assert_eq!("d.rs", error.file);
    assert_eq!(4, error.line_number);
}

#[test]
fn empty_message_is_not_shown() {
    assert!(!Logger::info("", "f.rs", 1).shows_message());
    assert!(Logger::info("x", "f.rs", 1).shows_message());
}
