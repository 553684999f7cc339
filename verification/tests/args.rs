use arkivisto::args::{Args, LogLevel, Mode};

#[test]
fn default_log_level_is_info() {
    assert_eq!(LogLevel::default(), LogLevel::Info);
}

#[test]
fn default_mode_is_single() {
    assert_eq!(Mode::default(), Mode::Single);
}

#[test]
fn empty_command_line() {
    let args = Args::default();
    assert_eq!(args.mode, Mode::Single);
    assert_eq!(args.log_level, LogLevel::Info);
    assert!(!args.fake_scan);
}

#[test]
fn log_levels_are_written_in_lower_case() {
    assert_eq!(LogLevel::Trace.to_string(), "trace");
    assert_eq!(LogLevel::Debug.to_string(), "debug");
    assert_eq!(LogLevel::Info.to_string(), "info");
    assert_eq!(LogLevel::Warn.to_string(), "warn");
    assert_eq!(LogLevel::Error.to_string(), "error");
}
