use delfiles::verbosity::{log_level, LogLevel};

#[test]
fn quiet_silences_everything() {
    assert_eq!(log_level(true, 0), LogLevel::Off);
    assert_eq!(log_level(true, 3), LogLevel::Off);
}

#[test]
fn debug_repetitions_lower_the_level() {
    assert_eq!(log_level(false, 0), LogLevel::Info);
    assert_eq!(log_level(false, 1), LogLevel::Debug);
    assert_eq!(log_level(false, 2), LogLevel::Trace);
    assert_eq!(log_level(false, 255), LogLevel::Trace);
}
