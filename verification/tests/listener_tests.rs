use endless_ssh_rs::binds_ipv6;
use endless_ssh_rs::classify_accept_error;
use endless_ssh_rs::logmsg;
use endless_ssh_rs::AcceptError;
use endless_ssh_rs::BindFamily;
use endless_ssh_rs::LogLevel;
use endless_ssh_rs::Timeout;

#[test]
fn recoverable_accept_errors_are_transient() {
    for error in [
        AcceptError::ProcessFileLimit,
        AcceptError::SystemFileLimit,
        AcceptError::ConnectionAborted,
        AcceptError::Interrupted,
        AcceptError::NoBufferSpace,
        AcceptError::OutOfMemory,
        AcceptError::Protocol,
    ] {
        assert!(classify_accept_error(&error));
    }
    assert!(!classify_accept_error(&AcceptError::Other));
}

#[test]
fn only_ipv4_binds_an_ipv4_socket() {
    assert!(!binds_ipv6(&BindFamily::Ipv4));
    assert!(binds_ipv6(&BindFamily::Ipv6));
    assert!(binds_ipv6(&BindFamily::DualStack));
}

#[test]
fn c_timeouts_round_up_and_clamp() {
    assert_eq!(Timeout::Infinite.as_c_timeout(), -1);
    assert_eq!(Timeout::Duration(0).as_c_timeout(), 1);
    assert_eq!(Timeout::Duration(499).as_c_timeout(), 500);
    assert_eq!(Timeout::Duration(2147483646).as_c_timeout(), i32::MAX);
    assert_eq!(Timeout::Duration(u64::MAX).as_c_timeout(), i32::MAX);
}

#[test]
fn c_timespecs_split_seconds_and_nanoseconds() {
    assert_eq!(Timeout::Infinite.as_c_timespec(), None);
    assert_eq!(Timeout::Duration(1500).as_c_timespec(), Some((1, 500000000)));
    assert_eq!(Timeout::Duration(999).as_c_timespec(), Some((0, 999000000)));
}

#[test]
fn timeouts_from_waits() {
    assert_eq!(Timeout::from_wait(None), Timeout::Infinite);
    assert_eq!(Timeout::from_wait(Some(250)), Timeout::Duration(250));
}

#[test]
fn log_levels_filter_messages() {
    let message = || "hello".to_string();
    assert_eq!(
        logmsg(LogLevel::Debug, LogLevel::Info, message()),
        Some("hello".to_string())
    );
    assert_eq!(
        logmsg(LogLevel::Info, LogLevel::Info, message()),
        Some("hello".to_string())
    );
    assert_eq!(logmsg(LogLevel::Silent, LogLevel::Info, message()), None);
    assert_eq!(logmsg(LogLevel::Info, LogLevel::Debug, message()), None);
}

#[test]
fn log_level_codes_round_trip() {
    for level in [LogLevel::Silent, LogLevel::Info, LogLevel::Debug] {
        assert_eq!(LogLevel::from_code(level.code()), Ok(level));
    }
    assert_eq!(
        LogLevel::from_code(7),
        Err("Couldn't convert 7 into `LogLevel`".to_string())
    );
}
