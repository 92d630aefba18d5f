use endless_ssh_rs::format_duration;
use endless_ssh_rs::format_elapsed;
use endless_ssh_rs::u64_to_string;
use endless_ssh_rs::Statistics;
use endless_ssh_rs::StatisticsMessage;

#[test]
fn statistics_start_at_zero() {
    let stats = Statistics::new();
    assert_eq!(stats.bytes_sent, 0);
    assert_eq!(stats.connects, 0);
    assert_eq!(stats.lost_clients, 0);
    assert_eq!(stats.processed_clients, 0);
    assert_eq!(stats.time_spent_ms, 0);
    assert_eq!(stats, Statistics::default());
}

#[test]
fn apply_updates_exactly_one_counter() {
    let mut stats = Statistics::new();

    assert!(!stats.apply(StatisticsMessage::NewClient));
    assert_eq!(stats.connects, 1);

    assert!(!stats.apply(StatisticsMessage::ProcessedClient));
    assert_eq!(stats.processed_clients, 1);

    assert!(!stats.apply(StatisticsMessage::BytesSent(17)));
    assert_eq!(stats.bytes_sent, 17);

    assert!(!stats.apply(StatisticsMessage::TimeSpent(250)));
    assert_eq!(stats.time_spent_ms, 250);

    assert!(!stats.apply(StatisticsMessage::LostClient));
    assert_eq!(stats.lost_clients, 1);

    let expected = Statistics {
        bytes_sent: 17,
        connects: 1,
        lost_clients: 1,
        processed_clients: 1,
        time_spent_ms: 250,
    };
    assert_eq!(stats, expected);
}

#[test]
fn log_totals_is_the_only_output_request() {
    let mut stats = Statistics::new();
    let before = stats;
    assert!(stats.apply(StatisticsMessage::LogTotals));
    assert_eq!(stats, before);
}

#[test]
fn additions_saturate_instead_of_wrapping() {
    let mut stats = Statistics::new();
    assert!(!stats.apply(StatisticsMessage::BytesSent(u64::MAX)));
    assert!(!stats.apply(StatisticsMessage::BytesSent(10)));
    assert_eq!(stats.bytes_sent, u64::MAX);
}

#[test]
fn totals_line_for_a_short_run() {
    let stats = Statistics {
        bytes_sent: 42,
        connects: 3,
        lost_clients: 0,
        processed_clients: 5,
        time_spent_ms: 1234,
    };
    assert_eq!(
        stats.log_totals(),
        "TOTALS connects=3 time_spent=0 week(s), 0 day(s), 0 hour(s), 0 minute(s), \
         1.234 second(s) bytes_sent=42"
    );
}

#[test]
fn totals_line_counts_whole_units() {
    // one week, one day, one hour, one minute and one and a half seconds
    let ms = 604800000 + 86400000 + 3600000 + 60000 + 1500;
    let stats = Statistics {
        bytes_sent: 1048576,
        connects: 120,
        lost_clients: 7,
        processed_clients: 500,
        time_spent_ms: ms,
    };
    assert_eq!(
        stats.log_totals(),
        "TOTALS connects=120 time_spent=1 week(s), 8 day(s), 193 hour(s), 11581 minute(s), \
         694861.500 second(s) bytes_sent=1048576"
    );
}

#[test]
fn format_duration_pads_milliseconds() {
    assert_eq!(format_duration(0), "0.000");
    assert_eq!(format_duration(999), "0.999");
    assert_eq!(format_duration(5005), "5.005");
    assert_eq!(format_duration(61001), "61.001");
}

#[test]
fn format_elapsed_spells_out_units() {
    assert_eq!(
        format_elapsed(0),
        "0 week(s), 0 day(s), 0 hour(s), 0 minute(s), 0.000 second(s)"
    );
    assert_eq!(
        format_elapsed(90061001),
        "0 week(s), 1 day(s), 25 hour(s), 1501 minute(s), 90061.001 second(s)"
    );
}

#[test]
fn decimal_rendering_matches() {
    assert_eq!(u64_to_string(0), "0");
    assert_eq!(u64_to_string(7), "7");
    assert_eq!(u64_to_string(10), "10");
    assert_eq!(u64_to_string(2223), "2223");
    assert_eq!(u64_to_string(u64::MAX), "18446744073709551615");
}
