use chrono::{DateTime, Utc};
use brilliant_pdf::time::{Timestamp, MAX_SECONDS, MIN_SECONDS, NANOS_PER_DAY, NANOS_PER_SECOND};

const DAY: i64 = 86_400;

fn at(secs: i64, nanos: u32) -> Timestamp {
    Timestamp::new(secs, nanos).expect("an instant in range")
}

#[test]
fn range_is_the_range_of_chrono() {
    assert_eq!(MIN_SECONDS, DateTime::<Utc>::MIN_UTC.timestamp());
    assert_eq!(MAX_SECONDS, DateTime::<Utc>::MAX_UTC.timestamp());
    assert!(DateTime::from_timestamp(MIN_SECONDS, 0).is_some());
    assert!(DateTime::from_timestamp(MIN_SECONDS - 1, 0).is_none());
    assert!(DateTime::from_timestamp(MAX_SECONDS, NANOS_PER_SECOND - 1).is_some());
    assert!(DateTime::from_timestamp(MAX_SECONDS + 1, 0).is_none());
}

#[test]
fn constants_have_their_values() {
    assert_eq!(NANOS_PER_SECOND, 1_000_000_000);
    assert_eq!(NANOS_PER_DAY, 86_400_000_000_000);
    assert_eq!(MIN_SECONDS, -8_334_601_228_800);
    assert_eq!(MAX_SECONDS, 8_210_266_876_799);
}

#[test]
fn new_takes_what_is_in_range() {
    let t = at(1_431_648_000, 5);
    assert_eq!(t.seconds(), 1_431_648_000);
    assert_eq!(t.subsec_nanos(), 5);
    assert!(Timestamp::new(MIN_SECONDS, 0).is_some());
    assert!(Timestamp::new(MAX_SECONDS, 999_999_999).is_some());
}

#[test]
fn new_refuses_what_is_out_of_range() {
    assert_eq!(Timestamp::new(MIN_SECONDS - 1, 0), None);
    assert_eq!(Timestamp::new(MAX_SECONDS + 1, 0), None);
    assert_eq!(Timestamp::new(0, 1_000_000_000), None);
    assert_eq!(Timestamp::new(59, 1_500_000_000), None);
    assert_eq!(Timestamp::new(i64::MIN, 0), None);
    assert_eq!(Timestamp::new(i64::MAX, u32::MAX), None);
}

#[test]
fn total_nanos_counts_from_the_epoch() {
    assert_eq!(at(0, 0).total_nanos(), 0);
    assert_eq!(at(1, 1).total_nanos(), 1_000_000_001);
    assert_eq!(at(-1, 999_999_999).total_nanos(), -1);
    assert_eq!(at(MAX_SECONDS, 999_999_999).total_nanos(), 8_210_266_876_799_999_999_999);
    assert_eq!(at(MIN_SECONDS, 0).total_nanos(), -8_334_601_228_800_000_000_000);
}

#[test]
fn is_before_is_strict() {
    assert!(at(10, 0).is_before(&at(10, 1)));
    assert!(at(9, 999_999_999).is_before(&at(10, 0)));
    assert!(!at(10, 0).is_before(&at(10, 0)));
    assert!(!at(10, 1).is_before(&at(10, 0)));
    assert!(at(-5, 0).is_before(&at(0, 0)));
    assert!(at(MIN_SECONDS, 0).is_before(&at(MAX_SECONDS, 0)));
}

#[test]
fn whole_days_round_towards_zero() {
    let start = at(1_700_000_000, 0);
    assert_eq!(at(1_700_000_000 + 47 * 3600, 0).whole_days_since(&start), 1);
    assert_eq!(start.whole_days_since(&at(1_700_000_000 + 47 * 3600, 0)), -1);
    assert_eq!(at(1_700_000_000 + 23 * 3600, 0).whole_days_since(&start), 0);
    assert_eq!(start.whole_days_since(&at(1_700_000_000 + 23 * 3600, 0)), 0);
    assert_eq!(start.whole_days_since(&start), 0);
}

#[test]
fn whole_days_turn_at_the_nanosecond() {
    let start = at(1_700_000_000, 0);
    assert_eq!(at(1_700_000_000 + 7 * DAY, 0).whole_days_since(&start), 7);
    assert_eq!(at(1_700_000_000 + 7 * DAY - 1, 999_999_999).whole_days_since(&start), 6);
    assert_eq!(start.whole_days_since(&at(1_700_000_000 + 7 * DAY, 0)), -7);
    assert_eq!(start.whole_days_since(&at(1_700_000_000 + 7 * DAY - 1, 999_999_999)), -6);
}

#[test]
fn whole_days_over_the_whole_range() {
    let first = at(MIN_SECONDS, 0);
    let last = at(MAX_SECONDS, 999_999_999);
    assert_eq!(last.whole_days_since(&first), 191_491_528);
    assert_eq!(first.whole_days_since(&last), -191_491_528);
}

#[test]
fn whole_days_agree_with_chrono() {
    let pairs: [((i64, u32), (i64, u32)); 6] = [
        ((1_700_000_000, 0), (1_700_600_000, 1)),
        ((1_700_600_000, 1), (1_700_000_000, 0)),
        ((0, 999_999_999), (86_400, 0)),
        ((86_400, 0), (0, 999_999_999)),
        ((-86_401, 5), (86_400, 4)),
        ((MIN_SECONDS, 0), (MAX_SECONDS, 999_999_999)),
    ];
    for ((s1, n1), (s2, n2)) in pairs {
        let a = DateTime::from_timestamp(s1, n1).unwrap();
        let b = DateTime::from_timestamp(s2, n2).unwrap();
        assert_eq!(at(s1, n1).whole_days_since(&at(s2, n2)), (a - b).num_days());
        assert_eq!(at(s1, n1).is_before(&at(s2, n2)), a < b);
    }
}

#[test]
fn parse_reads_a_date_with_an_offset() {
    assert_eq!(Timestamp::parse("2015-05-15T00:00:00Z"), Some(at(1_431_648_000, 0)));
    assert_eq!(Timestamp::parse("2015-05-15T02:00:00+02:00"), Some(at(1_431_648_000, 0)));
    assert_eq!(Timestamp::parse("2015-05-15 00:00:00.25Z"), Some(at(1_431_648_000, 250_000_000)));
    assert_eq!(Timestamp::parse("1969-12-31T23:59:59.5Z"), Some(at(-1, 500_000_000)));
}

#[test]
fn parse_refuses_what_is_no_date() {
    assert_eq!(Timestamp::parse(""), None);
    assert_eq!(Timestamp::parse("tomorrow"), None);
    assert_eq!(Timestamp::parse("2015-05-15"), None);
    assert_eq!(Timestamp::parse("2015-05-15T00:00:00"), None);
    assert_eq!(Timestamp::parse("2015-13-15T00:00:00Z"), None);
    assert_eq!(Timestamp::parse("2015-05-15T00:00:00Z trailing"), None);
}

#[test]
fn parse_reads_a_leap_second_as_the_second_after() {
    let leap = "2016-12-31T23:59:60.25Z".parse::<DateTime<Utc>>().unwrap();
    assert_eq!(leap.timestamp(), 1_483_228_799);
    assert_eq!(leap.timestamp_subsec_nanos(), 1_250_000_000);
    assert_eq!(Timestamp::parse("2016-12-31T23:59:60.25Z"), Some(at(1_483_228_800, 250_000_000)));
    assert_eq!(Timestamp::parse("2016-12-31T23:59:60Z"), Timestamp::parse("2017-01-01T00:00:00Z"));
}

#[test]
fn reading_carries_a_second_of_nanoseconds() {
    assert_eq!(Timestamp::from_reading(59, 1_500_000_000), Some(at(60, 500_000_000)));
    assert_eq!(Timestamp::from_reading(59, 1_999_999_999), Some(at(60, 999_999_999)));
    assert_eq!(Timestamp::from_reading(-1, 1_000_000_000), Some(at(0, 0)));
    assert_eq!(Timestamp::from_reading(59, 999_999_999), Some(at(59, 999_999_999)));
    assert_eq!(Timestamp::from_reading(MIN_SECONDS, 1_000_000_000), Some(at(MIN_SECONDS + 1, 0)));
    assert_eq!(
        Timestamp::from_reading(MAX_SECONDS - 1, 1_000_000_001),
        Some(at(MAX_SECONDS, 1))
    );
}

#[test]
fn reading_refuses_what_is_out_of_range() {
    assert_eq!(Timestamp::from_reading(59, 2_000_000_000), None);
    assert_eq!(Timestamp::from_reading(59, u32::MAX), None);
    assert_eq!(Timestamp::from_reading(MAX_SECONDS, 1_000_000_000), None);
    assert_eq!(Timestamp::from_reading(MAX_SECONDS + 1, 0), None);
    assert_eq!(Timestamp::from_reading(MIN_SECONDS - 1, 1_000_000_000), None);
    assert_eq!(Timestamp::from_reading(i64::MAX, 1_000_000_000), None);
    assert_eq!(Timestamp::from_reading(i64::MIN, 0), None);
}

#[test]
fn parse_does_not_hand_its_argument_back() {
    let read = Timestamp::parse("2031-05-15T08:30:00Z").unwrap();
    assert_eq!(read.seconds(), 1_936_600_200);
    assert_eq!(read.subsec_nanos(), 0);
}

#[test]
fn display_writes_date_and_time_in_utc() {
    assert_eq!(at(1_431_648_000, 0).display_utc(), "2015-05-15 00:00:00 UTC");
    assert_eq!(at(1_431_648_000, 999_999_999).display_utc(), "2015-05-15 00:00:00 UTC");
    assert_eq!(at(0, 0).display_utc(), "1970-01-01 00:00:00 UTC");
    assert_eq!(at(-1, 0).display_utc(), "1969-12-31 23:59:59 UTC");
}

#[test]
fn display_reaches_both_ends_of_the_range() {
    assert_eq!(at(MIN_SECONDS, 0).display_utc(), "-262143-01-01 00:00:00 UTC");
    assert_eq!(at(MAX_SECONDS, 999_999_999).display_utc(), "+262142-12-31 23:59:59 UTC");
}

#[test]
fn now_reads_the_clock() {
    let before = Utc::now();
    let read = Timestamp::now().expect("a clock between 1970 and the last year");
    let after = Utc::now();
    assert!(before.timestamp() <= read.seconds());
    assert!(read.seconds() <= after.timestamp());
    assert!(read.subsec_nanos() < NANOS_PER_SECOND);
    assert!(!read.is_before(&at(before.timestamp(), before.timestamp_subsec_nanos())));
}

#[test]
fn stamps_for_rows_and_file_names() {
    let t = at(1_431_648_000 + 3_661, 987_654_321);
    assert_eq!(t.stamp(), "2015-05-15 01:01:01");
    assert_eq!(t.file_stamp(), "20150515_010101");
    assert_eq!(t.display_utc(), "2015-05-15 01:01:01 UTC");
    assert_eq!(at(-1, 0).file_stamp(), "19691231_235959");
}
