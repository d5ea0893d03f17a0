//! File times and system times.
use ferrisetw::native::times::{
    days_from_civil, saturating_date_time, FileTime, SystemTime, SECONDS_BETWEEN_1601_AND_1970,
};

fn system_time(date: (u16, u16, u16), time: (u16, u16, u16, u16)) -> SystemTime {
    SystemTime {
        w_year: date.0,
        w_month: date.1,
        w_day_of_week: 0, // redundant, ignored by the conversion
        w_day: date.2,
        w_hour: time.0,
        w_minute: time.1,
        w_second: time.2,
        w_milliseconds: time.3,
    }
}

#[test]
fn file_time_from_slice_copies_both_dwords() {
    let bytes = [0x08, 0x07, 0x06, 0x05, 0x04, 0x03, 0x02, 0x01];
    let file_time = FileTime::from_slice(bytes);
    assert_eq!(file_time.dw_low_date_time, 0x0506_0708);
    assert_eq!(file_time.dw_high_date_time, 0x0102_0304);
}

#[test]
fn system_time_from_slice_copies_all_fields() {
    let bytes: [u8; 16] = [
        0xea, 0x07, // year 2026
        0x01, 0x00, // month 1
        0x05, 0x00, // day of week 5
        0x02, 0x00, // day 2
        0x03, 0x00, // hour 3
        0x04, 0x00, // minute 4
        0x05, 0x00, // second 5
        0x06, 0x00, // milliseconds 6
    ];
    let system_time = SystemTime::from_slice(bytes);
    assert_eq!(system_time.w_year, 2026);
    assert_eq!(system_time.w_month, 1);
    assert_eq!(system_time.w_day_of_week, 5);
    assert_eq!(system_time.w_day, 2);
    assert_eq!(system_time.w_hour, 3);
    assert_eq!(system_time.w_minute, 4);
    assert_eq!(system_time.w_second, 5);
    assert_eq!(system_time.w_milliseconds, 6);
}

#[test]
fn system_time_unix_timestamp_matches_known_dates() {
    let to_unix_ms = |date, time| system_time(date, time).as_unix_timestamp();

    assert_eq!(to_unix_ms((1970, 1, 1), (0, 0, 0, 0)), 0);
    // Leap day
    assert_eq!(to_unix_ms((2024, 2, 29), (12, 0, 0, 0)), 1_709_208_000_000);
    // Start of the FILETIME epoch
    assert_eq!(to_unix_ms((1601, 1, 1), (0, 0, 0, 0)), -11_644_473_600_000);
    // Non-leap century year
    assert_eq!(to_unix_ms((1900, 3, 1), (0, 0, 0, 0)), -2_203_891_200_000);
}

#[test]
fn system_time_unix_timestamp_nanos_matches_known_dates() {
    let st = system_time((1970, 1, 1), (0, 0, 1, 1));
    assert_eq!(st.as_unix_timestamp_nanos(), 1_001_000_000);

    let st = system_time((1601, 1, 1), (0, 0, 0, 0));
    assert_eq!(st.as_unix_timestamp_nanos(), -11_644_473_600_000_000_000);
}

#[test]
fn system_time_unix_timestamp_keeps_seconds() {
    let bytes: [u8; 16] = [
        0xea, 0x07, 0x01, 0x00, 0x05, 0x00, 0x02, 0x00, //
        0x03, 0x00, 0x04, 0x00, 0x05, 0x00, 0x06, 0x00,
    ];
    let system_time = SystemTime::from_slice(bytes);
    assert_eq!(system_time.as_unix_timestamp(), 1_767_323_045_006);
}

#[test]
fn valid_timestamps_convert_exactly() {
    let st = system_time((1970, 1, 1), (0, 0, 1, 1));
    assert_eq!(st.as_date_time().unix_timestamp_nanos(), 1_001_000_000);

    // One 100ns tick past 1970-01-01T00:00:01
    let file_time = FileTime::from_quad(10_000_001 + SECONDS_BETWEEN_1601_AND_1970 * 10_000_000);
    assert_eq!(file_time.as_date_time().unix_timestamp_nanos(), 1_000_000_100);
}

#[test]
fn absurd_file_times_saturate_instead_of_panicking() {
    let far_future = FileTime::from_quad(i64::MAX);
    assert_eq!(far_future.as_date_time().year(), 30_828);

    let far_past = FileTime::from_quad(i64::MIN);
    assert_eq!(far_past.as_date_time().year(), -27_627);
}

#[test]
fn absurd_system_times_saturate_instead_of_panicking() {
    let st = system_time((u16::MAX, 12, 31), (0, 0, 0, 0));
    assert_eq!(st.as_date_time().year(), 30_828);
}

#[test]
fn file_times_round_trip_through_their_number_of_ticks() {
    for quad in [0, 1, -1, 0x0102_0304_0506_0708, i64::MAX, i64::MIN] {
        assert_eq!(FileTime::from_quad(quad).as_quad(), quad);
    }
    let ticks = FileTime::from_quad(SECONDS_BETWEEN_1601_AND_1970 * 10_000_000 + 12_345);
    assert_eq!(ticks.as_unix_timestamp(), 1);
    assert_eq!(ticks.as_unix_timestamp_nanos(), 1_234_500);
}

#[test]
fn moments_out_of_range_are_clamped() {
    assert_eq!(saturating_date_time(i128::MAX).year(), 999_999);
    assert_eq!(saturating_date_time(i128::MIN).year(), -999_999);
    assert_eq!(saturating_date_time(0).unix_timestamp_nanos(), 0);
}

#[test]
fn dates_far_away_are_counted() {
    assert_eq!(days_from_civil(1970, 1, 1), 0);
    assert_eq!(days_from_civil(2000, 3, 1), 11_017);
    assert_eq!(days_from_civil(1969, 12, 31), -1);
    // 400 years are 146097 days
    assert_eq!(days_from_civil(1970 + 4_000_000_000_000, 1, 1), 1_460_970_000_000_000);
    assert_eq!(days_from_civil(1970, 1, i64::MAX), i64::MAX - 1);
    // Month 0 is the December before, months below -9 stay before March
    assert_eq!(days_from_civil(1970, 0, 1), -31);
    assert_eq!(days_from_civil(1970, -10, 1), days_from_civil(1969, 3, 1) - 30);
}
