//! Windows time structures.
use vstd::prelude::*;

use crate::bytes;

verus! {

pub const SECONDS_BETWEEN_1601_AND_1970: i64 = 11_644_473_600;

pub const NS_IN_SECOND: i64 = 1_000_000_000;

pub const MS_IN_SECOND: i64 = 1_000;

/// First instant a date-time value can represent, in nanoseconds since 1970:
/// midnight of the first day of year -999999.
pub const MIN_NANOS: i128 = -31_619_087_596_800_000_000_000;

/// Last instant a date-time value is made from, in nanoseconds since 1970: the
/// end of the first second of the last day of year 999999.
pub const MAX_NANOS: i128 = 31_494_784_694_400_999_999_999;

/// `a / b` rounded towards zero, for a positive `b`.
pub open spec fn truncated_quotient(a: int, b: int) -> int {
    if a >= 0 {
        a / b
    } else {
        -((-a) / b)
    }
}

/// Whether `y` is a leap year of the Gregorian calendar.
pub open spec fn is_leap(y: int) -> bool {
    y % 4 == 0 && (y % 100 != 0 || y % 400 == 0)
}

/// Days of a year that come before its month `m`.
pub open spec fn days_before_month(y: int, m: int) -> int {
    let leap_day: int = if is_leap(y) {
        1
    } else {
        0
    };
    if m == 1 {
        0
    } else if m == 2 {
        31
    } else if m == 3 {
        59 + leap_day
    } else if m == 4 {
        90 + leap_day
    } else if m == 5 {
        120 + leap_day
    } else if m == 6 {
        151 + leap_day
    } else if m == 7 {
        181 + leap_day
    } else if m == 8 {
        212 + leap_day
    } else if m == 9 {
        243 + leap_day
    } else if m == 10 {
        273 + leap_day
    } else if m == 11 {
        304 + leap_day
    } else {
        334 + leap_day
    }
}

/// Days from 0001-01-01 to the first day of year `y`.
pub open spec fn days_before_year(y: int) -> int {
    365 * (y - 1) + (y - 1) / 4 - (y - 1) / 100 + (y - 1) / 400
}

/// Days from 1970-01-01 to the given date of the proleptic Gregorian calendar.
pub open spec fn civil_days(y: int, m: int, d: int) -> int {
    days_before_year(y) + days_before_month(y, m) + (d - 1) - days_before_year(1970)
}

/// The month a possibly malformed month number is read as.
pub open spec fn month_of(m: int) -> int {
    (m + 11) % 12 + 1
}

/// The year a date with a possibly malformed month number is read in.
pub open spec fn year_of(y: int, m: int) -> int {
    let y0 = if m <= 2 {
        y - 1
    } else {
        y
    };
    if month_of(m) <= 2 {
        y0 + 1
    } else {
        y0
    }
}

/// A proper month is read as itself, in the given year.
pub proof fn proper_months_are_kept(y: int, m: int)
    requires
        1 <= m <= 12,
    ensures
        month_of(m) == m,
        year_of(y, m) == y,
{
}

/// A quotient steps up at each multiple of the divisor.
proof fn quotient_step(y: int, k: int)
    by (nonlinear_arith)
    requires
        k > 0,
    ensures
        y / k - (y - 1) / k == if y % k == 0 {
            1int
        } else {
            0
        },
{
    let q = y / k;
    let r = y % k;
    assert(y == k * q + r && 0 <= r < k);
    let p = (y - 1) / k;
    let t = (y - 1) % k;
    assert(y - 1 == k * p + t && 0 <= t < k);
    if r == 0 {
        assert(k * (q - p) == t + 1);
        assert(q - p == 1);
    } else {
        assert(k * (q - p) == t + 1 - r);
        assert(q - p == 0);
    }
}

/// A multiple of 400 is a multiple of 100, and a multiple of 100 one of 4.
proof fn leap_divisors(y: int)
    ensures
        y % 400 == 0 ==> y % 100 == 0,
        y % 100 == 0 ==> y % 4 == 0,
{
    let q = y / 400;
    let c = y / 100;
    assert(y % 400 == 0 ==> y == 100 * (4 * q));
    assert(y % 100 == 0 ==> y == 4 * (25 * c));
}

/// Days from 0001-01-01 to the first of March of year `y`.
proof fn first_of_march(y: int)
    ensures
        days_before_year(y) + days_before_month(y, 3) == 365 * y + y / 4 - y / 100 + y / 400 - 306,
{
    quotient_step(y, 4);
    quotient_step(y, 100);
    quotient_step(y, 400);
    leap_divisors(y);
}

/// The March-based month number of a possibly malformed month.
proof fn month_shift(m: int)
    ensures
        1 <= month_of(m) <= 12,
        (m + 9) % 12 == if month_of(m) <= 2 {
            month_of(m) + 9
        } else {
            month_of(m) - 3
        },
{
    let k = m / 12;
    let r = m % 12;
    assert(m == 12 * k + r);
    assert((m + 11) % 12 == (r + 11) % 12);
    assert((m + 9) % 12 == (r + 9) % 12);
}

/// The day count of a date from the first of March on or before it.
proof fn march_based(y: int, m: int, d: int)
    requires
        1 <= m <= 12,
    ensures
        civil_days(y, m, d) == ({
            let (my, mp) = if m <= 2 {
                (y - 1, m + 9)
            } else {
                (y, m - 3)
            };
            365 * my + my / 4 - my / 100 + my / 400 + (153 * mp + 2) / 5 + (d - 1) - 719_468
        }),
{
    if m > 2 {
        first_of_march(y);
        assert(days_before_month(y, m) - days_before_month(y, 3) == (153 * (m - 3) + 2) / 5);
    }
    assert(days_before_year(1970) == 719_162);
}

/// A March-based year, split into 400-year eras.
proof fn era_split(y: int, era: int, yoe: int)
    requires
        y == era * 400 + yoe,
        0 <= yoe < 400,
    ensures
        365 * y + y / 4 - y / 100 + y / 400 == era * 146_097 + yoe * 365 + yoe / 4 - yoe / 100,
{
    assert(y / 4 == 100 * era + yoe / 4);
    assert(y / 100 == 4 * era + yoe / 100);
    assert(y / 400 == era);
}

/// How far before the first of March the count of a date whose month number is
/// below -9 starts.
pub open spec fn days_below_march(m: int) -> int {
    let k = (-(m + 9)) % 12;
    if k == 0 {
        0
    } else {
        (153 * k - 2) / 5
    }
}

/// Days from 1970-01-01 to a date with a possibly malformed month number.
pub open spec fn days_read(y: int, m: int, d: int) -> int {
    if m >= -9 {
        civil_days(year_of(y, m), month_of(m), d)
    } else {
        civil_days(y - 1, 3, d - days_below_march(m))
    }
}

/// Where in a year that starts in March a month starts.
spec fn month_start(m: int) -> int {
    if m >= -9 {
        (153 * ((m + 9) % 12) + 2) / 5
    } else {
        -days_below_march(m)
    }
}

/// Days from 1970-01-01 to the day that comes `day` days after the first of March
/// of year `y`.
spec fn days_in_march_year(y: int, day: int) -> int {
    365 * y + y / 4 - y / 100 + y / 400 + day - 719_468
}

/// A date is counted in the year that starts in March.
proof fn days_read_from_march(y: int, m: int, d: int)
    ensures
        days_read(y, m, d) == days_in_march_year(
            if m <= 2 {
                y - 1
            } else {
                y
            },
            month_start(m) + d - 1,
        ),
        1 <= m <= 12 ==> days_read(y, m, d) == civil_days(y, m, d),
{
    if m >= -9 {
        march_based(year_of(y, m), month_of(m), d);
        month_shift(m);
    } else {
        march_based(y - 1, 3, d - days_below_march(m));
    }
}

fn start_of_month(m: i64) -> (r: i128)
    ensures
        r == month_start(m as int),
        -340 <= r <= 340,
{
    if m >= -9 {
        (153 * ((m as i128 + 9) % 12) + 2) / 5
    } else {
        let k: i128 = (-(m as i128 + 9)) % 12;
        if k == 0 {
            0
        } else {
            -((153 * k - 2) / 5)
        }
    }
}

fn days_of_march_year(y: i128, day: i128) -> (r: i128)
    requires
        i64::MIN - 1 <= y <= i64::MAX,
        i64::MIN - 1_000 <= day <= i64::MAX + 1_000,
    ensures
        r == days_in_march_year(y as int, day as int),
{
    let era: i128 = (if y >= 0 {
        y
    } else {
        y - 399
    }) / 400;
    let yoe: i128 = y - era * 400;
    proof {
        era_split(y as int, era as int, yoe as int);
    }
    let doe: i128 = yoe * 365 + yoe / 4 - yoe / 100 + day;
    era * 146_097 + doe - 719_468
}

/// Days between 1970-01-01 and the given date of the proleptic Gregorian
/// calendar.
pub fn days_from_civil(y: i64, m: i64, d: i64) -> (r: i64)
    requires
        i64::MIN <= days_read(y as int, m as int, d as int) <= i64::MAX,
    ensures
        r == days_read(y as int, m as int, d as int),
        1 <= m <= 12 ==> r == civil_days(y as int, m as int, d as int),
{
    proof {
        days_read_from_march(y as int, m as int, d as int);
    }
    let march_year: i128 = if m <= 2 {
        y as i128 - 1
    } else {
        y as i128
    };
    days_of_march_year(march_year, start_of_month(m) + d as i128 - 1) as i64
}

/// A `FILETIME`: 100-nanosecond intervals since 1601-01-01, as two halves.
#[derive(Debug, Clone, Copy, PartialEq, Eq, Structural)]
pub struct FileTime {
    pub dw_low_date_time: u32,
    pub dw_high_date_time: u32,
}

impl Default for FileTime {
    fn default() -> (r: FileTime)
        ensures
            r.quad() == 0,
    {
        FileTime { dw_low_date_time: 0, dw_high_date_time: 0 }
    }
}

/// What a quad of 100-nanosecond intervals since 1601 is in milliseconds since
/// 1970.
pub open spec fn quad_to_unix_ms(quad: int) -> int {
    truncated_quotient(quad, 10_000) - SECONDS_BETWEEN_1601_AND_1970 * MS_IN_SECOND
}

/// What a quad of 100-nanosecond intervals since 1601 is in nanoseconds since
/// 1970.
pub open spec fn quad_to_unix_nanos(quad: int) -> int {
    quad * 100 - SECONDS_BETWEEN_1601_AND_1970 * NS_IN_SECOND
}

impl FileTime {
    /// The two halves read as one signed 64-bit number.
    pub open spec fn quad(self) -> int {
        let high: int = if self.dw_high_date_time >= 0x8000_0000 {
            self.dw_high_date_time - 0x1_0000_0000
        } else {
            self.dw_high_date_time as int
        };
        high * 0x1_0000_0000 + self.dw_low_date_time
    }

    /// The two halves read as one signed 64-bit number.
    pub fn as_quad(self) -> (r: i64)
        ensures
            r == self.quad(),
    {
        let high: i64 = if self.dw_high_date_time >= 0x8000_0000 {
            self.dw_high_date_time as i64 - 0x1_0000_0000
        } else {
            self.dw_high_date_time as i64
        };
        high * 0x1_0000_0000 + self.dw_low_date_time as i64
    }

    /// The two halves of a signed 64-bit number.
    pub open spec fn of_quad(quad: i64) -> FileTime {
        FileTime {
            dw_low_date_time: (quad as int % 0x1_0000_0000) as u32,
            dw_high_date_time: ((quad as int / 0x1_0000_0000) % 0x1_0000_0000) as u32,
        }
    }

    /// Splits a signed 64-bit number into its two halves.
    pub fn from_quad(quad: i64) -> (r: FileTime)
        ensures
            r.quad() == quad,
            r == FileTime::of_quad(quad),
    {
        let bits: u64 = if quad >= 0 {
            quad as u64
        } else {
            (quad as i128 + 0x1_0000_0000_0000_0000) as u64
        };
        FileTime {
            dw_low_date_time: (bits % 0x1_0000_0000) as u32,
            dw_high_date_time: (bits / 0x1_0000_0000) as u32,
        }
    }

    /// Reads a packed `FILETIME`.
    pub fn from_slice(slice: [u8; 8]) -> (r: FileTime)
        ensures
            r.dw_low_date_time == bytes::u32_at(slice@, 0),
            r.dw_high_date_time == bytes::u32_at(slice@, 4),
    {
        FileTime {
            dw_low_date_time: bytes::read_u32(slice.as_slice(), 0),
            dw_high_date_time: bytes::read_u32(slice.as_slice(), 4),
        }
    }

    /// Converts to a unix timestamp with millisecond granularity.
    pub fn as_unix_timestamp(&self) -> (r: i64)
        ensures
            r == quad_to_unix_ms(self.quad()),
    {
        self.as_quad() / 10_000 - 11_644_473_600_000
    }

    /// Converts to a unix timestamp with nanosecond granularity.
    pub fn as_unix_timestamp_nanos(&self) -> (r: i128)
        ensures
            r == quad_to_unix_nanos(self.quad()),
    {
        self.as_quad() as i128 * 100 - 11_644_473_600_000_000_000
    }

    /// Converts to a date and time.
    pub fn as_date_time(&self) -> (r: time::OffsetDateTime)
        ensures
            r == date_time_at(quad_to_unix_nanos(self.quad())),
    {
        saturating_date_time(self.as_unix_timestamp_nanos())
    }
}

/// Two halves are determined by the number they form, so splitting what was
/// joined gives the halves back.
pub proof fn quad_round_trip(a: FileTime, b: FileTime)
    ensures
        a.quad() == b.quad() ==> a == b,
        i64::MIN <= a.quad() <= i64::MAX,
{
}

/// A date and time of the `time` crate.
#[verifier::external_type_specification]
#[verifier::external_body]
pub struct ExOffsetDateTime(time::OffsetDateTime);

/// The date and time that lies `nanos` nanoseconds after 1970-01-01 UTC.
pub uninterp spec fn date_time_at(nanos: int) -> time::OffsetDateTime;

/// `time::OffsetDateTime::from_unix_timestamp_nanos`, on the instants it can
/// represent: the result is a function of the number of nanoseconds alone.
#[verifier::external_body]
fn date_time_from_nanos(nanos: i128) -> (r: time::OffsetDateTime)
    requires
        MIN_NANOS <= nanos <= MAX_NANOS,
    ensures
        r == date_time_at(nanos as int),
{
    time::OffsetDateTime::from_unix_timestamp_nanos(nanos).expect(
        "clamped timestamp is representable",
    )
}

/// `nanos` moved to the nearest instant a date-time value is made from.
pub open spec fn clamp_nanos(nanos: int) -> int {
    if nanos < MIN_NANOS {
        MIN_NANOS as int
    } else if nanos > MAX_NANOS {
        MAX_NANOS as int
    } else {
        nanos
    }
}

/// Converts a unix timestamp in nanoseconds to a date and time, saturating to
/// the nearest representable instant.
pub fn saturating_date_time(nanos: i128) -> (r: time::OffsetDateTime)
    ensures
        r == date_time_at(clamp_nanos(nanos as int)),
{
    if nanos < MIN_NANOS {
        date_time_from_nanos(MIN_NANOS)
    } else if nanos > MAX_NANOS {
        date_time_from_nanos(MAX_NANOS)
    } else {
        date_time_from_nanos(nanos)
    }
}

/// A `SYSTEMTIME`
#[derive(Debug, Clone, Copy, PartialEq, Eq, Structural)]
pub struct SystemTime {
    pub w_year: u16,
    pub w_month: u16,
    pub w_day_of_week: u16,
    pub w_day: u16,
    pub w_hour: u16,
    pub w_minute: u16,
    pub w_second: u16,
    pub w_milliseconds: u16,
}

impl Default for SystemTime {
    fn default() -> (r: SystemTime)
        ensures
            r == (SystemTime {
                w_year: 0,
                w_month: 0,
                w_day_of_week: 0,
                w_day: 0,
                w_hour: 0,
                w_minute: 0,
                w_second: 0,
                w_milliseconds: 0,
            }),
    {
        SystemTime {
            w_year: 0,
            w_month: 0,
            w_day_of_week: 0,
            w_day: 0,
            w_hour: 0,
            w_minute: 0,
            w_second: 0,
            w_milliseconds: 0,
        }
    }
}

/// `n` moved into the range of an `i64`.
pub open spec fn saturate(n: int) -> int {
    if n > i64::MAX {
        i64::MAX as int
    } else if n < i64::MIN {
        i64::MIN as int
    } else {
        n
    }
}

impl SystemTime {
    /// Whole seconds since 1601-01-01.
    pub open spec fn seconds_since_1601(self) -> int {
        (civil_days(
            year_of(self.w_year as int, self.w_month as int),
            month_of(self.w_month as int),
            self.w_day as int,
        ) + SECONDS_BETWEEN_1601_AND_1970 / 86_400) * 86_400 + self.w_hour * 3_600 + self.w_minute
            * 60 + self.w_second
    }

    /// 100-nanosecond intervals since 1601-01-01, saturating.
    pub open spec fn quad(self) -> int {
        saturate(saturate(self.seconds_since_1601() * 10_000_000) + self.w_milliseconds * 10_000)
    }

    /// Converts to 100-nanosecond intervals since 1601-01-01.
    ///
    /// A malformed value (a year in the tens of thousands) saturates.
    pub fn as_filetime_quad(&self) -> (r: i64)
        ensures
            r == self.quad(),
    {
        let days: i64 = days_from_civil(
            self.w_year as i64,
            self.w_month as i64,
            self.w_day as i64,
        );
        let secs_since_1601: i64 = (days + SECONDS_BETWEEN_1601_AND_1970 / 86_400) * 86_400
            + self.w_hour as i64 * 3_600 + self.w_minute as i64 * 60 + self.w_second as i64;
        let scaled: i64 = saturate_i64(secs_since_1601 as i128 * 10_000_000);
        saturate_i64(scaled as i128 + self.w_milliseconds as i128 * 10_000)
    }

    /// Reads a packed `SYSTEMTIME`.
    pub fn from_slice(slice: [u8; 16]) -> (r: SystemTime)
        ensures
            r == system_time_at(slice@),
    {
        let s = slice.as_slice();
        SystemTime {
            w_year: bytes::read_u16(s, 0),
            w_month: bytes::read_u16(s, 2),
            w_day_of_week: bytes::read_u16(s, 4),
            w_day: bytes::read_u16(s, 6),
            w_hour: bytes::read_u16(s, 8),
            w_minute: bytes::read_u16(s, 10),
            w_second: bytes::read_u16(s, 12),
            w_milliseconds: bytes::read_u16(s, 14),
        }
    }

    /// Converts to a unix timestamp with millisecond granularity.
    pub fn as_unix_timestamp(&self) -> (r: i64)
        ensures
            r == quad_to_unix_ms(self.quad()),
    {
        self.as_filetime_quad() / 10_000 - 11_644_473_600_000
    }

    /// Converts to a unix timestamp with nanosecond granularity.
    pub fn as_unix_timestamp_nanos(&self) -> (r: i128)
        ensures
            r == quad_to_unix_nanos(self.quad()),
    {
        self.as_filetime_quad() as i128 * 100 - 11_644_473_600_000_000_000
    }

    /// Converts to a date and time.
    pub fn as_date_time(&self) -> (r: time::OffsetDateTime)
        ensures
            r == date_time_at(quad_to_unix_nanos(self.quad())),
    {
        saturating_date_time(self.as_unix_timestamp_nanos())
    }
}

/// The packed `SYSTEMTIME` in `s`.
pub open spec fn system_time_at(s: Seq<u8>) -> SystemTime {
    SystemTime {
        w_year: bytes::u16_at(s, 0),
        w_month: bytes::u16_at(s, 2),
        w_day_of_week: bytes::u16_at(s, 4),
        w_day: bytes::u16_at(s, 6),
        w_hour: bytes::u16_at(s, 8),
        w_minute: bytes::u16_at(s, 10),
        w_second: bytes::u16_at(s, 12),
        w_milliseconds: bytes::u16_at(s, 14),
    }
}

/// Moves `n` into the range of an `i64`.
fn saturate_i64(n: i128) -> (r: i64)
    ensures
        r == saturate(n as int),
{
    if n > i64::MAX as i128 {
        i64::MAX
    } else if n < i64::MIN as i128 {
        i64::MIN
    } else {
        n as i64
    }
}

/// The halves of a file time are the high and the low half of its number in two's
/// complement.
pub proof fn halves_form_the_number(t: FileTime, quad: i64)
    ensures
        t.quad() % 0x1_0000_0000_0000_0000 == 0x1_0000_0000 * t.dw_high_date_time
            + t.dw_low_date_time,
        t.quad() < 0 <==> t.dw_high_date_time >= 0x8000_0000,
        FileTime::of_quad(quad).quad() == quad,
{
}

/// File times count from 1601, unix time from 1970: the start of 1970 is zero, and
/// from there on ten million intervals are one second. Milliseconds are rounded
/// towards 1601.
pub proof fn unix_times_count_from_1970(quad: int, seconds: int)
    ensures
        quad_to_unix_nanos(116_444_736_000_000_000 + 10_000_000 * seconds) == 1_000_000_000
            * seconds,
        -11_644_473_600 <= seconds ==> quad_to_unix_ms(
            116_444_736_000_000_000 + 10_000_000 * seconds,
        ) == 1_000 * seconds,
        quad_to_unix_nanos(quad + 1) == quad_to_unix_nanos(quad) + 100,
        0 <= quad ==> 0 <= quad_to_unix_nanos(quad) - 1_000_000 * quad_to_unix_ms(quad) < 1_000_000,
        quad < 0 ==> 0 <= 1_000_000 * quad_to_unix_ms(quad) - quad_to_unix_nanos(quad) < 1_000_000,
{
}

/// Instants that can be represented are kept, all others move to the closest one.
pub proof fn instants_are_kept(nanos: int)
    ensures
        MIN_NANOS <= clamp_nanos(nanos) <= MAX_NANOS,
        MIN_NANOS <= nanos <= MAX_NANOS ==> clamp_nanos(nanos) == nanos,
        nanos < MIN_NANOS ==> clamp_nanos(nanos) == MIN_NANOS,
        nanos > MAX_NANOS ==> clamp_nanos(nanos) == MAX_NANOS,
        quad_to_unix_nanos(i64::MIN as int) >= MIN_NANOS,
        quad_to_unix_nanos(i64::MAX as int) <= MAX_NANOS,
{
}

/// Days are counted as the Gregorian calendar has them: 1970 starts with day zero,
/// days follow one another, and months and years have their lengths.
pub proof fn days_are_those_of_the_calendar(y: int, m: int, d: int)
    ensures
        civil_days(1970, 1, 1) == 0,
        civil_days(y, m, d + 1) == civil_days(y, m, d) + 1,
        m == 1 || m == 3 || m == 5 || m == 7 || m == 8 || m == 10 ==> civil_days(y, m + 1, d)
            == civil_days(y, m, d) + 31,
        m == 4 || m == 6 || m == 9 || m == 11 ==> civil_days(y, m + 1, d) == civil_days(y, m, d)
            + 30,
        m == 2 ==> civil_days(y, m + 1, d) == civil_days(y, m, d) + 28 + (if y % 4 == 0 && (y % 100
            != 0 || y % 400 == 0) {
            1int
        } else {
            0
        }),
        m == 12 ==> civil_days(y + 1, 1, d) == civil_days(y, m, d) + 31,
{
    quotient_step(y, 4);
    quotient_step(y, 100);
    quotient_step(y, 400);
    leap_divisors(y);
}

/// The time of a proper date, in intervals since the start of 1601: hours, minutes,
/// seconds and milliseconds add up behind the days. Years too far away for that are
/// at the end of time.
pub proof fn times_of_proper_dates(t: SystemTime)
    requires
        1 <= t.w_month <= 12,
    ensures
        t.seconds_since_1601() == 86_400 * (civil_days(
            t.w_year as int,
            t.w_month as int,
            t.w_day as int,
        ) - civil_days(1601, 1, 1)) + 3_600 * t.w_hour + 60 * t.w_minute + t.w_second,
        t.w_year <= 30_000 ==> t.quad() == 10_000_000 * t.seconds_since_1601() + 10_000
            * t.w_milliseconds,
        t.w_year >= 31_000 ==> t.quad() == i64::MAX,
{
    proper_months_are_kept(t.w_year as int, t.w_month as int);
    assert(days_before_year(1601) - days_before_year(1970) == -134_774);
    let y = t.w_year as int;
    assert(0 <= days_before_month(y, t.w_month as int) <= 366);
}

/// The month a malformed one is read as comes as many months later as there are in
/// whole years.
pub proof fn malformed_months_wrap_around(y: int, m: int)
    ensures
        1 <= month_of(m) <= 12,
        (month_of(m) - m) % 12 == 0,
        m == 0 ==> month_of(m) == 12 && year_of(y, m) == y - 1,
        m == 13 || m == 14 ==> month_of(m) == m - 12 && year_of(y, m) == y + 1,
        15 <= m <= 24 ==> month_of(m) == m - 12 && year_of(y, m) == y,
        1 <= m <= 12 ==> days_read(y, m, 1) == civil_days(y, m, 1),
{
    month_shift(m);
}

/// Numbers in the range of an `i64` are kept, all others move to its closer end.
pub proof fn saturation_keeps_what_fits(n: int)
    ensures
        i64::MIN <= n <= i64::MAX ==> saturate(n) == n,
        n > i64::MAX ==> saturate(n) == 0x7fff_ffff_ffff_ffff,
        n < i64::MIN ==> saturate(n) == -0x8000_0000_0000_0000,
{
}

/// The fields of a packed system time are little-endian numbers of two bytes.
pub proof fn fields_of_a_system_time(s: Seq<u8>)
    requires
        s.len() >= 16,
    ensures
        system_time_at(s).w_year == bytes::little_endian(s.subrange(0, 2)),
        system_time_at(s).w_month == bytes::little_endian(s.subrange(2, 4)),
        system_time_at(s).w_day_of_week == bytes::little_endian(s.subrange(4, 6)),
        system_time_at(s).w_day == bytes::little_endian(s.subrange(6, 8)),
        system_time_at(s).w_hour == bytes::little_endian(s.subrange(8, 10)),
        system_time_at(s).w_minute == bytes::little_endian(s.subrange(10, 12)),
        system_time_at(s).w_second == bytes::little_endian(s.subrange(12, 14)),
        system_time_at(s).w_milliseconds == bytes::little_endian(s.subrange(14, 16)),
{
    bytes::stored_numbers_are_little_endian(s, 0);
    bytes::stored_numbers_are_little_endian(s, 2);
    bytes::stored_numbers_are_little_endian(s, 4);
    bytes::stored_numbers_are_little_endian(s, 6);
    bytes::stored_numbers_are_little_endian(s, 8);
    bytes::stored_numbers_are_little_endian(s, 10);
    bytes::stored_numbers_are_little_endian(s, 12);
    bytes::stored_numbers_are_little_endian(s, 14);
}

} // verus!
