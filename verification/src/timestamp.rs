use vstd::prelude::*;
use vstd::string::StrSliceExecFns;
use vstd::string::StringExecFns;
use core::fmt::Write;
use chrono::Datelike;
use chrono::Timelike;

verus! {

/// A capture timestamp in the local calendar, at nanosecond precision.
/// Nanoseconds may reach into the second above 999,999,999 to carry a
/// leap second, as chrono's naive times do.
#[derive(Clone, Copy, PartialEq, Eq, Structural, Debug)]
pub struct Timestamp {
    pub year: i32,
    pub month: u32,
    pub day: u32,
    pub hour: u32,
    pub minute: u32,
    pub second: u32,
    pub nanosecond: u32,
}

pub open spec fn is_leap_year(y: int) -> bool {
    (y % 4 == 0 && y % 100 != 0) || y % 400 == 0
}

pub open spec fn days_in_month(y: int, m: int) -> int {
    if m == 2 {
        if is_leap_year(y) {
            29
        } else {
            28
        }
    } else if m == 4 || m == 6 || m == 9 || m == 11 {
        30
    } else {
        31
    }
}

impl Timestamp {
    /// A calendar-valid date and time.
    pub open spec fn valid(self) -> bool {
        &&& 1 <= self.month <= 12
        &&& 1 <= self.day <= days_in_month(self.year as int, self.month as int)
        &&& self.hour < 24
        &&& self.minute < 60
        &&& self.second < 60
        &&& self.nanosecond < 2_000_000_000
    }
}

/// A filesystem instant: seconds and subsecond nanoseconds since the epoch.
#[derive(Clone, Copy, PartialEq, Eq, Structural, Debug)]
pub struct FsTime {
    pub secs: u64,
    pub nanos: u32,
}

/// The largest epoch second the local conversion accepts. chrono's
/// calendar ends in year 262142, about 8,210,266,876,799 seconds after
/// the epoch; this bound stays several years below that ceiling, so that
/// no timezone offset can push a converted datetime out of range.
pub const MAX_EPOCH_SECS: u64 = 8_210_000_000_000;

/// An instant the local conversion is promised to handle: seconds within
/// the calendar bound, nanoseconds a genuine subsecond part.
pub open spec fn fs_time_in_range(t: FsTime) -> bool {
    t.secs <= MAX_EPOCH_SECS && t.nanos < 1_000_000_000
}

pub open spec fn fs_time_le(a: FsTime, b: FsTime) -> bool {
    a.secs < b.secs || (a.secs == b.secs && a.nanos <= b.nanos)
}

/// The earlier of two filesystem instants.
pub open spec fn fallback_instant(created: FsTime, modified: FsTime) -> FsTime {
    if fs_time_le(created, modified) {
        created
    } else {
        modified
    }
}

/// The earlier of the two instants; guards against copy operations and
/// clock skew that bump the modification time past the true capture time.
pub fn earlier_fs_time(created: FsTime, modified: FsTime) -> (r: FsTime)
    ensures
        r == fallback_instant(created, modified),
{
    if created.secs < modified.secs
        || (created.secs == modified.secs && created.nanos <= modified.nanos) {
        created
    } else {
        modified
    }
}

/// The display text of the original capture date/time field embedded in a
/// media file's bytes, if the bytes carry readable metadata with it.
pub uninterp spec fn exif_datetime_of(bytes: Seq<u8>) -> Option<Seq<char>>;

/// The timestamp read from a text in the fixed "year-month-day
/// hour:minute:second" layout, if the text matches it exactly.
pub uninterp spec fn parse_datetime_of(s: Seq<char>) -> Option<Timestamp>;

/// The text a timestamp formats to under a strftime template, if the
/// template is well formed for a naive local time.
pub uninterp spec fn strftime_of(ts: Timestamp, template: Seq<char>) -> Option<Seq<char>>;

/// Relies on exif::Reader::read_from_container and Exif::get_field: the
/// display text of the DateTimeOriginal field of the primary image. Every
/// step reads the bytes alone, so the result is a function of them.
#[verifier::external_body]
fn exif_datetime_field(bytes: &[u8]) -> (r: Option<String>)
    ensures
        r.deep_view() == exif_datetime_of(bytes@),
{
    let mut cursor = std::io::Cursor::new(bytes);
    match exif::Reader::new().read_from_container(&mut cursor) {
        Ok(data) => match data.get_field(exif::Tag::DateTimeOriginal, exif::In::PRIMARY) {
            Some(field) => Some(field.display_value().to_string()),
            None => None,
        },
        Err(_) => None,
    }
}

/// Relies on chrono::NaiveDateTime::parse_from_str with the fixed
/// "%Y-%m-%d %H:%M:%S" layout: the result is a function of the text
/// alone, and chrono only builds calendar-valid datetimes.
#[verifier::external_body]
fn parse_datetime(s: &str) -> (r: Option<Timestamp>)
    ensures
        r == parse_datetime_of(s@),
        r matches Some(t) ==> t.valid(),
{
    match chrono::NaiveDateTime::parse_from_str(s, "%Y-%m-%d %H:%M:%S") {
        Ok(dt) => Some(Timestamp {
            year: dt.year(),
            month: dt.month(),
            day: dt.day(),
            hour: dt.hour(),
            minute: dt.minute(),
            second: dt.second(),
            nanosecond: dt.nanosecond(),
        }),
        Err(_) => None,
    }
}

/// Relies on chrono::DateTime::from_timestamp and the Local timezone
/// conversion. The converted value depends on the machine's timezone, so
/// nothing ties it to the arguments; but conversion of an in-range
/// instant always succeeds, and every outcome is calendar-valid. Out of
/// range, chrono's local conversion panics, so such instants are
/// excluded here and bounded by the verified caller.
#[verifier::external_body]
fn epoch_to_local(t: FsTime) -> (r: Option<Timestamp>)
    requires
        fs_time_in_range(t),
    ensures
        r is Some,
        r matches Some(ts) ==> ts.valid(),
{
    let secs = i64::try_from(t.secs).ok()?;
    let utc = chrono::DateTime::from_timestamp(secs, t.nanos)?;
    let dt = utc.with_timezone(&chrono::Local).naive_local();
    Some(Timestamp {
        year: dt.year(),
        month: dt.month(),
        day: dt.day(),
        hour: dt.hour(),
        minute: dt.minute(),
        second: dt.second(),
        nanosecond: dt.nanosecond(),
    })
}

/// Relies on chrono's strftime formatting of a naive datetime, written
/// through fmt::Write so that a malformed template yields an error, never
/// a panic. For fixed arguments the text is a function of the two alone.
#[verifier::external_body]
pub(crate) fn strftime(ts: &Timestamp, template: &str) -> (r: Option<String>)
    ensures
        r.deep_view() == strftime_of(*ts, template@),
{
    let date = chrono::NaiveDate::from_ymd_opt(ts.year, ts.month, ts.day)?;
    let time = chrono::NaiveTime::from_hms_nano_opt(ts.hour, ts.minute, ts.second, ts.nanosecond)?;
    let dt = chrono::NaiveDateTime::new(date, time);
    let mut out = String::new();
    match write!(out, "{}", dt.format(template)) {
        Ok(()) => Some(out),
        Err(_) => None,
    }
}

/// Relies on chrono::Local::now: the current local time, which depends on
/// the clock and is only promised to be calendar-valid.
#[verifier::external_body]
fn now_local() -> (r: Timestamp)
    ensures
        r.valid(),
{
    let dt = chrono::Local::now().naive_local();
    Timestamp {
        year: dt.year(),
        month: dt.month(),
        day: dt.day(),
        hour: dt.hour(),
        minute: dt.minute(),
        second: dt.second(),
        nanosecond: dt.nanosecond(),
    }
}

/// The timestamp the embedded-metadata path resolves to.
pub open spec fn exif_timestamp_spec(bytes: Seq<u8>) -> Option<Timestamp> {
    match exif_datetime_of(bytes) {
        Some(s) => parse_datetime_of(s),
        None => None,
    }
}

/// Timestamp from embedded metadata alone: the capture field's text,
/// parsed in the fixed layout. Any failure along the way yields nothing.
pub fn exif_timestamp(bytes: &[u8]) -> (r: Option<Timestamp>)
    ensures
        r == exif_timestamp_spec(bytes@),
        r matches Some(t) ==> t.valid(),
{
    match exif_datetime_field(bytes) {
        Some(s) => parse_datetime(s.as_str()),
        None => None,
    }
}

/// The embedded-metadata part of timestamp resolution, over the file's
/// bytes when they could be read at all.
pub open spec fn exif_part(contents: Option<Seq<u8>>) -> Option<Timestamp> {
    match contents {
        Some(b) => exif_timestamp_spec(b),
        None => None,
    }
}

/// Timestamp from filesystem metadata: the earlier of the creation and
/// modification instants, converted to local calendar time. The
/// conversion succeeds exactly when that earlier instant lies within the
/// calendar bound; beyond it there is nothing to convert to.
pub fn fallback_timestamp(created: FsTime, modified: FsTime) -> (r: Option<Timestamp>)
    ensures
        r is Some <==> fs_time_in_range(fallback_instant(created, modified)),
        r matches Some(t) ==> t.valid(),
{
    let earlier = earlier_fs_time(created, modified);
    if earlier.secs <= MAX_EPOCH_SECS && earlier.nanos < 1_000_000_000 {
        epoch_to_local(earlier)
    } else {
        None
    }
}

/// Best-effort capture time for one file: embedded metadata first, the
/// filesystem instants second, nothing if both fail. `contents` is the
/// file's bytes, or nothing if the file could not be read; the instants
/// are nothing if the filesystem could not report them. With no embedded
/// timestamp, resolution succeeds exactly when both instants are there
/// and the earlier of them lies within the calendar bound.
pub fn resolve_timestamp(
    contents: &Option<Vec<u8>>,
    created: Option<FsTime>,
    modified: Option<FsTime>,
) -> (r: Option<Timestamp>)
    ensures
        exif_part(contents.deep_view()) matches Some(t) ==> r == Some(t),
        exif_part(contents.deep_view()) is None ==> (match (created, modified) {
            (Some(c), Some(m)) => r is Some <==> fs_time_in_range(fallback_instant(c, m)),
            _ => r is None,
        }),
        r matches Some(t) ==> t.valid(),
{
    let embedded = match contents {
        Some(b) => {
            proof {
                assert(b.deep_view() =~= b@);
            }
            exif_timestamp(b.as_slice())
        },
        None => None,
    };
    match embedded {
        Some(t) => Some(t),
        None => match (created, modified) {
            (Some(c), Some(m)) => fallback_timestamp(c, m),
            _ => None,
        },
    }
}

/// The preview text for a template: empty for an empty template, empty
/// again when formatting fails, else the formatted time with the fixed
/// ".jpg" extension appended.
pub open spec fn preview_spec(now: Timestamp, template: Seq<char>) -> Seq<char> {
    if template.len() == 0 {
        Seq::<char>::empty()
    } else {
        match strftime_of(now, template) {
            Some(s) => s + ".jpg"@,
            None => Seq::<char>::empty(),
        }
    }
}

/// Formats a given time under the template as the preview does.
pub fn template_example(now: &Timestamp, template: &str) -> (r: String)
    ensures
        r@ == preview_spec(*now, template@),
{
    if template.unicode_len() == 0 {
        return String::new();
    }
    match strftime(now, template) {
        Some(s) => s.concat(".jpg"),
        None => String::new(),
    }
}

/// Applies the template to the current local time with the fixed ".jpg"
/// extension, so a caller can validate a template before a run. An empty
/// or malformed template yields the empty string, never a failure.
pub fn get_filename_template_example(template: &str) -> (r: String)
    ensures
        template@.len() == 0 ==> r@ == Seq::<char>::empty(),
        exists|now: Timestamp| #[trigger] now.valid() && r@ == preview_spec(now, template@),
{
    let now = now_local();
    template_example(&now, template)
}

} // verus!
