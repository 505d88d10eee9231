//! The name under which an image is saved without asking: the time of
//! saving, and the format's extension.

use vstd::prelude::*;
use vstd::string::StringExecFns;
use crate::krustygrab::Format;

verus! {

/// How the time of saving is written in a file name: year, month and day,
/// then hour, minute and second.
pub const STAMP_PATTERN: &'static str = "%Y_%m_%d-%H_%M_%S";

/// The first second of the year 1, counted from the start of 1970 (UTC).
pub const STAMP_FIRST: i64 = -62_135_596_800;

/// The last second of the year 9999, counted from the start of 1970 (UTC).
pub const STAMP_LAST: i64 = 253_402_300_799;

/// What chrono writes for the UTC time `secs` seconds after the start of
/// 1970 under the format string `pattern`; none where chrono has no such
/// time.
pub uninterp spec fn utc_stamp(secs: i64, pattern: Seq<char>) -> Option<Seq<char>>;

/// Calls chrono's `DateTime::format` on the UTC time that
/// `DateTime::from_timestamp` makes of `secs` seconds and no nanoseconds,
/// and gives the result's `to_string`.
///
/// Believed without proof: the text depends on `secs` and `pattern` alone,
/// and there is none exactly where `from_timestamp` finds `secs` out of
/// range. No second of the years 1 to 9999 is out of range: chrono's dates
/// reach from the year 262144 BCE to the year 262142 CE. Only
/// [`STAMP_PATTERN`] is admitted, which holds nothing but specifiers that
/// chrono can write for every time.
#[verifier::external_body]
fn format_utc(secs: i64, pattern: &str) -> (r: Option<String>)
    requires
        pattern@ == STAMP_PATTERN@,
    ensures
        r is Some <==> utc_stamp(secs, pattern@) is Some,
        r matches Some(s) ==> utc_stamp(secs, pattern@) == Some(s@),
        STAMP_FIRST <= secs <= STAMP_LAST ==> r is Some,
{
    match chrono::DateTime::from_timestamp(secs, 0) {
        Some(t) => Some(t.format(pattern).to_string()),
        None => None,
    }
}

/// The file name made of a time stamp and a format: the stamp, a dot, and
/// the format's extension.
pub open spec fn file_name(stamp: Seq<char>, format: Format) -> Seq<char> {
    stamp + "."@ + format.extension()
}

/// The file name for an image saved at the time written as `stamp`, in the
/// format `format`.
pub fn save_file_name(stamp: &str, format: Format) -> (name: String)
    ensures
        name@ == file_name(stamp@, format),
{
    let mut name = stamp.to_owned();
    name.append(".");
    let ext = format.to_string();
    name.append(ext.as_str());
    name
}

/// The file name for an image saved `secs` seconds after the start of 1970
/// (UTC), in the format `format`; none where the time is out of the
/// calendar's range. Every time in the years 1 to 9999 has a name.
pub fn timestamped_file_name(secs: i64, format: Format) -> (r: Option<String>)
    ensures
        r is Some <==> utc_stamp(secs, STAMP_PATTERN@) is Some,
        STAMP_FIRST <= secs <= STAMP_LAST ==> r is Some,
        r matches Some(name) ==> name@ == file_name(utc_stamp(secs, STAMP_PATTERN@)->0, format),
{
    match format_utc(secs, STAMP_PATTERN) {
        Some(stamp) => Some(save_file_name(stamp.as_str(), format)),
        None => None,
    }
}

} // verus!
