//! Instants of UTC and their two texts: the day that names a log file and the
//! stamp that opens a log line. The `chrono` crate writes both.

use crate::escape::on_one_line;
use chrono::DateTime;
use vstd::prelude::*;

verus! {

/// Layout of the day in a log file's name: year, month and day, eight digits.
pub const DAY_LAYOUT: &'static str = "%Y%m%d";

/// Layout of the stamp of a log line: RFC 3339 with fractional seconds and
/// the zone offset.
pub const STAMP_LAYOUT: &'static str = "%+";

/// An instant of UTC: nanoseconds since 1970-01-01T00:00:00Z, leap seconds
/// not counted.
#[derive(Clone, Copy, Debug, PartialEq, Eq, Structural)]
pub struct UtcInstant {
    pub nanos: i64,
}

/// The text of the instant `nanos` in `layout`, as `chrono` formats it.
pub uninterp spec fn utc_text(nanos: i64, layout: Seq<char>) -> Seq<char>;

/// Makes the instant with `chrono::DateTime::from_timestamp_nanos`, which
/// accepts every `i64`, and formats it with `chrono::DateTime::format`.
///
/// Trusted: the result is the value that [`utc_text`] names; it depends on the
/// instant and the layout alone, since the zone is UTC and no locale is read.
/// Both layouts give digits and the punctuation of a date and a time, so the
/// text holds no line break. Formatting panics on a layout that `chrono`
/// cannot parse; `requires` admits the two layouts of this library, both made
/// of specifiers that it documents.
#[verifier::external_body]
pub(crate) fn format_utc(nanos: i64, layout: &str) -> (text: String)
    requires
        layout@ == DAY_LAYOUT@ || layout@ == STAMP_LAYOUT@,
    ensures
        text@ == utc_text(nanos, layout@),
        on_one_line(text@),
{
    DateTime::from_timestamp_nanos(nanos).format(layout).to_string()
}

impl UtcInstant {
    /// The day of the instant, as it stands in a log file's name.
    pub open spec fn day_text(self) -> Seq<char> {
        utc_text(self.nanos, DAY_LAYOUT@)
    }

    /// The stamp of the instant, as it stands at the head of a log line.
    pub open spec fn stamp_text(self) -> Seq<char> {
        utc_text(self.nanos, STAMP_LAYOUT@)
    }

    /// Writes the day of the instant as `YYYYMMDD`.
    pub fn day(&self) -> (text: String)
        ensures
            text@ == self.day_text(),
            on_one_line(text@),
    {
        format_utc(self.nanos, DAY_LAYOUT)
    }

    /// Writes the instant as an RFC 3339 timestamp.
    pub fn stamp(&self) -> (text: String)
        ensures
            text@ == self.stamp_text(),
            on_one_line(text@),
    {
        format_utc(self.nanos, STAMP_LAYOUT)
    }
}

} // verus!
