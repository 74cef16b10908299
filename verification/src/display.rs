//! Rendering that the library takes from elsewhere: human-readable sizes
//! (`humansize`), timestamps (`chrono`), Unicode lower-casing and the
//! `Debug` form of paths (`std`).

use vstd::prelude::*;
use crate::text::decimal;

verus! {

/// What `humansize::format_size(bytes, humansize::BINARY)` renders for
/// `bytes`, e.g. `1.50 KiB`.
pub uninterp spec fn binary_size_text(bytes: u64) -> Seq<char>;

/// `humansize::format_size(bytes, humansize::BINARY)`.  Its result is named
/// `binary_size_text`; below 1024 bytes the crate's source renders the plain
/// number followed by ` B`, which is stated too.
#[verifier::external_body]
pub(crate) fn binary_size(bytes: u64) -> (r: String)
    ensures
        r@ == binary_size_text(bytes),
        bytes < 1024 ==> r@ == decimal(bytes as nat) + " B"@,
{
    humansize::format_size(bytes, humansize::BINARY)
}

/// What `DateTime::<Utc>::from_timestamp(secs, nanos)` followed by
/// `to_rfc3339` gives: `None` when the timestamp is out of chrono's range,
/// else the RFC 3339 text, e.g. `2015-05-15T00:00:00+00:00`.
pub uninterp spec fn rfc3339_text(secs: i64, nanos: u32) -> Option<Seq<char>>;

/// `chrono::DateTime::<chrono::Utc>::from_timestamp(secs, nanos)` and then
/// `to_rfc3339()` on the result.  Its result is named `rfc3339_text`.
#[verifier::external_body]
pub(crate) fn utc_rfc3339(secs: i64, nanos: u32) -> (r: Option<String>)
    ensures
        match r {
            Some(s) => rfc3339_text(secs, nanos) == Some(s@),
            None => rfc3339_text(secs, nanos) is None,
        },
{
    chrono::DateTime::<chrono::Utc>::from_timestamp(secs, nanos).map(|t| t.to_rfc3339())
}

/// What `DateTime::<Utc>::from_timestamp(secs, nanos)` formatted with
/// `%Y-%m-%d %H:%M:%S UTC` gives, e.g. `2015-05-15 00:00:00 UTC`; `None`
/// when the timestamp is out of chrono's range.
pub uninterp spec fn utc_seconds_text(secs: i64, nanos: u32) -> Option<Seq<char>>;

/// `chrono::DateTime::<chrono::Utc>::from_timestamp(secs, nanos)` formatted
/// with `%Y-%m-%d %H:%M:%S UTC`.  Its result is named `utc_seconds_text`.
#[verifier::external_body]
pub(crate) fn utc_seconds(secs: i64, nanos: u32) -> (r: Option<String>)
    ensures
        match r {
            Some(s) => utc_seconds_text(secs, nanos) == Some(s@),
            None => utc_seconds_text(secs, nanos) is None,
        },
{
    chrono::DateTime::<chrono::Utc>::from_timestamp(secs, nanos).map(
        |t| t.format("%Y-%m-%d %H:%M:%S UTC").to_string(),
    )
}

/// The offset from UTC, in seconds, of the machine's local time zone at the
/// instant `secs`/`nanos` (`chrono::Local`); `None` when chrono cannot
/// represent the instant.  The offset depends on the machine's time zone, so
/// only what chrono's `FixedOffset` guarantees of every offset is stated:
/// it lies strictly between -86400 and 86400.
#[verifier::external_body]
pub(crate) fn local_offset_secs(secs: i64, nanos: u32) -> (r: Option<i32>)
    ensures
        r matches Some(o) ==> -86400 < o < 86400,
{
    chrono::DateTime::<chrono::Utc>::from_timestamp(secs, nanos).map(
        |t| chrono::TimeZone::offset_from_utc_datetime(&chrono::Local, &t.naive_utc()).local_minus_utc(),
    )
}

/// What chrono renders, as `%Y-%m-%d %H:%M`, for the instant `secs`/`nanos`
/// seen at a fixed offset of `offset` seconds from UTC; `None` when the
/// offset is not one chrono accepts or the instant is out of its range.
pub uninterp spec fn fixed_minute_text(secs: i64, nanos: u32, offset: i32) -> Option<Seq<char>>;

/// `DateTime::<Utc>::from_timestamp(secs, nanos)` converted with
/// `with_timezone` to `FixedOffset::east_opt(offset)` and formatted with
/// `%Y-%m-%d %H:%M`.  Its result is named `fixed_minute_text`.
#[verifier::external_body]
pub(crate) fn fixed_offset_minute(secs: i64, nanos: u32, offset: i32) -> (r: Option<String>)
    ensures
        match r {
            Some(s) => fixed_minute_text(secs, nanos, offset) == Some(s@),
            None => fixed_minute_text(secs, nanos, offset) is None,
        },
{
    chrono::FixedOffset::east_opt(offset).and_then(
        |o| chrono::DateTime::<chrono::Utc>::from_timestamp(secs, nanos).map(
            |t| t.with_timezone(&o).format("%Y-%m-%d %H:%M").to_string(),
        ),
    )
}

/// Whether every character is ASCII.
pub open spec fn all_ascii(s: Seq<char>) -> bool {
    forall|i: int| 0 <= i < s.len() ==> (s[i] as u32) < 128
}

/// ASCII lower-casing of one character.
pub open spec fn ascii_lower(c: char) -> char {
    if 'A' <= c && c <= 'Z' { ((c as u32) + 32) as char } else { c }
}

/// What `str::to_lowercase` returns for `s` (Unicode lower-casing).
pub uninterp spec fn lowercase(s: Seq<char>) -> Seq<char>;

/// `str::to_lowercase`.  Its result is named `lowercase`; for a string of
/// ASCII characters Unicode lower-casing maps each letter `A`..`Z` to its
/// lower-case letter and keeps every other character, which is stated too.
#[verifier::external_body]
pub(crate) fn to_lowercase(s: &str) -> (r: String)
    ensures
        r@ == lowercase(s@),
        all_ascii(s@) ==> r@ == s@.map_values(|c: char| ascii_lower(c)),
{
    s.to_lowercase()
}

/// What `format!("{:?}", Path::new(s))` renders for a path: the path
/// between double quotes, with the characters that `Debug` escapes (double
/// quotes, backslashes, unprintable characters) escaped.
pub uninterp spec fn path_debug(s: Seq<char>) -> Seq<char>;

/// Whether `s` is made of printable ASCII characters other than `"`, `'`
/// and `\`; `Debug` of a path shows such characters as they are.
pub open spec fn plain_printable(s: Seq<char>) -> bool {
    forall|i: int|
        0 <= i < s.len() ==> 0x20 <= (s[i] as u32) < 0x7f && s[i] != '"' && s[i] != '\'' && s[i]
            != '\\'
}

/// `format!("{:?}", std::path::Path::new(s))`, which is how a path is shown
/// with `{:?}`.  Its result is named `path_debug`; a path of printable ASCII
/// without quotes or backslashes is shown between double quotes as it is,
/// which is stated too.
#[verifier::external_body]
pub(crate) fn path_debug_text(s: &str) -> (r: String)
    ensures
        r@ == path_debug(s@),
        plain_printable(s@) ==> r@ == "\""@ + s@ + "\""@,
{
    format!("{:?}", std::path::Path::new(s))
}

} // verus!
