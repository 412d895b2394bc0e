//! Points in time.
use vstd::prelude::*;

verus! {

/// A point in time, and the offset from UTC of the clock that shows it.
#[derive(Debug, Clone, Copy, PartialEq, Eq, Structural)]
pub struct Timestamp {
    /// Nanoseconds since the start of 1970, in UTC.
    pub unix_nanos: i128,
    /// How far the clock is ahead of UTC, in seconds.
    pub offset_seconds: i32,
}

/// Why a text is no point in time.
#[derive(Debug)]
pub struct InvalidTimestamp {
    /// What was attempted.
    pub context: String,
    /// What went wrong.
    pub cause: String,
}

/// What a text in the notation of RFC 3339 comes to: the point in time, or what
/// is wrong with the text.
pub uninterp spec fn rfc3339(text: Seq<char>) -> Result<Timestamp, Seq<char>>;

/// `time::OffsetDateTime::parse` with the description `Rfc3339`: the point in
/// time and its offset, or the parse error as its `to_string` puts it. Both are
/// named by [`rfc3339`].
#[verifier::external_body]
pub(crate) fn parse_rfc3339(text: &str) -> (timestamp: Result<Timestamp, String>)
    ensures
        match timestamp {
            Ok(timestamp) => rfc3339(text@) == Ok::<Timestamp, Seq<char>>(timestamp),
            Err(cause) => rfc3339(text@) == Err::<Timestamp, Seq<char>>(cause@),
        },
{
    match time::OffsetDateTime::parse(text, &time::format_description::well_known::Rfc3339) {
        Ok(parsed) => Ok(
            Timestamp {
                unix_nanos: parsed.unix_timestamp_nanos(),
                offset_seconds: parsed.offset().whole_seconds(),
            },
        ),
        Err(error) => Err(error.to_string()),
    }
}

/// The point in time that a text in the notation of RFC 3339 stands for.
pub fn parse_rfc3339_from_str(arg: &str) -> (timestamp: Result<Timestamp, InvalidTimestamp>)
    ensures
        match rfc3339(arg@) {
            Ok(expected) => timestamp matches Ok(timestamp) && timestamp == expected,
            Err(expected) => {
                timestamp matches Err(error) && error.context@
                    == "failed to parse rfc3339 timestamp"@ && error.cause@ == expected
            },
        },
{
    timestamp_or_context(parse_rfc3339(arg))
}

/// A parsed point in time, or why there is none, with what was attempted.
pub fn timestamp_or_context(parsed: Result<Timestamp, String>) -> (timestamp: Result<
    Timestamp,
    InvalidTimestamp,
>)
    ensures
        match parsed {
            Ok(expected) => timestamp matches Ok(timestamp) && timestamp == expected,
            Err(expected) => {
                timestamp matches Err(error) && error.context@
                    == "failed to parse rfc3339 timestamp"@ && error.cause@ == expected@
            },
        },
{
    match parsed {
        Ok(timestamp) => Ok(timestamp),
        Err(cause) => {
            let context = "failed to parse rfc3339 timestamp".to_owned();
            Err(InvalidTimestamp { context, cause })
        },
    }
}

} // verus!
