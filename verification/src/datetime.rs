use vstd::prelude::*;

verus! {

/// A moment in UTC: whole seconds since the Unix epoch and the nanoseconds past them.
#[derive(Clone, Copy, PartialEq, Eq, Structural, Debug)]
pub struct Timestamp {
    pub seconds: i64,
    pub nanos: u32,
}

/// chrono's text of the UTC moment `seconds`/`nanos` in the pattern `%Y-%m-%d %H:%M:%S`
/// (as `NaiveDateTime::format` writes it), or `None` where chrono has no such moment.
pub uninterp spec fn datetime_text(seconds: i64, nanos: u32) -> Option<Seq<char>>;

/// chrono: `DateTime::from_timestamp(seconds, nanos)`, whose naive UTC time is then
/// written by `NaiveDateTime::format` with the pattern `%Y-%m-%d %H:%M:%S`. The contract
/// names the text (`datetime_text`) and says nothing of its shape.
#[verifier::external_body]
fn chrono_format_utc(seconds: i64, nanos: u32) -> (text: Option<String>)
    ensures
        match text {
            Some(t) => datetime_text(seconds, nanos) == Some(t@),
            None => datetime_text(seconds, nanos) is None,
        },
{
    match chrono::DateTime::from_timestamp(seconds, nanos) {
        Some(moment) => Some(moment.naive_utc().format("%Y-%m-%d %H:%M:%S").to_string()),
        None => None,
    }
}

/// chrono: `Utc::now()`, read as seconds and nanoseconds. The clock decides which moment
/// it is; what is claimed are the bounds that chrono's source gives. `Utc::now` panics on a
/// system clock before the Unix epoch and unwraps `DateTime::from_timestamp` of the seconds
/// since then, so the seconds it returns are not negative. `DateTime::timestamp` is
/// `(days - 719163) * 86400 + seconds_of_day`, with the day count an `i32` and the seconds
/// of the day a `u32`, so it stays below 2 * 10^14.
#[verifier::external_body]
pub(crate) fn utc_now() -> (now: Timestamp)
    ensures
        0 <= now.seconds < 200_000_000_000_000,
{
    let moment = chrono::Utc::now();
    Timestamp { seconds: moment.timestamp(), nanos: moment.timestamp_subsec_nanos() }
}

/// The text of a moment as the pages show it (`%Y-%m-%d %H:%M:%S`), or empty where chrono
/// has no such moment.
pub open spec fn timestamp_text(t: Timestamp) -> Seq<char> {
    match datetime_text(t.seconds, t.nanos) {
        Some(text) => text,
        None => Seq::empty(),
    }
}

/// Writes a moment as the pages show it.
pub fn format_timestamp(t: &Timestamp) -> (text: String)
    ensures
        text@ == timestamp_text(*t),
{
    match chrono_format_utc(t.seconds, t.nanos) {
        Some(text) => text,
        None => String::new(),
    }
}

} // verus!
