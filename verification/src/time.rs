use vstd::prelude::*;

verus! {

/// Microseconds in one second.
pub const MICROS_PER_SECOND: i64 = 1_000_000;

/// Microseconds in one minute.
pub const MICROS_PER_MINUTE: i64 = 60_000_000;

/// Microseconds in one hour.
pub const MICROS_PER_HOUR: i64 = 3_600_000_000;

/// Microseconds in one day.
pub const MICROS_PER_DAY: i64 = 86_400_000_000;

/// The format of every date and time in the activity feed, such as
/// `2022-04-04T14:00:00+00`.
pub const FEED_DATETIME_FORMAT: &'static str = "%FT%T%#z";

/// An instant in UTC, counted in microseconds since the Unix epoch.
#[derive(Clone, Copy, Debug, PartialEq, Eq, Structural)]
pub struct Timestamp {
    pub micros: i64,
}

impl View for Timestamp {
    type V = int;

    open spec fn view(&self) -> int {
        self.micros as int
    }
}

impl Timestamp {
    /// The instant `micros` microseconds after the epoch, or before it where
    /// `micros` is negative.
    pub fn new(micros: i64) -> (t: Timestamp)
        ensures
            t.micros == micros,
    {
        Timestamp { micros }
    }

    /// Whether this instant lies strictly after `other`.
    pub fn is_after(&self, other: &Timestamp) -> (b: bool)
        ensures
            b == (self@ > other@),
    {
        self.micros > other.micros
    }

    /// Whether this instant lies more than `window` microseconds before `now`,
    /// that is strictly before `now - window`.
    pub fn is_older_than(&self, window: i64, now: &Timestamp) -> (b: bool)
        requires
            0 <= window,
        ensures
            b == (self@ < now@ - window),
    {
        if now.micros >= i64::MIN + window {
            self.micros < now.micros - window
        } else {
            false
        }
    }
}

/// What `chrono` makes of `text` read in UTC by the pattern `format`: the
/// instant in microseconds since the epoch, or `None` where it rejects the
/// text.
pub uninterp spec fn parsed_datetime(text: Seq<char>, format: Seq<char>) -> Option<i64>;

/// Calls `chrono::Utc::now`. The instant is handed on in microseconds; nothing
/// is claimed of it.
#[verifier::external_body]
pub(crate) fn current_time() -> (now: Timestamp) {
    Timestamp { micros: chrono::Utc::now().timestamp_micros() }
}

/// Calls `chrono::TimeZone::datetime_from_str` on `chrono::Utc`. Claims that
/// the outcome depends on the text and the pattern alone: it is the instant
/// named by `parsed_datetime`, and an error exactly where that is `None`.
#[verifier::external_body]
#[allow(deprecated)]
pub(crate) fn datetime_from_str(text: &[char], format: &str) -> (r: Result<
    Timestamp,
    chrono::ParseError,
>)
    ensures
        match r {
            Ok(t) => parsed_datetime(text@, format@) == Some(t.micros),
            Err(_) => parsed_datetime(text@, format@) is None,
        },
{
    let owned: String = text.iter().collect();
    let parsed = chrono::TimeZone::datetime_from_str(&chrono::Utc, &owned, format);
    parsed.map(|at| Timestamp { micros: at.timestamp_micros() })
}

/// Calls the `Display` impl of `chrono::ParseError`. Nothing is claimed of
/// the wording.
#[verifier::external_body]
pub(crate) fn parse_error_text(error: &chrono::ParseError) -> (wording: String) {
    format!("{error}")
}

/// `chrono::ParseError`, why a date was rejected. Nothing of it is visible
/// here.
#[verifier::external_type_specification]
#[verifier::external_body]
pub struct ExParseError(chrono::ParseError);

} // verus!
