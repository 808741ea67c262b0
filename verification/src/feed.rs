use crate::cache::{normalised_bits, ActivityData, ActivityDataPoint, SeriesError, SERIES_LENGTH};
use crate::level::AlertLevel;
use crate::text::{copy_range, find_from, line_views, lines_of, position, split_lines, text_chars, text_of};
use crate::time::{
    datetime_from_str, parse_error_text, parsed_datetime, Timestamp, FEED_DATETIME_FORMAT,
};
use vstd::prelude::*;
use vstd::string::StringExecFns;

verus! {

/// The number of header lines that carry one value each: the station, the
/// start, the end and the time of the last update.
pub const HEADER_LINES: usize = 4;

/// The number of lines before the first reading: the header lines, then four
/// lines that define thresholds.
pub const LINES_BEFORE_READINGS: usize = 8;

/// What can go wrong when a feed is fetched and read.
#[derive(Debug)]
pub enum AuroraWatchError {
    /// The feed could not be fetched.
    Request(String),
    /// The feed was fetched and is malformed.
    Parse(String),
}

impl AuroraWatchError {
    /// The message that the error carries.
    pub fn to_string(&self) -> (message: String)
        ensures
            match *self {
                AuroraWatchError::Request(m) => message == m,
                AuroraWatchError::Parse(m) => message == m,
            },
    {
        match self {
            AuroraWatchError::Request(m) => m.clone(),
            AuroraWatchError::Parse(m) => m.clone(),
        }
    }
}

/// The value of a header line: what follows its first space.
pub open spec fn single_value(line: Seq<char>) -> Option<Seq<char>> {
    let space = position(line, ' ', 0);
    if space < line.len() {
        Some(line.subrange(space + 1, line.len() as int))
    } else {
        None
    }
}

/// The date and time of a reading's line: what stands between its first
/// space and its second, or the end of the line.
pub open spec fn datetime_field(line: Seq<char>) -> Option<Seq<char>> {
    let first = position(line, ' ', 0);
    if first < line.len() {
        Some(line.subrange(first + 1, position(line, ' ', first + 1)))
    } else {
        None
    }
}

/// The value of a reading's line: what stands between its second space and
/// its third, or the end of the line.
pub open spec fn value_field(line: Seq<char>) -> Option<Seq<char>> {
    let first = position(line, ' ', 0);
    let second = position(line, ' ', first + 1);
    if second < line.len() {
        Some(line.subrange(second + 1, position(line, ' ', second + 1)))
    } else {
        None
    }
}

/// The instant, in microseconds, and the text of the value that a reading's
/// line gives, or `None` where a field is missing or the date is malformed.
pub open spec fn reading_of(line: Seq<char>) -> Option<(i64, Seq<char>)> {
    match datetime_field(line) {
        None => None,
        Some(datetime) => match parsed_datetime(datetime, FEED_DATETIME_FORMAT@) {
            None => None,
            Some(micros) => match value_field(line) {
                None => None,
                Some(value) => Some((micros, value)),
            },
        },
    }
}

/// Why a feed is refused.
#[derive(Clone, Copy, Debug, PartialEq, Eq, Structural)]
pub enum FeedFault {
    /// A header line is missing, or holds no space.
    MissingHeaderValue,
    /// The time of the last update is no date in the feed's format.
    MalformedUpdateTime,
    /// A reading's line holds no space, so no date.
    MissingDatetime,
    /// A reading's date is no date in the feed's format.
    MalformedDatetime,
    /// A reading's line holds one space only, so no value.
    MissingValue,
    /// The feed does not hold twenty-four readings.
    WrongCount,
}

/// The message of the error that reports `fault`, where the wording is fixed.
/// A malformed date is reported in the words of the date parser, behind a
/// fixed opening.
pub open spec fn fault_message(fault: FeedFault) -> Option<Seq<char>> {
    match fault {
        FeedFault::MissingHeaderValue => Some("Error parsing single value"@),
        FeedFault::MalformedUpdateTime => None,
        FeedFault::MissingDatetime => Some(
            "Error parsing activity datapoint: 'datetime' field not found"@,
        ),
        FeedFault::MalformedDatetime => None,
        FeedFault::MissingValue => Some(
            "Error parsing activity datapoint: 'value' field not found"@,
        ),
        FeedFault::WrongCount => Some("Error parsing activity: expected 24 datapoints"@),
    }
}

/// Whether `error` reports `fault`: it is a parse error, with the fixed
/// message of the fault where there is one, and else with a message that
/// opens with "error parsing datetime: ".
pub open spec fn reports(error: AuroraWatchError, fault: FeedFault) -> bool {
    &&& error is Parse
    &&& match fault_message(fault) {
        Some(message) => error->Parse_0@ == message,
        None => "error parsing datetime: "@.is_prefix_of(error->Parse_0@),
    }
}

/// The parse error for a date that the date parser rejected.
fn datetime_error(error: &chrono::ParseError) -> (reported: AuroraWatchError)
    ensures
        reports(reported, FeedFault::MalformedDatetime),
        reports(reported, FeedFault::MalformedUpdateTime),
{
    let wording = parse_error_text(error);
    let message = "error parsing datetime: ".to_owned().concat(wording.as_str());
    proof {
        assert(message@.subrange(0, "error parsing datetime: "@.len() as int)
            == "error parsing datetime: "@);
    }
    AuroraWatchError::Parse(message)
}

/// What is wrong with a reading's line, if anything: the fields are looked
/// at in the order of the line.
pub open spec fn reading_fault(line: Seq<char>) -> Option<FeedFault> {
    match datetime_field(line) {
        None => Some(FeedFault::MissingDatetime),
        Some(datetime) => if parsed_datetime(datetime, FEED_DATETIME_FORMAT@) is None {
            Some(FeedFault::MalformedDatetime)
        } else if value_field(line) is None {
            Some(FeedFault::MissingValue)
        } else {
            None
        },
    }
}

/// The index of the first of `lines` at or after `from` that is no
/// well-formed reading, or the number of lines where all are.
pub open spec fn first_unreadable(lines: Seq<Seq<char>>, from: int) -> int
    decreases lines.len() - from,
{
    if from < 0 || from >= lines.len() {
        lines.len() as int
    } else if reading_fault(lines[from]) is Some {
        from
    } else {
        first_unreadable(lines, from + 1)
    }
}

/// What is wrong with a feed, if anything: the first fault in the order of
/// the feed, and a wrong number of readings last.
pub open spec fn feed_fault(lines: Seq<Seq<char>>) -> Option<FeedFault> {
    if lines.len() < HEADER_LINES || exists|h: int|
        0 <= h < HEADER_LINES && (#[trigger] single_value(lines[h])) is None {
        Some(FeedFault::MissingHeaderValue)
    } else if parsed_datetime(single_value(lines[3])->0, FEED_DATETIME_FORMAT@) is None {
        Some(FeedFault::MalformedUpdateTime)
    } else if first_unreadable(lines, LINES_BEFORE_READINGS as int) < lines.len() {
        reading_fault(lines[first_unreadable(lines, LINES_BEFORE_READINGS as int)])
    } else if lines.len() != LINES_BEFORE_READINGS + SERIES_LENGTH {
        Some(FeedFault::WrongCount)
    } else {
        None
    }
}

/// The first unreadable line is unreadable, and every line from `from` up to
/// it is a well-formed reading.
pub proof fn first_unreadable_is_first(lines: Seq<Seq<char>>, from: int)
    requires
        0 <= from,
    ensures
        from <= first_unreadable(lines, from) || first_unreadable(lines, from) == lines.len(),
        first_unreadable(lines, from) <= lines.len(),
        first_unreadable(lines, from) < lines.len() ==> reading_fault(
            lines[first_unreadable(lines, from)],
        ) is Some,
        forall|i: int|
            from <= i < first_unreadable(lines, from) ==> (#[trigger] reading_of(lines[i])) is Some,
    decreases lines.len() - from,
{
    if from < lines.len() && reading_fault(lines[from]) is None {
        first_unreadable_is_first(lines, from + 1);
    }
}

/// A feed is faulty exactly where it is not valid.
pub proof fn faulty_feed_is_invalid(lines: Seq<Seq<char>>)
    ensures
        feed_fault(lines) is None <==> feed_is_valid(lines),
{
    first_unreadable_is_first(lines, LINES_BEFORE_READINGS as int);
    let bad = first_unreadable(lines, LINES_BEFORE_READINGS as int);
    if bad < lines.len() && header_is_valid(lines) {
        assert(reading_of(lines[bad]) is None);
    }
}

/// Whether the first four of `lines` are header lines, the fourth with a
/// well-formed time of update.
pub open spec fn header_is_valid(lines: Seq<Seq<char>>) -> bool {
    &&& lines.len() >= HEADER_LINES
    &&& forall|h: int| 0 <= h < HEADER_LINES ==> (#[trigger] single_value(lines[h])) is Some
    &&& parsed_datetime(single_value(lines[3])->0, FEED_DATETIME_FORMAT@) is Some
}

/// Whether `lines` are a whole feed: a valid header, four more lines, then
/// exactly twenty-four well-formed readings.
pub open spec fn feed_is_valid(lines: Seq<Seq<char>>) -> bool {
    &&& header_is_valid(lines)
    &&& lines.len() == LINES_BEFORE_READINGS + SERIES_LENGTH
    &&& forall|i: int| LINES_BEFORE_READINGS <= i < lines.len() ==> (#[trigger] reading_of(lines[i])) is Some
}

/// One reading as the feed writes it: the instant, and the text of the value.
#[derive(Debug)]
pub struct ActivityReading {
    pub timestamp: Timestamp,
    pub value: String,
}

/// The activity feed, split into its fields: the time of the last update and
/// the twenty-four readings, in the order of the feed.
#[derive(Debug)]
pub struct ActivityFeed {
    pub updated_at: Timestamp,
    pub readings: Vec<ActivityReading>,
}

/// What can be read from the text of the activity feed.
pub trait ActivityDataExt: Sized {
    /// Whether `value` is what `text` holds.
    spec fn read_from(value: Self, text: Seq<char>) -> bool;

    /// Whether `text` is a well-formed feed.
    spec fn accepts(text: Seq<char>) -> bool;

    /// Whether `error` tells what is wrong with `text`.
    spec fn refuses(error: AuroraWatchError, text: Seq<char>) -> bool;

    /// Reads the feed. A malformed feed is a parse error, never a partial
    /// result.
    fn from_text(text: &str) -> (r: Result<Self, AuroraWatchError>)
        ensures
            match r {
                Ok(value) => Self::accepts(text@) && Self::read_from(value, text@),
                Err(e) => !Self::accepts(text@) && e is Parse && Self::refuses(e, text@),
            },
    ;
}

/// The value of the header line `lines[at]`, and the index of the line after
/// it.
pub fn parse_single_value(lines: &Vec<Vec<char>>, at: usize) -> (r: Result<
    (Vec<char>, usize),
    AuroraWatchError,
>)
    ensures
        match r {
            Ok((value, next)) => {
                &&& at < lines@.len()
                &&& single_value(lines@[at as int]@) == Some(value@)
                &&& next == at + 1
            },
            Err(e) => {
                &&& at >= lines@.len() || single_value(lines@[at as int]@) is None
                &&& e matches AuroraWatchError::Parse(m) && m@ == "Error parsing single value"@
            },
        },
{
    if at < lines.len() {
        let line = &lines[at];
        let space = find_from(line, ' ', 0);
        if space < line.len() {
            return Ok((copy_range(line, space + 1, line.len()), at + 1));
        }
    }
    Err(AuroraWatchError::Parse("Error parsing single value".to_owned()))
}

/// The reading that one `ACTIVITY` line gives. The tag that opens the line
/// and the alert level that may close it are not looked at.
pub fn parse_activity(line: &Vec<char>) -> (r: Result<ActivityReading, AuroraWatchError>)
    ensures
        match r {
            Ok(reading) => reading_of(line@) == Some((reading.timestamp.micros, reading.value@)),
            Err(e) => {
                &&& reading_of(line@) is None
                &&& reading_fault(line@) matches Some(fault) && reports(e, fault)
            },
        },
{
    let first = find_from(line, ' ', 0);
    if first >= line.len() {
        return Err(
            AuroraWatchError::Parse(
                "Error parsing activity datapoint: 'datetime' field not found".to_owned(),
            ),
        );
    }
    let second = find_from(line, ' ', first + 1);
    let datetime = copy_range(line, first + 1, second);
    let timestamp = match datetime_from_str(&datetime, FEED_DATETIME_FORMAT) {
        Ok(timestamp) => timestamp,
        Err(e) => {
            return Err(datetime_error(&e));
        },
    };
    if second >= line.len() {
        return Err(
            AuroraWatchError::Parse(
                "Error parsing activity datapoint: 'value' field not found".to_owned(),
            ),
        );
    }
    let third = find_from(line, ' ', second + 1);
    let value = copy_range(line, second + 1, third);
    Ok(ActivityReading { timestamp, value: text_of(&value) })
}

/// The readings of the lines `lines[from..]`, or the error of the first line
/// that is malformed.
pub fn parse_activities(lines: &Vec<Vec<char>>, from: usize) -> (r: Result<
    Vec<ActivityReading>,
    AuroraWatchError,
>)
    ensures
        match r {
            Ok(readings) => {
                &&& readings@.len() == if from <= lines@.len() {
                    lines@.len() - from
                } else {
                    0
                }
                &&& forall|i: int|
                    0 <= i < readings@.len() ==> reading_of(lines@[from + i]@) == Some(
                        ((#[trigger] readings@[i]).timestamp.micros, readings@[i].value@),
                    )
            },
            Err(e) => {
                let bad = first_unreadable(line_views(lines@), from as int);
                &&& from <= bad < lines@.len()
                &&& reading_fault(lines@[bad]@) matches Some(fault) && reports(e, fault)
            },
        },
        r is Ok ==> first_unreadable(line_views(lines@), from as int) == lines@.len(),
{
    let mut readings: Vec<ActivityReading> = Vec::new();
    let mut at: usize = from;
    while at < lines.len()
        invariant
            from <= at,
            at <= lines@.len() || at == from,
            readings@.len() == at - from,
            first_unreadable(line_views(lines@), from as int) == first_unreadable(
                line_views(lines@),
                at as int,
            ),
            forall|i: int|
                0 <= i < readings@.len() ==> reading_of(lines@[from + i]@) == Some(
                    ((#[trigger] readings@[i]).timestamp.micros, readings@[i].value@),
                ),
        decreases lines@.len() - at,
    {
        proof {
            assert(line_views(lines@)[at as int] == lines@[at as int]@);
        }
        match parse_activity(&lines[at]) {
            Ok(reading) => {
                readings.push(reading);
            },
            Err(e) => {
                return Err(e);
            },
        }
        at += 1;
    }
    Ok(readings)
}

impl ActivityDataExt for ActivityFeed {
    open spec fn read_from(value: ActivityFeed, text: Seq<char>) -> bool {
        let lines = lines_of(text);
        &&& Some(value.updated_at.micros) == parsed_datetime(
            single_value(lines[3])->0,
            FEED_DATETIME_FORMAT@,
        )
        &&& value.readings@.len() == SERIES_LENGTH
        &&& forall|i: int|
            0 <= i < SERIES_LENGTH ==> reading_of(lines[LINES_BEFORE_READINGS + i]) == Some(
                ((#[trigger] value.readings@[i]).timestamp.micros, value.readings@[i].value@),
            )
    }

    open spec fn accepts(text: Seq<char>) -> bool {
        feed_is_valid(lines_of(text))
    }

    open spec fn refuses(error: AuroraWatchError, text: Seq<char>) -> bool {
        feed_fault(lines_of(text)) matches Some(fault) && reports(error, fault)
    }

    fn from_text(text: &str) -> (r: Result<ActivityFeed, AuroraWatchError>) {
        let chars = text_chars(text);
        let lines = split_lines(&chars);
        proof {
            assert(forall|i: int| 0 <= i < lines@.len() ==> lines@[i]@ == line_views(lines@)[i]);
        }
        let next = match parse_single_value(&lines, 0) {
            Ok((_station, next)) => next,
            Err(e) => {
                assert(lines_of(text@).len() <= 0 || single_value(lines_of(text@)[0]) is None);
                return Err(e);
            },
        };
        let next = match parse_single_value(&lines, next) {
            Ok((_start_time, next)) => next,
            Err(e) => {
                assert(lines_of(text@).len() <= 1 || single_value(lines_of(text@)[1]) is None);
                return Err(e);
            },
        };
        let next = match parse_single_value(&lines, next) {
            Ok((_end_time, next)) => next,
            Err(e) => {
                assert(lines_of(text@).len() <= 2 || single_value(lines_of(text@)[2]) is None);
                return Err(e);
            },
        };
        let (updated_at, next) = match parse_single_value(&lines, next) {
            Ok((updated_at, next)) => match datetime_from_str(&updated_at, FEED_DATETIME_FORMAT) {
                Ok(timestamp) => (timestamp, next),
                Err(e) => {
                    return Err(datetime_error(&e));
                },
            },
            Err(e) => {
                assert(lines_of(text@).len() <= 3 || single_value(lines_of(text@)[3]) is None);
                return Err(e);
            },
        };
        assert(header_is_valid(lines_of(text@)));
        // The four lines that follow define the thresholds.
        let readings = match parse_activities(&lines, next + HEADER_LINES) {
            Ok(readings) => readings,
            Err(e) => {
                proof {
                    let bad = first_unreadable(lines_of(text@), 8);
                    assert(lines_of(text@)[bad] == lines@[bad]@);
                    assert(reading_of(lines_of(text@)[bad]) is None);
                }
                return Err(e);
            },
        };
        if readings.len() != SERIES_LENGTH {
            return Err(
                AuroraWatchError::Parse("Error parsing activity: expected 24 datapoints".to_owned()),
            );
        }
        proof {
            let all = lines_of(text@);
            assert forall|i: int| LINES_BEFORE_READINGS <= i < all.len() implies (
            #[trigger] reading_of(all[i])) is Some by {
                let k = i - 8;
                let reading = readings@[k];
                assert(reading_of(lines@[8 + k]@) == Some((reading.timestamp.micros, reading.value@)));
            }
        }
        Ok(ActivityFeed { updated_at, readings })
    }
}

impl ActivityFeed {
    /// The series that the feed gives once the text of each value was read as
    /// a number: `value_bits[i]` holds the bits of the number that the `i`-th
    /// reading's text stands for. A reading that is not a number is stored as
    /// `0.0`.
    pub fn into_activity_data(self, value_bits: &Vec<u32>) -> (r: Result<ActivityData, SeriesError>)
        ensures
            match r {
                Ok(series) => {
                    &&& self.readings@.len() == SERIES_LENGTH
                    &&& value_bits@.len() == SERIES_LENGTH
                    &&& series.fetched_at() == self.updated_at
                    &&& series.points().len() == SERIES_LENGTH
                    &&& forall|i: int|
                        0 <= i < SERIES_LENGTH ==> #[trigger] series.points()[i]
                            == (ActivityDataPoint {
                            timestamp: self.readings@[i].timestamp,
                            value_bits: normalised_bits(value_bits@[i]),
                        })
                },
                Err(e) => {
                    &&& self.readings@.len() != SERIES_LENGTH || value_bits@.len() != SERIES_LENGTH
                    &&& e == SeriesError::WrongLength(
                        if self.readings@.len() != SERIES_LENGTH {
                            self.readings.len()
                        } else {
                            value_bits.len()
                        },
                    )
                },
            },
    {
        if self.readings.len() != SERIES_LENGTH {
            return Err(SeriesError::WrongLength(self.readings.len()));
        }
        if value_bits.len() != SERIES_LENGTH {
            return Err(SeriesError::WrongLength(value_bits.len()));
        }
        let mut points: Vec<ActivityDataPoint> = Vec::new();
        let mut i: usize = 0;
        while i < SERIES_LENGTH
            invariant
                0 <= i <= SERIES_LENGTH,
                self.readings@.len() == SERIES_LENGTH,
                value_bits@.len() == SERIES_LENGTH,
                points@.len() == i,
                forall|k: int|
                    0 <= k < i ==> #[trigger] points@[k] == (ActivityDataPoint {
                        timestamp: self.readings@[k].timestamp,
                        value_bits: normalised_bits(value_bits@[k]),
                    }),
            decreases SERIES_LENGTH - i,
        {
            points.push(ActivityDataPoint::new(self.readings[i].timestamp, value_bits[i]));
            i += 1;
        }
        ActivityData::new(points, self.updated_at)
    }
}

/// The status of one site as the status feed reports it.
#[derive(Debug)]
pub struct SiteStatus {
    pub alert_level: AlertLevel,
    pub project_id: String,
    pub site_id: String,
    pub site_url: String,
}

/// The status document of the feed.
#[derive(Debug)]
pub struct CurrentStatus {
    pub api_version: String,
    pub updated_at: Timestamp,
    pub site_status: SiteStatus,
}

/// The current alert level derived from the status feed.
#[derive(Debug)]
pub struct CurrentAlertLevel {
    pub level: AlertLevel,
    pub updated_at: Timestamp,
    pub site_id: String,
}

impl CurrentAlertLevel {
    /// The alert level that a status document reports.
    pub fn from(current_status: CurrentStatus) -> (current: CurrentAlertLevel)
        ensures
            current.level == current_status.site_status.alert_level,
            current.updated_at == current_status.updated_at,
            current.site_id == current_status.site_status.site_id,
    {
        CurrentAlertLevel {
            level: current_status.site_status.alert_level,
            updated_at: current_status.updated_at,
            site_id: current_status.site_status.site_id,
        }
    }

    /// The alert level that the fields of a status document give. A status
    /// that is none of the four level names is a parse error.
    pub fn from_fields(status_id: &str, updated_at: Timestamp, site_id: String) -> (r: Result<
        CurrentAlertLevel,
        AuroraWatchError,
    >)
        ensures
            match r {
                Ok(current) => {
                    &&& AlertLevel::named(status_id@) == Some(current.level)
                    &&& current.updated_at == updated_at
                    &&& current.site_id == site_id
                },
                Err(e) => {
                    &&& AlertLevel::named(status_id@) is None
                    &&& e is Parse
                },
            },
    {
        match AlertLevel::from_name(status_id) {
            Some(level) => Ok(CurrentAlertLevel { level, updated_at, site_id }),
            None => Err(AuroraWatchError::Parse("error parsing XML: unknown alert level".to_owned())),
        }
    }
}

} // verus!
