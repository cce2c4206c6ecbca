//! Log timestamps: an instant, the precision it is printed with, and the
//! layout of a log line.

use std::fmt::Write;
use vstd::prelude::*;
use vstd::string::StringExecFns;

verus! {

/// How many fractional digits of the second a timestamp shows.
#[derive(Clone, Copy, Debug, PartialEq, Eq, Structural)]
pub enum TimestampPrecision {
    Seconds,
    Millis,
    Micros,
    Nanos,
}

impl TimestampPrecision {
    /// The number of fractional digits that this precision prints.
    pub open spec fn digits_spec(self) -> usize {
        match self {
            TimestampPrecision::Seconds => 0,
            TimestampPrecision::Millis => 3,
            TimestampPrecision::Micros => 6,
            TimestampPrecision::Nanos => 9,
        }
    }

    /// The number of fractional digits that this precision prints.
    pub fn digits(self) -> (d: usize)
        ensures
            d == self.digits_spec(),
    {
        match self {
            TimestampPrecision::Seconds => 0,
            TimestampPrecision::Millis => 3,
            TimestampPrecision::Micros => 6,
            TimestampPrecision::Nanos => 9,
        }
    }
}

/// A timestamp could not be printed: the instant lies outside the years that
/// the calendar covers, or the clock could not be read as an offset from the
/// epoch.
#[derive(Clone, Copy, Debug, PartialEq, Eq, Structural)]
pub struct FormatError {}

/// The text that `jiff` prints for the instant `second` seconds and
/// `nanosecond` nanoseconds from the Unix epoch, in UTC and with `digits`
/// fractional digits, or `None` where `jiff` has no timestamp for the instant.
pub uninterp spec fn rfc3339_text(second: i64, nanosecond: i32, digits: usize) -> Option<Seq<char>>;

/// The view of an optional string.
pub open spec fn text_view(r: Option<String>) -> Option<Seq<char>> {
    match r {
        Some(text) => Some(text@),
        None => None,
    }
}

/// Reads `std::time::SystemTime::now` and measures it from the Unix epoch
/// with `jiff::SignedDuration::system_until`, as whole seconds and the
/// nanoseconds beyond them.
///
/// Trusted: nothing is claimed of the reading. It is `None` where the distance
/// does not fit a signed duration.
#[verifier::external_body]
fn read_clock() -> (r: Option<(i64, i32)>)
{
    let now = std::time::SystemTime::now();
    match jiff::SignedDuration::system_until(std::time::SystemTime::UNIX_EPOCH, now) {
        Ok(elapsed) => Some((elapsed.as_secs(), elapsed.subsec_nanos())),
        Err(_) => None,
    }
}

/// Builds the instant with `jiff::Timestamp::new` and prints it through its
/// `Display` impl with `digits` as the precision.
///
/// Trusted: the outcome is a function of the three arguments alone.
#[verifier::external_body]
fn print_rfc3339(second: i64, nanosecond: i32, digits: usize) -> (r: Option<String>)
    ensures
        text_view(r) == rfc3339_text(second, nanosecond, digits),
{
    match jiff::Timestamp::new(second, nanosecond) {
        Ok(instant) => {
            let mut out = String::new();
            match write!(out, "{:.*}", digits, instant) {
                Ok(()) => Some(out),
                Err(_) => None,
            }
        },
        Err(_) => None,
    }
}

/// What a clock reading prints to with `digits` fractional digits: the text
/// of the instant, or an error where the clock gave no reading or the instant
/// has no text.
pub open spec fn reading_text(time: Option<(i64, i32)>, digits: usize) -> Result<
    Seq<char>,
    FormatError,
> {
    match time {
        Some((second, nanosecond)) => match rfc3339_text(second, nanosecond, digits) {
            Some(text) => Ok(text),
            None => Err(FormatError {  }),
        },
        None => Err(FormatError {  }),
    }
}

/// An instant together with the precision it is printed with.
///
/// The instant is held as the seconds and nanoseconds from the Unix epoch, or
/// as nothing where the clock gave no such reading.
#[derive(Clone, Copy, Debug)]
pub struct Timestamp {
    time: Option<(i64, i32)>,
    precision: TimestampPrecision,
}

impl Timestamp {
    /// The instant, as seconds and nanoseconds from the Unix epoch.
    pub closed spec fn time(&self) -> Option<(i64, i32)> {
        self.time
    }

    /// The precision that the timestamp is printed with.
    pub closed spec fn precision(&self) -> TimestampPrecision {
        self.precision
    }

    /// What `fmt` returns for this timestamp.
    pub open spec fn text(&self) -> Result<Seq<char>, FormatError> {
        reading_text(self.time(), self.precision().digits_spec())
    }

    /// A timestamp for the present instant, with the chosen precision.
    pub fn now(precision: TimestampPrecision) -> (r: Self)
        ensures
            r.precision() == precision,
    {
        Timestamp { time: read_clock(), precision }
    }

    /// A timestamp for the instant `second` seconds and `nanosecond`
    /// nanoseconds from the Unix epoch.
    pub fn at(second: i64, nanosecond: i32, precision: TimestampPrecision) -> (r: Self)
        ensures
            r.time() == Some((second, nanosecond)),
            r.precision() == precision,
    {
        Timestamp { time: Some((second, nanosecond)), precision }
    }

    /// Changes the precision and keeps the instant.
    pub fn set_precision(&mut self, precision: TimestampPrecision)
        ensures
            final(self).time() == old(self).time(),
            final(self).precision() == precision,
    {
        self.precision = precision;
    }

    /// The timestamp in RFC 3339 form, in UTC, with as many fractional digits
    /// as the precision asks for.
    pub fn fmt(&self) -> (r: Result<String, FormatError>)
        ensures
            text_result_view(r) == self.text(),
    {
        let (second, nanosecond) = match self.time {
            Some(reading) => reading,
            None => { return Err(FormatError {  }); },
        };
        match print_rfc3339(second, nanosecond, self.precision.digits()) {
            Some(text) => Ok(text),
            None => Err(FormatError {  }),
        }
    }
}

/// The view of a printed timestamp.
pub open spec fn text_result_view(r: Result<String, FormatError>) -> Result<Seq<char>, FormatError> {
    match r {
        Ok(text) => Ok(text@),
        Err(e) => Err(e),
    }
}

/// Whether two strings hold the same text.
fn same_text(a: &str, b: &str) -> (r: bool)
    ensures
        r == (a@ == b@),
{
    let left = a.to_owned();
    let right = b.to_owned();
    left == right
}

/// The precision that a configured name stands for.
pub open spec fn precision_named(name: Option<Seq<char>>) -> TimestampPrecision {
    match name {
        Some(text) => {
            if text == "nanos"@ {
                TimestampPrecision::Nanos
            } else if text == "micros"@ {
                TimestampPrecision::Micros
            } else if text == "millis"@ {
                TimestampPrecision::Millis
            } else {
                TimestampPrecision::Seconds
            }
        },
        None => TimestampPrecision::Seconds,
    }
}

/// The three names that choose a precision are three different texts.
pub proof fn lemma_precision_names_differ()
    ensures
        "nanos"@ != "micros"@,
        "nanos"@ != "millis"@,
        "micros"@ != "millis"@,
{
    reveal_strlit("nanos");
    reveal_strlit("micros");
    reveal_strlit("millis");
    assert("nanos"@.len() == 5);
    assert("micros"@.len() == 6);
    assert("millis"@.len() == 6);
    assert("micros"@[2] == 'c');
    assert("millis"@[2] == 'l');
}

/// The view of an optional borrowed string.
pub open spec fn name_view(name: Option<&str>) -> Option<Seq<char>> {
    match name {
        Some(text) => Some(text@),
        None => None,
    }
}

/// The precision that the environment asks for, given what the variable
/// `LOG_TS_PRECISION` holds: `nanos`, `micros` or `millis` choose that
/// precision, and anything else, or no value, chooses whole seconds.
pub fn precision_from_env(value: Option<&str>) -> (r: TimestampPrecision)
    ensures
        r == precision_named(name_view(value)),
        name_view(value) == Some("nanos"@) <==> r == TimestampPrecision::Nanos,
        name_view(value) == Some("micros"@) <==> r == TimestampPrecision::Micros,
        name_view(value) == Some("millis"@) <==> r == TimestampPrecision::Millis,
{
    proof {
        lemma_precision_names_differ();
    }
    match value {
        Some(text) => {
            if same_text(text, "nanos") {
                TimestampPrecision::Nanos
            } else if same_text(text, "micros") {
                TimestampPrecision::Micros
            } else if same_text(text, "millis") {
                TimestampPrecision::Millis
            } else {
                TimestampPrecision::Seconds
            }
        },
        None => TimestampPrecision::Seconds,
    }
}

/// The layout of a log line: the timestamp, the level in square brackets,
/// then the message, each parted from the next by one space.
pub open spec fn log_line_spec(timestamp: Seq<char>, level: Seq<char>, message: Seq<char>) -> Seq<
    char,
> {
    timestamp + " ["@ + level + "] "@ + message
}

/// Lays out one log line, without a line ending.
pub fn log_line(timestamp: &str, level: &str, message: &str) -> (line: String)
    ensures
        line@ == log_line_spec(timestamp@, level@, message@),
{
    let mut line = String::from_str(timestamp);
    line.append(" [");
    line.append(level);
    line.append("] ");
    line.append(message);
    line
}

/// A clock for log lines that shows the present instant to the millisecond.
#[derive(Clone, Copy, Debug)]
pub struct Rfc3339Time {}

impl Rfc3339Time {
    /// The present instant in RFC 3339 form with three fractional digits.
    ///
    /// The outcome is what one reading of the clock prints to at that
    /// precision: the text of the instant read, and an error only where the
    /// clock gave no reading or the instant read has no text.
    pub fn format_time(&self) -> (r: Result<String, FormatError>)
        ensures
            exists|time: Option<(i64, i32)>|
                text_result_view(r) == #[trigger] reading_text(time, 3),
            r matches Ok(text) ==> exists|second: i64, nanosecond: i32|
                #[trigger] rfc3339_text(second, nanosecond, 3) == Some(text@),
    {
        let stamp = Timestamp::now(TimestampPrecision::Millis);
        let r = stamp.fmt();
        proof {
            assert(text_result_view(r) == reading_text(stamp.time(), 3));
            if r is Ok {
                let (second, nanosecond) = stamp.time().unwrap();
                assert(rfc3339_text(second, nanosecond, 3) == Some(r.unwrap()@));
            }
        }
        r
    }
}

} // verus!
