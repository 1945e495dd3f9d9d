//! Tracks which calendar event is currently ongoing and streams that state to
//! connected clients as an ordered sequence of deltas.
use vstd::prelude::*;

pub mod event;
pub mod laws;
pub mod node;
pub mod session;
pub mod zone;

verus! {

/// Everything that can go wrong while resolving the current event, reading its
/// inputs or talking to a client. Payloads that come from outside libraries are
/// carried as their rendered messages.
#[derive(Debug)]
pub enum Error {
    /// A local timestamp maps to two instants (a fold); both are kept, as UTC seconds.
    AmbiguousTimestamp(i64, i64),
    /// The deployed-code identifier did not have 20 bytes.
    ArrayFromSlice(String),
    /// A subscriber fell behind the delta channel.
    Broadcast(String),
    EndOfStream,
    Git(String),
    /// A local timestamp falls in a gap and maps to no instant.
    InvalidTimestamp,
    /// An I/O failure, with the path it happened at, if known.
    Io(String, Option<String>),
    /// A document that did not parse, with its path, if known.
    Json(String, Option<String>),
    /// A descriptor names a location that the store does not hold.
    LocationNotFound(String),
    /// More than one event is ongoing at the same instant.
    MultipleCurrentEvents,
    NonJsonEventFile,
    /// A file name in the events directory is not valid Unicode.
    OsString,
    Read(String),
    UnknownApiKey,
    /// A time zone name that the zone database does not know.
    UnknownTimezone,
    Warp(String),
    Write(String),
}

/// The text of a UTC instant (seconds since the epoch) as `YYYY-MM-DD hh:mm:ss`;
/// empty where the instant is out of the representable range.
pub uninterp spec fn utc_text(secs: i64) -> Seq<char>;

/// Relies on chrono's `DateTime::<Utc>::from_timestamp` and `format` with
/// `%Y-%m-%d %H:%M:%S` to render an instant.
#[verifier::external_body]
fn format_utc(secs: i64) -> (r: String)
    ensures
        r@ == utc_text(secs),
{
    match chrono::DateTime::from_timestamp(secs, 0) {
        Some(dt) => dt.format("%Y-%m-%d %H:%M:%S").to_string(),
        None => String::new(),
    }
}

fn join2(a: &str, b: &str) -> (r: String)
    ensures
        r@ == a@ + b@,
{
    String::from_str(a).concat(b)
}

fn join3(a: &str, b: &str, c: &str) -> (r: String)
    ensures
        r@ == a@ + b@ + c@,
{
    String::from_str(a).concat(b).concat(c)
}

fn join5(a: &str, b: &str, c: &str, d: &str, e: &str) -> (r: String)
    ensures
        r@ == a@ + b@ + c@ + d@ + e@,
{
    String::from_str(a).concat(b).concat(c).concat(d).concat(e)
}

/// The human-readable message of an error.
pub open spec fn display_text(e: Error) -> Seq<char> {
    match e {
        Error::AmbiguousTimestamp(a, b) => "ambiguous timestamp: could refer to "@ + utc_text(a)
            + " or "@ + utc_text(b) + " UTC"@,
        Error::ArrayFromSlice(m) => m@,
        Error::Broadcast(m) => m@,
        Error::EndOfStream => "reached end of stream"@,
        Error::Git(m) => "git error: "@ + m@,
        Error::InvalidTimestamp => "invalid timestamp"@,
        Error::Io(m, Some(path)) => "I/O error at "@ + path@ + ": "@ + m@,
        Error::Io(m, None) => "I/O error: "@ + m@,
        Error::Json(m, Some(path)) => "JSON error at "@ + path@ + ": "@ + m@,
        Error::Json(m, None) => "JSON error: "@ + m@,
        Error::LocationNotFound(id) => "unknown location: "@ + id@,
        Error::MultipleCurrentEvents => "there are multiple events currently ongoing"@,
        Error::NonJsonEventFile => "events dir contains a non-.json file"@,
        Error::OsString => "filename was not valid Unicode"@,
        Error::Read(m) => m@,
        Error::UnknownApiKey => "unknown API key"@,
        Error::UnknownTimezone => "unknown time zone"@,
        Error::Warp(m) => m@,
        Error::Write(m) => "error writing to websocket: "@ + m@,
    }
}

/// The diagnostic text of an error: the kind's name and what it carries.
pub open spec fn debug_text(e: Error) -> Seq<char> {
    match e {
        Error::AmbiguousTimestamp(a, b) => "AmbiguousTimestamp("@ + utc_text(a) + ", "@ + utc_text(b)
            + ")"@,
        Error::ArrayFromSlice(m) => "ArrayFromSlice("@ + m@ + ")"@,
        Error::Broadcast(m) => "Broadcast("@ + m@ + ")"@,
        Error::EndOfStream => "EndOfStream"@,
        Error::Git(m) => "Git("@ + m@ + ")"@,
        Error::InvalidTimestamp => "InvalidTimestamp"@,
        Error::Io(m, Some(path)) => "Io("@ + m@ + ", "@ + path@ + ")"@,
        Error::Io(m, None) => "Io("@ + m@ + ")"@,
        Error::Json(m, Some(path)) => "Json("@ + m@ + ", "@ + path@ + ")"@,
        Error::Json(m, None) => "Json("@ + m@ + ")"@,
        Error::LocationNotFound(id) => "LocationNotFound("@ + id@ + ")"@,
        Error::MultipleCurrentEvents => "MultipleCurrentEvents"@,
        Error::NonJsonEventFile => "NonJsonEventFile"@,
        Error::OsString => "OsString"@,
        Error::Read(m) => "Read("@ + m@ + ")"@,
        Error::UnknownApiKey => "UnknownApiKey"@,
        Error::UnknownTimezone => "UnknownTimezone"@,
        Error::Warp(m) => "Warp("@ + m@ + ")"@,
        Error::Write(m) => "Write("@ + m@ + ")"@,
    }
}

fn duplicate_text(s: &Option<String>) -> (r: Option<String>)
    ensures
        r == *s,
{
    match s {
        Some(t) => Some(t.clone()),
        None => None,
    }
}

impl Error {
    /// A copy of this error, equal to it.
    pub fn duplicate(&self) -> (r: Error)
        ensures
            r == *self,
    {
        match self {
            Error::AmbiguousTimestamp(a, b) => Error::AmbiguousTimestamp(*a, *b),
            Error::ArrayFromSlice(m) => Error::ArrayFromSlice(m.clone()),
            Error::Broadcast(m) => Error::Broadcast(m.clone()),
            Error::EndOfStream => Error::EndOfStream,
            Error::Git(m) => Error::Git(m.clone()),
            Error::InvalidTimestamp => Error::InvalidTimestamp,
            Error::Io(m, p) => Error::Io(m.clone(), duplicate_text(p)),
            Error::Json(m, p) => Error::Json(m.clone(), duplicate_text(p)),
            Error::LocationNotFound(id) => Error::LocationNotFound(id.clone()),
            Error::MultipleCurrentEvents => Error::MultipleCurrentEvents,
            Error::NonJsonEventFile => Error::NonJsonEventFile,
            Error::OsString => Error::OsString,
            Error::Read(m) => Error::Read(m.clone()),
            Error::UnknownApiKey => Error::UnknownApiKey,
            Error::UnknownTimezone => Error::UnknownTimezone,
            Error::Warp(m) => Error::Warp(m.clone()),
            Error::Write(m) => Error::Write(m.clone()),
        }
    }

    /// The human-readable message.
    pub fn to_string(&self) -> (r: String)
        ensures
            r@ == display_text(*self),
    {
        match self {
            Error::AmbiguousTimestamp(a, b) => {
                let ta = format_utc(*a);
                let tb = format_utc(*b);
                join5("ambiguous timestamp: could refer to ", ta.as_str(), " or ", tb.as_str(), " UTC")
            },
            Error::ArrayFromSlice(m) => m.clone(),
            Error::Broadcast(m) => m.clone(),
            Error::EndOfStream => String::from_str("reached end of stream"),
            Error::Git(m) => join2("git error: ", m.as_str()),
            Error::InvalidTimestamp => String::from_str("invalid timestamp"),
            Error::Io(m, Some(path)) => join3("I/O error at ", path.as_str(), ": ").concat(m.as_str()),
            Error::Io(m, None) => join2("I/O error: ", m.as_str()),
            Error::Json(m, Some(path)) => join3("JSON error at ", path.as_str(), ": ").concat(m.as_str()),
            Error::Json(m, None) => join2("JSON error: ", m.as_str()),
            Error::LocationNotFound(id) => join2("unknown location: ", id.as_str()),
            Error::MultipleCurrentEvents => String::from_str("there are multiple events currently ongoing"),
            Error::NonJsonEventFile => String::from_str("events dir contains a non-.json file"),
            Error::OsString => String::from_str("filename was not valid Unicode"),
            Error::Read(m) => m.clone(),
            Error::UnknownApiKey => String::from_str("unknown API key"),
            Error::UnknownTimezone => String::from_str("unknown time zone"),
            Error::Warp(m) => m.clone(),
            Error::Write(m) => join2("error writing to websocket: ", m.as_str()),
        }
    }

    /// The diagnostic text: the kind's name and what it carries.
    pub fn to_debug_string(&self) -> (r: String)
        ensures
            r@ == debug_text(*self),
    {
        match self {
            Error::AmbiguousTimestamp(a, b) => {
                let ta = format_utc(*a);
                let tb = format_utc(*b);
                join5("AmbiguousTimestamp(", ta.as_str(), ", ", tb.as_str(), ")")
            },
            Error::ArrayFromSlice(m) => join3("ArrayFromSlice(", m.as_str(), ")"),
            Error::Broadcast(m) => join3("Broadcast(", m.as_str(), ")"),
            Error::EndOfStream => String::from_str("EndOfStream"),
            Error::Git(m) => join3("Git(", m.as_str(), ")"),
            Error::InvalidTimestamp => String::from_str("InvalidTimestamp"),
            Error::Io(m, Some(path)) => join5("Io(", m.as_str(), ", ", path.as_str(), ")"),
            Error::Io(m, None) => join3("Io(", m.as_str(), ")"),
            Error::Json(m, Some(path)) => join5("Json(", m.as_str(), ", ", path.as_str(), ")"),
            Error::Json(m, None) => join3("Json(", m.as_str(), ")"),
            Error::LocationNotFound(id) => join3("LocationNotFound(", id.as_str(), ")"),
            Error::MultipleCurrentEvents => String::from_str("MultipleCurrentEvents"),
            Error::NonJsonEventFile => String::from_str("NonJsonEventFile"),
            Error::OsString => String::from_str("OsString"),
            Error::Read(m) => join3("Read(", m.as_str(), ")"),
            Error::UnknownApiKey => String::from_str("UnknownApiKey"),
            Error::UnknownTimezone => String::from_str("UnknownTimezone"),
            Error::Warp(m) => join3("Warp(", m.as_str(), ")"),
            Error::Write(m) => join3("Write(", m.as_str(), ")"),
        }
    }
}

} // verus!
