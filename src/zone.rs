//! Which time zone an event's naive timestamps are read in, and how a local
//! wall-clock time becomes an instant in that zone.
use vstd::prelude::*;

use chrono::TimeZone;

use crate::Error;

verus! {

/// The zone used when a descriptor names no zone and no location, or the online location.
pub const DEFAULT_TIMEZONE: &'static str = "Europe/Berlin";

/// The location name that stands for events held online.
pub const ONLINE_LOCATION: &'static str = "online";

/// A stored location: where an event is held, with the IANA name of its zone.
#[derive(Debug)]
pub struct Location {
    pub timezone: String,
}

/// One location of the store, keyed by the identifier taken from its file name,
/// with what loading its document gave.
pub struct LocationEntry {
    pub id: String,
    pub loaded: Result<Location, Error>,
}

/// An event descriptor as stored: naive start and end times (seconds since
/// 1970-01-01T00:00 on the wall clock), an optional location and an optional
/// explicit zone.
pub struct EventJson {
    pub end: Option<i64>,
    pub location: Option<String>,
    pub start: Option<i64>,
    pub timezone: Option<String>,
}

/// What a descriptor's location field comes to.
pub enum LocationInfo {
    Unknown,
    Online,
    Known(Location),
}

impl Location {
    pub fn duplicate(&self) -> (r: Location)
        ensures
            r == *self,
    {
        Location { timezone: self.timezone.clone() }
    }
}

impl LocationInfo {
    pub open spec fn spec_timezone(&self) -> Seq<char> {
        match self {
            LocationInfo::Known(info) => info.timezone@,
            _ => DEFAULT_TIMEZONE@,
        }
    }

    /// The zone of a known location; the default zone otherwise.
    pub fn timezone(&self) -> (r: String)
        ensures
            r@ == self.spec_timezone(),
    {
        match self {
            LocationInfo::Unknown | LocationInfo::Online => String::from_str(DEFAULT_TIMEZONE),
            LocationInfo::Known(info) => info.timezone.clone(),
        }
    }
}

/// The first entry of the store with the given identifier, if any.
pub open spec fn lookup(store: Seq<LocationEntry>, id: Seq<char>) -> Option<Result<Location, Error>>
    decreases store.len(),
{
    if store.len() == 0 {
        None
    } else if store[0].id@ == id {
        Some(store[0].loaded)
    } else {
        lookup(store.drop_first(), id)
    }
}

/// What a descriptor's location field names, looked up in the store.
pub open spec fn location_info_of(d: EventJson, store: Seq<LocationEntry>) -> Result<LocationInfo, Error> {
    match d.location {
        None => Ok(LocationInfo::Unknown),
        Some(name) => if name@ == ONLINE_LOCATION@ {
            Ok(LocationInfo::Online)
        } else {
            match lookup(store, name@) {
                None => Err(Error::LocationNotFound(name)),
                Some(Ok(loc)) => Ok(LocationInfo::Known(loc)),
                Some(Err(e)) => Err(e),
            }
        },
    }
}

/// The zone a descriptor's times are read in: its own zone if it names one,
/// else the zone its location field comes to.
pub open spec fn resolved_timezone(d: EventJson, store: Seq<LocationEntry>) -> Result<Seq<char>, Error> {
    match d.timezone {
        Some(tz) => Ok(tz@),
        None => match location_info_of(d, store) {
            Ok(info) => Ok(info.spec_timezone()),
            Err(e) => Err(e),
        },
    }
}

pub open spec fn zone_result_view(r: Result<String, Error>) -> Result<Seq<char>, Error> {
    match r {
        Ok(z) => Ok(z@),
        Err(e) => Err(e),
    }
}

/// Finds the first entry of the store with the given identifier.
pub fn find_location(store: &Vec<LocationEntry>, id: &String) -> (r: Option<Result<Location, Error>>)
    ensures
        r == lookup(store@, id@),
{
    let mut i: usize = 0;
    assert(store@.subrange(0, store@.len() as int) =~= store@);
    while i < store.len()
        invariant
            i <= store@.len(),
            lookup(store@, id@) == lookup(store@.subrange(i as int, store@.len() as int), id@),
        decreases store.len() - i,
    {
        let entry = &store[i];
        assert(store@.subrange(i as int, store@.len() as int).drop_first() =~= store@.subrange(
            i + 1,
            store@.len() as int,
        ));
        if entry.id == *id {
            return Some(
                match &entry.loaded {
                    Ok(loc) => Ok(loc.duplicate()),
                    Err(e) => Err(e.duplicate()),
                },
            );
        }
        i = i + 1;
    }
    None
}

impl EventJson {
    /// What the location field names: none, the online location, or a stored location.
    pub fn location_info(&self, store: &Vec<LocationEntry>) -> (r: Result<LocationInfo, Error>)
        ensures
            r == location_info_of(*self, store@),
    {
        match &self.location {
            None => Ok(LocationInfo::Unknown),
            Some(name) => {
                if *name == String::from_str(ONLINE_LOCATION) {
                    Ok(LocationInfo::Online)
                } else {
                    match find_location(store, name) {
                        None => Err(Error::LocationNotFound(name.clone())),
                        Some(Ok(loc)) => Ok(LocationInfo::Known(loc)),
                        Some(Err(e)) => Err(e),
                    }
                }
            },
        }
    }

    /// The zone this descriptor's times are read in: the explicit zone first,
    /// then the online location or the stored location, then the default zone.
    pub fn timezone(&self, store: &Vec<LocationEntry>) -> (r: Result<String, Error>)
        ensures
            zone_result_view(r) == resolved_timezone(*self, store@),
    {
        match &self.timezone {
            Some(tz) => Ok(tz.clone()),
            None => match self.location_info(store) {
                Ok(info) => Ok(info.timezone()),
                Err(e) => Err(e),
            },
        }
    }
}

/// The UTC instants, in seconds since the epoch, that a wall-clock time in the
/// named zone stands for: none in a gap, one, or two in a fold (earliest
/// first). `None` where the zone database does not know the zone or the time
/// is out of the representable range.
pub uninterp spec fn local_instants(zone: Seq<char>, local: i64) -> Option<Seq<i64>>;

/// Relies on chrono-tz's `Tz::from_str` to find the zone by its IANA name and on
/// chrono's `TimeZone::from_local_datetime` for the instants that the local
/// time maps to, as its `LocalResult` lists them.
#[verifier::external_body]
fn instants_of_local(zone: &str, local: i64) -> (r: Option<Vec<i64>>)
    ensures
        r matches Some(v) ==> local_instants(zone@, local) == Some(v@),
        r is None ==> local_instants(zone@, local) is None,
{
    let tz: chrono_tz::Tz = zone.parse().ok()?;
    let naive = chrono::DateTime::from_timestamp(local, 0)?.naive_utc();
    Some(
        match tz.from_local_datetime(&naive) {
            chrono::LocalResult::None => Vec::new(),
            chrono::LocalResult::Single(dt) => vec![dt.timestamp()],
            chrono::LocalResult::Ambiguous(a, b) => vec![a.timestamp(), b.timestamp()],
        },
    )
}

/// How a conversion's candidate instants become one instant or an error.
pub open spec fn single_instant(candidates: Option<Seq<i64>>) -> Result<i64, Error> {
    match candidates {
        None => Err(Error::UnknownTimezone),
        Some(c) => if c.len() == 1 {
            Ok(c[0])
        } else if c.len() >= 2 {
            Err(Error::AmbiguousTimestamp(c[0], c[1]))
        } else {
            Err(Error::InvalidTimestamp)
        },
    }
}

/// Picks the one instant a local time stands for. A gap gives
/// `InvalidTimestamp`; a fold gives `AmbiguousTimestamp` with both candidates.
pub fn into_result(candidates: Option<Vec<i64>>) -> (r: Result<i64, Error>)
    ensures
        r == single_instant(
            match candidates {
                Some(v) => Some(v@),
                None => None,
            },
        ),
        candidates matches Some(v) ==> (v@.len() == 0 ==> r == Err::<i64, Error>(
            Error::InvalidTimestamp,
        )),
        candidates matches Some(v) ==> (v@.len() == 2 ==> r == Err::<i64, Error>(
            Error::AmbiguousTimestamp(v@[0], v@[1]),
        )),
{
    match candidates {
        None => Err(Error::UnknownTimezone),
        Some(c) => {
            if c.len() == 1 {
                Ok(c[0])
            } else if c.len() >= 2 {
                Err(Error::AmbiguousTimestamp(c[0], c[1]))
            } else {
                Err(Error::InvalidTimestamp)
            }
        },
    }
}

/// The instant a wall-clock time in the named zone stands for.
pub open spec fn spec_localize(zone: Seq<char>, local: i64) -> Result<i64, Error> {
    single_instant(local_instants(zone, local))
}

/// Reads a wall-clock time in the named zone as an instant (UTC seconds).
pub fn localize(zone: &str, local: i64) -> (r: Result<i64, Error>)
    ensures
        r == spec_localize(zone@, local),
{
    into_result(instants_of_local(zone, local))
}

} // verus!
