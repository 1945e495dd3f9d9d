//! The current-event state, the deltas that change it, and how it is computed
//! from the stored descriptors.
use vstd::prelude::*;

use crate::zone::{localize, resolved_timezone, spec_localize, EventJson, LocationEntry};
use crate::Error;

verus! {

/// The event that is currently ongoing, with the zone its times are read in.
#[derive(Debug)]
pub struct Event {
    pub id: String,
    pub timezone: String,
}

/// What a client holds: the current event, if any, and the identifier of the
/// deployed code.
#[derive(Debug)]
pub struct State {
    pub event: Option<Event>,
    pub latest_version: [u8; 20],
}

/// One ordered change to a `State`, or a keep-alive, or a terminal error.
#[derive(Debug)]
pub enum Delta {
    Ping,
    Error { debug: String, display: String },
    NoEvent,
    CurrentEvent(Event),
    LatestVersion([u8; 20]),
}

/// The key under which the current-event node runs; there is only one.
#[derive(Clone, Copy, Debug, PartialEq, Eq, Hash)]
pub struct Key;

/// An event as the contracts see it: its identifier and zone name.
pub ghost struct EventView {
    pub id: Seq<char>,
    pub timezone: Seq<char>,
}

impl Event {
    pub open spec fn view(&self) -> EventView {
        EventView { id: self.id@, timezone: self.timezone@ }
    }

    pub fn duplicate(&self) -> (r: Event)
        ensures
            r == *self,
    {
        Event { id: self.id.clone(), timezone: self.timezone.clone() }
    }
}

pub open spec fn event_views(e: Option<Event>) -> Option<EventView> {
    match e {
        Some(ev) => Some(ev.view()),
        None => None,
    }
}

impl State {
    pub fn duplicate(&self) -> (r: State)
        ensures
            r == *self,
    {
        State {
            event: match &self.event {
                Some(e) => Some(e.duplicate()),
                None => None,
            },
            latest_version: self.latest_version,
        }
    }

    /// The snapshot as deltas: the version first, then the event or its absence.
    pub fn to_init_deltas(&self) -> (r: Vec<Delta>)
        ensures
            r@ == init_deltas(*self),
    {
        let mut r: Vec<Delta> = Vec::new();
        r.push(Delta::LatestVersion(self.latest_version));
        match &self.event {
            Some(event) => r.push(Delta::CurrentEvent(event.duplicate())),
            None => r.push(Delta::NoEvent),
        }
        r
    }
}

impl Delta {
    pub fn duplicate(&self) -> (r: Delta)
        ensures
            r == *self,
    {
        match self {
            Delta::Ping => Delta::Ping,
            Delta::Error { debug, display } => Delta::Error {
                debug: debug.clone(),
                display: display.clone(),
            },
            Delta::NoEvent => Delta::NoEvent,
            Delta::CurrentEvent(e) => Delta::CurrentEvent(e.duplicate()),
            Delta::LatestVersion(v) => Delta::LatestVersion(*v),
        }
    }

    /// The terminal delta that reports an error to a client.
    pub fn from_error(e: &Error) -> (r: Delta)
        ensures
            r matches Delta::Error { debug, display } && debug@ == crate::debug_text(*e)
                && display@ == crate::display_text(*e),
    {
        Delta::Error { debug: e.to_debug_string(), display: e.to_string() }
    }

    /// Applies this delta to a node's state. A failed state stays as it is;
    /// an error delta is never applied to a live state.
    pub fn apply(&self, state: &mut Result<State, Error>)
        requires
            !(*self is Error && *old(state) is Ok),
        ensures
            *final(state) == applied_to(*self, *old(state)),
    {
        if let Ok(state) = state {
            match self {
                Delta::Ping => {},
                Delta::Error { .. } => {},
                Delta::NoEvent => state.event = None,
                Delta::CurrentEvent(event) => state.event = Some(event.duplicate()),
                Delta::LatestVersion(commit_hash) => state.latest_version = *commit_hash,
            }
        }
    }
}

/// The state after one delta. Ping and error deltas change nothing.
pub open spec fn applied(d: Delta, s: State) -> State {
    match d {
        Delta::NoEvent => State { event: None, ..s },
        Delta::CurrentEvent(e) => State { event: Some(e), ..s },
        Delta::LatestVersion(v) => State { latest_version: v, ..s },
        _ => s,
    }
}

/// A node's state after one delta: a failed state stays failed.
pub open spec fn applied_to(d: Delta, s: Result<State, Error>) -> Result<State, Error> {
    match s {
        Ok(st) => Ok(applied(d, st)),
        Err(e) => Err(e),
    }
}

/// The state after a sequence of deltas, applied in order.
pub open spec fn applied_all(s: State, ds: Seq<Delta>) -> State
    decreases ds.len(),
{
    if ds.len() == 0 {
        s
    } else {
        applied(ds.last(), applied_all(s, ds.drop_last()))
    }
}

/// The deltas that rebuild a snapshot: the version, then the event or its absence.
pub open spec fn init_deltas(s: State) -> Seq<Delta> {
    seq![
        Delta::LatestVersion(s.latest_version),
        match s.event {
            Some(e) => Delta::CurrentEvent(e),
            None => Delta::NoEvent,
        },
    ]
}

/// The identifier of an event file: its name without the `.json` suffix.
pub open spec fn event_id_of(file_name: Seq<char>) -> Result<Seq<char>, Error> {
    if file_name.len() >= 5 && file_name.subrange(file_name.len() - 5, file_name.len() as int)
        == ".json"@ {
        Ok(file_name.subrange(0, file_name.len() - 5))
    } else {
        Err(Error::NonJsonEventFile)
    }
}

/// Strips the `.json` suffix from an event file's name.
pub fn event_id(file_name: &str) -> (r: Result<String, Error>)
    ensures
        match r {
            Ok(id) => event_id_of(file_name@) == Ok::<Seq<char>, Error>(id@),
            Err(e) => event_id_of(file_name@) == Err::<Seq<char>, Error>(e),
        },
{
    proof {
        reveal_strlit(".json");
    }
    let n = file_name.unicode_len();
    if n >= 5 {
        let suffix = String::from_str(file_name.substring_char(n - 5, n));
        if suffix == String::from_str(".json") {
            return Ok(String::from_str(file_name.substring_char(0, n - 5)));
        }
    }
    Err(Error::NonJsonEventFile)
}

/// One file of the events directory: its name and what loading it gave.
pub struct EventFile {
    pub name: String,
    pub loaded: Result<EventJson, Error>,
}

/// A naive time of a descriptor as an instant, read in the descriptor's zone.
pub open spec fn instant_of(d: EventJson, naive: i64, store: Seq<LocationEntry>) -> Result<i64, Error> {
    match resolved_timezone(d, store) {
        Err(e) => Err(e),
        Ok(zone) => spec_localize(zone, naive),
    }
}

/// A descriptor's [start, end) interval as instants. A descriptor that lacks
/// its start or its end has none, and its zone is not resolved.
pub open spec fn window(d: EventJson, store: Seq<LocationEntry>) -> Result<Option<(i64, i64)>, Error> {
    match (d.start, d.end) {
        (Some(start), Some(end)) => match instant_of(d, start, store) {
            Err(e) => Err(e),
            Ok(s) => match instant_of(d, end, store) {
                Err(e) => Err(e),
                Ok(e) => Ok(Some((s, e))),
            },
        },
        _ => Ok(None),
    }
}

/// What a file stands for once read: the event it would be, and its interval.
pub open spec fn file_span(f: EventFile, store: Seq<LocationEntry>) -> Result<
    (EventView, Option<(i64, i64)>),
    Error,
> {
    match event_id_of(f.name@) {
        Err(e) => Err(e),
        Ok(id) => match f.loaded {
            Err(e) => Err(e),
            Ok(d) => match window(d, store) {
                Err(e) => Err(e),
                Ok(w) => Ok(
                    (
                        EventView {
                            id,
                            timezone: match resolved_timezone(d, store) {
                                Ok(z) => z,
                                Err(_) => Seq::empty(),
                            },
                        },
                        w,
                    ),
                ),
            },
        },
    }
}

/// Whether a file reads without error and its interval holds `now`.
pub open spec fn is_current(f: EventFile, store: Seq<LocationEntry>, now: i64) -> bool {
    file_span(f, store) matches Ok((_, Some((s, e)))) && s <= now && now < e
}

/// What a file adds to the scan: an error, the event if it is current, or nothing.
pub open spec fn candidate(f: EventFile, store: Seq<LocationEntry>, now: i64) -> Result<
    Option<EventView>,
    Error,
> {
    match file_span(f, store) {
        Err(e) => Err(e),
        Ok((ev, _)) => if is_current(f, store, now) {
            Ok(Some(ev))
        } else {
            Ok(None)
        },
    }
}

/// The current event among the files, scanned in order: the first error
/// stops the scan, and a second current event is an error.
pub open spec fn current_from(files: Seq<EventFile>, store: Seq<LocationEntry>, now: i64) -> Result<
    Option<EventView>,
    Error,
>
    decreases files.len(),
{
    if files.len() == 0 {
        Ok(None)
    } else {
        match current_from(files.drop_last(), store, now) {
            Err(e) => Err(e),
            Ok(cur) => match candidate(files.last(), store, now) {
                Err(e) => Err(e),
                Ok(None) => Ok(cur),
                Ok(Some(ev)) => if cur is None {
                    Ok(Some(ev))
                } else {
                    Err(Error::MultipleCurrentEvents)
                },
            },
        }
    }
}

pub open spec fn current_view(r: Result<Option<Event>, Error>) -> Result<Option<EventView>, Error> {
    match r {
        Ok(e) => Ok(event_views(e)),
        Err(e) => Err(e),
    }
}

/// An error met by a prefix of the scan is the scan's result.
proof fn lemma_error_persists(files: Seq<EventFile>, store: Seq<LocationEntry>, now: i64, i: int)
    requires
        0 <= i <= files.len(),
        current_from(files.take(i), store, now) is Err,
    ensures
        current_from(files, store, now) == current_from(files.take(i), store, now),
    decreases files.len() - i,
{
    if i == files.len() {
        assert(files.take(i) =~= files);
    } else {
        assert(files.drop_last().take(i) =~= files.take(i));
        lemma_error_persists(files.drop_last(), store, now, i);
    }
}

/// One naive time of a descriptor as an instant, read in the descriptor's zone.
fn instant(d: &EventJson, naive: i64, store: &Vec<LocationEntry>) -> (r: Result<i64, Error>)
    ensures
        r == instant_of(*d, naive, store@),
{
    match d.timezone(store) {
        Err(e) => Err(e),
        Ok(zone) => localize(zone.as_str(), naive),
    }
}

/// The event, among the files in the order given, whose [start, end) interval
/// holds `now`. A descriptor lacking its start or its end is skipped before
/// its zone is resolved. Fails on the first file that cannot be read or
/// resolved, and when a second current event turns up.
pub fn current_event(files: &Vec<EventFile>, store: &Vec<LocationEntry>, now: i64) -> (r: Result<
    Option<Event>,
    Error,
>)
    ensures
        current_view(r) == current_from(files@, store@, now),
{
    let mut current: Option<Event> = None;
    let mut i: usize = 0;
    assert(files@.take(0) =~= Seq::<EventFile>::empty());
    while i < files.len()
        invariant
            i <= files@.len(),
            current_from(files@.take(i as int), store@, now) == Ok::<Option<EventView>, Error>(
                event_views(current),
            ),
        decreases files.len() - i,
    {
        let f = &files[i];
        let ghost prefix = files@.take(i as int);
        assert(files@.take(i + 1).drop_last() =~= prefix);
        assert(files@.take(i + 1).last() == files@[i as int]);
        let outcome: Result<Option<Event>, Error> = match event_id(f.name.as_str()) {
            Err(e) => Err(e),
            Ok(id) => match &f.loaded {
                Err(e) => Err(e.duplicate()),
                Ok(d) => match (d.start, d.end) {
                    (Some(start), Some(end)) => match instant(d, start, store) {
                        Err(e) => Err(e),
                        Ok(s) => match instant(d, end, store) {
                            Err(e) => Err(e),
                            Ok(e) => {
                                if s <= now && now < e {
                                    match d.timezone(store) {
                                        Err(e) => Err(e),
                                        Ok(timezone) => Ok(Some(Event { id, timezone })),
                                    }
                                } else {
                                    Ok(None)
                                }
                            },
                        },
                    },
                    _ => Ok(None),
                },
            },
        };
        assert(current_view(outcome) == candidate(files@[i as int], store@, now));
        match outcome {
            Err(e) => {
                proof {
                    lemma_error_persists(files@, store@, now, i + 1);
                    assert(files@.take(files@.len() as int) =~= files@);
                }
                return Err(e);
            },
            Ok(None) => {},
            Ok(Some(event)) => {
                if current.is_none() {
                    current = Some(event);
                } else {
                    proof {
                        lemma_error_persists(files@, store@, now, i + 1);
                    }
                    return Err(Error::MultipleCurrentEvents);
                }
            },
        }
        i = i + 1;
    }
    assert(files@.take(files@.len() as int) =~= files@);
    Ok(current)
}

/// What initialisation gives: the scan's error, else the identifier's error,
/// else a state with the scanned event and the identifier.
pub open spec fn init_outcome(
    r: Result<State, Error>,
    files: Seq<EventFile>,
    store: Seq<LocationEntry>,
    now: i64,
    latest_version: Result<[u8; 20], Error>,
) -> bool {
    match current_from(files, store, now) {
        Err(e) => r == Err::<State, Error>(e),
        Ok(current) => match latest_version {
            Err(e) => r == Err::<State, Error>(e),
            Ok(v) => r matches Ok(s) && s.latest_version == v && event_views(s.event) == current,
        },
    }
}

/// The state a node starts from: the current event among the files, then the
/// deployed-code identifier. The first error met is the node's terminal state.
pub fn init(
    files: &Vec<EventFile>,
    store: &Vec<LocationEntry>,
    now: i64,
    latest_version: Result<[u8; 20], Error>,
) -> (r: Result<State, Error>)
    ensures
        init_outcome(r, files@, store@, now, latest_version),
{
    let current_event = match current_event(files, store, now) {
        Ok(current_event) => current_event,
        Err(e) => return Err(e),
    };
    match latest_version {
        Ok(latest_version) => Ok(State { event: current_event, latest_version }),
        Err(e) => Err(e),
    }
}

} // verus!
