//! What holds of the reducer, of time zone resolution and of the scan for the
//! current event, proved over the spec functions the contracts use.
use vstd::prelude::*;

use crate::event::{
    candidate, event_id_of, applied, applied_all, applied_to, current_from, file_span, init_deltas, is_current, Delta,
    EventFile, EventView, State,
};
use crate::zone::{
    lookup, resolved_timezone, EventJson, LocationEntry, DEFAULT_TIMEZONE, ONLINE_LOCATION,
};
use crate::event::init_outcome;
use crate::session::{next_phase, sends, Phase, SessionEvent};
use crate::Error;

verus! {

/// Applying a ping changes no state, and a second `NoEvent` in a row changes
/// nothing that the first did not.
pub proof fn lemma_ping_and_no_event(s: Result<State, Error>)
    ensures
        applied_to(Delta::Ping, s) == s,
        applied_to(Delta::NoEvent, applied_to(Delta::NoEvent, s)) == applied_to(Delta::NoEvent, s),
{
}

/// The deltas that rebuild a snapshot give that snapshot, whatever state a
/// client held before.
pub proof fn lemma_init_deltas_rebuild(s: State, before: State)
    ensures
        applied_all(before, init_deltas(s)) == s,
{
    let ds = init_deltas(s);
    assert(ds.drop_last().drop_last() =~= Seq::<Delta>::empty());
    assert(applied_all(before, ds.drop_last().drop_last()) == before);
    assert(ds.drop_last().last() == ds[0]);
    assert(applied_all(before, ds.drop_last()) == applied(ds[0], before));
}

/// Applying two runs of deltas one after the other is applying their concatenation.
pub proof fn lemma_applied_all_concat(s: State, a: Seq<Delta>, b: Seq<Delta>)
    ensures
        applied_all(s, a + b) == applied_all(applied_all(s, a), b),
    decreases b.len(),
{
    if b.len() == 0 {
        assert(a + b =~= a);
    } else {
        assert((a + b).drop_last() =~= a + b.drop_last());
        assert((a + b).last() == b.last());
        lemma_applied_all_concat(s, a, b.drop_last());
    }
}

/// What a subscriber holds after joining once the first `k` deltas were
/// applied: it rebuilds the snapshot of that moment from whatever it held
/// before, then applies every later delta in order.
pub open spec fn replayed(before: State, start: State, deltas: Seq<Delta>, k: int) -> State {
    applied_all(before, init_deltas(applied_all(start, deltas.take(k))) + deltas.skip(k))
}

/// Subscribers that join at any two points of the node's delta sequence end in
/// the same state, the node's own.
pub proof fn lemma_subscribers_converge(
    start: State,
    deltas: Seq<Delta>,
    k1: int,
    k2: int,
    before1: State,
    before2: State,
)
    requires
        0 <= k1 <= deltas.len(),
        0 <= k2 <= deltas.len(),
    ensures
        replayed(before1, start, deltas, k1) == applied_all(start, deltas),
        replayed(before2, start, deltas, k2) == applied_all(start, deltas),
        replayed(before1, start, deltas, k1) == replayed(before2, start, deltas, k2),
{
    lemma_joiner_reaches_node(start, deltas, k1, before1);
    lemma_joiner_reaches_node(start, deltas, k2, before2);
}

proof fn lemma_joiner_reaches_node(start: State, deltas: Seq<Delta>, k: int, before: State)
    requires
        0 <= k <= deltas.len(),
    ensures
        replayed(before, start, deltas, k) == applied_all(start, deltas),
{
    let snapshot = applied_all(start, deltas.take(k));
    lemma_applied_all_concat(before, init_deltas(snapshot), deltas.skip(k));
    lemma_init_deltas_rebuild(snapshot, before);
    lemma_applied_all_concat(start, deltas.take(k), deltas.skip(k));
    assert(deltas.take(k) + deltas.skip(k) =~= deltas);
}

/// Time zone precedence: an explicit zone, then the online location, then a
/// stored location, then the default zone.
pub proof fn lemma_timezone_precedence(d: EventJson, store: Seq<LocationEntry>)
    ensures
        d.timezone matches Some(tz) ==> resolved_timezone(d, store) == Ok::<Seq<char>, Error>(tz@),
        d.timezone is None ==> (d.location matches Some(name) ==> (name@ == ONLINE_LOCATION@
            ==> resolved_timezone(d, store) == Ok::<Seq<char>, Error>(DEFAULT_TIMEZONE@))),
        d.timezone is None ==> (d.location matches Some(name) ==> (name@ != ONLINE_LOCATION@ ==> (
        lookup(store, name@) matches Some(Ok(loc)) ==> resolved_timezone(d, store) == Ok::<
            Seq<char>,
            Error,
        >(loc.timezone@)))),
        d.timezone is None ==> (d.location is None ==> resolved_timezone(d, store) == Ok::<
            Seq<char>,
            Error,
        >(DEFAULT_TIMEZONE@)),
{
}

/// Changing what the store holds for one location changes the zone only of
/// descriptors whose location field names it.
pub proof fn lemma_location_change_is_local(
    d: EventJson,
    before: Seq<LocationEntry>,
    after: Seq<LocationEntry>,
    changed: Seq<char>,
)
    requires
        forall|id: Seq<char>| id != changed ==> lookup(before, id) == lookup(after, id),
        !(d.location matches Some(name) && name@ == changed),
    ensures
        resolved_timezone(d, before) == resolved_timezone(d, after),
{
}

/// Every file reads, and every descriptor resolves, without error.
pub open spec fn all_readable(files: Seq<EventFile>, store: Seq<LocationEntry>) -> bool {
    forall|i: int| 0 <= i < files.len() ==> (#[trigger] file_span(files[i], store)) is Ok
}

/// The event a readable file stands for.
pub open spec fn event_of(f: EventFile, store: Seq<LocationEntry>) -> EventView {
    match file_span(f, store) {
        Ok((ev, _)) => ev,
        Err(_) => EventView { id: Seq::empty(), timezone: Seq::empty() },
    }
}

/// The interval of a readable file, if it has one.
pub open spec fn interval_of(f: EventFile, store: Seq<LocationEntry>) -> Option<(i64, i64)> {
    match file_span(f, store) {
        Ok((_, w)) => w,
        Err(_) => None,
    }
}

/// Two half-open intervals share no instant.
pub open spec fn disjoint(a: Option<(i64, i64)>, b: Option<(i64, i64)>) -> bool {
    match (a, b) {
        (Some((s1, e1)), Some((s2, e2))) => e1 <= s2 || e2 <= s1,
        _ => true,
    }
}

proof fn lemma_prefix_readable(files: Seq<EventFile>, store: Seq<LocationEntry>)
    requires
        files.len() > 0,
        all_readable(files, store),
    ensures
        all_readable(files.drop_last(), store),
        forall|i: int| 0 <= i < files.len() - 1 ==> files.drop_last()[i] == files[i],
{
    let p = files.drop_last();
    assert forall|i: int| 0 <= i < p.len() implies (#[trigger] file_span(p[i], store)) is Ok by {
        assert(p[i] == files[i]);
        assert(file_span(files[i], store) is Ok);
    }
}

/// Over readable files the scan ends in an event, in none, or in the
/// multiple-events error; and not in "none" once some file is current.
proof fn lemma_readable_shape(files: Seq<EventFile>, store: Seq<LocationEntry>, now: i64)
    requires
        all_readable(files, store),
    ensures
        current_from(files, store, now) is Ok || current_from(files, store, now) == Err::<
            Option<EventView>,
            Error,
        >(Error::MultipleCurrentEvents),
        forall|i: int|
            0 <= i < files.len() && #[trigger] is_current(files[i], store, now) ==> current_from(
                files,
                store,
                now,
            ) != Ok::<Option<EventView>, Error>(None),
    decreases files.len(),
{
    if files.len() > 0 {
        let p = files.drop_last();
        let n = files.len() - 1;
        lemma_prefix_readable(files, store);
        lemma_readable_shape(p, store, now);
        assert(file_span(files[n], store) is Ok);
        assert(files.last() == files[n]);
        assert forall|i: int|
            0 <= i < files.len() && #[trigger] is_current(files[i], store, now) implies current_from(
            files,
            store,
            now,
        ) != Ok::<Option<EventView>, Error>(None) by {
            if i < n {
                assert(p[i] == files[i]);
                assert(is_current(p[i], store, now));
            }
        }
    }
}

/// Over readable files of which at most one is current, the scan gives that
/// one's event, or none.
proof fn lemma_single_current(files: Seq<EventFile>, store: Seq<LocationEntry>, now: i64)
    requires
        all_readable(files, store),
        forall|i: int, j: int|
            0 <= i < files.len() && 0 <= j < files.len() && #[trigger] is_current(files[i], store, now)
                && #[trigger] is_current(files[j], store, now) ==> i == j,
    ensures
        forall|i: int|
            0 <= i < files.len() && #[trigger] is_current(files[i], store, now) ==> current_from(
                files,
                store,
                now,
            ) == Ok::<Option<EventView>, Error>(Some(event_of(files[i], store))),
        (forall|i: int| 0 <= i < files.len() ==> !#[trigger] is_current(files[i], store, now))
            ==> current_from(files, store, now) == Ok::<Option<EventView>, Error>(None),
    decreases files.len(),
{
    if files.len() > 0 {
        let p = files.drop_last();
        let n = files.len() - 1;
        lemma_prefix_readable(files, store);
        assert forall|i: int, j: int|
            0 <= i < p.len() && 0 <= j < p.len() && #[trigger] is_current(p[i], store, now)
                && #[trigger] is_current(p[j], store, now) implies i == j by {
            assert(p[i] == files[i]);
            assert(p[j] == files[j]);
            assert(is_current(files[i], store, now));
            assert(is_current(files[j], store, now));
        }
        lemma_single_current(p, store, now);
        assert(file_span(files[n], store) is Ok);
        assert(files.last() == files[n]);
        if is_current(files[n], store, now) {
            assert forall|i: int| 0 <= i < p.len() implies !#[trigger] is_current(p[i], store, now) by {
                assert(p[i] == files[i]);
                if is_current(files[i], store, now) {
                    assert(i == n);
                }
            }
        } else {
            assert forall|i: int|
                0 <= i < files.len() && #[trigger] is_current(files[i], store, now) implies current_from(
                files,
                store,
                now,
            ) == Ok::<Option<EventView>, Error>(Some(event_of(files[i], store))) by {
                assert(p[i] == files[i]);
                assert(is_current(p[i], store, now));
            }
            if forall|i: int| 0 <= i < files.len() ==> !#[trigger] is_current(files[i], store, now) {
                assert forall|i: int| 0 <= i < p.len() implies !#[trigger] is_current(p[i], store, now) by {
                    assert(p[i] == files[i]);
                }
            }
        }
    }
}

/// Where the files read without error and their intervals are pairwise
/// disjoint, the scan gives exactly the event whose interval holds `now`, or
/// none when no interval holds it.
pub proof fn lemma_disjoint_intervals_resolve(files: Seq<EventFile>, store: Seq<LocationEntry>, now: i64)
    requires
        all_readable(files, store),
        forall|i: int, j: int|
            0 <= i < files.len() && 0 <= j < files.len() && i != j ==> disjoint(
                #[trigger] interval_of(files[i], store),
                #[trigger] interval_of(files[j], store),
            ),
    ensures
        forall|i: int|
            0 <= i < files.len() && #[trigger] is_current(files[i], store, now) ==> current_from(
                files,
                store,
                now,
            ) == Ok::<Option<EventView>, Error>(Some(event_of(files[i], store))),
        (forall|i: int| 0 <= i < files.len() ==> !#[trigger] is_current(files[i], store, now))
            ==> current_from(files, store, now) == Ok::<Option<EventView>, Error>(None),
{
    assert forall|i: int, j: int|
        0 <= i < files.len() && 0 <= j < files.len() && #[trigger] is_current(files[i], store, now)
            && #[trigger] is_current(files[j], store, now) implies i == j by {
        if i != j {
            assert(disjoint(interval_of(files[i], store), interval_of(files[j], store)));
        }
    }
    lemma_single_current(files, store, now);
}

/// Where the files read without error, two current events make the scan fail
/// with the multiple-events error, wherever the two stand in the order.
pub proof fn lemma_two_current_events_fail(
    files: Seq<EventFile>,
    store: Seq<LocationEntry>,
    now: i64,
    i: int,
    j: int,
)
    requires
        all_readable(files, store),
        0 <= i < files.len(),
        0 <= j < files.len(),
        i != j,
        is_current(files[i], store, now),
        is_current(files[j], store, now),
    ensures
        current_from(files, store, now) == Err::<Option<EventView>, Error>(
            Error::MultipleCurrentEvents,
        ),
    decreases files.len(),
{
    let p = files.drop_last();
    let n = files.len() - 1;
    lemma_prefix_readable(files, store);
    assert(file_span(files[n], store) is Ok);
    assert(files.last() == files[n]);
    if i < n && j < n {
        assert(p[i] == files[i]);
        assert(p[j] == files[j]);
        lemma_two_current_events_fail(p, store, now, i, j);
    } else {
        let k = if i == n {
            j
        } else {
            i
        };
        assert(p[k] == files[k]);
        assert(is_current(p[k], store, now));
        lemma_readable_shape(p, store, now);
    }
}

/// A file whose descriptor lacks its start or its end is skipped: the scan
/// gives what it gives without that file, whatever zone or location the
/// descriptor names.
pub proof fn lemma_incomplete_descriptor_is_skipped(
    files: Seq<EventFile>,
    store: Seq<LocationEntry>,
    now: i64,
    i: int,
)
    requires
        0 <= i < files.len(),
        event_id_of(files[i].name@) is Ok,
        files[i].loaded matches Ok(d) && (d.start is None || d.end is None),
    ensures
        current_from(files, store, now) == current_from(files.remove(i), store, now),
    decreases files.len(),
{
    let n = files.len() - 1;
    assert(candidate(files[i], store, now) == Ok::<Option<EventView>, Error>(None));
    if i == n {
        assert(files.remove(i) =~= files.drop_last());
        assert(files.last() == files[i]);
    } else {
        assert(files.remove(i).drop_last() =~= files.drop_last().remove(i));
        assert(files.remove(i).last() == files.last());
        assert(files.drop_last()[i] == files[i]);
        lemma_incomplete_descriptor_is_skipped(files.drop_last(), store, now, i);
    }
}

/// `b` holds the files of `a` in another order: `p` places each file of `b`
/// in `a`, and `q` each file of `a` in `b`, both one to one.
pub open spec fn reorders(a: Seq<EventFile>, b: Seq<EventFile>, p: Seq<int>, q: Seq<int>) -> bool {
    &&& a.len() == b.len()
    &&& p.len() == b.len()
    &&& q.len() == a.len()
    &&& forall|k: int| 0 <= k < b.len() ==> 0 <= #[trigger] p[k] < a.len() && b[k] == a[p[k]]
    &&& forall|k: int| 0 <= k < a.len() ==> 0 <= #[trigger] q[k] < b.len() && a[k] == b[q[k]]
    &&& forall|k: int, l: int|
        0 <= k < b.len() && 0 <= l < b.len() && k != l ==> #[trigger] p[k] != #[trigger] p[l]
    &&& forall|k: int, l: int|
        0 <= k < a.len() && 0 <= l < a.len() && k != l ==> #[trigger] q[k] != #[trigger] q[l]
}

/// Where the files read without error, the scan's result does not depend on
/// the order in which the directory lists them.
pub proof fn lemma_scan_ignores_order(
    a: Seq<EventFile>,
    b: Seq<EventFile>,
    store: Seq<LocationEntry>,
    now: i64,
    p: Seq<int>,
    q: Seq<int>,
)
    requires
        all_readable(a, store),
        reorders(a, b, p, q),
    ensures
        current_from(a, store, now) == current_from(b, store, now),
{
    assert forall|k: int| 0 <= k < b.len() implies (#[trigger] file_span(b[k], store)) is Ok by {
        assert(b[k] == a[p[k]]);
        assert(file_span(a[p[k]], store) is Ok);
    }
    if exists|i: int, j: int|
        0 <= i < a.len() && 0 <= j < a.len() && i != j && #[trigger] is_current(a[i], store, now)
            && #[trigger] is_current(a[j], store, now) {
        let (i, j) = choose|i: int, j: int|
            0 <= i < a.len() && 0 <= j < a.len() && i != j && #[trigger] is_current(a[i], store, now)
                && #[trigger] is_current(a[j], store, now);
        lemma_two_current_events_fail(a, store, now, i, j);
        assert(b[q[i]] == a[i]);
        assert(b[q[j]] == a[j]);
        assert(q[i] != q[j]);
        lemma_two_current_events_fail(b, store, now, q[i], q[j]);
    } else {
        lemma_single_current(a, store, now);
        assert forall|k: int, l: int|
            0 <= k < b.len() && 0 <= l < b.len() && #[trigger] is_current(b[k], store, now)
                && #[trigger] is_current(b[l], store, now) implies k == l by {
            assert(b[k] == a[p[k]]);
            assert(b[l] == a[p[l]]);
            if k != l {
                assert(p[k] != p[l]);
                assert(is_current(a[p[k]], store, now));
                assert(is_current(a[p[l]], store, now));
            }
        }
        lemma_single_current(b, store, now);
        if exists|i: int| 0 <= i < a.len() && #[trigger] is_current(a[i], store, now) {
            let i = choose|i: int| 0 <= i < a.len() && #[trigger] is_current(a[i], store, now);
            assert(b[q[i]] == a[i]);
            assert(is_current(b[q[i]], store, now));
        } else {
            assert forall|k: int| 0 <= k < b.len() implies !#[trigger] is_current(b[k], store, now) by {
                assert(b[k] == a[p[k]]);
            }
        }
    }
}

/// Initialisation, too, gives the same result for any order of a readable listing.
pub proof fn lemma_init_ignores_order(
    a: Seq<EventFile>,
    b: Seq<EventFile>,
    store: Seq<LocationEntry>,
    now: i64,
    latest_version: Result<[u8; 20], Error>,
    p: Seq<int>,
    q: Seq<int>,
    r: Result<State, Error>,
)
    requires
        all_readable(a, store),
        reorders(a, b, p, q),
    ensures
        init_outcome(r, a, store, now, latest_version) == init_outcome(r, b, store, now, latest_version),
{
    lemma_scan_ignores_order(a, b, store, now, p, q);
}

proof fn lemma_flatten_singletons(outs: Seq<Seq<Delta>>, ds: Seq<Delta>)
    requires
        outs.len() == ds.len(),
        forall|i: int| 0 <= i < ds.len() ==> #[trigger] outs[i] == seq![ds[i]],
    ensures
        outs.flatten() == ds,
    decreases ds.len(),
{
    if ds.len() > 0 {
        assert forall|i: int| 0 <= i < ds.drop_first().len() implies #[trigger] outs.drop_first()[i]
            == seq![ds.drop_first()[i]] by {
            assert(outs.drop_first()[i] == outs[i + 1]);
        }
        lemma_flatten_singletons(outs.drop_first(), ds.drop_first());
        assert(outs.first() == seq![ds[0]]);
        assert(ds =~= seq![ds[0]] + ds.drop_first());
    }
}

/// A session that joins once the node has logged `k` deltas, and is then
/// handed the rest of the log one delta at a time, stays in streaming and
/// sends the snapshot's deltas followed by the rest of the log; applied to any
/// state a client held, they give the node's state.
pub proof fn lemma_session_replays_node(
    start: State,
    log: Seq<Delta>,
    k: int,
    before: State,
    outs: Seq<Seq<Delta>>,
)
    requires
        0 <= k <= log.len(),
        forall|i: int| 0 <= i < log.len() ==> !(#[trigger] log[i] is Error),
        outs.len() == log.len() - k + 1,
        sends(Phase::Joining, SessionEvent::Joined(Ok(applied_all(start, log.take(k)))), outs[0]),
        forall|i: int|
            0 <= i < log.len() - k ==> sends(
                Phase::Streaming,
                SessionEvent::Received(log[k + i]),
                #[trigger] outs[i + 1],
            ),
    ensures
        next_phase(Phase::Joining, SessionEvent::Joined(Ok(applied_all(start, log.take(k)))))
            == Phase::Streaming,
        forall|i: int|
            0 <= i < log.len() - k ==> next_phase(Phase::Streaming, SessionEvent::Received(#[trigger] log[k + i]))
                == Phase::Streaming,
        outs.flatten() == init_deltas(applied_all(start, log.take(k))) + log.skip(k),
        applied_all(before, outs.flatten()) == applied_all(start, log),
{
    let rest = log.skip(k);
    assert forall|i: int| 0 <= i < rest.len() implies #[trigger] outs.drop_first()[i] == seq![rest[i]] by {
        assert(outs.drop_first()[i] == outs[i + 1]);
        assert(rest[i] == log[k + i]);
    }
    lemma_flatten_singletons(outs.drop_first(), rest);
    assert forall|i: int|
        0 <= i < log.len() - k implies next_phase(Phase::Streaming, SessionEvent::Received(#[trigger] log[k + i]))
            == Phase::Streaming by {
        assert(!(log[k + i] is Error));
    }
    lemma_joiner_reaches_node(start, log, k, before);
}

} // verus!
