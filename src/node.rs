//! The node that owns the current-event state: it starts from one resolution,
//! applies deltas, and hands each subscriber a snapshot followed by every
//! delta applied after it, once and in order.
use vstd::prelude::*;

use crate::event::{applied_all, applied_to, init, init_outcome, Delta, EventFile, Key, State};
use crate::laws::lemma_applied_all_concat;
use crate::zone::LocationEntry;
use crate::Error;

verus! {

/// The state, every delta applied since the start, and for each subscriber
/// how many of those deltas it has been handed.
pub struct Node {
    state: Result<State, Error>,
    log: Vec<Delta>,
    cursors: Vec<usize>,
    start: Ghost<State>,
}

impl Node {
    /// The node's current state.
    pub closed spec fn spec_state(&self) -> Result<State, Error> {
        self.state
    }

    /// The deltas applied since the start, in order.
    pub closed spec fn spec_log(&self) -> Seq<Delta> {
        self.log@
    }

    /// For each subscriber, how many logged deltas it has been handed.
    pub closed spec fn spec_cursors(&self) -> Seq<usize> {
        self.cursors@
    }

    /// The state the node started from, where that start succeeded.
    pub closed spec fn spec_start(&self) -> State {
        self.start@
    }

    /// The state is the start with the log applied; a failed node logs
    /// nothing; no error delta is logged; no cursor runs past the log.
    pub closed spec fn wf(&self) -> bool {
        &&& self.log@.len() <= usize::MAX
        &&& self.state matches Ok(s) ==> applied_all(self.start@, self.log@) == s
        &&& self.state is Err ==> self.log@.len() == 0
        &&& forall|i: int| 0 <= i < self.log@.len() ==> !(#[trigger] self.log@[i] is Error)
        &&& forall|i: int| 0 <= i < self.cursors@.len() ==> #[trigger] self.cursors@[i] <= self.log@.len()
    }

    /// In a well-formed node the log fits a `usize` and every subscriber's
    /// position lies within the log.
    pub proof fn lemma_positions_in_log(&self)
        requires
            self.wf(),
        ensures
            self.spec_log().len() <= usize::MAX,
            forall|i: int|
                0 <= i < self.spec_cursors().len() ==> #[trigger] self.spec_cursors()[i]
                    <= self.spec_log().len(),
    {
    }

    /// A node holding the state that initialisation gave, with no subscribers.
    pub fn start(init: Result<State, Error>) -> (r: Node)
        ensures
            r.wf(),
            r.spec_state() == init,
            r.spec_log().len() == 0,
            r.spec_cursors().len() == 0,
            init matches Ok(s) ==> r.spec_start() == s,
    {
        let ghost start = if init is Ok {
            init->Ok_0
        } else {
            arbitrary()
        };
        Node { state: init, log: Vec::new(), cursors: Vec::new(), start: Ghost(start) }
    }

    /// The current state, as a snapshot.
    pub fn snapshot(&self) -> (r: Result<State, Error>)
        ensures
            r == self.spec_state(),
    {
        match &self.state {
            Ok(s) => Ok(s.duplicate()),
            Err(e) => Err(e.duplicate()),
        }
    }

    /// How many subscribers have registered.
    pub fn subscriber_count(&self) -> (r: usize)
        ensures
            r == self.spec_cursors().len(),
    {
        self.cursors.len()
    }

    /// Registers a subscriber: returns the current state and the subscriber's
    /// number. The subscriber is handed exactly the deltas applied from now on.
    pub fn subscribe(&mut self) -> (r: (Result<State, Error>, usize))
        requires
            old(self).wf(),
            old(self).spec_cursors().len() < usize::MAX,
        ensures
            final(self).wf(),
            r.0 == old(self).spec_state(),
            r.1 == old(self).spec_cursors().len(),
            final(self).spec_state() == old(self).spec_state(),
            final(self).spec_log() == old(self).spec_log(),
            final(self).spec_start() == old(self).spec_start(),
            final(self).spec_cursors() == old(self).spec_cursors().push(
                old(self).spec_log().len() as usize,
            ),
            final(self).spec_cursors()[r.1 as int] as int == final(self).spec_log().len(),
    {
        let snapshot = self.snapshot();
        let id = self.cursors.len();
        let at = self.log.len();
        self.cursors.push(at);
        (snapshot, id)
    }

    /// Applies a delta to the state and logs it for every subscriber. A failed
    /// node stays as it is.
    pub fn publish(&mut self, delta: Delta)
        requires
            old(self).wf(),
            !(delta is Error),
        ensures
            final(self).wf(),
            final(self).spec_state() == applied_to(delta, old(self).spec_state()),
            final(self).spec_log() == if old(self).spec_state() is Ok {
                old(self).spec_log().push(delta)
            } else {
                old(self).spec_log()
            },
            final(self).spec_cursors() == old(self).spec_cursors(),
            final(self).spec_start() == old(self).spec_start(),
    {
        if self.state.is_ok() {
            let logged = delta.duplicate();
            delta.apply(&mut self.state);
            self.log.push(logged);
            assert(self.log.len() == self.log@.len());
            assert(self.log@.drop_last() =~= old(self).log@);
        }
    }

    /// Hands a subscriber every delta applied since it was last handed any.
    /// Applied to the state the subscriber had reached, they give the node's state.
    pub fn take(&mut self, id: usize) -> (r: Vec<Delta>)
        requires
            old(self).wf(),
            id < old(self).spec_cursors().len(),
        ensures
            final(self).wf(),
            r@ == old(self).spec_log().subrange(
                old(self).spec_cursors()[id as int] as int,
                old(self).spec_log().len() as int,
            ),
            final(self).spec_state() == old(self).spec_state(),
            final(self).spec_log() == old(self).spec_log(),
            final(self).spec_start() == old(self).spec_start(),
            final(self).spec_cursors() == old(self).spec_cursors().update(
                id as int,
                old(self).spec_log().len() as usize,
            ),
            old(self).spec_state() matches Ok(s) ==> applied_all(
                applied_all(
                    old(self).spec_start(),
                    old(self).spec_log().take(old(self).spec_cursors()[id as int] as int),
                ),
                r@,
            ) == s,
    {
        let from = self.cursors[id];
        let to = self.log.len();
        let mut r: Vec<Delta> = Vec::new();
        let mut i = from;
        while i < to
            invariant
                from <= i <= to,
                to == self.log@.len(),
                r@ == self.log@.subrange(from as int, i as int),
            decreases to - i,
        {
            r.push(self.log[i].duplicate());
            i = i + 1;
            assert(r@ =~= self.log@.subrange(from as int, i as int));
        }
        self.cursors.set(id, to);
        proof {
            let log = old(self).log@;
            lemma_applied_all_concat(self.start@, log.take(from as int), r@);
            assert(log.take(from as int) + r@ =~= log);
        }
        r
    }
}

impl Key {
    /// Starts the node: resolves the current event once, from the files and
    /// locations as they stood at `now`, with the deployed-code identifier.
    /// Any failure is the node's terminal state.
    pub fn maintain(
        self,
        files: &Vec<EventFile>,
        store: &Vec<LocationEntry>,
        now: i64,
        latest_version: Result<[u8; 20], Error>,
    ) -> (r: Node)
        ensures
            r.wf(),
            r.spec_log().len() == 0,
            r.spec_cursors().len() == 0,
            init_outcome(r.spec_state(), files@, store@, now, latest_version),
    {
        Node::start(init(files, store, now, latest_version))
    }
}

} // verus!
