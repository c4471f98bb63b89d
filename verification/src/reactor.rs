use std::collections::HashMap;
use vstd::prelude::*;

verus! {

broadcast use vstd::std_specs::hash::group_hash_axioms;

/// The readiness table of a reactor, keyed by the index of an event source's
/// token. An entry holds the waker of a task that waits for the source to
/// become ready, or nothing when an event came that no poll has seen yet; a
/// source with no entry has neither.
pub struct Readiness<W> {
    waiting: HashMap<usize, Option<W>>,
}

/// A poll for source `token` that keeps waker `w`: an unseen event is taken
/// out and the source is ready; otherwise `w` is kept, replacing any earlier
/// waker of the source, and the source is not ready.
pub open spec fn readiness_poll_spec<W>(m: Map<usize, Option<W>>, token: usize, w: W) -> (Map<usize, Option<W>>, bool) {
    if m.contains_key(token) && m[token] is None {
        (m.remove(token), true)
    } else {
        (m.insert(token, Some(w)), false)
    }
}

/// An event comes for source `token`: it is kept as unseen, and the waker
/// that waited for it, if any, is taken out to be woken.
pub open spec fn readiness_event_spec<W>(m: Map<usize, Option<W>>, token: usize) -> (Map<usize, Option<W>>, Option<W>) {
    (
        m.insert(token, None),
        if m.contains_key(token) {
            m[token]
        } else {
            None
        },
    )
}

impl<W> View for Readiness<W> {
    type V = Map<usize, Option<W>>;

    closed spec fn view(&self) -> Map<usize, Option<W>> {
        self.waiting@
    }
}

impl<W> Readiness<W> {
    /// No source is waited on and no event is unseen.
    pub fn new() -> (r: Self)
        ensures
            r@ == Map::<usize, Option<W>>::empty(),
    {
        Readiness { waiting: HashMap::new() }
    }

    /// The decision of a poll of a source's readiness: `true` when an event
    /// came since the last poll (the event is taken), else `false` after
    /// keeping a clone of `waker` to be woken by the next event.
    pub fn poll(&mut self, token: usize, waker: &W) -> (ready: bool) where W: Clone
        ensures
            ready == readiness_poll_spec(old(self)@, token, *waker).1,
            ready ==> final(self)@ == readiness_poll_spec(old(self)@, token, *waker).0,
            !ready ==> final(self)@[token] is Some && cloned(*waker, final(self)@[token]->0)
                && final(self)@ == readiness_poll_spec(old(self)@, token, final(self)@[token]->0).0,
    {
        match self.waiting.remove(&token) {
            Some(None) => true,
            _ => {
                self.waiting.insert(token, Some(waker.clone()));
                false
            },
        }
    }

    /// An event came for the source `token`: hands back the waker to wake,
    /// if a task waits on the source.
    pub fn ready(&mut self, token: usize) -> (to_wake: Option<W>)
        ensures
            (final(self)@, to_wake) == readiness_event_spec(old(self)@, token),
    {
        match self.waiting.insert(token, None) {
            Some(Some(waker)) => Some(waker),
            _ => None,
        }
    }
}

/// An event that comes before the poll is not lost: the poll finds the
/// source ready and takes the event.
pub proof fn lemma_event_then_poll_is_ready<W>(m: Map<usize, Option<W>>, token: usize, w: W)
    ensures
        readiness_poll_spec(readiness_event_spec(m, token).0, token, w).1,
        !readiness_poll_spec(readiness_event_spec(m, token).0, token, w).0.contains_key(token),
{
}

/// A poll that finds no event is woken by the next event on its source.
pub proof fn lemma_poll_then_event_wakes<W>(m: Map<usize, Option<W>>, token: usize, w: W)
    requires
        !(m.contains_key(token) && m[token] is None),
    ensures
        !readiness_poll_spec(m, token, w).1,
        readiness_event_spec(readiness_poll_spec(m, token, w).0, token).1 == Some(w),
{
}

/// An event is seen once: after a poll has taken it, the next poll waits.
pub proof fn lemma_event_seen_once<W>(m: Map<usize, Option<W>>, token: usize, w1: W, w2: W)
    ensures
        !readiness_poll_spec(readiness_poll_spec(readiness_event_spec(m, token).0, token, w1).0, token, w2).1,
{
}

/// Sources do not disturb each other: a poll or an event on one source
/// leaves the entry of every other source as it was.
pub proof fn lemma_sources_independent<W>(m: Map<usize, Option<W>>, token: usize, other: usize, w: W)
    requires
        token != other,
    ensures
        readiness_poll_spec(m, token, w).0.contains_key(other) == m.contains_key(other),
        readiness_event_spec(m, token).0.contains_key(other) == m.contains_key(other),
        m.contains_key(other) ==> readiness_poll_spec(m, token, w).0[other] == m[other],
        m.contains_key(other) ==> readiness_event_spec(m, token).0[other] == m[other],
{
}

/// A poll reports ready exactly when an unseen event is recorded for the
/// source; it then removes that record, and otherwise records its own waker
/// for the source.
pub proof fn lemma_poll_reports_unseen_event<W>(m: Map<usize, Option<W>>, token: usize, w: W)
    ensures
        readiness_poll_spec(m, token, w).1 <==> (m.contains_key(token) && m[token] is None),
        readiness_poll_spec(m, token, w).1 ==> !readiness_poll_spec(m, token, w).0.contains_key(token),
        !readiness_poll_spec(m, token, w).1 ==> readiness_poll_spec(m, token, w).0.contains_key(token)
            && readiness_poll_spec(m, token, w).0[token] == Some(w),
{
}

/// An event records itself as unseen for its source and hands back exactly
/// the waker that was waiting on the source, if any.
pub proof fn lemma_event_records_and_hands_back_waiter<W>(m: Map<usize, Option<W>>, token: usize)
    ensures
        readiness_event_spec(m, token).0.contains_key(token),
        readiness_event_spec(m, token).0[token] is None,
        m.contains_key(token) && m[token] is Some ==> readiness_event_spec(m, token).1 == m[token],
        !(m.contains_key(token) && m[token] is Some) ==> readiness_event_spec(m, token).1 is None,
{
}

} // verus!
