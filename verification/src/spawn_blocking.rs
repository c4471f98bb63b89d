use vstd::prelude::*;

verus! {

/// The state shared by a blocking job and the future that awaits its value:
/// the value once the job has produced it, and the waker of the last poll
/// that found no value.
pub struct SpawnBlockingInner<T, W> {
    value: Option<T>,
    waker: Option<W>,
}

/// A poll that keeps waker `w`: a value present is taken out and returned;
/// otherwise `w` is kept, replacing any earlier waker, and nothing is
/// returned. (The poll keeps a clone of the waker it is given.)
pub open spec fn blocking_poll_spec<T, W>(s: (Option<T>, Option<W>), w: W) -> ((Option<T>, Option<W>), Option<T>) {
    match s.0 {
        Some(v) => ((None, s.1), Some(v)),
        None => ((None, Some(w)), None),
    }
}

/// The job produces `v`: the value is kept, and the waker kept so far is
/// taken out to be woken.
pub open spec fn blocking_complete_spec<T, W>(s: (Option<T>, Option<W>), v: T) -> ((Option<T>, Option<W>), Option<W>) {
    ((Some(v), None), s.1)
}

impl<T, W> View for SpawnBlockingInner<T, W> {
    type V = (Option<T>, Option<W>);

    closed spec fn view(&self) -> (Option<T>, Option<W>) {
        (self.value, self.waker)
    }
}

impl<T, W> SpawnBlockingInner<T, W> {
    /// No value yet and no waker.
    pub fn new() -> (s: Self)
        ensures
            s@ == (None::<T>, None::<W>),
    {
        SpawnBlockingInner { value: None, waker: None }
    }

    /// The decision of a poll of the awaiting future: `Some` with the value
    /// when the job has produced it (the future is ready), else `None` after
    /// keeping a clone of `waker` to be woken when the value comes (the
    /// future is pending). The waker is cloned only when it is kept.
    pub fn poll(&mut self, waker: &W) -> (ready: Option<T>) where W: Clone
        ensures
            ready == blocking_poll_spec(old(self)@, *waker).1,
            final(self)@.0 == blocking_poll_spec(old(self)@, *waker).0.0,
            old(self)@.0 is Some ==> final(self)@.1 == old(self)@.1,
            old(self)@.0 is None ==> final(self)@.1 is Some && cloned(*waker, final(self)@.1->0),
    {
        let mut value = None;
        std::mem::swap(&mut value, &mut self.value);
        match value {
            Some(v) => Some(v),
            None => {
                self.waker = Some(waker.clone());
                None
            },
        }
    }

    /// The job has produced `value`: keeps it, and hands back the waker to
    /// wake, if a poll left one.
    pub fn complete(&mut self, value: T) -> (to_wake: Option<W>)
        ensures
            (final(self)@, to_wake) == blocking_complete_spec(old(self)@, value),
    {
        self.value = Some(value);
        let mut waker = None;
        std::mem::swap(&mut waker, &mut self.waker);
        waker
    }
}

/// The value of a job reaches the awaiting future: a poll after the job has
/// produced its value returns that value and leaves none behind.
pub proof fn lemma_poll_after_complete_returns_value<T, W>(s: (Option<T>, Option<W>), v: T, w: W)
    ensures
        blocking_poll_spec(blocking_complete_spec(s, v).0, w).1 == Some(v),
        blocking_poll_spec(blocking_complete_spec(s, v).0, w).0.0 is None,
{
}

/// A pending poll is woken: when the job finishes after a poll found no
/// value, it wakes the waker of that poll.
pub proof fn lemma_complete_wakes_pending_poll<T, W>(s: (Option<T>, Option<W>), v: T, w: W)
    requires
        s.0 is None,
    ensures
        blocking_poll_spec(s, w).1 is None,
        blocking_complete_spec(blocking_poll_spec(s, w).0, v).1 == Some(w),
{
}

/// The latest waker wins: of two pending polls, the job wakes the second.
pub proof fn lemma_latest_waker_is_woken<T, W>(s: (Option<T>, Option<W>), v: T, w1: W, w2: W)
    requires
        s.0 is None,
    ensures
        blocking_complete_spec(blocking_poll_spec(blocking_poll_spec(s, w1).0, w2).0, v).1 == Some(w2),
{
}

/// A value is handed out once: the poll after a ready poll finds no value.
pub proof fn lemma_value_delivered_once<T, W>(s: (Option<T>, Option<W>), w1: W, w2: W)
    requires
        s.0 is Some,
    ensures
        blocking_poll_spec(s, w1).1 is Some,
        blocking_poll_spec(blocking_poll_spec(s, w1).0, w2).1 is None,
{
}

/// A poll returns exactly the value that was there and always leaves none;
/// when it returns a value it leaves the kept waker alone, and when it
/// returns none it keeps its own waker.
pub proof fn lemma_poll_takes_the_value<T, W>(s: (Option<T>, Option<W>), w: W)
    ensures
        blocking_poll_spec(s, w).1 == s.0,
        blocking_poll_spec(s, w).0.0 is None,
        s.0 is Some ==> blocking_poll_spec(s, w).0.1 == s.1,
        s.0 is None ==> blocking_poll_spec(s, w).0.1 == Some(w),
{
}

/// Completing keeps exactly the job's value, hands back exactly the waker
/// that was kept, and keeps no waker afterwards, so no waker is woken twice.
pub proof fn lemma_complete_keeps_value_and_hands_back_waker<T, W>(s: (Option<T>, Option<W>), v: T)
    ensures
        blocking_complete_spec(s, v).0.0 == Some(v),
        blocking_complete_spec(s, v).0.1 is None,
        blocking_complete_spec(s, v).1 == s.1,
{
}

} // verus!
