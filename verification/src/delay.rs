use vstd::prelude::*;

verus! {

/// A future that becomes ready some seconds after it is first polled.
///
/// The first poll starts a timer for `seconds`; the future is ready once that
/// timer has fired. Only the first poll starts a timer.
pub struct Delay {
    seconds: u64,
    started: bool,
    completed: bool,
}

/// A delay as plain values: how long it waits, whether its timer has been
/// started, and whether the timer has fired.
pub struct DelayView {
    pub seconds: u64,
    pub started: bool,
    pub completed: bool,
}

/// The answer of a poll of a delay.
pub struct DelayPoll {
    /// The seconds of the timer to start now, on the first poll only.
    pub start_timer: Option<u64>,
    /// Whether the future is ready: its timer has fired.
    pub ready: bool,
}

/// A poll of a delay: it is started afterwards; a timer for its seconds is
/// to be started when it was not started before; it is ready exactly when
/// its timer has fired.
pub open spec fn delay_poll_spec(d: DelayView) -> (DelayView, DelayPoll) {
    (
        DelayView { seconds: d.seconds, started: true, completed: d.completed },
        DelayPoll {
            start_timer: if d.started {
                None
            } else {
                Some(d.seconds)
            },
            ready: d.completed,
        },
    )
}

/// The timer of a delay fires.
pub open spec fn delay_complete_spec(d: DelayView) -> DelayView {
    DelayView { seconds: d.seconds, started: d.started, completed: true }
}

impl View for Delay {
    type V = DelayView;

    closed spec fn view(&self) -> DelayView {
        DelayView { seconds: self.seconds, started: self.started, completed: self.completed }
    }
}

impl Delay {
    /// A delay of `seconds` whose timer has not been started.
    pub fn new(seconds: u64) -> (d: Delay)
        ensures
            d@ == (DelayView { seconds, started: false, completed: false }),
    {
        Delay { seconds, started: false, completed: false }
    }

    /// How long the delay waits.
    pub fn seconds(&self) -> (s: u64)
        ensures
            s == self@.seconds,
    {
        self.seconds
    }

    /// The decision of a poll: the timer to start now, on the first poll
    /// only, and whether the future is ready.
    pub fn poll(&mut self) -> (p: DelayPoll)
        ensures
            (final(self)@, p) == delay_poll_spec(old(self)@),
    {
        let start_timer = if self.started {
            None
        } else {
            self.started = true;
            Some(self.seconds)
        };
        DelayPoll { start_timer, ready: self.completed }
    }

    /// The timer has fired: the next poll finds the future ready.
    pub fn complete(&mut self)
        ensures
            final(self)@ == delay_complete_spec(old(self)@),
    {
        self.completed = true;
    }

    /// Whether the timer has fired.
    pub fn is_ready(&self) -> (b: bool)
        ensures
            b == self@.completed,
    {
        self.completed
    }
}

/// A delay starts at most one timer, on its first poll, and that timer runs
/// for the delay's seconds: any later poll starts none.
pub proof fn lemma_only_first_poll_starts_timer(seconds: u64)
    ensures
        delay_poll_spec(DelayView { seconds, started: false, completed: false }).1.start_timer == Some(
            seconds,
        ),
        forall|d: DelayView| #[trigger] delay_poll_spec(delay_poll_spec(d).0).1.start_timer is None,
        forall|d: DelayView| #[trigger] delay_poll_spec(d).0.seconds == d.seconds,
{
}

/// A delay is pending until its timer fires and ready from then on: a fresh
/// delay's polls are pending, and every poll after the timer fired is ready.
pub proof fn lemma_ready_exactly_after_timer_fires(d: DelayView, seconds: u64)
    ensures
        !delay_poll_spec(DelayView { seconds, started: false, completed: false }).1.ready,
        !delay_poll_spec(delay_poll_spec(DelayView { seconds, started: false, completed: false }).0).1.ready,
        delay_poll_spec(delay_complete_spec(d)).1.ready,
        delay_poll_spec(delay_poll_spec(delay_complete_spec(d)).0).1.ready,
{
}

/// `n` polls of a delay in a row.
pub open spec fn polls(d: DelayView, n: nat) -> DelayView
    decreases n,
{
    if n == 0 {
        d
    } else {
        delay_poll_spec(polls(d, (n - 1) as nat)).0
    }
}

/// A poll never makes the timer fire: it keeps whether the timer has fired
/// and the delay's seconds, leaves the timer started, and answers ready
/// exactly when the timer had fired before the poll. It starts a timer for
/// the delay's seconds exactly when none was started.
pub proof fn lemma_poll_does_not_fire_timer(d: DelayView)
    ensures
        delay_poll_spec(d).0.completed == d.completed,
        delay_poll_spec(d).0.seconds == d.seconds,
        delay_poll_spec(d).0.started,
        delay_poll_spec(d).1.ready == d.completed,
        delay_poll_spec(d).1.start_timer is Some <==> !d.started,
        delay_poll_spec(d).1.start_timer is Some ==> delay_poll_spec(d).1.start_timer == Some(d.seconds),
{
}

/// However many times a delay is polled, it is not ready until its timer
/// fires, and no poll after the first starts another timer.
pub proof fn lemma_never_ready_before_timer_fires(d: DelayView, n: nat)
    requires
        !d.completed,
    ensures
        !polls(d, n).completed,
        !delay_poll_spec(polls(d, n)).1.ready,
        n > 0 ==> delay_poll_spec(polls(d, n)).1.start_timer is None,
    decreases n,
{
    if n > 0 {
        lemma_never_ready_before_timer_fires(d, (n - 1) as nat);
    }
}

/// The timer firing makes the delay ready and changes nothing else.
pub proof fn lemma_complete_only_fires(d: DelayView)
    ensures
        delay_complete_spec(d).completed,
        delay_complete_spec(d).started == d.started,
        delay_complete_spec(d).seconds == d.seconds,
{
}

} // verus!
