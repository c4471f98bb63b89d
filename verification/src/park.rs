use vstd::prelude::*;

verus! {

/// The wake-up token behind a parked thread.
///
/// A thread that parks waits until the token is present and then consumes
/// it; an unpark makes the token present. Tokens do not accumulate: any
/// number of unparks before a park let exactly one park through.
pub struct Park {
    runnable: bool,
}

/// One attempt to get past a park, on a token that is present or not:
/// whether the caller goes on, and whether a token is present afterwards.
pub open spec fn park_spec(runnable: bool) -> (bool, bool) {
    (runnable, false)
}

/// An unpark: the token is present afterwards.
pub open spec fn unpark_spec(runnable: bool) -> bool {
    true
}

impl View for Park {
    type V = bool;

    /// Whether the wake-up token is present.
    closed spec fn view(&self) -> bool {
        self.runnable
    }
}

impl Park {
    /// Whether a wake-up token is present.
    pub fn runnable(&self) -> (r: bool)
        ensures
            r == self@,
    {
        self.runnable
    }

    /// One attempt to get past a park: when a token is present it is consumed
    /// and `true` is returned (the caller goes on); otherwise nothing changes
    /// and `false` is returned (the caller waits for an unpark and tries
    /// again).
    pub fn park(&mut self) -> (proceed: bool)
        ensures
            (proceed, final(self)@) == park_spec(old(self)@),
    {
        let proceed = self.runnable;
        self.runnable = false;
        proceed
    }

    /// Makes the wake-up token present.
    pub fn unpark(&mut self)
        ensures
            final(self)@ == unpark_spec(old(self)@),
    {
        self.runnable = true;
    }
}

/// A park with no token present: the first park waits for an unpark.
pub fn new_park() -> (p: Park)
    ensures
        !p@,
{
    Park { runnable: false }
}

/// An unpark lets the next park through, whether the unpark came before the
/// park or while it waited, and that park consumes the token.
pub proof fn lemma_unpark_lets_next_park_through(runnable: bool)
    ensures
        park_spec(unpark_spec(runnable)) == (true, false),
{
}

/// A park without a token changes nothing and makes the caller wait.
pub proof fn lemma_park_without_token_waits(runnable: bool)
    requires
        !runnable,
    ensures
        park_spec(runnable) == (false, runnable),
{
}

/// Wake-ups do not accumulate: after any number of unparks only one park
/// gets through, and the next one waits.
pub proof fn lemma_unparks_do_not_accumulate(runnable: bool)
    ensures
        unpark_spec(unpark_spec(runnable)) == unpark_spec(runnable),
        park_spec(park_spec(unpark_spec(unpark_spec(runnable))).1).0 == false,
{
}

/// A park goes on exactly when a token was present and never leaves one
/// behind; an unpark always leaves one, whatever was there.
pub proof fn lemma_park_consumes_token(runnable: bool)
    ensures
        park_spec(runnable).0 == runnable,
        !park_spec(runnable).1,
        unpark_spec(runnable),
{
}

} // verus!
