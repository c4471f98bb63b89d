use vstd::prelude::*;

verus! {

/// What a socket operation that may block does after one attempt.
pub enum IoStep<V, E> {
    /// The operation is over with this result.
    Return(Result<V, E>),
    /// The socket was not ready: wait until the reactor reports it ready,
    /// then try again.
    AwaitReadiness,
}

/// An attempt is a would-block error exactly when it failed and the error
/// says the socket was not ready.
pub open spec fn is_would_block<V, E>(attempt: Result<V, E>, would_block: bool) -> bool {
    attempt is Err && would_block
}

/// The decision after one attempt: a would-block error means waiting for
/// readiness; any other outcome, success or error, ends the operation.
pub open spec fn io_step_spec<V, E>(attempt: Result<V, E>, would_block: bool) -> IoStep<V, E> {
    if is_would_block(attempt, would_block) {
        IoStep::AwaitReadiness
    } else {
        IoStep::Return(attempt)
    }
}

/// The decision of a sending or receiving loop after one attempt on a
/// non-blocking socket; `would_block` says whether an error was the socket's
/// "would block".
pub fn io_step<V, E>(attempt: Result<V, E>, would_block: bool) -> (step: IoStep<V, E>)
    ensures
        step == io_step_spec(attempt, would_block),
{
    match attempt {
        Ok(v) => IoStep::Return(Ok(v)),
        Err(e) => {
            if would_block {
                IoStep::AwaitReadiness
            } else {
                IoStep::Return(Err(e))
            }
        },
    }
}

/// The result of the loop over a run of attempts, each followed by the
/// decision of `io_step`: the result it returns, or `None` when every
/// attempt of the run said to wait.
pub open spec fn io_loop_spec<V, E>(attempts: Seq<(Result<V, E>, bool)>) -> Option<Result<V, E>>
    decreases attempts.len(),
{
    if attempts.len() == 0 {
        None
    } else {
        match io_step_spec(attempts[0].0, attempts[0].1) {
            IoStep::Return(r) => Some(r),
            IoStep::AwaitReadiness => io_loop_spec(attempts.drop_first()),
        }
    }
}

/// A sending or receiving loop returns the first attempt that is not a
/// would-block error, whatever came after it, and keeps waiting as long as
/// every attempt would block.
pub proof fn lemma_loop_returns_first_non_blocking<V, E>(attempts: Seq<(Result<V, E>, bool)>, i: int)
    requires
        0 <= i < attempts.len(),
        !is_would_block(attempts[i].0, attempts[i].1),
        forall|j: int| 0 <= j < i ==> #[trigger] is_would_block(attempts[j].0, attempts[j].1),
    ensures
        io_loop_spec(attempts) == Some(attempts[i].0),
    decreases i,
{
    if i > 0 {
        let rest = attempts.drop_first();
        assert(is_would_block(attempts[0].0, attempts[0].1));
        assert forall|j: int| 0 <= j < i - 1 implies #[trigger] is_would_block(rest[j].0, rest[j].1) by {
            assert(rest[j] == attempts[j + 1]);
            assert(is_would_block(attempts[j + 1].0, attempts[j + 1].1));
        }
        lemma_loop_returns_first_non_blocking(rest, i - 1);
    }
}

/// After one attempt, a success always ends the operation with that
/// success, an error that would block always waits, and any other error
/// ends the operation with that error.
pub proof fn lemma_io_step_outcomes<V, E>(attempt: Result<V, E>, would_block: bool)
    ensures
        attempt is Ok ==> io_step_spec(attempt, would_block) == IoStep::<V, E>::Return(attempt),
        attempt is Err && would_block ==> io_step_spec(attempt, would_block) is AwaitReadiness,
        attempt is Err && !would_block ==> io_step_spec(attempt, would_block) == IoStep::<V, E>::Return(attempt),
{
}

} // verus!
