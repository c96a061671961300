//! A condition variable for guards of a [`Mutex`].
//!
//! [`Condvar`] is the part of a condition variable that decides. The
//! platform condition variable blocks and wakes the threads; an operation
//! here takes what the platform answered and says what the caller gets.
//!
//! There is no wait with a timeout: an enclave has no timer it can trust.

use crate::sync::mutex::Mutex;
use crate::sync::poison::{lock_result, LockResult, PoisonError};
use crate::sync::sys::locks as sys;
use crate::sync::sys::locks::{spec_settled, CondvarError, InvalidState};
use vstd::prelude::*;

verus! {

/// A Condition Variable
///
/// Condition variables represent the ability to block a thread such that it
/// consumes no CPU time while waiting for an event to occur. Condition
/// variables are typically associated with a boolean predicate (a condition)
/// and a mutex. The predicate is always verified inside of the mutex before
/// determining that a thread must block.
///
/// A condition variable does not remember which mutex it was last waited on
/// with. To wait on one condition variable with two mutexes at overlapping
/// times is a misuse, which the platform may report as a failure of state.
#[derive(Debug)]
pub struct Condvar {
    inner: sys::Condvar,
}

/// What a thread inside [`Condvar::wait_while`] is to do next.
#[derive(Debug)]
pub enum WaitWhile<G> {
    /// Evaluate the condition on what the guard protects, and report it to
    /// [`Condvar::wait_while`].
    Check(G),
    /// Wait on the condition variable with the guard, and report what came
    /// back to [`Condvar::wait_while_woken`].
    Wait(G),
    /// Return this.
    Return(LockResult<G>),
}

/// What [`Condvar::wait`] comes to when the platform answered `outcome` and
/// the mutex of `guard` is poisoned or not.
pub open spec fn spec_wait<G>(
    guard: G,
    poisoned: bool,
    outcome: Result<(), CondvarError>,
) -> Result<LockResult<G>, InvalidState> {
    match outcome {
        Ok(()) => Ok(lock_result(poisoned, guard)),
        Err(_) => Err(InvalidState::CondvarWait),
    }
}

/// The step after the condition was evaluated on what `guard` protects:
/// to wait while it holds, to return the guard once it does not.
pub open spec fn spec_wait_while<G>(guard: G, pending: bool) -> WaitWhile<G> {
    if pending {
        WaitWhile::Wait(guard)
    } else {
        WaitWhile::Return(Ok(guard))
    }
}

/// The step after a wait came back: to evaluate the condition again, or, if
/// the mutex was found poisoned, to return that error.
pub open spec fn spec_wait_while_woken<G>(waited: LockResult<G>) -> WaitWhile<G> {
    match waited {
        Ok(guard) => WaitWhile::Check(guard),
        Err(error) => WaitWhile::Return(Err(error)),
    }
}

impl Condvar {
    /// Creates a new condition variable which is ready to be waited on and
    /// notified.
    #[must_use]
    pub fn new() -> Condvar {
        Condvar { inner: sys::Condvar::new() }
    }

    /// The end of a wait for a notification. `guard` is the guard that was
    /// waited with, `mutex` the mutex it is a guard of, and `outcome` what
    /// the platform answered to the wait call.
    ///
    /// That call unlocked the mutex and blocked the thread in one step. Any
    /// notification after that step was a candidate to wake the thread up,
    /// and so was a spurious wake-up: callers check their predicate each time
    /// this returns. When the call returned, the mutex was locked again.
    ///
    /// # Errors
    ///
    /// If the mutex is poisoned when the thread has it back, the guard comes
    /// inside an error, as it would from [`Mutex::lock`].
    ///
    /// If the platform reported a failure, so does this call. Waiting with a
    /// mutex that the thread does not hold is such a failure.
    pub fn wait<G>(&self, guard: G, mutex: &Mutex, outcome: Result<(), CondvarError>) -> (woken:
        Result<LockResult<G>, InvalidState>)
        ensures
            woken == spec_wait(guard, mutex.poisoned(), outcome),
    {
        match self.inner.wait(outcome) {
            Ok(()) => Ok(mutex.borrow(guard)),
            Err(failure) => Err(failure),
        }
    }

    /// One turn of waiting until a condition is false. `pending` is what the
    /// condition said of the value that `guard` protects.
    ///
    /// The loop starts here, with the condition evaluated on the guard that
    /// was passed in. As long as the step is [`WaitWhile::Wait`], the caller
    /// waits with the guard and hands what comes back to
    /// [`Condvar::wait_while_woken`]; as long as that is
    /// [`WaitWhile::Check`], the caller evaluates the condition again and
    /// comes back here.
    pub fn wait_while<G>(&self, guard: G, pending: bool) -> (step: WaitWhile<G>)
        ensures
            step == spec_wait_while(guard, pending),
    {
        if pending {
            WaitWhile::Wait(guard)
        } else {
            WaitWhile::Return(Ok(guard))
        }
    }

    /// The turn of [`Condvar::wait_while`] after a wait. `waited` is what
    /// [`Condvar::wait`] handed back.
    pub fn wait_while_woken<G>(&self, waited: LockResult<G>) -> (step: WaitWhile<G>)
        ensures
            step == spec_wait_while_woken(waited),
    {
        match waited {
            Ok(guard) => WaitWhile::Check(guard),
            Err(error) => WaitWhile::Return(Err(error)),
        }
    }

    /// Wakes up one blocked thread on this condvar. `outcome` is what the
    /// platform answered to the call.
    ///
    /// If there is a blocked thread on this condition variable, then it will
    /// be woken up from its wait. Calls to `notify_one` are not buffered in
    /// any way: with no thread waiting, nothing happens.
    pub fn notify_one(&self, outcome: Result<(), CondvarError>) -> (settled: Result<
        (),
        InvalidState,
    >)
        ensures
            settled == spec_settled(outcome, InvalidState::CondvarNotify),
    {
        self.inner.notify_one(outcome)
    }

    /// Wakes up all blocked threads on this condvar. `outcome` is what the
    /// platform answered to the call.
    ///
    /// Calls to `notify_all()` are not buffered in any way: with no thread
    /// waiting, nothing happens.
    pub fn notify_all(&self, outcome: Result<(), CondvarError>) -> (settled: Result<
        (),
        InvalidState,
    >)
        ensures
            settled == spec_settled(outcome, InvalidState::CondvarNotify),
    {
        self.inner.notify_all(outcome)
    }
}

impl Default for Condvar {
    /// Creates a `Condvar` which is ready to be waited on and notified.
    fn default() -> Condvar {
        Condvar::new()
    }
}

/// What a thread inside [`Condvar::wait_while`] meets on one turn.
pub struct Turn<G> {
    /// What the condition says, if the thread looks at it on this turn.
    pub pending: bool,
    /// What the wait hands back, if the thread waits on this turn.
    pub waited: LockResult<G>,
}

/// The step that follows `step` on a turn. A thread that has returned stays
/// where it is.
pub open spec fn spec_turn<G>(step: WaitWhile<G>, turn: Turn<G>) -> WaitWhile<G> {
    match step {
        WaitWhile::Check(guard) => spec_wait_while(guard, turn.pending),
        WaitWhile::Wait(_) => spec_wait_while_woken(turn.waited),
        WaitWhile::Return(result) => WaitWhile::Return(result),
    }
}

/// The step that a thread is at after all of `turns`, in their order, from
/// `step`.
pub open spec fn spec_turns<G>(step: WaitWhile<G>, turns: Seq<Turn<G>>) -> WaitWhile<G>
    decreases turns.len(),
{
    if turns.len() == 0 {
        step
    } else {
        spec_turn(spec_turns(step, turns.drop_last()), turns.last())
    }
}

/// A single turn hands the guard back unpoisoned only when the condition has
/// just been found false on it. A turn after a wait either returns the error
/// of that wait or asks for another look at the condition.
pub proof fn lemma_wait_while_turn<G>(guard: G, pending: bool, waited: LockResult<G>)
    ensures
        spec_wait_while(guard, pending) is Return <==> !pending,
        !pending ==> spec_wait_while(guard, pending) == WaitWhile::Return(Ok(guard)),
        spec_wait_while_woken(waited) is Return <==> waited is Err,
        !(spec_wait_while_woken(waited) matches WaitWhile::Return(Ok(_))),
{
}

/// However long a thread stays inside [`Condvar::wait_while`] and whatever
/// wakes it up, it comes out with an unpoisoned guard only from a look at the
/// condition that found it false, and with the guard that the condition was
/// looked at with.
pub proof fn lemma_wait_while_returns_when_false<G>(guard: G, turns: Seq<Turn<G>>) -> (last: int)
    requires
        spec_turns(WaitWhile::Check(guard), turns) matches WaitWhile::Return(Ok(_)),
    ensures
        0 <= last < turns.len(),
        spec_turns(WaitWhile::Check(guard), turns.take(last)) is Check,
        !turns[last].pending,
        spec_turns(WaitWhile::Check(guard), turns) == WaitWhile::Return(
            Ok::<G, PoisonError<G>>(
                spec_turns(WaitWhile::Check(guard), turns.take(last))->Check_0,
            ),
        ),
    decreases turns.len(),
{
    let start = WaitWhile::Check(guard);
    let earlier = turns.drop_last();
    assert(turns.take(turns.len() - 1) =~= earlier);
    match spec_turns(start, earlier) {
        WaitWhile::Check(_) => turns.len() - 1,
        WaitWhile::Wait(_) => 0,
        WaitWhile::Return(_) => {
            let last = lemma_wait_while_returns_when_false(guard, earlier);
            assert(earlier.take(last) =~= turns.take(last));
            last
        },
    }
}

} // verus!
