//! Lock poisoning.
//!
//! A lock is poisoned when one of its guards is released while the thread
//! that releases it is unwinding from a panic: the value behind the lock may
//! then have been left half-changed. A poisoned lock still grants access, but
//! says so, and it stays poisoned.

use vstd::prelude::*;

verus! {

/// Whether a lock is poisoned.
#[derive(Debug)]
pub struct Flag {
    failed: bool,
}

impl View for Flag {
    type V = bool;

    /// `true` when the lock is poisoned.
    closed spec fn view(&self) -> bool {
        self.failed
    }
}

/// What an acquisition leaves with the guard it hands out, to be shown again
/// when that guard is released.
#[derive(Debug)]
pub struct Guard {}

/// Something that happens to a lock, as far as poisoning is concerned.
pub enum Event {
    /// A guard is handed out.
    Acquire,
    /// A guard is released. `unwinding` says whether the thread that releases
    /// it is unwinding from a panic at that moment.
    Release { unwinding: bool },
}

/// Whether a lock is poisoned after `event`, given whether it was before.
pub open spec fn poisoned_after(poisoned: bool, event: Event) -> bool {
    match event {
        Event::Acquire => poisoned,
        Event::Release { unwinding } => poisoned || unwinding,
    }
}

/// Whether a lock is poisoned after all of `events`, in their order, given
/// whether it was before the first.
pub open spec fn poisoned_after_all(poisoned: bool, events: Seq<Event>) -> bool
    decreases events.len(),
{
    if events.len() == 0 {
        poisoned
    } else {
        poisoned_after(poisoned_after_all(poisoned, events.drop_last()), events.last())
    }
}

/// What an acquisition hands out: the guard, inside an error when the lock is
/// poisoned.
pub open spec fn lock_result<G>(poisoned: bool, guard: G) -> LockResult<G> {
    if poisoned {
        Err(PoisonError::spec_new(guard))
    } else {
        Ok(guard)
    }
}

/// Whether `granted` is what a blocking acquisition comes to when the
/// platform answered `outcome`, on a lock that is poisoned or not: a stop on
/// `failure` if the platform failed, else a guard, inside an error if and
/// only if the lock is poisoned.
pub open spec fn spec_acquired<E, G, F>(
    outcome: Result<(), E>,
    poisoned: bool,
    failure: F,
    granted: Result<LockResult<G>, F>,
) -> bool {
    match outcome {
        Err(_) => granted == Err::<LockResult<G>, F>(failure),
        Ok(()) => granted matches Ok(result) && (result is Err <==> poisoned),
    }
}

/// Whether `granted` is what a non-blocking acquisition comes to when the
/// platform answered `outcome`, on a lock that is poisoned or not: a stop on
/// `failure` if the platform failed, `WouldBlock` if the lock is held
/// elsewhere, else a guard, inside `Poisoned` if and only if the lock is
/// poisoned.
pub open spec fn spec_try_acquired<E, G, F>(
    outcome: Result<bool, E>,
    poisoned: bool,
    failure: F,
    granted: Result<TryLockResult<G>, F>,
) -> bool {
    match outcome {
        Err(_) => granted == Err::<TryLockResult<G>, F>(failure),
        Ok(false) => granted matches Ok(Err(TryLockError::WouldBlock)),
        Ok(true) => granted matches Ok(result) && if poisoned {
            result matches Err(TryLockError::Poisoned(_))
        } else {
            result is Ok
        },
    }
}

impl Flag {
    /// The flag of a new lock, which is not poisoned.
    pub fn new() -> (flag: Flag)
        ensures
            !flag@,
    {
        Flag { failed: false }
    }

    /// The flag of a lock whose state is `poisoned`, for callers that keep
    /// that state between operations in a form of their own, which threads
    /// can share.
    pub fn restore(poisoned: bool) -> (flag: Flag)
        ensures
            flag@ == poisoned,
    {
        Flag { failed: poisoned }
    }

    /// Whether the lock is poisoned.
    pub fn get(&self) -> (poisoned: bool)
        ensures
            poisoned == self@,
    {
        self.failed
    }

    /// Records an acquisition that was granted: a poisoned lock hands its
    /// guard out inside an error.
    pub fn guard(&self) -> (result: LockResult<Guard>)
        ensures
            result is Err <==> self@,
    {
        self.borrow(Guard {  })
    }

    /// Wraps a guard that is held: a poisoned lock hands it on inside an
    /// error.
    pub fn borrow<G>(&self, guard: G) -> (result: LockResult<G>)
        ensures
            result == lock_result(self@, guard),
    {
        if self.failed {
            Err(PoisonError::new(guard))
        } else {
            Ok(guard)
        }
    }

    /// Records the release of a guard. `panicking` says whether the thread
    /// that releases it is unwinding.
    pub fn done(&mut self, guard: &Guard, panicking: bool)
        ensures
            final(self)@ == poisoned_after(old(self)@, Event::Release { unwinding: panicking }),
    {
        if panicking {
            self.failed = true;
        }
    }
}

/// A type of error which can be returned whenever a lock is acquired.
///
/// It carries the guard that was asked for: the lock was granted, and the
/// caller decides whether to trust what it protects.
#[derive(Debug)]
pub struct PoisonError<G> {
    /// The guard of the poisoned lock.
    pub guard: G,
}

/// A type alias for the result of a lock method which can be poisoned.
pub type LockResult<G> = Result<G, PoisonError<G>>;

/// An enumeration of possible errors associated with a [`TryLockResult`].
#[derive(Debug)]
pub enum TryLockError<G> {
    /// The lock could not be acquired because another thread failed while
    /// holding the lock.
    Poisoned(PoisonError<G>),
    /// The lock could not be acquired at this time because the operation
    /// would otherwise block.
    WouldBlock,
}

/// A type alias for the result of a nonblocking locking method.
pub type TryLockResult<G> = Result<G, TryLockError<G>>;

impl<G> PoisonError<G> {
    /// The error that carries `guard`.
    pub open spec fn spec_new(guard: G) -> PoisonError<G> {
        PoisonError { guard }
    }

    /// Creates a `PoisonError`.
    pub fn new(guard: G) -> (error: PoisonError<G>)
        ensures
            error == Self::spec_new(guard),
    {
        PoisonError { guard }
    }

    /// Consumes this error indicating that a lock is poisoned, returning the
    /// underlying guard to allow access regardless.
    pub fn into_inner(self) -> (guard: G)
        ensures
            guard == self.guard,
    {
        self.guard
    }

    /// Reaches into this error indicating that a lock is poisoned, returning
    /// a reference to the underlying guard to allow access regardless.
    pub fn get_ref(&self) -> (guard: &G)
        ensures
            *guard == self.guard,
    {
        &self.guard
    }

    /// Reaches into this error indicating that a lock is poisoned, returning
    /// a mutable reference to the underlying guard to allow access
    /// regardless.
    pub fn get_mut(&mut self) -> (guard: &mut G)
        ensures
            *guard == old(self).guard,
            final(self).guard == *final(guard),
    {
        &mut self.guard
    }
}

/// What [`TryLockError::from`] makes of a poison error.
pub open spec fn try_lock_error<G>(error: PoisonError<G>) -> TryLockError<G> {
    TryLockError::Poisoned(error)
}

impl<G> From<PoisonError<G>> for TryLockError<G> {
    fn from(error: PoisonError<G>) -> (converted: TryLockError<G>)
        ensures
            converted == try_lock_error(error),
    {
        TryLockError::Poisoned(error)
    }
}

impl<G> vstd::std_specs::convert::FromSpecImpl<PoisonError<G>> for TryLockError<G> {
    open spec fn obeys_from_spec() -> bool {
        true
    }

    open spec fn from_spec(error: PoisonError<G>) -> TryLockError<G> {
        try_lock_error(error)
    }
}

/// What [`map_result`] hands back when `f` turns `guard` into `mapped`.
pub open spec fn spec_map_result<T, U>(result: LockResult<T>, mapped: U) -> LockResult<U> {
    match result {
        Ok(_) => Ok(mapped),
        Err(_) => Err(PoisonError::spec_new(mapped)),
    }
}

/// The guard that a lock result carries, poisoned or not.
pub open spec fn guard_of<T>(result: LockResult<T>) -> T {
    match result {
        Ok(guard) => guard,
        Err(error) => error.guard,
    }
}

/// Applies `f` to the guard of a lock result, poisoned or not, and keeps the
/// result poisoned if it was.
pub fn map_result<T, U, F>(result: LockResult<T>, f: F) -> (mapped: LockResult<U>) where
    F: FnOnce(T) -> U,

    requires
        call_requires(f, (guard_of(result),)),
    ensures
        call_ensures(f, (guard_of(result),), guard_of(mapped)),
        mapped == spec_map_result(result, guard_of(mapped)),
{
    match result {
        Ok(guard) => Ok(f(guard)),
        Err(error) => Err(PoisonError::new(f(error.into_inner()))),
    }
}

/// A lock that no guard was released from during an unwind is not poisoned,
/// however often it was acquired and released.
pub proof fn lemma_no_panic_no_poison(events: Seq<Event>)
    requires
        forall|i: int|
            0 <= i < events.len() ==> events[i] != (Event::Release { unwinding: true }),
    ensures
        !poisoned_after_all(false, events),
    decreases events.len(),
{
    if events.len() > 0 {
        let earlier = events.drop_last();
        assert forall|i: int| 0 <= i < earlier.len() implies earlier[i] != (Event::Release {
            unwinding: true,
        }) by {
            assert(earlier[i] == events[i]);
        }
        lemma_no_panic_no_poison(earlier);
    }
}

/// A poisoned lock stays poisoned, whatever happens to it afterwards.
pub proof fn lemma_poison_is_permanent(events: Seq<Event>)
    ensures
        poisoned_after_all(true, events),
    decreases events.len(),
{
    if events.len() > 0 {
        lemma_poison_is_permanent(events.drop_last());
    }
}

/// Once a guard was released during an unwind the lock is poisoned, whether
/// or not it was before and whatever happened to it since.
pub proof fn lemma_unwinding_release_poisons(poisoned: bool, events: Seq<Event>, at: int)
    requires
        0 <= at < events.len(),
        events[at] == (Event::Release { unwinding: true }),
    ensures
        poisoned_after_all(poisoned, events),
    decreases events.len(),
{
    let earlier = events.drop_last();
    if at < earlier.len() {
        assert(earlier[at] == events[at]);
        lemma_unwinding_release_poisons(poisoned, earlier, at);
    }
}

} // verus!
