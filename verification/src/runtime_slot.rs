//! The process-wide slot that admits one OBS runtime at a time.
//!
//! libobs keeps process-global state, so only one runtime may exist at once. The slot
//! moves `Idle -> Starting -> Active -> ShuttingDown -> Idle`. The functions here are the
//! transitions; the caller keeps the state behind a mutex and, when told to, waits on a
//! condition variable until the slot changes.
use vstd::prelude::*;
use crate::error::ObsError;

verus! {

/// Where the process-wide runtime slot stands. `T` identifies the thread that owns an
/// active runtime.
#[derive(Debug, Clone, Copy, PartialEq, Eq)]
pub enum ObsRuntimeState<T> {
    Idle,
    Starting,
    Active(T),
    ShuttingDown,
}

/// What a reservation attempt tells its caller to do.
#[derive(Debug, Clone, Copy, PartialEq, Eq, Structural)]
pub enum ReserveStep {
    /// The slot is now reserved for the caller.
    Reserved,
    /// A runtime is shutting down: wait for the slot to change, then try again.
    WaitForShutdown,
}

/// The answer to a reservation attempt in state `s`.
pub open spec fn reserve_answer<T>(s: ObsRuntimeState<T>) -> Result<ReserveStep, ObsError> {
    match s {
        ObsRuntimeState::Idle => Ok(ReserveStep::Reserved),
        ObsRuntimeState::ShuttingDown => Ok(ReserveStep::WaitForShutdown),
        _ => Err(ObsError::ThreadFailure),
    }
}

/// The state after a reservation attempt in state `s`.
pub open spec fn reserve_next<T>(s: ObsRuntimeState<T>) -> ObsRuntimeState<T> {
    match s {
        ObsRuntimeState::Idle => ObsRuntimeState::Starting,
        _ => s,
    }
}

/// The state after a cancelled start in state `s`.
pub open spec fn cancel_next<T>(s: ObsRuntimeState<T>) -> ObsRuntimeState<T> {
    match s {
        ObsRuntimeState::Starting => ObsRuntimeState::Idle,
        _ => s,
    }
}

/// The state after the runtime thread `t` claims the slot in state `s`.
pub open spec fn activate_next<T>(s: ObsRuntimeState<T>, t: T) -> ObsRuntimeState<T> {
    match s {
        ObsRuntimeState::Starting => ObsRuntimeState::Active(t),
        _ => s,
    }
}

/// The state after shutdown begins in state `s`; a poisoned lock forces shutdown.
pub open spec fn shutdown_next<T>(s: ObsRuntimeState<T>, poisoned: bool) -> ObsRuntimeState<T> {
    if poisoned {
        ObsRuntimeState::ShuttingDown
    } else {
        match s {
            ObsRuntimeState::Active(_) => ObsRuntimeState::ShuttingDown,
            _ => s,
        }
    }
}

/// Tries to reserve the slot for a new runtime.
///
/// From `Idle` the slot becomes `Starting`; while a runtime shuts down the caller must
/// wait and retry; a runtime that is starting or active refuses the request.
pub fn reserve_runtime_slot<T: Copy>(state: &mut ObsRuntimeState<T>) -> (r: Result<ReserveStep, ObsError>)
    ensures
        r == reserve_answer(*old(state)),
        *final(state) == reserve_next(*old(state)),
{
    match *state {
        ObsRuntimeState::Idle => {
            *state = ObsRuntimeState::Starting;
            Ok(ReserveStep::Reserved)
        },
        ObsRuntimeState::ShuttingDown => Ok(ReserveStep::WaitForShutdown),
        ObsRuntimeState::Starting | ObsRuntimeState::Active(_) => Err(ObsError::ThreadFailure),
    }
}

/// Gives back a reservation whose runtime never started. Returns whether waiters must be
/// woken (the slot changed).
pub fn cancel_runtime_start<T: Copy>(state: &mut ObsRuntimeState<T>) -> (notify: bool)
    ensures
        *final(state) == cancel_next(*old(state)),
        notify == (*old(state) is Starting),
{
    match *state {
        ObsRuntimeState::Starting => {
            *state = ObsRuntimeState::Idle;
            true
        },
        _ => false,
    }
}

/// Hands a reserved slot to the runtime thread `thread`. Only a `Starting` slot can be
/// claimed.
pub fn activate_runtime_slot<T: Copy>(state: &mut ObsRuntimeState<T>, thread: T) -> (r: Result<(), ObsError>)
    ensures
        *final(state) == activate_next(*old(state), thread),
        (*old(state) is Starting) ==> r is Ok,
        !(*old(state) is Starting) ==> r == Err::<(), ObsError>(ObsError::ThreadFailure),
{
    match *state {
        ObsRuntimeState::Starting => {
            *state = ObsRuntimeState::Active(thread);
            Ok(())
        },
        _ => Err(ObsError::ThreadFailure),
    }
}

/// Marks an active runtime as shutting down. When the guarding lock was poisoned the
/// slot is marked as shutting down whatever it held.
pub fn begin_runtime_shutdown<T: Copy>(state: &mut ObsRuntimeState<T>, lock_poisoned: bool)
    ensures
        *final(state) == shutdown_next(*old(state), lock_poisoned),
{
    if lock_poisoned {
        *state = ObsRuntimeState::ShuttingDown;
    } else {
        match *state {
            ObsRuntimeState::Active(_) => {
                *state = ObsRuntimeState::ShuttingDown;
            },
            _ => {},
        }
    }
}

/// The state after the slot is released in state `s`: the slot is free again, unless
/// the guarding lock was poisoned, in which case nothing changes.
pub open spec fn release_next<T>(s: ObsRuntimeState<T>, poisoned: bool) -> ObsRuntimeState<T> {
    if poisoned {
        s
    } else {
        ObsRuntimeState::Idle
    }
}

/// Frees the slot after a runtime has shut down (or failed to start); waiters must be
/// woken afterwards. When the guarding lock was poisoned the slot cannot be touched: the
/// release fails and the state stays as it was.
pub fn release_runtime_slot<T: Copy>(state: &mut ObsRuntimeState<T>, lock_poisoned: bool) -> (r: Result<(), ObsError>)
    ensures
        *final(state) == release_next(*old(state), lock_poisoned),
        lock_poisoned ==> r == Err::<(), ObsError>(ObsError::MutexFailure),
        !lock_poisoned ==> r is Ok,
{
    if lock_poisoned {
        return Err(ObsError::MutexFailure);
    }
    *state = ObsRuntimeState::Idle;
    Ok(())
}

/// Only one runtime at a time: once a reservation succeeds, every further reservation is
/// refused while that runtime starts or runs, and none succeeds while it shuts down.
pub proof fn law_one_runtime_at_a_time<T>(s: ObsRuntimeState<T>, t: T)
    requires
        reserve_answer(s) == Ok::<ReserveStep, ObsError>(ReserveStep::Reserved),
    ensures
        reserve_answer(reserve_next(s)) == Err::<ReserveStep, ObsError>(ObsError::ThreadFailure),
        reserve_answer(activate_next(reserve_next(s), t)) == Err::<ReserveStep, ObsError>(
            ObsError::ThreadFailure,
        ),
        reserve_answer(shutdown_next(activate_next(reserve_next(s), t), false))
            == Ok::<ReserveStep, ObsError>(ReserveStep::WaitForShutdown),
{
}

/// Cancelling a start undoes the reservation that made it.
pub proof fn law_cancel_undoes_reserve<T>(s: ObsRuntimeState<T>)
    requires
        reserve_answer(s) == Ok::<ReserveStep, ObsError>(ReserveStep::Reserved),
    ensures
        cancel_next(reserve_next(s)) == s,
{
}

/// A full lifecycle (reserve, activate, shut down, release) leaves the slot free again,
/// so the next runtime can be reserved.
pub proof fn law_lifecycle_frees_the_slot<T>(t: T)
    ensures
        ({
            let started = activate_next(reserve_next(ObsRuntimeState::<T>::Idle), t);
            let stopping = shutdown_next(started, false);
            &&& started == ObsRuntimeState::Active(t)
            &&& stopping == ObsRuntimeState::<T>::ShuttingDown
            &&& release_next(stopping, false) == ObsRuntimeState::<T>::Idle
            &&& reserve_answer(release_next(stopping, false)) == Ok::<ReserveStep, ObsError>(
                ReserveStep::Reserved,
            )
        }),
{
}

/// A reservation waits, and changes nothing, while a runtime shuts down.
pub proof fn law_reserve_waits_during_shutdown<T>()
    ensures
        reserve_answer(ObsRuntimeState::<T>::ShuttingDown) == Ok::<ReserveStep, ObsError>(
            ReserveStep::WaitForShutdown,
        ),
        reserve_next(ObsRuntimeState::<T>::ShuttingDown) == ObsRuntimeState::<T>::ShuttingDown,
{
}

/// Only a reserved slot can be claimed by a runtime thread; in any other state the slot
/// is left unchanged.
pub proof fn law_activate_needs_reservation<T>(s: ObsRuntimeState<T>, t: T)
    ensures
        !(s is Starting) ==> activate_next(s, t) == s,
        (s is Starting) ==> activate_next(s, t) == ObsRuntimeState::Active(t),
{
}

} // verus!
