//! Reentrancy guard for finance paths that call out to token contracts.
//!
//! The guard is a flag in temporary storage: held while a guarded call runs, released afterwards.
//! Acquiring a held lock aborts the whole call with `ReentrancyDetected`, so acquiring requires
//! the lock to be free.
use vstd::prelude::*;
use crate::env::{Env, EnvView};
use crate::types::ContractError;

verus! {

/// Acquires the reentrancy lock, which must not be held.
pub fn lock(env: &mut Env)
    requires
        !old(env)@.reentrancy_locked,
    ensures
        final(env)@ == (EnvView { reentrancy_locked: true, ..old(env)@ }),
{
    env.reentrancy_locked = true;
}

/// Releases the lock; releasing a lock that is not held changes nothing.
pub fn unlock(env: &mut Env)
    ensures
        final(env)@ == (EnvView { reentrancy_locked: false, ..old(env)@ }),
{
    env.reentrancy_locked = false;
}

/// Runs `f` once while holding the reentrancy lock and returns what it returned, releasing the
/// lock on success and on error alike. The lock must not be held.
pub fn with_non_reentrant<T, F>(env: &mut Env, f: F) -> (r: Result<T, ContractError>)
    where
        F: FnOnce() -> Result<T, ContractError>,
    requires
        !old(env)@.reentrancy_locked,
        call_requires(f, ()),
    ensures
        call_ensures(f, (), r),
        final(env)@ == old(env)@,
{
    lock(env);
    let result = f();
    unlock(env);
    result
}

} // verus!
