//! A cache for what the sandbox reports about itself.
//!
//! Each cached operation has a slot of its own. A slot holds the last
//! value that the operation gave and the time at which it was stored, and
//! hands that value out for as long as it is fresh. Time is what the
//! caller's clock says it is: every operation is handed a clock, an
//! operation that gives the current reading, and reads it when it judges an
//! entry and again when it stores a new value.

use vstd::prelude::*;
use crate::error::Error;
use crate::sandbox;
use crate::sandbox::{Channel, CrateInformation, Version};

verus! {

/// Nanoseconds in a second.
pub const NANOS_PER_SECOND: u64 = 1_000_000_000;

/// For how long a cached value is handed out, in seconds.
pub const SANDBOX_CACHE_TIME_TO_LIVE_IN_SECONDS: u64 = 60 * 60;

/// For how long a cached value is handed out, in nanoseconds.
pub const SANDBOX_CACHE_TIME_TO_LIVE_IN_NANOS: u64 = SANDBOX_CACHE_TIME_TO_LIVE_IN_SECONDS
    * NANOS_PER_SECOND;

/// A reading of a monotonic clock: nanoseconds since the clock's origin.
#[derive(Debug, Clone, Copy, PartialEq, Eq, Structural, PartialOrd, Ord)]
pub struct Timestamp {
    nanos: u64,
}

impl Timestamp {
    /// Nanoseconds since the clock's origin.
    pub closed spec fn as_nanos(self) -> nat {
        self.nanos as nat
    }

    /// The reading `nanos` nanoseconds after the clock's origin.
    pub fn from_nanos(nanos: u64) -> (time: Timestamp)
        ensures
            time.as_nanos() == nanos,
    {
        Timestamp { nanos }
    }

    /// The reading `secs` seconds after the clock's origin, or the last
    /// reading that the clock can give if that is earlier.
    pub fn from_secs(secs: u64) -> (time: Timestamp)
        ensures
            time.as_nanos() == if secs * NANOS_PER_SECOND <= u64::MAX {
                secs * NANOS_PER_SECOND
            } else {
                u64::MAX as int
            },
    {
        if secs <= u64::MAX / NANOS_PER_SECOND {
            assert(secs * NANOS_PER_SECOND <= u64::MAX) by (nonlinear_arith)
                requires
                    secs <= u64::MAX / NANOS_PER_SECOND,
                    NANOS_PER_SECOND == 1_000_000_000,
            ;
            Timestamp { nanos: secs * NANOS_PER_SECOND }
        } else {
            assert(secs * NANOS_PER_SECOND > u64::MAX) by (nonlinear_arith)
                requires
                    secs > u64::MAX / NANOS_PER_SECOND,
                    NANOS_PER_SECOND == 1_000_000_000,
            ;
            Timestamp { nanos: u64::MAX }
        }
    }

    /// Nanoseconds since the clock's origin.
    pub fn nanos(&self) -> (nanos: u64)
        ensures
            nanos == self.as_nanos(),
    {
        self.nanos
    }

    /// How long after `earlier` this reading was taken, in nanoseconds; zero
    /// if it was not taken after it.
    pub open spec fn since(self, earlier: Timestamp) -> nat {
        if self.as_nanos() >= earlier.as_nanos() {
            (self.as_nanos() - earlier.as_nanos()) as nat
        } else {
            0
        }
    }

    /// How long after `earlier` this reading was taken, in nanoseconds; zero
    /// if it was not taken after it.
    pub fn elapsed_since(&self, earlier: &Timestamp) -> (elapsed: u64)
        ensures
            elapsed == self.since(*earlier),
    {
        if self.nanos >= earlier.nanos {
            self.nanos - earlier.nanos
        } else {
            0
        }
    }
}

/// A cached value and the time at which it was stored.
#[derive(Debug, Clone)]
pub struct SandboxCacheInfo<T> {
    pub value: T,
    pub time: Timestamp,
}

impl<T> SandboxCacheInfo<T> {
    /// Whether the value may still be handed out at `now`: no more than the
    /// time to live has passed since it was stored.
    pub open spec fn is_fresh(self, now: Timestamp) -> bool {
        now.since(self.time) <= SANDBOX_CACHE_TIME_TO_LIVE_IN_NANOS
    }

    /// Whether the value may still be handed out at `now`.
    pub fn fresh(&self, now: Timestamp) -> (fresh: bool)
        ensures
            fresh == self.is_fresh(now),
    {
        now.elapsed_since(&self.time) <= SANDBOX_CACHE_TIME_TO_LIVE_IN_NANOS
    }
}

/// What one call on a slot got from outside: the reading of the clock
/// by which it judged the entry, what the populator returned, and the
/// reading of the clock with which it stored the new value. Each is `None`
/// where the call did not ask.
pub struct Observed<T> {
    pub checked_at: Option<Timestamp>,
    pub invoked: Option<Result<T, sandbox::Error>>,
    pub stored_at: Option<Timestamp>,
}

impl<T> Observed<T> {
    /// Whether the call asked for nothing.
    pub open spec fn is_nothing(self) -> bool {
        self.checked_at is None && self.invoked is None && self.stored_at is None
    }

    /// Whether the readings of the clock are readings that `clock` can
    /// give, and what the populator returned is what `populator` can return.
    pub open spec fn came_from<K, F>(self, clock: K, populator: F) -> bool where
        K: Fn() -> Timestamp,
        F: FnOnce() -> Result<T, sandbox::Error>,
     {
        &&& self.read(clock)
        &&& self.invoked is Some ==> call_ensures(populator, (), self.invoked.unwrap())
    }

    /// Whether the readings of the clock are readings that `clock` can
    /// give.
    pub open spec fn read<K>(self, clock: K) -> bool where K: Fn() -> Timestamp {
        &&& self.checked_at is Some ==> call_ensures(clock, (), self.checked_at.unwrap())
        &&& self.stored_at is Some ==> call_ensures(clock, (), self.stored_at.unwrap())
    }
}

/// What a populator may have left behind: `outcome` is what it returned,
/// `stored_at` the reading of the clock that was taken after it returned a
/// value, `before` and `after` are the slot's entry around the call, and
/// `result` is what the caller gets.
///
/// A value is returned as it is and stored, as a clone, with the time
/// `stored_at` in place of what was there. A failure is returned as a
/// sandbox error and leaves the entry as it was; the clock is not read.
pub open spec fn populated<T: Clone>(
    before: Option<SandboxCacheInfo<T>>,
    outcome: Result<T, sandbox::Error>,
    stored_at: Option<Timestamp>,
    after: Option<SandboxCacheInfo<T>>,
    result: Result<T, Error>,
) -> bool {
    match outcome {
        Ok(value) => {
            &&& result == Ok::<T, Error>(value)
            &&& stored_at is Some
            &&& after is Some
            &&& after.unwrap().time == stored_at.unwrap()
            &&& cloned(value, after.unwrap().value)
        },
        Err(error) => {
            &&& result == Err::<T, Error>(Error::Sandbox(error))
            &&& stored_at is None
            &&& after == before
        },
    }
}

/// Caches the success value of a single operation.
#[derive(Debug)]
pub struct SandboxCacheOne<T> {
    entry: Option<SandboxCacheInfo<T>>,
    poisoned: bool,
}

impl<T: Clone> SandboxCacheOne<T> {
    /// The value held and the time at which it was stored, if any.
    pub closed spec fn entry(self) -> Option<SandboxCacheInfo<T>> {
        self.entry
    }

    /// Whether the slot has been declared unusable.
    pub closed spec fn is_poisoned(self) -> bool {
        self.poisoned
    }

    /// Whether a call that reads `now` from the clock is answered from the
    /// slot, without the populator: the slot is usable and holds a value
    /// that is fresh at `now`.
    pub open spec fn is_hit(self, now: Timestamp) -> bool {
        &&& !self.is_poisoned()
        &&& self.entry() is Some
        &&& self.entry().unwrap().is_fresh(now)
    }

    /// Whether a call with `clock` may invoke the populator: the slot is
    /// usable, and it is empty or the clock can give a reading at which
    /// what it holds is no longer fresh.
    pub open spec fn may_populate<K>(self, clock: K) -> bool where K: Fn() -> Timestamp {
        &&& !self.is_poisoned()
        &&& self.entry() is None || exists|now: Timestamp|
            #[trigger] call_ensures(clock, (), now) && !self.entry().unwrap().is_fresh(now)
    }

    /// How one call takes the slot from `self` to `after` and gives
    /// `result`, where `seen` is what the call got from outside.
    ///
    /// An unusable slot fails with `CachePoisoned`, stays as it is and asks
    /// for nothing. A slot that holds a value reads the clock; if the value
    /// is fresh at that reading, it is cloned and handed out, the slot
    /// stays as it is and the populator is not invoked. In every other case
    /// the populator is invoked, and [`populated`] says what follows.
    pub open spec fn answers(
        self,
        seen: Observed<T>,
        after: Self,
        result: Result<T, Error>,
    ) -> bool {
        if self.is_poisoned() {
            &&& seen.is_nothing()
            &&& after == self
            &&& result == Err::<T, Error>(Error::CachePoisoned)
        } else if self.entry() is Some && seen.checked_at is Some && self.is_hit(
            seen.checked_at.unwrap(),
        ) {
            &&& seen.invoked is None
            &&& seen.stored_at is None
            &&& after == self
            &&& result is Ok
            &&& cloned(self.entry().unwrap().value, result.unwrap())
        } else {
            &&& seen.checked_at is Some <==> self.entry() is Some
            &&& seen.invoked is Some
            &&& !after.is_poisoned()
            &&& populated(
                self.entry(),
                seen.invoked.unwrap(),
                seen.stored_at,
                after.entry(),
                result,
            )
        }
    }

    /// An empty, usable slot.
    pub fn new() -> (slot: Self)
        ensures
            slot.entry() is None,
            !slot.is_poisoned(),
    {
        SandboxCacheOne { entry: None, poisoned: false }
    }

    /// Declares the slot unusable, for good: from now on every call fails.
    /// What the slot holds is kept but never handed out again.
    pub fn poison(&mut self)
        ensures
            final(self).is_poisoned(),
            final(self).entry() == old(self).entry(),
    {
        self.poisoned = true;
    }

    /// Whether the slot has been declared unusable.
    pub fn poisoned(&self) -> (poisoned: bool)
        ensures
            poisoned == self.is_poisoned(),
    {
        self.poisoned
    }

    /// Hands out the cached value if the slot holds one that is fresh by
    /// the clock, and otherwise asks `populator` for a new value, stores it
    /// with the time that the clock gives then, and hands it out.
    ///
    /// The populator is invoked only where the slot may need population,
    /// and only there does it have to be callable.
    pub fn clone_or_populate<K, F>(&mut self, clock: &K, populator: F) -> (result: Result<
        T,
        Error,
    >) where K: Fn() -> Timestamp, F: FnOnce() -> Result<T, sandbox::Error>
        requires
            call_requires(*clock, ()),
            old(self).may_populate(*clock) ==> call_requires(populator, ()),
        ensures
            exists|seen: Observed<T>|
                {
                    &&& seen.came_from(*clock, populator)
                    &&& #[trigger] old(self).answers(seen, *final(self), result)
                },
    {
        if self.poisoned {
            let ghost seen = Observed::<T> { checked_at: None, invoked: None, stored_at: None };
            assert(self.answers(seen, *self, Err::<T, Error>(Error::CachePoisoned)));
            return Err(Error::CachePoisoned);
        }
        let ghost checked_at: Option<Timestamp> = None;
        let fresh = match &self.entry {
            Some(cached) => {
                let now = clock();
                proof {
                    checked_at = Some(now);
                }
                if cached.fresh(now) {
                    Some(cached.value.clone())
                } else {
                    None
                }
            },
            None => None,
        };
        match fresh {
            Some(value) => {
                let ghost seen = Observed::<T> { checked_at, invoked: None, stored_at: None };
                assert(self.answers(seen, *self, Ok::<T, Error>(value)));
                Ok(value)
            },
            None => {
                let ghost before = *self;
                let result = Self::populate(&mut self.entry, clock, populator);
                proof {
                    let (outcome, stored_at) = choose|
                        outcome: Result<T, sandbox::Error>,
                        stored_at: Option<Timestamp>,
                    |
                        {
                            &&& call_ensures(populator, (), outcome)
                            &&& stored_at is Some ==> call_ensures(*clock, (), stored_at.unwrap())
                            &&& #[trigger] populated(
                                before.entry,
                                outcome,
                                stored_at,
                                self.entry,
                                result,
                            )
                        };
                    let seen = Observed::<T> { checked_at, invoked: Some(outcome), stored_at };
                    assert(before.answers(seen, *self, result));
                }
                result
            },
        }
    }

    /// Asks `populator` for a value. On success the clock is read, the value
    /// is stored in `cache`, as a clone and with that reading, and
    /// returned. On failure `cache` is left as it is and the failure is
    /// returned as a sandbox error.
    pub fn populate<K, F>(
        cache: &mut Option<SandboxCacheInfo<T>>,
        clock: &K,
        populator: F,
    ) -> (result: Result<T, Error>) where
        K: Fn() -> Timestamp,
        F: FnOnce() -> Result<T, sandbox::Error>,

        requires
            call_requires(*clock, ()),
            call_requires(populator, ()),
        ensures
            exists|outcome: Result<T, sandbox::Error>, stored_at: Option<Timestamp>|
                {
                    &&& call_ensures(populator, (), outcome)
                    &&& stored_at is Some ==> call_ensures(*clock, (), stored_at.unwrap())
                    &&& #[trigger] populated(*old(cache), outcome, stored_at, *final(cache), result)
                },
    {
        let outcome = populator();
        let ghost returned = outcome;
        let ghost stored_at: Option<Timestamp> = None;
        let result = match outcome {
            Ok(value) => {
                let time = clock();
                proof {
                    stored_at = Some(time);
                }
                *cache = Some(SandboxCacheInfo { value: value.clone(), time });
                Ok(value)
            },
            Err(error) => Err(Error::Sandbox(error)),
        };
        assert(populated(*old(cache), returned, stored_at, *cache, result));
        result
    }
}

/// A slot that was empty is filled by its first call, serves the calls
/// that follow within the time to live from what it holds, and is filled
/// anew by the first call after that.
///
/// The first call on an empty, usable slot invokes the populator, and
/// where that succeeds it returns the populator's value and stores a clone
/// of it with the reading of the clock taken then. A second call, which
/// reads the clock no later than the time to live after that, does not
/// invoke the populator, leaves the slot as it is and returns a clone of
/// what is stored; for a type whose clones equal what they were cloned
/// from, that is the value of the first call. A third call, which reads the
/// clock later than the time to live after the value was stored, invokes
/// the populator again, and where that succeeds its value replaces the
/// stored one.
pub proof fn law_time_to_live<T: Clone>(
    empty: SandboxCacheOne<T>,
    first: Observed<T>,
    filled: SandboxCacheOne<T>,
    first_result: Result<T, Error>,
    second: Observed<T>,
    kept: SandboxCacheOne<T>,
    second_result: Result<T, Error>,
    third: Observed<T>,
    refilled: SandboxCacheOne<T>,
    third_result: Result<T, Error>,
)
    requires
        empty.entry() is None,
        !empty.is_poisoned(),
        empty.answers(first, filled, first_result),
        first.invoked is Some && first.invoked.unwrap() is Ok,
        filled.answers(second, kept, second_result),
        second.checked_at is Some ==> second.checked_at.unwrap().since(first.stored_at.unwrap())
            <= SANDBOX_CACHE_TIME_TO_LIVE_IN_NANOS,
        kept.answers(third, refilled, third_result),
        third.checked_at is Some ==> third.checked_at.unwrap().since(first.stored_at.unwrap())
            > SANDBOX_CACHE_TIME_TO_LIVE_IN_NANOS,
    ensures
        first.checked_at is None,
        first_result == Ok::<T, Error>(first.invoked.unwrap().unwrap()),
        first.stored_at is Some,
        filled.entry() is Some,
        filled.entry().unwrap().time == first.stored_at.unwrap(),
        cloned(first.invoked.unwrap().unwrap(), filled.entry().unwrap().value),
        second.checked_at is Some,
        second.invoked is None,
        kept == filled,
        second_result is Ok,
        cloned(filled.entry().unwrap().value, second_result.unwrap()),
        (forall|a: T, b: T| #[trigger] cloned(a, b) ==> a == b) ==> second_result == first_result,
        third.checked_at is Some,
        third.invoked is Some,
        third.invoked.unwrap() is Ok ==> {
            &&& third_result == Ok::<T, Error>(third.invoked.unwrap().unwrap())
            &&& refilled.entry() is Some
            &&& refilled.entry().unwrap().time == third.stored_at.unwrap()
            &&& cloned(third.invoked.unwrap().unwrap(), refilled.entry().unwrap().value)
        },
{
}

/// A failed populator leaves no trace: the slot holds after the call what
/// it held before, so a value survives a failure to replace it, and an
/// empty slot stays empty and asks the populator again at the next call.
pub proof fn law_failure_is_not_cached<T: Clone>(
    before: SandboxCacheOne<T>,
    seen: Observed<T>,
    error: sandbox::Error,
    after: SandboxCacheOne<T>,
    result: Result<T, Error>,
    next: Observed<T>,
    next_after: SandboxCacheOne<T>,
    next_result: Result<T, Error>,
)
    requires
        before.answers(seen, after, result),
        seen.invoked == Some(Err::<T, sandbox::Error>(error)),
        after.answers(next, next_after, next_result),
    ensures
        after == before,
        result == Err::<T, Error>(Error::Sandbox(error)),
        seen.stored_at is None,
        before.entry() is None ==> after.entry() is None && next.invoked is Some,
{
}

/// An unusable slot stays unusable: every call on it fails with
/// `CachePoisoned`, invokes no populator, reads no clock and changes
/// nothing.
pub proof fn law_poisoned_fails_fast<T: Clone>(
    slot: SandboxCacheOne<T>,
    seen: Observed<T>,
    after: SandboxCacheOne<T>,
    result: Result<T, Error>,
)
    requires
        slot.is_poisoned(),
        slot.answers(seen, after, result),
    ensures
        seen.is_nothing(),
        result == Err::<T, Error>(Error::CachePoisoned),
        after == slot,
        after.is_poisoned(),
{
}

impl<T: Clone> Default for SandboxCacheOne<T> {
    /// An empty, usable slot.
    fn default() -> (slot: Self)
        ensures
            slot.entry() is None,
            !slot.is_poisoned(),
    {
        SandboxCacheOne::new()
    }
}

/// Caches the successful results of all sandbox operations that make
/// sense to cache, each in a slot of its own.
#[derive(Debug)]
pub struct SandboxCache {
    pub crates: SandboxCacheOne<Vec<CrateInformation>>,
    pub version_stable: SandboxCacheOne<Version>,
    pub version_beta: SandboxCacheOne<Version>,
    pub version_nightly: SandboxCacheOne<Version>,
}

impl SandboxCache {
    /// Whether every slot is empty and usable.
    pub open spec fn is_empty(self) -> bool {
        &&& self.crates.entry() is None && !self.crates.is_poisoned()
        &&& self.version_stable.entry() is None && !self.version_stable.is_poisoned()
        &&& self.version_beta.entry() is None && !self.version_beta.is_poisoned()
        &&& self.version_nightly.entry() is None && !self.version_nightly.is_poisoned()
    }
}

impl Default for SandboxCache {
    /// A cache whose slots are all empty.
    fn default() -> (cache: Self)
        ensures
            cache.is_empty(),
    {
        SandboxCache {
            crates: SandboxCacheOne::new(),
            version_stable: SandboxCacheOne::new(),
            version_beta: SandboxCacheOne::new(),
            version_nightly: SandboxCacheOne::new(),
        }
    }
}

/// Provides the sandbox's operations that report on the sandbox itself,
/// answered from the cache where the cache holds a fresh answer.
///
/// Each operation takes the slot that is kept for it and the means to ask
/// the sandbox, and reads the time from the clock that this value was made
/// with.
pub struct CachedSandbox<K> {
    /// Gives the current reading of a monotonic clock.
    pub clock: K,
}

impl<K: Fn() -> Timestamp> CachedSandbox<K> {
    /// The cached operations by the clock `clock`.
    pub fn new(clock: K) -> (cached: Self)
        ensures
            cached.clock == clock,
    {
        CachedSandbox { clock }
    }

    /// How the version of `channel` is answered: as
    /// [`SandboxCacheOne::answers`] says, where the populator is `version`
    /// applied to `channel`.
    pub open spec fn answers_version<F>(
        self,
        channel: Channel,
        before: SandboxCacheOne<Version>,
        version: F,
        after: SandboxCacheOne<Version>,
        result: Result<Version, Error>,
    ) -> bool where F: FnOnce(Channel) -> Result<Version, sandbox::Error> {
        exists|seen: Observed<Version>|
            {
                &&& seen.read(self.clock)
                &&& seen.invoked is Some ==> call_ensures(version, (channel,), seen.invoked.unwrap())
                &&& #[trigger] before.answers(seen, after, result)
            }
    }

    /// The crates that the sandbox offers. `crates` asks the sandbox for
    /// them and is invoked only where `slot` may need population.
    pub fn crates<F>(&self, slot: &mut SandboxCacheOne<Vec<CrateInformation>>, crates: F) -> (result:
        Result<Vec<CrateInformation>, Error>) where
        F: FnOnce() -> Result<Vec<CrateInformation>, sandbox::Error>,

        requires
            call_requires(self.clock, ()),
            old(slot).may_populate(self.clock) ==> call_requires(crates, ()),
        ensures
            exists|seen: Observed<Vec<CrateInformation>>|
                {
                    &&& seen.came_from(self.clock, crates)
                    &&& #[trigger] old(slot).answers(seen, *final(slot), result)
                },
    {
        slot.clone_or_populate(&self.clock, crates)
    }

    /// The version of the stable toolchain. `version` asks the sandbox for
    /// the version of a channel; it is invoked only where `slot` may need
    /// population, and then with `Channel::Stable`.
    pub fn version_stable<F>(&self, slot: &mut SandboxCacheOne<Version>, version: F) -> (result:
        Result<Version, Error>) where F: FnOnce(Channel) -> Result<Version, sandbox::Error>
        requires
            call_requires(self.clock, ()),
            old(slot).may_populate(self.clock) ==> call_requires(version, (Channel::Stable,)),
        ensures
            self.answers_version(Channel::Stable, *old(slot), version, *final(slot), result),
    {
        self.version(Channel::Stable, slot, version)
    }

    /// The version of the beta toolchain. `version` asks the sandbox for the
    /// version of a channel; it is invoked only where `slot` may need
    /// population, and then with `Channel::Beta`.
    pub fn version_beta<F>(&self, slot: &mut SandboxCacheOne<Version>, version: F) -> (result:
        Result<Version, Error>) where F: FnOnce(Channel) -> Result<Version, sandbox::Error>
        requires
            call_requires(self.clock, ()),
            old(slot).may_populate(self.clock) ==> call_requires(version, (Channel::Beta,)),
        ensures
            self.answers_version(Channel::Beta, *old(slot), version, *final(slot), result),
    {
        self.version(Channel::Beta, slot, version)
    }

    /// The version of the nightly toolchain. `version` asks the sandbox for
    /// the version of a channel; it is invoked only where `slot` may need
    /// population, and then with `Channel::Nightly`.
    pub fn version_nightly<F>(&self, slot: &mut SandboxCacheOne<Version>, version: F) -> (result:
        Result<Version, Error>) where F: FnOnce(Channel) -> Result<Version, sandbox::Error>
        requires
            call_requires(self.clock, ()),
            old(slot).may_populate(self.clock) ==> call_requires(version, (Channel::Nightly,)),
        ensures
            self.answers_version(Channel::Nightly, *old(slot), version, *final(slot), result),
    {
        self.version(Channel::Nightly, slot, version)
    }

    /// The version of the toolchain of `channel`, from `slot`.
    fn version<F>(
        &self,
        channel: Channel,
        slot: &mut SandboxCacheOne<Version>,
        version: F,
    ) -> (result: Result<Version, Error>) where F: FnOnce(Channel) -> Result<Version, sandbox::Error>
        requires
            call_requires(self.clock, ()),
            old(slot).may_populate(self.clock) ==> call_requires(version, (channel,)),
        ensures
            self.answers_version(channel, *old(slot), version, *final(slot), result),
    {
        let populator = || -> (outcome: Result<Version, sandbox::Error>)
            requires
                call_requires(version, (channel,)),
            ensures
                call_ensures(version, (channel,), outcome),
            { version(channel) };
        slot.clone_or_populate(&self.clock, populator)
    }
}

} // verus!
