use std::cell::Cell;

use playground_gateway::cache::{
    CachedSandbox, SandboxCache, SandboxCacheInfo, SandboxCacheOne, Timestamp, NANOS_PER_SECOND,
    SANDBOX_CACHE_TIME_TO_LIVE_IN_NANOS, SANDBOX_CACHE_TIME_TO_LIVE_IN_SECONDS,
};
use playground_gateway::error::Error;
use playground_gateway::sandbox;
use playground_gateway::sandbox::{Channel, CrateInformation, Version};

fn at(time: Timestamp) -> impl Fn() -> Timestamp + Copy {
    move || time
}

fn failure(message: &str) -> sandbox::Error {
    sandbox::Error { message: message.to_string() }
}

fn version(release: &str) -> Version {
    Version {
        release: release.to_string(),
        commit_hash: "abc123".to_string(),
        commit_date: "2018-11-01".to_string(),
    }
}

fn crates(name: &str) -> Vec<CrateInformation> {
    vec![CrateInformation {
        name: name.to_string(),
        version: "1.0.0".to_string(),
        id: name.replace('-', "_"),
    }]
}

#[test]
fn time_to_live_is_one_hour() {
    assert_eq!(SANDBOX_CACHE_TIME_TO_LIVE_IN_SECONDS, 3600);
    assert_eq!(NANOS_PER_SECOND, 1_000_000_000);
    assert_eq!(SANDBOX_CACHE_TIME_TO_LIVE_IN_NANOS, 3_600_000_000_000);
}

#[test]
fn timestamps_count_nanoseconds() {
    assert_eq!(Timestamp::from_nanos(17).nanos(), 17);
    assert_eq!(Timestamp::from_secs(0).nanos(), 0);
    assert_eq!(Timestamp::from_secs(3).nanos(), 3_000_000_000);
    assert_eq!(Timestamp::from_secs(18_446_744_073).nanos(), 18_446_744_073_000_000_000);
    assert_eq!(Timestamp::from_secs(18_446_744_074).nanos(), u64::MAX);
    assert_eq!(Timestamp::from_secs(u64::MAX).nanos(), u64::MAX);
}

#[test]
fn elapsed_time_is_never_negative() {
    let early = Timestamp::from_nanos(10);
    let late = Timestamp::from_nanos(25);
    assert_eq!(late.elapsed_since(&early), 15);
    assert_eq!(early.elapsed_since(&late), 0);
    assert_eq!(early.elapsed_since(&early), 0);
}

#[test]
fn an_entry_is_fresh_up_to_and_including_the_time_to_live() {
    let stored = Timestamp::from_nanos(500);
    let info = SandboxCacheInfo { value: 1u8, time: stored };
    assert!(info.fresh(stored));
    assert!(info.fresh(Timestamp::from_nanos(0)));
    assert!(info.fresh(Timestamp::from_nanos(500 + SANDBOX_CACHE_TIME_TO_LIVE_IN_NANOS)));
    assert!(!info.fresh(Timestamp::from_nanos(501 + SANDBOX_CACHE_TIME_TO_LIVE_IN_NANOS)));
    assert!(!info.fresh(Timestamp::from_nanos(u64::MAX)));
}

#[test]
fn first_call_populates_and_later_calls_within_the_time_to_live_do_not() {
    let calls = Cell::new(0u32);
    let mut slot: SandboxCacheOne<Vec<CrateInformation>> = SandboxCacheOne::new();
    let start = Timestamp::from_secs(100);

    let first = slot.clone_or_populate(&at(start), || {
        calls.set(calls.get() + 1);
        Ok(crates("serde"))
    });
    assert_eq!(first, Ok(crates("serde")));
    assert_eq!(calls.get(), 1);

    let second = slot.clone_or_populate(&at(Timestamp::from_secs(100 + 1800)), || {
        calls.set(calls.get() + 1);
        Ok(crates("rand"))
    });
    assert_eq!(second, Ok(crates("serde")));
    assert_eq!(calls.get(), 1);

    let at_the_limit = slot.clone_or_populate(&at(Timestamp::from_secs(100 + 3600)), || {
        calls.set(calls.get() + 1);
        Ok(crates("rand"))
    });
    assert_eq!(at_the_limit, Ok(crates("serde")));
    assert_eq!(calls.get(), 1);
}

#[test]
fn a_call_after_the_time_to_live_populates_again_and_replaces_the_value() {
    let calls = Cell::new(0u32);
    let mut slot: SandboxCacheOne<Vec<CrateInformation>> = SandboxCacheOne::new();
    let start = Timestamp::from_secs(100);
    let _ = slot.clone_or_populate(&at(start), || {
        calls.set(calls.get() + 1);
        Ok(crates("serde"))
    });

    let just_after = Timestamp::from_nanos(start.nanos() + SANDBOX_CACHE_TIME_TO_LIVE_IN_NANOS + 1);
    let third = slot.clone_or_populate(&at(just_after), || {
        calls.set(calls.get() + 1);
        Ok(crates("rand"))
    });
    assert_eq!(third, Ok(crates("rand")));
    assert_eq!(calls.get(), 2);

    // The new value was stored with the time of the call that fetched it.
    let later = Timestamp::from_nanos(just_after.nanos() + SANDBOX_CACHE_TIME_TO_LIVE_IN_NANOS);
    let fourth = slot.clone_or_populate(&at(later), || {
        calls.set(calls.get() + 1);
        Ok(crates("libc"))
    });
    assert_eq!(fourth, Ok(crates("rand")));
    assert_eq!(calls.get(), 2);
}

#[test]
fn a_failure_on_an_empty_slot_is_not_remembered() {
    let calls = Cell::new(0u32);
    let mut slot: SandboxCacheOne<Version> = SandboxCacheOne::new();
    let now = Timestamp::from_secs(5);

    let first = slot.clone_or_populate(&at(now), || {
        calls.set(calls.get() + 1);
        Err(failure("no docker"))
    });
    assert_eq!(first, Err(Error::Sandbox(failure("no docker"))));
    assert_eq!(calls.get(), 1);

    let second = slot.clone_or_populate(&at(now), || {
        calls.set(calls.get() + 1);
        Ok(version("1.30.0"))
    });
    assert_eq!(second, Ok(version("1.30.0")));
    assert_eq!(calls.get(), 2);
}

#[test]
fn a_failure_keeps_the_stale_value_in_place() {
    let mut slot: SandboxCacheOne<Version> = SandboxCacheOne::new();
    let _ = slot.clone_or_populate(&at(Timestamp::from_secs(0)), || Ok(version("1.30.0")));

    let stale = Timestamp::from_secs(4000);
    let failed = slot.clone_or_populate(&at(stale), || Err(failure("timeout")));
    assert_eq!(failed, Err(Error::Sandbox(failure("timeout"))));

    // Seen from a time at which the old entry is fresh, it is still there.
    let calls = Cell::new(0u32);
    let served = slot.clone_or_populate(&at(Timestamp::from_secs(10)), || {
        calls.set(1);
        Ok(version("1.31.0"))
    });
    assert_eq!(served, Ok(version("1.30.0")));
    assert_eq!(calls.get(), 0);
}

#[test]
fn a_poisoned_slot_fails_every_call_without_populating() {
    let calls = Cell::new(0u32);
    let mut slot: SandboxCacheOne<Version> = SandboxCacheOne::new();
    assert!(!slot.poisoned());
    let _ = slot.clone_or_populate(&at(Timestamp::from_secs(0)), || Ok(version("1.30.0")));
    slot.poison();
    assert!(slot.poisoned());
    for seconds in [0, 1, 5000] {
        let result = slot.clone_or_populate(&at(Timestamp::from_secs(seconds)), || {
            calls.set(calls.get() + 1);
            Ok(version("1.31.0"))
        });
        assert_eq!(result, Err(Error::CachePoisoned));
    }
    assert_eq!(calls.get(), 0);
    assert!(slot.poisoned());
}

#[test]
fn populate_stores_what_the_populator_gave() {
    let mut entry: Option<SandboxCacheInfo<Version>> = None;
    let now = Timestamp::from_secs(7);
    let result = SandboxCacheOne::populate(&mut entry, &at(now), || Ok(version("1.30.0")));
    assert_eq!(result, Ok(version("1.30.0")));
    let stored = entry.as_ref().unwrap();
    assert_eq!(stored.value, version("1.30.0"));
    assert_eq!(stored.time, now);

    let result = SandboxCacheOne::populate(&mut entry, &at(Timestamp::from_secs(9)), || {
        Err::<Version, _>(failure("gone"))
    });
    assert_eq!(result, Err(Error::Sandbox(failure("gone"))));
    let stored = entry.as_ref().unwrap();
    assert_eq!(stored.value, version("1.30.0"));
    assert_eq!(stored.time, now);
}

#[test]
fn each_version_is_asked_of_its_own_channel() {
    let mut cache = SandboxCache::default();
    let cached = CachedSandbox::new(at(Timestamp::from_secs(1)));
    let ask = |channel: Channel| -> Result<Version, sandbox::Error> {
        Ok(version(match channel {
            Channel::Stable => "1.30.0",
            Channel::Beta => "1.31.0-beta.4",
            Channel::Nightly => "1.32.0-nightly",
        }))
    };
    assert_eq!(cached.version_stable(&mut cache.version_stable, ask), Ok(version("1.30.0")));
    assert_eq!(cached.version_beta(&mut cache.version_beta, ask), Ok(version("1.31.0-beta.4")));
    assert_eq!(
        cached.version_nightly(&mut cache.version_nightly, ask),
        Ok(version("1.32.0-nightly"))
    );
}

#[test]
fn slots_do_not_share_what_they_hold() {
    let mut cache = SandboxCache::default();
    let cached = CachedSandbox::new(at(Timestamp::from_secs(1)));
    let _ = cached.version_stable(&mut cache.version_stable, |_| Ok(version("1.30.0")));

    let calls = Cell::new(0u32);
    let beta = cached.version_beta(&mut cache.version_beta, |_| {
        calls.set(calls.get() + 1);
        Ok(version("1.31.0-beta.4"))
    });
    assert_eq!(beta, Ok(version("1.31.0-beta.4")));
    assert_eq!(calls.get(), 1);

    let listed = cached.crates(&mut cache.crates, || {
        calls.set(calls.get() + 1);
        Ok(crates("serde"))
    });
    assert_eq!(listed, Ok(crates("serde")));
    assert_eq!(calls.get(), 2);

    let stable = cached.version_stable(&mut cache.version_stable, |_| {
        calls.set(calls.get() + 1);
        Ok(version("9.9.9"))
    });
    assert_eq!(stable, Ok(version("1.30.0")));
    assert_eq!(calls.get(), 2);
}

#[test]
fn cached_crates_are_served_until_they_expire() {
    let mut cache = SandboxCache::default();
    let calls = Cell::new(0u32);
    let fetch = || {
        calls.set(calls.get() + 1);
        Ok(crates("serde"))
    };
    let first = CachedSandbox::new(at(Timestamp::from_secs(10))).crates(&mut cache.crates, fetch);
    let second = CachedSandbox::new(at(Timestamp::from_secs(3610))).crates(&mut cache.crates, fetch);
    assert_eq!(first, second);
    assert_eq!(calls.get(), 1);
    let third = CachedSandbox::new(at(Timestamp::from_secs(3611))).crates(&mut cache.crates, fetch);
    assert_eq!(third, Ok(crates("serde")));
    assert_eq!(calls.get(), 2);
}

#[test]
fn a_value_is_stored_with_the_time_at_which_the_populator_returned() {
    let now = Cell::new(1_000u64);
    let clock = || Timestamp::from_nanos(now.get());
    let mut entry: Option<SandboxCacheInfo<Version>> = None;
    let result = SandboxCacheOne::populate(&mut entry, &clock, || {
        now.set(now.get() + 500);
        Ok(version("1.30.0"))
    });
    assert_eq!(result, Ok(version("1.30.0")));
    assert_eq!(entry.unwrap().time, Timestamp::from_nanos(1_500));
}

#[test]
fn a_slow_populator_does_not_shorten_the_life_of_its_value() {
    let now = Cell::new(0u64);
    let clock = || Timestamp::from_nanos(now.get());
    let calls = Cell::new(0u32);
    let mut slot: SandboxCacheOne<Version> = SandboxCacheOne::new();
    let _ = slot.clone_or_populate(&clock, || {
        calls.set(calls.get() + 1);
        now.set(now.get() + 10 * NANOS_PER_SECOND);
        Ok(version("1.30.0"))
    });
    // An hour after the value was stored, which is an hour and ten seconds
    // after the call began, the value is still handed out.
    now.set(10 * NANOS_PER_SECOND + SANDBOX_CACHE_TIME_TO_LIVE_IN_NANOS);
    let served = slot.clone_or_populate(&clock, || {
        calls.set(calls.get() + 1);
        Ok(version("1.31.0"))
    });
    assert_eq!(served, Ok(version("1.30.0")));
    assert_eq!(calls.get(), 1);
    now.set(now.get() + 1);
    let served = slot.clone_or_populate(&clock, || {
        calls.set(calls.get() + 1);
        Ok(version("1.31.0"))
    });
    assert_eq!(served, Ok(version("1.31.0")));
    assert_eq!(calls.get(), 2);
}

#[test]
fn the_clock_is_read_only_where_it_is_needed() {
    let reads = Cell::new(0u32);
    let clock = || {
        reads.set(reads.get() + 1);
        Timestamp::from_secs(1)
    };
    let mut slot: SandboxCacheOne<Version> = SandboxCacheOne::new();
    // Empty slot, failing populator: nothing to judge, nothing to store.
    let _ = slot.clone_or_populate(&clock, || Err(failure("down")));
    assert_eq!(reads.get(), 0);
    // Empty slot, value: one reading, to store.
    let _ = slot.clone_or_populate(&clock, || Ok(version("1.30.0")));
    assert_eq!(reads.get(), 1);
    // Fresh value: one reading, to judge.
    let _ = slot.clone_or_populate(&clock, || Ok(version("1.31.0")));
    assert_eq!(reads.get(), 2);
    // Unusable slot: none.
    slot.poison();
    let _ = slot.clone_or_populate(&clock, || Ok(version("1.31.0")));
    assert_eq!(reads.get(), 2);
}
