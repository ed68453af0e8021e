//! A single-slot store whose value may be read for a limited time only.

use crate::coinmotion::Rates;
use crate::time::Timestamp;
use vstd::prelude::*;

verus! {

/// How long a refreshed rate may be served, in seconds.
pub const RATES_VALID_FOR_SECS: u64 = 3600;

/// Why a cache has nothing to hand out.
#[derive(Clone, Copy, Debug, PartialEq, Eq, Structural)]
pub enum CacheError {
    /// No value was ever stored.
    NotSet,
    /// The stored value is older than the cache allows.
    Stale,
}

/// What a cache holds, as a mathematical value. Times are nanoseconds.
pub struct CachedValue<T> {
    /// The stored value, if one was ever stored.
    pub value: Option<T>,
    /// When it was stored, in nanoseconds since the epoch.
    pub updated_at: nat,
    /// For how long it may be read after that, in nanoseconds.
    pub ttl: nat,
}

impl<T> CachedValue<T> {
    /// An empty cache whose values will live for `ttl_secs` seconds.
    pub open spec fn empty(ttl_secs: nat) -> CachedValue<T> {
        CachedValue { value: None, updated_at: 0, ttl: ttl_secs * 1_000_000_000 }
    }

    /// Whether more than `ttl` has passed between the last write and `now`. A
    /// clock that stands before the last write makes nothing stale.
    pub open spec fn stale_at(self, now: nat) -> bool {
        now > self.updated_at + self.ttl
    }

    /// What a read at `now` gives.
    pub open spec fn read_at(self, now: nat) -> Result<T, CacheError> {
        match self.value {
            None => Err(CacheError::NotSet),
            Some(value) => if self.stale_at(now) {
                Err(CacheError::Stale)
            } else {
                Ok(value)
            },
        }
    }

    /// The cache after `value` was written at `now`.
    pub open spec fn written_at(self, value: T, now: nat) -> CachedValue<T> {
        CachedValue { value: Some(value), updated_at: now, ttl: self.ttl }
    }
}

/// A store for one value that refuses to hand it out once it is too old.
///
/// The store does no locking: a caller that shares it guards it.
pub struct ExpiringValueCache<T> {
    value: Option<T>,
    update_time: Timestamp,
    valid_for_secs: u64,
}

impl<T> View for ExpiringValueCache<T> {
    type V = CachedValue<T>;

    closed spec fn view(&self) -> CachedValue<T> {
        CachedValue {
            value: self.value,
            updated_at: self.update_time.nanos as nat,
            ttl: (self.valid_for_secs * 1_000_000_000) as nat,
        }
    }
}

impl<T: Clone> ExpiringValueCache<T> {
    /// An empty cache whose values may be read for `valid_for_secs` seconds.
    pub fn new(valid_for_secs: u64) -> (cache: Self)
        ensures
            cache@ == CachedValue::<T>::empty(valid_for_secs as nat),
    {
        ExpiringValueCache { value: None, update_time: Timestamp { nanos: 0 }, valid_for_secs }
    }

    /// A copy of the stored value, read at the time `now`.
    ///
    /// Fails with [`CacheError::NotSet`] before the first [`set`](Self::set), and
    /// with [`CacheError::Stale`] once more than the cache's lifetime has passed
    /// since the last one.
    pub fn get(&self, now: Timestamp) -> (r: Result<T, CacheError>)
        ensures
            match self@.read_at(now.nanos as nat) {
                Ok(stored) => r.is_ok() && cloned(stored, r.unwrap()),
                Err(why) => r == Err::<T, CacheError>(why),
            },
    {
        match &self.value {
            None => Err(CacheError::NotSet),
            Some(stored) => {
                let lifetime: u128 = self.valid_for_secs as u128 * 1_000_000_000;
                if now.nanos > self.update_time.nanos && now.nanos - self.update_time.nanos
                    > lifetime {
                    Err(CacheError::Stale)
                } else {
                    Ok(stored.clone())
                }
            },
        }
    }

    /// Stores `value` as written at the time `now`, in place of what was there.
    pub fn set(&mut self, value: T, now: Timestamp)
        ensures
            final(self)@ == old(self)@.written_at(value, now.nanos as nat),
    {
        self.update_time = now;
        self.value = Some(value);
    }
}

/// A value read back right after it was written is the value written, up to
/// and including the moment at which its lifetime ends.
pub proof fn lemma_read_after_write<T>(cache: CachedValue<T>, value: T, written: nat, now: nat)
    requires
        now <= written + cache.ttl,
    ensures
        cache.written_at(value, written).read_at(now) == Ok::<T, CacheError>(value),
{
}

/// Once more than its lifetime has passed since a write, a read fails.
pub proof fn lemma_read_after_expiry<T>(cache: CachedValue<T>, value: T, written: nat, now: nat)
    requires
        now > written + cache.ttl,
    ensures
        cache.written_at(value, written).read_at(now) == Err::<T, CacheError>(CacheError::Stale),
{
}

/// A cache that was never written to has nothing to read, at any time.
pub proof fn lemma_read_before_write<T>(ttl_secs: nat, now: nat)
    ensures
        CachedValue::<T>::empty(ttl_secs).read_at(now) == Err::<T, CacheError>(
            CacheError::NotSet,
        ),
{
}

/// The caches that the worker fills and the web front end reads.
pub struct Caches {
    rates: ExpiringValueCache<Rates>,
}

impl View for Caches {
    type V = CachedValue<Rates>;

    closed spec fn view(&self) -> CachedValue<Rates> {
        self.rates@
    }
}

impl Caches {
    /// Empty caches; a rate lives for [`RATES_VALID_FOR_SECS`].
    pub fn new() -> (caches: Self)
        ensures
            caches@ == CachedValue::<Rates>::empty(RATES_VALID_FOR_SECS as nat),
    {
        Caches { rates: ExpiringValueCache::new(RATES_VALID_FOR_SECS) }
    }

    /// The cache of exchange rates.
    pub fn rates(&self) -> (cache: &ExpiringValueCache<Rates>)
        ensures
            cache@ == self@,
    {
        &self.rates
    }

    /// The cache of exchange rates, to write to.
    pub fn rates_mut(&mut self) -> (cache: &mut ExpiringValueCache<Rates>)
        ensures
            cache@ == old(self)@,
            final(self)@ == final(cache)@,
    {
        &mut self.rates
    }
}

} // verus!
