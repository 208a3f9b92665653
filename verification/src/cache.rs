//! The in-memory cache: a map from keys to string values, each with an
//! optional expiry instant. Expiry is checked lazily, against the current
//! instant that each operation receives (milliseconds on a monotonic clock).

use vstd::prelude::*;
use vstd::hash_map::StringHashMap;
use crate::text::{
    format_i64, int_decimal, law_decimal_reads_back, parse_i64, parse_int, string_from_str,
};

verus! {

/// One stored value and the instant at which it expires, if it does.
pub struct CacheEntry {
    pub value: String,
    pub expires_at: Option<u64>,
}

/// What the cache holds for a key: the value and its expiry instant.
pub type EntryView = (Seq<char>, Option<u64>);

/// Whether an entry with expiry `expires_at` has expired at instant `now`.
pub open spec fn expired_at(expires_at: Option<u64>, now: u64) -> bool {
    match expires_at {
        Some(e) => now >= e,
        None => false,
    }
}

/// The expiry instant of an entry stored at `now` with time-to-live `ttl`.
pub open spec fn expiry_of(ttl: Option<u64>, now: u64) -> Option<u64> {
    match ttl {
        Some(t) => Some((now + t) as u64),
        None => None,
    }
}

impl CacheEntry {
    /// An entry holding `value`, stored at instant `now`, that expires `ttl`
    /// milliseconds later if a time-to-live is given.
    pub fn new(value: String, ttl: Option<u64>, now: u64) -> (e: Self)
        requires
            ttl matches Some(t) ==> now + t <= u64::MAX,
        ensures
            e.value == value,
            e.expires_at == expiry_of(ttl, now),
    {
        let expires_at = match ttl {
            Some(duration) => Some(now + duration),
            None => None,
        };
        CacheEntry { value, expires_at }
    }

    /// Whether the entry has expired at instant `now`.
    pub fn is_expired(&self, now: u64) -> (r: bool)
        ensures
            r == expired_at(self.expires_at, now),
    {
        match self.expires_at {
            Some(expires_at) => now >= expires_at,
            None => false,
        }
    }
}

/// The error of a cache operation.
#[derive(Debug)]
pub enum CacheError {
    /// The stored value is not what the operation needs; the message says which key.
    ValidationError(String),
    /// The cache cannot be set up as the configuration requires.
    ConfigError(String),
}

/// The cache implementations that the service can run on.
#[derive(Debug, Clone, Copy, PartialEq, Eq, Structural)]
pub enum CacheBackend {
    Redis,
    InMemory,
}

/// The cache that the service runs on, given the outcome of connecting to Redis
/// (`None` where the connection succeeded, the error's text where it failed): Redis
/// where connected; otherwise an error in production, where Redis is required, and
/// the in-memory cache in development.
pub fn choose_cache_backend(connect_error: Option<&str>, production: bool) -> (r: Result<
    CacheBackend,
    CacheError,
>)
    ensures
        connect_error is None ==> r == Ok::<CacheBackend, CacheError>(CacheBackend::Redis),
        connect_error matches Some(e) ==> (production ==> (r matches Err(
            CacheError::ConfigError(m),
        ) && m@ == "Redis is required in production: "@ + e@)),
        (connect_error is Some && !production) ==> r == Ok::<CacheBackend, CacheError>(
            CacheBackend::InMemory,
        ),
{
    match connect_error {
        None => Ok(CacheBackend::Redis),
        Some(e) => {
            if production {
                let mut m = string_from_str("Redis is required in production: ");
                m.append(e);
                Err(CacheError::ConfigError(m))
            } else {
                Ok(CacheBackend::InMemory)
            }
        },
    }
}

/// The message of the error that `increment` gives for a value that is not an integer.
pub open spec fn not_integer_message(key: Seq<char>) -> Seq<char> {
    "Value at key '"@ + key + "' is not a valid integer"@
}

/// The cache's contents as plain values.
pub open spec fn entry_view(e: CacheEntry) -> EntryView {
    (e.value@, e.expires_at)
}

/// Whether `key` holds a value that has not expired at `now`.
pub open spec fn is_live(m: Map<Seq<char>, EntryView>, key: Seq<char>, now: u64) -> bool {
    m.contains_key(key) && !expired_at(m[key].1, now)
}

/// The value that `get` returns.
pub open spec fn get_result(m: Map<Seq<char>, EntryView>, key: Seq<char>, now: u64) -> Option<
    Seq<char>,
> {
    if is_live(m, key, now) {
        Some(m[key].0)
    } else {
        None
    }
}

/// The contents after a lookup of `key`: an expired entry is dropped.
pub open spec fn drop_if_expired(m: Map<Seq<char>, EntryView>, key: Seq<char>, now: u64) -> Map<
    Seq<char>,
    EntryView,
> {
    if m.contains_key(key) && expired_at(m[key].1, now) {
        m.remove(key)
    } else {
        m
    }
}

/// The contents after `set_with_ttl` (or, with no time-to-live, `set`).
pub open spec fn set_state(
    m: Map<Seq<char>, EntryView>,
    key: Seq<char>,
    value: Seq<char>,
    ttl: Option<u64>,
    now: u64,
) -> Map<Seq<char>, EntryView> {
    m.insert(key, (value, expiry_of(ttl, now)))
}

/// The counter that `increment` starts from: the stored integer of a live entry, zero
/// where there is none; `None` where the live value is not an `i64`.
pub open spec fn counter_base(m: Map<Seq<char>, EntryView>, key: Seq<char>, now: u64) -> Option<
    int,
> {
    if is_live(m, key, now) {
        parse_int(m[key].0, true, i64::MIN as int, i64::MAX as int)
    } else {
        Some(0)
    }
}

/// The contents after a successful `increment` that yields `n`.
pub open spec fn increment_state(m: Map<Seq<char>, EntryView>, key: Seq<char>, n: int) -> Map<
    Seq<char>,
    EntryView,
> {
    m.insert(key, (int_decimal(n), None))
}

/// The contents after `expire(key, ttl)` at `now`.
pub open spec fn expire_state(
    m: Map<Seq<char>, EntryView>,
    key: Seq<char>,
    ttl: u64,
    now: u64,
) -> Map<Seq<char>, EntryView> {
    if is_live(m, key, now) {
        m.insert(key, (m[key].0, Some((now + ttl) as u64)))
    } else {
        m.remove(key)
    }
}

/// An in-memory key-value cache with lazy expiry.
pub struct InMemoryCache {
    data: StringHashMap<CacheEntry>,
}

impl View for InMemoryCache {
    type V = Map<Seq<char>, EntryView>;

    closed spec fn view(&self) -> Map<Seq<char>, EntryView> {
        self.data@.map_values(|e: CacheEntry| entry_view(e))
    }
}

proof fn lemma_map_insert(m: Map<Seq<char>, CacheEntry>, k: Seq<char>, e: CacheEntry)
    ensures
        m.insert(k, e).map_values(|e: CacheEntry| entry_view(e)) == m.map_values(
            |e: CacheEntry| entry_view(e),
        ).insert(k, entry_view(e)),
{
    assert(m.insert(k, e).map_values(|e: CacheEntry| entry_view(e)) =~= m.map_values(
        |e: CacheEntry| entry_view(e),
    ).insert(k, entry_view(e)));
}

proof fn lemma_map_remove(m: Map<Seq<char>, CacheEntry>, k: Seq<char>)
    ensures
        m.remove(k).map_values(|e: CacheEntry| entry_view(e)) == m.map_values(
            |e: CacheEntry| entry_view(e),
        ).remove(k),
{
    assert(m.remove(k).map_values(|e: CacheEntry| entry_view(e)) =~= m.map_values(
        |e: CacheEntry| entry_view(e),
    ).remove(k));
}

impl InMemoryCache {
    /// An empty cache.
    pub fn new() -> (c: Self)
        ensures
            c@ == Map::<Seq<char>, EntryView>::empty(),
    {
        let c = InMemoryCache { data: StringHashMap::new() };
        assert(c@ =~= Map::<Seq<char>, EntryView>::empty());
        c
    }

    /// The value at `key` if it has not expired at `now`. An expired entry is
    /// removed on the way.
    pub fn get(&mut self, key: &str, now: u64) -> (r: Option<String>)
        ensures
            match r {
                Some(v) => get_result(old(self)@, key@, now) == Some(v@),
                None => get_result(old(self)@, key@, now) is None,
            },
            final(self)@ == drop_if_expired(old(self)@, key@, now),
    {
        let found = match self.data.get(key) {
            Some(entry) => {
                if !entry.is_expired(now) {
                    Some(Some(entry.value.clone()))
                } else {
                    Some(None)
                }
            },
            None => None,
        };
        match found {
            Some(Some(v)) => Some(v),
            Some(None) => {
                proof {
                    lemma_map_remove(self.data@, key@);
                }
                self.data.remove(key);
                None
            },
            None => None,
        }
    }

    /// Stores `value` at `key` with no expiry.
    pub fn set(&mut self, key: &str, value: &str)
        ensures
            final(self)@ == set_state(old(self)@, key@, value@, None, 0),
    {
        let entry = CacheEntry::new(string_from_str(value), None, 0);
        proof {
            lemma_map_insert(self.data@, key@, entry);
        }
        self.data.insert(string_from_str(key), entry);
    }

    /// Stores `value` at `key`, expiring `ttl` milliseconds after `now`.
    pub fn set_with_ttl(&mut self, key: &str, value: &str, ttl: u64, now: u64)
        requires
            now + ttl <= u64::MAX,
        ensures
            final(self)@ == set_state(old(self)@, key@, value@, Some(ttl), now),
    {
        let entry = CacheEntry::new(string_from_str(value), Some(ttl), now);
        proof {
            lemma_map_insert(self.data@, key@, entry);
        }
        self.data.insert(string_from_str(key), entry);
    }

    /// Removes `key`; the result says whether it was stored, expired or not.
    pub fn delete(&mut self, key: &str) -> (r: bool)
        ensures
            r == old(self)@.contains_key(key@),
            final(self)@ == old(self)@.remove(key@),
    {
        let present = self.data.contains_key(key);
        proof {
            lemma_map_remove(self.data@, key@);
        }
        self.data.remove(key);
        present
    }

    /// Whether `key` holds a value that has not expired at `now`.
    pub fn key_exists(&self, key: &str, now: u64) -> (r: bool)
        ensures
            r == is_live(self@, key@, now),
    {
        match self.data.get(key) {
            Some(entry) => !entry.is_expired(now),
            None => false,
        }
    }

    /// Whether `increment(key, delta, now)` stays within the range of `i64`: the sum of
    /// the counter it starts from and `delta` fits, or the live value is no integer
    /// (and the increment fails without adding).
    pub fn increment_fits(&self, key: &str, delta: i64, now: u64) -> (r: bool)
        ensures
            r == (counter_base(self@, key@, now) matches Some(c) ==> i64::MIN <= c + delta
                <= i64::MAX),
    {
        let base: Option<i64> = match self.data.get(key) {
            Some(entry) => {
                if !entry.is_expired(now) {
                    parse_i64(entry.value.as_str())
                } else {
                    Some(0)
                }
            },
            None => Some(0),
        };
        match base {
            Some(c) => c.checked_add(delta).is_some(),
            None => true,
        }
    }

    /// Adds `delta` to the integer at `key` (zero where there is no live value) and
    /// stores the sum with no expiry. Fails, and changes nothing, where the live value
    /// is not an integer.
    pub fn increment(&mut self, key: &str, delta: i64, now: u64) -> (r: Result<i64, CacheError>)
        requires
            counter_base(old(self)@, key@, now) matches Some(c) ==> i64::MIN <= c + delta
                <= i64::MAX,
        ensures
            match counter_base(old(self)@, key@, now) {
                Some(c) => r matches Ok(n) && n == c + delta && final(self)@ == increment_state(
                    old(self)@,
                    key@,
                    c + delta,
                ),
                None => r matches Err(CacheError::ValidationError(msg)) && msg@
                    == not_integer_message(key@) && final(self)@ == old(self)@,
            },
    {
        let stored: Option<Option<i64>> = match self.data.get(key) {
            Some(entry) => {
                if !entry.is_expired(now) {
                    Some(parse_i64(entry.value.as_str()))
                } else {
                    None
                }
            },
            None => None,
        };
        let current: i64 = match stored {
            Some(Some(v)) => v,
            Some(None) => {
                let mut msg = String::new();
                msg.append("Value at key '");
                msg.append(key);
                msg.append("' is not a valid integer");
                proof {
                    reveal_strlit("Value at key '");
                    reveal_strlit("' is not a valid integer");
                }
                return Err(CacheError::ValidationError(msg));
            },
            None => 0,
        };
        let new_value = current + delta;
        let entry = CacheEntry::new(format_i64(new_value), None, 0);
        proof {
            lemma_map_insert(self.data@, key@, entry);
        }
        self.data.insert(string_from_str(key), entry);
        Ok(new_value)
    }

    /// Gives the live value at `key` a new expiry `ttl` milliseconds after `now`. The
    /// result says whether there was such a value; an expired entry is removed.
    pub fn expire(&mut self, key: &str, ttl: u64, now: u64) -> (r: bool)
        requires
            now + ttl <= u64::MAX,
        ensures
            r == is_live(old(self)@, key@, now),
            final(self)@ == expire_state(old(self)@, key@, ttl, now),
    {
        let live_value: Option<Option<String>> = match self.data.get(key) {
            Some(entry) => {
                if !entry.is_expired(now) {
                    Some(Some(entry.value.clone()))
                } else {
                    Some(None)
                }
            },
            None => None,
        };
        match live_value {
            Some(Some(value)) => {
                let entry = CacheEntry::new(value, Some(ttl), now);
                proof {
                    lemma_map_insert(self.data@, key@, entry);
                }
                self.data.insert(string_from_str(key), entry);
                true
            },
            Some(None) => {
                proof {
                    lemma_map_remove(self.data@, key@);
                }
                self.data.remove(key);
                false
            },
            None => {
                proof {
                    lemma_map_remove(self.data@, key@);
                    assert(self.data@.remove(key@) =~= self.data@);
                }
                false
            },
        }
    }
}

/// A value stored without expiry is read back by `get` at any instant.
pub proof fn law_get_after_set(m: Map<Seq<char>, EntryView>, key: Seq<char>, value: Seq<char>, now: u64)
    ensures
        get_result(set_state(m, key, value, None, 0), key, now) == Some(value),
{
}

/// A value stored with a time-to-live is read back before its expiry instant, and is
/// gone from that instant on.
pub proof fn law_get_after_set_with_ttl(
    m: Map<Seq<char>, EntryView>,
    key: Seq<char>,
    value: Seq<char>,
    ttl: u64,
    stored_at: u64,
    now: u64,
)
    requires
        stored_at + ttl <= u64::MAX,
    ensures
        now < stored_at + ttl ==> get_result(set_state(m, key, value, Some(ttl), stored_at), key, now)
            == Some(value),
        now >= stored_at + ttl ==> get_result(
            set_state(m, key, value, Some(ttl), stored_at),
            key,
            now,
        ) is None,
{
}

/// Storing at one key leaves what `get` gives for every other key unchanged.
pub proof fn law_set_leaves_other_keys(
    m: Map<Seq<char>, EntryView>,
    key: Seq<char>,
    other: Seq<char>,
    value: Seq<char>,
    ttl: Option<u64>,
    stored_at: u64,
    now: u64,
)
    requires
        key != other,
    ensures
        get_result(set_state(m, key, value, ttl, stored_at), other, now) == get_result(m, other, now),
{
}

/// After `delete`, `get` finds nothing at the key.
pub proof fn law_get_after_delete(m: Map<Seq<char>, EntryView>, key: Seq<char>, now: u64)
    ensures
        get_result(m.remove(key), key, now) is None,
        !is_live(m.remove(key), key, now),
{
}

/// The clean-up that a lookup does never changes what any later lookup at the same
/// instant finds.
pub proof fn law_lookup_cleanup_is_invisible(
    m: Map<Seq<char>, EntryView>,
    key: Seq<char>,
    other: Seq<char>,
    now: u64,
)
    ensures
        get_result(drop_if_expired(m, key, now), other, now) == get_result(m, other, now),
{
}

/// A counter starts from zero where the key holds no live value, and each increment
/// continues from the value that the previous one stored.
pub proof fn law_increments_accumulate(
    m: Map<Seq<char>, EntryView>,
    key: Seq<char>,
    a: i64,
    now: u64,
    later: u64,
)
    ensures
        !is_live(m, key, now) ==> counter_base(m, key, now) == Some(0int),
        counter_base(increment_state(m, key, a as int), key, later) == Some(a as int),
{
    law_decimal_reads_back(a);
}

/// `expire` on a live key keeps its value readable until the new expiry instant and
/// no longer; on a key without a live value it leaves nothing readable.
pub proof fn law_expire(
    m: Map<Seq<char>, EntryView>,
    key: Seq<char>,
    ttl: u64,
    at: u64,
    now: u64,
)
    requires
        at + ttl <= u64::MAX,
    ensures
        is_live(m, key, at) && now < at + ttl ==> get_result(expire_state(m, key, ttl, at), key, now)
            == get_result(m, key, at),
        now >= at + ttl ==> get_result(expire_state(m, key, ttl, at), key, now) is None,
        !is_live(m, key, at) ==> get_result(expire_state(m, key, ttl, at), key, now) is None,
{
}

/// One operation on the cache, as the contents see it: a store (`set`, or
/// `set_with_ttl` at `at`), a delete, a lookup at `at` (which drops an expired entry),
/// or an increment that stored the counter `n`.
pub enum CacheOp {
    Store { key: Seq<char>, value: Seq<char>, ttl: Option<u64>, at: u64 },
    Delete { key: Seq<char> },
    Get { key: Seq<char>, at: u64 },
    Increment { key: Seq<char>, n: int },
}

/// The contents after one operation, as the operations' contracts give them.
pub open spec fn apply_op(m: Map<Seq<char>, EntryView>, op: CacheOp) -> Map<Seq<char>, EntryView> {
    match op {
        CacheOp::Store { key, value, ttl, at } => set_state(m, key, value, ttl, at),
        CacheOp::Delete { key } => m.remove(key),
        CacheOp::Get { key, at } => drop_if_expired(m, key, at),
        CacheOp::Increment { key, n } => increment_state(m, key, n),
    }
}

/// The contents after the operations, in order.
pub open spec fn run_ops(m: Map<Seq<char>, EntryView>, ops: Seq<CacheOp>) -> Map<Seq<char>, EntryView>
    decreases ops.len(),
{
    if ops.len() == 0 {
        m
    } else {
        apply_op(run_ops(m, ops.drop_last()), ops.last())
    }
}

/// What a read of `key` at `now` should give after the operations: the value of the
/// last operation that wrote `key` (nothing after a delete, or where the stored value
/// has expired by `now`), and what `m` held where no operation wrote it.
pub open spec fn last_written(m: Map<Seq<char>, EntryView>, ops: Seq<CacheOp>, key: Seq<char>, now: u64) -> Option<Seq<char>>
    decreases ops.len(),
{
    if ops.len() == 0 {
        get_result(m, key, now)
    } else {
        match ops.last() {
            CacheOp::Store { key: k, value, ttl, at } => if k == key {
                if expired_at(expiry_of(ttl, at), now) {
                    None
                } else {
                    Some(value)
                }
            } else {
                last_written(m, ops.drop_last(), key, now)
            },
            CacheOp::Delete { key: k } => if k == key {
                None
            } else {
                last_written(m, ops.drop_last(), key, now)
            },
            CacheOp::Increment { key: k, n } => if k == key {
                Some(int_decimal(n))
            } else {
                last_written(m, ops.drop_last(), key, now)
            },
            CacheOp::Get { .. } => last_written(m, ops.drop_last(), key, now),
        }
    }
}

/// Whether every lookup and store among the operations happened at or before `now`.
pub open spec fn ops_before(ops: Seq<CacheOp>, now: u64) -> bool {
    forall|i: int|
        0 <= i < ops.len() ==> match #[trigger] ops[i] {
            CacheOp::Store { at, ttl, .. } => at <= now && (ttl matches Some(t) ==> at + t <= u64::MAX),
            CacheOp::Get { at, .. } => at <= now,
            _ => true,
        }
}

/// After any sequence of stores, deletes, lookups and increments made up to `now`, a
/// read at `now` gives the value of the last operation that wrote the key, unless it
/// was a delete or the value has expired; a key that no operation wrote reads as
/// before. (Lookups clean up expired entries, which changes no answer.)
pub proof fn law_read_gives_last_write(
    m: Map<Seq<char>, EntryView>,
    ops: Seq<CacheOp>,
    key: Seq<char>,
    now: u64,
)
    requires
        ops_before(ops, now),
    ensures
        get_result(run_ops(m, ops), key, now) == last_written(m, ops, key, now),
    decreases ops.len(),
{
    if ops.len() > 0 {
        let prev = ops.drop_last();
        assert(ops_before(prev, now)) by {
            assert forall|i: int| 0 <= i < prev.len() implies match #[trigger] prev[i] {
                CacheOp::Store { at, ttl, .. } => at <= now && (ttl matches Some(t) ==> at + t <= u64::MAX),
                CacheOp::Get { at, .. } => at <= now,
                _ => true,
            } by {
                assert(prev[i] == ops[i]);
            }
        }
        law_read_gives_last_write(m, prev, key, now);
        let last = ops.last();
        assert(ops[ops.len() - 1] == last);
    }
}

} // verus!
