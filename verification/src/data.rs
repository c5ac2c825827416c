//! The data manager and the two actors it owns: a cache whose entries may
//! expire, and the actor in front of the key-value store.
//!
//! The data manager reads through the cache: a fetch is answered from the
//! cache where it holds a valid entry, else from the store, whose answer
//! refills the cache. A write goes to the store first and to the cache only
//! after the store has taken it.
//!
//! What the data manager decides between two answers is `fetch_step` and
//! `store_step`; they take any answer, a failure and a lost connection
//! among them. The data manager itself runs the steps on the cache and the
//! store that it owns.

use vstd::prelude::*;
use vstd::string::StringExecFns;
use crate::clock::{latest_reading, unix_now, unix_now_millis};
use crate::errors::{StorageError, UserError};
use crate::messages::{
    ActorAddress,
    CacheData,
    DataItem,
    FetchData,
    FetchRecentData,
    StoreData,
    UpdateNetworkDependency,
    UserData,
};
use crate::registry::{
    distinct_keys,
    entries_map,
    lemma_entries_count,
    lemma_filter_entries,
    lemma_filter_next,
    StringMap,
};
use crate::signals::{
    CreateDataItemRequest,
    DataItemCreatedSignal,
    DataItemDeletedSignal,
    DataItemUpdatedSignal,
    DeleteDataItemRequest,
    FetchUserDataRequest,
    UpdateDataItemRequest,
    UserDataResponse,
};
use crate::storage::{SledStorage, Storage};
use crate::text::{decimal, push_decimal};

verus! {

/// The seconds for which the cache keeps what a fetch found in the store.
pub const CACHE_REFILL_TTL_SECS: u64 = 3600;

/// The seconds between two sweeps of the cache.
pub const CACHE_SWEEP_INTERVAL_SECS: u64 = 60;

/// The number of recent items returned where the request names none.
pub const DEFAULT_RECENT_LIMIT: usize = 10;

/// The seconds between the creation times of two neighbouring recent items.
pub const ITEM_CREATED_STEP_SECS: u64 = 3600;

/// The seconds between the update times of two neighbouring recent items.
pub const ITEM_UPDATED_STEP_SECS: u64 = 1800;

/// One cached value with the time from which it is no longer served, if any.
#[derive(Debug)]
pub struct CacheEntry {
    pub data: Vec<u8>,
    pub expires_at: Option<u64>,
}

/// A cache entry as plain values.
pub struct EntryView {
    pub data: Seq<u8>,
    pub expires_at: Option<u64>,
}

impl View for CacheEntry {
    type V = EntryView;

    open spec fn view(&self) -> EntryView {
        EntryView { data: self.data@, expires_at: self.expires_at }
    }
}

/// The entry is no longer served at time `now`: it has an expiry, and the
/// expiry has been reached.
pub open spec fn expired(e: EntryView, now: u64) -> bool {
    e.expires_at is Some && e.expires_at->0 <= now
}

/// The expiry of an entry cached at `now` for `ttl` seconds. There is none
/// without a `ttl`, and none where the expiry would lie behind the last time
/// that a clock can show: such an entry never expires.
pub open spec fn expiry_of(now: u64, ttl: Option<u64>) -> Option<u64> {
    match ttl {
        Some(t) => if now + t <= u64::MAX {
            Some((now + t) as u64)
        } else {
            None
        },
        None => None,
    }
}

/// The cache holds an entry under `key` that is served at `now`.
pub open spec fn cache_hit(cache: Map<Seq<char>, EntryView>, key: Seq<char>, now: u64) -> bool {
    cache.contains_key(key) && !expired(cache[key], now)
}

/// The answer of the cache to a lookup of `key` at `now`: the bytes of a
/// served entry; `CacheExpired` for an entry whose expiry has been reached;
/// `CacheMiss` where there is no entry.
pub open spec fn lookup_answer(
    cache: Map<Seq<char>, EntryView>,
    key: Seq<char>,
    now: u64,
    r: Result<Vec<u8>, UserError>,
) -> bool {
    if cache_hit(cache, key, now) {
        r is Ok && r->Ok_0@ == cache[key].data
    } else if cache.contains_key(key) {
        r matches Err(UserError::CacheExpired)
    } else {
        r matches Err(UserError::CacheMiss)
    }
}

/// The cache after a lookup of `key` at `now`: an expired entry under the
/// key is removed, nothing else changes.
pub open spec fn cache_after_lookup(cache: Map<Seq<char>, EntryView>, key: Seq<char>, now: u64)
    -> Map<Seq<char>, EntryView> {
    if cache.contains_key(key) && expired(cache[key], now) {
        cache.remove(key)
    } else {
        cache
    }
}

/// The cache after `data` was cached under `key` at `now` for `ttl` seconds.
pub open spec fn cache_after_store(
    cache: Map<Seq<char>, EntryView>,
    key: Seq<char>,
    data: Seq<u8>,
    ttl: Option<u64>,
    now: u64,
) -> Map<Seq<char>, EntryView> {
    cache.insert(key, EntryView { data, expires_at: expiry_of(now, ttl) })
}

/// The cache after a sweep at `now`: the entries that are still served.
pub open spec fn purged(cache: Map<Seq<char>, EntryView>, now: u64) -> Map<Seq<char>, EntryView> {
    Map::new(
        |k: Seq<char>| cache.contains_key(k) && !expired(cache[k], now),
        |k: Seq<char>| cache[k],
    )
}

/// What the store holds under `key`; nothing where no backend is attached.
pub open spec fn stored(storage: Option<Map<Seq<char>, Seq<u8>>>, key: Seq<char>) -> Option<
    Seq<u8>,
> {
    match storage {
        Some(m) => if m.contains_key(key) {
            Some(m[key])
        } else {
            None
        },
        None => None,
    }
}

/// The store takes writes: it has a backend.
pub open spec fn store_accepts(storage: Option<Map<Seq<char>, Seq<u8>>>) -> bool {
    storage is Some
}

/// The store after a write of `data` under `key`: the backend holds the data
/// under the key; a store without backend refuses the write and stays as it
/// is.
pub open spec fn storage_after_store(
    storage: Option<Map<Seq<char>, Seq<u8>>>,
    key: Seq<char>,
    data: Seq<u8>,
) -> Option<Map<Seq<char>, Seq<u8>>> {
    match storage {
        Some(m) => Some(m.insert(key, data)),
        None => None,
    }
}

/// The answer to a write: `Ok` from a store that takes it, `Unavailable`
/// from a store without backend.
pub open spec fn store_answer(storage: Option<Map<Seq<char>, Seq<u8>>>, r: Result<(), UserError>)
    -> bool {
    if store_accepts(storage) {
        r is Ok
    } else {
        r matches Err(UserError::Storage(StorageError::Unavailable))
    }
}

/// The cache after the data manager was asked to store `data` under `key`
/// at `now` for `ttl` seconds: the cache takes the data only after the store
/// has taken it, and stays as it is where the store refused.
pub open spec fn cache_after_write(
    cache: Map<Seq<char>, EntryView>,
    storage: Option<Map<Seq<char>, Seq<u8>>>,
    key: Seq<char>,
    data: Seq<u8>,
    ttl: Option<u64>,
    now: u64,
) -> Map<Seq<char>, EntryView> {
    if store_accepts(storage) {
        cache_after_store(cache, key, data, ttl, now)
    } else {
        cache
    }
}

/// What a fetch of `key` at `now` finds: the cached bytes on a hit, else
/// what the store holds, else nothing.
pub open spec fn fetch_outcome(
    cache: Map<Seq<char>, EntryView>,
    storage: Option<Map<Seq<char>, Seq<u8>>>,
    key: Seq<char>,
    now: u64,
) -> Option<Seq<u8>> {
    if cache_hit(cache, key, now) {
        Some(cache[key].data)
    } else {
        stored(storage, key)
    }
}

/// The cache after a fetch of `key` at `now`: unchanged on a hit; refilled
/// with what the store holds, for `CACHE_REFILL_TTL_SECS`, where the store
/// answers; else as a lookup leaves it.
pub open spec fn cache_after_fetch(
    cache: Map<Seq<char>, EntryView>,
    storage: Option<Map<Seq<char>, Seq<u8>>>,
    key: Seq<char>,
    now: u64,
) -> Map<Seq<char>, EntryView> {
    if cache_hit(cache, key, now) {
        cache
    } else {
        match stored(storage, key) {
            Some(data) => cache_after_store(cache, key, data, Some(CACHE_REFILL_TTL_SECS), now),
            None => cache_after_lookup(cache, key, now),
        }
    }
}

/// The test that a sweep at time `now` applies to an entry: it stays unless
/// its expiry has been reached.
pub open spec fn served_at(now: u64) -> spec_fn((Seq<char>, CacheEntry)) -> bool {
    |e: (Seq<char>, CacheEntry)| !expired(e.1@, now)
}

/// The cache actor.
#[derive(Debug)]
pub struct CacheActor {
    cache: StringMap<CacheEntry>,
}

impl View for CacheActor {
    type V = Map<Seq<char>, EntryView>;

    /// The cached entries, each under its key.
    closed spec fn view(&self) -> Map<Seq<char>, EntryView> {
        self.cache@.map_values(|e: CacheEntry| e@)
    }
}

impl CacheActor {
    /// The table of entries is consistent.
    pub closed spec fn wf(&self) -> bool {
        self.cache.wf()
    }

    /// An empty cache.
    pub fn new() -> (actor: Self)
        ensures
            actor.wf(),
            actor@ == Map::<Seq<char>, EntryView>::empty(),
    {
        let actor = Self { cache: StringMap::new() };
        assert(actor@ =~= Map::<Seq<char>, EntryView>::empty());
        actor
    }

    /// The number of entries held, expired ones among them.
    pub fn len(&self) -> (n: usize)
        requires
            self.wf(),
        ensures
            n == self@.dom().len(),
    {
        proof {
            lemma_entries_count(self.cache.entries());
            assert(self@.dom() =~= self.cache@.dom());
        }
        self.cache.len()
    }

    /// The time that the clock shows, in seconds since the epoch.
    pub fn get_current_timestamp(&self) -> (now: u64)
        ensures
            now <= latest_reading(),
    {
        unix_now()
    }

    /// Looks `msg.key` up at time `now`: a served entry is answered with its
    /// bytes; an expired one is removed and reported as expired; a missing
    /// one is reported as a miss.
    pub fn fetch_at(&mut self, msg: &FetchData, now: u64) -> (r: Result<Vec<u8>, UserError>)
        requires
            old(self).wf(),
        ensures
            final(self).wf(),
            final(self)@ == cache_after_lookup(old(self)@, msg.key@, now),
            lookup_answer(old(self)@, msg.key@, now, r),
    {
        let ghost before = self@;
        let found: Option<Vec<u8>> = match self.cache.get(&msg.key) {
            Some(entry) => {
                let is_expired = match entry.expires_at {
                    Some(at) => at <= now,
                    None => false,
                };
                if is_expired {
                    None
                } else {
                    let copy = entry.data.clone();
                    assert(copy@ =~= entry.data@);
                    Some(copy)
                }
            },
            None => {
                return Err(UserError::CacheMiss);
            },
        };
        match found {
            Some(data) => Ok(data),
            None => {
                let _ = self.cache.remove(&msg.key);
                assert(self@ =~= before.remove(msg.key@));
                Err(UserError::CacheExpired)
            },
        }
    }

    /// Looks `msg.key` up at the time that the clock shows.
    pub fn fetch(&mut self, msg: &FetchData) -> (r: Result<Vec<u8>, UserError>)
        requires
            old(self).wf(),
        ensures
            final(self).wf(),
            exists|now: u64|
                now <= latest_reading() && final(self)@ == #[trigger] cache_after_lookup(
                    old(self)@,
                    msg.key@,
                    now,
                ) && lookup_answer(old(self)@, msg.key@, now, r),
    {
        let now: u64 = self.get_current_timestamp();
        self.fetch_at(msg, now)
    }

    /// Caches `msg.data` under `msg.key` at time `now`, in place of what was
    /// there, to be served for `msg.ttl` seconds.
    pub fn store_at(&mut self, msg: CacheData, now: u64) -> (r: Result<(), UserError>)
        requires
            old(self).wf(),
        ensures
            final(self).wf(),
            r is Ok,
            final(self)@ == cache_after_store(old(self)@, msg.key@, msg.data@, msg.ttl, now),
    {
        let ghost before = self@;
        let expires_at: Option<u64> = match msg.ttl {
            Some(ttl) => now.checked_add(ttl),
            None => None,
        };
        self.cache.insert(msg.key, CacheEntry { data: msg.data, expires_at });
        assert(self@ =~= cache_after_store(before, msg.key@, msg.data@, msg.ttl, now));
        Ok(())
    }

    /// Caches `msg.data` under `msg.key` at the time that the clock shows.
    pub fn store(&mut self, msg: CacheData) -> (r: Result<(), UserError>)
        requires
            old(self).wf(),
        ensures
            final(self).wf(),
            r is Ok,
            exists|now: u64|
                now <= latest_reading() && final(self)@ == #[trigger] cache_after_store(
                    old(self)@,
                    msg.key@,
                    msg.data@,
                    msg.ttl,
                    now,
                ),
    {
        let now: u64 = self.get_current_timestamp();
        self.store_at(msg, now)
    }

    /// The sweep at time `now`: removes every entry whose expiry has been
    /// reached.
    pub fn cleanup_at(&mut self, now: u64)
        requires
            old(self).wf(),
        ensures
            final(self).wf(),
            final(self)@ == purged(old(self)@, now),
    {
        let ghost orig = self.cache.entries();
        let ghost keep = served_at(now);
        let mut i: usize = 0;
        let ghost mut j: int = 0;
        proof {
            reveal(Seq::filter);
            assert(orig.take(0) =~= Seq::empty());
            assert(orig.take(0).filter(keep) + orig.skip(0) =~= orig);
        }
        while i < self.cache.len()
            invariant
                self.cache.wf(),
                distinct_keys(orig),
                keep == served_at(now),
                0 <= j <= orig.len(),
                self.cache.entries() == orig.take(j).filter(keep) + orig.skip(j),
                i == orig.take(j).filter(keep).len(),
            decreases orig.len() - j,
        {
            let ghost cur = self.cache.entries();
            let ghost kept = orig.take(j).filter(keep);
            assert(j < orig.len()) by {
                if j >= orig.len() {
                    assert(orig.skip(j).len() == 0);
                }
            }
            assert(cur[i as int] == orig[j]);
            proof {
                lemma_filter_next(orig, j, keep);
            }
            let is_expired = match self.cache.value_at(i).expires_at {
                Some(at) => at <= now,
                None => false,
            };
            if is_expired {
                let _ = self.cache.remove_at(i);
                proof {
                    assert(self.cache.entries() =~= kept + orig.skip(j + 1));
                }
            } else {
                i = i + 1;
                proof {
                    assert(self.cache.entries() =~= kept.push(orig[j]) + orig.skip(j + 1));
                }
            }
            proof {
                j = j + 1;
            }
        }
        proof {
            if j < orig.len() {
                assert(orig.skip(j).len() > 0);
            }
            assert(orig.take(j) =~= orig);
            assert(self.cache.entries() =~= orig.filter(keep));
            lemma_filter_entries(orig, keep);
            let ghost before = entries_map(orig).map_values(|e: CacheEntry| e@);
            assert(self@ =~= purged(before, now));
        }
    }

    /// The sweep at the time that the clock shows.
    pub fn cleanup(&mut self)
        requires
            old(self).wf(),
        ensures
            final(self).wf(),
            exists|now: u64|
                now <= latest_reading() && final(self)@ == #[trigger] purged(old(self)@, now),
    {
        let now: u64 = self.get_current_timestamp();
        self.cleanup_at(now)
    }
}

/// The answer of the backend as the answer of the storage actor: a failure
/// of the backend is passed on as a failure of the store.
pub fn store_reply<T>(reply: Result<T, StorageError>) -> (r: Result<T, UserError>)
    ensures
        r == match reply {
            Ok(v) => Ok::<T, UserError>(v),
            Err(e) => Err::<T, UserError>(UserError::Storage(e)),
        },
{
    match reply {
        Ok(v) => Ok(v),
        Err(e) => Err(UserError::Storage(e)),
    }
}

/// The actor in front of the key-value store. Without a backend it is
/// unavailable: it refuses every write and answers no read.
pub struct StorageActor {
    backend: Option<SledStorage>,
}

impl StorageActor {
    /// What the store holds, or `None` where no backend is attached.
    pub closed spec fn contents(&self) -> Option<Map<Seq<char>, Seq<u8>>> {
        match self.backend {
            Some(store) => Some(store.contents()),
            None => None,
        }
    }

    /// The backend, if there is one, is in a consistent state.
    pub closed spec fn wf(&self) -> bool {
        match self.backend {
            Some(store) => store.usable(),
            None => true,
        }
    }

    /// An actor without a backend.
    pub fn new() -> (actor: Self)
        ensures
            actor.wf(),
            actor.contents() is None,
    {
        Self { backend: None }
    }

    /// An actor in front of `backend`.
    pub fn with_backend(backend: SledStorage) -> (actor: Self)
        requires
            backend.usable(),
        ensures
            actor.wf(),
            actor.contents() == Some(backend.contents()),
    {
        Self { backend: Some(backend) }
    }

    /// Reads what the store holds under `msg.key`.
    pub fn fetch(&self, msg: &FetchData) -> (r: Result<Vec<u8>, UserError>)
        requires
            self.wf(),
        ensures
            match stored(self.contents(), msg.key@) {
                Some(data) => r is Ok && r->Ok_0@ == data,
                None => if self.contents() is None {
                    r matches Err(UserError::Storage(StorageError::Unavailable))
                } else {
                    r matches Err(UserError::Storage(StorageError::KeyNotFound(k))) && k@
                        == msg.key@
                },
            },
    {
        match &self.backend {
            Some(store) => store_reply(store.load(msg.key.as_str())),
            None => Err(UserError::Storage(StorageError::Unavailable)),
        }
    }

    /// Writes `msg.data` under `msg.key`. A store without backend refuses
    /// the write with `Unavailable`.
    pub fn store(&mut self, msg: &StoreData) -> (r: Result<(), UserError>)
        requires
            old(self).wf(),
        ensures
            final(self).wf(),
            store_answer(old(self).contents(), r),
            final(self).contents() == storage_after_store(
                old(self).contents(),
                msg.key@,
                msg.data@,
            ),
    {
        match &mut self.backend {
            Some(store) => store_reply(store.save(msg.key.as_str(), msg.data.as_slice())),
            None => Err(UserError::Storage(StorageError::Unavailable)),
        }
    }
}

/// One of the recent items made up for a user: item number `i` as seen at
/// time `now`.
pub open spec fn is_recent_item(item: DataItem, i: nat, now: u64) -> bool {
    &&& item.id@ == "item_"@ + decimal(i)
    &&& item.title@ == "Item "@ + decimal(i)
    &&& item.content@ == "Content for item "@ + decimal(i)
    &&& item.created_at == now - i * ITEM_CREATED_STEP_SECS
    &&& item.updated_at == now - i * ITEM_UPDATED_STEP_SECS
}

/// The number of items that a request asks for.
pub open spec fn recent_limit(limit: Option<usize>) -> nat {
    match limit {
        Some(n) => n as nat,
        None => DEFAULT_RECENT_LIMIT as nat,
    }
}

/// The creation time of every one of `limit` recent items lies at or after
/// the epoch.
pub open spec fn recent_span_fits(limit: nat, now: u64) -> bool {
    limit == 0 || (limit - 1) * ITEM_CREATED_STEP_SECS <= now
}

/// The answer to a request for recent items at time `now`.
pub open spec fn recent_data_post(msg: FetchRecentData, now: u64, r: Result<UserData, UserError>)
    -> bool {
    if recent_span_fits(recent_limit(msg.limit), now) {
        &&& r is Ok
        &&& r->Ok_0.user_id == msg.user_id
        &&& r->Ok_0.last_updated == now
        &&& r->Ok_0.items@.len() == recent_limit(msg.limit)
        &&& forall|i: int|
            0 <= i < r->Ok_0.items@.len() ==> is_recent_item(
                #[trigger] r->Ok_0.items@[i],
                i as nat,
                now,
            )
    } else {
        r matches Err(UserError::TimeRange)
    }
}

/// The response to a request of the user interface for recent items at
/// time `now`: the items of `recent_data_post`, or its failure as a text
/// with no items.
pub open spec fn user_data_post(msg: FetchUserDataRequest, now: u64, r: UserDataResponse) -> bool {
    if recent_span_fits(recent_limit(msg.limit), now) {
        &&& r.user_id == msg.user_id
        &&& r.last_updated == now
        &&& r.error is None
        &&& r.items@.len() == recent_limit(msg.limit)
        &&& forall|i: int|
            0 <= i < r.items@.len() ==> is_recent_item(#[trigger] r.items@[i], i as nat, now)
    } else {
        &&& r.user_id == msg.user_id
        &&& r.items@.len() == 0
        &&& r.last_updated == 0
        &&& r.error is Some
        &&& r.error->0@ == UserError::TimeRange.text()
    }
}

/// The identifier of an item created at `millis` milliseconds since the
/// epoch.
pub open spec fn item_id_text(millis: u64) -> Seq<char> {
    "item_"@ + decimal(millis as nat)
}

/// The identifier of an item created at `millis` milliseconds since the
/// epoch.
pub fn item_id_at(millis: u64) -> (id: String)
    ensures
        id@ == item_id_text(millis),
{
    let mut id = String::from_str("item_");
    push_decimal(&mut id, millis);
    id
}

/// `label` followed by the decimal numeral of `n`.
fn numbered(label: &str, n: u64) -> (s: String)
    ensures
        s@ == label@ + decimal(n as nat),
{
    let mut s = String::from_str(label);
    push_decimal(&mut s, n);
    s
}

/// The title of an updated item that names none.
pub open spec fn default_title() -> Seq<char> {
    "Updated Item"@
}

/// The content of an updated item that names none.
pub open spec fn default_content() -> Seq<char> {
    "Updated content"@
}

/// Where a fetch stands, with the answer that has just come in. An answer
/// that never came because the actor asked is gone counts as a failure.
#[derive(Debug)]
pub enum FetchEvent {
    /// A fetch was asked for.
    Start(FetchData),
    /// The cache answered the lookup.
    CacheAnswered { msg: FetchData, reply: Result<Vec<u8>, UserError> },
    /// The store answered the read.
    StorageAnswered { msg: FetchData, reply: Result<Vec<u8>, UserError> },
    /// The cache answered the refill with what the store held.
    CacheFilled { data: Vec<u8>, reply: Result<(), UserError> },
}

/// What a fetch does next.
#[derive(Debug)]
pub enum FetchStep {
    /// Look the key up in the cache.
    AskCache(FetchData),
    /// Read the key from the store.
    AskStorage(FetchData),
    /// Refill the cache with `request`; `data` is what the store held.
    FillCache { request: CacheData, data: Vec<u8> },
    /// The fetch is over.
    Done(Result<Vec<u8>, UserError>),
}

/// The next step of a fetch: the cache is asked first, and its bytes end the
/// fetch; any failure of the cache sends the fetch to the store; what the
/// store holds refills the cache for `CACHE_REFILL_TTL_SECS` and is the
/// answer, whatever the cache says to the refill; any failure of the store
/// ends the fetch with `NotFound`.
pub open spec fn fetch_step_post(event: FetchEvent, step: FetchStep) -> bool {
    match event {
        FetchEvent::Start(msg) => step == FetchStep::AskCache(msg),
        FetchEvent::CacheAnswered { msg, reply } => match reply {
            Ok(data) => step == FetchStep::Done(Ok(data)),
            Err(_) => step == FetchStep::AskStorage(msg),
        },
        FetchEvent::StorageAnswered { msg, reply } => match reply {
            Ok(data) => {
                &&& step matches FetchStep::FillCache { request, data: held }
                &&& held == data
                &&& request.key == msg.key
                &&& request.data@ == data@
                &&& request.ttl == Some(CACHE_REFILL_TTL_SECS)
            },
            Err(_) => step == FetchStep::Done(Err(UserError::NotFound)),
        },
        FetchEvent::CacheFilled { data, reply } => step == FetchStep::Done(Ok(data)),
    }
}

/// The next step of a fetch after `event`.
pub fn fetch_step(event: FetchEvent) -> (step: FetchStep)
    ensures
        fetch_step_post(event, step),
{
    match event {
        FetchEvent::Start(msg) => FetchStep::AskCache(msg),
        FetchEvent::CacheAnswered { msg, reply } => match reply {
            Ok(data) => FetchStep::Done(Ok(data)),
            Err(_) => FetchStep::AskStorage(msg),
        },
        FetchEvent::StorageAnswered { msg, reply } => match reply {
            Ok(data) => {
                let copy = data.clone();
                assert(copy@ =~= data@);
                FetchStep::FillCache {
                    request: CacheData {
                        key: msg.key,
                        data: copy,
                        ttl: Some(CACHE_REFILL_TTL_SECS),
                    },
                    data,
                }
            },
            Err(_) => FetchStep::Done(Err(UserError::NotFound)),
        },
        FetchEvent::CacheFilled { data, reply } => FetchStep::Done(Ok(data)),
    }
}

/// Where a write stands, with the answer that has just come in.
#[derive(Debug)]
pub enum StoreEvent {
    /// A write was asked for.
    Start(StoreData),
    /// The store answered the write; `next` is what goes to the cache.
    StorageAnswered { next: CacheData, reply: Result<(), UserError> },
    /// The cache answered.
    CacheAnswered { reply: Result<(), UserError> },
}

/// What a write does next.
#[derive(Debug)]
pub enum StoreStep {
    /// Write `request` to the store; `next` is what goes to the cache after.
    AskStorage { request: StoreData, next: CacheData },
    /// Hand the data to the cache.
    AskCache(CacheData),
    /// The write is over.
    Done(Result<(), UserError>),
}

/// The next step of a write: the store is asked first; a failure of the
/// store ends the write with that failure, before the cache has seen the
/// data; once the store has taken the data the cache is asked, and the write
/// has succeeded whatever the cache answers.
pub open spec fn store_step_post(event: StoreEvent, step: StoreStep) -> bool {
    match event {
        StoreEvent::Start(msg) => {
            &&& step matches StoreStep::AskStorage { request, next }
            &&& request == msg
            &&& next.key == msg.key
            &&& next.data@ == msg.data@
            &&& next.ttl == msg.ttl
        },
        StoreEvent::StorageAnswered { next, reply } => match reply {
            Ok(_) => step == StoreStep::AskCache(next),
            Err(e) => step == StoreStep::Done(Err(e)),
        },
        StoreEvent::CacheAnswered { reply } => step == StoreStep::Done(Ok(())),
    }
}

/// The next step of a write after `event`.
pub fn store_step(event: StoreEvent) -> (step: StoreStep)
    ensures
        store_step_post(event, step),
{
    match event {
        StoreEvent::Start(msg) => {
            let data = msg.data.clone();
            assert(data@ =~= msg.data@);
            let next = CacheData { key: msg.key.clone(), data, ttl: msg.ttl };
            StoreStep::AskStorage { request: msg, next }
        },
        StoreEvent::StorageAnswered { next, reply } => match reply {
            Ok(_) => StoreStep::AskCache(next),
            Err(e) => StoreStep::Done(Err(e)),
        },
        StoreEvent::CacheAnswered { reply } => StoreStep::Done(Ok(())),
    }
}

/// How far a fetch has to go after `event`.
pub open spec fn fetch_distance(event: FetchEvent) -> nat {
    match event {
        FetchEvent::Start(_) => 3,
        FetchEvent::CacheAnswered { .. } => 2,
        FetchEvent::StorageAnswered { .. } => 1,
        FetchEvent::CacheFilled { .. } => 0,
    }
}

/// How far a write has to go after `event`.
pub open spec fn store_distance(event: StoreEvent) -> nat {
    match event {
        StoreEvent::Start(_) => 2,
        StoreEvent::StorageAnswered { .. } => 1,
        StoreEvent::CacheAnswered { .. } => 0,
    }
}

/// What holds while a data manager that started with `cache0` and `storage0`
/// fetches `key` at `now`, when `event` has come in and its cache is `cache`.
pub open spec fn fetch_progress(
    cache0: Map<Seq<char>, EntryView>,
    storage0: Option<Map<Seq<char>, Seq<u8>>>,
    key: Seq<char>,
    now: u64,
    cache: Map<Seq<char>, EntryView>,
    event: FetchEvent,
) -> bool {
    match event {
        FetchEvent::Start(msg) => msg.key@ == key && cache == cache0,
        FetchEvent::CacheAnswered { msg, reply } => {
            &&& msg.key@ == key
            &&& cache == cache_after_lookup(cache0, key, now)
            &&& lookup_answer(cache0, key, now, reply)
        },
        FetchEvent::StorageAnswered { msg, reply } => {
            &&& msg.key@ == key
            &&& !cache_hit(cache0, key, now)
            &&& cache == cache_after_lookup(cache0, key, now)
            &&& match stored(storage0, key) {
                Some(data) => reply is Ok && reply->Ok_0@ == data,
                None => reply is Err,
            }
        },
        FetchEvent::CacheFilled { data, reply } => {
            &&& !cache_hit(cache0, key, now)
            &&& stored(storage0, key) == Some(data@)
            &&& cache == cache_after_fetch(cache0, storage0, key, now)
        },
    }
}

/// What holds while a data manager that started with `cache0` and `storage0`
/// stores `data` under `key` at `now` for `ttl` seconds, when `event` has
/// come in and its cache and store are `cache` and `storage`.
pub open spec fn store_progress(
    cache0: Map<Seq<char>, EntryView>,
    storage0: Option<Map<Seq<char>, Seq<u8>>>,
    key: Seq<char>,
    data: Seq<u8>,
    ttl: Option<u64>,
    now: u64,
    cache: Map<Seq<char>, EntryView>,
    storage: Option<Map<Seq<char>, Seq<u8>>>,
    event: StoreEvent,
) -> bool {
    match event {
        StoreEvent::Start(msg) => {
            &&& msg.key@ == key
            &&& msg.data@ == data
            &&& msg.ttl == ttl
            &&& cache == cache0
            &&& storage == storage0
        },
        StoreEvent::StorageAnswered { next, reply } => {
            &&& next.key@ == key
            &&& next.data@ == data
            &&& next.ttl == ttl
            &&& cache == cache0
            &&& storage == storage_after_store(storage0, key, data)
            &&& store_answer(storage0, reply)
        },
        StoreEvent::CacheAnswered { reply } => {
            &&& store_accepts(storage0)
            &&& cache == cache_after_store(cache0, key, data, ttl, now)
            &&& storage == storage_after_store(storage0, key, data)
        },
    }
}

/// The data manager.
pub struct DataManagerActor {
    cache_actor: CacheActor,
    storage_actor: StorageActor,
    network_manager: ActorAddress,
}

impl DataManagerActor {
    /// The cache, each entry under its key.
    pub closed spec fn cache(&self) -> Map<Seq<char>, EntryView> {
        self.cache_actor@
    }

    /// What the store holds, or `None` where no backend is attached.
    pub closed spec fn storage(&self) -> Option<Map<Seq<char>, Seq<u8>>> {
        self.storage_actor.contents()
    }

    /// The address of the network manager in use.
    pub closed spec fn network(&self) -> ActorAddress {
        self.network_manager
    }

    /// The cache and the store are consistent.
    pub closed spec fn wf(&self) -> bool {
        self.cache_actor.wf() && self.storage_actor.wf()
    }

    /// A data manager with an empty cache and an empty store, that uses the
    /// network manager at `network_manager`.
    pub fn new(network_manager: ActorAddress) -> (actor: Self)
        ensures
            actor.wf(),
            actor.cache() == Map::<Seq<char>, EntryView>::empty(),
            actor.storage() == Some(Map::<Seq<char>, Seq<u8>>::empty()),
            actor.network() == network_manager,
    {
        Self {
            cache_actor: CacheActor::new(),
            storage_actor: StorageActor::with_backend(SledStorage::new("data")),
            network_manager,
        }
    }

    /// A data manager with an empty cache in front of `storage`, that uses
    /// the network manager at `network_manager`.
    pub fn with_storage(network_manager: ActorAddress, storage: StorageActor) -> (actor: Self)
        requires
            storage.wf(),
        ensures
            actor.wf(),
            actor.cache() == Map::<Seq<char>, EntryView>::empty(),
            actor.storage() == storage.contents(),
            actor.network() == network_manager,
    {
        Self { cache_actor: CacheActor::new(), storage_actor: storage, network_manager }
    }

    /// The address of the network manager in use.
    pub fn network_manager(&self) -> (a: ActorAddress)
        ensures
            a == self.network(),
    {
        self.network_manager
    }

    /// An identifier for a new item, stamped with the milliseconds that the
    /// clock shows.
    pub fn generate_item_id(&self) -> (id: String)
        ensures
            exists|millis: u64|
                millis <= latest_reading() && id@ == #[trigger] item_id_text(millis),
    {
        let millis: u64 = unix_now_millis();
        item_id_at(millis)
    }

    /// Fetches `msg.key` at time `now`, reading through the cache.
    pub fn fetch_at(&mut self, msg: &FetchData, now: u64) -> (r: Result<Vec<u8>, UserError>)
        requires
            old(self).wf(),
        ensures
            final(self).wf(),
            final(self).storage() == old(self).storage(),
            final(self).network() == old(self).network(),
            final(self).cache() == cache_after_fetch(
                old(self).cache(),
                old(self).storage(),
                msg.key@,
                now,
            ),
            match fetch_outcome(old(self).cache(), old(self).storage(), msg.key@, now) {
                Some(data) => r is Ok && r->Ok_0@ == data,
                None => r matches Err(UserError::NotFound),
            },
    {
        let ghost cache0 = self.cache();
        let ghost storage0 = self.storage();
        let user_id = match &msg.user_id {
            Some(id) => Some(id.clone()),
            None => None,
        };
        let mut event = FetchEvent::Start(FetchData { key: msg.key.clone(), user_id });
        loop
            invariant
                self.wf(),
                self.storage() == storage0,
                self.network() == old(self).network(),
                storage0 == old(self).storage(),
                cache0 == old(self).cache(),
                fetch_progress(cache0, storage0, msg.key@, now, self.cache(), event),
            decreases fetch_distance(event),
        {
            match fetch_step(event) {
                FetchStep::AskCache(request) => {
                    let reply = self.cache_actor.fetch_at(&request, now);
                    event = FetchEvent::CacheAnswered { msg: request, reply };
                },
                FetchStep::AskStorage(request) => {
                    let reply = self.storage_actor.fetch(&request);
                    event = FetchEvent::StorageAnswered { msg: request, reply };
                },
                FetchStep::FillCache { request, data } => {
                    let reply = self.cache_actor.store_at(request, now);
                    assert(self.cache() =~= cache_after_fetch(cache0, storage0, msg.key@, now));
                    event = FetchEvent::CacheFilled { data, reply };
                },
                FetchStep::Done(r) => {
                    return r;
                },
            }
        }
    }

    /// Fetches `msg.key` at the time that the clock shows.
    pub fn fetch(&mut self, msg: &FetchData) -> (r: Result<Vec<u8>, UserError>)
        requires
            old(self).wf(),
        ensures
            final(self).wf(),
            final(self).storage() == old(self).storage(),
            final(self).network() == old(self).network(),
            exists|now: u64|
                now <= latest_reading() && final(self).cache() == #[trigger] cache_after_fetch(
                    old(self).cache(),
                    old(self).storage(),
                    msg.key@,
                    now,
                ) && match fetch_outcome(old(self).cache(), old(self).storage(), msg.key@, now) {
                    Some(data) => r is Ok && r->Ok_0@ == data,
                    None => r matches Err(UserError::NotFound),
                },
    {
        let now: u64 = unix_now();
        self.fetch_at(msg, now)
    }

    /// Stores `msg.data` under `msg.key` at time `now`: in the store first,
    /// and only after the store has taken it in the cache, for `msg.ttl`
    /// seconds. A write that the store refuses fails with the store's error
    /// and leaves the cache as it was.
    pub fn store_at(&mut self, msg: StoreData, now: u64) -> (r: Result<(), UserError>)
        requires
            old(self).wf(),
        ensures
            final(self).wf(),
            final(self).network() == old(self).network(),
            store_answer(old(self).storage(), r),
            final(self).storage() == storage_after_store(
                old(self).storage(),
                msg.key@,
                msg.data@,
            ),
            final(self).cache() == cache_after_write(
                old(self).cache(),
                old(self).storage(),
                msg.key@,
                msg.data@,
                msg.ttl,
                now,
            ),
    {
        let ghost cache0 = self.cache();
        let ghost storage0 = self.storage();
        let mut event = StoreEvent::Start(msg);
        loop
            invariant
                self.wf(),
                self.network() == old(self).network(),
                storage0 == old(self).storage(),
                cache0 == old(self).cache(),
                store_progress(
                    cache0,
                    storage0,
                    msg.key@,
                    msg.data@,
                    msg.ttl,
                    now,
                    self.cache(),
                    self.storage(),
                    event,
                ),
            decreases store_distance(event),
        {
            match store_step(event) {
                StoreStep::AskStorage { request, next } => {
                    let reply = self.storage_actor.store(&request);
                    event = StoreEvent::StorageAnswered { next, reply };
                },
                StoreStep::AskCache(request) => {
                    let reply = self.cache_actor.store_at(request, now);
                    event = StoreEvent::CacheAnswered { reply };
                },
                StoreStep::Done(r) => {
                    return r;
                },
            }
        }
    }

    /// Stores `msg.data` under `msg.key` at the time that the clock shows.
    pub fn store(&mut self, msg: StoreData) -> (r: Result<(), UserError>)
        requires
            old(self).wf(),
        ensures
            final(self).wf(),
            final(self).network() == old(self).network(),
            store_answer(old(self).storage(), r),
            final(self).storage() == storage_after_store(
                old(self).storage(),
                msg.key@,
                msg.data@,
            ),
            exists|now: u64|
                now <= latest_reading() && final(self).cache() == #[trigger] cache_after_write(
                    old(self).cache(),
                    old(self).storage(),
                    msg.key@,
                    msg.data@,
                    msg.ttl,
                    now,
                ),
    {
        let now: u64 = unix_now();
        self.store_at(msg, now)
    }

    /// Sweeps the cache at time `now`.
    pub fn cleanup_cache_at(&mut self, now: u64)
        requires
            old(self).wf(),
        ensures
            final(self).wf(),
            final(self).storage() == old(self).storage(),
            final(self).network() == old(self).network(),
            final(self).cache() == purged(old(self).cache(), now),
    {
        self.cache_actor.cleanup_at(now);
    }

    /// Sweeps the cache at the time that the clock shows.
    pub fn cleanup_cache(&mut self)
        requires
            old(self).wf(),
        ensures
            final(self).wf(),
            final(self).storage() == old(self).storage(),
            final(self).network() == old(self).network(),
            exists|now: u64|
                now <= latest_reading() && final(self).cache() == #[trigger] purged(
                    old(self).cache(),
                    now,
                ),
    {
        let now: u64 = unix_now();
        self.cleanup_cache_at(now)
    }

    /// Takes the address of the network manager to use from now on, in
    /// place of the one held.
    pub fn update_network_dependency(&mut self, msg: UpdateNetworkDependency)
        ensures
            final(self).network() == msg.0,
            final(self).cache() == old(self).cache(),
            final(self).storage() == old(self).storage(),
            old(self).wf() ==> final(self).wf(),
    {
        self.network_manager = msg.0;
    }

    /// Answers a request for a user's recent items at time `now` with as
    /// many made-up items as asked for, the newest first; or with
    /// `TimeRange` where the oldest would lie before the epoch.
    pub fn fetch_recent_at(&self, msg: FetchRecentData, now: u64) -> (r: Result<
        UserData,
        UserError,
    >)
        ensures
            recent_data_post(msg, now, r),
    {
        let limit: usize = match msg.limit {
            Some(n) => n,
            None => DEFAULT_RECENT_LIMIT,
        };
        if limit > 0 && ((limit - 1) as u64) > now / ITEM_CREATED_STEP_SECS {
            assert(!recent_span_fits(limit as nat, now)) by (nonlinear_arith)
                requires
                    limit > 0,
                    (limit - 1) > now / ITEM_CREATED_STEP_SECS,
                    ITEM_CREATED_STEP_SECS == 3600,
                    recent_span_fits(limit as nat, now) == (limit == 0 || (limit - 1)
                        * ITEM_CREATED_STEP_SECS <= now),
            ;
            return Err(UserError::TimeRange);
        }
        assert(recent_span_fits(limit as nat, now)) by (nonlinear_arith)
            requires
                limit == 0 || (limit - 1) <= now / ITEM_CREATED_STEP_SECS,
                ITEM_CREATED_STEP_SECS == 3600,
                recent_span_fits(limit as nat, now) == (limit == 0 || (limit - 1)
                    * ITEM_CREATED_STEP_SECS <= now),
        ;
        let mut items: Vec<DataItem> = Vec::new();
        let mut i: usize = 0;
        while i < limit
            invariant
                0 <= i <= limit,
                limit == 0 || (limit - 1) * ITEM_CREATED_STEP_SECS <= now,
                items@.len() == i,
                forall|k: int| 0 <= k < i ==> is_recent_item(#[trigger] items@[k], k as nat, now),
            decreases limit - i,
        {
            let n: u64 = i as u64;
            assert(n * ITEM_CREATED_STEP_SECS <= now && n * ITEM_UPDATED_STEP_SECS <= now)
                by (nonlinear_arith)
                requires
                    n <= limit - 1,
                    (limit - 1) * ITEM_CREATED_STEP_SECS <= now,
                    ITEM_CREATED_STEP_SECS == 3600,
                    ITEM_UPDATED_STEP_SECS == 1800,
            ;
            let item = DataItem {
                id: numbered("item_", n),
                title: numbered("Item ", n),
                content: numbered("Content for item ", n),
                created_at: now - n * ITEM_CREATED_STEP_SECS,
                updated_at: now - n * ITEM_UPDATED_STEP_SECS,
            };
            items.push(item);
            i = i + 1;
        }
        Ok(UserData { user_id: msg.user_id, items, last_updated: now })
    }

    /// Answers a request for a user's recent items at the time that the
    /// clock shows.
    pub fn fetch_recent(&self, msg: FetchRecentData) -> (r: Result<UserData, UserError>)
        ensures
            exists|now: u64| now <= latest_reading() && #[trigger] recent_data_post(msg, now, r),
    {
        let now: u64 = unix_now();
        self.fetch_recent_at(msg, now)
    }

    /// Handles a request of the user interface for a user's recent items at
    /// time `now`, and reports the answer.
    pub fn fetch_user_data_at(&self, msg: FetchUserDataRequest, now: u64) -> (r: UserDataResponse)
        ensures
            user_data_post(msg, now, r),
    {
        let user_id = msg.user_id.clone();
        let request = FetchRecentData { user_id: msg.user_id, limit: msg.limit };
        match self.fetch_recent_at(request, now) {
            Ok(data) => UserDataResponse {
                user_id: data.user_id,
                items: data.items,
                last_updated: data.last_updated,
                error: None,
            },
            Err(e) => UserDataResponse {
                user_id,
                items: Vec::new(),
                last_updated: 0,
                error: Some(e.message()),
            },
        }
    }

    /// Handles a request of the user interface for a user's recent items at
    /// the time that the clock shows.
    pub fn fetch_user_data(&self, msg: FetchUserDataRequest) -> (r: UserDataResponse)
        ensures
            exists|now: u64| now <= latest_reading() && #[trigger] user_data_post(msg, now, r),
    {
        let now: u64 = unix_now();
        self.fetch_user_data_at(msg, now)
    }

    /// Handles a request to create an item at time `now`, `millis`
    /// milliseconds since the epoch: announces the item, identified by the
    /// milliseconds and stamped with the time.
    pub fn create_item_at(&self, msg: CreateDataItemRequest, now: u64, millis: u64) -> (s:
        DataItemCreatedSignal)
        ensures
            s.user_id == msg.user_id,
            s.item.id@ == item_id_text(millis),
            s.item.title == msg.title,
            s.item.content == msg.content,
            s.item.created_at == now,
            s.item.updated_at == now,
    {
        let item = DataItem {
            id: item_id_at(millis),
            title: msg.title,
            content: msg.content,
            created_at: now,
            updated_at: now,
        };
        DataItemCreatedSignal { user_id: msg.user_id, item }
    }

    /// Handles a request to create an item at the time that the clock shows.
    pub fn create_item(&self, msg: CreateDataItemRequest) -> (s: DataItemCreatedSignal)
        ensures
            s.user_id == msg.user_id,
            s.item.title == msg.title,
            s.item.content == msg.content,
            s.item.created_at == s.item.updated_at,
            s.item.created_at <= latest_reading(),
            exists|millis: u64|
                millis <= latest_reading() && s.item.id@ == #[trigger] item_id_text(millis),
    {
        let now: u64 = unix_now();
        let millis: u64 = unix_now_millis();
        self.create_item_at(msg, now, millis)
    }

    /// How a request to change an item at time `now` is answered: with the
    /// item as changed, created an hour before and updated at `now`, a part
    /// that the request leaves open filled with its default; or with
    /// `TimeRange` where an hour before `now` lies before the epoch.
    pub open spec fn update_item_post(
        msg: UpdateDataItemRequest,
        now: u64,
        r: Result<DataItemUpdatedSignal, UserError>,
    ) -> bool {
        if now >= ITEM_CREATED_STEP_SECS {
            &&& r is Ok
            &&& r->Ok_0.user_id == msg.user_id
            &&& r->Ok_0.item.id == msg.item_id
            &&& r->Ok_0.item.title@ == match msg.title {
                Some(t) => t@,
                None => default_title(),
            }
            &&& r->Ok_0.item.content@ == match msg.content {
                Some(c) => c@,
                None => default_content(),
            }
            &&& r->Ok_0.item.created_at == now - ITEM_CREATED_STEP_SECS
            &&& r->Ok_0.item.updated_at == now
        } else {
            r matches Err(UserError::TimeRange)
        }
    }

    /// Handles a request to change an item at time `now`.
    pub fn update_item_at(&self, msg: UpdateDataItemRequest, now: u64) -> (r: Result<
        DataItemUpdatedSignal,
        UserError,
    >)
        ensures
            Self::update_item_post(msg, now, r),
    {
        if now < ITEM_CREATED_STEP_SECS {
            return Err(UserError::TimeRange);
        }
        let title = match msg.title {
            Some(t) => t,
            None => String::from_str("Updated Item"),
        };
        let content = match msg.content {
            Some(c) => c,
            None => String::from_str("Updated content"),
        };
        let item = DataItem {
            id: msg.item_id,
            title,
            content,
            created_at: now - ITEM_CREATED_STEP_SECS,
            updated_at: now,
        };
        Ok(DataItemUpdatedSignal { user_id: msg.user_id, item })
    }

    /// Handles a request to change an item at the time that the clock shows.
    pub fn update_item(&self, msg: UpdateDataItemRequest) -> (r: Result<
        DataItemUpdatedSignal,
        UserError,
    >)
        ensures
            exists|now: u64|
                now <= latest_reading() && #[trigger] Self::update_item_post(msg, now, r),
    {
        let now: u64 = unix_now();
        self.update_item_at(msg, now)
    }

    /// Handles a request to delete an item: announces the deletion.
    pub fn delete_item(&self, msg: DeleteDataItemRequest) -> (s: DataItemDeletedSignal)
        ensures
            s.user_id == msg.user_id,
            s.item_id == msg.item_id,
    {
        DataItemDeletedSignal { user_id: msg.user_id, item_id: msg.item_id }
    }
}

/// Round trip: once a store has taken `data` under `key` at time `now`, a
/// fetch of `key` finds `data`, at that time and at any later one, whatever
/// the cache and the store held before and whatever the `ttl`. At time `now`
/// itself the fetch is a cache hit unless the `ttl` is zero.
pub proof fn lemma_store_fetch_round_trip(
    cache: Map<Seq<char>, EntryView>,
    storage: Option<Map<Seq<char>, Seq<u8>>>,
    key: Seq<char>,
    data: Seq<u8>,
    ttl: Option<u64>,
    now: u64,
    later: u64,
)
    requires
        store_accepts(storage),
    ensures
        fetch_outcome(
            cache_after_write(cache, storage, key, data, ttl, now),
            storage_after_store(storage, key, data),
            key,
            later,
        ) == Some(data),
        cache_hit(cache_after_write(cache, storage, key, data, ttl, now), key, now) <==> ttl
            != Some(0u64),
{
}

/// A refused write leaves no trace: where the store has no backend, the
/// cache and the store are as before, so a fetch finds what it found before.
pub proof fn lemma_refused_write_changes_nothing(
    cache: Map<Seq<char>, EntryView>,
    storage: Option<Map<Seq<char>, Seq<u8>>>,
    key: Seq<char>,
    data: Seq<u8>,
    ttl: Option<u64>,
    now: u64,
)
    requires
        !store_accepts(storage),
    ensures
        cache_after_write(cache, storage, key, data, ttl, now) == cache,
        storage_after_store(storage, key, data) == storage,
{
}

/// No stale value: once `ttl` seconds have passed since `data` was cached
/// under `key`, a fetch of `key` is no cache hit. It finds what the store
/// holds, and a sweep removes the entry.
pub proof fn lemma_no_stale_value(
    cache: Map<Seq<char>, EntryView>,
    storage: Option<Map<Seq<char>, Seq<u8>>>,
    key: Seq<char>,
    data: Seq<u8>,
    ttl: u64,
    now: u64,
    later: u64,
)
    requires
        later >= now + ttl,
    ensures
        !cache_hit(cache_after_store(cache, key, data, Some(ttl), now), key, later),
        fetch_outcome(cache_after_store(cache, key, data, Some(ttl), now), storage, key, later)
            == stored(storage, key),
        !purged(cache_after_store(cache, key, data, Some(ttl), now), later).contains_key(key),
        cache_after_lookup(cache_after_store(cache, key, data, Some(ttl), now), key, later)
            == cache.remove(key),
{
    let c = cache_after_store(cache, key, data, Some(ttl), now);
    assert(c.remove(key) =~= cache.remove(key));
}

/// While fewer than `ttl` seconds have passed since `data` was cached under
/// `key`, every fetch of `key` is a cache hit and finds `data`; and without
/// a `ttl` every fetch at any time is.
pub proof fn lemma_fresh_value_served(
    cache: Map<Seq<char>, EntryView>,
    key: Seq<char>,
    data: Seq<u8>,
    ttl: Option<u64>,
    now: u64,
    later: u64,
)
    requires
        ttl is Some ==> later < now + ttl->0,
    ensures
        cache_hit(cache_after_store(cache, key, data, ttl, now), key, later),
        cache_after_store(cache, key, data, ttl, now)[key].data == data,
{
}

} // verus!
