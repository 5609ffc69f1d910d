//! The background refresh of the product cache: which stores are kept warm, which of them is next, and how long
//! there is nothing to do.
//!
//! [`RefreshWorker`] is a state machine. Its stage says which [`RefreshAction`] is due; the answer to that action
//! is the [`RefreshEvent`] that brings it to its next stage. The stores wait in a queue, the one with the oldest
//! cache entry first.

use crate::text::{str_before, text_before, text_order_is_total, text_order_is_transitive};
use crate::time::{millis_between, SimpleTime};
use vstd::prelude::*;

verus! {

/// Milliseconds before a read considers a cache entry expired. Currently 1 minute.
pub const HIGH_PRIORITY_CACHE_EXPIRY_MILLIS: u64 = 60_000;

/// Seconds before the worker considers a cache entry expired, unless something else is configured. Currently 24 hours.
pub const DEFAULT_LOW_PRIORITY_CACHE_EXPIRY_SECONDS: u64 = 86_400;

/// Some small quantity of time to wait on top of the expiry time, so as to wake a bit after an entry expires and not
/// right before it.
pub const LOW_PRIORITY_CACHE_EXPIRY_FUDGE_MILLIS: u128 = 60_000;

/// Minimum time the worker sleeps for
pub const MIN_SLEEP_MILLIS: u128 = 2_000;

/// Maximum number of stores the worker looks at before it sleeps again
pub const MAX_WORK_COUNT: u16 = 250;

/// A store in the refresh queue. This is NOT the actual cache entry!
#[derive(Debug)]
pub struct StoreQueueRef {
    /// ID of the store in the actual cache
    pub jinxxy_user_id: String,
    /// A copy of the last-known create time of the store's cache entry, which may have changed since.
    pub create_time: SimpleTime,
}

/// Whether a store comes before another one in the queue: its cache entry is older, or as old and its ID is smaller.
pub open spec fn queued_before(a: StoreQueueRef, b: StoreQueueRef) -> bool {
    a.create_time.unix_millis < b.create_time.unix_millis || (a.create_time.unix_millis == b.create_time.unix_millis
        && text_before(a.jinxxy_user_id@, b.jinxxy_user_id@))
}

/// Whether a cache entry is past its expiry time.
pub open spec fn is_expired(create_time: SimpleTime, expiry_seconds: u64, now: SimpleTime) -> bool {
    millis_between(create_time, now) > expiry_seconds * 1000
}

/// The milliseconds until a cache entry is past its expiry time and the extra time on top, or zero if it already is.
pub open spec fn millis_until_expiry(create_time: SimpleTime, expiry_seconds: u64, now: SimpleTime) -> u128 {
    let due = expiry_seconds * 1000 + LOW_PRIORITY_CACHE_EXPIRY_FUDGE_MILLIS;
    let elapsed = millis_between(create_time, now) as int;
    if elapsed >= due {
        0
    } else {
        (due - elapsed) as u128
    }
}

impl StoreQueueRef {
    /// Whether this store comes before another one in the queue
    pub fn is_before(&self, other: &StoreQueueRef) -> (r: bool)
        ensures
            r == queued_before(*self, *other),
    {
        let own: u64 = self.create_time.as_epoch_millis();
        let others: u64 = other.create_time.as_epoch_millis();
        own < others || (own == others && str_before(self.jinxxy_user_id.as_str(), other.jinxxy_user_id.as_str()))
    }

    /// remaining milliseconds until the entry hits the expiration time, or 0 if it's already expired
    pub fn remaining_time_until_low_priority_expiry(&self, expiry_seconds: u64, now: SimpleTime) -> (r: u128)
        ensures
            r == millis_until_expiry(self.create_time, expiry_seconds, now),
    {
        let elapsed: u128 = now.duration_since(self.create_time) as u128;
        let due: u128 = expiry_seconds as u128 * 1000 + LOW_PRIORITY_CACHE_EXPIRY_FUDGE_MILLIS;
        if elapsed >= due {
            0
        } else {
            due - elapsed
        }
    }
}

/// check if a cache entry is _very_ expired
pub fn is_expired_low_priority(create_time: SimpleTime, expiry_seconds: u64, now: SimpleTime) -> (r: bool)
    ensures
        r == is_expired(create_time, expiry_seconds, now),
{
    now.duration_since(create_time) as u128 > expiry_seconds as u128 * 1000
}

/// Whether the queue is in order, and no store is in it twice.
pub open spec fn is_queue(queue: Seq<StoreQueueRef>) -> bool {
    &&& forall|i: int, j: int| 0 <= i < j < queue.len() ==> queued_before(#[trigger] queue[i], #[trigger] queue[j])
    &&& forall|i: int, j: int|
        0 <= i < j < queue.len() ==> (#[trigger] queue[i]).jinxxy_user_id@ != (#[trigger] queue[j]).jinxxy_user_id@
}

/// Whether a store is in the queue.
pub open spec fn is_queued(queue: Seq<StoreQueueRef>, store: Seq<char>) -> bool {
    exists|i: int| 0 <= i < queue.len() && (#[trigger] queue[i]).jinxxy_user_id@ == store
}

/// The position of a store in the queue it is put into: behind all stores that come before it.
pub open spec fn queue_position(queue: Seq<StoreQueueRef>, entry: StoreQueueRef) -> int
    decreases queue.len(),
{
    if queue.len() == 0 || queued_before(entry, queue.first()) {
        0
    } else {
        1 + queue_position(queue.drop_first(), entry)
    }
}

/// The queue with a store put into it.
pub open spec fn queue_insert(queue: Seq<StoreQueueRef>, entry: StoreQueueRef) -> Seq<StoreQueueRef> {
    queue.insert(queue_position(queue, entry), entry)
}

/// The queue without a store.
pub open spec fn queue_remove(queue: Seq<StoreQueueRef>, store: Seq<char>) -> Seq<StoreQueueRef>
    decreases queue.len(),
{
    if queue.len() == 0 {
        queue
    } else if queue.last().jinxxy_user_id@ == store {
        queue_remove(queue.drop_last(), store)
    } else {
        queue_remove(queue.drop_last(), store).push(queue.last())
    }
}

proof fn queue_position_bounds(queue: Seq<StoreQueueRef>, entry: StoreQueueRef)
    ensures
        0 <= queue_position(queue, entry) <= queue.len(),
        queue_position(queue, entry) < queue.len() ==> queued_before(entry, queue[queue_position(queue, entry)]),
        forall|i: int| 0 <= i < queue_position(queue, entry) ==> !queued_before(entry, #[trigger] queue[i]),
    decreases queue.len(),
{
    if queue.len() == 0 || queued_before(entry, queue.first()) {
    } else {
        let rest = queue.drop_first();
        queue_position_bounds(rest, entry);
        let p = queue_position(rest, entry);
        assert(p < rest.len() ==> rest[p] == queue[p + 1]);
        assert forall|i: int| 0 <= i < p + 1 implies !queued_before(entry, #[trigger] queue[i]) by {
            if i > 0 {
                assert(rest[i - 1] == queue[i]);
            }
        }
    }
}

/// A store that is not in the queue yet can be put into it: the queue stays in order, with that store and
/// all others in it.
pub proof fn queue_insert_keeps_order(queue: Seq<StoreQueueRef>, entry: StoreQueueRef)
    requires
        is_queue(queue),
        !is_queued(queue, entry.jinxxy_user_id@),
    ensures
        is_queue(queue_insert(queue, entry)),
        forall|store: Seq<char>|
            #[trigger] is_queued(queue_insert(queue, entry), store) <==> (is_queued(queue, store) || store
                == entry.jinxxy_user_id@),
{
    queue_position_bounds(queue, entry);
    let p = queue_position(queue, entry);
    let q = queue_insert(queue, entry);
    assert(q[p] == entry);
    assert forall|i: int| 0 <= i < q.len() && i != p implies #[trigger] q[i] == queue[if i < p { i } else { i - 1 }] by {}
    assert forall|i: int| 0 <= i < queue.len() implies (#[trigger] queue[i]).jinxxy_user_id@
        != entry.jinxxy_user_id@ by {
        assert(!is_queued(queue, entry.jinxxy_user_id@));
    }
    assert forall|i: int| 0 <= i < p implies queued_before(#[trigger] queue[i], entry) by {
        text_order_is_total(queue[i].jinxxy_user_id@, entry.jinxxy_user_id@);
    }
    assert forall|i: int| p <= i < queue.len() implies queued_before(entry, #[trigger] queue[i]) by {
        if i > p {
            assert(queued_before(queue[p], queue[i]));
            if entry.create_time.unix_millis == queue[i].create_time.unix_millis {
                text_order_is_transitive(
                    entry.jinxxy_user_id@,
                    queue[p].jinxxy_user_id@,
                    queue[i].jinxxy_user_id@,
                );
            }
        }
    }
    assert forall|i: int, j: int| 0 <= i < j < q.len() implies queued_before(#[trigger] q[i], #[trigger] q[j])
        && q[i].jinxxy_user_id@ != q[j].jinxxy_user_id@ by {
        let a = if i < p { i } else { i - 1 };
        let b = if j < p { j } else { j - 1 };
        if i == p {
            assert(q[j] == queue[b]);
        } else if j == p {
            assert(q[i] == queue[a]);
        } else {
            assert(q[i] == queue[a] && q[j] == queue[b]);
            assert(queued_before(queue[a], queue[b]));
        }
    }
    assert forall|store: Seq<char>| #[trigger] is_queued(q, store) <==> (is_queued(queue, store) || store
        == entry.jinxxy_user_id@) by {
        if is_queued(q, store) {
            let i = choose|i: int| 0 <= i < q.len() && (#[trigger] q[i]).jinxxy_user_id@ == store;
            if i != p {
                let a = if i < p { i } else { i - 1 };
                assert(queue[a].jinxxy_user_id@ == store);
            }
        }
        if is_queued(queue, store) {
            let i = choose|i: int| 0 <= i < queue.len() && (#[trigger] queue[i]).jinxxy_user_id@ == store;
            let a = if i < p { i } else { i + 1 };
            assert(q[a] == queue[i]);
        }
        if store == entry.jinxxy_user_id@ {
            assert(q[p].jinxxy_user_id@ == store);
        }
    }
}

/// A store that is taken out of the queue is gone, and the queue stays in order, with all others in it.
pub proof fn queue_remove_keeps_order(queue: Seq<StoreQueueRef>, store: Seq<char>)
    requires
        is_queue(queue),
    ensures
        is_queue(queue_remove(queue, store)),
        forall|other: Seq<char>|
            #[trigger] is_queued(queue_remove(queue, store), other) <==> (is_queued(queue, other) && other != store),
        queue_remove(queue, store).len() <= queue.len(),
        forall|i: int|
            0 <= i < queue_remove(queue, store).len() ==> queue.contains(#[trigger] queue_remove(queue, store)[i]),
    decreases queue.len(),
{
    if queue.len() > 0 {
        let init = queue.drop_last();
        let last = queue.last();
        assert forall|i: int, j: int| 0 <= i < j < init.len() implies queued_before(#[trigger] init[i], #[trigger] init[j])
            && init[i].jinxxy_user_id@ != init[j].jinxxy_user_id@ by {
            assert(init[i] == queue[i] && init[j] == queue[j]);
        }
        queue_remove_keeps_order(init, store);
        let r = queue_remove(init, store);
        let q = queue_remove(queue, store);
        assert forall|i: int| 0 <= i < r.len() implies exists|k: int| 0 <= k < queue.len() - 1 && queue[k]
            == #[trigger] r[i] by {
            assert(init.contains(r[i]));
            let k = choose|k: int| 0 <= k < init.len() && init[k] == r[i];
            assert(queue[k] == r[i]);
        }
        assert forall|i: int, j: int| 0 <= i < j < q.len() implies queued_before(#[trigger] q[i], #[trigger] q[j])
            && q[i].jinxxy_user_id@ != q[j].jinxxy_user_id@ by {
            assert(q[i] == r[i]);
            let a = choose|a: int| 0 <= a < queue.len() - 1 && queue[a] == r[i];
            if j < r.len() {
                assert(q[j] == r[j]);
                assert(queued_before(r[i], r[j]));
            } else {
                assert(q[j] == queue[queue.len() - 1]);
                assert(queued_before(queue[a], queue[queue.len() - 1]));
            }
        }
        assert forall|i: int| 0 <= i < q.len() implies queue.contains(#[trigger] q[i]) by {
            if i < r.len() {
                assert(q[i] == r[i]);
                let a = choose|a: int| 0 <= a < queue.len() - 1 && queue[a] == r[i];
                assert(queue[a] == q[i]);
            } else {
                assert(q[i] == queue[queue.len() - 1]);
            }
        }
        assert forall|other: Seq<char>| #[trigger] is_queued(q, other) <==> (is_queued(queue, other) && other
            != store) by {
            assert(is_queued(r, other) <==> (is_queued(init, other) && other != store));
            if is_queued(q, other) {
                let i = choose|i: int| 0 <= i < q.len() && (#[trigger] q[i]).jinxxy_user_id@ == other;
                if i < r.len() {
                    assert(r[i].jinxxy_user_id@ == other);
                    let k = choose|k: int| 0 <= k < init.len() && (#[trigger] init[k]).jinxxy_user_id@ == other;
                    assert(queue[k].jinxxy_user_id@ == other);
                } else {
                    assert(queue[queue.len() - 1].jinxxy_user_id@ == other);
                }
            }
            if is_queued(queue, other) && other != store {
                let i = choose|i: int| 0 <= i < queue.len() && (#[trigger] queue[i]).jinxxy_user_id@ == other;
                if i < init.len() {
                    assert(init[i].jinxxy_user_id@ == other);
                    let k = choose|k: int| 0 <= k < r.len() && (#[trigger] r[k]).jinxxy_user_id@ == other;
                    assert(q[k].jinxxy_user_id@ == other);
                } else {
                    assert(q[r.len() as int].jinxxy_user_id@ == other);
                }
            }
        }
    }
}

/// The first store of a queue comes before all others in it.
proof fn queue_tail_is_queue(queue: Seq<StoreQueueRef>)
    requires
        is_queue(queue),
        queue.len() > 0,
    ensures
        is_queue(queue.drop_first()),
        !is_queued(queue.drop_first(), queue.first().jinxxy_user_id@),
        forall|store: Seq<char>|
            #[trigger] is_queued(queue, store) <==> (is_queued(queue.drop_first(), store) || store
                == queue.first().jinxxy_user_id@),
{
    let rest = queue.drop_first();
    assert forall|i: int| 0 <= i < rest.len() implies #[trigger] rest[i] == queue[i + 1] by {}
    assert forall|store: Seq<char>| #[trigger] is_queued(queue, store) <==> (is_queued(rest, store) || store
        == queue.first().jinxxy_user_id@) by {
        if is_queued(queue, store) {
            let i = choose|i: int| 0 <= i < queue.len() && (#[trigger] queue[i]).jinxxy_user_id@ == store;
            if i > 0 {
                assert(rest[i - 1].jinxxy_user_id@ == store);
            }
        }
        if is_queued(rest, store) {
            let i = choose|i: int| 0 <= i < rest.len() && (#[trigger] rest[i]).jinxxy_user_id@ == store;
            assert(queue[i + 1].jinxxy_user_id@ == store);
        }
        if store == queue.first().jinxxy_user_id@ {
            assert(queue[0].jinxxy_user_id@ == store);
        }
    }
}

/// Why the worker has stopped sleeping
#[derive(Debug)]
pub enum WakeUp {
    /// A store was registered
    Registered(String),
    /// The expiry time has changed, so the worker may have to sleep for another time
    Bumped,
    /// Nobody is left who could register a store
    Closed,
    /// The time is up
    TimedOut,
}

/// What the worker is waiting for
#[derive(Debug)]
pub enum RefreshStage {
    /// Sleep
    Waiting,
    /// Ask for the expiry time of cache entries
    LoadExpiry { wake_up: WakeUp },
    /// Ask for a store that was unregistered
    PollUnregistered { expiry_seconds: u64 },
    /// Drop the cache entry of a store that was unregistered
    DropCached { expiry_seconds: u64, jinxxy_user_id: String },
    /// Look at the cache entry of a store
    InspectCached { expiry_seconds: u64, entry: StoreQueueRef },
    /// Ask for an API key of a store. There may be a copy of its cache entry in the database only if there was
    /// no cache entry at all.
    LoadApiKey { expiry_seconds: u64, entry: StoreQueueRef, now: SimpleTime, try_db_load: bool },
    /// Load the cache entry of a store from the database
    LoadFromDb { expiry_seconds: u64, entry: StoreQueueRef, now: SimpleTime, api_key: String },
    /// Load the cache entry of a store from Jinxxy
    LoadFromApi { expiry_seconds: u64, entry: StoreQueueRef, now: SimpleTime, api_key: String },
    /// The end
    Stopped,
}

/// What has to be done for the refresh to go on
#[derive(Debug)]
pub enum RefreshAction<'a> {
    /// Sleep until something happens, but not for longer than this. Answered by [`RefreshEvent::WokeUp`].
    Wait { max_millis: Option<u128> },
    /// Read the configured expiry time. Answered by [`RefreshEvent::Expiry`] or [`RefreshEvent::ExpiryUnavailable`].
    LoadExpiry,
    /// Look for a store that was unregistered. Answered by [`RefreshEvent::Unregistered`],
    /// [`RefreshEvent::NoneUnregistered`] or [`RefreshEvent::UnregisterClosed`].
    PollUnregistered,
    /// Drop a cache entry. Answered by [`RefreshEvent::Done`].
    DropCached { jinxxy_user_id: &'a String },
    /// Look up when a cache entry was created. Answered by [`RefreshEvent::Cached`].
    InspectCached { jinxxy_user_id: &'a String },
    /// Load any valid API key of a store. Answered by [`RefreshEvent::ApiKey`].
    LoadApiKey { jinxxy_user_id: &'a String },
    /// Load a cache entry from the database and cache it. Answered by [`RefreshEvent::Loaded`].
    LoadFromDb { jinxxy_user_id: &'a String },
    /// Load a cache entry from Jinxxy, one product at a time, and cache it. Answered by [`RefreshEvent::Loaded`].
    LoadFromApi { jinxxy_user_id: &'a String, api_key: &'a String },
    /// Nothing more to do
    Stop,
}

/// The answer to a [`RefreshAction`]
#[derive(Debug)]
pub enum RefreshEvent {
    /// The worker has stopped sleeping
    WokeUp(WakeUp),
    /// The configured expiry time, if one is configured, and the time now
    Expiry { seconds: Option<u64>, now: SimpleTime },
    /// The configured expiry time could not be read
    ExpiryUnavailable,
    /// A store was unregistered
    Unregistered(String),
    /// No store was unregistered
    NoneUnregistered,
    /// Nobody is left who could unregister a store
    UnregisterClosed,
    /// It is done
    Done,
    /// When the cache entry was created, if there is one, and the time now
    Cached { create_time: Option<SimpleTime>, now: SimpleTime },
    /// The API key, if there is one and it could be read
    ApiKey(Option<String>),
    /// When the cache entry that was loaded was created, if one could be loaded
    Loaded(Option<SimpleTime>),
}

/// The background refresh of the product cache
#[derive(Debug)]
pub struct RefreshWorker {
    /// The registered stores, in order of their refresh. The store that is being refreshed is not among them.
    pub queue: Vec<StoreQueueRef>,
    /// For how long there is nothing to do
    pub sleep_millis: Option<u128>,
    /// The stores that were looked at since the worker woke up
    pub touched: Vec<String>,
    /// How many stores were looked at since the worker woke up
    pub work_count: u16,
    pub stage: RefreshStage,
}

/// The state of a [`RefreshWorker`].
pub struct RefreshState {
    pub queue: Seq<StoreQueueRef>,
    pub sleep_millis: Option<u128>,
    pub touched: Seq<String>,
    pub work_count: u16,
    pub stage: RefreshStage,
}

impl View for RefreshWorker {
    type V = RefreshState;

    open spec fn view(&self) -> RefreshState {
        RefreshState {
            queue: self.queue@,
            sleep_millis: self.sleep_millis,
            touched: self.touched@,
            work_count: self.work_count,
            stage: self.stage,
        }
    }
}

/// Whether a store was looked at.
pub open spec fn is_touched(touched: Seq<String>, store: Seq<char>) -> bool {
    exists|i: int| 0 <= i < touched.len() && #[trigger] touched[i]@ == store
}

/// How long there is nothing to do: until the first store of the queue is due.
pub open spec fn sleep_for(queue: Seq<StoreQueueRef>, expiry_seconds: u64, now: SimpleTime) -> Option<u128> {
    if queue.len() == 0 {
        None
    } else {
        Some(millis_until_expiry(queue.first().create_time, expiry_seconds, now))
    }
}

impl RefreshState {
    /// The store that is being refreshed.
    pub open spec fn in_work(self) -> Option<StoreQueueRef> {
        match self.stage {
            RefreshStage::InspectCached { entry, .. } => Some(entry),
            RefreshStage::LoadApiKey { entry, .. } => Some(entry),
            RefreshStage::LoadFromDb { entry, .. } => Some(entry),
            RefreshStage::LoadFromApi { entry, .. } => Some(entry),
            _ => None,
        }
    }

    /// Whether a store is registered: it waits for its refresh, or is being refreshed.
    pub open spec fn is_registered(self, store: Seq<char>) -> bool {
        is_queued(self.queue, store) || (self.in_work() matches Some(entry) && entry.jinxxy_user_id@ == store)
    }

    /// What always holds: the queue is in order, the store that is being refreshed is not in it, and since
    /// the worker woke up it has looked at no store twice and not at too many.
    pub open spec fn wf(self) -> bool {
        &&& is_queue(self.queue)
        &&& forall|i: int, j: int|
            0 <= i < j < self.touched.len() ==> #[trigger] self.touched[i]@ != #[trigger] self.touched[j]@
        &&& self.touched.len() == self.work_count
        &&& self.work_count <= MAX_WORK_COUNT
        &&& self.in_work() matches Some(entry) ==> {
            &&& !is_queued(self.queue, entry.jinxxy_user_id@)
            &&& is_touched(self.touched, entry.jinxxy_user_id@)
        }
    }

    /// Whether an event is an answer to what is due.
    pub open spec fn answered_by(self, event: RefreshEvent) -> bool {
        match self.stage {
            RefreshStage::Waiting => event is WokeUp,
            RefreshStage::LoadExpiry { .. } => event is Expiry || event is ExpiryUnavailable,
            RefreshStage::PollUnregistered { .. } => event is Unregistered || event is NoneUnregistered
                || event is UnregisterClosed,
            RefreshStage::DropCached { .. } => event is Done,
            RefreshStage::InspectCached { .. } => event is Cached,
            RefreshStage::LoadApiKey { .. } => event is ApiKey,
            RefreshStage::LoadFromDb { .. } | RefreshStage::LoadFromApi { .. } => event is Loaded,
            RefreshStage::Stopped => false,
        }
    }

    /// The worker takes the first store out of the queue and looks at it.
    pub open spec fn work_on_first(self, expiry_seconds: u64) -> RefreshState {
        RefreshState {
            queue: self.queue.drop_first(),
            touched: self.touched.push(self.queue.first().jinxxy_user_id),
            work_count: (self.work_count + 1) as u16,
            stage: RefreshStage::InspectCached { expiry_seconds, entry: self.queue.first() },
            ..self
        }
    }

    /// The worker has nothing more to do for now.
    pub open spec fn rest(self, expiry_seconds: u64, now: SimpleTime) -> RefreshState {
        RefreshState {
            sleep_millis: sleep_for(self.queue, expiry_seconds, now),
            touched: Seq::empty(),
            work_count: 0,
            stage: RefreshStage::Waiting,
            ..self
        }
    }

    /// The worker is done with a store. A store that could be refreshed, or did not have to be, is put back into
    /// the queue; any other store is not registered any more. The worker goes on with the first store of the
    /// queue, unless it has looked at that one already, there was no other store left, or it has looked at
    /// enough of them.
    pub open spec fn finish_store(
        self,
        entry: StoreQueueRef,
        valid: bool,
        expiry_seconds: u64,
        now: SimpleTime,
    ) -> RefreshState {
        let queue = if valid {
            queue_insert(self.queue, entry)
        } else {
            self.queue
        };
        let next = RefreshState { queue, ..self };
        if self.work_count < MAX_WORK_COUNT && self.queue.len() > 0 && !is_touched(
            self.touched,
            queue.first().jinxxy_user_id@,
        ) {
            next.work_on_first(expiry_seconds)
        } else {
            next.rest(expiry_seconds, now)
        }
    }

    /// The state that an event leads to.
    pub open spec fn next(self, event: RefreshEvent) -> RefreshState {
        match (self.stage, event) {
            (RefreshStage::Waiting, RefreshEvent::WokeUp(wake_up)) => RefreshState {
                stage: RefreshStage::LoadExpiry { wake_up },
                ..self
            },
            (RefreshStage::LoadExpiry { wake_up }, RefreshEvent::Expiry { seconds, now }) => {
                let expiry_seconds = match seconds {
                    Some(seconds) => seconds,
                    None => DEFAULT_LOW_PRIORITY_CACHE_EXPIRY_SECONDS,
                };
                match wake_up {
                    WakeUp::Registered(jinxxy_user_id) => if is_queued(self.queue, jinxxy_user_id@) {
                        RefreshState { stage: RefreshStage::Waiting, ..self }
                    } else {
                        let entry = StoreQueueRef { jinxxy_user_id, create_time: SimpleTime { unix_millis: 0 } };
                        let queue = queue_insert(self.queue, entry);
                        RefreshState {
                            queue,
                            sleep_millis: sleep_for(queue, expiry_seconds, now),
                            stage: RefreshStage::Waiting,
                            ..self
                        }
                    },
                    WakeUp::Bumped => RefreshState {
                        sleep_millis: sleep_for(self.queue, expiry_seconds, now),
                        stage: RefreshStage::Waiting,
                        ..self
                    },
                    WakeUp::Closed => RefreshState { stage: RefreshStage::Stopped, ..self },
                    WakeUp::TimedOut => RefreshState {
                        stage: RefreshStage::PollUnregistered { expiry_seconds },
                        ..self
                    },
                }
            },
            (RefreshStage::PollUnregistered { expiry_seconds }, RefreshEvent::Unregistered(jinxxy_user_id)) =>
                if is_queued(self.queue, jinxxy_user_id@) {
                    RefreshState {
                        queue: queue_remove(self.queue, jinxxy_user_id@),
                        stage: RefreshStage::DropCached { expiry_seconds, jinxxy_user_id },
                        ..self
                    }
                } else {
                    self
                },
            (RefreshStage::DropCached { expiry_seconds, .. }, RefreshEvent::Done) => RefreshState {
                stage: RefreshStage::PollUnregistered { expiry_seconds },
                ..self
            },
            (RefreshStage::PollUnregistered { expiry_seconds }, RefreshEvent::NoneUnregistered) => {
                let fresh = RefreshState { touched: Seq::empty(), work_count: 0, ..self };
                if self.queue.len() == 0 {
                    RefreshState { sleep_millis: None, stage: RefreshStage::Waiting, ..fresh }
                } else {
                    fresh.work_on_first(expiry_seconds)
                }
            },
            (
                RefreshStage::InspectCached { expiry_seconds, entry },
                RefreshEvent::Cached { create_time, now },
            ) => match create_time {
                None => RefreshState {
                    stage: RefreshStage::LoadApiKey { expiry_seconds, entry, now, try_db_load: true },
                    ..self
                },
                Some(create_time) => {
                    let entry = StoreQueueRef { create_time, ..entry };
                    if is_expired(create_time, expiry_seconds, now) {
                        RefreshState {
                            stage: RefreshStage::LoadApiKey { expiry_seconds, entry, now, try_db_load: false },
                            ..self
                        }
                    } else {
                        self.finish_store(entry, true, expiry_seconds, now)
                    }
                },
            },
            (
                RefreshStage::LoadApiKey { expiry_seconds, entry, now, try_db_load },
                RefreshEvent::ApiKey(api_key),
            ) => match api_key {
                None => self.finish_store(entry, false, expiry_seconds, now),
                Some(api_key) => if try_db_load {
                    RefreshState {
                        stage: RefreshStage::LoadFromDb { expiry_seconds, entry, now, api_key },
                        ..self
                    }
                } else {
                    RefreshState {
                        stage: RefreshStage::LoadFromApi { expiry_seconds, entry, now, api_key },
                        ..self
                    }
                },
            },
            (
                RefreshStage::LoadFromDb { expiry_seconds, entry, now, api_key },
                RefreshEvent::Loaded(create_time),
            ) => match create_time {
                None => RefreshState {
                    stage: RefreshStage::LoadFromApi { expiry_seconds, entry, now, api_key },
                    ..self
                },
                Some(create_time) => self.finish_store(
                    StoreQueueRef { create_time, ..entry },
                    true,
                    expiry_seconds,
                    now,
                ),
            },
            (RefreshStage::LoadFromApi { expiry_seconds, entry, now, .. }, RefreshEvent::Loaded(create_time)) =>
                match create_time {
                    None => self.finish_store(entry, false, expiry_seconds, now),
                    Some(create_time) => self.finish_store(
                        StoreQueueRef { create_time, ..entry },
                        true,
                        expiry_seconds,
                        now,
                    ),
                },
            _ => RefreshState { stage: RefreshStage::Stopped, ..self },
        }
    }
}

proof fn touch_first(s: RefreshState, expiry_seconds: u64)
    requires
        is_queue(s.queue),
        s.queue.len() > 0,
        s.work_count < MAX_WORK_COUNT,
        s.touched.len() == s.work_count,
        forall|i: int, j: int|
            0 <= i < j < s.touched.len() ==> #[trigger] s.touched[i]@ != #[trigger] s.touched[j]@,
        !is_touched(s.touched, s.queue.first().jinxxy_user_id@),
    ensures
        s.work_on_first(expiry_seconds).wf(),
        forall|store: Seq<char>|
            #[trigger] s.work_on_first(expiry_seconds).is_registered(store) <==> is_queued(s.queue, store),
{
    queue_tail_is_queue(s.queue);
    let n = s.work_on_first(expiry_seconds);
    let id = s.queue.first().jinxxy_user_id;
    assert forall|i: int, j: int| 0 <= i < j < n.touched.len() implies #[trigger] n.touched[i]@
        != #[trigger] n.touched[j]@ by {
        assert(n.touched[i] == s.touched[i]);
        if j == s.touched.len() {
            assert(n.touched[j] == id);
            assert(s.touched[i]@ != id@);
        } else {
            assert(n.touched[j] == s.touched[j]);
        }
    }
    assert(n.touched[s.touched.len() as int]@ == id@);
    assert(is_touched(n.touched, id@));
}

proof fn finish_store_is_wf(s: RefreshState, entry: StoreQueueRef, valid: bool, expiry_seconds: u64, now: SimpleTime)
    requires
        s.wf(),
        !is_queued(s.queue, entry.jinxxy_user_id@),
    ensures
        s.finish_store(entry, valid, expiry_seconds, now).wf(),
        forall|store: Seq<char>|
            #[trigger] s.finish_store(entry, valid, expiry_seconds, now).is_registered(store) <==> (is_queued(
                s.queue,
                store,
            ) || (valid && store == entry.jinxxy_user_id@)),
{
    queue_insert_keeps_order(s.queue, entry);
    let queue = if valid {
        queue_insert(s.queue, entry)
    } else {
        s.queue
    };
    let next = RefreshState { queue, ..s };
    if s.work_count < MAX_WORK_COUNT && s.queue.len() > 0 && !is_touched(s.touched, queue.first().jinxxy_user_id@) {
        touch_first(next, expiry_seconds);
    }
}

/// A step keeps the worker in a good state, and every registered store registered, but for one that was
/// unregistered, one without an API key and one that Jinxxy could not be asked for. Only a store that was
/// registered is added.
pub proof fn refresh_keeps_stores_registered(s: RefreshState, event: RefreshEvent, store: Seq<char>)
    requires
        s.wf(),
        s.answered_by(event),
    ensures
        s.next(event).wf(),
        s.is_registered(store) && !s.next(event).is_registered(store) ==> {
            ||| event matches RefreshEvent::Unregistered(id) && id@ == store
            ||| s.in_work() matches Some(entry) && entry.jinxxy_user_id@ == store && (event == RefreshEvent::ApiKey(
                None,
            ) || (s.stage is LoadFromApi && event == RefreshEvent::Loaded(None)))
        },
        !s.is_registered(store) && s.next(event).is_registered(store) ==> (s.stage matches RefreshStage::LoadExpiry {
            wake_up: WakeUp::Registered(id),
        } && id@ == store),
{
    match (s.stage, event) {
        (RefreshStage::LoadExpiry { wake_up }, RefreshEvent::Expiry { .. }) => match wake_up {
            WakeUp::Registered(jinxxy_user_id) => {
                if !is_queued(s.queue, jinxxy_user_id@) {
                    queue_insert_keeps_order(
                        s.queue,
                        StoreQueueRef { jinxxy_user_id, create_time: SimpleTime { unix_millis: 0 } },
                    );
                }
            },
            _ => {},
        },
        (RefreshStage::PollUnregistered { .. }, RefreshEvent::Unregistered(jinxxy_user_id)) => {
            queue_remove_keeps_order(s.queue, jinxxy_user_id@);
        },
        (RefreshStage::PollUnregistered { expiry_seconds }, RefreshEvent::NoneUnregistered) => {
            if s.queue.len() > 0 {
                touch_first(RefreshState { touched: Seq::empty(), work_count: 0, ..s }, expiry_seconds);
            }
        },
        (RefreshStage::InspectCached { expiry_seconds, entry }, RefreshEvent::Cached { create_time, now }) =>
            match create_time {
                Some(create_time) => {
                    finish_store_is_wf(s, StoreQueueRef { create_time, ..entry }, true, expiry_seconds, now);
                },
                None => {},
            },
        (RefreshStage::LoadApiKey { expiry_seconds, entry, now, .. }, RefreshEvent::ApiKey(_)) => {
            finish_store_is_wf(s, entry, false, expiry_seconds, now);
        },
        (RefreshStage::LoadFromDb { expiry_seconds, entry, now, .. }, RefreshEvent::Loaded(create_time)) =>
            match create_time {
                Some(create_time) => {
                    finish_store_is_wf(s, StoreQueueRef { create_time, ..entry }, true, expiry_seconds, now);
                },
                None => {},
            },
        (RefreshStage::LoadFromApi { expiry_seconds, entry, now, .. }, RefreshEvent::Loaded(create_time)) =>
            match create_time {
                Some(create_time) => {
                    finish_store_is_wf(s, StoreQueueRef { create_time, ..entry }, true, expiry_seconds, now);
                },
                None => {
                    finish_store_is_wf(s, entry, false, expiry_seconds, now);
                },
            },
        _ => {},
    }
}

/// A cache entry is only ever dropped when its store has been unregistered: an expired entry stays until there
/// is a new one, so that reads of a registered store never miss.
pub proof fn only_unregistered_stores_are_dropped(s: RefreshState, event: RefreshEvent)
    requires
        s.wf(),
        s.answered_by(event),
    ensures
        s.next(event).stage matches RefreshStage::DropCached { jinxxy_user_id, .. } ==> event
            == RefreshEvent::Unregistered(jinxxy_user_id) && !s.next(event).is_registered(jinxxy_user_id@),
{
    if let RefreshEvent::Unregistered(jinxxy_user_id) = event {
        queue_remove_keeps_order(s.queue, jinxxy_user_id@);
    }
}

/// The store that is refreshed next is the one with the oldest cache entry of all that are waiting.
pub proof fn oldest_store_is_next(s: RefreshState, event: RefreshEvent)
    requires
        s.wf(),
        s.answered_by(event),
    ensures
        s.next(event).stage matches RefreshStage::InspectCached { entry, .. } ==> forall|i: int|
            0 <= i < s.next(event).queue.len() ==> entry.create_time.unix_millis
                <= (#[trigger] s.next(event).queue[i]).create_time.unix_millis,
{
    refresh_keeps_stores_registered(s, event, Seq::empty());
    let n = s.next(event);
    let (before, entry) = match (s.stage, event) {
        (RefreshStage::InspectCached { entry, .. }, RefreshEvent::Cached { create_time: Some(create_time), .. }) => (
            queue_insert(s.queue, StoreQueueRef { create_time, ..entry }),
            entry,
        ),
        (RefreshStage::LoadApiKey { entry, .. }, _) => (s.queue, entry),
        (RefreshStage::LoadFromDb { entry, .. }, RefreshEvent::Loaded(Some(create_time))) => (
            queue_insert(s.queue, StoreQueueRef { create_time, ..entry }),
            entry,
        ),
        (RefreshStage::LoadFromApi { entry, .. }, RefreshEvent::Loaded(Some(create_time))) => (
            queue_insert(s.queue, StoreQueueRef { create_time, ..entry }),
            entry,
        ),
        (RefreshStage::LoadFromApi { entry, .. }, _) => (s.queue, entry),
        _ => (s.queue, arbitrary()),
    };
    if n.stage is InspectCached {
        match event {
            RefreshEvent::Loaded(Some(create_time)) => {
                queue_insert_keeps_order(s.queue, StoreQueueRef { create_time, ..entry });
            },
            RefreshEvent::Cached { create_time: Some(create_time), .. } => {
                queue_insert_keeps_order(s.queue, StoreQueueRef { create_time, ..entry });
            },
            _ => {},
        }
        assert(n.queue =~= before.drop_first());
        assert forall|i: int| 0 <= i < n.queue.len() implies before.first().create_time.unix_millis
            <= (#[trigger] n.queue[i]).create_time.unix_millis by {
            assert(n.queue[i] == before[i + 1]);
            assert(queued_before(before[0], before[i + 1]));
        }
    }
}

impl RefreshWorker {
    /// A worker without any stores
    pub fn new() -> (r: RefreshWorker)
        ensures
            r@.wf(),
            r@ == (RefreshState {
                queue: Seq::empty(),
                sleep_millis: None,
                touched: Seq::empty(),
                work_count: 0,
                stage: RefreshStage::Waiting,
            }),
    {
        RefreshWorker {
            queue: Vec::new(),
            sleep_millis: None,
            touched: Vec::new(),
            work_count: 0,
            stage: RefreshStage::Waiting,
        }
    }

    /// The action that is due.
    pub open spec fn due_action(&self) -> RefreshAction<'_> {
        match &self.stage {
            RefreshStage::Waiting => RefreshAction::Wait {
                max_millis: match self.sleep_millis {
                    Some(millis) => Some(
                        if millis < MIN_SLEEP_MILLIS {
                            MIN_SLEEP_MILLIS
                        } else {
                            millis
                        },
                    ),
                    None => None,
                },
            },
            RefreshStage::LoadExpiry { .. } => RefreshAction::LoadExpiry,
            RefreshStage::PollUnregistered { .. } => RefreshAction::PollUnregistered,
            RefreshStage::DropCached { jinxxy_user_id, .. } => RefreshAction::DropCached { jinxxy_user_id },
            RefreshStage::InspectCached { entry, .. } => RefreshAction::InspectCached {
                jinxxy_user_id: &entry.jinxxy_user_id,
            },
            RefreshStage::LoadApiKey { entry, .. } => RefreshAction::LoadApiKey {
                jinxxy_user_id: &entry.jinxxy_user_id,
            },
            RefreshStage::LoadFromDb { entry, .. } => RefreshAction::LoadFromDb {
                jinxxy_user_id: &entry.jinxxy_user_id,
            },
            RefreshStage::LoadFromApi { entry, api_key, .. } => RefreshAction::LoadFromApi {
                jinxxy_user_id: &entry.jinxxy_user_id,
                api_key,
            },
            RefreshStage::Stopped => RefreshAction::Stop,
        }
    }

    /// The action that is due
    pub fn action(&self) -> (r: RefreshAction<'_>)
        ensures
            r == self.due_action(),
    {
        match &self.stage {
            RefreshStage::Waiting => {
                let max_millis: Option<u128> = match self.sleep_millis {
                    Some(millis) => Some(
                        if millis < MIN_SLEEP_MILLIS {
                            MIN_SLEEP_MILLIS
                        } else {
                            millis
                        },
                    ),
                    None => None,
                };
                RefreshAction::Wait { max_millis }
            }
            RefreshStage::LoadExpiry { .. } => RefreshAction::LoadExpiry,
            RefreshStage::PollUnregistered { .. } => RefreshAction::PollUnregistered,
            RefreshStage::DropCached { jinxxy_user_id, .. } => RefreshAction::DropCached { jinxxy_user_id },
            RefreshStage::InspectCached { entry, .. } => RefreshAction::InspectCached {
                jinxxy_user_id: &entry.jinxxy_user_id,
            },
            RefreshStage::LoadApiKey { entry, .. } => RefreshAction::LoadApiKey {
                jinxxy_user_id: &entry.jinxxy_user_id,
            },
            RefreshStage::LoadFromDb { entry, .. } => RefreshAction::LoadFromDb {
                jinxxy_user_id: &entry.jinxxy_user_id,
            },
            RefreshStage::LoadFromApi { entry, api_key, .. } => RefreshAction::LoadFromApi {
                jinxxy_user_id: &entry.jinxxy_user_id,
                api_key,
            },
            RefreshStage::Stopped => RefreshAction::Stop,
        }
    }

    /// Whether a store is in the queue
    fn has_queued(&self, jinxxy_user_id: &String) -> (r: bool)
        ensures
            r == is_queued(self.queue@, jinxxy_user_id@),
    {
        for i in 0..self.queue.len()
            invariant
                forall|j: int| 0 <= j < i ==> (#[trigger] self.queue@[j]).jinxxy_user_id@ != jinxxy_user_id@,
        {
            if self.queue[i].jinxxy_user_id == *jinxxy_user_id {
                proof {
                    assert(self.queue@[i as int].jinxxy_user_id@ == jinxxy_user_id@);
                }
                return true;
            }
        }
        false
    }

    /// Whether a store was looked at since the worker woke up
    fn has_touched(&self, jinxxy_user_id: &String) -> (r: bool)
        ensures
            r == is_touched(self.touched@, jinxxy_user_id@),
    {
        for i in 0..self.touched.len()
            invariant
                forall|j: int| 0 <= j < i ==> #[trigger] self.touched@[j]@ != jinxxy_user_id@,
        {
            if self.touched[i] == *jinxxy_user_id {
                proof {
                    assert(self.touched@[i as int]@ == jinxxy_user_id@);
                }
                return true;
            }
        }
        false
    }

    /// Put a store into the queue
    fn enqueue(&mut self, entry: StoreQueueRef)
        ensures
            final(self)@ == (RefreshState { queue: queue_insert(old(self)@.queue, entry), ..old(self)@ }),
    {
        let mut position: usize = 0;
        let ghost queue = self.queue@;
        proof {
            assert(queue.skip(0) =~= queue);
            queue_position_bounds(queue, entry);
        }
        while position < self.queue.len() && !entry.is_before(&self.queue[position])
            invariant
                self.queue@ == queue,
                position <= queue.len(),
                queue_position(queue, entry) == position + queue_position(queue.skip(position as int), entry),
            decreases queue.len() - position,
        {
            proof {
                assert(queue.skip(position as int).first() == queue[position as int]);
                assert(queue.skip(position as int).drop_first() =~= queue.skip(position + 1));
            }
            position = position + 1;
        }
        proof {
            if position < queue.len() {
                assert(queue.skip(position as int).first() == queue[position as int]);
            }
            assert(queue_position(queue.skip(position as int), entry) == 0);
        }
        self.queue.insert(position, entry);
    }

    /// Take a store out of the queue
    fn dequeue(&mut self, jinxxy_user_id: &String)
        ensures
            final(self)@ == (RefreshState {
                queue: queue_remove(old(self)@.queue, jinxxy_user_id@),
                ..old(self)@
            }),
    {
        let mut kept: Vec<StoreQueueRef> = Vec::new();
        let mut rest: Vec<StoreQueueRef> = Vec::new();
        let ghost queue = self.queue@;
        std::mem::swap(&mut self.queue, &mut rest);
        for entry in it: rest
            invariant
                it.seq() == queue,
                kept@ == queue_remove(queue.take(it.index() as int), jinxxy_user_id@),
        {
            proof {
                assert(queue.take(it.index() + 1).drop_last() =~= queue.take(it.index() as int));
                assert(queue.take(it.index() + 1).last() == queue[it.index() as int]);
            }
            if entry.jinxxy_user_id != *jinxxy_user_id {
                kept.push(entry);
            }
        }
        proof {
            assert(queue.take(queue.len() as int) =~= queue);
        }
        self.queue = kept;
    }

    /// Take the first store out of the queue and look at it
    fn start_first(&mut self, expiry_seconds: u64)
        requires
            old(self)@.queue.len() > 0,
            old(self)@.work_count < MAX_WORK_COUNT,
        ensures
            final(self)@ == old(self)@.work_on_first(expiry_seconds),
    {
        let ghost before = self@;
        let entry = self.queue.remove(0);
        proof {
            assert(self.queue@ =~= before.queue.drop_first());
        }
        self.touched.push(entry.jinxxy_user_id.clone());
        self.work_count = self.work_count + 1;
        self.stage = RefreshStage::InspectCached { expiry_seconds, entry };
    }

    /// The end of the work on a store
    fn finish(&mut self, entry: StoreQueueRef, valid: bool, expiry_seconds: u64, now: SimpleTime)
        requires
            old(self)@.work_count <= MAX_WORK_COUNT,
        ensures
            final(self)@ == old(self)@.finish_store(entry, valid, expiry_seconds, now),
    {
        let others_left = self.queue.len() > 0;
        let may_go_on = self.work_count < MAX_WORK_COUNT;
        if valid {
            self.enqueue(entry);
        }
        if may_go_on && others_left && !self.has_touched(&self.queue[0].jinxxy_user_id) {
            self.start_first(expiry_seconds);
        } else {
            self.update_sleep(expiry_seconds, now);
            self.touched = Vec::new();
            self.work_count = 0;
            self.stage = RefreshStage::Waiting;
        }
    }

    /// Sleep until the first store of the queue is due
    fn update_sleep(&mut self, expiry_seconds: u64, now: SimpleTime)
        ensures
            final(self)@ == (RefreshState {
                sleep_millis: sleep_for(old(self)@.queue, expiry_seconds, now),
                ..old(self)@
            }),
    {
        self.sleep_millis =
        if self.queue.len() == 0 {
            None
        } else {
            Some(self.queue[0].remaining_time_until_low_priority_expiry(expiry_seconds, now))
        };
    }

    /// Go on with the answer to the action that was due
    pub fn step(self, event: RefreshEvent) -> (r: RefreshWorker)
        requires
            self@.wf(),
            self@.answered_by(event),
        ensures
            r@.wf(),
            r@ == self@.next(event),
    {
        proof {
            refresh_keeps_stores_registered(self@, event, Seq::empty());
        }
        let RefreshWorker { queue, sleep_millis, touched, work_count, stage } = self;
        let mut worker = RefreshWorker { queue, sleep_millis, touched, work_count, stage: RefreshStage::Stopped };
        match (stage, event) {
            (RefreshStage::Waiting, RefreshEvent::WokeUp(wake_up)) => {
                worker.stage = RefreshStage::LoadExpiry { wake_up };
            }
            (RefreshStage::LoadExpiry { wake_up }, RefreshEvent::Expiry { seconds, now }) => {
                let expiry_seconds: u64 = match seconds {
                    Some(seconds) => seconds,
                    None => DEFAULT_LOW_PRIORITY_CACHE_EXPIRY_SECONDS,
                };
                match wake_up {
                    WakeUp::Registered(jinxxy_user_id) => {
                        // a new store has appeared; insert it into the queue (as long as it isn't a duplicate)
                        if !worker.has_queued(&jinxxy_user_id) {
                            worker.enqueue(
                                StoreQueueRef { jinxxy_user_id, create_time: SimpleTime::unix_epoch() },
                            );
                            worker.update_sleep(expiry_seconds, now);
                        }
                        worker.stage = RefreshStage::Waiting;
                    }
                    WakeUp::Bumped => {
                        worker.update_sleep(expiry_seconds, now);
                        worker.stage = RefreshStage::Waiting;
                    }
                    WakeUp::Closed => {}
                    WakeUp::TimedOut => {
                        worker.stage = RefreshStage::PollUnregistered { expiry_seconds };
                    }
                }
            }
            (RefreshStage::PollUnregistered { expiry_seconds }, RefreshEvent::Unregistered(jinxxy_user_id)) => {
                if worker.has_queued(&jinxxy_user_id) {
                    worker.dequeue(&jinxxy_user_id);
                    worker.stage = RefreshStage::DropCached { expiry_seconds, jinxxy_user_id };
                } else {
                    worker.stage = RefreshStage::PollUnregistered { expiry_seconds };
                }
            }
            (RefreshStage::DropCached { expiry_seconds, .. }, RefreshEvent::Done) => {
                worker.stage = RefreshStage::PollUnregistered { expiry_seconds };
            }
            (RefreshStage::PollUnregistered { expiry_seconds }, RefreshEvent::NoneUnregistered) => {
                worker.touched = Vec::new();
                worker.work_count = 0;
                if worker.queue.len() == 0 {
                    worker.sleep_millis = None;
                    worker.stage = RefreshStage::Waiting;
                } else {
                    worker.start_first(expiry_seconds);
                }
            }
            (RefreshStage::InspectCached { expiry_seconds, entry }, RefreshEvent::Cached { create_time, now }) => {
                match create_time {
                    // the entry did NOT exist in memory, so it's worth trying a db load
                    None => {
                        worker.stage =
                        RefreshStage::LoadApiKey { expiry_seconds, entry, now, try_db_load: true };
                    }
                    Some(create_time) => {
                        // sync our copy of the create time with the source of truth (the cache)
                        let entry = StoreQueueRef { jinxxy_user_id: entry.jinxxy_user_id, create_time };
                        if is_expired_low_priority(create_time, expiry_seconds, now) {
                            worker.stage =
                            RefreshStage::LoadApiKey { expiry_seconds, entry, now, try_db_load: false };
                        } else {
                            // this can happen if that entry was refreshed by a read before we saw it
                            worker.finish(entry, true, expiry_seconds, now);
                        }
                    }
                }
            }
            (
                RefreshStage::LoadApiKey { expiry_seconds, entry, now, try_db_load },
                RefreshEvent::ApiKey(api_key),
            ) => match api_key {
                None => worker.finish(entry, false, expiry_seconds, now),
                Some(api_key) => {
                    worker.stage =
                    if try_db_load {
                        RefreshStage::LoadFromDb { expiry_seconds, entry, now, api_key }
                    } else {
                        RefreshStage::LoadFromApi { expiry_seconds, entry, now, api_key }
                    };
                }
            },
            (
                RefreshStage::LoadFromDb { expiry_seconds, entry, now, api_key },
                RefreshEvent::Loaded(create_time),
            ) => match create_time {
                None => {
                    worker.stage = RefreshStage::LoadFromApi { expiry_seconds, entry, now, api_key };
                }
                Some(create_time) => worker.finish(
                    StoreQueueRef { jinxxy_user_id: entry.jinxxy_user_id, create_time },
                    true,
                    expiry_seconds,
                    now,
                ),
            },
            (RefreshStage::LoadFromApi { expiry_seconds, entry, now, .. }, RefreshEvent::Loaded(create_time)) => {
                match create_time {
                    None => worker.finish(entry, false, expiry_seconds, now),
                    Some(create_time) => worker.finish(
                        StoreQueueRef { jinxxy_user_id: entry.jinxxy_user_id, create_time },
                        true,
                        expiry_seconds,
                        now,
                    ),
                }
            }
            _ => {}
        }
        worker
    }
}

/// How much work the worker can have ahead of it at most before it sleeps again.
pub open spec fn work_left(s: RefreshState) -> int {
    (MAX_WORK_COUNT - s.work_count) * 5 + (match s.stage {
        RefreshStage::InspectCached { .. } => 4int,
        RefreshStage::LoadApiKey { .. } => 3int,
        RefreshStage::LoadFromDb { .. } => 2int,
        RefreshStage::LoadFromApi { .. } => 1int,
        _ => 0int,
    })
}

/// The work on stores comes to an end, whatever their number and however it goes: each step leaves less of it, and
/// then the worker sleeps.
pub proof fn work_ends(s: RefreshState, event: RefreshEvent)
    requires
        s.wf(),
        s.answered_by(event),
        s.in_work() is Some,
    ensures
        s.next(event).stage is Waiting || (s.next(event).in_work() is Some && 0 <= work_left(s.next(event))
            < work_left(s)),
{
    refresh_keeps_stores_registered(s, event, Seq::empty());
}

/// When the worker sleeps, it does so for the minimum time at least, so that it cannot spin.
pub proof fn worker_never_spins(worker: RefreshWorker)
    ensures
        worker.due_action() matches RefreshAction::Wait { max_millis: Some(millis) } ==> millis >= MIN_SLEEP_MILLIS,
{
}

/// A store that is registered again, while it is registered, changes nothing.
pub proof fn registering_twice_changes_nothing(s: RefreshState, jinxxy_user_id: String, event: RefreshEvent)
    requires
        s.wf(),
        s.stage == (RefreshStage::LoadExpiry { wake_up: WakeUp::Registered(jinxxy_user_id) }),
        s.is_registered(jinxxy_user_id@),
        event is Expiry,
    ensures
        s.next(event) == (RefreshState { stage: RefreshStage::Waiting, ..s }),
{
}

} // verus!
