//! The background refresh of the cache

use crate::bot::refresh::{
    is_expired_low_priority, is_queued, is_touched, queue_insert, queue_insert_keeps_order, queue_remove_keeps_order,
    refresh_keeps_stores_registered, RefreshAction, RefreshEvent, RefreshStage, RefreshState, RefreshWorker,
    StoreQueueRef, WakeUp,
};
use crate::time::SimpleTime;
use vstd::prelude::*;

verus! {

/// Whether the worker goes from one state to another when it gets an answer.
pub open spec fn steps(before: RefreshWorker, event: RefreshEvent, after: RefreshWorker) -> bool {
    before@.wf() && before@.answered_by(event) && call_ensures(RefreshWorker::step, (before, event), after)
}

/// Whether a store waits in the queue, with the time at which its cache entry was created.
pub open spec fn waits(worker: RefreshWorker, store: Seq<char>, create_time: SimpleTime) -> bool {
    exists|i: int|
        0 <= i < worker.queue@.len() && (#[trigger] worker.queue@[i]).jinxxy_user_id@ == store
            && worker.queue@[i].create_time == create_time
}

/// Whether a store waits in the queue.
pub open spec fn is_waiting(worker: RefreshWorker, store: Seq<char>) -> bool {
    exists|i: int| 0 <= i < worker.queue@.len() && (#[trigger] worker.queue@[i]).jinxxy_user_id@ == store
}

/// Whether the worker sleeps until the oldest store is due: a minute after it has expired.
pub open spec fn sleeps_until_due(worker: RefreshWorker, expiry_seconds: u64, now: SimpleTime) -> bool {
    &&& worker.stage is Waiting
    &&& worker.queue@.len() == 0 <==> worker.sleep_millis is None
    &&& worker.sleep_millis matches Some(millis) ==> {
        let oldest = worker.queue@[0].create_time.unix_millis as int;
        let passed = if now.unix_millis > oldest {
            now.unix_millis - oldest
        } else {
            0
        };
        let due = expiry_seconds * 1000 + 60_000;
        millis as int == (if passed < due {
            due - passed
        } else {
            0
        })
    }
}

/// An entry has expired exactly when more than the expiry time has passed since it was created.
pub proof fn entries_expire(create_time: SimpleTime, expiry_seconds: u64, now: SimpleTime, r: bool)
    requires
        call_ensures(is_expired_low_priority, (create_time, expiry_seconds, now), r),
    ensures
        r <==> now.unix_millis > create_time.unix_millis + expiry_seconds * 1000,
{
}

/// What is left until an entry is due is the expiry time and a minute, less what has passed since it was created.
pub proof fn entries_are_due(entry: StoreQueueRef, expiry_seconds: u64, now: SimpleTime, r: u128)
    requires
        call_ensures(
            StoreQueueRef::remaining_time_until_low_priority_expiry,
            (&entry, expiry_seconds, now),
            r,
        ),
    ensures
        now.unix_millis >= entry.create_time.unix_millis + expiry_seconds * 1000 + 60_000 ==> r == 0,
        entry.create_time.unix_millis <= now.unix_millis < entry.create_time.unix_millis + expiry_seconds * 1000
            + 60_000 ==> r == entry.create_time.unix_millis + expiry_seconds * 1000 + 60_000 - now.unix_millis,
        now.unix_millis < entry.create_time.unix_millis ==> r == expiry_seconds * 1000 + 60_000,
{
}

/// An older entry comes first.
pub proof fn older_entries_come_first(a: StoreQueueRef, b: StoreQueueRef, r: bool)
    requires
        call_ensures(StoreQueueRef::is_before, (&a, &b), r),
        a.create_time.unix_millis != b.create_time.unix_millis,
    ensures
        r <==> a.create_time.unix_millis < b.create_time.unix_millis,
{
}

/// The worker starts without any stores, and waits for one.
pub proof fn the_worker_starts_empty(worker: RefreshWorker)
    requires
        call_ensures(RefreshWorker::new, (), worker),
    ensures
        worker@.wf(),
        worker.queue@.len() == 0,
        worker.sleep_millis is None,
        worker.stage is Waiting,
{
    assert(worker.queue@ == worker@.queue);
}

/// Whatever wakes the worker up, the expiry time is asked for next. Without one the worker stops.
pub proof fn the_expiry_time_is_asked_for(
    before: RefreshWorker,
    wake_up: WakeUp,
    after: RefreshWorker,
    last: RefreshWorker,
)
    requires
        before.stage is Waiting,
        steps(before, RefreshEvent::WokeUp(wake_up), after),
        steps(after, RefreshEvent::ExpiryUnavailable, last),
    ensures
        after.stage == (RefreshStage::LoadExpiry { wake_up }),
        after.queue@ == before.queue@,
        after.sleep_millis == before.sleep_millis,
        last.stage is Stopped,
{
    assert(after.queue@ == after@.queue);
}

/// A store that is registered waits in the queue from then on, as if its cache entry was as old as can be, and no other
/// store is lost. The worker sleeps until the oldest store is due.
pub proof fn registered_stores_wait(
    before: RefreshWorker,
    store: String,
    seconds: Option<u64>,
    now: SimpleTime,
    after: RefreshWorker,
    other: Seq<char>,
)
    requires
        before.stage == (RefreshStage::LoadExpiry { wake_up: WakeUp::Registered(store) }),
        steps(before, RefreshEvent::Expiry { seconds, now }, after),
    ensures
        is_waiting(after, store@),
        is_waiting(before, other) ==> is_waiting(after, other),
        is_waiting(after, other) ==> is_waiting(before, other) || other == store@,
        !is_waiting(before, store@) ==> waits(after, store@, SimpleTime { unix_millis: 0 }),
        !is_waiting(before, store@) ==> sleeps_until_due(
            after,
            match seconds {
                Some(seconds) => seconds,
                None => 86_400,
            },
            now,
        ),
        is_waiting(before, store@) ==> after.queue@ == before.queue@ && after.sleep_millis == before.sleep_millis
            && after.stage is Waiting,
{
    let old = before.queue@;
    let new = after.queue@;
    assert(new == after@.queue);
    assert(is_waiting(before, store@) <==> is_queued(old, store@));
    if !is_queued(old, store@) {
        let entry = StoreQueueRef { jinxxy_user_id: store, create_time: SimpleTime { unix_millis: 0 } };
        queue_insert_keeps_order(old, entry);
        inserted_store_waits(old, entry);
        assert(new == queue_insert(old, entry));
        assert(new.contains(entry));
        let i = choose|i: int| 0 <= i < new.len() && new[i] == entry;
        assert(new[i].jinxxy_user_id@ == store@);
        assert(is_queued(new, other) <==> is_queued(old, other) || other == store@);
    }
    assert(is_waiting(after, other) <==> is_queued(new, other));
    assert(is_waiting(before, other) <==> is_queued(old, other));
}

proof fn inserted_store_waits(queue: Seq<StoreQueueRef>, entry: StoreQueueRef)
    ensures
        queue_insert(queue, entry).contains(entry),
        forall|store: Seq<char>| #[trigger]
            is_queued(queue_insert(queue, entry), store) <==> is_queued(queue, store) || store == entry.jinxxy_user_id@,
{
    position_is_in_range(queue, entry);
    let p = crate::bot::refresh::queue_position(queue, entry);
    let new = queue_insert(queue, entry);
    assert(new[p] == entry);
    assert forall|store: Seq<char>| #[trigger] is_queued(new, store) <==> is_queued(queue, store) || store
        == entry.jinxxy_user_id@ by {
        if is_queued(new, store) {
            let i = choose|i: int| 0 <= i < new.len() && (#[trigger] new[i]).jinxxy_user_id@ == store;
            if i < p {
                assert(queue[i].jinxxy_user_id@ == store);
            } else if i > p {
                assert(queue[i - 1].jinxxy_user_id@ == store);
            }
        }
        if is_queued(queue, store) {
            let i = choose|i: int| 0 <= i < queue.len() && (#[trigger] queue[i]).jinxxy_user_id@ == store;
            if i < p {
                assert(new[i].jinxxy_user_id@ == store);
            } else {
                assert(new[i + 1].jinxxy_user_id@ == store);
            }
        }
        if store == entry.jinxxy_user_id@ {
            assert(new[p].jinxxy_user_id@ == store);
        }
    }
}

proof fn position_is_in_range(queue: Seq<StoreQueueRef>, entry: StoreQueueRef)
    ensures
        0 <= crate::bot::refresh::queue_position(queue, entry) <= queue.len(),
    decreases queue.len(),
{
    if queue.len() > 0 {
        position_is_in_range(queue.drop_first(), entry);
    }
}

/// The worker sleeps for another time when the expiry time has changed, stops when nobody is left, and looks for work
/// when its time is up. The queue stays as it is.
pub proof fn other_wake_ups_leave_the_queue(
    before: RefreshWorker,
    wake_up: WakeUp,
    seconds: Option<u64>,
    now: SimpleTime,
    after: RefreshWorker,
)
    requires
        before.stage == (RefreshStage::LoadExpiry { wake_up }),
        !(wake_up is Registered),
        steps(before, RefreshEvent::Expiry { seconds, now }, after),
    ensures
        after.queue@ == before.queue@,
        wake_up is Bumped ==> sleeps_until_due(
            after,
            match seconds {
                Some(seconds) => seconds,
                None => 86_400,
            },
            now,
        ),
        wake_up is Closed ==> after.stage is Stopped,
        wake_up is TimedOut ==> after.stage == (RefreshStage::PollUnregistered {
            expiry_seconds: match seconds {
                Some(seconds) => seconds,
                None => 86_400,
            },
        }),
{
    assert(after.queue@ == after@.queue);
}

/// A store that is unregistered leaves the queue, and its cache entry is dropped. No other store leaves it, and nothing
/// happens for a store that is not in it.
pub proof fn unregistered_stores_leave(
    before: RefreshWorker,
    store: String,
    after: RefreshWorker,
    other: Seq<char>,
)
    requires
        before.stage is PollUnregistered,
        steps(before, RefreshEvent::Unregistered(store), after),
    ensures
        !is_waiting(after, store@),
        other != store@ ==> (is_waiting(after, other) <==> is_waiting(before, other)),
        is_waiting(before, store@) ==> after.stage == (RefreshStage::DropCached {
            expiry_seconds: before.stage->PollUnregistered_expiry_seconds,
            jinxxy_user_id: store,
        }),
        !is_waiting(before, store@) ==> after@ == before@,
{
    let old = before.queue@;
    let new = after.queue@;
    assert(new == after@.queue);
    queue_remove_keeps_order(old, store@);
    assert(is_waiting(before, store@) <==> is_queued(old, store@));
    assert(is_waiting(after, store@) <==> is_queued(new, store@));
    assert(is_waiting(before, other) <==> is_queued(old, other));
    assert(is_waiting(after, other) <==> is_queued(new, other));
    if is_queued(old, store@) {
        assert(is_queued(new, other) <==> is_queued(old, other) && other != store@);
        assert(is_queued(new, store@) <==> is_queued(old, store@) && store@ != store@);
    }
}

/// After an entry was dropped the worker looks for the next store that was unregistered, and once there is none it works
/// on the first store of the queue. Without stores it sleeps until there is one. When nobody is left, it stops.
pub proof fn the_first_store_is_worked_on(
    before: RefreshWorker,
    dropped: RefreshWorker,
    closed: RefreshWorker,
    after: RefreshWorker,
)
    requires
        before.stage is DropCached,
        steps(before, RefreshEvent::Done, dropped),
        steps(dropped, RefreshEvent::UnregisterClosed, closed),
        steps(dropped, RefreshEvent::NoneUnregistered, after),
    ensures
        dropped.stage == (RefreshStage::PollUnregistered {
            expiry_seconds: before.stage->DropCached_expiry_seconds,
        }),
        dropped.queue@ == before.queue@,
        closed.stage is Stopped,
        before.queue@.len() == 0 ==> after.stage is Waiting && after.sleep_millis is None && after.queue@.len() == 0,
        before.queue@.len() > 0 ==> after.stage == (RefreshStage::InspectCached {
            expiry_seconds: before.stage->DropCached_expiry_seconds,
            entry: before.queue@[0],
        }) && after.queue@ == before.queue@.skip(1),
{
    assert(dropped.queue@ == dropped@.queue);
    assert(after.queue@ == after@.queue);
    if before.queue@.len() > 0 {
        assert(before.queue@.drop_first() =~= before.queue@.skip(1));
    }
}

/// The store that the worker works on.
pub open spec fn worked_on(stage: RefreshStage) -> StoreQueueRef {
    match stage {
        RefreshStage::InspectCached { entry, .. } => entry,
        RefreshStage::LoadApiKey { entry, .. } => entry,
        RefreshStage::LoadFromDb { entry, .. } => entry,
        RefreshStage::LoadFromApi { entry, .. } => entry,
        _ => arbitrary(),
    }
}

proof fn a_valid_store_is_requeued(s: RefreshState, entry: StoreQueueRef, expiry_seconds: u64, now: SimpleTime)
    requires
        s.wf(),
        is_touched(s.touched, entry.jinxxy_user_id@),
        !is_queued(s.queue, entry.jinxxy_user_id@),
    ensures
        s.finish_store(entry, true, expiry_seconds, now).queue.contains(entry),
{
    inserted_store_waits(s.queue, entry);
    let queue = queue_insert(s.queue, entry);
    let next = s.finish_store(entry, true, expiry_seconds, now);
    let i = choose|i: int| 0 <= i < queue.len() && queue[i] == entry;
    if next.queue != queue {
        assert(next.queue == queue.drop_first());
        assert(i > 0);
        assert(next.queue[i - 1] == entry);
    }
}

/// A store whose cache entry is still good goes back into the queue, with the time at which that was created. An expired
/// entry, or one that is missing, is loaded: then an API key is asked for, and only a missing one may be in the database.
pub proof fn good_entries_are_kept(
    before: RefreshWorker,
    create_time: Option<SimpleTime>,
    now: SimpleTime,
    after: RefreshWorker,
)
    requires
        before.stage is InspectCached,
        steps(before, RefreshEvent::Cached { create_time, now }, after),
    ensures
        ({
            let entry = before.stage->InspectCached_entry;
            let expiry_seconds = before.stage->InspectCached_expiry_seconds;
            &&& create_time is None ==> after.stage == (RefreshStage::LoadApiKey {
                expiry_seconds,
                entry,
                now,
                try_db_load: true,
            }) && after.queue@ == before.queue@
            &&& create_time matches Some(time) ==> (now.unix_millis > time.unix_millis + expiry_seconds * 1000 ==> (
            after.stage matches RefreshStage::LoadApiKey { expiry_seconds: e, entry: loaded, now: n, try_db_load } && e
                == expiry_seconds && loaded.jinxxy_user_id == entry.jinxxy_user_id && loaded.create_time == time && n
                == now && !try_db_load && after.queue@ == before.queue@))
            &&& create_time matches Some(time) ==> (now.unix_millis <= time.unix_millis + expiry_seconds * 1000
                ==> waits(after, entry.jinxxy_user_id@, time))
        }),
{
    let entry = before.stage->InspectCached_entry;
    let expiry_seconds = before.stage->InspectCached_expiry_seconds;
    assert(after.queue@ == after@.queue);
    if let Some(time) = create_time {
        if now.unix_millis <= time.unix_millis + expiry_seconds * 1000 {
            let kept = StoreQueueRef { create_time: time, ..entry };
            a_valid_store_is_requeued(before@, kept, expiry_seconds, now);
            assert(after.queue@.contains(kept));
            let i = choose|i: int| 0 <= i < after.queue@.len() && after.queue@[i] == kept;
            assert(after.queue@[i].jinxxy_user_id@ == entry.jinxxy_user_id@);
        }
    }
}

/// A store with an API key is loaded: from the database first if its entry was missing, and from Jinxxy if it is not
/// there. A store without an API key is not registered any more.
pub proof fn stores_with_a_key_are_loaded(before: RefreshWorker, api_key: Option<String>, after: RefreshWorker)
    requires
        before.stage is LoadApiKey,
        steps(before, RefreshEvent::ApiKey(api_key), after),
    ensures
        ({
            let entry = before.stage->LoadApiKey_entry;
            let expiry_seconds = before.stage->LoadApiKey_expiry_seconds;
            let now = before.stage->LoadApiKey_now;
            &&& api_key matches Some(key) ==> after.queue@ == before.queue@
                && (before.stage->try_db_load ==> after.stage
                == (RefreshStage::LoadFromDb { expiry_seconds, entry, now, api_key: key })) && (
            !before.stage->try_db_load ==> after.stage == (RefreshStage::LoadFromApi {
                expiry_seconds,
                entry,
                now,
                api_key: key,
            }))
            &&& api_key is None ==> !is_waiting(after, entry.jinxxy_user_id@)
        }),
{
    let entry = before.stage->LoadApiKey_entry;
    assert(after.queue@ == after@.queue);
    if api_key is None {
        assert(is_waiting(after, entry.jinxxy_user_id@) <==> is_queued(after.queue@, entry.jinxxy_user_id@));
        if is_queued(after.queue@, entry.jinxxy_user_id@) {
            let i = choose|i: int|
                0 <= i < after.queue@.len() && (#[trigger] after.queue@[i]).jinxxy_user_id@ == entry.jinxxy_user_id@;
            if after.queue@ == before.queue@ {
                assert(before.queue@[i].jinxxy_user_id@ == entry.jinxxy_user_id@);
            } else {
                assert(after.queue@ == before.queue@.drop_first());
                assert(before.queue@[i + 1].jinxxy_user_id@ == entry.jinxxy_user_id@);
            }
        }
    }
}

/// A store that was loaded goes back into the queue, with the time at which its new entry was created. What is not in
/// the database is loaded from Jinxxy with the same key.
pub proof fn loaded_stores_are_kept(before: RefreshWorker, create_time: Option<SimpleTime>, after: RefreshWorker)
    requires
        before.stage is LoadFromDb || before.stage is LoadFromApi,
        steps(before, RefreshEvent::Loaded(create_time), after),
    ensures
        create_time matches Some(time) ==> waits(after, worked_on(before.stage).jinxxy_user_id@, time),
        create_time is None ==> (before.stage matches RefreshStage::LoadFromDb { expiry_seconds, entry, now, api_key }
            ==> after.queue@ == before.queue@ && after.stage == (RefreshStage::LoadFromApi {
            expiry_seconds,
            entry,
            now,
            api_key,
        })),
        create_time is None && before.stage is LoadFromApi ==> !is_waiting(
            after,
            worked_on(before.stage).jinxxy_user_id@,
        ),
{
    let entry = worked_on(before.stage);
    let id = entry.jinxxy_user_id@;
    assert(after.queue@ == after@.queue);
    let (expiry_seconds, now) = match before.stage {
        RefreshStage::LoadFromDb { expiry_seconds, now, .. } => (expiry_seconds, now),
        RefreshStage::LoadFromApi { expiry_seconds, now, .. } => (expiry_seconds, now),
        _ => arbitrary(),
    };
    if let Some(time) = create_time {
        let kept = StoreQueueRef { create_time: time, ..entry };
        a_valid_store_is_requeued(before@, kept, expiry_seconds, now);
        assert(after.queue@.contains(kept));
        let i = choose|i: int| 0 <= i < after.queue@.len() && after.queue@[i] == kept;
        assert(after.queue@[i].jinxxy_user_id@ == id);
    } else if before.stage is LoadFromApi {
        assert(is_waiting(after, id) <==> is_queued(after.queue@, id));
        if is_queued(after.queue@, id) {
            let i = choose|i: int| 0 <= i < after.queue@.len() && (#[trigger] after.queue@[i]).jinxxy_user_id@ == id;
            if after.queue@ == before.queue@ {
                assert(before.queue@[i].jinxxy_user_id@ == id);
            } else {
                assert(after.queue@ == before.queue@.drop_first());
                assert(before.queue@[i + 1].jinxxy_user_id@ == id);
            }
        }
    }
}

/// While the worker works on one store it loses no other one, and registers none.
pub proof fn work_keeps_other_stores(before: RefreshWorker, event: RefreshEvent, after: RefreshWorker, other: Seq<char>)
    requires
        before@.in_work() is Some,
        steps(before, event, after),
        other != worked_on(before.stage).jinxxy_user_id@,
    ensures
        is_waiting(before, other) ==> is_waiting(after, other) || (after.stage is InspectCached
            && after.stage->InspectCached_entry.jinxxy_user_id@ == other),
        is_waiting(after, other) ==> is_waiting(before, other),
{
    refresh_keeps_stores_registered(before@, event, other);
    assert(after.queue@ == after@.queue);
    assert(is_waiting(before, other) <==> is_queued(before.queue@, other));
    assert(is_waiting(after, other) <==> is_queued(after.queue@, other));
}

/// The worker goes on with the oldest store, unless it has looked at it already or at 250 stores: then it sleeps until
/// that store is due.
pub proof fn the_worker_goes_on_or_sleeps(before: RefreshWorker, event: RefreshEvent, after: RefreshWorker)
    requires
        before@.in_work() is Some,
        steps(before, event, after),
        !(after@.in_work() matches Some(entry) && entry.jinxxy_user_id == worked_on(before.stage).jinxxy_user_id),
    ensures
        after.stage is Waiting || after.stage is InspectCached,
        after.stage is InspectCached ==> before.work_count < 250 && !is_touched(
            before.touched@,
            after.stage->InspectCached_entry.jinxxy_user_id@,
        ) && after.touched@ == before.touched@.push(after.stage->InspectCached_entry.jinxxy_user_id),
        after.stage is Waiting ==> after.touched@.len() == 0 && after.work_count == 0 && (before.work_count == 250
            || before.queue@.len() == 0 || is_touched(before.touched@, after.queue@[0].jinxxy_user_id@)),
        after.stage is Waiting ==> exists|expiry_seconds: u64, now: SimpleTime| #[trigger]
            sleeps_until_due(after, expiry_seconds, now),
{
    assert(after.queue@ == after@.queue);
    assert(after.touched@ == after@.touched);
    refresh_keeps_stores_registered(before@, event, Seq::empty());
    let (expiry_seconds, now) = match (before.stage, event) {
        (RefreshStage::InspectCached { expiry_seconds, .. }, RefreshEvent::Cached { now, .. }) => (expiry_seconds, now),
        (RefreshStage::LoadApiKey { expiry_seconds, now, .. }, _) => (expiry_seconds, now),
        (RefreshStage::LoadFromDb { expiry_seconds, now, .. }, _) => (expiry_seconds, now),
        (RefreshStage::LoadFromApi { expiry_seconds, now, .. }, _) => (expiry_seconds, now),
        _ => arbitrary(),
    };
    if after.stage is Waiting {
        assert(sleeps_until_due(after, expiry_seconds, now));
    }
}

/// What is due is done for the store that is worked on, with its key. The worker sleeps for as long as it has to, but
/// for two seconds at least.
pub proof fn refresh_actions_are_about_the_store(worker: RefreshWorker)
    ensures
        worker.stage is Waiting ==> (worker.due_action() matches RefreshAction::Wait { max_millis }
            && (max_millis is None
            <==> worker.sleep_millis is None) && (worker.sleep_millis matches Some(millis) ==> max_millis == Some(
            if millis < 2_000 {
                2_000
            } else {
                millis
            },
        ))),
        worker.stage is LoadExpiry ==> worker.due_action() is LoadExpiry,
        worker.stage is PollUnregistered ==> worker.due_action() is PollUnregistered,
        worker.stage matches RefreshStage::DropCached { jinxxy_user_id: id, .. } ==> (
        worker.due_action() matches RefreshAction::DropCached { jinxxy_user_id } && *jinxxy_user_id == id),
        worker.stage matches RefreshStage::InspectCached { entry, .. } ==> (
        worker.due_action() matches RefreshAction::InspectCached { jinxxy_user_id } && *jinxxy_user_id
            == entry.jinxxy_user_id),
        worker.stage matches RefreshStage::LoadApiKey { entry, .. } ==> (
        worker.due_action() matches RefreshAction::LoadApiKey { jinxxy_user_id } && *jinxxy_user_id
            == entry.jinxxy_user_id),
        worker.stage matches RefreshStage::LoadFromDb { entry, .. } ==> (
        worker.due_action() matches RefreshAction::LoadFromDb { jinxxy_user_id } && *jinxxy_user_id
            == entry.jinxxy_user_id),
        worker.stage matches RefreshStage::LoadFromApi { entry, api_key: k, .. } ==> (
        worker.due_action() matches RefreshAction::LoadFromApi { jinxxy_user_id, api_key } && *jinxxy_user_id
            == entry.jinxxy_user_id && *api_key == k),
        worker.stage is Stopped ==> worker.due_action() is Stop,
{
}

} // verus!
