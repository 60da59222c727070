//! The daemon: which of two runs, when it notifies, which events it passes on, and how it goes
//! round.

use vstd::prelude::*;

use crate::daemon::ResolvedRequest;
use crate::daemon;
use crate::daemon::AwayWindow;
use crate::daemon::BackendPlan;
use crate::daemon::ClientStep;
use crate::daemon::DrainedRequest;
use crate::daemon::LockAttempt;
use crate::daemon::LockProbe;
use crate::daemon::LockStep;
use crate::daemon::LoopEvent;
use crate::daemon::LoopStep;
use crate::daemon::OutboundStep;
use crate::daemon::RequestEvents;
use crate::daemon::ThreadFlags;
use crate::json;
use crate::json::Json;
use crate::json::JsonView;
use crate::laws::names;
use crate::laws::paths;
use crate::laws::values;
use crate::text;

verus! {

// ---------------------------------------------------------------------------------------------
// The lock
// ---------------------------------------------------------------------------------------------

/// The lock is beside the state.
pub proof fn the_lock_is_beside_the_state(
    state: &str,
    dir: Seq<char>,
    name: Seq<char>,
    lock: String,
)
    requires
        call_ensures(daemon::daemon_lock_path, (state,), lock),
        state@ == dir.push('/') + name,
        paths::is_file_name(name),
        dir.len() > 0,
        dir.last() != '/',
        dir.last() != '.',
    ensures
        lock@ == dir.push('/') + "daemon.lock"@,
{
    reveal_strlit("daemon.lock");
    assert forall|i: int| 0 <= i < "daemon.lock"@.len() implies #[trigger] "daemon.lock"@[i]
        != '/' by {}
    assert("daemon.lock"@.len() == 11);
    assert(paths::is_file_name("daemon.lock"@));
    paths::another_file_name_keeps_the_directory(dir, name, "daemon.lock"@);
}

/// A daemon runs once it has the lock. While another holds it, it waits for two seconds, and then
/// gives up; where the lock cannot be taken it gives up at once.
pub proof fn only_one_daemon_runs(
    elapsed_ms: u64,
    taken: LockStep,
    held: LockStep,
    failed: LockStep,
    path: &str,
    told: String,
)
    requires
        call_ensures(daemon::lock_step, (LockAttempt::Taken, elapsed_ms), taken),
        call_ensures(daemon::lock_step, (LockAttempt::Held, elapsed_ms), held),
        call_ensures(daemon::lock_step, (LockAttempt::Failed, elapsed_ms), failed),
        call_ensures(daemon::already_running_text, (path,), told),
    ensures
        taken is Locked,
        elapsed_ms < 2_000 ==> held is Wait,
        elapsed_ms >= 2_000 ==> held is AlreadyRunning,
        failed is Failed,
        told@ == "another daemon instance is already running (lock: "@ + path@ + ")"@,
{
}

/// The lock is free where there is none or it can be taken, and not where another holds it; else
/// nobody knows.
pub proof fn a_lock_is_free_where_it_can_be_taken(
    missing: Option<bool>,
    taken: Option<bool>,
    held: Option<bool>,
    failed: Option<bool>,
    unopened: Option<bool>,
)
    requires
        call_ensures(daemon::daemon_lock_free, (LockProbe::Missing,), missing),
        call_ensures(daemon::daemon_lock_free, (LockProbe::Opened(LockAttempt::Taken),), taken),
        call_ensures(daemon::daemon_lock_free, (LockProbe::Opened(LockAttempt::Held),), held),
        call_ensures(daemon::daemon_lock_free, (LockProbe::Opened(LockAttempt::Failed),), failed),
        call_ensures(daemon::daemon_lock_free, (LockProbe::Failed,), unopened),
    ensures
        missing == Some(true),
        taken == Some(true),
        held == Some(false),
        failed is None,
        unopened is None,
{
}

// ---------------------------------------------------------------------------------------------
// When it notifies
// ---------------------------------------------------------------------------------------------

/// An event is as old as it says, first by its update, then by its observation, then by its thread.
pub proof fn events_are_as_old_as_they_say(event: JsonView)
    ensures
        ({
            let updated = json::unsigned_at(event.get("updatedAt"@));
            let observed = json::unsigned_at(event.get("observedAt"@));
            let thread = json::unsigned_at(json::at(event.get("thread"@), "updatedAt"@));
            &&& updated is Some ==> daemon::observed_at(event) == updated
            &&& updated is None && observed is Some ==> daemon::observed_at(event) == observed
            &&& updated is None && observed is None ==> daemon::observed_at(event) == thread
        }),
{
}

/// The user is notified while away, from the time on at which that began.
pub proof fn users_are_notified_while_away(
    away_status: &Json,
    event: &Json,
    enabled: bool,
    window: Option<AwayWindow>,
)
    requires
        call_ensures(daemon::away_notifications_enabled_from_status, (away_status,), enabled),
        call_ensures(daemon::daemon_notification_window, (away_status, event), window),
    ensures
        enabled <==> json::truth_at(away_status@.get("away"@)) == Some(true),
        window is Some <==> enabled,
        window matches Some(window) ==> {
            &&& json::opt_unsigned(window.away_started_at) == json::unsigned_at(
                away_status@.get("awayStartedAt"@),
            )
            &&& json::opt_unsigned(window.observed_at) == daemon::observed_at(event@)
        },
{
}

/// An event is delivered once, and only where there is a chat.
pub proof fn events_are_delivered_once(
    delivered: bool,
    unconfigured: OutboundStep,
    again: OutboundStep,
    first: OutboundStep,
)
    requires
        call_ensures(daemon::outbound_step, (false, delivered), unconfigured),
        call_ensures(daemon::outbound_step, (true, true), again),
        call_ensures(daemon::outbound_step, (true, false), first),
    ensures
        unconfigured is NoTransport,
        again is AlreadyDelivered,
        first is Deliver,
{
}

// ---------------------------------------------------------------------------------------------
// The backend
// ---------------------------------------------------------------------------------------------

/// The backend is looked after while the user is away, and only then.
pub proof fn the_backend_is_looked_after_while_away(
    configured: bool,
    unknown: BackendPlan,
    home: BackendPlan,
    missing: BackendPlan,
    away: BackendPlan,
)
    requires
        call_ensures(daemon::backend_plan, (None::<bool>, configured), unknown),
        call_ensures(daemon::backend_plan, (Some(false), configured), home),
        call_ensures(daemon::backend_plan, (Some(true), false), missing),
        call_ensures(daemon::backend_plan, (Some(true), true), away),
    ensures
        unknown is Idle,
        home is Idle,
        missing is NotConfigured,
        away is Reconcile,
{
}

/// A connection that fits the backend is kept, any other is made anew, and none is used where the
/// backend is not usable.
pub proof fn connections_fit_the_backend(
    fits: Option<bool>,
    refused: ClientStep,
    kept: ClientStep,
    changed: ClientStep,
    none: ClientStep,
)
    requires
        call_ensures(daemon::ensure_daemon_app_server_client, (false, fits), refused),
        call_ensures(daemon::ensure_daemon_app_server_client, (true, Some(true)), kept),
        call_ensures(daemon::ensure_daemon_app_server_client, (true, Some(false)), changed),
        call_ensures(daemon::ensure_daemon_app_server_client, (true, None::<bool>), none),
    ensures
        refused is Refuse,
        kept is Keep,
        changed is Connect,
        none is Connect,
{
}

/// A kept connection stays, a new one replaces it, a failed attempt leaves none, and a refused one
/// leaves what there was without using it.
pub proof fn failed_connections_leave_none<C>(
    held: &mut Option<C>,
    step: ClientStep,
    connected: Option<C>,
    usable: bool,
)
    requires
        call_ensures(
            daemon::settle_daemon_app_server_client::<C>,
            (held, step, connected),
            usable,
        ),
    ensures
        step is Refuse ==> *final(held) == *old(held) && !usable,
        step is Keep ==> *final(held) == *old(held) && (usable <==> *old(held) is Some),
        step is Connect ==> *final(held) == connected && (usable <==> connected is Some),
{
}

/// What is reported of the backend: whether it is healthy, and the error where it is not.
pub proof fn unhealthy_backends_are_reported(
    error: &str,
    healthy: bool,
    action: Json,
    status: Json,
    failed: Json,
    missing: Json,
    report: Json,
)
    requires
        call_ensures(daemon::backend_error_report, (error,), failed),
        call_ensures(daemon::backend_not_configured_report, (), missing),
        call_ensures(daemon::backend_report, (healthy, action, status), report),
    ensures
        json::truth_at(failed@.get("ok"@)) == Some(false),
        json::truth_at(failed@.get("required"@)) == Some(true),
        json::text_at(failed@.get("state"@)) == Some("unhealthy"@),
        json::text_at(failed@.get("error"@)) == Some(error@),
        json::truth_at(missing@.get("ok"@)) == Some(false),
        json::text_at(missing@.get("error"@)) == Some(
            "shared Codex live backend is not configured"@,
        ),
        json::truth_at(report@.get("ok"@)) == Some(healthy),
        report@.get("action"@) == Some(action@),
        report@.get("status"@) == Some(status@),
{
    broadcast use values::added_members_are_found;
    broadcast use values::no_members_are_found;

    names::names_differ();
}

// ---------------------------------------------------------------------------------------------
// Threads
// ---------------------------------------------------------------------------------------------

/// The thread is the first with the identifier, if there is one.
pub proof fn the_first_thread_with_the_identifier_is_found(
    threads: Seq<JsonView>,
    id: Seq<char>,
    k: int,
)
    requires
        0 <= k <= threads.len(),
        k < threads.len() ==> json::text_at(threads[k].get("threadId"@)) == Some(id),
        forall|i: int|
            0 <= i < k ==> json::text_at((#[trigger] threads[i]).get("threadId"@)) != Some(id),
    ensures
        k < threads.len() ==> daemon::thread_with_id(threads, id) == Some(threads[k]),
        k == threads.len() ==> daemon::thread_with_id(threads, id) is None,
    decreases k,
{
    if k > 0 {
        let rest = threads.skip(1);
        assert(json::text_at(threads[0].get("threadId"@)) != Some(id));
        assert forall|i: int| 0 <= i < k - 1 implies json::text_at(
            (#[trigger] rest[i]).get("threadId"@),
        ) != Some(id) by {
            assert(rest[i] == threads[i + 1]);
        }
        the_first_thread_with_the_identifier_is_found(rest, id, k - 1);
    }
}

/// An event on an approval is given its thread as it was synchronized, and keeps all else; without
/// such a thread it stays as it is.
pub proof fn approvals_are_given_their_thread(
    members: Seq<(Seq<char>, JsonView)>,
    sync_result: JsonView,
    threads: Seq<JsonView>,
    id: Seq<char>,
    k: int,
    key: Seq<char>,
)
    requires
        json::text_at(JsonView::Object(members).get("threadId"@)) == Some(id),
        json::items_at(sync_result.get("threads"@)) == Some(threads),
        0 <= k <= threads.len(),
        k < threads.len() ==> json::text_at(threads[k].get("threadId"@)) == Some(id),
        forall|i: int|
            0 <= i < k ==> json::text_at((#[trigger] threads[i]).get("threadId"@)) != Some(id),
    ensures
        ({
            let event = JsonView::Object(members);
            let shown = daemon::enriched(event, sync_result);
            &&& k < threads.len() ==> shown.get("thread"@) == Some(threads[k])
            &&& k < threads.len() && key != "thread"@ ==> shown.get(key) == event.get(key)
            &&& k == threads.len() ==> shown == event
        }),
{
    the_first_thread_with_the_identifier_is_found(threads, id, k);
    if k < threads.len() {
        json::members_that_are_set_read_back(members, "thread"@, threads[k], key);
    }
}

/// The texts among values are kept in order.
pub proof fn texts_among_values_are_kept_in_order(
    first: Seq<JsonView>,
    second: Seq<JsonView>,
    value: JsonView,
)
    ensures
        daemon::texts_among(first + second) == daemon::texts_among(first) + daemon::texts_among(
            second,
        ),
        value.text() matches Some(s) ==> daemon::texts_among(seq![value]) == seq![s],
        value.text() is None ==> daemon::texts_among(seq![value]).len() == 0,
    decreases second.len(),
{
    let none = Seq::<JsonView>::empty();
    assert(seq![value].drop_last() =~= none);
    assert(daemon::texts_among(none) == Seq::<Seq<char>>::empty());
    if second.len() == 0 {
        assert(first + second =~= first);
        assert(daemon::texts_among(second) == Seq::<Seq<char>>::empty());
        assert(daemon::texts_among(first) + daemon::texts_among(second) =~= daemon::texts_among(
            first,
        ));
    } else {
        texts_among_values_are_kept_in_order(first, second.drop_last(), value);
        assert((first + second).drop_last() =~= first + second.drop_last());
        assert((first + second).last() == second.last());
        assert(daemon::texts_among(first + second) =~= daemon::texts_among(first)
            + daemon::texts_among(second));
    }
}

/// The flags of every thread that has an identifier are kept, thread by thread.
pub proof fn flags_are_kept_thread_by_thread(
    first: Seq<JsonView>,
    second: Seq<JsonView>,
    thread: JsonView,
)
    ensures
        daemon::flags_among(first + second) == daemon::flags_among(first) + daemon::flags_among(
            second,
        ),
        json::text_at(thread.get("threadId"@)) is None ==> daemon::flags_among(seq![thread]).len()
            == 0,
        json::text_at(thread.get("threadId"@)) matches Some(id) ==> {
            let kept = daemon::flags_among(seq![thread]);
            &&& kept.len() == 1
            &&& kept[0].0 == id
            &&& json::items_at(thread.get("statusFlags"@)) matches Some(flags) ==> kept[0].1
                == daemon::texts_among(flags)
            &&& json::items_at(thread.get("statusFlags"@)) is None ==> kept[0].1.len() == 0
        },
    decreases second.len(),
{
    let none = Seq::<JsonView>::empty();
    assert(seq![thread].drop_last() =~= none);
    assert(daemon::flags_among(none).len() == 0);
    if second.len() == 0 {
        assert(first + second =~= first);
        assert(daemon::flags_among(second).len() == 0);
        assert(daemon::flags_among(first) + daemon::flags_among(second) =~= daemon::flags_among(
            first,
        ));
    } else {
        flags_are_kept_thread_by_thread(first, second.drop_last(), thread);
        assert((first + second).drop_last() =~= first + second.drop_last());
        assert((first + second).last() == second.last());
        assert(daemon::flags_among(first + second) =~= daemon::flags_among(first)
            + daemon::flags_among(second));
    }
}

/// A thread's questions are stale where it waits no more, and only there.
pub proof fn questions_of_threads_that_wait_no_more_are_stale(
    flags: Seq<ThreadFlags>,
    waiting: Seq<bool>,
    id: Seq<char>,
)
    requires
        flags.len() == waiting.len(),
    ensures
        daemon::stale_ids(flags, waiting).contains(id) <==> exists|i: int|
            0 <= i < flags.len() && (#[trigger] flags[i]).thread_id@ == id && !waiting[i],
{
    lemma_stale(flags, waiting, id);
}

proof fn lemma_stale(flags: Seq<ThreadFlags>, waiting: Seq<bool>, id: Seq<char>)
    requires
        flags.len() <= waiting.len(),
    ensures
        daemon::stale_ids(flags, waiting).contains(id) <==> exists|i: int|
            0 <= i < flags.len() && (#[trigger] flags[i]).thread_id@ == id && !waiting[i],
    decreases flags.len(),
{
    if flags.len() > 0 {
        let front = flags.drop_last();
        let before = daemon::stale_ids(front, waiting);
        let out = daemon::stale_ids(flags, waiting);
        let last = flags.len() - 1;
        lemma_stale(front, waiting, id);
        if before.contains(id) {
            let i = choose|i: int|
                0 <= i < front.len() && (#[trigger] front[i]).thread_id@ == id && !waiting[i];
            assert(flags[i] == front[i]);
            let k = choose|k: int| 0 <= k < before.len() && before[k] == id;
            assert(out[k] == id);
        } else if !waiting[last] && flags[last].thread_id@ == id {
            assert(out[out.len() - 1] == id);
        } else {
            if out.contains(id) {
                let k = choose|k: int| 0 <= k < out.len() && out[k] == id;
                assert(before[k] == id);
            }
            assert forall|i: int|
                0 <= i < flags.len() && (#[trigger] flags[i]).thread_id@ == id implies waiting[i] by {
                if i < last {
                    assert(front[i] == flags[i]);
                }
            }
        }
    }
}

// ---------------------------------------------------------------------------------------------
// Notifications of the app server
// ---------------------------------------------------------------------------------------------

/// A request is resolved where the app server says so of a thread and a request.
pub proof fn requests_are_resolved_by_their_notification(
    notification: JsonView,
    thread_id: Seq<char>,
    request_id: JsonView,
)
    ensures
        json::text_at(notification.get("method"@)) == Some("serverRequest/resolved"@)
            && json::text_at(json::at(notification.get("params"@), "threadId"@)) == Some(thread_id)
            && json::at(notification.get("params"@), "requestId"@) == Some(request_id)
            ==> daemon::resolved_by(notification) == Some((thread_id, request_id)),
        json::text_at(notification.get("method"@)) != Some("serverRequest/resolved"@)
            ==> daemon::resolved_by(notification) is None,
        json::text_at(json::at(notification.get("params"@), "threadId"@)) is None
            ==> daemon::resolved_by(notification) is None,
        json::at(notification.get("params"@), "requestId"@) is None ==> daemon::resolved_by(
            notification,
        ) is None,
{
}

/// The notification says that an item of a turn was started.
pub open spec fn says_started(
    notification: JsonView,
    thread_id: Seq<char>,
    turn_id: Seq<char>,
    item_id: Seq<char>,
) -> bool {
    let params = notification.get("params"@);
    &&& json::text_at(notification.get("method"@)) == Some("item/started"@)
    &&& json::text_at(json::at(params, "threadId"@)) == Some(thread_id)
    &&& json::text_at(json::at(params, "turnId"@)) == Some(turn_id)
    &&& json::text_at(json::at(json::at(params, "item"@), "id"@)) == Some(item_id)
}

/// The item is that of the first notification that it was started.
pub proof fn the_first_notification_tells_the_item(
    notifications: Seq<JsonView>,
    thread_id: Seq<char>,
    turn_id: Seq<char>,
    item_id: Seq<char>,
    k: int,
)
    requires
        0 <= k <= notifications.len(),
        k < notifications.len() ==> says_started(notifications[k], thread_id, turn_id, item_id),
        forall|i: int|
            0 <= i < k ==> !says_started(#[trigger] notifications[i], thread_id, turn_id, item_id),
    ensures
        k < notifications.len() ==> daemon::item_started(
            notifications,
            thread_id,
            turn_id,
            item_id,
        ) == json::at(notifications[k].get("params"@), "item"@),
        k == notifications.len() ==> daemon::item_started(
            notifications,
            thread_id,
            turn_id,
            item_id,
        ) is None,
    decreases k,
{
    if k > 0 {
        let rest = notifications.skip(1);
        assert(!says_started(notifications[0], thread_id, turn_id, item_id));
        assert forall|i: int| 0 <= i < k - 1 implies !says_started(
            #[trigger] rest[i],
            thread_id,
            turn_id,
            item_id,
        ) by {
            assert(rest[i] == notifications[i + 1]);
        }
        the_first_notification_tells_the_item(rest, thread_id, turn_id, item_id, k - 1);
    }
}

// ---------------------------------------------------------------------------------------------
// Which events are passed on
// ---------------------------------------------------------------------------------------------

/// A thread that waits for an approval is passed over where its request came in, and one that waits
/// for a reply where its question did; every other event is passed on.
pub proof fn events_with_their_own_message_are_passed_over(
    event: JsonView,
    native: Seq<Seq<char>>,
    asked: Seq<Seq<char>>,
)
    ensures
        ({
            let waiting = json::text_at(event.get("type"@)) == Some("thread_waiting"@);
            let kind = json::text_at(event.get("promptKind"@));
            let thread_id = json::text_at(event.get("threadId"@));
            daemon::suppressed(event, native, asked) <==> waiting && thread_id is Some && ((kind
                == Some("approval"@) && native.contains(thread_id->0)) || (kind == Some("reply"@)
                && asked.contains(thread_id->0)))
        }),
{
    reveal_strlit("approval");
    reveal_strlit("reply");
    assert("approval"@.len() == 8);
    assert("reply"@.len() == 5);
}

/// Events that are passed on stay in their order.
pub proof fn events_stay_in_order(
    first: Seq<JsonView>,
    second: Seq<JsonView>,
    native: Seq<Seq<char>>,
    asked: Seq<Seq<char>>,
    event: JsonView,
)
    ensures
        daemon::kept_events(first + second, native, asked) == daemon::kept_events(
            first,
            native,
            asked,
        ) + daemon::kept_events(second, native, asked),
        daemon::suppressed(event, native, asked) ==> daemon::kept_events(
            seq![event],
            native,
            asked,
        ).len() == 0,
        !daemon::suppressed(event, native, asked) ==> daemon::kept_events(
            seq![event],
            native,
            asked,
        ) == seq![event],
    decreases second.len(),
{
    let none = Seq::<JsonView>::empty();
    assert(seq![event].drop_last() =~= none);
    assert(daemon::kept_events(none, native, asked) == none);
    assert(none.push(event) =~= seq![event]);
    if second.len() == 0 {
        assert(first + second =~= first);
        assert(daemon::kept_events(second, native, asked) == none);
        assert(daemon::kept_events(first, native, asked) + daemon::kept_events(
            second,
            native,
            asked,
        ) =~= daemon::kept_events(first, native, asked));
    } else {
        events_stay_in_order(first, second.drop_last(), native, asked, event);
        assert((first + second).drop_last() =~= first + second.drop_last());
        assert((first + second).last() == second.last());
        assert(daemon::kept_events(first + second, native, asked) =~= daemon::kept_events(
            first,
            native,
            asked,
        ) + daemon::kept_events(second, native, asked));
    }
}

/// Every request that came in silences its thread, and one that is new and pending adds its events.
pub proof fn new_requests_add_their_events(
    drained: Seq<Option<DrainedRequest>>,
    request: DrainedRequest,
)
    ensures
        daemon::new_events(Seq::empty()).len() == 0,
        daemon::drained_threads(Seq::empty()).len() == 0,
        daemon::drained_threads(drained.push(Some(request))) == daemon::drained_threads(
            drained,
        ).push(request.thread_id@),
        request.is_new && request.pending ==> daemon::new_events(drained.push(Some(request)))
            == daemon::new_events(drained) + json::views(request.events@),
        !request.is_new || !request.pending ==> daemon::new_events(drained.push(Some(request)))
            == daemon::new_events(drained),
        daemon::new_events(drained.push(None)) == daemon::new_events(drained),
        daemon::drained_threads(drained.push(None)) == daemon::drained_threads(drained),
{
    assert(drained.push(Some(request)).drop_last() =~= drained);
    assert(drained.push(None).drop_last() =~= drained);
}

/// What is collected are the watched events that are passed on, and behind them those of new
/// requests.
pub proof fn watched_events_come_first(
    watched: &Vec<Json>,
    drained: &Vec<Option<DrainedRequest>>,
    asked: &Vec<String>,
    events: Vec<Json>,
)
    requires
        call_ensures(daemon::collect_daemon_app_server_events, (watched, drained, asked), events),
    ensures
        ({
            let kept = daemon::kept_events(
                json::views(watched@),
                daemon::drained_threads(drained@),
                text::texts(asked@),
            );
            let new = daemon::new_events(drained@);
            let all = json::views(events@);
            &&& all.len() == kept.len() + new.len()
            &&& forall|i: int| 0 <= i < kept.len() ==> #[trigger] all[i] == kept[i]
            &&& forall|i: int| 0 <= i < new.len() ==> #[trigger] new[i] == all[kept.len() + i]
        }),
{
}

/// A request that is pending and was not known gets its questions or its approval, and any other
/// nothing.
pub proof fn known_requests_get_no_events(
    is_new: bool,
    pending: Option<bool>,
    out: RequestEvents,
)
    requires
        call_ensures(daemon::request_events, (is_new, pending), out),
    ensures
        is_new && pending == Some(true) ==> out is Questions,
        is_new && pending == Some(false) ==> out is Approval,
        !is_new || pending is None ==> out is Nothing,
{
}

/// Where the app server could not be asked the connection is given up, and the one event on that is
/// passed on where it is wanted.
pub proof fn failures_give_up_the_connection<C>(
    collected: Result<Vec<Json>, Option<Json>>,
    client: &mut Option<C>,
    events: Vec<Json>,
)
    requires
        call_ensures(daemon::cycle_events::<C>, (collected, client), events),
    ensures
        collected matches Ok(found) ==> *final(client) == *old(client) && json::views(events@)
            == json::views(found@),
        collected is Err ==> *final(client) is None,
        collected matches Err(Some(event)) ==> json::views(events@) == seq![event@],
        collected matches Err(None) ==> events@.len() == 0,
{
    if let Err(None) = collected {
        assert(json::views(events@).len() == 0);
    }
}

// ---------------------------------------------------------------------------------------------
// Rounds
// ---------------------------------------------------------------------------------------------

/// A cycle takes at most three times the timeout, which counts as five seconds at least, and no
/// longer than time can be told.
pub proof fn cycles_take_three_timeouts(timeout: int)
    requires
        0 <= timeout <= 18_446_744_073_709_551_615_999_999_999,
    ensures
        timeout <= 5_000_000_000 ==> daemon::cycle_budget(timeout) == 15_000_000_000,
        5_000_000_000 <= timeout && 3 * timeout <= 18_446_744_073_709_551_615_999_999_999
            ==> daemon::cycle_budget(timeout) == 3 * timeout,
        3 * timeout > 18_446_744_073_709_551_615_999_999_999 ==> daemon::cycle_budget(timeout)
            == 18_446_744_073_709_551_615_999_999_999,
{
}

/// Old logs are removed every ten minutes.
pub proof fn logs_are_removed_every_ten_minutes(last: u64, now: u64, due: bool)
    requires
        call_ensures(daemon::prune_due, (last, now), due),
    ensures
        due <==> now >= last + 600_000,
{
}

/// A round loads the configuration, reads the clock, removes old logs where it is time, runs a cycle
/// and waits. Where configuration or clock fail it pauses, and a failed removal or cycle does not
/// end it. Time goes on only where logs are removed.
pub proof fn rounds_go_on_after_failures(last: &mut u64, event: LoopEvent, step: LoopStep)
    requires
        call_ensures(daemon::loop_step, (last, event), step),
    ensures
        event is Woken ==> step.action is LoadConfig,
        event is ConfigLoaded ==> step.action is ReadClock,
        event is ConfigFailed || event is ClockFailed ==> step.action is Pause,
        event matches LoopEvent::ClockRead { now } ==> {
            &&& now >= *old(last) + 600_000 ==> step.action is Prune && *final(last) == now
            &&& now < *old(last) + 600_000 ==> step.action is RunCycle && *final(last) == *old(last)
        },
        event is Pruned || event is PruneFailed ==> step.action is RunCycle,
        event is CycleDone || event is CycleFailed ==> step.action is Wait,
        !(event is ClockRead) ==> *final(last) == *old(last),
{
}

/// Every failure of a round is reported with its error and where it happened, and a cycle with its
/// report.
pub proof fn failures_of_rounds_are_reported(last: &mut u64, event: LoopEvent, step: LoopStep)
    requires
        call_ensures(daemon::loop_step, (last, event), step),
    ensures
        event is Woken || event is ConfigLoaded || event is ClockRead ==> step.report is None,
        event matches LoopEvent::ConfigFailed { error } ==> is_fault(
            step,
            "daemon_config_error"@,
            error@,
        ),
        event matches LoopEvent::ClockFailed { error } ==> is_fault(
            step,
            "daemon_clock_error"@,
            error@,
        ),
        event matches LoopEvent::PruneFailed { error } ==> is_fault(
            step,
            "daemon_logs_prune_error"@,
            error@,
        ),
        event matches LoopEvent::CycleFailed { error } ==> is_fault(
            step,
            "daemon_cycle_error"@,
            error@,
        ),
        event matches LoopEvent::Pruned { removed } ==> (step.report matches Some(report)
            && report@.get("removed"@) == Some(removed@) && json::truth_at(report@.get("ok"@))
            == Some(true)),
        event matches LoopEvent::CycleDone { report } ==> (step.report matches Some(told) && told@
            == report@),
{
    broadcast use values::added_members_are_found;
    broadcast use values::no_members_are_found;

    names::names_differ();
}

/// The step reports a failure.
pub open spec fn is_fault(step: LoopStep, action: Seq<char>, error: Seq<char>) -> bool {
    step.report matches Some(report) && json::truth_at(report@.get("ok"@)) == Some(false)
        && json::text_at(report@.get("action"@)) == Some(action) && json::text_at(
        report@.get("error"@),
    ) == Some(error)
}

/// What is reported of a cycle.
pub proof fn cycles_are_reported(
    observed: usize,
    enqueued: usize,
    backend: Json,
    delivery: Json,
    telegram_updates: Json,
    pending: u64,
    report: Json,
)
    requires
        call_ensures(
            daemon::daemon_cycle_report,
            (observed, enqueued, backend, delivery, telegram_updates, pending),
            report,
        ),
    ensures
        json::truth_at(report@.get("ok"@)) == Some(true),
        json::text_at(report@.get("action"@)) == Some("daemon_cycle"@),
        report@.get("observed"@) == Some(JsonView::Int(observed as int)),
        report@.get("enqueued"@) == Some(JsonView::Int(enqueued as int)),
        report@.get("backend"@) == Some(backend@),
        report@.get("delivery"@) == Some(delivery@),
        report@.get("telegramUpdates"@) == Some(telegram_updates@),
        report@.get("pending"@) == Some(JsonView::Int(pending as int)),
{
    broadcast use values::added_members_are_found;
    broadcast use values::no_members_are_found;

    names::names_differ();
}

/// What is reported of Telegram: an error, what was skipped, and the indicators beside the updates.
pub proof fn work_with_telegram_is_reported(
    error: &str,
    typing: Json,
    polled: Json,
    members: Seq<(Seq<char>, JsonView)>,
    key: Seq<char>,
    telegram: Option<&Json>,
    failed: Json,
    skipped: Json,
    delivered: Json,
    updates: Json,
    outbound: Json,
)
    requires
        call_ensures(daemon::telegram_error_report, (error,), failed),
        call_ensures(daemon::typing_skipped_report, (), skipped),
        call_ensures(daemon::already_delivered_report, (), delivered),
        call_ensures(daemon::updates_report, (polled, typing), updates),
        call_ensures(daemon::outbound_report, (telegram,), outbound),
        polled@ == JsonView::Object(members),
    ensures
        json::truth_at(failed@.get("ok"@)) == Some(false),
        json::text_at(failed@.get("error"@)) == Some(error@),
        json::text_at(skipped@.get("skipped"@)) == Some("cycle_deadline"@),
        json::text_at(delivered@.get("skipped"@)) == Some("already_delivered"@),
        json::truth_at(delivered@.get("ok"@)) == Some(true),
        updates@.get("typing"@) == Some(typing@),
        key != "typing"@ ==> updates@.get(key) == polled@.get(key),
        outbound@.get("telegram"@) == Some(json::or_null(json::opt_view(telegram))),
{
    broadcast use values::added_members_are_found;
    broadcast use values::no_members_are_found;

    names::names_differ();
    json::members_that_are_set_read_back(members, "typing"@, typing@, key);
}

/// What is reported when the daemon starts.
pub proof fn starting_is_reported(
    config_path: &str,
    events: &str,
    commands: Option<&Json>,
    error: &str,
    report: Json,
    registered: Json,
    failed: Json,
)
    requires
        call_ensures(daemon::daemon_started_report, (config_path, events, commands), report),
        call_ensures(daemon::commands_registered_report, (None::<&str>,), registered),
        call_ensures(daemon::commands_registered_report, (Some(error),), failed),
    ensures
        json::truth_at(report@.get("ok"@)) == Some(true),
        json::text_at(report@.get("action"@)) == Some("daemon_started"@),
        json::text_at(report@.get("configPath"@)) == Some(config_path@),
        json::text_at(report@.get("events"@)) == Some(events@),
        report@.get("telegramCommands"@) == Some(json::or_null(json::opt_view(commands))),
        json::truth_at(registered@.get("registered"@)) == Some(true),
        json::truth_at(failed@.get("registered"@)) == Some(false),
        json::text_at(failed@.get("error"@)) == Some(error@),
{
    broadcast use values::added_members_are_found;
    broadcast use values::no_members_are_found;

    names::names_differ();
}

/// The flags are those of the threads that were synchronized.
pub proof fn flags_are_those_of_the_synchronized_threads(
    sync_result: &Json,
    threads: Seq<JsonView>,
    flags: Vec<ThreadFlags>,
)
    requires
        call_ensures(daemon::synced_thread_flags, (sync_result,), flags),
    ensures
        json::items_at(sync_result@.get("threads"@)) == Some(threads) ==> daemon::flag_views(flags@)
            == daemon::flags_among(threads),
        json::items_at(sync_result@.get("threads"@)) is None ==> flags@.len() == 0,
{
    assert(daemon::flag_views(flags@).len() == flags@.len());
}

/// A notification that resolves a request is read as one.
pub proof fn resolved_requests_are_read(
    notification: &Json,
    out: Option<ResolvedRequest>,
)
    requires
        call_ensures(daemon::resolved_request, (notification,), out),
    ensures
        daemon::resolved_by(notification@) is None ==> out is None,
        daemon::resolved_by(notification@) matches Some(resolved) ==> (out matches Some(found)
            && found.thread_id@ == resolved.0 && found.request_id@ == resolved.1),
{
}

} // verus!
