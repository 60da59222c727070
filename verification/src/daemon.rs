//! The daemon: its lock, its cycles, which Codex events become notifications, and what it prints.

use vstd::prelude::*;

use crate::json;
use crate::json::push_json;
use crate::json::Fields;
use crate::json::Json;
use crate::json::JsonView;
use crate::path;
use crate::path::with_file_name;
use crate::text;
use crate::text::cat3;
use crate::text::is_text;
use crate::text::no_texts;
use crate::text::push_text;
use crate::text::same_text;

verus! {

// ---------------------------------------------------------------------------------------------
// The lock
// ---------------------------------------------------------------------------------------------

/// The path of the lock, next to the state database.
pub fn daemon_lock_path(state_db_path: &str) -> (out: String)
    ensures
        out@ == path::path_with_file_name(state_db_path@, "daemon.lock"@),
{
    with_file_name(state_db_path, "daemon.lock")
}

/// How an attempt to take the lock ended.
#[derive(Debug, Clone, Copy, PartialEq, Eq, Structural)]
pub enum LockAttempt {
    Taken,
    /// Another process holds it.
    Held,
    Failed,
}

/// What to do after an attempt to take the lock.
#[derive(Debug, Clone, Copy, PartialEq, Eq, Structural)]
pub enum LockStep {
    /// The lock is held.
    Locked,
    /// Try again in a moment.
    Wait,
    /// Give up: another daemon runs.
    AlreadyRunning,
    /// Give up: the lock cannot be taken.
    Failed,
}

/// How long the daemon waits for the lock, in milliseconds.
pub const DAEMON_LOCK_TIMEOUT_MS: u64 = 2_000;

/// What to do after an attempt to take the lock, when waiting began `elapsed_ms` ago.
pub fn lock_step(attempt: LockAttempt, elapsed_ms: u64) -> (out: LockStep)
    ensures
        out == match attempt {
            LockAttempt::Taken => LockStep::Locked,
            LockAttempt::Held => if elapsed_ms >= 2_000 {
                LockStep::AlreadyRunning
            } else {
                LockStep::Wait
            },
            LockAttempt::Failed => LockStep::Failed,
        },
{
    match attempt {
        LockAttempt::Taken => LockStep::Locked,
        LockAttempt::Held => if elapsed_ms >= DAEMON_LOCK_TIMEOUT_MS {
            LockStep::AlreadyRunning
        } else {
            LockStep::Wait
        },
        LockAttempt::Failed => LockStep::Failed,
    }
}

/// The error of a daemon that finds another one running.
pub fn already_running_text(lock_path: &str) -> (out: String)
    ensures
        out@ == "another daemon instance is already running (lock: "@ + lock_path@ + ")"@,
{
    cat3("another daemon instance is already running (lock: ", lock_path, ")")
}

/// How opening the lock to look at it ended.
#[derive(Debug, Clone, Copy, PartialEq, Eq, Structural)]
pub enum LockProbe {
    /// There is no lock file.
    Missing,
    Opened(LockAttempt),
    Failed,
}

/// Whether no daemon holds the lock; `None` where that cannot be found out.
pub fn daemon_lock_free(probe: LockProbe) -> (out: Option<bool>)
    ensures
        out == match probe {
            LockProbe::Missing => Some(true),
            LockProbe::Opened(LockAttempt::Taken) => Some(true),
            LockProbe::Opened(LockAttempt::Held) => Some(false),
            LockProbe::Opened(LockAttempt::Failed) => None,
            LockProbe::Failed => None,
        },
{
    match probe {
        LockProbe::Missing => Some(true),
        LockProbe::Opened(LockAttempt::Taken) => Some(true),
        LockProbe::Opened(LockAttempt::Held) => Some(false),
        LockProbe::Opened(LockAttempt::Failed) => None,
        LockProbe::Failed => None,
    }
}

// ---------------------------------------------------------------------------------------------
// Notifications
// ---------------------------------------------------------------------------------------------

/// When an event was seen.
pub open spec fn observed_at(event: JsonView) -> Option<int> {
    let updated = json::unsigned_at(event.get("updatedAt"@));
    let observed = json::unsigned_at(event.get("observedAt"@));
    let thread = json::unsigned_at(json::at(event.get("thread"@), "updatedAt"@));
    json::first_of(updated, json::first_of(observed, thread))
}

/// When an event was seen.
pub fn event_observed_at(event: &Json) -> (out: Option<u64>)
    ensures
        json::opt_unsigned(out) == observed_at(event@),
{
    match event.u64_at("updatedAt") {
        Some(n) => Some(n),
        None => match event.u64_at("observedAt") {
            Some(n) => Some(n),
            None => match event.get2("thread", "updatedAt") {
                Some(v) => v.as_u64(),
                None => None,
            },
        },
    }
}

/// Remote mode is on.
pub open spec fn away_enabled(away_status: JsonView) -> bool {
    json::truth_at(away_status.get("away"@)) == Some(true)
}

/// Whether remote mode is on.
pub fn away_notifications_enabled_from_status(away_status: &Json) -> (yes: bool)
    ensures
        yes == away_enabled(away_status@),
{
    match away_status.bool_at("away") {
        Some(b) => b,
        None => false,
    }
}

/// When remote mode was turned on, and when an event was seen.
#[derive(Debug, PartialEq, Eq)]
pub struct AwayWindow {
    pub away_started_at: Option<u64>,
    pub observed_at: Option<u64>,
}

/// What decides whether an event becomes a notification; `None` means that it does not, since the
/// user is not away.
pub fn daemon_notification_window(away_status: &Json, event: &Json) -> (out: Option<AwayWindow>)
    ensures
        out is Some <==> away_enabled(away_status@),
        out matches Some(window) ==> {
            &&& json::opt_unsigned(window.away_started_at) == json::unsigned_at(
                away_status@.get("awayStartedAt"@),
            )
            &&& json::opt_unsigned(window.observed_at) == observed_at(event@)
        },
{
    if !away_notifications_enabled_from_status(away_status) {
        return None;
    }
    Some(
        AwayWindow {
            away_started_at: away_status.u64_at("awayStartedAt"),
            observed_at: event_observed_at(event),
        },
    )
}

// ---------------------------------------------------------------------------------------------
// The backend
// ---------------------------------------------------------------------------------------------

/// What to do about the shared backend.
#[derive(Debug, Clone, Copy, PartialEq, Eq, Structural)]
pub enum BackendPlan {
    /// Remote mode is off: nothing.
    Idle,
    /// There is none to reconcile.
    NotConfigured,
    Reconcile,
}

/// What to do about the shared backend. `away` is whether remote mode is on, `None` where that
/// cannot be found out.
pub fn backend_plan(away: Option<bool>, configured: bool) -> (out: BackendPlan)
    ensures
        out == if away != Some(true) {
            BackendPlan::Idle
        } else if !configured {
            BackendPlan::NotConfigured
        } else {
            BackendPlan::Reconcile
        },
{
    match away {
        Some(true) => if configured {
            BackendPlan::Reconcile
        } else {
            BackendPlan::NotConfigured
        },
        _ => BackendPlan::Idle,
    }
}

/// The report of a backend that is required and not there.
pub open spec fn unhealthy_backend(error: Seq<char>) -> JsonView {
    json::members().flag("ok"@, false).flag("required"@, true).text("state"@, "unhealthy"@).text(
        "error"@,
        error,
    ).object()
}

/// The report of a backend that could not be reconciled.
pub fn backend_error_report(error: &str) -> (out: Json)
    ensures
        out@ == unhealthy_backend(error@),
{
    Fields::new().flag("ok", false).flag("required", true).text("state", "unhealthy").text(
        "error",
        error,
    ).object()
}

/// The report of a backend that is not configured.
pub fn backend_not_configured_report() -> (out: Json)
    ensures
        out@ == unhealthy_backend("shared Codex live backend is not configured"@),
{
    backend_error_report("shared Codex live backend is not configured")
}

/// The report of a backend that was reconciled.
pub fn backend_report(healthy: bool, action: Json, status: Json) -> (out: Json)
    ensures
        out@ == json::members().flag("ok"@, healthy).with("action"@, action@).with(
            "status"@,
            status@,
        ).object(),
{
    Fields::new().flag("ok", healthy).with("action", action).with("status", status).object()
}

/// What to do about the connection to the app server.
#[derive(Debug, Clone, Copy, PartialEq, Eq, Structural)]
pub enum ClientStep {
    /// There is no backend to connect to: fail, and leave the connection as it is.
    Refuse,
    Keep,
    /// Drop the connection, if there is one, and connect anew.
    Connect,
}

/// Keeps a connection to the configured backend and replaces any other. `backend_usable` is whether
/// the configuration names a backend, and `matches_backend` whether the connection that there is
/// belongs to it.
pub fn ensure_daemon_app_server_client(
    backend_usable: bool,
    matches_backend: Option<bool>,
) -> (out: ClientStep)
    ensures
        out == if !backend_usable {
            ClientStep::Refuse
        } else if matches_backend == Some(true) {
            ClientStep::Keep
        } else {
            ClientStep::Connect
        },
{
    if !backend_usable {
        return ClientStep::Refuse;
    }
    match matches_backend {
        Some(true) => ClientStep::Keep,
        _ => ClientStep::Connect,
    }
}

/// Settles which connection is held after a step. `connected` is the new connection, where one was
/// made. Gives whether there is a connection to use: none is used where the step was refused, and
/// none is held after a failed attempt to connect.
pub fn settle_daemon_app_server_client<C>(
    held: &mut Option<C>,
    step: ClientStep,
    connected: Option<C>,
) -> (usable: bool)
    ensures
        *final(held) == match step {
            ClientStep::Refuse => *old(held),
            ClientStep::Keep => *old(held),
            ClientStep::Connect => connected,
        },
        usable == (step != ClientStep::Refuse && *final(held) is Some),
{
    match step {
        ClientStep::Refuse => false,
        ClientStep::Keep => held.is_some(),
        ClientStep::Connect => {
            let made = connected.is_some();
            *held = connected;
            made
        },
    }
}

// ---------------------------------------------------------------------------------------------
// Events of the app server
// ---------------------------------------------------------------------------------------------

/// The first thread with the identifier `id`.
pub open spec fn thread_with_id(threads: Seq<JsonView>, id: Seq<char>) -> Option<JsonView>
    decreases threads.len(),
{
    if threads.len() == 0 {
        None
    } else if json::text_at(threads[0].get("threadId"@)) == Some(id) {
        Some(threads[0])
    } else {
        thread_with_id(threads.skip(1), id)
    }
}

/// An event with the thread that it is about, where the synchronised state has that thread.
pub open spec fn enriched(event: JsonView, sync_result: JsonView) -> JsonView {
    match json::text_at(event.get("threadId"@)) {
        Some(id) => match json::items_at(sync_result.get("threads"@)) {
            Some(threads) => match thread_with_id(threads, id) {
                Some(thread) => json::with_field(event, "thread"@, thread),
                None => event,
            },
            None => event,
        },
        None => event,
    }
}

fn find_thread<'a>(threads: &'a Vec<Json>, id: &str) -> (out: Option<&'a Json>)
    ensures
        json::opt_view(out) == thread_with_id(json::views(threads@), id@),
{
    let ghost all = json::views(threads@);
    let mut i: usize = 0;
    assert(all.skip(0) =~= all);
    while i < threads.len()
        invariant
            all == json::views(threads@),
            i <= threads@.len(),
            thread_with_id(all.skip(i as int), id@) == thread_with_id(all, id@),
        decreases threads@.len() - i,
    {
        assert(all.skip(i as int)[0] == all[i as int]);
        assert(all.skip(i as int).skip(1) =~= all.skip(i + 1));
        if is_text(threads[i].str_at("threadId"), id) {
            return Some(&threads[i]);
        }
        i = i + 1;
    }
    None
}

/// Adds to an event the thread that it is about.
pub fn enrich_approval_event_with_thread(event: Json, sync_result: &Json) -> (out: Json)
    ensures
        out@ == enriched(event@, sync_result@),
{
    let thread = match event.str_at("threadId") {
        Some(id) => match sync_result.get("threads") {
            Some(threads) => match threads.as_array() {
                Some(threads) => match find_thread(threads, id) {
                    Some(thread) => Some(thread.copy()),
                    None => None,
                },
                None => None,
            },
            None => None,
        },
        None => None,
    };
    match thread {
        Some(thread) => event.insert("thread", thread),
        None => event,
    }
}

/// A thread and what it waits for.
#[derive(Debug, PartialEq, Eq)]
pub struct ThreadFlags {
    pub thread_id: String,
    pub status_flags: Vec<String>,
}

/// What a thread's flags hold.
pub open spec fn flag_views(list: Seq<ThreadFlags>) -> Seq<(Seq<char>, Seq<Seq<char>>)> {
    Seq::new(list.len(), |i: int| (list[i].thread_id@, text::texts(list[i].status_flags@)))
}

/// The values of a list that are texts.
pub open spec fn texts_among(values: Seq<JsonView>) -> Seq<Seq<char>>
    decreases values.len(),
{
    if values.len() == 0 {
        Seq::empty()
    } else {
        match values.last().text() {
            Some(s) => texts_among(values.drop_last()).push(s),
            None => texts_among(values.drop_last()),
        }
    }
}

/// The flags of a thread.
pub open spec fn status_flags_of(thread: JsonView) -> Seq<Seq<char>> {
    match json::items_at(thread.get("statusFlags"@)) {
        Some(flags) => texts_among(flags),
        None => Seq::empty(),
    }
}

fn read_status_flags(thread: &Json) -> (out: Vec<String>)
    ensures
        text::texts(out@) == status_flags_of(thread@),
{
    let mut out = no_texts();
    let flags = match thread.get("statusFlags") {
        Some(v) => match v.as_array() {
            Some(flags) => flags,
            None => {
                return out;
            },
        },
        None => {
            return out;
        },
    };
    let ghost all = json::views(flags@);
    let mut i: usize = 0;
    assert(all.take(0) =~= Seq::<JsonView>::empty());
    while i < flags.len()
        invariant
            all == json::views(flags@),
            i <= flags@.len(),
            text::texts(out@) == texts_among(all.take(i as int)),
        decreases flags@.len() - i,
    {
        assert(all.take(i + 1).drop_last() =~= all.take(i as int));
        assert(all.take(i + 1).last() == all[i as int]);
        if let Some(flag) = flags[i].as_str() {
            push_text(&mut out, flag.to_owned());
        }
        i = i + 1;
    }
    assert(all.take(i as int) =~= all);
    out
}

/// The threads of a list that have an identifier, each with its flags.
pub open spec fn flags_among(threads: Seq<JsonView>) -> Seq<(Seq<char>, Seq<Seq<char>>)>
    decreases threads.len(),
{
    if threads.len() == 0 {
        Seq::empty()
    } else {
        let before = flags_among(threads.drop_last());
        match json::text_at(threads.last().get("threadId"@)) {
            Some(id) => before.push((id, status_flags_of(threads.last()))),
            None => before,
        }
    }
}

/// The threads of the synchronised state, each with its flags.
pub open spec fn synced_flags(sync_result: JsonView) -> Seq<(Seq<char>, Seq<Seq<char>>)> {
    match json::items_at(sync_result.get("threads"@)) {
        Some(threads) => flags_among(threads),
        None => Seq::empty(),
    }
}

/// The threads of the synchronised state, each with its flags: questions of those that no longer
/// wait for input are stale.
pub fn synced_thread_flags(sync_result: &Json) -> (out: Vec<ThreadFlags>)
    ensures
        flag_views(out@) == synced_flags(sync_result@),
{
    let mut out: Vec<ThreadFlags> = Vec::new();
    assert(flag_views(out@) =~= Seq::<(Seq<char>, Seq<Seq<char>>)>::empty());
    let threads = match sync_result.get("threads") {
        Some(v) => match v.as_array() {
            Some(threads) => threads,
            None => {
                return out;
            },
        },
        None => {
            return out;
        },
    };
    let ghost all = json::views(threads@);
    let mut i: usize = 0;
    assert(all.take(0) =~= Seq::<JsonView>::empty());
    while i < threads.len()
        invariant
            all == json::views(threads@),
            i <= threads@.len(),
            flag_views(out@) == flags_among(all.take(i as int)),
        decreases threads@.len() - i,
    {
        assert(all.take(i + 1).drop_last() =~= all.take(i as int));
        assert(all.take(i + 1).last() == all[i as int]);
        let ghost before = flag_views(out@);
        if let Some(id) = threads[i].str_at("threadId") {
            let entry = ThreadFlags {
                thread_id: id.to_owned(),
                status_flags: read_status_flags(&threads[i]),
            };
            out.push(entry);
            assert(flag_views(out@) =~= before.push(
                (entry.thread_id@, text::texts(entry.status_flags@)),
            ));
        }
        i = i + 1;
    }
    assert(all.take(i as int) =~= all);
    out
}

/// The identifiers of threads whose questions are stale: those that do not wait for input.
pub open spec fn stale_ids(flags: Seq<ThreadFlags>, waiting: Seq<bool>) -> Seq<Seq<char>>
    decreases flags.len(),
{
    if flags.len() == 0 {
        Seq::empty()
    } else {
        let k = flags.len() - 1;
        let before = stale_ids(flags.drop_last(), waiting);
        if waiting[k] {
            before
        } else {
            before.push(flags[k].thread_id@)
        }
    }
}

/// The threads whose persisted questions expire. `waiting` is, for each thread, whether its flags
/// say that it waits for input. Otherwise a question that another client answered while the daemon
/// was down would suppress that thread's alerts forever.
pub fn stale_question_threads(flags: &Vec<ThreadFlags>, waiting: &Vec<bool>) -> (out: Vec<String>)
    requires
        flags@.len() == waiting@.len(),
    ensures
        text::texts(out@) == stale_ids(flags@, waiting@),
{
    let mut out = no_texts();
    let mut i: usize = 0;
    assert(flags@.take(0) =~= Seq::<ThreadFlags>::empty());
    while i < flags.len()
        invariant
            flags@.len() == waiting@.len(),
            i <= flags@.len(),
            text::texts(out@) == stale_ids(flags@.take(i as int), waiting@),
        decreases flags@.len() - i,
    {
        assert(flags@.take(i + 1).drop_last() =~= flags@.take(i as int));
        if !waiting[i] {
            push_text(&mut out, flags[i].thread_id.clone());
        }
        i = i + 1;
    }
    assert(flags@.take(i as int) =~= flags@);
    out
}

/// A request that Codex says was resolved.
#[derive(Debug, PartialEq, Eq)]
pub struct ResolvedRequest {
    pub thread_id: String,
    pub request_id: Json,
}

/// The request that a notification says was resolved: its thread and its identifier.
pub open spec fn resolved_by(notification: JsonView) -> Option<(Seq<char>, JsonView)> {
    let thread_id = json::text_at(json::at(notification.get("params"@), "threadId"@));
    let request_id = json::at(notification.get("params"@), "requestId"@);
    if json::text_at(notification.get("method"@)) == Some("serverRequest/resolved"@) && thread_id is Some
        && request_id is Some {
        Some((thread_id->0, request_id->0))
    } else {
        None
    }
}

/// The request that a notification says was resolved.
pub fn resolved_request(notification: &Json) -> (out: Option<ResolvedRequest>)
    ensures
        match out {
            Some(resolved) => resolved_by(notification@) == Some(
                (resolved.thread_id@, resolved.request_id@),
            ),
            None => resolved_by(notification@) is None,
        },
{
    if !is_text(notification.str_at("method"), "serverRequest/resolved") {
        return None;
    }
    match notification.str_at2("params", "threadId") {
        Some(thread_id) => match notification.get2("params", "requestId") {
            Some(request_id) => Some(
                ResolvedRequest {
                    thread_id: thread_id.to_owned(),
                    request_id: request_id.copy(),
                },
            ),
            None => None,
        },
        None => None,
    }
}

/// A notification says that the item of a request was started.
pub open spec fn starts_item(
    notification: JsonView,
    thread_id: Seq<char>,
    turn_id: Seq<char>,
    item_id: Seq<char>,
) -> bool {
    let params = notification.get("params"@);
    &&& json::text_at(notification.get("method"@)) == Some("item/started"@)
    &&& json::text_at(json::at(params, "threadId"@)) == Some(thread_id)
    &&& json::text_at(json::at(params, "turnId"@)) == Some(turn_id)
    &&& json::text_at(json::at(json::at(params, "item"@), "id"@)) == Some(item_id)
}

/// The item that the first such notification names.
pub open spec fn item_started(
    notifications: Seq<JsonView>,
    thread_id: Seq<char>,
    turn_id: Seq<char>,
    item_id: Seq<char>,
) -> Option<JsonView>
    decreases notifications.len(),
{
    if notifications.len() == 0 {
        None
    } else if starts_item(notifications[0], thread_id, turn_id, item_id) {
        json::at(notifications[0].get("params"@), "item"@)
    } else {
        item_started(notifications.skip(1), thread_id, turn_id, item_id)
    }
}

/// The item that a request asks an approval for.
pub fn started_item<'a>(
    notifications: &'a Vec<Json>,
    thread_id: &str,
    turn_id: &str,
    item_id: &str,
) -> (out: Option<&'a Json>)
    ensures
        json::opt_view(out) == item_started(
            json::views(notifications@),
            thread_id@,
            turn_id@,
            item_id@,
        ),
{
    let ghost all = json::views(notifications@);
    let mut i: usize = 0;
    assert(all.skip(0) =~= all);
    while i < notifications.len()
        invariant
            all == json::views(notifications@),
            i <= notifications@.len(),
            item_started(all.skip(i as int), thread_id@, turn_id@, item_id@) == item_started(
                all,
                thread_id@,
                turn_id@,
                item_id@,
            ),
        decreases notifications@.len() - i,
    {
        let notification = &notifications[i];
        assert(all.skip(i as int)[0] == all[i as int]);
        assert(all.skip(i as int).skip(1) =~= all.skip(i + 1));
        if is_text(notification.str_at("method"), "item/started") && is_text(
            notification.str_at2("params", "threadId"),
            thread_id,
        ) && is_text(notification.str_at2("params", "turnId"), turn_id) && is_text(
            notification.str_at3("params", "item", "id"),
            item_id,
        ) {
            return notification.get2("params", "item");
        }
        i = i + 1;
    }
    None
}

/// What decides whether an event of the watch is kept.
#[derive(Debug, PartialEq, Eq)]
pub enum WatchRule {
    Keep,
    /// Dropped where a server request of the thread came in: it gets its own message.
    UnlessNative { thread_id: String },
    /// Dropped where the thread has a pending question, which gets its own answerable message: a
    /// generic nudge to reply would start a separate turn.
    UnlessQuestion { thread_id: String },
}

/// The rule for an event of the watch.
pub open spec fn watch_rule_of(event: JsonView) -> (Option<Seq<char>>, Option<Seq<char>>) {
    let thread_id = json::text_at(event.get("threadId"@));
    let kind = json::text_at(event.get("promptKind"@));
    let waiting = json::text_at(event.get("type"@)) == Some("thread_waiting"@);
    if waiting && kind == Some("approval"@) {
        (thread_id, None)
    } else if waiting && kind == Some("reply"@) {
        (None, thread_id)
    } else {
        (None, None)
    }
}

/// The rule for an event of the watch.
pub fn watch_rule(event: &Json) -> (out: WatchRule)
    ensures
        match out {
            WatchRule::Keep => watch_rule_of(event@) == (
                None::<Seq<char>>,
                None::<Seq<char>>,
            ),
            WatchRule::UnlessNative { thread_id } => watch_rule_of(event@) == (
                Some(thread_id@),
                None::<Seq<char>>,
            ),
            WatchRule::UnlessQuestion { thread_id } => watch_rule_of(event@) == (
                None::<Seq<char>>,
                Some(thread_id@),
            ),
        },
{
    if !is_text(event.str_at("type"), "thread_waiting") {
        return WatchRule::Keep;
    }
    let thread_id = match event.str_at("threadId") {
        Some(id) => id,
        None => {
            return WatchRule::Keep;
        },
    };
    let kind = event.str_at("promptKind");
    if is_text(kind, "approval") {
        return WatchRule::UnlessNative { thread_id: thread_id.to_owned() };
    }
    if is_text(kind, "reply") {
        return WatchRule::UnlessQuestion { thread_id: thread_id.to_owned() };
    }
    WatchRule::Keep
}

/// An event of the watch is suppressed. `native` are the threads of all server requests that came
/// in, be it for an approval or with questions, and `asked` those with a pending question.
pub open spec fn suppressed(
    event: JsonView,
    native: Seq<Seq<char>>,
    asked: Seq<Seq<char>>,
) -> bool {
    let rule = watch_rule_of(event);
    ||| rule.0 is Some && native.contains(rule.0->0)
    ||| rule.1 is Some && asked.contains(rule.1->0)
}

fn holds_text(list: &Vec<String>, item: &str) -> (yes: bool)
    ensures
        yes == text::texts(list@).contains(item@),
{
    let mut i: usize = 0;
    while i < list.len()
        invariant
            i <= list@.len(),
            forall|k: int| 0 <= k < i ==> text::texts(list@)[k] != item@,
        decreases list@.len() - i,
    {
        if same_text(list[i].as_str(), item) {
            assert(text::texts(list@)[i as int] == item@);
            return true;
        }
        i = i + 1;
    }
    false
}

/// The events of the watch that are not suppressed, in order.
pub open spec fn kept_events(
    events: Seq<JsonView>,
    native: Seq<Seq<char>>,
    asked: Seq<Seq<char>>,
) -> Seq<JsonView>
    decreases events.len(),
{
    if events.len() == 0 {
        Seq::empty()
    } else {
        let before = kept_events(events.drop_last(), native, asked);
        if suppressed(events.last(), native, asked) {
            before
        } else {
            before.push(events.last())
        }
    }
}

/// What is made of a server request that came in.
#[derive(Debug, Clone, Copy, PartialEq, Eq, Structural)]
pub enum RequestEvents {
    /// Nothing: it was known before, or is no longer pending.
    Nothing,
    /// An event for each of its questions.
    Questions,
    /// One event that asks for an approval.
    Approval,
}

/// What is made of a server request. `is_new` is whether it was not known before, and
/// `pending_question` whether it has questions, where it is still pending.
pub fn request_events(is_new: bool, pending_question: Option<bool>) -> (out: RequestEvents)
    ensures
        out == match pending_question {
            Some(is_question) => if !is_new {
                RequestEvents::Nothing
            } else if is_question {
                RequestEvents::Questions
            } else {
                RequestEvents::Approval
            },
            None => RequestEvents::Nothing,
        },
{
    match pending_question {
        Some(is_question) => if !is_new {
            RequestEvents::Nothing
        } else if is_question {
            RequestEvents::Questions
        } else {
            RequestEvents::Approval
        },
        None => RequestEvents::Nothing,
    }
}

/// A server request that came in and could be read.
#[derive(Debug, PartialEq, Eq)]
pub struct DrainedRequest {
    pub thread_id: String,
    /// It was not known before.
    pub is_new: bool,
    /// It is still pending.
    pub pending: bool,
    /// The events that are made of it, those that are asked for.
    pub events: Vec<Json>,
}

/// The threads of the server requests that came in: all that could be read, known before or not.
pub open spec fn drained_threads(drained: Seq<Option<DrainedRequest>>) -> Seq<Seq<char>>
    decreases drained.len(),
{
    if drained.len() == 0 {
        Seq::empty()
    } else {
        let before = drained_threads(drained.drop_last());
        match drained.last() {
            Some(request) => before.push(request.thread_id@),
            None => before,
        }
    }
}

/// The events of the server requests that came in: those of requests that are new and still
/// pending, in order. One that could not be read has none.
pub open spec fn new_events(drained: Seq<Option<DrainedRequest>>) -> Seq<JsonView>
    decreases drained.len(),
{
    if drained.len() == 0 {
        Seq::empty()
    } else {
        let before = new_events(drained.drop_last());
        match drained.last() {
            Some(request) => if request.is_new && request.pending {
                before + json::views(request.events@)
            } else {
                before
            },
            None => before,
        }
    }
}

fn list_drained_threads(drained: &Vec<Option<DrainedRequest>>) -> (out: Vec<String>)
    ensures
        text::texts(out@) == drained_threads(drained@),
{
    let mut out = no_texts();
    let mut i: usize = 0;
    assert(drained@.take(0) =~= Seq::<Option<DrainedRequest>>::empty());
    while i < drained.len()
        invariant
            i <= drained@.len(),
            text::texts(out@) == drained_threads(drained@.take(i as int)),
        decreases drained@.len() - i,
    {
        assert(drained@.take(i + 1).drop_last() =~= drained@.take(i as int));
        assert(drained@.take(i + 1).last() == drained@[i as int]);
        if let Some(request) = &drained[i] {
            push_text(&mut out, request.thread_id.clone());
        }
        i = i + 1;
    }
    assert(drained@.take(i as int) =~= drained@);
    out
}

fn push_copies(list: &mut Vec<Json>, more: &Vec<Json>)
    ensures
        json::views(final(list)@) == json::views(old(list)@) + json::views(more@),
{
    let ghost before = json::views(list@);
    let ghost all = json::views(more@);
    let mut i: usize = 0;
    assert(before + all.take(0) =~= before);
    while i < more.len()
        invariant
            all == json::views(more@),
            i <= more@.len(),
            json::views(list@) == before + all.take(i as int),
        decreases more@.len() - i,
    {
        push_json(list, more[i].copy());
        i = i + 1;
        assert(json::views(list@) =~= before + all.take(i as int));
    }
    assert(all.take(i as int) =~= all);
}

/// The events of a cycle: those of the watch that are not suppressed, then those of the server
/// requests that came in. A message that could not be read as a request is `None` in `drained`: it
/// is skipped, since failing would drop the connection and replay the same message forever. A nudge
/// to approve something is suppressed by any request of its thread that came in, known before or
/// not; `asked_threads` are those of the watch that have a pending question.
pub fn collect_daemon_app_server_events(
    watched: &Vec<Json>,
    drained: &Vec<Option<DrainedRequest>>,
    asked_threads: &Vec<String>,
) -> (out: Vec<Json>)
    ensures
        json::views(out@) == kept_events(
            json::views(watched@),
            drained_threads(drained@),
            text::texts(asked_threads@),
        ) + new_events(drained@),
{
    let native_threads = list_drained_threads(drained);
    let ghost all = json::views(watched@);
    let ghost native = drained_threads(drained@);
    let ghost asked = text::texts(asked_threads@);
    let mut out: Vec<Json> = Vec::new();
    let mut i: usize = 0;
    assert(all.take(0) =~= Seq::<JsonView>::empty());
    assert(json::views(out@) =~= Seq::<JsonView>::empty());
    while i < watched.len()
        invariant
            all == json::views(watched@),
            native == text::texts(native_threads@),
            asked == text::texts(asked_threads@),
            i <= watched@.len(),
            json::views(out@) == kept_events(all.take(i as int), native, asked),
        decreases watched@.len() - i,
    {
        assert(all.take(i + 1).drop_last() =~= all.take(i as int));
        assert(all.take(i + 1).last() == all[i as int]);
        let drop = match watch_rule(&watched[i]) {
            WatchRule::Keep => false,
            WatchRule::UnlessNative { thread_id } => holds_text(
                &native_threads,
                thread_id.as_str(),
            ),
            WatchRule::UnlessQuestion { thread_id } => holds_text(
                asked_threads,
                thread_id.as_str(),
            ),
        };
        if !drop {
            push_json(&mut out, watched[i].copy());
        }
        i = i + 1;
    }
    assert(all.take(i as int) =~= all);
    let ghost kept = json::views(out@);
    let mut k: usize = 0;
    assert(drained@.take(0) =~= Seq::<Option<DrainedRequest>>::empty());
    assert(kept + new_events(drained@.take(0)) =~= kept);
    while k < drained.len()
        invariant
            k <= drained@.len(),
            json::views(out@) == kept + new_events(drained@.take(k as int)),
        decreases drained@.len() - k,
    {
        let ghost before = new_events(drained@.take(k as int));
        assert(drained@.take(k + 1).drop_last() =~= drained@.take(k as int));
        assert(drained@.take(k + 1).last() == drained@[k as int]);
        if let Some(request) = &drained[k] {
            if request.is_new && request.pending {
                push_copies(&mut out, &request.events);
                assert(kept + before + json::views(request.events@) =~= kept + (before
                    + json::views(request.events@)));
            }
        }
        k = k + 1;
    }
    assert(drained@.take(k as int) =~= drained@);
    out
}

/// A request that is known already, that is no longer pending or that could not be read adds no
/// event, and one that could be read silences the nudges of its thread all the same.
pub proof fn known_requests_only_silence(
    drained: Seq<Option<DrainedRequest>>,
    next: Option<DrainedRequest>,
)
    requires
        next matches Some(request) ==> !request.is_new || !request.pending,
    ensures
        new_events(drained.push(next)) == new_events(drained),
        drained_threads(drained.push(next)) == match next {
            Some(request) => drained_threads(drained).push(request.thread_id@),
            None => drained_threads(drained),
        },
{
    assert(drained.push(next).drop_last() =~= drained);
}

/// The events of a cycle. `collected` are those that were collected or, where asking the app server
/// failed, the one event about that failure, if it is asked for. After a failure the connection is
/// given up, so that the next cycle makes a new one.
pub fn cycle_events<C>(
    collected: Result<Vec<Json>, Option<Json>>,
    client: &mut Option<C>,
) -> (out: Vec<Json>)
    ensures
        *final(client) == if collected is Ok {
            *old(client)
        } else {
            None
        },
        json::views(out@) == match collected {
            Ok(events) => json::views(events@),
            Err(Some(event)) => seq![event@],
            Err(None) => Seq::empty(),
        },
{
    match collected {
        Ok(events) => events,
        Err(failure) => {
            *client = None;
            let mut out: Vec<Json> = Vec::new();
            if let Some(event) = failure {
                out.push(event);
                assert(json::views(out@) =~= seq![event@]);
            } else {
                assert(json::views(out@) =~= Seq::<JsonView>::empty());
            }
            out
        },
    }
}

/// Only generic nudges are ever suppressed: an event that is no waiting thread's prompt for an
/// approval or a reply is kept, whatever is pending.
pub proof fn only_generic_prompts_are_suppressed(
    event: JsonView,
    native: Seq<Seq<char>>,
    asked: Seq<Seq<char>>,
)
    ensures
        suppressed(event, native, asked) ==> {
            &&& json::text_at(event.get("type"@)) == Some("thread_waiting"@)
            &&& json::text_at(event.get("threadId"@)) is Some
            &&& json::text_at(event.get("promptKind"@)) == Some("approval"@) || json::text_at(
                event.get("promptKind"@),
            ) == Some("reply"@)
        },
        native.len() == 0 && asked.len() == 0 ==> !suppressed(event, native, asked),
{
}

// ---------------------------------------------------------------------------------------------
// Delivering notifications
// ---------------------------------------------------------------------------------------------

/// What to do with a notification.
#[derive(Debug, Clone, Copy, PartialEq, Eq, Structural)]
pub enum OutboundStep {
    /// There is no chat to send it to.
    NoTransport,
    /// It was sent before.
    AlreadyDelivered,
    Deliver,
}

/// What to do with a notification.
pub fn outbound_step(configured: bool, delivered: bool) -> (out: OutboundStep)
    ensures
        out == if !configured {
            OutboundStep::NoTransport
        } else if delivered {
            OutboundStep::AlreadyDelivered
        } else {
            OutboundStep::Deliver
        },
{
    if !configured {
        OutboundStep::NoTransport
    } else if delivered {
        OutboundStep::AlreadyDelivered
    } else {
        OutboundStep::Deliver
    }
}

/// The report of a notification that was sent before.
pub fn already_delivered_report() -> (out: Json)
    ensures
        out@ == json::members().flag("ok"@, true).text("transport"@, "telegram"@).text(
            "skipped"@,
            "already_delivered"@,
        ).object(),
{
    Fields::new().flag("ok", true).text("transport", "telegram").text(
        "skipped",
        "already_delivered",
    ).object()
}

/// The report of a notification; `telegram` is that of the message, where there is a chat.
pub fn outbound_report(telegram: Option<&Json>) -> (out: Json)
    ensures
        out@ == json::members().with(
            "telegram"@,
            json::or_null(json::opt_view(telegram)),
        ).object(),
{
    Fields::new().with("telegram", Json::or_null(telegram)).object()
}

// ---------------------------------------------------------------------------------------------
// Cycles
// ---------------------------------------------------------------------------------------------

/// The longest time there is, in nanoseconds.
pub const DURATION_MAX_NANOS: u128 = 18_446_744_073_709_551_615_999_999_999;

/// The time that a cycle may take: three request timeouts of at least five seconds.
pub open spec fn cycle_budget(timeout: int) -> int {
    let counted: int = if timeout >= 5_000_000_000 {
        timeout
    } else {
        5_000_000_000
    };
    if 3 * counted <= DURATION_MAX_NANOS {
        3 * counted
    } else {
        DURATION_MAX_NANOS as int
    }
}

/// The time that a cycle may take, in nanoseconds.
pub fn daemon_cycle_budget(timeout: u128) -> (out: u128)
    requires
        timeout <= DURATION_MAX_NANOS,
    ensures
        out == cycle_budget(timeout as int),
{
    let counted: u128 = if timeout >= 5_000_000_000 {
        timeout
    } else {
        5_000_000_000
    };
    if 3 * counted <= DURATION_MAX_NANOS {
        3 * counted
    } else {
        DURATION_MAX_NANOS
    }
}

/// A cycle has time for at least one request, and more time where requests may take longer.
pub proof fn cycle_budgets_are_sane(shorter: int, longer: int)
    requires
        0 <= shorter <= longer <= DURATION_MAX_NANOS,
    ensures
        cycle_budget(shorter) >= 15_000_000_000,
        cycle_budget(shorter) >= shorter,
        cycle_budget(shorter) <= cycle_budget(longer) <= DURATION_MAX_NANOS,
{
}

/// The report of polling, or of an indicator, that failed.
pub fn telegram_error_report(error: &str) -> (out: Json)
    ensures
        out@ == json::members().flag("ok"@, false).text("transport"@, "telegram"@).text(
            "error"@,
            error@,
        ).object(),
{
    Fields::new().flag("ok", false).text("transport", "telegram").text("error", error).object()
}

/// The report of indicators for which the cycle had no time left.
pub fn typing_skipped_report() -> (out: Json)
    ensures
        out@ == json::members().flag("ok"@, true).text("transport"@, "telegram"@).text(
            "skipped"@,
            "cycle_deadline"@,
        ).object(),
{
    Fields::new().flag("ok", true).text("transport", "telegram").text(
        "skipped",
        "cycle_deadline",
    ).object()
}

/// The report of polling with that of the indicators.
pub fn updates_report(polled: Json, typing: Json) -> (out: Json)
    ensures
        out@ == json::with_field(polled@, "typing"@, typing@),
{
    polled.insert("typing", typing)
}

/// The report of a cycle.
pub fn daemon_cycle_report(
    observed: usize,
    enqueued: usize,
    backend: Json,
    delivery: Json,
    telegram_updates: Json,
    pending: u64,
) -> (out: Json)
    ensures
        out@ == json::members().flag("ok"@, true).text("action"@, "daemon_cycle"@).number(
            "observed"@,
            observed as int,
        ).number("enqueued"@, enqueued as int).with("backend"@, backend@).with(
            "delivery"@,
            delivery@,
        ).with("telegramUpdates"@, telegram_updates@).number("pending"@, pending as int).object(),
{
    Fields::new().flag("ok", true).text("action", "daemon_cycle").number(
        "observed",
        observed as i128,
    ).number("enqueued", enqueued as i128).with("backend", backend).with("delivery", delivery).with(
        "telegramUpdates",
        telegram_updates,
    ).number("pending", pending as i128).object()
}

// ---------------------------------------------------------------------------------------------
// The loop
// ---------------------------------------------------------------------------------------------

/// How often old logs are removed, in milliseconds.
pub const DAEMON_PRUNE_INTERVAL_MS: u64 = 600_000;

/// Old logs are to be removed: ten minutes have passed since they were removed last.
pub open spec fn prunes(last_prune_at: int, now: int) -> bool {
    now - last_prune_at >= 600_000
}

/// Whether old logs are to be removed. `last_prune_at` is when they were removed last, 0 before the
/// first time.
pub fn prune_due(last_prune_at: u64, now: u64) -> (yes: bool)
    ensures
        yes == prunes(last_prune_at as int, now as int),
{
    now >= last_prune_at && now - last_prune_at >= DAEMON_PRUNE_INTERVAL_MS
}

/// What is printed about the registration of the bot's commands.
pub fn commands_registered_report(error: Option<&str>) -> (out: Json)
    ensures
        out@ == match error {
            None => json::members().flag("registered"@, true).object(),
            Some(e) => json::members().flag("registered"@, false).text("error"@, e@).object(),
        },
{
    match error {
        None => Fields::new().flag("registered", true).object(),
        Some(e) => Fields::new().flag("registered", false).text("error", e).object(),
    }
}

/// What is printed when the daemon starts.
pub fn daemon_started_report(
    config_path: &str,
    events: &str,
    telegram_commands: Option<&Json>,
) -> (out: Json)
    ensures
        out@ == json::members().flag("ok"@, true).text("action"@, "daemon_started"@).text(
            "configPath"@,
            config_path@,
        ).text("events"@, events@).with(
            "telegramCommands"@,
            json::or_null(json::opt_view(telegram_commands)),
        ).object(),
{
    Fields::new().flag("ok", true).text("action", "daemon_started").text(
        "configPath",
        config_path,
    ).text("events", events).with("telegramCommands", Json::or_null(telegram_commands)).object()
}

/// What can go wrong in the loop without ending it.
#[derive(Debug, Clone, Copy, PartialEq, Eq, Structural)]
pub enum LoopFault {
    Config,
    Clock,
    Prune,
    Cycle,
}

/// The action in the report of a fault.
pub open spec fn fault_action(fault: LoopFault) -> Seq<char> {
    match fault {
        LoopFault::Config => "daemon_config_error"@,
        LoopFault::Clock => "daemon_clock_error"@,
        LoopFault::Prune => "daemon_logs_prune_error"@,
        LoopFault::Cycle => "daemon_cycle_error"@,
    }
}

/// What is printed about a fault.
pub open spec fn fault_view(fault: LoopFault, error: Seq<char>) -> JsonView {
    json::members().flag("ok"@, false).text("action"@, fault_action(fault)).text(
        "error"@,
        error,
    ).object()
}

/// What is printed about a fault.
pub fn fault_report(fault: LoopFault, error: &str) -> (out: Json)
    ensures
        out@ == fault_view(fault, error@),
{
    let action = match fault {
        LoopFault::Config => "daemon_config_error",
        LoopFault::Clock => "daemon_clock_error",
        LoopFault::Prune => "daemon_logs_prune_error",
        LoopFault::Cycle => "daemon_cycle_error",
    };
    Fields::new().flag("ok", false).text("action", action).text("error", error).object()
}

/// What is printed when old logs were removed.
pub open spec fn pruned_view(removed: JsonView) -> JsonView {
    json::members().flag("ok"@, true).text("action"@, "daemon_logs_pruned"@).with(
        "removed"@,
        removed,
    ).object()
}

/// What is printed when old logs were removed.
pub fn pruned_report(removed: Json) -> (out: Json)
    ensures
        out@ == pruned_view(removed@),
{
    Fields::new().flag("ok", true).text("action", "daemon_logs_pruned").with(
        "removed",
        removed,
    ).object()
}

/// What happened in the loop of the daemon.
#[derive(Debug, PartialEq, Eq)]
pub enum LoopEvent {
    /// The loop started, or the time between two rounds is over.
    Woken,
    ConfigLoaded,
    ConfigFailed { error: String },
    ClockRead { now: u64 },
    ClockFailed { error: String },
    Pruned { removed: Json },
    PruneFailed { error: String },
    CycleDone { report: Json },
    CycleFailed { error: String },
}

/// What the loop of the daemon does next.
#[derive(Debug, Clone, Copy, PartialEq, Eq, Structural)]
pub enum LoopAction {
    LoadConfig,
    ReadClock,
    /// Remove old logs.
    Prune,
    RunCycle,
    /// Let the interval pass.
    Pause,
    /// Let the interval pass, or less where Codex has something new.
    Wait,
}

/// What is printed, and what the loop does next.
#[derive(Debug, PartialEq, Eq)]
pub struct LoopStep {
    pub report: Option<Json>,
    pub action: LoopAction,
}

/// What the loop does after an event. The configuration and the clock are read in every round;
/// without either there is no cycle. Old logs are removed before the cycle, which runs whatever
/// came of that.
pub open spec fn loop_action(last_prune_at: int, event: LoopEvent) -> LoopAction {
    match event {
        LoopEvent::Woken => LoopAction::LoadConfig,
        LoopEvent::ConfigLoaded => LoopAction::ReadClock,
        LoopEvent::ConfigFailed { .. } => LoopAction::Pause,
        LoopEvent::ClockRead { now } => if prunes(last_prune_at, now as int) {
            LoopAction::Prune
        } else {
            LoopAction::RunCycle
        },
        LoopEvent::ClockFailed { .. } => LoopAction::Pause,
        LoopEvent::Pruned { .. } => LoopAction::RunCycle,
        LoopEvent::PruneFailed { .. } => LoopAction::RunCycle,
        LoopEvent::CycleDone { .. } => LoopAction::Wait,
        LoopEvent::CycleFailed { .. } => LoopAction::Wait,
    }
}

/// What the loop prints after an event.
pub open spec fn loop_report(event: LoopEvent) -> Option<JsonView> {
    match event {
        LoopEvent::Woken => None,
        LoopEvent::ConfigLoaded => None,
        LoopEvent::ConfigFailed { error } => Some(fault_view(LoopFault::Config, error@)),
        LoopEvent::ClockRead { .. } => None,
        LoopEvent::ClockFailed { error } => Some(fault_view(LoopFault::Clock, error@)),
        LoopEvent::Pruned { removed } => Some(pruned_view(removed@)),
        LoopEvent::PruneFailed { error } => Some(fault_view(LoopFault::Prune, error@)),
        LoopEvent::CycleDone { report } => Some(report@),
        LoopEvent::CycleFailed { error } => Some(fault_view(LoopFault::Cycle, error@)),
    }
}

/// Goes on with the loop of the daemon. `last_prune_at` is when old logs were removed last, or at
/// least when that was tried.
pub fn loop_step(last_prune_at: &mut u64, event: LoopEvent) -> (out: LoopStep)
    ensures
        out.action == loop_action(*old(last_prune_at) as int, event),
        match out.report {
            Some(report) => loop_report(event) == Some(report@),
            None => loop_report(event) is None,
        },
        *final(last_prune_at) == match event {
            LoopEvent::ClockRead { now } => if prunes(*old(last_prune_at) as int, now as int) {
                now
            } else {
                *old(last_prune_at)
            },
            _ => *old(last_prune_at),
        },
{
    match event {
        LoopEvent::Woken => LoopStep { report: None, action: LoopAction::LoadConfig },
        LoopEvent::ConfigLoaded => LoopStep { report: None, action: LoopAction::ReadClock },
        LoopEvent::ConfigFailed { error } => LoopStep {
            report: Some(fault_report(LoopFault::Config, error.as_str())),
            action: LoopAction::Pause,
        },
        LoopEvent::ClockRead { now } => if prune_due(*last_prune_at, now) {
            *last_prune_at = now;
            LoopStep { report: None, action: LoopAction::Prune }
        } else {
            LoopStep { report: None, action: LoopAction::RunCycle }
        },
        LoopEvent::ClockFailed { error } => LoopStep {
            report: Some(fault_report(LoopFault::Clock, error.as_str())),
            action: LoopAction::Pause,
        },
        LoopEvent::Pruned { removed } => LoopStep {
            report: Some(pruned_report(removed)),
            action: LoopAction::RunCycle,
        },
        LoopEvent::PruneFailed { error } => LoopStep {
            report: Some(fault_report(LoopFault::Prune, error.as_str())),
            action: LoopAction::RunCycle,
        },
        LoopEvent::CycleDone { report } => LoopStep {
            report: Some(report),
            action: LoopAction::Wait,
        },
        LoopEvent::CycleFailed { error } => LoopStep {
            report: Some(fault_report(LoopFault::Cycle, error.as_str())),
            action: LoopAction::Wait,
        },
    }
}

/// A cycle runs only in a round in which the configuration was loaded and the clock was read: it
/// follows the clock or the removal of old logs, that follows the clock, and the clock follows the
/// configuration.
pub proof fn cycles_follow_configuration_and_clock(last_prune_at: int, event: LoopEvent)
    ensures
        loop_action(last_prune_at, event) == LoopAction::RunCycle ==> event is ClockRead
            || event is Pruned || event is PruneFailed,
        loop_action(last_prune_at, event) == LoopAction::Prune ==> event is ClockRead,
        loop_action(last_prune_at, event) == LoopAction::ReadClock ==> event is ConfigLoaded,
{
}

} // verus!
