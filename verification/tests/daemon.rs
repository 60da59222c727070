use codex_telegram_bridge::daemon::already_delivered_report;
use codex_telegram_bridge::daemon::already_running_text;
use codex_telegram_bridge::daemon::backend_error_report;
use codex_telegram_bridge::daemon::backend_not_configured_report;
use codex_telegram_bridge::daemon::backend_plan;
use codex_telegram_bridge::daemon::backend_report;
use codex_telegram_bridge::daemon::collect_daemon_app_server_events;
use codex_telegram_bridge::daemon::commands_registered_report;
use codex_telegram_bridge::daemon::cycle_events;
use codex_telegram_bridge::daemon::daemon_cycle_budget;
use codex_telegram_bridge::daemon::daemon_cycle_report;
use codex_telegram_bridge::daemon::daemon_lock_free;
use codex_telegram_bridge::daemon::daemon_lock_path;
use codex_telegram_bridge::daemon::daemon_notification_window;
use codex_telegram_bridge::daemon::daemon_started_report;
use codex_telegram_bridge::daemon::enrich_approval_event_with_thread;
use codex_telegram_bridge::daemon::ensure_daemon_app_server_client;
use codex_telegram_bridge::daemon::event_observed_at;
use codex_telegram_bridge::daemon::fault_report;
use codex_telegram_bridge::daemon::lock_step;
use codex_telegram_bridge::daemon::loop_step;
use codex_telegram_bridge::daemon::outbound_report;
use codex_telegram_bridge::daemon::outbound_step;
use codex_telegram_bridge::daemon::prune_due;
use codex_telegram_bridge::daemon::pruned_report;
use codex_telegram_bridge::daemon::request_events;
use codex_telegram_bridge::daemon::resolved_request;
use codex_telegram_bridge::daemon::settle_daemon_app_server_client;
use codex_telegram_bridge::daemon::stale_question_threads;
use codex_telegram_bridge::daemon::started_item;
use codex_telegram_bridge::daemon::synced_thread_flags;
use codex_telegram_bridge::daemon::telegram_error_report;
use codex_telegram_bridge::daemon::typing_skipped_report;
use codex_telegram_bridge::daemon::updates_report;
use codex_telegram_bridge::daemon::watch_rule;
use codex_telegram_bridge::daemon::BackendPlan;
use codex_telegram_bridge::daemon::ClientStep;
use codex_telegram_bridge::daemon::DrainedRequest;
use codex_telegram_bridge::daemon::LockAttempt;
use codex_telegram_bridge::daemon::LockProbe;
use codex_telegram_bridge::daemon::LockStep;
use codex_telegram_bridge::daemon::LoopAction;
use codex_telegram_bridge::daemon::LoopEvent;
use codex_telegram_bridge::daemon::LoopFault;
use codex_telegram_bridge::daemon::OutboundStep;
use codex_telegram_bridge::daemon::RequestEvents;
use codex_telegram_bridge::daemon::WatchRule;
use codex_telegram_bridge::daemon::DURATION_MAX_NANOS;
use codex_telegram_bridge::json::Json;
use codex_telegram_bridge::json::Member;
use codex_telegram_bridge::path::file_name;
use codex_telegram_bridge::path::join_path;
use codex_telegram_bridge::path::with_file_name;
use codex_telegram_bridge::service::absent_service_runtime;
use codex_telegram_bridge::service::check_service_request;
use codex_telegram_bridge::service::command_status_summary;
use codex_telegram_bridge::service::daemon_runtime_path;
use codex_telegram_bridge::service::daemon_service_spec;
use codex_telegram_bridge::service::daemon_service_status;
use codex_telegram_bridge::service::install_report;
use codex_telegram_bridge::service::is_active_command;
use codex_telegram_bridge::service::linux_service_runtime;
use codex_telegram_bridge::service::logs_report;
use codex_telegram_bridge::service::macos_service_runtime;
use codex_telegram_bridge::service::push_home_path;
use codex_telegram_bridge::service::push_node_version_bins;
use codex_telegram_bridge::service::push_path_entry;
use codex_telegram_bridge::service::resolve_service_bridge_command;
use codex_telegram_bridge::service::service_names;
use codex_telegram_bridge::service::service_runtime_query;
use codex_telegram_bridge::service::shell_output;
use codex_telegram_bridge::service::start_report;
use codex_telegram_bridge::service::stop_report;
use codex_telegram_bridge::service::systemd_escape_env;
use codex_telegram_bridge::service::uninstall_report;
use codex_telegram_bridge::service::validate_daemon_label;
use codex_telegram_bridge::service::xml_escape;
use codex_telegram_bridge::service::DaemonServiceSpec;
use codex_telegram_bridge::service::HomePaths;
use codex_telegram_bridge::service::Platform;
use codex_telegram_bridge::service::QuotedNames;
use codex_telegram_bridge::service::RuntimeQuery;
use codex_telegram_bridge::service::ServiceError;
use serde_json::Value;

fn lib(value: &Value) -> Json {
    match value {
        Value::Null => Json::Null,
        Value::Bool(b) => Json::Bool(*b),
        Value::Number(n) => match (n.as_i64(), n.as_u64()) {
            (Some(i), _) => Json::Int(i as i128),
            (None, Some(u)) => Json::Int(u as i128),
            (None, None) => Json::Float(n.to_string()),
        },
        Value::String(s) => Json::Str(s.clone()),
        Value::Array(items) => Json::Array(items.iter().map(lib).collect()),
        Value::Object(map) => Json::Object(
            map.iter().map(|(key, value)| Member { key: key.clone(), value: lib(value) }).collect(),
        ),
    }
}

fn json(text: &str) -> Json {
    lib(&serde_json::from_str(text).expect("json"))
}

const DEFAULT_DAEMON_LABEL: &str = "com.hanifcarroll.codex-telegram-bridge";

#[test]
fn stale_questions_are_expired_once_their_thread_stops_waiting() {
    // The pending questions: their threads, and when they were seen last.
    let mut pending = vec![
        // Answered elsewhere while the daemon was down: the thread no longer waits.
        ("thr_stale", 1000),
        // Still waiting on this question.
        ("thr_live", 1000),
        // First seen this cycle; the snapshot may predate it.
        ("thr_fresh", 2000),
    ];
    let now = 2000;
    let sync_result = json(
        r#"{
            "threads": [
                { "threadId": "thr_stale", "statusType": "idle", "statusFlags": [] },
                {
                    "threadId": "thr_live",
                    "statusType": "active",
                    "statusFlags": ["waitingOnUserInput"]
                },
                { "threadId": "thr_fresh", "statusType": "active", "statusFlags": [] }
            ]
        }"#,
    );

    let flags = synced_thread_flags(&sync_result);
    let waiting = flags
        .iter()
        .map(|thread| thread.status_flags.contains(&"waitingOnUserInput".to_string()))
        .collect();
    for stale in stale_question_threads(&flags, &waiting) {
        pending.retain(|(thread_id, observed_at)| *thread_id != stale || *observed_at >= now);
    }

    let pending = |thread_id| pending.iter().any(|(id, _)| *id == thread_id);
    assert!(
        !pending("thr_stale"),
        "a stale question must stop suppressing alerts"
    );
    assert!(pending("thr_live"));
    assert!(pending("thr_fresh"));
}

fn service(platform: Platform, bridge_command: &str, runtime_path: &str) -> DaemonServiceSpec {
    let names = service_names(
        platform,
        DEFAULT_DAEMON_LABEL,
        Some("/home/user"),
        "/home/user/state",
    )
    .expect("names");
    let quoted = QuotedNames {
        label: format!("'{}'", names.label),
        unit_name: format!("'{}'", names.unit_name),
        service_path: format!("'{}'", names.service_path),
        bridge_command: format!("'{bridge_command}'"),
    };
    daemon_service_spec(platform, &names, &quoted, bridge_command, runtime_path)
}

#[test]
fn daemon_install_dry_run_resolves_relative_bridge_command_for_services() {
    for platform in [Platform::MacOs, Platform::Linux] {
        let command =
            resolve_service_bridge_command("bin/codex-telegram-bridge", Some("/work/tree"), None);
        let spec = service(platform, &command, "/usr/bin");
        let result = install_report(&spec, true, "bin/codex-telegram-bridge daemon run");
        let expected = "/work/tree/bin/codex-telegram-bridge";
        assert!(result
            .str_at("contents")
            .expect("service contents")
            .contains(expected));
    }
}

#[test]
fn daemon_service_exports_developer_tool_path() {
    let home = "/tmp/codex-bridge-daemon-path/home".to_string();
    let nvm_bin = format!("{home}/.config/nvm/versions/node/v24.11.1/bin");
    let runtime_path = daemon_runtime_path(
        &Some(HomePaths {
            home,
            config_nvm_bins: vec![nvm_bin.clone()],
            nvm_bins: Vec::new(),
        }),
        Some("/usr/bin:/bin:/usr/sbin:/sbin"),
    );

    let spec = service(Platform::MacOs, "bin/codex-telegram-bridge", &runtime_path);
    assert!(spec.contents.contains("<key>EnvironmentVariables</key>"));
    assert!(spec.contents.contains("<key>PATH</key>"));
    assert!(spec.contents.contains(&nvm_bin));
    assert!(spec.contents.contains("/opt/homebrew/bin"));

    let spec = service(Platform::Linux, "bin/codex-telegram-bridge", &runtime_path);
    assert!(spec.contents.contains("Environment=\"PATH="));
    assert!(spec.contents.contains(&nvm_bin));
    assert!(spec.contents.contains("/opt/homebrew/bin"));
}

#[test]
fn daemon_notification_policy_only_enqueues_events_while_away() {
    let event = json(r#"{ "type": "thread_waiting", "threadId": "thr_1", "updatedAt": 1500 }"#);

    let off = daemon_notification_window(&json(r#"{ "away": false }"#), &event);
    assert!(
        off.is_none(),
        "daemon should stay quiet while user is present"
    );

    let on = daemon_notification_window(
        &json(r#"{ "away": true, "awayStartedAt": 1000 }"#),
        &event,
    )
    .expect("daemon should notify while user is away");
    assert_eq!(on.away_started_at, Some(1000));
    assert_eq!(on.observed_at, Some(1500));
}

#[test]
fn daemon_cycle_reports_backend_error_when_shared_backend_is_unreachable() {
    let mut client = Some("connection");
    let failure = json(r#"{ "type": "thread_error" }"#);
    let events = cycle_events(Err(Some(failure)), &mut client);
    assert_eq!(client, None);
    let result = daemon_cycle_report(events.len(), 0, Json::Null, Json::Null, Json::Null, 0);

    assert_eq!(result.str_at("action"), Some("daemon_cycle"));
    assert_eq!(result.u64_at("observed"), Some(1));
}

#[test]
fn daemon_backend_reconciliation_is_idle_while_remote_mode_is_off() {
    assert_eq!(backend_plan(Some(false), true), BackendPlan::Idle);
    assert_eq!(backend_plan(Some(false), false), BackendPlan::Idle);
    assert_eq!(backend_plan(None, true), BackendPlan::Idle);
}

#[test]
fn daemon_backend_reconciliation_starts_backend_while_remote_mode_is_on() {
    assert_eq!(backend_plan(Some(true), true), BackendPlan::Reconcile);
    assert_eq!(backend_plan(Some(true), false), BackendPlan::NotConfigured);

    let backend = backend_report(
        true,
        Json::text("started"),
        json(r#"{ "required": true, "state": "ready" }"#),
    );

    assert_eq!(backend.bool_at("ok"), Some(true));
    let status = backend.get("status").expect("status");
    assert_eq!(status.bool_at("required"), Some(true));
    assert_eq!(status.str_at("state"), Some("ready"));
}

#[test]
fn macos_service_runtime_marks_running_services_as_loaded() {
    let runtime = macos_service_runtime(&json(
        r#"{
            "status": 0,
            "success": true,
            "stdout": "gui/501/example = {\n\tstate = running\n\tenvironment = {\n\t\tAPI_KEY => secret\n\t}\n}\n",
            "stderr": ""
        }"#,
    ));

    assert_eq!(runtime.bool_at("loaded"), Some(true));
    assert_eq!(runtime.bool_at("running"), Some(true));
    assert_eq!(runtime.str_at("state"), Some("running"));
    assert_eq!(
        runtime.get("raw"),
        Some(&json(r#"{"status": 0, "success": true}"#))
    );
    assert!(!format!("{runtime:?}").contains("secret"));
}

#[test]
fn macos_service_runtime_marks_missing_services_as_not_loaded() {
    let runtime = macos_service_runtime(&json(
        r#"{
            "status": 113,
            "success": false,
            "stdout": "",
            "stderr": "Bad request.\nCould not find service \"example\" in domain for user gui: 501"
        }"#,
    ));

    assert_eq!(runtime.bool_at("loaded"), Some(false));
    assert_eq!(runtime.bool_at("running"), Some(false));
    assert_eq!(runtime.get("state"), Some(&Json::Null));
    assert_eq!(
        runtime.get("raw"),
        Some(&json(r#"{"status": 113, "success": false}"#))
    );
    assert!(!format!("{runtime:?}").contains("Could not find service"));
}

// The lock

#[test]
fn the_lock_stands_next_to_the_state_database() {
    assert_eq!(
        daemon_lock_path("/home/user/state/state.db"),
        "/home/user/state/daemon.lock"
    );
    assert_eq!(
        already_running_text("/x/daemon.lock"),
        "another daemon instance is already running (lock: /x/daemon.lock)"
    );
}

#[test]
fn a_held_lock_is_waited_for() {
    assert_eq!(lock_step(LockAttempt::Taken, 0), LockStep::Locked);
    assert_eq!(lock_step(LockAttempt::Held, 1_999), LockStep::Wait);
    assert_eq!(lock_step(LockAttempt::Held, 2_000), LockStep::AlreadyRunning);
    assert_eq!(lock_step(LockAttempt::Failed, 0), LockStep::Failed);
    assert_eq!(daemon_lock_free(LockProbe::Missing), Some(true));
    assert_eq!(
        daemon_lock_free(LockProbe::Opened(LockAttempt::Taken)),
        Some(true)
    );
    assert_eq!(
        daemon_lock_free(LockProbe::Opened(LockAttempt::Held)),
        Some(false)
    );
    assert_eq!(
        daemon_lock_free(LockProbe::Opened(LockAttempt::Failed)),
        None
    );
    assert_eq!(daemon_lock_free(LockProbe::Failed), None);
}

#[test]
fn paths_are_joined_and_renamed() {
    assert_eq!(join_path("/a", "b/c"), "/a/b/c");
    assert_eq!(join_path("/a/", "b"), "/a/b");
    assert_eq!(join_path("/a", "/b"), "/b");
    assert_eq!(join_path("", "b"), "b");
    assert_eq!(file_name("/a/b").as_deref(), Some("b"));
    assert_eq!(file_name("/a/..").as_deref(), None);
    assert_eq!(with_file_name("/a/b", "c"), "/a/c");
}

// Notifications

#[test]
fn events_are_timed_by_the_first_time_they_name() {
    for (event, time) in [
        (r#"{ "updatedAt": 1, "observedAt": 2 }"#, Some(1)),
        (r#"{ "updatedAt": "x", "observedAt": 2 }"#, Some(2)),
        (r#"{ "thread": { "updatedAt": 3 } }"#, Some(3)),
        (r#"{ "updatedAt": -1 }"#, None),
        (r#"{}"#, None),
    ] {
        assert_eq!(event_observed_at(&json(event)), time);
    }
    assert!(daemon_notification_window(&json(r#"{ "away": 1 }"#), &json("{}")).is_none());
}

#[test]
fn events_get_the_thread_that_they_are_about() {
    let sync = json(
        r#"{ "threads": [{ "threadId": "a", "n": 1 }, { "threadId": "b", "n": 2 }, { "threadId": "b", "n": 3 }] }"#,
    );
    let event = enrich_approval_event_with_thread(json(r#"{ "threadId": "b" }"#), &sync);
    assert_eq!(event.get2("thread", "n"), Some(&Json::Int(2)));
    let unknown = enrich_approval_event_with_thread(json(r#"{ "threadId": "c" }"#), &sync);
    assert_eq!(unknown, json(r#"{ "threadId": "c" }"#));
    let plain = enrich_approval_event_with_thread(json(r#"{ "x": 1 }"#), &sync);
    assert_eq!(plain, json(r#"{ "x": 1 }"#));
}

fn native(thread_id: &str) -> Json {
    json(&format!(
        r#"{{ "type": "native", "threadId": "{thread_id}" }}"#
    ))
}

fn drained(thread_id: &str, is_new: bool, pending: bool) -> Option<DrainedRequest> {
    Some(DrainedRequest {
        thread_id: thread_id.to_string(),
        is_new,
        pending,
        events: vec![native(thread_id)],
    })
}

#[test]
fn malformed_requests_are_skipped() {
    let completed = || json(r#"{ "type": "thread_completed", "threadId": "a" }"#);
    assert_eq!(
        collect_daemon_app_server_events(
            &vec![completed()],
            &vec![None, drained("a", true, true), None, drained("b", true, true)],
            &Vec::new(),
        ),
        vec![completed(), native("a"), native("b")]
    );
    assert_eq!(
        collect_daemon_app_server_events(&vec![completed()], &vec![None], &Vec::new()),
        vec![completed()]
    );
}

#[test]
fn known_and_settled_requests_silence_nudges_without_events() {
    let approval =
        json(r#"{ "type": "thread_waiting", "threadId": "a", "promptKind": "approval" }"#);
    for request in [
        drained("a", false, true),
        drained("a", true, false),
        drained("a", false, false),
    ] {
        assert_eq!(
            collect_daemon_app_server_events(
                &vec![approval.copy()],
                &vec![request],
                &Vec::new()
            ),
            Vec::new()
        );
    }
    assert_eq!(
        collect_daemon_app_server_events(
            &vec![approval.copy()],
            &vec![drained("b", false, true)],
            &Vec::new()
        ),
        vec![approval]
    );
}

#[test]
fn new_pending_requests_become_events() {
    assert_eq!(request_events(true, Some(true)), RequestEvents::Questions);
    assert_eq!(request_events(true, Some(false)), RequestEvents::Approval);
    assert_eq!(request_events(true, None), RequestEvents::Nothing);
    assert_eq!(request_events(false, Some(true)), RequestEvents::Nothing);
    assert_eq!(request_events(false, Some(false)), RequestEvents::Nothing);
    assert_eq!(request_events(false, None), RequestEvents::Nothing);
}

#[test]
fn a_failed_cycle_drops_the_connection() {
    let event = || json(r#"{ "type": "thread_completed" }"#);
    let mut client = Some(7);
    assert_eq!(
        cycle_events(Ok(vec![event(), event()]), &mut client),
        vec![event(), event()]
    );
    assert_eq!(client, Some(7));
    assert_eq!(cycle_events(Err(None), &mut client), Vec::new());
    assert_eq!(client, None);
}

#[test]
fn generic_prompts_are_suppressed_by_requests_of_their_own() {
    let approval =
        || json(r#"{ "type": "thread_waiting", "threadId": "a", "promptKind": "approval" }"#);
    let reply = || json(r#"{ "type": "thread_waiting", "threadId": "b", "promptKind": "reply" }"#);
    let completed = || json(r#"{ "type": "thread_completed", "threadId": "a" }"#);
    let watched = vec![approval(), reply(), completed()];
    let threads = |names: &[&str]| names.iter().map(|name| name.to_string()).collect::<Vec<_>>();

    assert_eq!(
        collect_daemon_app_server_events(
            &watched,
            &vec![drained("a", true, true)],
            &threads(&["b"])
        ),
        vec![completed(), native("a")]
    );
    assert_eq!(
        collect_daemon_app_server_events(
            &watched,
            &vec![drained("b", true, true)],
            &threads(&["a"])
        ),
        vec![approval(), reply(), completed(), native("b")]
    );
    assert_eq!(
        watch_rule(&approval()),
        WatchRule::UnlessNative {
            thread_id: "a".to_string()
        }
    );
    assert_eq!(
        watch_rule(&reply()),
        WatchRule::UnlessQuestion {
            thread_id: "b".to_string()
        }
    );
    assert_eq!(watch_rule(&completed()), WatchRule::Keep);
    assert_eq!(
        watch_rule(&json(
            r#"{ "type": "thread_waiting", "promptKind": "reply" }"#
        )),
        WatchRule::Keep
    );
}

#[test]
fn resolved_requests_and_started_items_are_found() {
    let resolved = resolved_request(&json(
        r#"{ "method": "serverRequest/resolved", "params": { "threadId": "a", "requestId": 7 } }"#,
    ))
    .expect("resolved");
    assert_eq!(resolved.thread_id, "a");
    assert_eq!(resolved.request_id, Json::Int(7));
    for other in [
        r#"{ "method": "x", "params": { "threadId": "a", "requestId": 7 } }"#,
        r#"{ "method": "serverRequest/resolved", "params": { "requestId": 7 } }"#,
        r#"{ "method": "serverRequest/resolved", "params": { "threadId": "a" } }"#,
    ] {
        assert!(resolved_request(&json(other)).is_none());
    }
    let notifications = vec![
        json(r#"{ "method": "item/started", "params": { "threadId": "a", "turnId": "t", "item": { "id": "x" } } }"#),
        json(r#"{ "method": "item/started", "params": { "threadId": "a", "turnId": "t", "item": { "id": "y", "n": 1 } } }"#),
    ];
    assert_eq!(
        started_item(&notifications, "a", "t", "y"),
        Some(&json(r#"{ "id": "y", "n": 1 }"#))
    );
    assert!(started_item(&notifications, "a", "u", "y").is_none());
    assert!(started_item(&notifications, "b", "t", "y").is_none());
    assert!(started_item(&notifications, "a", "t", "z").is_none());
}

#[test]
fn only_a_matching_connection_is_kept() {
    assert_eq!(
        ensure_daemon_app_server_client(true, Some(true)),
        ClientStep::Keep
    );
    assert_eq!(
        ensure_daemon_app_server_client(true, Some(false)),
        ClientStep::Connect
    );
    assert_eq!(
        ensure_daemon_app_server_client(true, None),
        ClientStep::Connect
    );
    for matches in [None, Some(false), Some(true)] {
        assert_eq!(
            ensure_daemon_app_server_client(false, matches),
            ClientStep::Refuse
        );
    }
}

#[test]
fn the_connection_is_settled_after_each_step() {
    let mut held = Some("old");
    assert!(!settle_daemon_app_server_client(
        &mut held,
        ClientStep::Refuse,
        None
    ));
    assert_eq!(held, Some("old"));
    assert!(settle_daemon_app_server_client(
        &mut held,
        ClientStep::Keep,
        None
    ));
    assert_eq!(held, Some("old"));
    assert!(settle_daemon_app_server_client(
        &mut held,
        ClientStep::Connect,
        Some("new")
    ));
    assert_eq!(held, Some("new"));
    assert!(!settle_daemon_app_server_client(
        &mut held,
        ClientStep::Connect,
        None
    ));
    assert_eq!(held, None);
}

#[test]
fn notifications_are_sent_once() {
    assert_eq!(outbound_step(true, false), OutboundStep::Deliver);
    assert_eq!(outbound_step(true, true), OutboundStep::AlreadyDelivered);
    assert_eq!(outbound_step(false, false), OutboundStep::NoTransport);
    assert_eq!(outbound_step(false, true), OutboundStep::NoTransport);
    let already = already_delivered_report();
    assert_eq!(
        already,
        json_in_order(&[
            ("ok", Json::Bool(true)),
            ("transport", Json::text("telegram")),
            ("skipped", Json::text("already_delivered")),
        ])
    );
    assert_eq!(
        outbound_report(Some(&Json::Int(1))),
        json(r#"{ "telegram": 1 }"#)
    );
    assert_eq!(outbound_report(None), json(r#"{ "telegram": null }"#));
}

fn json_in_order(members: &[(&str, Json)]) -> Json {
    Json::Object(
        members
            .iter()
            .map(|(key, value)| Member {
                key: key.to_string(),
                value: value.copy(),
            })
            .collect(),
    )
}

// Cycles

#[test]
fn a_cycle_has_time_for_three_requests() {
    const SECOND: u128 = 1_000_000_000;
    assert_eq!(daemon_cycle_budget(0), 15 * SECOND);
    assert_eq!(daemon_cycle_budget(5 * SECOND), 15 * SECOND);
    assert_eq!(daemon_cycle_budget(10 * SECOND), 30 * SECOND);
    assert_eq!(daemon_cycle_budget(DURATION_MAX_NANOS), DURATION_MAX_NANOS);
    assert_eq!(DURATION_MAX_NANOS, std::time::Duration::MAX.as_nanos());
}

#[test]
fn logs_are_pruned_every_ten_minutes() {
    assert!(prune_due(0, 600_000));
    assert!(!prune_due(0, 599_999));
    assert!(!prune_due(700_000, 600_000));
    assert!(prune_due(1_000, 601_000));
}

#[test]
fn the_loop_reads_its_configuration_and_the_clock_before_each_cycle() {
    let mut last = 0;
    let mut action = |event: LoopEvent| loop_step(&mut last, event).action;
    assert_eq!(action(LoopEvent::Woken), LoopAction::LoadConfig);
    assert_eq!(action(LoopEvent::ConfigLoaded), LoopAction::ReadClock);
    // Old logs are removed first.
    assert_eq!(
        action(LoopEvent::ClockRead { now: 700_000 }),
        LoopAction::Prune
    );
    let removed = json(r#"{ "rows": 3 }"#);
    assert_eq!(action(LoopEvent::Pruned { removed }), LoopAction::RunCycle);
    let report = Json::Null;
    assert_eq!(action(LoopEvent::CycleDone { report }), LoopAction::Wait);
    assert_eq!(
        action(LoopEvent::ClockRead { now: 1_299_999 }),
        LoopAction::RunCycle
    );
    assert_eq!(
        action(LoopEvent::ClockRead { now: 1_300_000 }),
        LoopAction::Prune
    );
    assert_eq!(last, 1_300_000);
}

#[test]
fn the_loop_outlives_its_faults() {
    let error = || "down".to_string();
    for (event, fault, next) in [
        (
            LoopEvent::ConfigFailed { error: error() },
            LoopFault::Config,
            LoopAction::Pause,
        ),
        (
            LoopEvent::ClockFailed { error: error() },
            LoopFault::Clock,
            LoopAction::Pause,
        ),
        (
            LoopEvent::PruneFailed { error: error() },
            LoopFault::Prune,
            LoopAction::RunCycle,
        ),
        (
            LoopEvent::CycleFailed { error: error() },
            LoopFault::Cycle,
            LoopAction::Wait,
        ),
    ] {
        let mut last = 5;
        let step = loop_step(&mut last, event);
        assert_eq!(step.report, Some(fault_report(fault, "down")));
        assert_eq!(step.action, next);
        assert_eq!(last, 5);
    }
    let mut last = 5;
    let removed = || json(r#"{ "rows": 3 }"#);
    let step = loop_step(&mut last, LoopEvent::Pruned { removed: removed() });
    assert_eq!(step.report, Some(pruned_report(removed())));
    let report = json(r#"{ "ok": true }"#);
    let step = loop_step(
        &mut last,
        LoopEvent::CycleDone {
            report: report.copy(),
        },
    );
    assert_eq!(step.report, Some(report));
}

#[test]
fn the_daemon_reports_what_it_does() {
    assert_eq!(
        backend_error_report("gone"),
        json_in_order(&[
            ("ok", Json::Bool(false)),
            ("required", Json::Bool(true)),
            ("state", Json::text("unhealthy")),
            ("error", Json::text("gone")),
        ])
    );
    assert_eq!(
        backend_not_configured_report().str_at("error"),
        Some("shared Codex live backend is not configured")
    );
    assert_eq!(telegram_error_report("e").str_at("error"), Some("e"));
    assert_eq!(telegram_error_report("e").bool_at("ok"), Some(false));
    assert_eq!(
        typing_skipped_report().str_at("skipped"),
        Some("cycle_deadline")
    );
    assert_eq!(
        updates_report(json(r#"{ "seen": 1 }"#), Json::Int(2)).u64_at("typing"),
        Some(2)
    );
    assert_eq!(updates_report(Json::Null, Json::Int(2)), Json::Null);
    assert_eq!(
        commands_registered_report(None),
        json(r#"{ "registered": true }"#)
    );
    assert_eq!(
        commands_registered_report(Some("e")).str_at("error"),
        Some("e")
    );
    let started = daemon_started_report("/c.json", "thread_error", None);
    assert_eq!(started.str_at("action"), Some("daemon_started"));
    assert_eq!(started.str_at("configPath"), Some("/c.json"));
    assert_eq!(started.str_at("events"), Some("thread_error"));
    assert_eq!(started.get("telegramCommands"), Some(&Json::Null));
    for (fault, action) in [
        (LoopFault::Config, "daemon_config_error"),
        (LoopFault::Clock, "daemon_clock_error"),
        (LoopFault::Prune, "daemon_logs_prune_error"),
        (LoopFault::Cycle, "daemon_cycle_error"),
    ] {
        let report = fault_report(fault, "e");
        assert_eq!(report.str_at("action"), Some(action));
        assert_eq!(report.str_at("error"), Some("e"));
        assert_eq!(report.bool_at("ok"), Some(false));
    }
    assert_eq!(pruned_report(Json::Int(3)).u64_at("removed"), Some(3));
    let cycle = daemon_cycle_report(2, 1, Json::Null, Json::Int(3), Json::Int(4), 5);
    for (field, value) in [
        ("observed", 2),
        ("enqueued", 1),
        ("delivery", 3),
        ("telegramUpdates", 4),
        ("pending", 5),
    ] {
        assert_eq!(cycle.u64_at(field), Some(value));
    }
}

// The service

#[test]
fn labels_name_files_and_stand_in_commands() {
    assert_eq!(validate_daemon_label("  name "), Ok("name"));
    assert_eq!(validate_daemon_label("  "), Err(ServiceError::EmptyLabel));
    for label in ["a/b", "a\\b", "a'b"] {
        assert_eq!(
            validate_daemon_label(label),
            Err(ServiceError::UnsupportedLabel)
        );
    }
    assert_eq!(check_service_request("name", "bridge"), Ok(()));
    assert_eq!(
        check_service_request("name", "  "),
        Err(ServiceError::EmptyBridgeCommand)
    );
    assert_eq!(
        check_service_request("", ""),
        Err(ServiceError::EmptyLabel)
    );
    assert_eq!(
        service_names(Platform::Other, "name", None, "/s"),
        Err(ServiceError::UnsupportedPlatform)
    );
    assert_eq!(
        service_names(Platform::Linux, "name", None, "/s"),
        Err(ServiceError::NoHome)
    );
    assert_eq!(
        ServiceError::NoHome.message(),
        "home directory is not available"
    );
    assert_eq!(
        ServiceError::UnsupportedPlatform.message(),
        "daemon service install is only supported on macOS launchd and Linux systemd"
    );
}

#[test]
fn services_are_named_after_their_label() {
    let mac = service_names(Platform::MacOs, " name ", Some("/h"), "/s").expect("names");
    assert_eq!(mac.unit_name, "name");
    assert_eq!(mac.service_path, "/h/Library/LaunchAgents/name.plist");
    assert_eq!(mac.stdout_log, "/s/daemon.out.log");
    assert_eq!(mac.stderr_log, "/s/daemon.err.log");
    let linux = service_names(Platform::Linux, "name", Some("/h"), "/s").expect("names");
    assert_eq!(linux.unit_name, "name.service");
    assert_eq!(linux.service_path, "/h/.config/systemd/user/name.service");
    let named = service_names(Platform::Linux, "name.service", Some("/h"), "/s").expect("names");
    assert_eq!(named.unit_name, "name.service");
}

#[test]
fn commands_are_resolved_for_services() {
    for (command, cwd, found, expected) in [
        ("/bin/x", Some("/w"), Some("/y"), "/bin/x"),
        (" bin/x ", Some("/w"), None, "/w/bin/x"),
        ("bin/x", None, None, "bin/x"),
        ("x", Some("/w"), Some("/usr/bin/x"), "/usr/bin/x"),
        ("x", Some("/w"), None, "x"),
    ] {
        assert_eq!(resolve_service_bridge_command(command, cwd, found), expected);
    }
}

#[test]
fn the_search_path_holds_each_directory_once() {
    let mut entries = Vec::new();
    push_path_entry(&mut entries, "/a");
    push_path_entry(&mut entries, " ");
    push_path_entry(&mut entries, "/a");
    push_home_path(&mut entries, "/h", "bin");
    push_node_version_bins(
        &mut entries,
        &vec!["/n/v9".to_string(), "/n/v10".to_string(), "/a".to_string()],
    );
    assert_eq!(entries, vec!["/a", "/h/bin", "/n/v10", "/n/v9"]);

    assert_eq!(
        daemon_runtime_path(&None, Some("/usr/bin::/x:/x")),
        "/opt/homebrew/bin:/opt/homebrew/sbin:/usr/local/bin:/usr/bin:/bin:/usr/sbin:/sbin:/x"
    );
    assert_eq!(
        daemon_runtime_path(
            &Some(HomePaths {
                home: "/h".to_string(),
                config_nvm_bins: vec!["/c".to_string()],
                nvm_bins: vec!["/n".to_string()],
            }),
            None
        ),
        "/h/.bun/bin:/h/.cargo/bin:/h/.local/bin:/h/.deno/bin:/h/.pyenv/shims:/h/.asdf/shims:\
         /h/Library/pnpm:/h/go/bin:/c:/n:/opt/homebrew/bin:/opt/homebrew/sbin:/usr/local/bin:\
         /usr/bin:/bin:/usr/sbin:/sbin"
    );
}

#[test]
fn texts_are_escaped_as_by_replacing() {
    for text in ["plain", r#"a\b"c%d"#, "<a href='x'>&amp;\"</a>", "\\\"%&"] {
        assert_eq!(
            systemd_escape_env(text),
            text.replace('\\', "\\\\")
                .replace('"', "\\\"")
                .replace('%', "%%")
        );
        assert_eq!(
            xml_escape(text),
            text.replace('&', "&amp;")
                .replace('<', "&lt;")
                .replace('>', "&gt;")
                .replace('"', "&quot;")
                .replace('\'', "&apos;")
        );
    }
}

fn xml_read(text: &str) -> String {
    text.replace("&lt;", "<")
        .replace("&gt;", ">")
        .replace("&quot;", "\"")
        .replace("&apos;", "'")
        .replace("&amp;", "&")
}

fn systemd_read(text: &str) -> String {
    let mut out = String::new();
    let mut chars = text.chars();
    while let Some(c) = chars.next() {
        match c {
            '\\' | '%' => out.extend(chars.next()),
            _ => out.push(c),
        }
    }
    out
}

#[test]
fn escaped_texts_are_read_back() {
    for text in ["", "a & b &amp; <c> \"d\" 'e'", "100% \\ \"x\" %% \\\\", "&lt;%n"] {
        assert_eq!(xml_read(&xml_escape(text)), text);
        assert_eq!(systemd_read(&systemd_escape_env(text)), text);
    }
}

#[test]
fn launchd_agents_are_written_as_property_lists() {
    let spec = service(Platform::MacOs, "/b&c", "/p");
    assert_eq!(
        spec.contents,
        r#"<?xml version="1.0" encoding="UTF-8"?>
<!DOCTYPE plist PUBLIC "-//Apple//DTD PLIST 1.0//EN" "http://www.apple.com/DTDs/PropertyList-1.0.dtd">
<plist version="1.0">
<dict>
    <key>Label</key>
    <string>com.hanifcarroll.codex-telegram-bridge</string>
    <key>ProgramArguments</key>
    <array>
        <string>/b&amp;c</string>
        <string>daemon</string>
        <string>run</string>
    </array>
    <key>EnvironmentVariables</key>
    <dict>
        <key>PATH</key>
        <string>/p</string>
    </dict>
    <key>RunAtLoad</key>
    <true/>
    <key>KeepAlive</key>
    <true/>
    <key>StandardOutPath</key>
    <string>/home/user/state/daemon.out.log</string>
    <key>StandardErrorPath</key>
    <string>/home/user/state/daemon.err.log</string>
</dict>
</plist>
"#
    );
    let label = DEFAULT_DAEMON_LABEL;
    let path = format!("'/home/user/Library/LaunchAgents/{label}.plist'");
    assert_eq!(
        spec.install_command,
        format!("launchctl bootstrap gui/$(id -u) {path}")
    );
    assert_eq!(
        spec.start_command,
        format!(
            "launchctl bootstrap gui/$(id -u) {path} 2>/dev/null || launchctl kickstart -k gui/$(id -u)/'{label}'"
        )
    );
    assert_eq!(
        spec.stop_command,
        format!("launchctl bootout gui/$(id -u)/'{label}'")
    );
    assert_eq!(
        spec.uninstall_command,
        format!("launchctl bootout gui/$(id -u)/'{label}' 2>/dev/null || true")
    );
    assert_eq!(
        spec.status_command,
        format!("launchctl print gui/$(id -u)/'{label}'")
    );
}

#[test]
fn systemd_units_are_written_in_sections() {
    let spec = service(Platform::Linux, "/b", "/p%");
    assert_eq!(
        spec.contents,
        "[Unit]\nDescription=Codex Telegram Bridge notification daemon\n\n[Service]\nType=simple\nEnvironment=\"PATH=/p%%\"\nExecStart='/b' daemon run\nRestart=always\nRestartSec=2\nStandardOutput=append:/home/user/state/daemon.out.log\nStandardError=append:/home/user/state/daemon.err.log\n\n[Install]\nWantedBy=default.target\n"
    );
    let unit = format!("'{DEFAULT_DAEMON_LABEL}.service'");
    assert_eq!(
        spec.install_command,
        format!("systemctl --user daemon-reload && systemctl --user enable --now {unit}")
    );
    assert_eq!(spec.start_command, spec.install_command);
    assert_eq!(spec.stop_command, format!("systemctl --user stop {unit}"));
    assert_eq!(
        spec.uninstall_command,
        format!("systemctl --user disable --now {unit} 2>/dev/null || true")
    );
    assert_eq!(
        spec.status_command,
        format!("systemctl --user status {unit}")
    );
}

#[test]
fn service_commands_are_reported() {
    let spec = service(Platform::Linux, "/b", "/p");
    let real = install_report(&spec, false, "/b daemon run");
    assert_eq!(real.get("contents"), Some(&Json::Null));
    assert_eq!(real.str_at("runCommand"), Some("/b daemon run"));
    assert_eq!(
        real.get2("logs", "stdout"),
        Some(&Json::text("/home/user/state/daemon.out.log"))
    );
    let output = Json::Int(1);
    for (report, action, command) in [
        (start_report(&spec, false, Some(&output)), "daemon_start", &spec.start_command),
        (stop_report(&spec, false, Some(&output)), "daemon_stop", &spec.stop_command),
    ] {
        assert_eq!(report.str_at("action"), Some(action));
        assert_eq!(report.str_at("command"), Some(command.as_str()));
        assert_eq!(report.get("output"), Some(&Json::Int(1)));
    }
    let removed = uninstall_report(&spec, true, None);
    assert_eq!(removed.str_at("action"), Some("daemon_uninstall"));
    assert_eq!(removed.bool_at("dryRun"), Some(true));
    assert_eq!(removed.get("output"), Some(&Json::Null));
    assert_eq!(
        logs_report(&spec, "'o'", "'e'").str_at("tailCommand"),
        Some("tail -f 'o' 'e'")
    );
}

#[test]
fn service_output_is_summed_up() {
    let output = shell_output(Some(3), false, " out\n", "\terr ");
    assert_eq!(output.str_at("stdout"), Some("out"));
    assert_eq!(output.str_at("stderr"), Some("err"));
    assert_eq!(
        command_status_summary(&output),
        json(r#"{ "status": 3, "success": false }"#)
    );
    assert_eq!(
        command_status_summary(&Json::Null),
        json(r#"{ "status": null, "success": false }"#)
    );
    assert_eq!(
        shell_output(None, true, "", "").get("status"),
        Some(&Json::Null)
    );
    let stopped = macos_service_runtime(&shell_output(Some(0), true, "state = waiting", ""));
    assert_eq!(stopped.bool_at("loaded"), Some(true));
    assert_eq!(stopped.bool_at("running"), Some(false));
    assert_eq!(stopped.str_at("state"), Some("waiting"));
    let broken = macos_service_runtime(&shell_output(Some(1), false, "state = running", "no"));
    assert_eq!(broken.bool_at("loaded"), Some(true));
    assert_eq!(broken.bool_at("running"), Some(false));
}

#[test]
fn systemd_units_are_asked_twice() {
    assert_eq!(
        is_active_command("'u'"),
        "systemctl --user is-active 'u'"
    );
    let failed = shell_output(Some(3), false, "secret", "");
    for (active, loaded, running) in [
        ("active\n", true, true),
        ("inactive", false, false),
        ("", true, false),
        ("failed", true, false),
    ] {
        let runtime = linux_service_runtime(&failed, &shell_output(Some(0), true, active, ""));
        assert_eq!(runtime.bool_at("loaded"), Some(loaded), "{active}");
        assert_eq!(runtime.bool_at("running"), Some(running), "{active}");
        assert!(!format!("{runtime:?}").contains("secret"));
    }
    let loaded = linux_service_runtime(
        &shell_output(Some(0), true, "", ""),
        &shell_output(Some(3), false, "inactive", ""),
    );
    assert_eq!(loaded.bool_at("loaded"), Some(true));
    assert_eq!(loaded.str_at("state"), Some("inactive"));
    assert_eq!(
        service_runtime_query(Platform::MacOs, true),
        RuntimeQuery::Launchd
    );
    assert_eq!(
        service_runtime_query(Platform::Linux, true),
        RuntimeQuery::Systemd
    );
    assert_eq!(
        service_runtime_query(Platform::Linux, false),
        RuntimeQuery::Absent
    );
    assert_eq!(
        service_runtime_query(Platform::Other, true),
        RuntimeQuery::Absent
    );
    assert_eq!(
        absent_service_runtime().get("raw"),
        Some(&Json::Null)
    );
}

#[test]
fn a_service_is_healthy_when_it_runs() {
    let spec = service(Platform::Linux, "/b", "/p");
    let running = || json(r#"{ "running": true }"#);
    let healthy = daemon_service_status(&spec, "/c", true, true, running());
    assert_eq!(healthy.bool_at("healthy"), Some(true));
    assert_eq!(healthy.get("nextStep"), Some(&Json::Null));
    for (config_exists, installed, runtime) in [
        (false, true, running()),
        (true, false, running()),
        (true, true, absent_service_runtime()),
    ] {
        let status = daemon_service_status(&spec, "/c", config_exists, installed, runtime);
        assert_eq!(status.bool_at("healthy"), Some(false));
        assert_eq!(
            status.str_at("nextStep"),
            Some("Run `codex-telegram-bridge daemon start` to restore background Telegram delivery.")
        );
    }
}
