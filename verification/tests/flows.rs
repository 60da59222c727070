use codex_telegram_bridge::api::ApiCall;
use codex_telegram_bridge::batch::advance_telegram_ack_offset;
use codex_telegram_bridge::batch::after_failure;
use codex_telegram_bridge::batch::next_update_offset;
use codex_telegram_bridge::batch::plain_failure;
use codex_telegram_bridge::batch::skipped_poll_report;
use codex_telegram_bridge::batch::telegram_offset_key;
use codex_telegram_bridge::batch::BatchTally;
use codex_telegram_bridge::batch::Counter;
use codex_telegram_bridge::batch::Effect;
use codex_telegram_bridge::batch::UpdateEnd;
use codex_telegram_bridge::commands::back_reply;
use codex_telegram_bridge::commands::backend_reply;
use codex_telegram_bridge::commands::begin_command;
use codex_telegram_bridge::commands::begin_prompt_reply;
use codex_telegram_bridge::commands::command_report;
use codex_telegram_bridge::commands::command_sender;
use codex_telegram_bridge::commands::current_project_for_identity;
use codex_telegram_bridge::commands::needs_project_reply;
use codex_telegram_bridge::commands::new_thread_report;
use codex_telegram_bridge::commands::new_thread_resolved;
use codex_telegram_bridge::commands::project_not_found_reply;
use codex_telegram_bridge::commands::project_set_reply;
use codex_telegram_bridge::commands::projects_list_reply;
use codex_telegram_bridge::commands::prompt_reply_report;
use codex_telegram_bridge::commands::status_reply;
use codex_telegram_bridge::commands::telegram_live_failure_result;
use codex_telegram_bridge::commands::threads_empty_reply;
use codex_telegram_bridge::commands::threads_failed_reply;
use codex_telegram_bridge::commands::threads_report;
use codex_telegram_bridge::commands::threads_step;
use codex_telegram_bridge::commands::BackendCommand;
use codex_telegram_bridge::commands::CommandReply;
use codex_telegram_bridge::commands::CommandStep;
use codex_telegram_bridge::commands::NewThreadStep;
use codex_telegram_bridge::commands::PromptReplyStep;
use codex_telegram_bridge::commands::ThreadsStep;
use codex_telegram_bridge::deletions::budgeted_timeout;
use codex_telegram_bridge::deletions::deletion_attempt;
use codex_telegram_bridge::deletions::deletion_follow_up;
use codex_telegram_bridge::deletions::warning_follow_up;
use codex_telegram_bridge::deletions::DeletionAttempt;
use codex_telegram_bridge::deletions::DeletionFollowUp;
use codex_telegram_bridge::deletions::MessageDeletion;
use codex_telegram_bridge::deletions::TELEGRAM_DELETE_WINDOW_MS;
use codex_telegram_bridge::delivery::prepare_telegram_delivery;
use codex_telegram_bridge::inbound::extract_telegram_callback_route;
use codex_telegram_bridge::inbound::extract_telegram_reply_route;
use codex_telegram_bridge::inbound::parse_telegram_command_text;
use codex_telegram_bridge::inbound::parse_telegram_threads_limit;
use codex_telegram_bridge::inbound::CallbackError;
use codex_telegram_bridge::inbound::CommandRoute;
use codex_telegram_bridge::inbound::QuestionMessage;
use codex_telegram_bridge::inbound::QuestionRef;
use codex_telegram_bridge::inbound::RoutedTelegramCommandPromptReply;
use codex_telegram_bridge::inbound::StoredCallbackRoute;
use codex_telegram_bridge::inbound::TelegramCommandRouteKind;
use codex_telegram_bridge::inbound::TelegramInboundCommand;
use codex_telegram_bridge::inbound::ThreadsLimitError;
use codex_telegram_bridge::json::Json;
use codex_telegram_bridge::json::Member;
use codex_telegram_bridge::number::NumberError;
use codex_telegram_bridge::outgoing::delivery_report_json;
use codex_telegram_bridge::outgoing::message_sent;
use codex_telegram_bridge::outgoing::new_typing_record;
use codex_telegram_bridge::outgoing::telegram_typing_key;
use codex_telegram_bridge::outgoing::typing_step;
use codex_telegram_bridge::outgoing::typing_to_clear;
use codex_telegram_bridge::outgoing::DeliveryEffect;
use codex_telegram_bridge::outgoing::TypingEnd;
use codex_telegram_bridge::outgoing::TypingStep;
use codex_telegram_bridge::outgoing::TypingTally;
use codex_telegram_bridge::questions::answer_sent;
use codex_telegram_bridge::questions::app_server_question_response;
use codex_telegram_bridge::questions::begin_answer;
use codex_telegram_bridge::questions::plan_question_answer;
use codex_telegram_bridge::questions::question_action_record;
use codex_telegram_bridge::questions::question_outcome_text;
use codex_telegram_bridge::questions::question_summary;
use codex_telegram_bridge::questions::saved_answer_outcome;
use codex_telegram_bridge::questions::sent_answer_outcome;
use codex_telegram_bridge::questions::settle_follow_up;
use codex_telegram_bridge::questions::settle_question_message;
use codex_telegram_bridge::questions::AnswerRefusal;
use codex_telegram_bridge::questions::AnswerStep;
use codex_telegram_bridge::questions::AppServerQuestion;
use codex_telegram_bridge::questions::AppServerRequest;
use codex_telegram_bridge::questions::HeldAnswer;
use codex_telegram_bridge::questions::QuestionAnswerOutcome;
use codex_telegram_bridge::questions::TransportInfo;
use codex_telegram_bridge::render::LiveBackendReport;
use codex_telegram_bridge::render::LiveBackendStatus;
use codex_telegram_bridge::setup::check_setup;
use codex_telegram_bridge::setup::commands_registration;
use codex_telegram_bridge::setup::scan_pairing_updates;
use codex_telegram_bridge::setup::setup_pairing;
use codex_telegram_bridge::setup::telegram_setup_report;
use codex_telegram_bridge::setup::telegram_status_report;
use codex_telegram_bridge::setup::test_dry_report;
use codex_telegram_bridge::setup::test_message_payload;
use codex_telegram_bridge::setup::test_sent_report;
use codex_telegram_bridge::setup::PairingScan;
use codex_telegram_bridge::setup::SetupError;
use codex_telegram_bridge::setup::SetupOutcome;
use codex_telegram_bridge::setup::SetupPairing;
use codex_telegram_bridge::turns::approval_action_record;
use codex_telegram_bridge::turns::approval_report_json;
use codex_telegram_bridge::turns::approval_sent;
use codex_telegram_bridge::turns::codex_log_context_from_result;
use codex_telegram_bridge::turns::legacy_approval_record;
use codex_telegram_bridge::turns::legacy_approval_report;
use codex_telegram_bridge::turns::legacy_approval_text;
use codex_telegram_bridge::turns::new_thread_confirmation_report;
use codex_telegram_bridge::turns::new_thread_event_id;
use codex_telegram_bridge::turns::new_thread_prompt_payload;
use codex_telegram_bridge::turns::new_thread_prompt_report;
use codex_telegram_bridge::turns::new_thread_prompt_text;
use codex_telegram_bridge::turns::new_thread_record;
use codex_telegram_bridge::turns::new_thread_result;
use codex_telegram_bridge::turns::prompt_reply_log_context_from_result;
use codex_telegram_bridge::turns::reply_action_record;
use codex_telegram_bridge::turns::reply_failure_text;
use codex_telegram_bridge::turns::reply_report_json;
use codex_telegram_bridge::turns::result_thread_id;
use codex_telegram_bridge::turns::resume_failure;
use codex_telegram_bridge::turns::send_result;
use codex_telegram_bridge::turns::thread_resume_params;
use codex_telegram_bridge::turns::turn_start_params;
use codex_telegram_bridge::turns::ApprovalError;
use codex_telegram_bridge::turns::ReplayAttempt;
use codex_telegram_bridge::turns::RequestEffect;
use codex_telegram_bridge::turns::ResumeFailure;
use codex_telegram_bridge::turns::SendResult;
use codex_telegram_bridge::types::RegisteredProject;
use codex_telegram_bridge::types::TelegramCallbackAction;
use codex_telegram_bridge::types::TelegramConfig;
use codex_telegram_bridge::updates::approval_dispatched;
use codex_telegram_bridge::updates::begin_unless_processed;
use codex_telegram_bridge::updates::begin_update;
use codex_telegram_bridge::updates::buttons_looked_up;
use codex_telegram_bridge::updates::command_completed;
use codex_telegram_bridge::updates::command_looked_up;
use codex_telegram_bridge::updates::command_run;
use codex_telegram_bridge::updates::is_message_update;
use codex_telegram_bridge::updates::question_looked_up;
use codex_telegram_bridge::updates::reply_answered;
use codex_telegram_bridge::updates::reply_failed;
use codex_telegram_bridge::updates::secret_checked;
use codex_telegram_bridge::updates::tap_answered;
use codex_telegram_bridge::updates::tap_failed;
use codex_telegram_bridge::updates::thread_looked_up;
use codex_telegram_bridge::updates::turn_started;
use codex_telegram_bridge::updates::work_failed;
use codex_telegram_bridge::updates::UpdateStep;
use serde_json::Value;

fn lib(value: &Value) -> Json {
    match value {
        Value::Null => Json::Null,
        Value::Bool(b) => Json::Bool(*b),
        Value::Number(n) => match (n.as_i64(), n.as_u64()) {
            (Some(i), _) => Json::Int(i as i128),
            (None, Some(u)) => Json::Int(u as i128),
            (None, None) => Json::Float(n.to_string()),
        },
        Value::String(s) => Json::Str(s.clone()),
        Value::Array(items) => Json::Array(items.iter().map(lib).collect()),
        Value::Object(map) => Json::Object(
            map.iter().map(|(key, value)| Member { key: key.clone(), value: lib(value) }).collect(),
        ),
    }
}

fn json(text: &str) -> Json {
    lib(&serde_json::from_str(text).expect("json"))
}

fn telegram() -> TelegramConfig {
    TelegramConfig {
        bot_token: "123:secret".to_string(),
        chat_id: "456".to_string(),
        allowed_user_id: Some("789".to_string()),
    }
}

fn transport() -> TransportInfo {
    TransportInfo {
        transport: "shared_websocket".to_string(),
        app_server_pid: None,
    }
}

fn project(id: &str) -> RegisteredProject {
    RegisteredProject {
        id: id.to_string(),
        label: format!("Project {id}"),
        cwd: format!("/work/{id}"),
        aliases: Vec::new(),
    }
}

fn is_null(value: Option<&Json>) -> bool {
    value == Some(&Json::Null)
}

// Turns

#[test]
fn telegram_reply_starts_turn_without_waiting_for_completion() {
    let started = json(r#"{ "turn": { "id": "turn_1" } }"#);
    let result = reply_report_json("thr_1", "continue", &transport(), &started, 1000);

    assert_eq!(
        result.str_at2("codex", "transport"),
        Some("shared_websocket")
    );
    assert!(is_null(result.get2("codex", "appServerPid")));
    assert_eq!(result.str_at2("delivery", "mode"), Some("daemon_sync"));
    assert_eq!(result.str_at2("delivery", "status"), Some("turn_started"));
    assert_eq!(result.str_at2("delivery", "startedTurnId"), Some("turn_1"));
    assert!(result.get("follow").is_none());
    assert_eq!(
        thread_resume_params("thr_1"),
        json(r#"{ "threadId": "thr_1" }"#)
    );
    assert_eq!(
        turn_start_params("thr_1", json(r#"{ "text": "continue" }"#)).get("input"),
        Some(&json(r#"[{ "text": "continue" }]"#))
    );
    let record = reply_action_record("continue", &Json::Null, &started, 1000);
    assert_eq!(record.get("started"), Some(&started));
    assert_eq!(record.u64_at("sentAt"), Some(1000));
}

#[test]
fn telegram_approval_starts_turn_without_waiting_for_completion() {
    let sent = legacy_approval_text(TelegramCallbackAction::Approve).expect("approval");
    let started = json(r#"{ "turn": {} }"#);
    let result = legacy_approval_report(
        "thr_1",
        TelegramCallbackAction::Approve,
        sent,
        &transport(),
        &started,
        1000,
    );

    assert_eq!(result.str_at("action"), Some("telegram_approval"));
    assert_eq!(result.str_at("sentText"), Some("YES"));
    assert_eq!(result.str_at2("delivery", "mode"), Some("daemon_sync"));
    assert_eq!(result.str_at2("delivery", "status"), Some("turn_started"));
    assert!(is_null(result.get2("delivery", "startedTurnId")));
    assert!(result.get("follow").is_none());
    let record = legacy_approval_record(
        TelegramCallbackAction::Deny,
        "NO",
        &Json::Null,
        &started,
        1000,
    );
    assert_eq!(record.str_at("decision"), Some("deny"));
    assert_eq!(record.str_at("sentText"), Some("NO"));
}

#[test]
fn telegram_native_approval_responds_to_the_replayed_json_rpc_request() {
    let approval = AppServerRequest {
        approval_key: "approval_1".to_string(),
        request_id: Json::Int(61),
        method: "item/commandExecution/requestApproval".to_string(),
        thread_id: "thr_1".to_string(),
        turn_id: "turn_1".to_string(),
        item_id: "item_1".to_string(),
    };

    let result = approval_report_json(
        &approval.approval_key,
        &approval,
        TelegramCallbackAction::ApproveForSession,
        &transport(),
        1100,
    );
    assert_eq!(
        result.str_at("action"),
        Some("telegram_app_server_approval")
    );
    assert_eq!(result.str_at("decision"), Some("approve_for_session"));

    let response = json(r#"{ "decision": "acceptForSession" }"#);
    let record = approval_action_record(
        &approval.approval_key,
        &approval,
        TelegramCallbackAction::ApproveForSession,
        &response,
        &Json::Null,
        1100,
    );
    assert_eq!(record.get("requestId"), Some(&Json::Int(61)));
    assert_eq!(record.get("response"), Some(&response));
    assert_eq!(
        record.str_at("method"),
        Some("item/commandExecution/requestApproval")
    );

    let taken = send_result(ReplayAttempt::Answered {
        resumed: Json::Null,
        transport: transport(),
    });
    let effects = approval_sent(
        &approval.approval_key,
        &approval,
        TelegramCallbackAction::ApproveForSession,
        &response,
        &taken,
        false,
        1100,
    );
    assert_eq!(
        effects[0],
        RequestEffect::MarkResponded {
            approval_key: "approval_1".to_string()
        }
    );
    assert_eq!(effects.len(), 2);
}

#[test]
fn question_buttons_are_no_decisions() {
    assert_eq!(
        legacy_approval_text(TelegramCallbackAction::ApproveForSession),
        Ok("YES")
    );
    assert_eq!(legacy_approval_text(TelegramCallbackAction::Deny), Ok("NO"));
    for action in [
        TelegramCallbackAction::AnswerOption,
        TelegramCallbackAction::SkipQuestion,
    ] {
        assert_eq!(
            legacy_approval_text(action),
            Err(ApprovalError::QuestionButton)
        );
    }
    assert_eq!(
        ApprovalError::QuestionButton.message(),
        "question buttons need a pending Codex question request"
    );
}

#[test]
fn requests_of_lost_threads_expire() {
    for error in [
        "no rollout found for thread id x",
        "rpc: thread not loaded",
        "thread not found: x",
    ] {
        assert_eq!(resume_failure(error), ResumeFailure::Expired);
    }
    assert_eq!(
        resume_failure("connection refused"),
        ResumeFailure::Unavailable
    );
}

#[test]
fn failed_replies_are_answered_with_a_reason() {
    assert_eq!(
        reply_failure_text("thr_1", "ws://h:1", "connection refused"),
        "Your message could not be processed: connection refused"
    );
    let busy = reply_failure_text(
        "thr_1",
        "ws://h:1",
        "rpc -32000: thread thr_1 already has an active writer",
    );
    assert!(busy.contains("\ncodex resume thr_1 --remote ws://h:1\n"));
    assert!(!busy.contains("-32000"));
    assert_eq!(
        busy,
        reply_failure_text("thr_1", "ws://h:1", "already has an active writer")
    );

    let error = "thread thr_1 already has an active writer".to_string();
    let UpdateStep::Fail { effects, failure } = reply_failed("thr_1", "ws://h:1", error) else {
        panic!("failure");
    };
    assert!(effects.is_empty());
    assert_eq!(failure.error, "thread thr_1 already has an active writer");
    assert_eq!(failure.notice, busy);
    let UpdateStep::Fail { failure, .. } = work_failed("down".to_string()) else {
        panic!("failure");
    };
    assert_eq!(failure, plain_failure("down".to_string()));
    assert_eq!(failure.notice, "Your message could not be processed: down");
}

#[test]
fn logs_name_how_codex_was_reached() {
    let result = json(
        r#"{ "action": "a", "codex": { "transport": "t", "appServerPid": 7 },
             "result": { "threadId": "x", "codex": { "transport": "u", "appServerPid": 4294967296 } } }"#,
    );
    let context = codex_log_context_from_result(&result, Some("thr"), Some(3));
    assert_eq!(context.thread_id.as_deref(), Some("thr"));
    assert_eq!(context.route_message_id, Some(3));
    assert_eq!(context.result_action.as_deref(), Some("a"));
    assert_eq!(context.codex_transport.as_deref(), Some("t"));
    assert_eq!(context.codex_app_server_pid, Some(7));
    let context = prompt_reply_log_context_from_result(&result, None);
    assert_eq!(context.thread_id.as_deref(), Some("x"));
    assert_eq!(context.codex_transport.as_deref(), Some("u"));
    assert_eq!(context.codex_app_server_pid, None);
}

#[test]
fn new_threads_are_confirmed_and_asked_about() {
    let result = new_thread_result(json(r#"{ "threadId": "x" }"#), &transport());
    assert_eq!(
        result.str_at2("codex", "transport"),
        Some("shared_websocket")
    );
    assert_eq!(result_thread_id(&result), Some("x"));
    assert_eq!(result_thread_id(&Json::Null), None);
    assert_eq!(new_thread_event_id("x"), "telegram_new_thread:x");
    assert_eq!(
        new_thread_confirmation_report("x", 4).u64_at("messageId"),
        Some(4)
    );
    let project = project("p");
    assert_eq!(
        new_thread_prompt_text(&project),
        "What should Codex work on in Project p?\n/work/p\n\nUse Telegram's Reply action on this message with the prompt for the new thread."
    );
    assert_eq!(
        new_thread_prompt_payload(&project),
        json(r#"{ "projectId": "p" }"#)
    );
    assert_eq!(
        new_thread_prompt_report(&project, 5).str_at("action"),
        Some("telegram_new_thread_prompt")
    );
    let record = new_thread_record(&project, "do", &result, 9);
    assert_eq!(record.str_at("cwd"), Some("/work/p"));
    assert_eq!(record.str_at("message"), Some("do"));
}

// Commands

fn sent(reply: CommandReply) -> (String, Json) {
    let text = reply.text.clone();
    let answer = Json::Object(vec![Member {
        key: "result".to_string(),
        value: Json::Object(vec![Member {
            key: "text".to_string(),
            value: Json::Str(reply.text),
        }]),
    }]);
    (text, command_report(reply.report, answer))
}

#[test]
fn remote_commands_start_stop_and_repair_shared_backend() {
    let websocket_url = "ws://127.0.0.1:4500";
    let status = LiveBackendStatus {
        healthy: true,
        pid: Some(12),
        websocket_url: websocket_url.to_string(),
    };
    let backend = |action: &str| {
        json(&format!(
            r#"{{ "action": "{action}", "status": {{ "websocketUrl": "{websocket_url}" }} }}"#
        ))
    };
    let away_on = || json(r#"{ "away": true }"#);

    assert!(matches!(
        begin_command(TelegramInboundCommand::Away),
        CommandStep::TurnAwayOn
    ));
    let (text, away) = sent(backend_reply(
        BackendCommand::Away,
        "started",
        &status,
        backend("started"),
        away_on(),
    ));
    assert_eq!(away.bool_at("ok"), Some(true));
    assert_eq!(away.str_at("action"), Some("telegram_away"));
    assert_eq!(away.str_at2("backend", "action"), Some("started"));
    assert_eq!(
        away.str_at3("backend", "status", "websocketUrl"),
        Some(websocket_url)
    );
    assert_eq!(away.get2("away", "away"), Some(&Json::Bool(true)));
    assert!(away
        .str_at3("sent", "result", "text")
        .expect("away text")
        .contains("Remote Codex mode is on."));
    assert_eq!(
        text,
        "Remote Codex mode is on.\nBackend: started, healthy, ws://127.0.0.1:4500, pid 12.\nAway mode: on."
    );

    assert!(matches!(
        begin_command(TelegramInboundCommand::Repair),
        CommandStep::Repair
    ));
    let (_, repair) = sent(backend_reply(
        BackendCommand::Repair,
        "restarted",
        &status,
        backend("restarted"),
        away_on(),
    ));
    assert_eq!(repair.bool_at("ok"), Some(true));
    assert_eq!(repair.str_at("action"), Some("telegram_repair"));
    assert_eq!(repair.str_at2("backend", "action"), Some("restarted"));
    assert_eq!(repair.get2("away", "away"), Some(&Json::Bool(true)));
    assert!(repair
        .str_at3("sent", "result", "text")
        .expect("repair text")
        .contains("Remote Codex mode was repaired."));

    assert!(matches!(
        begin_command(TelegramInboundCommand::Back),
        CommandStep::TurnAwayOff
    ));
    let (_, back) = sent(back_reply(json(r#"{ "away": false }"#)));
    assert_eq!(back.bool_at("ok"), Some(true));
    assert_eq!(back.str_at("action"), Some("telegram_back"));
    assert_eq!(back.get2("state", "away"), Some(&Json::Bool(false)));
    assert!(back
        .str_at3("sent", "result", "text")
        .expect("back text")
        .contains("Remote Codex mode is off."));
}

#[test]
fn live_mode_command_failures_are_reported_to_telegram() {
    let (_, away) = sent(telegram_live_failure_result(
        BackendCommand::Away,
        "shared Codex live backend is not configured; run setup first",
    ));

    assert_eq!(away.bool_at("ok"), Some(false));
    assert_eq!(away.str_at("action"), Some("telegram_away_failed"));
    assert!(away
        .str_at3("sent", "result", "text")
        .expect("failure text")
        .contains("Try /repair"));

    let (text, repair) = sent(telegram_live_failure_result(BackendCommand::Repair, "e"));
    assert_eq!(repair.str_at("action"), Some("telegram_repair_failed"));
    assert_eq!(repair.str_at("error"), Some("e"));
    assert_eq!(
        text,
        "Remote Codex mode could not repair.\nError: e\nTry /repair. If that keeps failing, check `codex-telegram-bridge doctor` locally."
    );
}

#[test]
fn commands_lead_to_their_work() {
    let CommandStep::Reply { reply } = begin_command(TelegramInboundCommand::Help) else {
        panic!("help is replied to");
    };
    assert_eq!(sent(reply).1.str_at("action"), Some("telegram_help"));
    let CommandStep::Reply { reply } =
        begin_command(TelegramInboundCommand::Unknown("/x".to_string()))
    else {
        panic!("unknown commands are replied to");
    };
    let (text, report) = sent(reply);
    assert!(text.starts_with("I don't know /x yet.\n\n"));
    assert_eq!(report.str_at("command"), Some("/x"));
    let threads = |raw: &str| begin_command(TelegramInboundCommand::Threads(Some(raw.to_string())));
    assert!(matches!(
        threads("7"),
        CommandStep::ListThreads { limit: 7 }
    ));
    let CommandStep::Reply { reply } = threads("26") else {
        panic!("a limit that is out of range is refused");
    };
    let (text, report) = sent(reply);
    assert_eq!(
        report.str_at("action"),
        Some("telegram_threads_invalid_limit")
    );
    assert_eq!(
        text,
        "Use /threads or /threads <count>, with count between 1 and 25\n\nExamples:\n/threads\n/threads 10\n\nThe maximum is 25."
    );
    assert!(matches!(
        begin_command(TelegramInboundCommand::Status),
        CommandStep::ReadStatus
    ));
    assert!(matches!(
        begin_command(TelegramInboundCommand::NewThread(None)),
        CommandStep::ResolveThread { prompt: None }
    ));
    assert!(matches!(
        begin_command(TelegramInboundCommand::Project(None)),
        CommandStep::ShowProjects
    ));
    assert!(matches!(
        begin_command(TelegramInboundCommand::Project(Some("p".to_string()))),
        CommandStep::ResolveProject { .. }
    ));
}

#[test]
fn limits_are_refused_with_a_reason() {
    assert_eq!(
        parse_telegram_threads_limit(Some("two")),
        Err(ThreadsLimitError::NotANumber(NumberError::InvalidDigit))
    );
    assert_eq!(
        parse_telegram_threads_limit(Some("99999999999999999999")),
        Err(ThreadsLimitError::NotANumber(NumberError::TooLarge))
    );
    assert_eq!(
        parse_telegram_threads_limit(Some("0")),
        Err(ThreadsLimitError::OutOfRange)
    );
    assert_eq!(parse_telegram_threads_limit(Some("  ")), Ok(5));
    assert_eq!(parse_telegram_threads_limit(Some(" 25 ")), Ok(25));
    assert_eq!(
        ThreadsLimitError::NotANumber(NumberError::InvalidDigit).message(),
        format!(
            "Use /threads or /threads <count>, with count between 1 and 25: {}",
            "two".parse::<u64>().expect_err("no number")
        )
    );
    assert_eq!(
        ThreadsLimitError::NotANumber(NumberError::TooLarge).message(),
        format!(
            "Use /threads or /threads <count>, with count between 1 and 25: {}",
            "99999999999999999999"
                .parse::<u64>()
                .expect_err("too large")
        )
    );
}

#[test]
fn commands_are_read_in_any_case_and_for_any_bot() {
    for text in ["/status", "/STATUS", " /Status@some_bot ", "/status more"] {
        assert_eq!(
            parse_telegram_command_text(text),
            Some(TelegramInboundCommand::Status)
        );
    }
    assert_eq!(parse_telegram_command_text("status"), None);
    assert_eq!(
        parse_telegram_command_text("/Nope@bot x"),
        Some(TelegramInboundCommand::Unknown("/Nope@bot".to_string()))
    );
    assert_eq!(
        parse_telegram_command_text("/new\n  two\u{3000}words  "),
        Some(TelegramInboundCommand::NewThread(Some(
            "two\u{3000}words".to_string()
        )))
    );
}

#[test]
fn status_and_threads_are_replied_to() {
    let (text, report) = sent(status_reply(
        &json(r#"{ "away": true }"#),
        &LiveBackendReport::NotConfigured,
        1,
        2,
    ));
    assert_eq!(report.str_at("action"), Some("telegram_status"));
    assert!(!text.is_empty());
    let (_, empty) = sent(threads_empty_reply(5));
    assert_eq!(empty.str_at("action"), Some("telegram_threads_empty"));
    assert_eq!(empty.u64_at("limit"), Some(5));
    let (text, failed) = sent(threads_failed_reply("e"));
    assert_eq!(failed.str_at("action"), Some("telegram_threads_failed"));
    assert_eq!(
        text,
        "I couldn't fetch recent Codex threads.\nError: e\n\nTry /repair if the shared backend is unhealthy."
    );
    let report = threads_report(5, 2, vec![Json::Int(1)]);
    assert_eq!(report.u64_at("count"), Some(2));
    assert_eq!(report.get("sent"), Some(&json("[1]")));
    let (text, _) = sent(back_reply(json(r#"{ "clearedPendingNotifications": 3 }"#)));
    assert_eq!(
        text,
        "Remote Codex mode is off. Cleared 3 pending notification(s)."
    );
}

#[test]
fn snapshots_are_sent_while_there_is_time() {
    assert_eq!(threads_step(0, 0, false), ThreadsStep::Empty);
    assert_eq!(threads_step(0, 0, true), ThreadsStep::Empty);
    assert_eq!(threads_step(2, 0, false), ThreadsStep::Send);
    assert_eq!(threads_step(2, 1, false), ThreadsStep::Send);
    assert_eq!(threads_step(2, 1, true), ThreadsStep::Done);
    assert_eq!(threads_step(2, 2, false), ThreadsStep::Done);
}

#[test]
fn the_current_project_is_the_chosen_or_the_only_one() {
    let two = vec![project("a"), project("b")];
    let one = vec![project("a")];
    assert_eq!(current_project_for_identity(&two, Some("b")), Some(1));
    assert_eq!(current_project_for_identity(&two, Some("c")), None);
    assert_eq!(current_project_for_identity(&two, None), None);
    assert_eq!(current_project_for_identity(&one, Some("c")), Some(0));
    assert_eq!(current_project_for_identity(&Vec::new(), None), None);

    let none = Vec::new();
    let (text, listed) = sent(projects_list_reply(&two, Some(1), &none));
    assert_eq!(listed.str_at("action"), Some("telegram_project"));
    let (set_text, set) = sent(project_set_reply(&two[0]));
    assert_eq!(set.str_at("projectId"), Some("a"));
    assert!(set_text.contains("Project a"));
    let (missing, report) = sent(project_not_found_reply("no such", &two, Some(1), &none));
    assert_eq!(report.str_at("action"), Some("telegram_project_not_found"));
    assert_eq!(missing, format!("no such\n\n{text}"));
    let (_, report) = sent(needs_project_reply("which", &two, None, &none));
    assert_eq!(
        report.str_at("action"),
        Some("telegram_new_thread_needs_project")
    );
}

#[test]
fn new_threads_start_where_a_prompt_is_left() {
    assert_eq!(
        new_thread_resolved(true, Some("do".to_string())),
        NewThreadStep::Start {
            prompt: "do".to_string()
        }
    );
    assert_eq!(new_thread_resolved(true, None), NewThreadStep::AskPrompt);
    assert_eq!(
        new_thread_resolved(false, Some("do".to_string())),
        NewThreadStep::AskPrompt
    );
    let two = vec![project("a"), project("b")];
    let none = Vec::new();
    let route = |id: Option<&str>| RoutedTelegramCommandPromptReply {
        kind: TelegramCommandRouteKind::NewThread,
        message: "do".to_string(),
        project_id: id.map(str::to_string),
    };
    assert!(matches!(
        begin_prompt_reply(&route(Some("b")), &two, None, &none),
        PromptReplyStep::Start { project: 1 }
    ));
    assert!(matches!(
        begin_prompt_reply(&route(None), &two, Some(0), &none),
        PromptReplyStep::Start { project: 0 }
    ));
    for (id, action) in [
        (Some("c"), "telegram_new_thread_prompt_missing_project"),
        (None, "telegram_new_thread_prompt_needs_project"),
    ] {
        let PromptReplyStep::Reply { reply } = begin_prompt_reply(&route(id), &two, None, &none)
        else {
            panic!("no project");
        };
        assert_eq!(sent(reply).1.str_at("action"), Some(action));
    }
    assert_eq!(
        new_thread_report(&two[0], Json::Null, Json::Int(1)).str_at("action"),
        Some("telegram_new_thread")
    );
    assert_eq!(
        prompt_reply_report(&two[0], Json::Null, Json::Int(1)).str_at("action"),
        Some("telegram_new_thread_prompt_reply")
    );
    let sender = command_sender(&json(r#"{ "chat": { "id": 4 }, "from": { "id": 5 } }"#));
    assert_eq!(sender.expect("sender").user_id.as_deref(), Some("5"));
    assert!(command_sender(&Json::Null).is_none());
}

// Setup

fn setup_outcome(chat_named: bool) -> SetupOutcome {
    let checked = check_setup(
        "thread_waiting",
        " codex-telegram-bridge ",
        "ws://127.0.0.1:4500",
    )
    .expect("options");
    let SetupPairing::Known(paired) =
        setup_pairing("123:secret", Some("456"), Some("789"), true)
    else {
        panic!("the chat is given");
    };
    SetupOutcome {
        dry_run: true,
        config_path: "/c/config.json".to_string(),
        paired,
        chat_named,
        pair_timeout_ms: 1000,
        registration: commands_registration(None),
        redacted_config: json(
            r#"{ "telegram": { "botToken": "<redacted>", "chatId": "456", "allowedUserId": "789" },
                 "codex": { "codexHome": "/h/.codex" } }"#,
        ),
        daemon_command: format!("{} daemon run", checked.bridge_command),
        quoted_bridge_command: checked.bridge_command,
    }
}

#[test]
fn telegram_setup_dry_run_writes_redacted_daemon_shape() {
    let result = telegram_setup_report(&setup_outcome(true));

    assert_eq!(result.str_at("action"), Some("telegram_setup"));
    assert_eq!(result.bool_at("dryRun"), Some(true));
    assert_eq!(
        result.get2("telegram", "configured"),
        Some(&Json::Bool(true))
    );
    assert_eq!(result.str_at2("telegram", "botToken"), Some("<redacted>"));
    assert_eq!(
        result.str_at3("config", "telegram", "botToken"),
        Some("<redacted>")
    );
    assert_eq!(result.str_at3("config", "telegram", "chatId"), Some("456"));
    assert_eq!(
        result.str_at3("config", "telegram", "allowedUserId"),
        Some("789")
    );
    assert_eq!(
        result.str_at3("config", "codex", "codexHome"),
        Some("/h/.codex")
    );
    assert_eq!(
        result.str_at("daemonCommand"),
        Some("codex-telegram-bridge daemon run")
    );
    assert!(
        !format!("{result:?}").contains("123:secret"),
        "setup output must not leak Telegram bot token"
    );
    assert_eq!(
        result.str_at("daemonInstallCommand"),
        Some("codex-telegram-bridge daemon install --bridge-command codex-telegram-bridge")
    );
    assert!(is_null(result.get2("telegram", "pairing")));
    let hinted = telegram_setup_report(&setup_outcome(false));
    assert_eq!(
        hinted
            .get2("telegram", "pairing")
            .and_then(|hint| hint.u64_at("timeoutMs")),
        Some(1000)
    );
}

#[test]
fn blank_options_are_refused() {
    for (events, command, url, error, message) in [
        (" ", "", "", SetupError::EmptyEvents, "telegram setup events cannot be empty"),
        ("e", " ", "", SetupError::EmptyBridgeCommand, "telegram setup bridge command cannot be empty"),
        ("e", "c", "\t", SetupError::EmptyWebsocketUrl, "telegram setup websocket url cannot be empty"),
    ] {
        assert_eq!(check_setup(events, command, url), Err(error));
        assert_eq!(error.message(), message);
    }
    assert_eq!(
        setup_pairing("t", Some("  "), None, false),
        SetupPairing::Discover
    );
    let SetupPairing::Known(open) = setup_pairing("t", None, Some(" "), true) else {
        panic!("a dry run leaves the chat open");
    };
    assert_eq!(open.chat_id, "<paired by /start>");
    assert_eq!(open.allowed_user_id, None);
}

#[test]
fn the_chat_that_sends_start_is_paired() {
    let updates = vec![
        json(r#"{ "update_id": 4, "message": { "chat": { "id": 1 }, "text": "hi" } }"#),
        json(
            r#"{ "update_id": 5, "message": { "chat": { "id": 2 }, "from": { "id": 3 }, "text": " /start " } }"#,
        ),
    ];
    let PairingScan::Paired(paired) = scan_pairing_updates("t", &updates, None) else {
        panic!("paired");
    };
    assert_eq!(paired.chat_id, "2");
    assert_eq!(paired.allowed_user_id.as_deref(), Some("3"));
    assert_eq!(
        scan_pairing_updates("t", &vec![updates[0].copy()], None),
        PairingScan::Nothing { offset: Some(5) }
    );
    assert_eq!(
        scan_pairing_updates("t", &Vec::new(), Some(9)),
        PairingScan::Nothing { offset: Some(9) }
    );
    assert_eq!(
        scan_pairing_updates(
            "t",
            &vec![json(r#"{ "message": { "text": "/start" } }"#)],
            None
        ),
        PairingScan::NoChat
    );
    assert_eq!(
        scan_pairing_updates(
            "t",
            &vec![json(r#"{ "update_id": 9223372036854775807 }"#)],
            None
        ),
        PairingScan::Nothing {
            offset: Some(i64::MAX)
        }
    );
}

#[test]
fn setup_commands_report() {
    let registered = commands_registration(Some(json(r#"{ "ok": true }"#)));
    assert_eq!(registered.bool_at("registered"), Some(true));
    assert_eq!(
        registered.get("response"),
        Some(&json(r#"{ "ok": true }"#))
    );
    let status = telegram_status_report("/c", false, None);
    assert_eq!(status.bool_at("configured"), Some(false));
    assert!(is_null(status.get("config")));
    let payload = test_message_payload(&telegram(), None);
    assert_eq!(payload.str_at("text"), Some("Codex Telegram bridge test"));
    assert_eq!(
        test_message_payload(&telegram(), Some("hi")).str_at("text"),
        Some("hi")
    );
    assert_eq!(
        test_dry_report(payload).str_at2("payload", "chat_id"),
        Some("456")
    );
    let sent = json(r#"{ "result": { "message_id": 6 } }"#);
    assert_eq!(test_sent_report(&sent).u64_at("messageId"), Some(6));
    assert!(is_null(test_sent_report(&Json::Null).get("messageId")));
}

// Questions

fn question(id: &str) -> AppServerQuestion {
    AppServerQuestion {
        id: id.to_string(),
        accepts_free_text: true,
        is_secret: true,
    }
}

fn held(id: &str, answer: Option<&str>) -> HeldAnswer {
    HeldAnswer {
        question_id: id.to_string(),
        answer: answer.map(str::to_string),
    }
}

fn question_request() -> AppServerRequest {
    AppServerRequest {
        approval_key: "question_1".to_string(),
        request_id: Json::Int(7),
        method: "item/tool/requestUserInput".to_string(),
        thread_id: "thr_1".to_string(),
        turn_id: "turn_1".to_string(),
        item_id: "call_1".to_string(),
    }
}

#[test]
fn answers_stay_out_of_logs_and_reports() {
    let questions = vec![question("a"), question("b")];
    let plan = plan_question_answer(&questions, 1, vec![held("a", None)], "b", Some("hunter2"))
        .expect("plan");
    assert!(plan.complete());
    assert!(plan.is_secret);
    let record = question_action_record(
        "question_1",
        &question_request(),
        &plan.answers,
        &Json::Null,
        5,
    );
    assert_eq!(record.get("answered"), Some(&json(r#"["b"]"#)));
    assert_eq!(record.get("skipped"), Some(&json(r#"["a"]"#)));
    assert!(!format!("{record:?}").contains("hunter2"));
    let summary = question_summary("question_1", "b", false, true, plan.remaining);
    let outcome = sent_answer_outcome(
        &question_request(),
        &plan,
        summary.copy(),
        Some(&transport()),
        5,
    );
    assert!(!format!("{outcome:?}").contains("hunter2"));
    assert_eq!(
        sent_answer_outcome(&question_request(), &plan, summary.copy(), None, 5),
        QuestionAnswerOutcome::NotPending
    );
    assert_eq!(
        saved_answer_outcome(&question_request(), &plan, summary, false, 5),
        QuestionAnswerOutcome::NotPending
    );
    assert_eq!(
        app_server_question_response(&plan.answers),
        json(r#"{ "answers": { "b": { "answers": ["hunter2"] } } }"#)
    );
}

#[test]
fn answers_are_held_until_every_question_is_settled() {
    let questions = vec![question("a"), question("b")];
    let AnswerStep::Hold { plan } =
        begin_answer(Some(&questions), Vec::new(), "a", Some("one"), true)
    else {
        panic!("the other question is open");
    };
    assert_eq!(plan.remaining, 1);
    assert_eq!(plan.answers, vec![held("a", Some("one"))]);
    let AnswerStep::Send { plan, response } =
        begin_answer(Some(&questions), plan.answers, "b", None, false)
    else {
        panic!("every question is settled");
    };
    assert_eq!(plan.remaining, 0);
    assert_eq!(
        response,
        json(r#"{ "answers": { "a": { "answers": ["one"] } } }"#)
    );
}

#[test]
fn answers_are_refused_with_a_reason() {
    let closed = AppServerQuestion {
        accepts_free_text: false,
        ..question("a")
    };
    let questions = vec![closed];
    let refused = |step: AnswerStep| match step {
        AnswerStep::Refused { refusal } => refusal,
        _ => panic!("the answer was taken"),
    };
    assert_eq!(
        refused(begin_answer(None, Vec::new(), "a", Some("x"), false)),
        AnswerRefusal::NotPending
    );
    assert_eq!(
        refused(begin_answer(
            Some(&questions),
            Vec::new(),
            "z",
            Some("x"),
            false
        )),
        AnswerRefusal::NotPending
    );
    assert_eq!(
        refused(begin_answer(
            Some(&questions),
            Vec::new(),
            "a",
            Some("x"),
            true
        )),
        AnswerRefusal::NeedsOption
    );
    assert_eq!(
        refused(begin_answer(
            Some(&questions),
            vec![held("a", Some("y"))],
            "a",
            Some("x"),
            false
        )),
        AnswerRefusal::NotPending
    );
}

fn taken() -> SendResult {
    SendResult::Taken {
        resumed: json(r#"{ "thread": 1 }"#),
        transport: transport(),
    }
}

#[test]
fn attempts_end_in_three_ways() {
    let error = || "connection refused".to_string();
    let failed = SendResult::Failed { error: error() };
    assert_eq!(
        send_result(ReplayAttempt::NotConnected { error: error() }),
        failed
    );
    assert_eq!(
        send_result(ReplayAttempt::NotResumed { error: error() }),
        failed
    );
    assert_eq!(
        send_result(ReplayAttempt::Interrupted { error: error() }),
        failed
    );
    assert_eq!(
        send_result(ReplayAttempt::NotResumed {
            error: "rpc: thread not loaded".to_string()
        }),
        SendResult::Gone
    );
    assert_eq!(send_result(ReplayAttempt::NotReplayed), SendResult::Gone);
    assert_eq!(
        send_result(ReplayAttempt::Answered {
            resumed: json(r#"{ "thread": 1 }"#),
            transport: transport()
        }),
        taken()
    );
    // Only a failed attempt to resume tells that the thread is gone.
    assert_eq!(
        send_result(ReplayAttempt::Interrupted {
            error: "thread not loaded".to_string()
        }),
        SendResult::Failed {
            error: "thread not loaded".to_string()
        }
    );
}

#[test]
fn the_last_answer_is_stored_once_codex_has_it() {
    let answers = vec![held("a", None), held("b", Some("hunter2"))];
    let request = question_request();
    let sent = |result: &SendResult, configured: bool| {
        answer_sent(
            "question_1",
            "b",
            Some("hunter2"),
            &request,
            &answers,
            result,
            configured,
            5,
        )
    };
    let failed = SendResult::Failed {
        error: "connection refused".to_string(),
    };
    assert_eq!(sent(&failed, true), Vec::new());
    assert_eq!(
        sent(&SendResult::Gone, true),
        vec![RequestEffect::Expire {
            approval_key: "question_1".to_string()
        }]
    );
    let record = question_action_record(
        "question_1",
        &request,
        &answers,
        &json(r#"{ "thread": 1 }"#),
        5,
    );
    let stored = || {
        vec![
            RequestEffect::StoreAnswer {
                question_key: "question_1".to_string(),
                question_id: "b".to_string(),
                answer: Some("hunter2".to_string()),
            },
            RequestEffect::MarkResponded {
                approval_key: "question_1".to_string(),
            },
            RequestEffect::Log {
                thread_id: "thr_1".to_string(),
                kind: "telegram_app_server_question",
                record: record.copy(),
            },
        ]
    };
    assert_eq!(sent(&taken(), false), stored());
    let mut typing = stored();
    typing.push(RequestEffect::RegisterTyping {
        thread_id: "thr_1".to_string(),
    });
    assert_eq!(sent(&taken(), true), typing);
}

#[test]
fn decisions_are_logged_once_codex_has_them() {
    let request = AppServerRequest {
        method: "item/commandExecution/requestApproval".to_string(),
        ..question_request()
    };
    let response = json(r#"{ "decision": "accept" }"#);
    let sent = |result: &SendResult| {
        approval_sent(
            "question_1",
            &request,
            TelegramCallbackAction::Approve,
            &response,
            result,
            true,
            5,
        )
    };
    let failed = SendResult::Failed {
        error: "connection refused".to_string(),
    };
    assert_eq!(sent(&failed), Vec::new());
    assert_eq!(
        sent(&SendResult::Gone),
        vec![RequestEffect::Expire {
            approval_key: "question_1".to_string()
        }]
    );
    assert_eq!(
        sent(&taken()),
        vec![
            RequestEffect::MarkResponded {
                approval_key: "question_1".to_string(),
            },
            RequestEffect::Log {
                thread_id: "thr_1".to_string(),
                kind: "telegram_app_server_approval",
                record: approval_action_record(
                    "question_1",
                    &request,
                    TelegramCallbackAction::Approve,
                    &response,
                    &json(r#"{ "thread": 1 }"#),
                    5,
                ),
            },
            RequestEffect::RegisterTyping {
                thread_id: "thr_1".to_string(),
            },
        ]
    );
}

#[test]
fn settled_questions_lose_their_buttons() {
    let telegram = telegram();
    let outcome = question_outcome_text(Some("hunter2"), true, false, 2);
    assert!(!outcome.contains("hunter2"));
    let settled =
        settle_question_message(&telegram, Some(9), Some("Q?"), &outcome).expect("message");
    let edit = settled.edit.expect("the text is known");
    assert_eq!(edit.method, "editMessageText");
    assert_eq!(
        edit.payload.str_at("text"),
        Some(format!("Q?\n\n{outcome}").as_str())
    );
    assert!(edit.payload.get("reply_markup").is_none());
    assert_eq!(settled.fallback.method, "editMessageReplyMarkup");
    let unknown = settle_question_message(&telegram, Some(9), None, &outcome).expect("message");
    assert!(unknown.edit.is_none());
    assert!(settle_question_message(&telegram, None, Some("Q?"), &outcome).is_none());
}

#[test]
fn buttons_are_removed_where_the_edit_did_not() {
    assert!(!settle_follow_up(Some(true)));
    assert!(settle_follow_up(Some(false)));
    assert!(settle_follow_up(None));
}

// Deletions

#[test]
fn deletions_leave_the_queue_when_done_or_warned_about() {
    let telegram = telegram();
    let deletion = |bot: &str, chat: &str| MessageDeletion {
        bot_id: bot.to_string(),
        chat_id: chat.to_string(),
        message_id: 3,
        created_at: 0,
    };
    let own = deletion("123", "9");
    let DeletionAttempt::Call(call) = deletion_attempt(&own, &telegram) else {
        panic!("the same bot deletes in any chat");
    };
    assert_eq!(call.method, "deleteMessage");
    assert_eq!(call.payload.str_at("chat_id"), Some("9"));
    assert_eq!(
        deletion_follow_up(&own, &telegram, None, 1),
        DeletionFollowUp::Finish
    );
    assert_eq!(
        deletion_follow_up(&own, &telegram, Some("timed out"), 1),
        DeletionFollowUp::Retry
    );
    let DeletionFollowUp::Warn(warning) =
        deletion_follow_up(&own, &telegram, Some("timed out"), TELEGRAM_DELETE_WINDOW_MS)
    else {
        panic!("the user is warned");
    };
    assert_eq!(warning.payload.str_at("chat_id"), Some("9"));
    assert_eq!(
        warning.payload.str_at("text"),
        Some("⚠️ The bridge could not delete one of your secret answers to Codex. Please delete it yourself.")
    );
    let other = deletion("999", "456");
    assert_eq!(deletion_attempt(&other, &telegram), DeletionAttempt::OtherBot);
    assert!(matches!(
        deletion_follow_up(&other, &telegram, None, 1),
        DeletionFollowUp::Warn(_)
    ));
    assert_eq!(
        deletion_follow_up(&deletion("999", "9"), &telegram, None, 1),
        DeletionFollowUp::Finish
    );
    assert_eq!(warning_follow_up(true), DeletionFollowUp::Finish);
    assert_eq!(warning_follow_up(false), DeletionFollowUp::Retry);
    assert_eq!(budgeted_timeout(5, Some(3)), Some(3));
    assert_eq!(budgeted_timeout(5, Some(0)), None);
}

// Batches

#[test]
fn offsets_are_acknowledged_and_read_back() {
    let mut acked = None;
    advance_telegram_ack_offset(&mut acked, None);
    assert_eq!(acked, None);
    advance_telegram_ack_offset(&mut acked, Some(5));
    advance_telegram_ack_offset(&mut acked, Some(3));
    assert_eq!(acked, Some(5));
    for id in [0, 5, -1, i64::MIN, i64::MAX - 1] {
        let mut tally = BatchTally::new();
        tally.add_update(Some(id), Some(Counter::Ignored), UpdateEnd::Done);
        assert_eq!(tally.stored_offset(), Some(id as u64));
        assert_eq!(next_update_offset(tally.stored_offset()), Some(id + 1));
    }
    assert_eq!(next_update_offset(None), None);
    assert_eq!(telegram_offset_key("b"), "telegram_offset:b");
    assert_eq!(
        skipped_poll_report().str_at("skipped"),
        Some("cycle_deadline")
    );
    assert_eq!(BatchTally::new().stored_offset(), None);
}

#[test]
fn batches_count_every_update_once() {
    let mut tally = BatchTally::new();
    tally.add_update(Some(1), Some(Counter::Replies), UpdateEnd::Done);
    tally.add_update(Some(2), Some(Counter::CommandPromptReplies), UpdateEnd::Done);
    tally.add_update(Some(3), Some(Counter::Commands), UpdateEnd::Done);
    tally.add_update(Some(4), Some(Counter::Callbacks), UpdateEnd::Failed);
    tally.add_update(Some(5), None, UpdateEnd::Duplicate);
    tally.add_update(None, Some(Counter::Ignored), UpdateEnd::Done);
    let report = tally.report();
    for (field, count) in [
        ("seen", 6),
        ("replies", 1),
        ("commandPromptReplies", 1),
        ("commands", 1),
        ("callbacks", 1),
        ("duplicate", 1),
        ("ignored", 1),
        ("failed", 1),
    ] {
        assert_eq!(report.u64_at(field), Some(count), "{field}");
    }
    assert_eq!(tally.stored_offset(), Some(5));
}

// Deliveries and taps

fn approval_event() -> Json {
    json(
        r#"{ "type": "thread_waiting", "threadId": "thr_1", "promptKind": "approval",
             "approvalRequest": { "approvalKey": "approval_1" } }"#,
    )
}

fn stored(routes: &[codex_telegram_bridge::types::TelegramCallbackRoute]) -> Vec<StoredCallbackRoute> {
    routes
        .iter()
        .map(|route| StoredCallbackRoute {
            callback_id: route.callback_id.clone(),
            chat_id: route.chat_id.clone(),
            message_id: route.message_id,
            thread_id: route.thread_id.clone(),
            action: route.action.as_str().to_string(),
            approval_key: route.approval_key.clone(),
            question_id: route.question_id.clone(),
            answer: route.answer.clone(),
            used: false,
        })
        .collect()
}

fn tap(data: &str, message_id: i64) -> Json {
    json(&format!(
        r#"{{ "id": "q", "from": {{ "id": 789 }}, "data": "{data}",
              "message": {{ "message_id": {message_id}, "text": "T", "chat": {{ "id": 456 }} }} }}"#
    ))
}

fn buttons(payload: &Json) -> Vec<String> {
    let Some(Json::Array(rows)) = payload.get2("reply_markup", "inline_keyboard") else {
        panic!("keyboard");
    };
    rows.iter()
        .flat_map(|row| row.as_array().expect("row").iter())
        .map(|button| button.str_at("callback_data").expect("data").to_string())
        .collect()
}

#[test]
fn taps_on_delivered_buttons_are_routed_back() {
    let telegram = telegram();
    let mut prepared = prepare_telegram_delivery(
        "456",
        &approval_event(),
        "event_1".to_string(),
        Some("thr_1".to_string()),
    );
    let effects = message_sent("456", &mut prepared, true, 50);
    assert_eq!(
        effects.last(),
        Some(&DeliveryEffect::RouteMessage {
            chat_id: "456".to_string(),
            message_id: 50,
            thread_id: "thr_1".to_string(),
            event_id: "event_1".to_string(),
        })
    );
    let rows = stored(&prepared.callback_routes);
    let decisions = [
        TelegramCallbackAction::Approve,
        TelegramCallbackAction::ApproveForSession,
        TelegramCallbackAction::Deny,
    ];
    let data = buttons(&prepared.payloads[0]);
    assert_eq!(data.len(), 3);
    for (data, decision) in data.iter().zip(decisions) {
        let route = extract_telegram_callback_route(&tap(data, 50), &telegram, &rows, &Vec::new())
            .expect("tap")
            .expect("route");
        assert_eq!(route.action, decision);
        assert_eq!(route.thread_id, "thr_1");
        assert_eq!(route.approval_key.as_deref(), Some("approval_1"));
        assert!(matches!(
            buttons_looked_up(Some(1), &tap(data, 50), &telegram, &rows, &Vec::new()),
            UpdateStep::Approve { .. }
        ));
        assert!(
            extract_telegram_callback_route(&tap(data, 51), &telegram, &rows, &Vec::new())
                .expect("tap")
                .is_none()
        );
    }
    assert_eq!(
        delivery_report_json(&prepared, &vec![50]).expect("sent").u64_at("callbacks"),
        Some(3)
    );
    assert!(delivery_report_json(&prepared, &Vec::new()).is_none());
}

#[test]
fn question_messages_are_bound_before_their_buttons() {
    let telegram = telegram();
    let event = json(
        r#"{ "type": "thread_waiting", "threadId": "thr_1",
             "questionRequest": { "questionKey": "question_1", "questionId": "color", "question": "Which?",
                                  "options": [{ "label": "Red" }, { "label": "Blue" }] } }"#,
    );
    let mut prepared = prepare_telegram_delivery(
        "456",
        &event,
        "event_1".to_string(),
        Some("thr_1".to_string()),
    );
    let effects = message_sent("456", &mut prepared, true, 50);
    assert_eq!(
        effects[0],
        DeliveryEffect::RecordQuestionMessage {
            chat_id: "456".to_string(),
            message_id: 50,
            question_key: "question_1".to_string(),
            question_id: "color".to_string(),
        }
    );
    assert_eq!(effects.len(), 1 + 3 + 1);
    let rows = stored(&prepared.callback_routes);
    let copies = vec![QuestionMessage {
        chat_id: "456".to_string(),
        message_id: 40,
        question_key: "question_1".to_string(),
        question_id: "color".to_string(),
    }];
    let data = buttons(&prepared.payloads[0]);
    for (data, answer) in data.iter().zip([Some("Red"), Some("Blue"), None]) {
        for message_id in [40, 50] {
            let UpdateStep::AnswerTap { route, question_key, question_id } = buttons_looked_up(
                Some(1),
                &tap(data, message_id),
                &telegram,
                &rows,
                &copies,
            ) else {
                panic!("a question button answers its question");
            };
            assert_eq!(route.answer.as_deref(), answer);
            assert_eq!((question_key.as_str(), question_id.as_str()), ("question_1", "color"));
        }
    }
    let later = message_sent("456", &mut prepared, false, 51);
    assert_eq!(later.len(), 1);
}

fn calls(effects: &[Effect]) -> Vec<&ApiCall> {
    effects
        .iter()
        .filter_map(|effect| match effect {
            Effect::Call { call } => Some(call),
            _ => None,
        })
        .collect()
}

fn kind(effects: &[Effect]) -> Option<&'static str> {
    effects.iter().find_map(|effect| match effect {
        Effect::Record { kind, .. } => Some(*kind),
        _ => None,
    })
}

fn counted(effects: &[Effect]) -> Option<Counter> {
    effects.iter().find_map(|effect| match effect {
        Effect::Count { counter } => Some(*counter),
        _ => None,
    })
}

fn finished(step: UpdateStep) -> Vec<Effect> {
    match step {
        UpdateStep::Finish { effects } => effects,
        other => panic!("unexpected step {other:?}"),
    }
}

fn routed(action: &str, key: Option<&str>) -> (Vec<StoredCallbackRoute>, Json) {
    let rows = vec![StoredCallbackRoute {
        callback_id: "cb".to_string(),
        chat_id: "456".to_string(),
        message_id: None,
        thread_id: "thr_1".to_string(),
        action: action.to_string(),
        approval_key: key.map(str::to_string),
        question_id: None,
        answer: None,
        used: false,
    }];
    (rows, tap("codex:cb", 50))
}

#[test]
fn taps_end_in_one_log_entry_and_one_count() {
    let telegram = telegram();
    let (rows, query) = routed("approve", Some("key"));
    let UpdateStep::Approve { route, approval_key } =
        buttons_looked_up(Some(1), &query, &telegram, &rows, &Vec::new())
    else {
        panic!("approval");
    };
    assert_eq!(approval_key, "key");
    let effects = finished(approval_dispatched(
        &telegram,
        Some(1),
        &query,
        &route,
        Some(Json::Null),
    ));
    assert_eq!(kind(&effects), Some("callback_query"));
    assert_eq!(counted(&effects), Some(Counter::Callbacks));
    let effects = finished(approval_dispatched(&telegram, Some(1), &query, &route, None));
    assert_eq!(kind(&effects), Some("callback_query_expired"));
    assert_eq!(counted(&effects), Some(Counter::Ignored));
    let methods = calls(&effects)
        .iter()
        .map(|call| call.method.as_str())
        .collect::<Vec<_>>();
    assert_eq!(methods, ["editMessageReplyMarkup", "answerCallbackQuery"]);
    assert!(effects.contains(&Effect::MarkCallbackUsed {
        callback_id: "cb".to_string()
    }));
    let UpdateStep::Fail { effects, failure } = tap_failed(&route, "down".to_string()) else {
        panic!("failure");
    };
    assert_eq!(failure.error, "down");
    assert_eq!(
        calls(&effects)[0].payload.str_at("text"),
        Some("Codex is temporarily unavailable; tap again to retry")
    );

    let (rows, query) = routed("deny", None);
    assert!(matches!(
        buttons_looked_up(Some(1), &query, &telegram, &rows, &Vec::new()),
        UpdateStep::ApproveAsText { .. }
    ));

    let (rows, query) = routed("skip_question", None);
    let effects = finished(buttons_looked_up(
        Some(1),
        &query,
        &telegram,
        &rows,
        &Vec::new(),
    ));
    assert_eq!(kind(&effects), Some("callback_query_expired"));
    assert_eq!(
        effects[0],
        Effect::MarkCallbackUsed {
            callback_id: "cb".to_string()
        }
    );

    let (rows, query) = routed("unknown", None);
    let effects = finished(buttons_looked_up(
        Some(1),
        &query,
        &telegram,
        &rows,
        &Vec::new(),
    ));
    assert_eq!(kind(&effects), Some("callback_query_ignored"));
    assert_eq!(counted(&effects), Some(Counter::Ignored));
}

#[test]
fn question_taps_show_what_became_of_the_answer() {
    let telegram = telegram();
    let (mut rows, query) = routed("answer_option", Some("question_1"));
    rows[0].question_id = Some("color".to_string());
    rows[0].answer = Some("Blue".to_string());
    let UpdateStep::AnswerTap { route, .. } =
        buttons_looked_up(Some(1), &query, &telegram, &rows, &Vec::new())
    else {
        panic!("question");
    };
    for (sent, remaining, toast) in [
        (true, 0, "Sent to Codex"),
        (false, 2, "Saved: 2 more question(s) to go"),
    ] {
        let outcome = QuestionAnswerOutcome::Recorded {
            result: Json::Null,
            sent,
            remaining,
            is_secret: false,
        };
        let effects = finished(tap_answered(&telegram, Some(1), &query, &route, outcome));
        assert_eq!(kind(&effects), Some("callback_query"));
        assert_eq!(counted(&effects), Some(Counter::Callbacks));
        assert!(effects
            .iter()
            .any(|effect| matches!(effect, Effect::Settle { .. }) && !effect.required()));
        assert_eq!(calls(&effects)[0].payload.str_at("text"), Some(toast));
    }
    let effects = finished(tap_answered(
        &telegram,
        Some(1),
        &query,
        &route,
        QuestionAnswerOutcome::NeedsOption,
    ));
    assert_eq!(kind(&effects), Some("callback_query_expired"));
    assert_eq!(
        calls(&effects)[1].payload.str_at("text"),
        Some("This question is no longer pending")
    );
}

#[test]
fn replies_to_questions_are_answered_or_refused() {
    let telegram = telegram();
    let message = json(
        r#"{ "message_id": 51, "chat": { "id": 456 }, "from": { "id": 789 }, "text": "Teal",
             "reply_to_message": { "message_id": 50, "text": "Q?" } }"#,
    );
    let update = Json::Object(vec![Member {
        key: "message".to_string(),
        value: message.copy(),
    }]);
    let begin = || match begin_update(&update, &telegram) {
        UpdateStep::LookupQuestion { reply } => reply,
        other => panic!("unexpected step {other:?}"),
    };
    let found = QuestionRef {
        question_key: "question_1".to_string(),
        question_id: "color".to_string(),
    };
    let UpdateStep::CheckSecret { route } =
        question_looked_up(&message, &telegram, begin(), Some(found))
    else {
        panic!("question");
    };
    let UpdateStep::AnswerReply { before, route } = secret_checked(&telegram, route, true) else {
        panic!("answer");
    };
    assert_eq!(
        before,
        vec![
            Effect::QueueDeletion {
                bot_id: "123".to_string(),
                chat_id: "456".to_string(),
                message_id: 51,
            },
            Effect::RetryDeletions,
        ]
    );
    assert!(before.iter().all(Effect::required));
    for (outcome, expected, counter) in [
        (
            QuestionAnswerOutcome::Recorded {
                result: Json::Null,
                sent: true,
                remaining: 0,
                is_secret: true,
            },
            "telegram_question_reply",
            Counter::Replies,
        ),
        (
            QuestionAnswerOutcome::NotPending,
            "telegram_question_reply_expired",
            Counter::Ignored,
        ),
        (
            QuestionAnswerOutcome::NeedsOption,
            "telegram_question_reply_needs_option",
            Counter::Ignored,
        ),
    ] {
        let effects = finished(reply_answered(&telegram, Some(1), &route, outcome));
        assert_eq!(kind(&effects), Some(expected));
        assert_eq!(counted(&effects), Some(counter));
        assert!(!format!("{effects:?}").contains("Teal"));
    }

    let UpdateStep::LookupThread { reply } = question_looked_up(&message, &telegram, begin(), None)
    else {
        panic!("no question");
    };
    let UpdateStep::StartTurn { route } =
        thread_looked_up(&message, &telegram, reply, Some("thr".to_string()))
    else {
        panic!("thread");
    };
    assert_eq!((route.thread_id.as_str(), route.message.as_str()), ("thr", "Teal"));
    let effects = finished(turn_started(Some(1), &message, &route, Json::Null));
    assert_eq!(kind(&effects), Some("telegram_reply"));
    assert_eq!(counted(&effects), Some(Counter::Replies));
    let UpdateStep::LookupCommand { reply } = thread_looked_up(&message, &telegram, begin(), None)
    else {
        panic!("no thread");
    };
    let UpdateStep::CompleteCommand { route } = command_looked_up(
        Some(1),
        &message,
        &telegram,
        reply,
        Some(CommandRoute {
            kind: TelegramCommandRouteKind::NewThread,
            payload: Some(json(r#"{ "projectId": "p" }"#)),
        }),
    ) else {
        panic!("command");
    };
    assert_eq!(route.project_id.as_deref(), Some("p"));
    let effects = finished(command_completed(Some(1), &message, Json::Null));
    assert_eq!(kind(&effects), Some("telegram_command_prompt_reply"));
    assert_eq!(counted(&effects), Some(Counter::CommandPromptReplies));
    let effects = finished(command_run(None, &message, Json::Null));
    assert_eq!(kind(&effects), None);
    assert_eq!(counted(&effects), Some(Counter::Commands));
    assert!(extract_telegram_reply_route(&message, &telegram, None).is_none());
}

#[test]
fn strangers_and_foreign_updates_do_nothing() {
    let telegram = telegram();
    let stranger = json(
        r#"{ "update_id": 1, "message": { "chat": { "id": 456 }, "from": { "id": 1 }, "text": "/away" } }"#,
    );
    let effects = finished(begin_update(&stranger, &telegram));
    assert_eq!(kind(&effects), Some("message_ignored"));
    assert!(finished(begin_update(&json(r#"{ "update_id": 1 }"#), &telegram)).is_empty());
    let nameless = json(
        r#"{ "callback_query": { "from": { "id": 789 }, "data": "codex:x", "message": { "chat": { "id": 456 } } } }"#,
    );
    let UpdateStep::Fail { failure, .. } = begin_update(&nameless, &telegram) else {
        panic!("a tap needs an identifier");
    };
    assert_eq!(failure.error, "callback query missing id");
    assert_eq!(
        extract_telegram_callback_route(
            nameless.get("callback_query").expect("query"),
            &telegram,
            &Vec::new(),
            &Vec::new()
        ),
        Err(CallbackError::MissingId)
    );
    // A tap by a stranger is answered, but the keyboard stays.
    let foreign = json(
        r#"{ "update_id": 2, "callback_query": { "id": "q", "from": { "id": 1 }, "data": "codex:x",
             "message": { "message_id": 5, "chat": { "id": 456 } } } }"#,
    );
    let effects = finished(begin_update(&foreign, &telegram));
    assert_eq!(kind(&effects), Some("callback_query_ignored"));
    assert_eq!(calls(&effects).len(), 1);
    // Data that is not the bridge's: its own chat's keyboard is removed.
    let own = json(
        r#"{ "update_id": 2, "callback_query": { "id": "q", "from": { "id": 789 }, "data": "x",
             "message": { "message_id": 5, "chat": { "id": 456 } } } }"#,
    );
    assert_eq!(calls(&finished(begin_update(&own, &telegram))).len(), 2);
}

// Typing indicators

/// Polls a batch of updates that need no outside work, and gives the offset to store and how many
/// messages would be sent.
fn poll(updates: &[Json], processed: &mut Vec<i64>) -> (Option<u64>, usize, Json) {
    let mut tally = BatchTally::new();
    let mut sent = 0;
    for update in updates {
        let update_id = update.i64_at("update_id");
        let known = update_id.is_some_and(|id| processed.contains(&id));
        let Some(begun) = begin_unless_processed(update, &telegram(), known) else {
            tally.add_update(update_id, None, UpdateEnd::Duplicate);
            continue;
        };
        let (effects, end) = match begun {
            UpdateStep::Finish { effects } => (effects, UpdateEnd::Done),
            _ => (
                after_failure(
                    &telegram(),
                    update_id,
                    is_message_update(update),
                    &plain_failure("offline".to_string()),
                ),
                UpdateEnd::Failed,
            ),
        };
        sent += calls(&effects).len();
        for effect in &effects {
            if let Effect::Record { update_id, .. } = effect {
                processed.push(*update_id);
            }
        }
        tally.add_update(update_id, counted(&effects), end);
    }
    (tally.stored_offset(), sent, tally.report())
}

#[test]
fn polling_again_gives_only_duplicates() {
    let updates = [
        json(
            r#"{ "update_id": 41, "message": { "message_id": 1, "chat": { "id": 1 }, "from": { "id": 2 }, "text": "hi" } }"#,
        ),
        json(
            r#"{ "update_id": 42, "message": { "message_id": 2, "chat": { "id": 456 }, "from": { "id": 789 }, "text": "/status" } }"#,
        ),
    ];
    let mut processed = Vec::new();
    let (offset, sent, report) = poll(&updates, &mut processed);
    assert_eq!(offset, Some(42));
    assert_eq!(report.u64_at("failed"), Some(1));
    assert_eq!(report.u64_at("duplicate"), Some(0));
    assert!(sent > 0);
    let (again, resent, report) = poll(&updates, &mut processed);
    assert_eq!(again, offset);
    assert_eq!(resent, 0);
    assert_eq!(report.u64_at("seen"), Some(2));
    assert_eq!(report.u64_at("duplicate"), Some(2));
    assert_eq!(report.u64_at("failed"), Some(0));
}

#[test]
fn every_message_of_a_delivery_is_stored() {
    let mut prepared = prepare_telegram_delivery(
        "456",
        &approval_event(),
        "event_1".to_string(),
        Some("thr_1".to_string()),
    );
    let buttons = prepared.callback_routes.len();
    assert!(buttons > 0);
    let mut effects = Vec::new();
    for (at, message_id) in [70, 71, 72].into_iter().enumerate() {
        effects.extend(message_sent("456", &mut prepared, at == 0, message_id));
    }
    assert!(prepared
        .callback_routes
        .iter()
        .all(|route| route.message_id == Some(70)));
    for route in &prepared.callback_routes {
        assert!(effects.contains(&DeliveryEffect::BindCallback {
            callback_id: route.callback_id.clone(),
            message_id: 70,
        }));
    }
    for message_id in [70, 71, 72] {
        assert!(effects.contains(&DeliveryEffect::RouteMessage {
            chat_id: "456".to_string(),
            message_id,
            thread_id: "thr_1".to_string(),
            event_id: "event_1".to_string(),
        }));
    }
    assert_eq!(effects.len(), buttons + 3);
}

#[test]
fn a_delivery_clears_the_indicator_of_its_thread() {
    let event = approval_event();
    let of_thread = prepare_telegram_delivery(
        "456",
        &event,
        "event_1".to_string(),
        Some("thr_1".to_string()),
    );
    assert_eq!(
        typing_to_clear("456", &of_thread).as_deref(),
        Some("telegram_typing:456:thr_1")
    );
    let of_none = prepare_telegram_delivery("456", &event, "event_1".to_string(), None);
    assert_eq!(typing_to_clear("456", &of_none), None);
}

#[test]
fn typing_is_shown_until_it_expires() {
    assert_eq!(telegram_typing_key("456", "thr"), "telegram_typing:456:thr");
    let record = new_typing_record("456", "thr", 1_000);
    assert_eq!(record.u64_at("until"), Some(121_000));
    assert_eq!(record.u64_at("nextAt"), Some(1_000));
    let TypingStep::Show { refreshed } = typing_step(Some(&record), "456", 1_000) else {
        panic!("shown at once");
    };
    assert_eq!(refreshed.u64_at("nextAt"), Some(5_000));
    assert_eq!(refreshed.u64_at("until"), Some(121_000));
    assert_eq!(refreshed.str_at("threadId"), Some("thr"));
    assert_eq!(typing_step(Some(&refreshed), "456", 4_999), TypingStep::Wait);
    assert_eq!(
        typing_step(Some(&refreshed), "9", 4_999),
        TypingStep::OtherChat
    );
    assert_eq!(
        typing_step(Some(&refreshed), "456", 121_000),
        TypingStep::Expire
    );
    assert_eq!(typing_step(None, "456", 0), TypingStep::Expire);
    let mut tally = TypingTally::new();
    for end in [
        TypingEnd::Expired,
        TypingEnd::OtherChat,
        TypingEnd::Waiting,
        TypingEnd::Shown,
        TypingEnd::Failed,
    ] {
        tally.add_indicator(end);
    }
    let report = tally.report();
    assert_eq!(report.bool_at("ok"), Some(false));
    for (field, count) in [("active", 3), ("sent", 1), ("expired", 1), ("failed", 1)] {
        assert_eq!(report.u64_at(field), Some(count), "{field}");
    }
}

#[test]
fn members_that_are_set_are_read_back() {
    let object = json(r#"{ "a": 1, "b": 2 }"#);
    let changed = object.insert("a", Json::Int(3)).insert("c", Json::Int(4));
    assert_eq!(changed, json(r#"{ "a": 3, "b": 2, "c": 4 }"#));
    assert_eq!(Json::Int(1).insert("a", Json::Null), Json::Int(1));
}
