use std::time::Duration;
use std::time::Instant;

use codex_telegram_bridge::batch::after_failure;
use codex_telegram_bridge::batch::BatchTally;
use codex_telegram_bridge::batch::Counter;
use codex_telegram_bridge::batch::Effect;
use codex_telegram_bridge::batch::UpdateEnd;
use codex_telegram_bridge::deletions::budgeted_timeout;
use codex_telegram_bridge::deletions::message_deletion_step;
use codex_telegram_bridge::deletions::MessageDeletionStep;
use codex_telegram_bridge::deletions::TELEGRAM_DELETE_WINDOW_MS;
use codex_telegram_bridge::inbound::extract_telegram_callback_route;
use codex_telegram_bridge::inbound::extract_telegram_command;
use codex_telegram_bridge::inbound::extract_telegram_question_reply;
use codex_telegram_bridge::inbound::parse_telegram_command_text;
use codex_telegram_bridge::inbound::parse_telegram_threads_limit;
use codex_telegram_bridge::inbound::QuestionMessage;
use codex_telegram_bridge::inbound::QuestionRef;
use codex_telegram_bridge::inbound::StoredCallbackRoute;
use codex_telegram_bridge::inbound::TelegramInboundCommand;
use codex_telegram_bridge::json::Json;
use codex_telegram_bridge::json::Member;
use codex_telegram_bridge::questions::answer_sent;
use codex_telegram_bridge::questions::begin_answer;
use codex_telegram_bridge::questions::question_for_answer;
use codex_telegram_bridge::questions::question_is_secret;
use codex_telegram_bridge::questions::question_outcome_text;
use codex_telegram_bridge::questions::question_summary;
use codex_telegram_bridge::questions::saved_answer_outcome;
use codex_telegram_bridge::questions::sent_answer_outcome;
use codex_telegram_bridge::questions::settled_question_text;
use codex_telegram_bridge::questions::AnswerRefusal;
use codex_telegram_bridge::questions::AnswerStep;
use codex_telegram_bridge::questions::AppServerQuestion;
use codex_telegram_bridge::questions::AppServerRequest;
use codex_telegram_bridge::questions::HeldAnswer;
use codex_telegram_bridge::questions::QuestionAnswerOutcome;
use codex_telegram_bridge::questions::TransportInfo;
use codex_telegram_bridge::render::TELEGRAM_MESSAGE_CHAR_LIMIT;
use codex_telegram_bridge::turns::send_result;
use codex_telegram_bridge::turns::ReplayAttempt;
use codex_telegram_bridge::turns::RequestEffect;
use codex_telegram_bridge::turns::SendResult;
use codex_telegram_bridge::types::TelegramConfig;
use codex_telegram_bridge::updates::batch_step;
use codex_telegram_bridge::updates::begin_update;
use codex_telegram_bridge::updates::command_looked_up;
use codex_telegram_bridge::updates::is_message_update;
use codex_telegram_bridge::updates::question_looked_up;
use codex_telegram_bridge::updates::reply_failed;
use codex_telegram_bridge::updates::telegram_update_id;
use codex_telegram_bridge::updates::thread_looked_up;
use codex_telegram_bridge::updates::BatchStep;
use codex_telegram_bridge::updates::UpdateStep;
use serde_json::Value;

fn lib(value: &Value) -> Json {
    match value {
        Value::Null => Json::Null,
        Value::Bool(b) => Json::Bool(*b),
        Value::Number(n) => match (n.as_i64(), n.as_u64()) {
            (Some(i), _) => Json::Int(i as i128),
            (None, Some(u)) => Json::Int(u as i128),
            (None, None) => Json::Float(n.to_string()),
        },
        Value::String(s) => Json::Str(s.clone()),
        Value::Array(items) => Json::Array(items.iter().map(lib).collect()),
        Value::Object(map) => Json::Object(
            map.iter().map(|(key, value)| Member { key: key.clone(), value: lib(value) }).collect(),
        ),
    }
}

fn json(text: &str) -> Json {
    lib(&serde_json::from_str(text).expect("json"))
}

fn telegram() -> TelegramConfig {
    TelegramConfig {
        bot_token: "123:secret".to_string(),
        chat_id: "456".to_string(),
        allowed_user_id: Some("789".to_string()),
    }
}

#[test]
fn telegram_command_parser_supports_core_commands() {
    assert_eq!(
        parse_telegram_command_text("/away"),
        Some(TelegramInboundCommand::Away)
    );
    assert_eq!(
        parse_telegram_command_text("/back@codex_bridge_bot"),
        Some(TelegramInboundCommand::Back)
    );
    assert_eq!(
        parse_telegram_command_text("/repair"),
        Some(TelegramInboundCommand::Repair)
    );
    assert_eq!(
        parse_telegram_command_text("/new Fix the formatter"),
        Some(TelegramInboundCommand::NewThread(Some(
            "Fix the formatter".to_string()
        )))
    );
    assert_eq!(
        parse_telegram_command_text("/new"),
        Some(TelegramInboundCommand::NewThread(None))
    );
    assert_eq!(
        parse_telegram_command_text("/project bridge"),
        Some(TelegramInboundCommand::Project(Some("bridge".to_string())))
    );
    assert_eq!(
        parse_telegram_command_text("/project"),
        Some(TelegramInboundCommand::Project(None))
    );
    for removed in [
        "/away_on",
        "/away_off",
        "/live_on",
        "/live_reset",
        "/new_thread",
        "/projects",
        "/inbox",
        "/waiting",
        "/recent",
        "/settings",
    ] {
        assert_eq!(
            parse_telegram_command_text(removed),
            Some(TelegramInboundCommand::Unknown(removed.to_string())),
            "removed command should not parse as a supported command: {removed}"
        );
    }
    assert_eq!(
        parse_telegram_command_text("/unknown"),
        Some(TelegramInboundCommand::Unknown("/unknown".to_string()))
    );
}

#[test]
fn telegram_command_extraction_requires_standalone_authorized_message() {
    let telegram = telegram();

    let command = extract_telegram_command(
        &json(r#"{ "chat": { "id": "456" }, "from": { "id": "789" }, "text": "/status" }"#),
        &telegram,
    );
    assert_eq!(command, Some(TelegramInboundCommand::Status));

    let reply_command = extract_telegram_command(
        &json(
            r#"{
                "chat": { "id": "456" },
                "from": { "id": "789" },
                "text": "/status",
                "reply_to_message": { "message_id": 1 }
            }"#,
        ),
        &telegram,
    );
    assert_eq!(reply_command, None);

    let unauthorized = extract_telegram_command(
        &json(r#"{ "chat": { "id": "999" }, "from": { "id": "789" }, "text": "/status" }"#),
        &telegram,
    );
    assert_eq!(unauthorized, None);
}

fn request(request_id: Json, item_id: &str) -> AppServerRequest {
    AppServerRequest {
        approval_key: "question_1".to_string(),
        request_id,
        method: "item/tool/requestUserInput".to_string(),
        thread_id: "thr_1".to_string(),
        turn_id: "turn_1".to_string(),
        item_id: item_id.to_string(),
    }
}

fn question(id: &str, accepts_free_text: bool, is_secret: bool) -> AppServerQuestion {
    AppServerQuestion {
        id: id.to_string(),
        accepts_free_text,
        is_secret,
    }
}

/// A pending request, the answers that are held for it, and what Codex got.
struct Store {
    request: AppServerRequest,
    questions: Vec<AppServerQuestion>,
    held: Vec<(String, Option<String>)>,
    pending: bool,
    responses: Vec<Json>,
}

impl Store {
    fn new(request: AppServerRequest, questions: Vec<AppServerQuestion>) -> Store {
        Store {
            request,
            questions,
            held: Vec::new(),
            pending: true,
            responses: Vec::new(),
        }
    }

    fn held(&self) -> Vec<HeldAnswer> {
        self.held
            .iter()
            .map(|(question_id, answer)| HeldAnswer {
                question_id: question_id.clone(),
                answer: answer.clone(),
            })
            .collect()
    }

    fn store(&mut self, effects: Vec<RequestEffect>) {
        for effect in effects {
            match effect {
                RequestEffect::Expire { .. } | RequestEffect::MarkResponded { .. } => {
                    self.pending = false;
                    self.held.clear();
                }
                RequestEffect::StoreAnswer {
                    question_id,
                    answer,
                    ..
                } => self.held.push((question_id, answer)),
                RequestEffect::Log { .. } | RequestEffect::RegisterTyping { .. } => {}
            }
        }
    }

    /// Takes an answer; Codex replays the request where `online` is set, and cannot be reached
    /// otherwise.
    fn answer(
        &mut self,
        id: &str,
        answer: Option<&str>,
        free_text: bool,
        now: u64,
        online: bool,
    ) -> Result<QuestionAnswerOutcome, String> {
        let questions = self.pending.then_some(&self.questions);
        let summary = |remaining: usize| {
            question_summary("question_1", id, answer.is_none(), free_text, remaining)
        };
        match begin_answer(questions, self.held(), id, answer, free_text) {
            AnswerStep::Refused {
                refusal: AnswerRefusal::NotPending,
            } => Ok(QuestionAnswerOutcome::NotPending),
            AnswerStep::Refused {
                refusal: AnswerRefusal::NeedsOption,
            } => Ok(QuestionAnswerOutcome::NeedsOption),
            AnswerStep::Hold { plan } => {
                self.held.push((id.to_string(), answer.map(str::to_string)));
                let summary = summary(plan.remaining);
                Ok(saved_answer_outcome(&self.request, &plan, summary, true, now))
            }
            AnswerStep::Send { plan, response } => {
                let attempt = if online {
                    self.responses.push(response);
                    ReplayAttempt::Answered {
                        resumed: Json::Null,
                        transport: TransportInfo {
                            transport: "shared_websocket".to_string(),
                            app_server_pid: None,
                        },
                    }
                } else {
                    ReplayAttempt::NotConnected {
                        error: "connection refused".to_string(),
                    }
                };
                let result = send_result(attempt);
                let effects = answer_sent(
                    "question_1",
                    id,
                    answer,
                    &self.request,
                    &plan.answers,
                    &result,
                    false,
                    now,
                );
                self.store(effects);
                let reached = match &result {
                    SendResult::Failed { error } => return Err(error.clone()),
                    SendResult::Gone => None,
                    SendResult::Taken { transport, .. } => Some(transport),
                };
                let summary = summary(plan.remaining);
                Ok(sent_answer_outcome(&self.request, &plan, summary, reached, now))
            }
        }
    }
}

#[test]
fn telegram_question_answers_are_held_until_every_question_is_settled() {
    let mut store = Store::new(
        request(Json::Int(7), "call_1"),
        vec![question("color", true, false), question("size", true, false)],
    );

    // The first answer is only saved: Codex takes all answers in one response.
    match store
        .answer("color", Some("Blue"), false, 1100, true)
        .expect("first answer")
    {
        QuestionAnswerOutcome::Recorded { sent, remaining, .. } => {
            assert!(!sent);
            assert_eq!(remaining, 1);
        }
        other => panic!("unexpected outcome {other:?}"),
    }
    assert!(store.responses.is_empty());
    // A second tap on the same question can never overwrite the first answer.
    assert_eq!(
        store.answer("color", Some("Red"), false, 1101, true),
        Ok(QuestionAnswerOutcome::NotPending)
    );

    // The last open question sends everything, including a free-form "Other" answer.
    match store
        .answer("size", Some("Medium, between the two"), true, 1102, true)
        .expect("last answer")
    {
        QuestionAnswerOutcome::Recorded { sent, result, .. } => {
            assert!(sent);
            assert_eq!(result.str_at("action"), Some("telegram_app_server_question"));
        }
        other => panic!("unexpected outcome {other:?}"),
    }
    assert!(!store.pending);
    assert!(store.held.is_empty());
    assert_eq!(
        store.answer("size", None, false, 1103, true),
        Ok(QuestionAnswerOutcome::NotPending)
    );

    assert_eq!(store.request.request_id, Json::Int(7));
    assert_eq!(
        store.responses,
        vec![json(
            r#"{
                "answers": {
                    "color": { "answers": ["Blue"] },
                    "size": { "answers": ["Medium, between the two"] }
                }
            }"#
        )]
    );
}

#[test]
fn telegram_question_skip_sends_no_answer_and_option_only_questions_refuse_free_text() {
    let mut store = Store::new(
        request(Json::Str("req-8".to_string()), "call_2"),
        vec![question("plan", false, false)],
    );

    assert_eq!(
        store.answer("plan", Some("whatever"), true, 1100, true),
        Ok(QuestionAnswerOutcome::NeedsOption)
    );
    match store
        .answer("plan", None, false, 1101, true)
        .expect("skip")
    {
        QuestionAnswerOutcome::Recorded { sent, .. } => assert!(sent),
        other => panic!("unexpected outcome {other:?}"),
    }
    assert_eq!(store.request.request_id, Json::Str("req-8".to_string()));
    assert_eq!(store.responses, vec![json(r#"{ "answers": {} }"#)]);
}

#[test]
fn a_failed_send_can_be_retried() {
    let mut store = Store::new(
        request(Json::Int(7), "call_1"),
        vec![question("color", true, false)],
    );
    assert_eq!(
        store.answer("color", Some("Blue"), false, 1100, false),
        Err("connection refused".to_string())
    );
    assert!(store.pending);
    assert!(store.held.is_empty());
    match store
        .answer("color", Some("Red"), false, 1101, true)
        .expect("retry")
    {
        QuestionAnswerOutcome::Recorded { sent, .. } => assert!(sent),
        other => panic!("unexpected outcome {other:?}"),
    }
    assert_eq!(
        store.responses,
        vec![json(r#"{ "answers": { "color": { "answers": ["Red"] } } }"#)]
    );
}

#[test]
fn a_reply_to_a_question_message_is_a_question_answer_not_a_new_turn() {
    let telegram = telegram();
    let found = || {
        Some(QuestionRef {
            question_key: "question_1".to_string(),
            question_id: "color".to_string(),
        })
    };
    let reply = json(
        r#"{
            "message_id": 51,
            "chat": { "id": 456 },
            "from": { "id": 789 },
            "text": "  Teal, please ",
            "reply_to_message": { "message_id": 50, "text": "❓ Codex has a question" }
        }"#,
    );

    let routed =
        extract_telegram_question_reply(&reply, &telegram, found()).expect("question reply");
    assert_eq!(routed.question_key, "question_1");
    assert_eq!(routed.question_id, "color");
    assert_eq!(routed.text, "Teal, please");
    assert_eq!(routed.message_id, Some(51));
    assert_eq!(routed.question_message_id, 50);
    assert_eq!(
        routed.question_message_text.as_deref(),
        Some("❓ Codex has a question")
    );

    // The reply would continue a thread too, but is never asked about one.
    let update = Json::Object(vec![Member {
        key: "message".to_string(),
        value: reply.copy(),
    }]);
    let UpdateStep::LookupQuestion { reply: looked_up } = begin_update(&update, &telegram) else {
        panic!("a reply is looked up as an answer first");
    };
    assert_eq!((looked_up.chat_id.as_str(), looked_up.reply_to), ("456", 50));
    assert!(matches!(
        question_looked_up(&reply, &telegram, looked_up, found()),
        UpdateStep::CheckSecret { .. }
    ));

    // A settled question is still recognised, so its late replies are refused rather
    // than falling through to the ordinary reply route and starting a turn.
    assert!(extract_telegram_question_reply(&reply, &telegram, found()).is_some());
    assert_eq!(
        question_for_answer(None, "color", true),
        Err(AnswerRefusal::NotPending)
    );

    let stranger = json(
        r#"{
            "message_id": 52,
            "chat": { "id": 456 },
            "from": { "id": 999 },
            "text": "Red",
            "reply_to_message": { "message_id": 50 }
        }"#,
    );
    assert!(extract_telegram_question_reply(&stranger, &telegram, found()).is_none());
}

#[test]
fn secret_reply_deletion_retries_until_telegram_refuses_or_the_window_closes() {
    let created = 1_000_000;
    assert_eq!(
        message_deletion_step(None, created, created),
        MessageDeletionStep::Done
    );
    assert_eq!(
        message_deletion_step(
            Some("Bad Request: message to delete not found"),
            created,
            created
        ),
        MessageDeletionStep::Done,
        "already gone counts as deleted"
    );
    assert_eq!(
        message_deletion_step(Some("request failed: timed out"), created, created + 60_000),
        MessageDeletionStep::Retry
    );
    assert_eq!(
        message_deletion_step(
            Some("request failed: timed out"),
            created,
            created + TELEGRAM_DELETE_WINDOW_MS
        ),
        MessageDeletionStep::GiveUp
    );
    assert_eq!(
        message_deletion_step(
            Some("Bad Request: message can't be deleted"),
            created,
            created
        ),
        MessageDeletionStep::GiveUp
    );
}

#[test]
fn question_buttons_work_on_every_delivered_copy_of_the_question() {
    let telegram = telegram();
    let rows = vec![StoredCallbackRoute {
        callback_id: "cb_q".to_string(),
        chat_id: "456".to_string(),
        // Rebound to the copy an outbox retry sent last.
        message_id: Some(60),
        thread_id: "thr_1".to_string(),
        action: "answer_option".to_string(),
        approval_key: Some("question_1".to_string()),
        question_id: Some("color".to_string()),
        answer: Some("Blue".to_string()),
        used: false,
    }];
    let copies = [50, 60]
        .into_iter()
        .map(|message_id| QuestionMessage {
            chat_id: "456".to_string(),
            message_id,
            question_key: "question_1".to_string(),
            question_id: "color".to_string(),
        })
        .collect::<Vec<_>>();
    let tap = |message_id: i64| {
        json(&format!(
            r#"{{
                "id": "cbq",
                "from": {{ "id": 789 }},
                "data": "codex:cb_q",
                "message": {{ "message_id": {message_id}, "chat": {{ "id": 456 }} }}
            }}"#
        ))
    };

    let original = extract_telegram_callback_route(&tap(50), &telegram, &rows, &copies)
        .expect("extract original")
        .expect("the original copy still answers the question");
    assert_eq!(original.answer.as_deref(), Some("Blue"));
    assert!(extract_telegram_callback_route(&tap(60), &telegram, &rows, &copies)
        .expect("extract copy")
        .is_some());
    assert!(
        extract_telegram_callback_route(&tap(70), &telegram, &rows, &copies)
            .expect("extract unrelated")
            .is_none(),
        "a button id replayed on an unrelated message is rejected"
    );
}

#[test]
fn a_question_stays_secret_after_its_request_is_settled() {
    let questions = vec![question("token", true, true), question("name", true, false)];
    assert!(question_is_secret(Some(&questions), "token"));
    assert!(!question_is_secret(Some(&questions), "name"));
    // The questions of a settled request no longer take answers, and stay as secret as they were.
    assert_eq!(
        question_for_answer(None, "token", true),
        Err(AnswerRefusal::NotPending)
    );
    assert!(
        question_is_secret(Some(&questions), "token"),
        "a late reply to a settled secret question must still be deleted"
    );
    assert!(!question_is_secret(None, "token"));
}

#[test]
fn a_long_answer_still_fits_into_the_settled_question_message() {
    let original = "❓ Codex has a question\n".to_string() + &"question ".repeat(400);
    let answer = "a very long free-text answer ".repeat(300);
    let outcome = question_outcome_text(Some(&answer), false, true, 0);
    assert!(original.chars().count() < 3900 && outcome.chars().count() > 4096);

    let text = settled_question_text(&original, &outcome);

    assert!(text.chars().count() <= TELEGRAM_MESSAGE_CHAR_LIMIT);
    assert!(text.starts_with("❓ Codex has a question\nquestion"));
    assert!(text.contains("\n\n✅ Answer: a very long free-text answer"));
    assert!(text.ends_with('…'));

    let short = settled_question_text("Q?", "✅ Answer: Blue\n📤 Sent to Codex.");
    assert_eq!(short, "Q?\n\n✅ Answer: Blue\n📤 Sent to Codex.");
}

#[test]
fn request_timeouts_are_cut_to_the_remaining_cycle_budget() {
    let timeout = Duration::from_secs(10);
    let budgeted = |deadline: Option<Instant>| {
        let remaining = deadline
            .map(|deadline| deadline.saturating_duration_since(Instant::now()).as_nanos());
        budgeted_timeout(timeout.as_nanos(), remaining)
            .map(|nanos| Duration::from_nanos(nanos as u64))
    };
    assert_eq!(budgeted(None), Some(timeout));
    assert_eq!(
        budgeted(Some(Instant::now() - Duration::from_secs(1))),
        None,
        "a spent budget skips the request"
    );
    let cut = budgeted(Some(Instant::now() + Duration::from_secs(2))).expect("budget left");
    assert!(cut <= Duration::from_secs(2) && !cut.is_zero());
    assert_eq!(
        budgeted(Some(Instant::now() + Duration::from_secs(60))),
        Some(timeout)
    );
}

#[test]
fn question_outcome_text_hides_secret_answers() {
    assert_eq!(
        question_outcome_text(Some("Blue"), false, true, 0),
        "✅ Answer: Blue\n📤 Sent to Codex."
    );
    assert_eq!(
        question_outcome_text(Some("hunter2"), true, false, 1),
        "✅ Answered (hidden)\n💾 Saved. Codex gets it once the other 1 question(s) are settled."
    );
    assert!(question_outcome_text(None, false, true, 0).starts_with("⏭ Skipped"));
}

/// Runs updates as a host does whose store knows one thread and whose Codex cannot be reached.
struct Host {
    telegram: TelegramConfig,
    processed: Vec<i64>,
    offset: Option<u64>,
    told: Vec<String>,
    /// Why turns cannot be started.
    error: &'static str,
}

impl Host {
    fn carry_out(&mut self, effects: Vec<Effect>) -> Option<Counter> {
        let mut counter = None;
        for effect in effects {
            match effect {
                Effect::Record { update_id, .. } => self.processed.push(update_id),
                Effect::Count { counter: counted } => counter = Some(counted),
                Effect::Call { call } => {
                    self.told
                        .push(call.payload.str_at("text").expect("text").to_string());
                }
                other => panic!("unexpected effect {other:?}"),
            }
        }
        counter
    }

    fn run(&mut self, updates: &Vec<Json>, expired: bool) -> Json {
        let mut tally = BatchTally::new();
        for (at, update) in updates.iter().enumerate() {
            let update_id = match batch_step(updates, at, expired) {
                BatchStep::End => break,
                BatchStep::Process => None,
                BatchStep::CheckProcessed { update_id } => Some(update_id),
            };
            assert_eq!(update_id, telegram_update_id(update));
            if update_id.is_some_and(|id| self.processed.contains(&id)) {
                tally.add_update(update_id, None, UpdateEnd::Duplicate);
                continue;
            }
            let message = update.get("message").expect("message");
            let mut step = begin_update(update, &self.telegram);
            loop {
                step = match step {
                    UpdateStep::LookupQuestion { reply } => {
                        question_looked_up(message, &self.telegram, reply, None)
                    }
                    UpdateStep::LookupThread { reply } => {
                        let found = (reply.reply_to == 10).then_some("thr_failing".to_string());
                        thread_looked_up(message, &self.telegram, reply, found)
                    }
                    UpdateStep::LookupCommand { reply } => {
                        command_looked_up(update_id, message, &self.telegram, reply, None)
                    }
                    UpdateStep::StartTurn { route } => {
                        assert_eq!(route.thread_id, "thr_failing");
                        reply_failed(&route.thread_id, "ws://127.0.0.1:9", self.error.to_string())
                    }
                    UpdateStep::Finish { effects } => {
                        let counter = self.carry_out(effects);
                        tally.add_update(update_id, counter, UpdateEnd::Done);
                        break;
                    }
                    UpdateStep::Fail { effects, failure } => {
                        let counter = self.carry_out(effects);
                        let effects = after_failure(
                            &self.telegram,
                            update_id,
                            is_message_update(update),
                            &failure,
                        );
                        self.carry_out(effects);
                        tally.add_update(update_id, counter, UpdateEnd::Failed);
                        break;
                    }
                    other => panic!("unexpected step {other:?}"),
                };
            }
        }
        if let Some(offset) = tally.stored_offset() {
            self.offset = Some(offset);
        }
        tally.report()
    }
}

fn host() -> Host {
    Host {
        telegram: telegram(),
        processed: Vec::new(),
        offset: None,
        told: Vec::new(),
        error: "connection refused",
    }
}

#[test]
fn a_reply_to_a_thread_that_another_session_holds_is_explained() {
    let mut host = host();
    host.error = "JSON-RPC error -32600: thread thr_failing already has an active writer";
    let updates = vec![json(
        r#"{
            "update_id": 1,
            "message": {
                "message_id": 11,
                "chat": { "id": "456" },
                "from": { "id": "789" },
                "reply_to_message": { "message_id": 10 },
                "text": "continue please"
            }
        }"#,
    )];

    let report = host.run(&updates, false);

    assert_eq!(report.u64_at("failed"), Some(1));
    assert_eq!(host.offset, Some(1));
    assert_eq!(host.processed, vec![1]);
    assert_eq!(host.told.len(), 1);
    let told = &host.told[0];
    assert!(told.contains("another Codex session"));
    assert!(told.contains("codex resume thr_failing --remote ws://127.0.0.1:9"));
    assert!(!told.contains("JSON-RPC"));
    assert!(!told.contains("active writer"));
}

#[test]
fn failing_telegram_update_is_acked_and_does_not_block_later_updates() {
    let mut host = host();
    let updates = vec![
        json(
            r#"{
                "update_id": 1,
                "message": {
                    "message_id": 11,
                    "chat": { "id": "456" },
                    "from": { "id": "789" },
                    "reply_to_message": { "message_id": 10 },
                    "text": "continue please"
                }
            }"#,
        ),
        json(
            r#"{
                "update_id": 2,
                "message": {
                    "message_id": 12,
                    "chat": { "id": "456" },
                    "from": { "id": "789" },
                    "text": "plain message"
                }
            }"#,
        ),
    ];

    let first = host.run(&updates, false);

    // The routed reply fails (the shared backend is unreachable) but is acked
    // as an error, and the later message is still processed: the channel does
    // not wedge.
    assert_eq!(first.u64_at("failed"), Some(1));
    assert_eq!(first.u64_at("replies"), Some(0));
    assert_eq!(first.u64_at("ignored"), Some(1));
    assert_eq!(host.offset, Some(2));
    assert_eq!(
        host.told,
        vec!["Your message could not be processed: connection refused"]
    );

    // Re-polling the same updates reports duplicates instead of re-failing forever.
    let second = host.run(&updates, false);
    assert_eq!(second.u64_at("duplicate"), Some(2));
    assert_eq!(second.u64_at("failed"), Some(0));
}

#[test]
fn parses_threads_command_with_optional_limit() {
    assert_eq!(
        parse_telegram_command_text("/threads"),
        Some(TelegramInboundCommand::Threads(None))
    );
    assert_eq!(
        parse_telegram_command_text("/threads 12"),
        Some(TelegramInboundCommand::Threads(Some("12".to_string())))
    );
    assert_eq!(
        parse_telegram_command_text("/threads@codex_remote_bot 3"),
        Some(TelegramInboundCommand::Threads(Some("3".to_string())))
    );
}

#[test]
fn parses_threads_limit_with_default_and_bounds() {
    assert_eq!(parse_telegram_threads_limit(None).expect("default"), 5);
    assert_eq!(
        parse_telegram_threads_limit(Some("10")).expect("explicit"),
        10
    );
    assert!(parse_telegram_threads_limit(Some("0")).is_err());
    assert!(parse_telegram_threads_limit(Some("26")).is_err());
    assert!(parse_telegram_threads_limit(Some("two")).is_err());
}

#[test]
fn telegram_batch_deadline_does_not_advance_offset_past_unacked_updates() {
    let mut host = host();
    let updates = vec![
        json(
            r#"{
                "update_id": 1,
                "message": {
                    "message_id": 10,
                    "chat": { "id": "456" },
                    "from": { "id": "789" },
                    "text": "plain message"
                }
            }"#,
        ),
        json(
            r#"{
                "update_id": 2,
                "message": {
                    "message_id": 11,
                    "chat": { "id": "456" },
                    "from": { "id": "789" },
                    "text": "plain message"
                }
            }"#,
        ),
    ];

    let expired = host.run(&updates, true);
    assert_eq!(expired.u64_at("seen"), Some(0));
    assert_eq!(host.offset, None);

    let full = host.run(&updates, false);
    assert_eq!(full.u64_at("ignored"), Some(2));
    assert_eq!(host.offset, Some(2));
}

#[test]
fn telegram_callback_route_is_consumed_after_use() {
    let telegram = telegram();
    let mut rows = vec![StoredCallbackRoute {
        callback_id: "cb_1".to_string(),
        chat_id: "456".to_string(),
        message_id: None,
        thread_id: "thr_1".to_string(),
        action: "approve".to_string(),
        approval_key: None,
        question_id: None,
        answer: None,
        used: false,
    }];
    let callback_query = json(
        r#"{
            "id": "cq_1",
            "from": { "id": 789 },
            "message": { "message_id": 10, "chat": { "id": "456" } },
            "data": "codex:cb_1"
        }"#,
    );

    let route = extract_telegram_callback_route(&callback_query, &telegram, &rows, &Vec::new())
        .expect("route");
    assert!(route.is_some());

    rows[0].used = true;
    let after = extract_telegram_callback_route(&callback_query, &telegram, &rows, &Vec::new())
        .expect("after");
    assert!(after.is_none());
}
