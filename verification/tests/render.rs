use codex_telegram_bridge::delivery::prepare_telegram_delivery;
use codex_telegram_bridge::delivery::prepare_telegram_thread_snapshot_delivery;
use codex_telegram_bridge::delivery::thread_snapshot_event;
use codex_telegram_bridge::delivery::PreparedTelegramDelivery;
use codex_telegram_bridge::delivery::SnapshotError;
use codex_telegram_bridge::inbound::parse_telegram_command_text;
use codex_telegram_bridge::inbound::TelegramInboundCommand;
use codex_telegram_bridge::json::Json;
use codex_telegram_bridge::json::Member;
use codex_telegram_bridge::render::compact_telegram_file_reference;
use codex_telegram_bridge::render::option_button_text;
use codex_telegram_bridge::render::option_letter;
use codex_telegram_bridge::render::option_marker;
use codex_telegram_bridge::render::sanitize_telegram_detail;
use codex_telegram_bridge::render::split_telegram_text;
use codex_telegram_bridge::render::telegram_callback_id;
use codex_telegram_bridge::render::telegram_help_text;
use codex_telegram_bridge::render::telegram_live_backend_status_line;
use codex_telegram_bridge::render::telegram_new_thread_confirmation_text;
use codex_telegram_bridge::render::telegram_project_text;
use codex_telegram_bridge::render::telegram_projects_text;
use codex_telegram_bridge::render::telegram_question_callback_id;
use codex_telegram_bridge::render::telegram_status_text;
use codex_telegram_bridge::render::trim_for_telegram_detail;
use codex_telegram_bridge::render::trim_for_telegram_line;
use codex_telegram_bridge::render::truncate_to_char_limit;
use codex_telegram_bridge::render::LiveBackendReport;
use codex_telegram_bridge::render::LiveBackendStatus;
use codex_telegram_bridge::render::TELEGRAM_BUTTON_TEXT_UTF16_LIMIT;
use codex_telegram_bridge::render::TELEGRAM_MESSAGE_CHAR_LIMIT;
use codex_telegram_bridge::types::BridgeThreadSnapshot;
use codex_telegram_bridge::types::ObservedWorkspace;
use codex_telegram_bridge::types::PendingPrompt;
use codex_telegram_bridge::types::RegisteredProject;
use codex_telegram_bridge::types::TelegramCallbackAction;
use serde_json::Value;

fn lib(value: &Value) -> Json {
    match value {
        Value::Null => Json::Null,
        Value::Bool(b) => Json::Bool(*b),
        Value::Number(n) => match (n.as_i64(), n.as_u64()) {
            (Some(i), _) => Json::Int(i as i128),
            (None, Some(u)) => Json::Int(u as i128),
            (None, None) => Json::Float(n.to_string()),
        },
        Value::String(s) => Json::Str(s.clone()),
        Value::Array(items) => Json::Array(items.iter().map(lib).collect()),
        Value::Object(map) => Json::Object(
            map.iter().map(|(key, value)| Member { key: key.clone(), value: lib(value) }).collect(),
        ),
    }
}

fn json(text: &str) -> Json {
    lib(&serde_json::from_str(text).expect("json"))
}

fn deliver(chat_id: &str, event: &Json) -> PreparedTelegramDelivery {
    let event_id = event.str_at("eventKey").unwrap_or("event_1").to_string();
    let thread_id = event.str_at("threadId").map(str::to_string);
    prepare_telegram_delivery(chat_id, event, event_id, thread_id)
}

fn text_of(payload: &Json) -> &str {
    payload.str_at("text").expect("telegram text")
}

fn keyboard_of(payload: &Json) -> &Vec<Json> {
    payload
        .get2("reply_markup", "inline_keyboard")
        .and_then(Json::as_array)
        .expect("inline keyboard")
}

fn row(keyboard: &Vec<Json>, at: usize) -> &Vec<Json> {
    keyboard[at].as_array().expect("row")
}

#[test]
fn telegram_message_payload_contains_reply_buttons_for_approval_events() {
    let event = json(
        r#"{
            "type": "thread_waiting",
            "threadId": "thr_approval",
            "updatedAt": 42,
            "approvalRequest": {
                "approvalKey": "approval_exact_request",
                "summary": "Deploy to production?"
            },
            "thread": {
                "displayName": "Approve deploy",
                "project": "infra",
                "pendingPrompt": {
                    "promptKind": "approval",
                    "question": "Deploy to production?"
                },
                "lastPreview": "Need approval"
            }
        }"#,
    );

    let prepared = deliver("999", &event);

    assert_eq!(prepared.thread_id.as_deref(), Some("thr_approval"));
    assert_eq!(prepared.payloads.len(), 1);
    assert_eq!(prepared.callback_routes.len(), 3);
    let keyboard = keyboard_of(&prepared.payloads[0]);
    assert_eq!(keyboard.len(), 2);
    let allow_buttons = row(keyboard, 0);
    let deny_buttons = row(keyboard, 1);
    assert_eq!(allow_buttons.len(), 2);
    assert_eq!(deny_buttons.len(), 1);
    assert_eq!(allow_buttons[0].str_at("text"), Some("✅ Allow once"));
    assert_eq!(allow_buttons[1].str_at("text"), Some("🔓 Allow session"));
    assert_eq!(deny_buttons[0].str_at("text"), Some("🛑 Deny"));
    assert_eq!(
        prepared.callback_routes[0].action,
        TelegramCallbackAction::Approve
    );
    assert_eq!(
        prepared.callback_routes[1].action,
        TelegramCallbackAction::ApproveForSession
    );
    assert!(prepared
        .callback_routes
        .iter()
        .all(|route| route.approval_key.as_deref() == Some("approval_exact_request")));
    for button in allow_buttons.iter().chain(deny_buttons) {
        let callback_data = button.str_at("callback_data").expect("callback data");
        assert!(
            callback_data.len() <= 64,
            "Telegram callback_data must fit the Bot API limit"
        );
    }
}

#[test]
fn telegram_message_payload_preserves_full_multiline_codex_body() {
    let full_message =
        "Done.\n\nFirst line stays.\nSecond line also stays.\n\nThird paragraph remains intact.";
    let event = json(
        r#"{
            "type": "thread_completed",
            "threadId": "thr_done",
            "updatedAt": 42,
            "thread": {
                "displayName": "LinkedIn Network",
                "project": "growth",
                "lastPreview": "Done.\n\nFirst line stays.\nSecond line also stays.\n\nThird paragraph remains intact."
            }
        }"#,
    );

    let prepared = deliver("999", &event);
    let text = text_of(&prepared.payloads[0]);
    assert!(text.contains(full_message));
    assert!(!text.contains("ID "));
    assert!(!text.contains("\n🤖 Codex\n"));
}

#[test]
fn telegram_message_payload_uses_remote_codex_chrome_only() {
    let event = json(
        r#"{
            "type": "thread_completed",
            "threadId": "thr_done",
            "updatedAt": 42,
            "thread": {
                "displayName": "Vault commands checked",
                "project": "ops",
                "lastPreview": "Done.\n\n::inbox-item{title=\"vault commands checked\" summary=\"No local commands; LifeOS has four\"}"
            }
        }"#,
    );

    let prepared = deliver("999", &event);
    let text = text_of(&prepared.payloads[0]);
    assert!(text.starts_with("✅ Codex finished\n🧵 Vault commands checked\n📁 ops"));
    assert!(!text.contains("🤖 Codex"));
    assert!(!text.contains("ID "));
    assert!(text.contains("::inbox-item"));
    assert!(
        text.contains("💬 To continue this thread, use Telegram's Reply action on this message.")
    );
}

#[test]
fn telegram_message_payload_shortens_app_file_reference_tokens() {
    let event = json(
        r#"{
            "type": "thread_completed",
            "threadId": "thr_docs",
            "updatedAt": 42,
            "thread": {
                "displayName": "Docs updated",
                "project": "ui-exp",
                "lastPreview": "Updated the docs. [F:/Users/hanifcarroll/projects/ui-experiment/README.md†L1-L24] [F:/Users/hanifcarroll/projects/ui-experiment/docs/airbnb-design-implementation.md†L1-L19]"
            }
        }"#,
    );

    let prepared = deliver("999", &event);
    let text = text_of(&prepared.payloads[0]);
    assert!(text.contains("README.md L1-L24"));
    assert!(text.contains("airbnb-design-implementation.md L1-L19"));
    assert!(!text.contains("[F:/Users/hanifcarroll/projects/ui-experiment/README.md"));
}

#[test]
fn telegram_question_payload_has_option_buttons_skip_and_bound_routes() {
    let long_label = "A very long option label that keeps going well past what fits on a button";
    let event = json(&format!(
        r#"{{
            "type": "thread_waiting",
            "eventKey": "question_abc:color",
            "threadId": "thr_q",
            "promptKind": "question",
            "thread": {{ "displayName": "Pick a color", "project": "demo" }},
            "questionRequest": {{
                "questionKey": "question_abc",
                "questionId": "color",
                "index": 1,
                "total": 2,
                "header": "Color",
                "question": "Which color?",
                "isOther": true,
                "isSecret": false,
                "options": [
                    {{ "label": "Red (Recommended)", "description": "Warm" }},
                    {{ "label": "{long_label}", "description": "{long_label}" }}
                ]
            }}
        }}"#
    ));

    let prepared = deliver("456", &event);

    let text = text_of(&prepared.payloads[0]);
    assert!(text.starts_with("❓ Codex has a question (1/2)\n🧵 Pick a color\n📁 demo"));
    assert!(text.contains("【Color】\nWhich color?"));
    assert!(text.contains("🔴A Red (Recommended) — Warm"));
    assert!(text.contains(&format!("🟠B {long_label}\n")));
    assert!(text.contains("use Telegram's Reply on this message to type your own answer"));
    assert!(text.contains("once all 2 questions are answered or skipped"));

    let keyboard = keyboard_of(&prepared.payloads[0]);
    let buttons = keyboard
        .iter()
        .map(|row| {
            row.as_array().expect("row")[0]
                .str_at("text")
                .expect("button text")
        })
        .collect::<Vec<_>>();
    assert_eq!(buttons[0], "🔴A Red (Recommended)");
    assert!(buttons[1].starts_with("🟠B A very long") && buttons[1].ends_with('…'));
    for button in &buttons {
        assert!(
            button.encode_utf16().count() <= 64,
            "Telegram rejects button text over 64 UTF-16 units: {button}"
        );
    }
    assert_eq!(buttons[2], "⏭ Skip");
    for row in keyboard {
        let data = row.as_array().expect("row")[0]
            .str_at("callback_data")
            .expect("callback data");
        assert!(data.starts_with("codex:cb_"));
        assert!(
            data.len() <= 64,
            "callback_data must fit Telegram's 64 bytes"
        );
    }

    assert_eq!(prepared.callback_routes.len(), 3);
    let answers = prepared
        .callback_routes
        .iter()
        .map(|route| (route.action, route.answer.as_deref()))
        .collect::<Vec<_>>();
    assert_eq!(
        answers,
        vec![
            (
                TelegramCallbackAction::AnswerOption,
                Some("Red (Recommended)")
            ),
            (TelegramCallbackAction::AnswerOption, Some(long_label)),
            (TelegramCallbackAction::SkipQuestion, None),
        ]
    );
    for route in &prepared.callback_routes {
        assert_eq!(route.approval_key.as_deref(), Some("question_abc"));
        assert_eq!(route.question_id.as_deref(), Some("color"));
        assert_eq!(route.thread_id, "thr_q");
    }
    let unique = prepared
        .callback_routes
        .iter()
        .map(|route| route.callback_id.as_str())
        .collect::<std::collections::HashSet<_>>();
    assert_eq!(unique.len(), 3, "every button needs its own callback id");
}

#[test]
fn an_oversized_question_is_cut_to_one_message_that_keeps_its_buttons() {
    let long_question = "Why? ".repeat(2000);
    let long_description = "detail ".repeat(700);
    let event = json(&format!(
        r#"{{
            "type": "thread_waiting",
            "eventKey": "question_big:q",
            "threadId": "thr_q",
            "questionRequest": {{
                "questionKey": "question_big",
                "questionId": "q",
                "index": 1,
                "total": 1,
                "header": "Big",
                "question": "{long_question}",
                "isOther": true,
                "isSecret": false,
                "options": [
                    {{ "label": "Yes", "description": "{long_description}" }},
                    {{ "label": "No", "description": "{long_description}" }}
                ]
            }}
        }}"#
    ));

    let prepared = deliver("456", &event);

    assert_eq!(prepared.payloads.len(), 1, "a question is never split");
    let text = text_of(&prepared.payloads[0]);
    assert!(text.chars().count() <= TELEGRAM_MESSAGE_CHAR_LIMIT);
    assert!(text.contains("【Big】\nWhy? Why?"));
    assert!(text.contains("…\n\nTap an option, or use Telegram's Reply"));
    assert!(
        !text.contains("detail detail"),
        "descriptions are dropped first"
    );
    let keyboard = keyboard_of(&prepared.payloads[0]);
    assert_eq!(
        keyboard.len(),
        3,
        "both options and Skip keep their buttons"
    );
}

#[test]
fn option_buttons_fit_telegrams_utf16_limit_even_with_emoji_labels() {
    let emoji_label = "🚀".repeat(40);
    let text = option_button_text(0, &emoji_label);
    assert!(text.starts_with("🔴A 🚀"));
    assert!(text.ends_with('…'));
    assert!(text.encode_utf16().count() <= TELEGRAM_BUTTON_TEXT_UTF16_LIMIT);
    assert_eq!(option_button_text(1, "Blue\nsky"), "🟠B Blue sky");
}

#[test]
fn truncation_marks_the_cut_and_respects_the_limit() {
    assert_eq!(truncate_to_char_limit("short", 10), "short");
    assert_eq!(truncate_to_char_limit("abcdef", 4), "abc…");
    assert_eq!(truncate_to_char_limit("漢字漢字漢字", 3), "漢字…");
    assert_eq!(truncate_to_char_limit("abc", 0), "");
}

#[test]
fn option_markers_pair_a_colour_dot_with_a_letter() {
    assert_eq!(option_marker(0), "🔴A");
    assert_eq!(option_marker(4), "🔵E");
    assert_eq!(option_marker(7), "⚫H");
    assert_eq!(
        option_marker(8),
        "🔴I",
        "colours repeat after eight options"
    );
}

#[test]
fn options_have_letters_or_numbers_of_their_own() {
    let letters = (0..300).map(option_letter).collect::<Vec<_>>();
    for (at, letter) in letters.iter().enumerate() {
        assert!(!letters[..at].contains(letter), "{letter} is used twice");
    }
    assert_eq!(letters[25], "Z");
    assert_eq!(letters[26], "27");
    assert_eq!(option_letter(4294967230), "4294967231");
}

#[test]
fn telegram_free_text_and_secret_questions_say_how_to_answer() {
    let event = json(
        r#"{
            "type": "thread_waiting",
            "eventKey": "question_abc:token",
            "threadId": "thr_q",
            "questionRequest": {
                "questionKey": "question_abc",
                "questionId": "token",
                "index": 1,
                "total": 1,
                "header": "",
                "question": "Paste the API token",
                "isOther": false,
                "isSecret": true,
                "options": null
            }
        }"#,
    );

    let prepared = deliver("456", &event);

    let text = text_of(&prepared.payloads[0]);
    assert!(text.starts_with("❓ Codex has a question\n"));
    assert!(text.contains("Use Telegram's Reply on this message to type your answer."));
    assert!(text.contains("🔒 Codex marked this answer as secret"));
    assert!(!text.contains("questions are answered or skipped"));
    let keyboard = keyboard_of(&prepared.payloads[0]);
    assert_eq!(keyboard.len(), 1, "a free-text question only offers Skip");
    assert_eq!(row(keyboard, 0)[0].str_at("text"), Some("⏭ Skip"));
}

#[test]
fn telegram_approval_payload_uses_approval_title_and_button_footer() {
    let event = json(
        r#"{
            "type": "thread_waiting",
            "threadId": "thr_approval",
            "updatedAt": 42,
            "approvalRequest": {
                "approvalKey": "approval_hotfix",
                "summary": "Ship the hotfix?"
            },
            "thread": {
                "displayName": "Deploy request",
                "project": "infra",
                "pendingPrompt": {
                    "kind": "approval",
                    "question": "Ship the hotfix?"
                }
            }
        }"#,
    );

    let prepared = deliver("999", &event);
    let text = text_of(&prepared.payloads[0]);
    assert!(text.starts_with("🔐 Codex needs approval"));
    assert!(text.contains("Ship the hotfix?"));
    assert!(
        text.contains("Choose one option below. The button is bound to this exact Codex request.")
    );
}

#[test]
fn telegram_message_payload_splits_without_truncating_codex_body() {
    let long_preview = "x".repeat(10_000);
    let event = json(&format!(
        r#"{{
            "type": "thread_completed",
            "threadId": "thr_split",
            "updatedAt": 42,
            "thread": {{
                "displayName": "Long answer",
                "project": "ops",
                "lastPreview": "{long_preview}"
            }}
        }}"#
    ));

    let prepared = deliver("999", &event);
    assert!(
        prepared.payloads.len() > 1,
        "long telegram messages should split"
    );
    for payload in &prepared.payloads {
        assert!(text_of(payload).chars().count() <= TELEGRAM_MESSAGE_CHAR_LIMIT);
    }
    let combined = prepared
        .payloads
        .iter()
        .map(text_of)
        .collect::<Vec<_>>()
        .join("");
    assert!(combined.contains("Long answer"));
    assert!(combined.contains("💬 To continue this thread"));
    assert!(combined.contains(&"x".repeat(5000)));
}

fn finished_snapshot() -> BridgeThreadSnapshot {
    BridgeThreadSnapshot {
        thread_id: "thr_done".to_string(),
        name: Some("Release checklist".to_string()),
        cwd: Some("/Users/hanifcarroll/projects/tools/codex-telegram-bridge".to_string()),
        updated_at: Some(42),
        status_type: "notLoaded".to_string(),
        status_flags: Vec::new(),
        last_turn_status: Some("completed".to_string()),
        last_preview: Some("x".repeat(10_000)),
        pending_prompt: None,
    }
}

#[test]
fn telegram_thread_snapshot_payload_uses_update_template_as_one_message() {
    let snapshot = finished_snapshot();

    let prepared = prepare_telegram_thread_snapshot_delivery(
        "999",
        &snapshot,
        Some("codex-telegram-bridge"),
        "Release checklist",
        "event_1".to_string(),
        Some("thr_done".to_string()),
    )
    .expect("prepared thread snapshot");

    assert_eq!(prepared.thread_id.as_deref(), Some("thr_done"));
    assert_eq!(
        prepared.payloads.len(),
        1,
        "explicit /threads results must be one Telegram message per thread"
    );
    let text = text_of(&prepared.payloads[0]);
    assert!(text.starts_with("✅ Codex finished\n🧵 Release checklist"));
    assert!(text.contains("📁 codex-telegram-bridge"));
    assert!(text.contains("💬 To continue this thread"));
    assert!(
        text.chars().count() <= TELEGRAM_MESSAGE_CHAR_LIMIT,
        "snapshot messages must fit Telegram's single-message limit"
    );
}

#[test]
fn telegram_new_thread_confirmation_reports_working_directory() {
    let message = telegram_new_thread_confirmation_text(
        &RegisteredProject {
            id: "ui-exp".to_string(),
            label: "UI Experiment".to_string(),
            cwd: "/Users/hanifcarroll/projects/ui-experiment".to_string(),
            aliases: Vec::new(),
        },
        &json(
            r#"{
                "threadId": "thr_123",
                "cwd": "/Users/hanifcarroll/projects/ui-experiment"
            }"#,
        ),
    );

    assert!(message.contains("Started a new Codex thread in UI Experiment."));
    assert!(message.contains("/Users/hanifcarroll/projects/ui-experiment"));
    assert!(message.contains("Codex is working on the first answer now."));
    assert!(message.contains("I will send the answer here when it finishes."));
    assert!(message.contains("Use Telegram's Reply action on this message to continue it."));
}

#[test]
fn every_command_of_the_help_text_is_known() {
    let text = telegram_help_text();
    let commands = text
        .split('\n')
        .filter(|line| line.starts_with('/'))
        .map(|line| parse_telegram_command_text(line).expect("command"))
        .collect::<Vec<_>>();
    assert_eq!(commands.len(), 10);
    for command in &commands {
        assert!(!matches!(command, TelegramInboundCommand::Unknown(_)));
    }
    for known in ["/away", "/back", "/repair", "/status"] {
        let known = parse_telegram_command_text(known).expect("command");
        assert!(commands.contains(&known));
    }
    let some = |is_kind: fn(&TelegramInboundCommand) -> bool| commands.iter().any(is_kind);
    assert!(some(|c| matches!(c, TelegramInboundCommand::Threads(_))));
    assert!(some(|c| matches!(c, TelegramInboundCommand::NewThread(_))));
    assert!(some(|c| matches!(c, TelegramInboundCommand::Project(_))));
}

#[test]
fn telegram_help_text_uses_reduced_remote_command_set() {
    let text = telegram_help_text();
    for expected in [
        "/away - start remote Codex mode",
        "/back - stop remote Codex mode",
        "/repair - fix remote Codex mode",
        "/status - show remote status",
        "/threads - show the 5 most recent Codex threads",
        "/threads <count> - show that many recent Codex threads",
        "/new <prompt> - start a new Codex thread",
        "/project <id> - switch the current project",
    ] {
        assert!(
            text.contains(expected),
            "help text missing expected command: {expected}"
        );
    }
    for removed in [
        "/away_on",
        "/away_off",
        "/live_on",
        "/live_reset",
        "/new_thread",
        "/projects",
        "/inbox",
        "/waiting",
        "/recent",
        "/settings",
    ] {
        assert!(
            !text.contains(removed),
            "help text still contains removed command: {removed}"
        );
    }
}

// Cutting and splitting

#[test]
fn splitting_gives_the_text_back_in_pieces_of_the_limit() {
    let pieces = split_telegram_text("abcdefg", 3);
    assert_eq!(pieces, vec!["abc", "def", "g"]);
    assert_eq!(pieces.concat(), "abcdefg");
    assert_eq!(split_telegram_text("abcdef", 3), vec!["abc", "def"]);
    assert_eq!(split_telegram_text("漢字漢", 2), vec!["漢字", "漢"]);
    assert_eq!(split_telegram_text("", 3), vec![""]);
}

#[test]
fn button_texts_of_exactly_the_limit_are_kept_whole() {
    let fits = "x".repeat(64 - 4);
    assert_eq!(option_button_text(0, &fits).encode_utf16().count(), 64);
    assert!(!option_button_text(0, &fits).ends_with('…'));
    let too_long = "x".repeat(64 - 3);
    let cut = option_button_text(0, &too_long);
    assert_eq!(cut, format!("🔴A {}…", "x".repeat(59)));
    assert_eq!(cut.encode_utf16().count(), 64);
}

#[test]
fn options_behind_the_alphabet_are_numbered() {
    assert_eq!(option_letter(25), "Z");
    assert_eq!(option_letter(26), "27");
    assert_eq!(option_marker(26), "🟡27");
}

#[test]
fn details_are_trimmed_and_cut_with_three_dots() {
    assert_eq!(trim_for_telegram_detail("  \n ", 10), None);
    assert_eq!(
        trim_for_telegram_detail("  short ", 10).as_deref(),
        Some("short")
    );
    assert_eq!(
        trim_for_telegram_detail("abcdefghij", 8).as_deref(),
        Some("abcde...")
    );
    assert_eq!(
        trim_for_telegram_detail("abcd fghij", 8).as_deref(),
        Some("abcd...")
    );
    assert_eq!(trim_for_telegram_detail("abcd", 2).as_deref(), Some("..."));
}

#[test]
fn lines_are_flattened_and_cut_with_three_dots() {
    assert_eq!(trim_for_telegram_line(" a\nb ", 10), "a b");
    assert_eq!(trim_for_telegram_line("abcdef", 4), "abc...");
    assert_eq!(trim_for_telegram_line("abcdef", 0), "...");
}

// File references

#[test]
fn file_references_are_shortened_to_name_and_line() {
    assert_eq!(
        compact_telegram_file_reference("F:/a/b/c.rs†L1-L2").as_deref(),
        Some("c.rs L1-L2")
    );
    assert_eq!(
        compact_telegram_file_reference("f:/a/b/c.rs").as_deref(),
        Some("c.rs")
    );
    assert_eq!(
        compact_telegram_file_reference("/a/b/c.rs† ").as_deref(),
        Some("c.rs")
    );
    assert_eq!(
        compact_telegram_file_reference("/a/b/").as_deref(),
        Some("b")
    );
    assert_eq!(compact_telegram_file_reference("/a/.."), None);
    assert_eq!(compact_telegram_file_reference("/"), None);
    assert_eq!(compact_telegram_file_reference("relative/c.rs"), None);
    assert_eq!(compact_telegram_file_reference(""), None);
}

#[test]
fn other_brackets_stay_in_the_text() {
    assert_eq!(sanitize_telegram_detail("no brackets"), "no brackets");
    assert_eq!(
        sanitize_telegram_detail("[x] and [/a/b.rs†L3]"),
        "[x] and b.rs L3"
    );
    assert_eq!(
        sanitize_telegram_detail("[[F:/a/b.rs†L3]]"),
        "[b.rs L3]"
    );
    assert_eq!(
        sanitize_telegram_detail("open [ only /a/b"),
        "open [ only /a/b"
    );
    assert_eq!(sanitize_telegram_detail("[/a/b.rs"), "[/a/b.rs");
}

// Identifiers

#[test]
fn callback_ids_are_the_start_of_a_digest() {
    let id = telegram_callback_id("event_1", TelegramCallbackAction::Approve);
    assert_eq!(id.len(), 27);
    assert!(id.starts_with("cb_"));
    assert!(id[3..].bytes().all(|b| b.is_ascii_hexdigit() && !b.is_ascii_uppercase()));
    assert_ne!(
        id,
        telegram_callback_id("event_1", TelegramCallbackAction::Deny)
    );
    assert_ne!(
        telegram_question_callback_id("event_1", TelegramCallbackAction::AnswerOption, 0),
        telegram_question_callback_id("event_1", TelegramCallbackAction::AnswerOption, 1)
    );
}

#[test]
fn action_names_read_back_as_the_action() {
    for action in [
        TelegramCallbackAction::Approve,
        TelegramCallbackAction::ApproveForSession,
        TelegramCallbackAction::Deny,
        TelegramCallbackAction::AnswerOption,
        TelegramCallbackAction::SkipQuestion,
    ] {
        assert_eq!(
            TelegramCallbackAction::from_name(action.as_str()),
            Some(action)
        );
    }
    assert_eq!(
        TelegramCallbackAction::ApproveForSession.as_str(),
        "approve_for_session"
    );
    assert_eq!(TelegramCallbackAction::from_name("approve_all"), None);
}

// Events

#[test]
fn an_event_without_a_thread_has_no_reply_hint_and_no_buttons() {
    let event = json(
        r#"{ "approvalRequest": { "approvalKey": "key" }, "thread": { "name": "Named" } }"#,
    );
    let prepared = prepare_telegram_delivery("1", &event, "e".to_string(), None);
    assert_eq!(prepared.payloads.len(), 1);
    assert_eq!(
        text_of(&prepared.payloads[0]),
        "🔐 Codex needs approval\n🧵 Named"
    );
    assert!(prepared.payloads[0].get("reply_markup").is_none());
    assert!(prepared.callback_routes.is_empty());
    assert_eq!(
        prepared.payloads[0].bool_at("disable_web_page_preview"),
        Some(true)
    );
}

#[test]
fn the_kind_of_an_event_chooses_title_and_hint() {
    for (kind, title, hint) in [
        ("thread_waiting", "🟡 Codex needs you", "💬 To answer Codex"),
        ("thread_completed", "✅ Codex finished", "💬 To continue"),
        ("thread_status_changed", "🔄 Codex changed", "💬 To continue"),
        ("anything", "🧵 Codex update", "💬 To continue"),
    ] {
        let event = json(&format!(r#"{{ "type": "{kind}", "threadId": "t" }}"#));
        let prepared = deliver("1", &event);
        let text = text_of(&prepared.payloads[0]);
        assert!(text.starts_with(&format!("{title}\n🧵 t\n\n")));
        assert!(text.contains(hint));
    }
    let inferred = json(r#"{ "type": "thread_waiting", "threadId": "t", "promptKind": "approval" }"#);
    let prepared = deliver("1", &inferred);
    let text = text_of(&prepared.payloads[0]);
    assert!(text.starts_with("🔐 Codex needs approval"));
    assert!(text.ends_with("Open the active Codex client to answer this approval."));
}

#[test]
fn a_question_that_cannot_be_bound_has_no_buttons() {
    let event = json(r#"{ "questionRequest": { "question": " Why? ", "options": [{ "description": "no label" }] } }"#);
    let prepared = prepare_telegram_delivery("1", &event, "e".to_string(), Some("t".to_string()));
    assert_eq!(
        text_of(&prepared.payloads[0]),
        "❓ Codex has a question\n🧵 Codex thread\n\nWhy?\n\n💬 Use Telegram's Reply on this message to type your answer."
    );
    assert!(prepared.payloads[0].get("reply_markup").is_none());
    assert!(prepared.callback_routes.is_empty());
}

#[test]
fn a_snapshot_shows_what_the_thread_waits_for() {
    let mut snapshot = finished_snapshot();
    snapshot.pending_prompt = Some(PendingPrompt {
        prompt_id: "p".to_string(),
        kind: "reply".to_string(),
        status: "open".to_string(),
        question: Some("Go on?".to_string()),
    });
    let event = thread_snapshot_event(&snapshot, None, "Name\nof thread");
    assert_eq!(event.str_at("type"), Some("thread_waiting"));
    assert_eq!(event.str_at2("thread", "displayName"), Some("Name of thread"));
    assert_eq!(event.get2("thread", "project"), Some(&Json::Null));
    assert_eq!(
        event.str_at3("thread", "pendingPrompt", "question"),
        Some("Go on?")
    );
    assert_eq!(
        event.str_at2("thread", "lastPreview").map(|s| s.len()),
        Some(3000)
    );
    snapshot.pending_prompt = None;
    snapshot.last_turn_status = None;
    let event = thread_snapshot_event(&snapshot, None, "n");
    assert_eq!(event.str_at("type"), Some("thread_status_changed"));
}

#[test]
fn a_snapshot_that_needs_two_messages_is_refused() {
    let long_project = "p".repeat(2000);
    let refused = prepare_telegram_thread_snapshot_delivery(
        "999",
        &finished_snapshot(),
        Some(&long_project),
        "Release checklist",
        "event_1".to_string(),
        Some("thr_done".to_string()),
    );
    assert_eq!(refused, Err(SnapshotError::ExceedsOneMessage));
    assert_eq!(
        SnapshotError::ExceedsOneMessage.message(),
        "thread snapshot Telegram delivery exceeded one message"
    );
}

// Replies to commands

fn project(id: &str, label: &str) -> RegisteredProject {
    RegisteredProject {
        id: id.to_string(),
        label: label.to_string(),
        cwd: format!("/work/{id}"),
        aliases: Vec::new(),
    }
}

#[test]
fn the_project_list_marks_the_current_project() {
    let projects = vec![project("a", "Alpha"), project("b", "Beta")];
    let observed = (0..6)
        .map(|n| ObservedWorkspace {
            label: format!("w{n}"),
            cwd: format!("/w/{n}"),
        })
        .collect::<Vec<_>>();
    let text = telegram_projects_text(&projects, Some(&projects[1]), &observed);
    assert_eq!(
        text,
        "Projects\n\nCurrent: b (Beta)\n\nConfigured:\n- a - Alpha\n  /work/a\n• b - Beta\n  /work/b\n\nObserved from recent Codex history:\n- w0 - /w/0\n- w1 - /w/1\n- w2 - /w/2\n- w3 - /w/3\n- w4 - /w/4\nRun `codex-telegram-bridge projects import` locally to promote observed workspaces into the curated registry.\n\nUse /project <id> to switch the current project."
    );
    assert_eq!(
        telegram_projects_text(&Vec::new(), None, &Vec::new()),
        "Projects\n\nCurrent: none selected\n\nNo projects are configured yet.\n\nUse /project <id> to switch the current project."
    );
}

#[test]
fn the_current_project_is_shown() {
    assert_eq!(
        telegram_project_text(Some(&project("a", "Alpha"))),
        "Current project\n\na (Alpha)\n/work/a\n\nNew Telegram threads will start here until you switch again."
    );
    assert!(telegram_project_text(None).starts_with("No current project is selected."));
}

#[test]
fn the_backend_line_says_how_to_recover() {
    let known = |healthy: bool, pid: Option<u32>| LiveBackendReport::Known {
        status: LiveBackendStatus {
            healthy,
            pid,
            websocket_url: "ws://x".to_string(),
        },
    };
    assert_eq!(
        telegram_live_backend_status_line(&known(true, Some(7))),
        "Shared live backend: healthy, ws://x, pid 7. Use /away before you leave."
    );
    assert_eq!(
        telegram_live_backend_status_line(&known(false, None)),
        "Shared live backend: unhealthy, ws://x, pid none. Use /repair to recover."
    );
    assert_eq!(
        telegram_live_backend_status_line(&LiveBackendReport::NotConfigured),
        "Shared live backend: not configured. Run setup locally."
    );
    assert_eq!(
        telegram_live_backend_status_line(&LiveBackendReport::ConfigUnavailable {
            error: "gone".to_string()
        }),
        "Shared live backend: config unavailable (gone). Run setup locally."
    );
    assert_eq!(
        telegram_live_backend_status_line(&LiveBackendReport::Unreachable {
            websocket_url: "ws://x".to_string(),
            error: "refused".to_string()
        }),
        "Shared live backend: unhealthy, ws://x (refused). Use /repair to recover."
    );
}

#[test]
fn the_status_text_counts_what_is_pending() {
    let text = telegram_status_text(
        &json(r#"{ "away": true }"#),
        &LiveBackendReport::NotConfigured,
        3,
        1,
    );
    assert_eq!(
        text,
        "Codex remote status\n\nRemote mode: on\nShared live backend: not configured. Run setup locally.\nPending Telegram notifications: 3\nThreads waiting for you: 1\n\nUse /away before you leave. Use /repair if the backend is unhealthy. Use /back when you return."
    );
}

#[test]
fn a_confirmation_without_a_directory_says_so() {
    let text = telegram_new_thread_confirmation_text(&project("a", "Alpha"), &json(r#"{ "cwd": " " }"#));
    assert!(text.starts_with(
        "Started a new Codex thread in Alpha with no explicit working directory reported back."
    ));
}
