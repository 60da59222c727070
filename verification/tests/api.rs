use codex_telegram_bridge::api::telegram_answer_callback_query;
use codex_telegram_bridge::api::telegram_api_reply;
use codex_telegram_bridge::api::telegram_api_url;
use codex_telegram_bridge::api::telegram_bot_commands;
use codex_telegram_bridge::api::telegram_bot_id;
use codex_telegram_bridge::api::telegram_chat_id;
use codex_telegram_bridge::api::telegram_delete_message;
use codex_telegram_bridge::api::telegram_delete_webhook;
use codex_telegram_bridge::api::telegram_edit_message_text;
use codex_telegram_bridge::api::telegram_from_user_id;
use codex_telegram_bridge::api::telegram_get_updates;
use codex_telegram_bridge::api::telegram_message_id;
use codex_telegram_bridge::api::telegram_remove_inline_keyboard;
use codex_telegram_bridge::api::telegram_reply_to_id;
use codex_telegram_bridge::api::telegram_request_failed_text;
use codex_telegram_bridge::api::telegram_send_chat_action;
use codex_telegram_bridge::api::telegram_send_text;
use codex_telegram_bridge::api::telegram_send_text_to_chat;
use codex_telegram_bridge::api::telegram_sent_message_id;
use codex_telegram_bridge::api::telegram_set_my_commands;
use codex_telegram_bridge::api::telegram_stable_bot_id;
use codex_telegram_bridge::api::telegram_updates_array;
use codex_telegram_bridge::digest::hex_text;
use codex_telegram_bridge::digest::sha256_hex;
use codex_telegram_bridge::json::Json;
use codex_telegram_bridge::json::Member;
use codex_telegram_bridge::number::parse_u64;
use codex_telegram_bridge::number::to_decimal;
use codex_telegram_bridge::number::to_signed_decimal;
use codex_telegram_bridge::number::NumberError;
use codex_telegram_bridge::types::TelegramConfig;
use serde_json::Value;

fn lib(value: &Value) -> Json {
    match value {
        Value::Null => Json::Null,
        Value::Bool(b) => Json::Bool(*b),
        Value::Number(n) => match (n.as_i64(), n.as_u64()) {
            (Some(i), _) => Json::Int(i as i128),
            (None, Some(u)) => Json::Int(u as i128),
            (None, None) => Json::Float(n.to_string()),
        },
        Value::String(s) => Json::Str(s.clone()),
        Value::Array(items) => Json::Array(items.iter().map(lib).collect()),
        Value::Object(map) => Json::Object(
            map.iter().map(|(key, value)| Member { key: key.clone(), value: lib(value) }).collect(),
        ),
    }
}

fn json(text: &str) -> Json {
    lib(&serde_json::from_str(text).expect("json"))
}

fn value(json: &Json) -> Value {
    match json {
        Json::Null => Value::Null,
        Json::Bool(b) => Value::Bool(*b),
        Json::Int(n) => Value::from(*n as i64),
        Json::Float(s) => serde_json::from_str(s).expect("number"),
        Json::Str(s) => Value::String(s.clone()),
        Json::Array(items) => Value::Array(items.iter().map(value).collect()),
        Json::Object(members) => Value::Object(
            members
                .iter()
                .map(|member| (member.key.clone(), value(&member.value)))
                .collect(),
        ),
    }
}

fn parsed(text: &str) -> Value {
    serde_json::from_str(text).expect("json")
}

fn config() -> TelegramConfig {
    TelegramConfig {
        bot_token: "123:secret".to_string(),
        chat_id: "456".to_string(),
        allowed_user_id: None,
    }
}

#[test]
fn stable_bot_id_survives_token_rotation() {
    assert_eq!(
        telegram_stable_bot_id("8854269525:AAHfirst-secret"),
        "8854269525"
    );
    assert_eq!(
        telegram_stable_bot_id(" 8854269525:AAHrotated-secret "),
        telegram_stable_bot_id("8854269525:AAHfirst-secret")
    );
    assert_ne!(
        telegram_stable_bot_id("111:secret"),
        telegram_stable_bot_id("222:secret")
    );
    assert_eq!(
        telegram_stable_bot_id("not-a-token"),
        telegram_bot_id("not-a-token"),
        "an unexpected token shape falls back to the hashed id"
    );
}

#[test]
fn telegram_bot_commands_are_registered_for_core_remote_actions() {
    let commands = telegram_bot_commands();
    let names = commands
        .iter()
        .filter_map(|command| command.str_at("command"))
        .collect::<Vec<_>>();

    assert_eq!(
        names,
        vec!["start", "help", "away", "back", "repair", "status", "threads", "new", "project",]
    );
    for removed in [
        "away_on",
        "away_off",
        "live_on",
        "live_reset",
        "new_thread",
        "projects",
        "inbox",
        "waiting",
        "recent",
        "settings",
    ] {
        assert!(
            !names.contains(&removed),
            "removed telegram bot command is still advertised: {removed}"
        );
    }
    for required in [
        "start", "help", "away", "back", "repair", "status", "threads", "new", "project",
    ] {
        assert!(
            names.contains(&required),
            "missing required telegram bot command {required}"
        );
    }
    for command in commands {
        assert!(
            command.str_at("command").expect("command").len() <= 32,
            "Telegram command names must fit BotCommand limits"
        );
        assert!(
            !command
                .str_at("description")
                .expect("description")
                .trim()
                .is_empty(),
            "Telegram commands must include human-readable descriptions"
        );
    }
}

// Digests

#[test]
fn digests_are_hexadecimal_sha256() {
    assert_eq!(
        sha256_hex("abc"),
        "ba7816bf8f01cfea414140de5dae2223b00361a396177a9cb410ff61f20015ad"
    );
    assert_eq!(
        sha256_hex(""),
        "e3b0c44298fc1c149afbf4c8996fb92427ae41e4649b934ca495991b7852b855"
    );
    assert_eq!(telegram_bot_id("abc"), "ba7816bf8f01cfea");
    assert_eq!(hex_text(&vec![0, 15, 16, 255]), "000f10ff");
    assert_eq!(hex_text(&Vec::new()), "");
}

#[test]
fn unexpected_tokens_fall_back_to_the_digest() {
    for token in [":secret", "12a:secret", "", "١٢:secret", "123"] {
        assert_eq!(telegram_stable_bot_id(token), telegram_bot_id(token));
    }
}

// Numbers

#[test]
fn numbers_are_written_and_read_in_decimal() {
    assert_eq!(to_decimal(0), "0");
    assert_eq!(to_decimal(1024), "1024");
    assert_eq!(
        to_decimal(u128::MAX),
        "340282366920938463463374607431768211455"
    );
    assert_eq!(to_signed_decimal(-7), "-7");
    assert_eq!(to_signed_decimal(i64::MIN), i64::MIN.to_string());
    assert_eq!(to_signed_decimal(i64::MAX), i64::MAX.to_string());
    for text in ["0", "007", "+12", "18446744073709551615"] {
        assert_eq!(parse_u64(text), Ok(text.parse::<u64>().expect("number")));
    }
    assert_eq!(parse_u64(""), Err(NumberError::Empty));
    for text in ["-", "+", "-1", "++1", "1x", "x", " 1", "99999999999999999999x"] {
        assert!(text.parse::<u64>().is_err());
        assert!(parse_u64(text).is_err(), "{text}");
    }
    assert_eq!(parse_u64("1x"), Err(NumberError::InvalidDigit));
    assert_eq!(parse_u64("18446744073709551616"), Err(NumberError::TooLarge));
}

// Calls

#[test]
fn addresses_hold_the_trimmed_token_and_method() {
    assert_eq!(
        telegram_api_url(" 123:secret\n", " getMe "),
        "https://api.telegram.org/bot123:secret/getMe"
    );
}

#[test]
fn telegram_errors_keep_the_description_from_the_4xx_body() {
    let body = r#"{"ok":false,"error_code":400,"description":"Bad Request: message to delete not found"}"#;

    let message =
        telegram_api_reply("deleteMessage", json(body), body).expect_err("a 400 reply is an error");

    assert!(
        message.contains("message to delete not found"),
        "the deletion retry logic keys on Telegram's description: {message}"
    );
    assert!(
        !message.contains("secret"),
        "the token must not leak: {message}"
    );
}

#[test]
fn replies_keep_the_reason_that_telegram_gives() {
    let ok = json(r#"{ "ok": true, "result": 1 }"#);
    assert_eq!(
        telegram_api_reply("deleteMessage", ok, ""),
        Ok(json(r#"{ "ok": true, "result": 1 }"#))
    );
    let text = r#"{"ok":false,"error_code":400,"description":"Bad Request: message to delete not found"}"#;
    let error = telegram_api_reply("deleteMessage", json(text), text).expect_err("refused");
    assert_eq!(
        error,
        format!("Telegram API deleteMessage returned error: {text}")
    );
    assert!(telegram_api_reply("getMe", json("[]"), "[]").is_err());
    assert!(telegram_api_reply("getMe", json(r#"{ "ok": 1 }"#), "").is_err());
    assert_eq!(
        telegram_request_failed_text("getMe", "timed out"),
        "Telegram API getMe request failed: timed out"
    );
}

#[test]
fn calls_hold_what_telegram_expects() {
    let telegram = config();
    for (call, method, payload) in [
        (
            telegram_delete_webhook(),
            "deleteWebhook",
            r#"{ "drop_pending_updates": false }"#,
        ),
        (
            telegram_get_updates(None, 10),
            "getUpdates",
            r#"{ "timeout": 10, "allowed_updates": ["message", "callback_query"] }"#,
        ),
        (
            telegram_get_updates(Some(5), 0),
            "getUpdates",
            r#"{ "offset": 5, "timeout": 0, "allowed_updates": ["message", "callback_query"] }"#,
        ),
        (
            telegram_send_text(&telegram, "hi"),
            "sendMessage",
            r#"{ "chat_id": "456", "text": "hi", "disable_web_page_preview": true }"#,
        ),
        (
            telegram_send_text_to_chat("9", "hi"),
            "sendMessage",
            r#"{ "chat_id": "9", "text": "hi", "disable_web_page_preview": true }"#,
        ),
        (
            telegram_send_chat_action(&telegram, "typing"),
            "sendChatAction",
            r#"{ "chat_id": "456", "action": "typing" }"#,
        ),
        (
            telegram_answer_callback_query("q", "done"),
            "answerCallbackQuery",
            r#"{ "callback_query_id": "q", "text": "done", "show_alert": false }"#,
        ),
        (
            telegram_edit_message_text(&telegram, 7, "new"),
            "editMessageText",
            r#"{ "chat_id": "456", "message_id": 7, "text": "new", "disable_web_page_preview": true }"#,
        ),
        (
            telegram_remove_inline_keyboard(&telegram, 7),
            "editMessageReplyMarkup",
            r#"{ "chat_id": "456", "message_id": 7, "reply_markup": { "inline_keyboard": [] } }"#,
        ),
        (
            telegram_delete_message("9", 7),
            "deleteMessage",
            r#"{ "chat_id": "9", "message_id": 7 }"#,
        ),
    ] {
        assert_eq!(call.method, method);
        assert_eq!(value(&call.payload), parsed(payload));
    }
    let commands = telegram_set_my_commands();
    assert_eq!(commands.method, "setMyCommands");
    assert_eq!(
        commands.payload.get("commands"),
        Some(&Json::Array(telegram_bot_commands()))
    );
}

#[test]
fn replies_and_messages_are_read() {
    assert_eq!(
        telegram_sent_message_id(&json(r#"{ "result": { "message_id": 8 } }"#)),
        Some(8)
    );
    assert_eq!(telegram_sent_message_id(&json(r#"{ "result": {} }"#)), None);
    assert_eq!(
        telegram_updates_array(&json(r#"{ "result": [1, 2] }"#)).map(Vec::len),
        Some(2)
    );
    assert!(telegram_updates_array(&json(r#"{ "result": {} }"#)).is_none());
    let message = json(
        r#"{ "message_id": 3, "chat": { "id": -100 }, "from": { "id": "u" }, "reply_to_message": { "message_id": 2 } }"#,
    );
    assert_eq!(telegram_chat_id(&message).as_deref(), Some("-100"));
    assert_eq!(telegram_from_user_id(&message).as_deref(), Some("u"));
    assert_eq!(telegram_message_id(&message), Some(3));
    assert_eq!(telegram_reply_to_id(&message), Some(2));
    let empty = json(r#"{ "chat": { "id": 1.5 } }"#);
    assert_eq!(telegram_chat_id(&empty), None);
    assert_eq!(telegram_from_user_id(&empty), None);
    assert_eq!(telegram_message_id(&empty), None);
    assert_eq!(telegram_reply_to_id(&empty), None);
}
