//! Calls of the Telegram Bot API: what is sent, and what is read from the replies.

use vstd::prelude::*;

use crate::delivery;
use crate::delivery::message_payload;
use crate::digest;
use crate::digest::sha256_hex;
use crate::json;
use crate::json::push_json;
use crate::json::Fields;
use crate::json::Json;
use crate::json::JsonView;
use crate::number;
use crate::number::to_signed_decimal;
use crate::text;
use crate::text::cat4;
use crate::text::find_char;
use crate::text::no_texts;
use crate::text::push_text;
use crate::text::take_chars;
use crate::text::trim;
use crate::types::TelegramConfig;

verus! {

/// A call of one API method.
#[derive(Debug, PartialEq, Eq)]
pub struct ApiCall {
    pub method: String,
    pub payload: Json,
}

/// What a call holds.
#[verifier::ext_equal]
pub struct ApiCallView {
    pub method: Seq<char>,
    pub payload: JsonView,
}

impl View for ApiCall {
    type V = ApiCallView;

    open spec fn view(&self) -> ApiCallView {
        ApiCallView { method: self.method@, payload: self.payload@ }
    }
}

/// A call of `method` with an object of the given members.
pub open spec fn call_of(method: Seq<char>, payload: json::Members) -> ApiCallView {
    ApiCallView { method, payload: payload.object() }
}

fn new_call(method: &str, payload: Fields) -> (out: ApiCall)
    ensures
        out@ == call_of(method@, payload@),
{
    ApiCall { method: method.to_owned(), payload: payload.object() }
}

/// The address of an API method.
pub fn telegram_api_url(bot_token: &str, method: &str) -> (out: String)
    ensures
        out@ == "https://api.telegram.org/bot"@ + text::trimmed(bot_token@) + "/"@ + text::trimmed(
            method@,
        ),
{
    cat4("https://api.telegram.org/bot", trim(bot_token), "/", trim(method))
}

/// Telegram's reply was a success.
pub open spec fn reply_ok(reply: JsonView) -> bool {
    json::truth_at(reply.get("ok"@)) == Some(true)
}

/// Takes a reply of Telegram, or the error that it is. `reply_text` is the reply as it was
/// written: the reason that Telegram gives for a refusal stays in the error.
pub fn telegram_api_reply(method: &str, reply: Json, reply_text: &str) -> (out: Result<
    Json,
    String,
>)
    ensures
        match out {
            Ok(value) => reply_ok(reply@) && value == reply,
            Err(error) => !reply_ok(reply@) && error@ == "Telegram API "@ + method@
                + " returned error: "@ + reply_text@,
        },
{
    match reply.bool_at("ok") {
        Some(true) => Ok(reply),
        _ => Err(cat4("Telegram API ", method, " returned error: ", reply_text)),
    }
}

/// The error of a request that did not reach Telegram. `reason` no longer holds the token.
pub fn telegram_request_failed_text(method: &str, reason: &str) -> (out: String)
    ensures
        out@ == "Telegram API "@ + method@ + " request failed: "@ + reason@,
{
    cat4("Telegram API ", method, " request failed: ", reason)
}

/// Clears a webhook and keeps the updates that wait.
pub fn telegram_delete_webhook() -> (out: ApiCall)
    ensures
        out@ == call_of("deleteWebhook"@, json::members().flag("drop_pending_updates"@, false)),
{
    new_call("deleteWebhook", Fields::new().flag("drop_pending_updates", false))
}

/// The payload that asks for updates from `offset` on.
pub open spec fn get_updates_members(offset: Option<int>, timeout_seconds: int) -> json::Members {
    let start = match offset {
        Some(n) => json::members().number("offset"@, n),
        None => json::members(),
    };
    start.number("timeout"@, timeout_seconds).with(
        "allowed_updates"@,
        JsonView::Array(json::str_views(seq!["message"@, "callback_query"@])),
    )
}

/// Asks for updates from `offset` on.
pub fn telegram_get_updates(offset: Option<i64>, timeout_seconds: u64) -> (out: ApiCall)
    ensures
        out@ == call_of(
            "getUpdates"@,
            get_updates_members(json::opt_signed(offset), timeout_seconds as int),
        ),
{
    let start = match offset {
        Some(n) => Fields::new().number("offset", n as i128),
        None => Fields::new(),
    };
    let mut kinds = no_texts();
    push_text(&mut kinds, "message".to_owned());
    push_text(&mut kinds, "callback_query".to_owned());
    assert(text::texts(kinds@) =~= seq!["message"@, "callback_query"@]);
    let fields = start.number("timeout", timeout_seconds as i128).with(
        "allowed_updates",
        Json::texts(&kinds),
    );
    new_call("getUpdates", fields)
}

/// Sends a message.
pub fn telegram_send_message(payload: Json) -> (out: ApiCall)
    ensures
        out.method@ == "sendMessage"@,
        out.payload == payload,
{
    ApiCall { method: "sendMessage".to_owned(), payload }
}

/// A text message to a chat.
pub open spec fn send_text_call(chat_id: Seq<char>, body: Seq<char>) -> ApiCallView {
    call_of("sendMessage"@, delivery::message_members(chat_id, body))
}

/// Sends a text to the configured chat.
pub fn telegram_send_text(telegram: &TelegramConfig, body: &str) -> (out: ApiCall)
    ensures
        out@ == send_text_call(telegram.chat_id@, body@),
{
    telegram_send_message(message_payload(telegram.chat_id.as_str(), body))
}

/// Sends a text to any chat.
pub fn telegram_send_text_to_chat(chat_id: &str, body: &str) -> (out: ApiCall)
    ensures
        out@ == send_text_call(chat_id@, body@),
{
    telegram_send_message(message_payload(chat_id, body))
}

/// The number of the message that was sent.
pub open spec fn sent_message_id(reply: JsonView) -> Option<int> {
    json::signed_at(json::at(reply.get("result"@), "message_id"@))
}

/// The number of the message that was sent, from Telegram's reply; `None` means that the reply
/// lacks `result.message_id`.
pub fn telegram_sent_message_id(reply: &Json) -> (out: Option<i64>)
    ensures
        json::opt_signed(out) == sent_message_id(reply@),
{
    match reply.get2("result", "message_id") {
        Some(v) => v.as_i64(),
        None => None,
    }
}

/// Shows an action, such as typing, in the chat.
pub fn telegram_send_chat_action(telegram: &TelegramConfig, action: &str) -> (out: ApiCall)
    ensures
        out@ == call_of(
            "sendChatAction"@,
            json::members().text("chat_id"@, telegram.chat_id@).text("action"@, action@),
        ),
{
    new_call(
        "sendChatAction",
        Fields::new().text("chat_id", telegram.chat_id.as_str()).text("action", action),
    )
}

/// The commands that the bot offers, each with its description.
pub open spec fn bot_commands() -> Seq<(Seq<char>, Seq<char>)> {
    seq![
        ("start"@, "Pair and show remote control help"@),
        ("help"@, "Show Telegram remote control commands"@),
        ("away"@, "Start remote Codex mode"@),
        ("back"@, "Stop remote Codex mode"@),
        ("repair"@, "Fix remote Codex mode"@),
        ("status"@, "Show remote Codex status"@),
        ("threads"@, "Show recent Codex threads"@),
        ("new"@, "Start a new Codex thread"@),
        ("project"@, "Show or switch the current project"@),
    ]
}

/// A command in the list that Telegram is given.
pub open spec fn bot_command(command: (Seq<char>, Seq<char>)) -> JsonView {
    json::members().text("command"@, command.0).text("description"@, command.1).object()
}

/// The commands in the list that Telegram is given.
pub open spec fn bot_command_views() -> Seq<JsonView> {
    Seq::new(bot_commands().len(), |i: int| bot_command(bot_commands()[i]))
}

fn push_bot_command(list: &mut Vec<Json>, command: &str, description: &str)
    ensures
        json::views(final(list)@) == json::views(old(list)@).push(
            bot_command((command@, description@)),
        ),
{
    push_json(
        list,
        Fields::new().text("command", command).text("description", description).object(),
    );
}

/// The commands that the bot offers.
pub fn telegram_bot_commands() -> (out: Vec<Json>)
    ensures
        json::views(out@) == bot_command_views(),
{
    let mut out: Vec<Json> = Vec::new();
    push_bot_command(&mut out, "start", "Pair and show remote control help");
    push_bot_command(&mut out, "help", "Show Telegram remote control commands");
    push_bot_command(&mut out, "away", "Start remote Codex mode");
    push_bot_command(&mut out, "back", "Stop remote Codex mode");
    push_bot_command(&mut out, "repair", "Fix remote Codex mode");
    push_bot_command(&mut out, "status", "Show remote Codex status");
    push_bot_command(&mut out, "threads", "Show recent Codex threads");
    push_bot_command(&mut out, "new", "Start a new Codex thread");
    push_bot_command(&mut out, "project", "Show or switch the current project");
    assert(json::views(out@) =~= bot_command_views());
    out
}

/// Registers the bot's commands.
pub fn telegram_set_my_commands() -> (out: ApiCall)
    ensures
        out@ == call_of(
            "setMyCommands"@,
            json::members().with("commands"@, JsonView::Array(bot_command_views())),
        ),
{
    new_call(
        "setMyCommands",
        Fields::new().with("commands", Json::array(telegram_bot_commands())),
    )
}

/// The answer to a tap on a button.
pub open spec fn answer_callback_call(callback_query_id: Seq<char>, body: Seq<char>) -> ApiCallView {
    call_of(
        "answerCallbackQuery"@,
        json::members().text("callback_query_id"@, callback_query_id).text("text"@, body).flag(
            "show_alert"@,
            false,
        ),
    )
}

/// Answers a tap on a button.
pub fn telegram_answer_callback_query(callback_query_id: &str, body: &str) -> (out: ApiCall)
    ensures
        out@ == answer_callback_call(callback_query_id@, body@),
{
    new_call(
        "answerCallbackQuery",
        Fields::new().text("callback_query_id", callback_query_id).text("text", body).flag(
            "show_alert",
            false,
        ),
    )
}

/// The replacement of a message's text. It names no keyboard, which removes the one there is.
pub open spec fn edit_text_call(
    chat_id: Seq<char>,
    message_id: int,
    body: Seq<char>,
) -> ApiCallView {
    call_of(
        "editMessageText"@,
        json::members().text("chat_id"@, chat_id).number("message_id"@, message_id).text(
            "text"@,
            body,
        ).flag("disable_web_page_preview"@, true),
    )
}

/// Replaces a bot message's text and removes its buttons.
pub fn telegram_edit_message_text(
    telegram: &TelegramConfig,
    message_id: i64,
    body: &str,
) -> (out: ApiCall)
    ensures
        out@ == edit_text_call(telegram.chat_id@, message_id as int, body@),
{
    new_call(
        "editMessageText",
        Fields::new().text("chat_id", telegram.chat_id.as_str()).number(
            "message_id",
            message_id as i128,
        ).text("text", body).flag("disable_web_page_preview", true),
    )
}

/// The removal of a message's buttons.
pub open spec fn remove_keyboard_call(chat_id: Seq<char>, message_id: int) -> ApiCallView {
    call_of(
        "editMessageReplyMarkup"@,
        json::members().text("chat_id"@, chat_id).number("message_id"@, message_id).with(
            "reply_markup"@,
            json::members().with("inline_keyboard"@, JsonView::Array(Seq::empty())).object(),
        ),
    )
}

/// Removes a message's buttons.
pub fn telegram_remove_inline_keyboard(telegram: &TelegramConfig, message_id: i64) -> (out: ApiCall)
    ensures
        out@ == remove_keyboard_call(telegram.chat_id@, message_id as int),
{
    let none: Vec<Json> = Vec::new();
    assert(json::views(none@) =~= Seq::<JsonView>::empty());
    let markup = Fields::new().with("inline_keyboard", Json::array(none)).object();
    new_call(
        "editMessageReplyMarkup",
        Fields::new().text("chat_id", telegram.chat_id.as_str()).number(
            "message_id",
            message_id as i128,
        ).with("reply_markup", markup),
    )
}

/// The deletion of a message.
pub open spec fn delete_message_call(chat_id: Seq<char>, message_id: int) -> ApiCallView {
    call_of(
        "deleteMessage"@,
        json::members().text("chat_id"@, chat_id).number("message_id"@, message_id),
    )
}

/// Deletes a message.
pub fn telegram_delete_message(chat_id: &str, message_id: i64) -> (out: ApiCall)
    ensures
        out@ == delete_message_call(chat_id@, message_id as int),
{
    new_call(
        "deleteMessage",
        Fields::new().text("chat_id", chat_id).number("message_id", message_id as i128),
    )
}

// ---------------------------------------------------------------------------------------------
// Reading
// ---------------------------------------------------------------------------------------------

/// The updates of a reply; `None` means that it lacks the array `result`.
pub fn telegram_updates_array(updates: &Json) -> (out: Option<&Vec<Json>>)
    ensures
        match out {
            Some(items) => json::items_at(updates@.get("result"@)) == Some(json::views(items@)),
            None => json::items_at(updates@.get("result"@)) is None,
        },
{
    match updates.get("result") {
        Some(v) => v.as_array(),
        None => None,
    }
}

/// An identifier that is written as a number or as a text.
pub open spec fn id_text(value: Option<JsonView>) -> Option<Seq<char>> {
    match json::signed_at(value) {
        Some(n) => Some(number::signed_decimal(n)),
        None => json::text_at(value),
    }
}

fn read_id(value: Option<&Json>) -> (out: Option<String>)
    ensures
        json::opt_string(out) == id_text(json::opt_view(value)),
{
    match value {
        Some(v) => match v.as_i64() {
            Some(n) => Some(to_signed_decimal(n)),
            None => match v.as_str() {
                Some(s) => Some(s.to_owned()),
                None => None,
            },
        },
        None => None,
    }
}

/// The chat of a message.
pub open spec fn chat_id_of(message: JsonView) -> Option<Seq<char>> {
    id_text(json::at(message.get("chat"@), "id"@))
}

/// The sender of a message.
pub open spec fn user_id_of(message: JsonView) -> Option<Seq<char>> {
    id_text(json::at(message.get("from"@), "id"@))
}

/// The number of a message.
pub open spec fn message_id_of(message: Option<JsonView>) -> Option<int> {
    json::signed_at(json::at(message, "message_id"@))
}

/// The chat of a message.
pub fn telegram_chat_id(message: &Json) -> (out: Option<String>)
    ensures
        json::opt_string(out) == chat_id_of(message@),
{
    read_id(message.get2("chat", "id"))
}

/// The sender of a message.
pub fn telegram_from_user_id(message: &Json) -> (out: Option<String>)
    ensures
        json::opt_string(out) == user_id_of(message@),
{
    read_id(message.get2("from", "id"))
}

/// The number of a message.
pub fn telegram_message_id(message: &Json) -> (out: Option<i64>)
    ensures
        json::opt_signed(out) == message_id_of(Some(message@)),
{
    message.i64_at("message_id")
}

/// The number of the message that a message replies to.
pub open spec fn reply_to_id(message: JsonView) -> Option<int> {
    message_id_of(message.get("reply_to_message"@))
}

/// The number of the message that a message replies to.
pub fn telegram_reply_to_id(message: &Json) -> (out: Option<i64>)
    ensures
        json::opt_signed(out) == reply_to_id(message@),
{
    match message.get("reply_to_message") {
        Some(reply) => telegram_message_id(reply),
        None => None,
    }
}

// ---------------------------------------------------------------------------------------------
// The bot's identity
// ---------------------------------------------------------------------------------------------

/// An identifier of a token: 16 digits of its digest.
pub open spec fn bot_id(bot_token: Seq<char>) -> Seq<char> {
    digest::sha256_text(bot_token).take(16)
}

/// An identifier of a token.
pub fn telegram_bot_id(bot_token: &str) -> (out: String)
    ensures
        out@ == bot_id(bot_token@),
{
    let digest = sha256_hex(bot_token);
    take_chars(digest.as_str(), 16).to_owned()
}

/// All characters are decimal digits.
pub open spec fn all_digits(s: Seq<char>) -> bool {
    forall|i: int| 0 <= i < s.len() ==> number::is_digit(#[trigger] s[i])
}

/// The part of a token before the colon, where that is a number; an identifier of the whole token
/// otherwise.
pub open spec fn stable_bot_id(bot_token: Seq<char>) -> Seq<char> {
    let token = text::trimmed(bot_token);
    let k = text::first_index(token, ':');
    if 0 < k < token.len() && all_digits(token.take(k)) {
        token.take(k)
    } else {
        bot_id(bot_token)
    }
}

/// The bot's own numeric id, the part of the token before the colon. Unlike `telegram_bot_id`, it
/// survives a token rotation for the same bot.
pub fn telegram_stable_bot_id(bot_token: &str) -> (out: String)
    ensures
        out@ == stable_bot_id(bot_token@),
{
    let token = trim(bot_token);
    if let Some(k) = find_char(token, ':') {
        let id = token.substring_char(0, k);
        assert(id@ =~= token@.take(k as int));
        let mut i: usize = 0;
        while i < k && '0' <= id.get_char(i) && id.get_char(i) <= '9'
            invariant
                id@.len() == k,
                i <= k,
                forall|j: int| 0 <= j < i ==> number::is_digit(#[trigger] id@[j]),
            decreases k - i,
        {
            i = i + 1;
        }
        if k > 0 && i == k {
            return id.to_owned();
        }
        if i < k {
            assert(!number::is_digit(id@[i as int]));
        }
    } else {
        proof {
            text::lemma_first_index(token@, ':');
        }
    }
    telegram_bot_id(bot_token)
}

/// Two tokens of one bot, which differ behind the colon alone, give the same identifier.
pub proof fn stable_bot_id_survives_rotation(
    first: Seq<char>,
    second: Seq<char>,
    id: Seq<char>,
    first_secret: Seq<char>,
    second_secret: Seq<char>,
)
    requires
        id.len() > 0,
        all_digits(id),
        text::trimmed(first) == id.push(':') + first_secret,
        text::trimmed(second) == id.push(':') + second_secret,
    ensures
        stable_bot_id(first) == id,
        stable_bot_id(first) == stable_bot_id(second),
{
    let a = text::trimmed(first);
    let b = text::trimmed(second);
    assert forall|i: int| 0 <= i < id.len() implies a[i] != ':' && b[i] != ':' by {
        assert(number::is_digit(id[i]));
    }
    text::lemma_first_index_is(a, ':', id.len() as int);
    text::lemma_first_index_is(b, ':', id.len() as int);
    assert(a.take(id.len() as int) =~= id);
    assert(b.take(id.len() as int) =~= id);
}

} // verus!
