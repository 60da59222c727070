//! Telegram: what is asked of it, what its replies mean, and how a chat is paired with the bridge.

use vstd::prelude::*;

use crate::api;
use crate::api::ApiCall;
use crate::digest;
use crate::json;
use crate::json::Json;
use crate::json::JsonView;
use crate::laws::names;
use crate::laws::texts;
use crate::laws::values;
use crate::setup;
use crate::setup::CheckedSetup;
use crate::setup::PairingScan;
use crate::setup::SetupError;
use crate::setup::SetupOutcome;
use crate::setup::SetupPairing;
use crate::text;
use crate::types::TelegramConfig;

verus! {

// ---------------------------------------------------------------------------------------------
// Calls
// ---------------------------------------------------------------------------------------------

/// A method is called at the address of the bot, without blanks around token and method.
pub proof fn methods_are_called_at_the_bots_address(
    bot_token: &str,
    method: &str,
    token: Seq<char>,
    name: Seq<char>,
    url: String,
)
    requires
        call_ensures(api::telegram_api_url, (bot_token, method), url),
        texts::trims_to(bot_token@, token),
        texts::trims_to(method@, name),
    ensures
        url@ == "https://api.telegram.org/bot"@ + token + "/"@ + name,
{
    texts::trimming_gives_what_is_between_the_blanks(bot_token@, token);
    texts::trimming_gives_what_is_between_the_blanks(method@, name);
}

/// A reply counts where Telegram says that it is well, and comes back unchanged; any other is an
/// error that names the method and quotes the reply.
pub proof fn only_replies_marked_well_count(
    method: &str,
    reply: Json,
    reply_text: &str,
    out: Result<Json, String>,
)
    requires
        call_ensures(api::telegram_api_reply, (method, reply, reply_text), out),
    ensures
        json::truth_at(reply@.get("ok"@)) == Some(true) ==> out == Ok::<Json, String>(reply),
        json::truth_at(reply@.get("ok"@)) != Some(true) ==> out is Err && out->Err_0@
            == "Telegram API "@ + method@ + " returned error: "@ + reply_text@,
{
}

/// Updates are asked for from the offset on, where there is one, for the time to wait, and messages
/// and taps only.
pub proof fn updates_are_asked_for_from_the_offset(
    offset: Option<i64>,
    timeout_seconds: u64,
    call: ApiCall,
)
    requires
        call_ensures(api::telegram_get_updates, (offset, timeout_seconds), call),
    ensures
        call.method@ == "getUpdates"@,
        offset matches Some(n) ==> call.payload@.get("offset"@) == Some(JsonView::Int(n as int)),
        offset is None ==> call.payload@.get("offset"@) is None,
        call.payload@.get("timeout"@) == Some(JsonView::Int(timeout_seconds as int)),
        json::items_at(call.payload@.get("allowed_updates"@)) == Some(
            seq![JsonView::Str("message"@), JsonView::Str("callback_query"@)],
        ),
{
    broadcast use values::added_members_are_found;
    broadcast use values::no_members_are_found;

    names::names_differ();
    assert(call@ == api::call_of(
        "getUpdates"@,
        api::get_updates_members(json::opt_signed(offset), timeout_seconds as int),
    ));
    assert(json::str_views(seq!["message"@, "callback_query"@]) =~= seq![
        JsonView::Str("message"@),
        JsonView::Str("callback_query"@),
    ]);
}

/// A webhook is taken down without losing the updates that wait.
pub proof fn waiting_updates_are_kept(call: ApiCall)
    requires
        call_ensures(api::telegram_delete_webhook, (), call),
    ensures
        call.method@ == "deleteWebhook"@,
        json::truth_at(call.payload@.get("drop_pending_updates"@)) == Some(false),
{
    broadcast use values::added_members_are_found;
    broadcast use values::no_members_are_found;

    assert(call@ == api::call_of(
        "deleteWebhook"@,
        json::members().flag("drop_pending_updates"@, false),
    ));
}

/// A text is sent to the chat as it is.
pub proof fn texts_are_sent_as_they_are(
    telegram: &TelegramConfig,
    chat_id: &str,
    body: &str,
    payload: Json,
    own: ApiCall,
    other: ApiCall,
    built: ApiCall,
)
    requires
        call_ensures(api::telegram_send_text, (telegram, body), own),
        call_ensures(api::telegram_send_text_to_chat, (chat_id, body), other),
        call_ensures(api::telegram_send_message, (payload,), built),
    ensures
        own.method@ == "sendMessage"@,
        other.method@ == "sendMessage"@,
        built.method@ == "sendMessage"@,
        built.payload == payload,
        json::text_at(own.payload@.get("chat_id"@)) == Some(telegram.chat_id@),
        json::text_at(own.payload@.get("text"@)) == Some(body@),
        json::text_at(other.payload@.get("chat_id"@)) == Some(chat_id@),
        json::text_at(other.payload@.get("text"@)) == Some(body@),
{
    broadcast use values::added_members_are_found;
    broadcast use values::no_members_are_found;

    names::names_differ();
    assert(own@ == api::send_text_call(telegram.chat_id@, body@));
    assert(other@ == api::send_text_call(chat_id@, body@));
}

/// A tap is answered by its identifier with a short text, and without an alert.
pub proof fn taps_are_answered_quietly(callback_query_id: &str, body: &str, call: ApiCall)
    requires
        call_ensures(api::telegram_answer_callback_query, (callback_query_id, body), call),
    ensures
        call.method@ == "answerCallbackQuery"@,
        json::text_at(call.payload@.get("callback_query_id"@)) == Some(callback_query_id@),
        json::text_at(call.payload@.get("text"@)) == Some(body@),
        json::truth_at(call.payload@.get("show_alert"@)) == Some(false),
{
    broadcast use values::added_members_are_found;
    broadcast use values::no_members_are_found;

    names::names_differ();
    assert(call@ == api::answer_callback_call(callback_query_id@, body@));
}

/// A message is edited, stripped of its buttons or deleted by its chat and its identifier.
pub proof fn messages_are_changed_by_chat_and_identifier(
    telegram: &TelegramConfig,
    chat_id: &str,
    message_id: i64,
    body: &str,
    edit: ApiCall,
    strip: ApiCall,
    delete: ApiCall,
)
    requires
        call_ensures(api::telegram_edit_message_text, (telegram, message_id, body), edit),
        call_ensures(api::telegram_remove_inline_keyboard, (telegram, message_id), strip),
        call_ensures(api::telegram_delete_message, (chat_id, message_id), delete),
    ensures
        edit.method@ == "editMessageText"@,
        json::text_at(edit.payload@.get("chat_id"@)) == Some(telegram.chat_id@),
        json::signed_at(edit.payload@.get("message_id"@)) == Some(message_id as int),
        json::text_at(edit.payload@.get("text"@)) == Some(body@),
        edit.payload@.get("reply_markup"@) is None,
        strip.method@ == "editMessageReplyMarkup"@,
        json::text_at(strip.payload@.get("chat_id"@)) == Some(telegram.chat_id@),
        json::signed_at(strip.payload@.get("message_id"@)) == Some(message_id as int),
        json::items_at(json::at(strip.payload@.get("reply_markup"@), "inline_keyboard"@)) == Some(
            Seq::<JsonView>::empty(),
        ),
        delete.method@ == "deleteMessage"@,
        json::text_at(delete.payload@.get("chat_id"@)) == Some(chat_id@),
        json::signed_at(delete.payload@.get("message_id"@)) == Some(message_id as int),
{
    broadcast use values::added_members_are_found;
    broadcast use values::no_members_are_found;

    names::names_differ();
    assert(edit@ == api::edit_text_call(telegram.chat_id@, message_id as int, body@));
    assert(strip@ == api::remove_keyboard_call(telegram.chat_id@, message_id as int));
    assert(delete@ == api::delete_message_call(chat_id@, message_id as int));
}

/// What the bot does is shown in the chat.
pub proof fn actions_are_shown_in_the_chat(telegram: &TelegramConfig, action: &str, call: ApiCall)
    requires
        call_ensures(api::telegram_send_chat_action, (telegram, action), call),
    ensures
        call.method@ == "sendChatAction"@,
        json::text_at(call.payload@.get("chat_id"@)) == Some(telegram.chat_id@),
        json::text_at(call.payload@.get("action"@)) == Some(action@),
{
    broadcast use values::added_members_are_found;
    broadcast use values::no_members_are_found;

    names::names_differ();
    assert(call@ == api::call_of(
        "sendChatAction"@,
        json::members().text("chat_id"@, telegram.chat_id@).text("action"@, action@),
    ));
}

/// The commands that Telegram offers, each with a description.
pub proof fn the_menu_has_every_command(i: int)
    requires
        0 <= i < 9,
    ensures
        api::bot_command_views().len() == 9,
        json::text_at(api::bot_command_views()[i].get("command"@)) == Some(
            seq![
                "start"@,
                "help"@,
                "away"@,
                "back"@,
                "repair"@,
                "status"@,
                "threads"@,
                "new"@,
                "project"@,
            ][i],
        ),
        json::text_at(api::bot_command_views()[i].get("description"@)) == Some(
            seq![
                "Pair and show remote control help"@,
                "Show Telegram remote control commands"@,
                "Start remote Codex mode"@,
                "Stop remote Codex mode"@,
                "Fix remote Codex mode"@,
                "Show remote Codex status"@,
                "Show recent Codex threads"@,
                "Start a new Codex thread"@,
                "Show or switch the current project"@,
            ][i],
        ),
{
    broadcast use values::added_members_are_found;
    broadcast use values::no_members_are_found;

    names::names_differ();
    assert(api::bot_command_views()[i] == api::bot_command(api::bot_commands()[i]));
}

// ---------------------------------------------------------------------------------------------
// Replies
// ---------------------------------------------------------------------------------------------

/// A sent message is known by the identifier in the result, and a reply by that of the message it
/// replies to.
pub proof fn messages_are_known_by_their_identifier(
    reply: &Json,
    message: &Json,
    sent: Option<i64>,
    own: Option<i64>,
    replied: Option<i64>,
)
    requires
        call_ensures(api::telegram_sent_message_id, (reply,), sent),
        call_ensures(api::telegram_message_id, (message,), own),
        call_ensures(api::telegram_reply_to_id, (message,), replied),
    ensures
        json::opt_signed(sent) == json::signed_at(json::at(reply@.get("result"@), "message_id"@)),
        json::opt_signed(own) == json::signed_at(message@.get("message_id"@)),
        json::opt_signed(replied) == json::signed_at(
            json::at(message@.get("reply_to_message"@), "message_id"@),
        ),
{
}

/// The identifier of a bot is the number before the colon of its token; a token without one is
/// known by the beginning of its digest.
pub proof fn bots_are_known_by_their_number(token: Seq<char>, bare: Seq<char>)
    requires
        texts::trims_to(token, bare),
        digest::sha256_text(token).len() == 64,
    ensures
        !bare.contains(':') ==> api::stable_bot_id(token) == digest::sha256_text(token).take(16),
        bare.len() > 0 && bare[0] == ':' ==> api::stable_bot_id(token) == digest::sha256_text(
            token,
        ).take(16),
        api::bot_id(token).len() == 16,
{
    texts::trimming_gives_what_is_between_the_blanks(token, bare);
    text::lemma_first_index(bare, ':');
}

// ---------------------------------------------------------------------------------------------
// Pairing
// ---------------------------------------------------------------------------------------------

/// A setup must name events, a bridge command and an address, in this order of complaints, and they
/// are taken without the blanks around them.
pub proof fn setups_are_checked(
    events: &str,
    bridge_command: &str,
    websocket_url: &str,
    out: Result<CheckedSetup, SetupError>,
)
    requires
        call_ensures(setup::check_setup, (events, bridge_command, websocket_url), out),
    ensures
        text::blank(events@) ==> out == Err::<CheckedSetup, SetupError>(SetupError::EmptyEvents),
        !text::blank(events@) && text::blank(bridge_command@) ==> out == Err::<
            CheckedSetup,
            SetupError,
        >(SetupError::EmptyBridgeCommand),
        !text::blank(events@) && !text::blank(bridge_command@) && text::blank(websocket_url@)
            ==> out == Err::<CheckedSetup, SetupError>(SetupError::EmptyWebsocketUrl),
        !text::blank(events@) && !text::blank(bridge_command@) && !text::blank(websocket_url@) ==> {
            &&& out matches Ok(checked) && texts::trims_to(events@, checked.events@)
                && texts::trims_to(bridge_command@, checked.bridge_command@) && texts::trims_to(
                websocket_url@,
                checked.websocket_url@,
            )
        },
{
    texts::trimming_takes_only_the_blanks_around(events@);
    texts::trimming_takes_only_the_blanks_around(bridge_command@);
    texts::trimming_takes_only_the_blanks_around(websocket_url@);
}

/// A chat that is named is used, a trial run pretends one, and else the user has to pair; a blank
/// name is none.
pub proof fn named_chats_need_no_pairing(
    bot_token: &str,
    chat_id: Option<&str>,
    allowed_user_id: Option<&str>,
    dry_run: bool,
    out: SetupPairing,
)
    requires
        call_ensures(setup::setup_pairing, (bot_token, chat_id, allowed_user_id, dry_run), out),
    ensures
        ({
            let named = chat_id is Some && !text::blank(chat_id->0@);
            &&& out is Discover <==> !named && !dry_run
            &&& out matches SetupPairing::Known(config) ==> {
                &&& config.bot_token@ == bot_token@
                &&& named ==> texts::trims_to(chat_id->0@, config.chat_id@)
                &&& !named ==> config.chat_id@ == "<paired by /start>"@
                &&& allowed_user_id is Some && !text::blank(allowed_user_id->0@) ==> (
                config.allowed_user_id matches Some(user) && texts::trims_to(
                    allowed_user_id->0@,
                    user@,
                ))
                &&& allowed_user_id is None || text::blank(allowed_user_id->0@)
                    ==> config.allowed_user_id is None
            }
        }),
{
    if chat_id is Some {
        texts::trimming_takes_only_the_blanks_around(chat_id->0@);
    }
    if allowed_user_id is Some {
        texts::trimming_takes_only_the_blanks_around(allowed_user_id->0@);
    }
}

/// The update is a message that says `/start`, with blanks around it or without.
pub open spec fn says_start(update: JsonView) -> bool {
    json::text_at(json::at(update.get("message"@), "text"@)) matches Some(body) && texts::trims_to(
        body,
        "/start"@,
    )
}

proof fn lemma_says_start(update: JsonView)
    ensures
        says_start(update) <==> setup::is_start(update),
{
    if let Some(body) = json::text_at(json::at(update.get("message"@), "text"@)) {
        texts::trimming_takes_only_the_blanks_around(body);
        if says_start(update) {
            texts::trimming_gives_what_is_between_the_blanks(body, "/start"@);
        }
    }
}

proof fn lemma_first_start(updates: Seq<JsonView>, k: int)
    requires
        0 <= k <= updates.len(),
        k < updates.len() ==> setup::is_start(updates[k]),
        forall|i: int| 0 <= i < k ==> !setup::is_start(#[trigger] updates[i]),
    ensures
        setup::start_at(updates) == k,
    decreases k,
{
    if k > 0 {
        let rest = updates.skip(1);
        assert(!setup::is_start(updates[0]));
        assert forall|i: int| 0 <= i < k - 1 implies !setup::is_start(#[trigger] rest[i]) by {
            assert(rest[i] == updates[i + 1]);
        }
        lemma_first_start(rest, k - 1);
    }
}

/// The chat of the first message that says `/start` is paired, with the user who sent it; without
/// such a message nothing is.
pub proof fn the_first_start_is_paired(
    bot_token: &str,
    updates: &Vec<Json>,
    offset: Option<i64>,
    k: int,
    out: PairingScan,
)
    requires
        call_ensures(setup::scan_pairing_updates, (bot_token, updates, offset), out),
        0 <= k <= updates@.len(),
        k < updates@.len() ==> says_start(updates@[k]@),
        forall|i: int| 0 <= i < k ==> !says_start((#[trigger] updates@[i])@),
    ensures
        k == updates@.len() ==> (out matches PairingScan::Nothing { offset: next }
            && json::opt_signed(next) == setup::next_offset(
            json::views(updates@),
            json::opt_signed(offset),
        )),
        k < updates@.len() ==> ({
            let message = updates@[k]@.get("message"@)->0;
            &&& api::chat_id_of(message) is None ==> out is NoChat
            &&& api::chat_id_of(message) matches Some(chat) ==> {
                &&& out matches PairingScan::Paired(config) && config.chat_id@ == chat
                    && config.bot_token@ == bot_token@ && json::opt_string(config.allowed_user_id)
                    == api::user_id_of(message)
            }
        }),
{
    let all = json::views(updates@);
    assert forall|i: int| 0 <= i < k implies !setup::is_start(#[trigger] all[i]) by {
        assert(all[i] == updates@[i]@);
        lemma_says_start(all[i]);
    }
    if k < updates@.len() {
        assert(all[k] == updates@[k]@);
        lemma_says_start(all[k]);
    }
    lemma_first_start(all, k);
}

/// Asking again goes on behind the last update that has a number.
pub proof fn pairing_goes_on_behind_the_last_update(
    updates: Seq<JsonView>,
    last: JsonView,
    offset: Option<int>,
)
    ensures
        json::signed_at(last.get("update_id"@)) matches Some(id) ==> (id < i64::MAX
            ==> setup::next_offset(updates.push(last), offset) == Some(id + 1)),
        json::signed_at(last.get("update_id"@)) is None ==> setup::next_offset(
            updates.push(last),
            offset,
        ) == setup::next_offset(updates, offset),
        setup::next_offset(Seq::empty(), offset) == offset,
{
    assert(updates.push(last).drop_last() =~= updates);
}

/// What is reported of a setup: the chat, the user and the commands to go on with, without the
/// token.
pub proof fn setups_are_reported(outcome: SetupOutcome)
    ensures
        ({
            let report = setup::setup_report(outcome);
            let telegram = report.get("telegram"@);
            &&& json::truth_at(report.get("ok"@)) == Some(true)
            &&& json::text_at(report.get("action"@)) == Some("telegram_setup"@)
            &&& json::truth_at(json::at(telegram, "configured"@)) == Some(true)
            &&& json::truth_at(report.get("dryRun"@)) == Some(outcome.dry_run)
            &&& json::text_at(report.get("configPath"@)) == Some(outcome.config_path@)
            &&& json::text_at(json::at(telegram, "botToken"@)) == Some("<redacted>"@)
            &&& json::text_at(json::at(telegram, "chatId"@)) == Some(outcome.paired.chat_id@)
            &&& json::text_at(json::at(telegram, "allowedUserId"@)) == json::opt_string(
                outcome.paired.allowed_user_id,
            )
            &&& outcome.chat_named ==> json::at(telegram, "pairing"@) == Some(JsonView::Null)
            &&& !outcome.chat_named ==> json::at(json::at(telegram, "pairing"@), "timeoutMs"@)
                == Some(JsonView::Int(outcome.pair_timeout_ms as int))
            &&& json::at(telegram, "commands"@) == Some(outcome.registration@)
            &&& report.get("config"@) == Some(outcome.redacted_config@)
            &&& json::text_at(report.get("daemonCommand"@)) == Some(outcome.daemon_command@)
            &&& json::text_at(report.get("daemonInstallCommand"@)) == Some(
                outcome.quoted_bridge_command@ + " daemon install --bridge-command "@
                    + outcome.quoted_bridge_command@,
            )
        }),
{
    broadcast use values::added_members_are_found;
    broadcast use values::no_members_are_found;

    names::names_differ();
}

/// Commands are registered where Telegram replied, and a trial run says that they would be.
pub proof fn registrations_are_reported(reply: JsonView)
    ensures
        json::truth_at(setup::registration(Some(reply)).get("registered"@)) == Some(true),
        setup::registration(Some(reply)).get("response"@) == Some(reply),
        json::truth_at(setup::registration(None).get("registered"@)) == Some(false),
        json::truth_at(setup::registration(None).get("dryRun"@)) == Some(true),
        json::items_at(setup::registration(Some(reply)).get("commands"@)) == Some(
            api::bot_command_views(),
        ),
        json::items_at(setup::registration(None).get("commands"@)) == Some(
            api::bot_command_views(),
        ),
{
    broadcast use values::added_members_are_found;
    broadcast use values::no_members_are_found;

    names::names_differ();
}

/// A test message says what the user gave, or what it is.
pub proof fn test_messages_say_what_was_given(
    telegram: &TelegramConfig,
    message: Option<&str>,
    payload: Json,
)
    requires
        call_ensures(setup::test_message_payload, (telegram, message), payload),
    ensures
        json::text_at(payload@.get("chat_id"@)) == Some(telegram.chat_id@),
        message matches Some(body) ==> json::text_at(payload@.get("text"@)) == Some(body@),
        message is None ==> json::text_at(payload@.get("text"@)) == Some(
            "Codex Telegram bridge test"@,
        ),
{
    broadcast use values::added_members_are_found;
    broadcast use values::no_members_are_found;

    names::names_differ();
}

/// The status tells whether the bridge is configured, and how; a test, which message it sent.
pub proof fn status_and_test_are_reported(
    config_path: &str,
    configured: bool,
    config: Option<&Json>,
    sent: &Json,
    payload: Json,
    status: Json,
    dry: Json,
    done: Json,
)
    requires
        call_ensures(setup::telegram_status_report, (config_path, configured, config), status),
        call_ensures(setup::test_dry_report, (payload,), dry),
        call_ensures(setup::test_sent_report, (sent,), done),
    ensures
        json::truth_at(status@.get("configured"@)) == Some(configured),
        json::text_at(status@.get("configPath"@)) == Some(config_path@),
        status@.get("config"@) == Some(json::or_null(json::opt_view(config))),
        json::truth_at(dry@.get("dryRun"@)) == Some(true),
        dry@.get("payload"@) == Some(payload@),
        json::truth_at(done@.get("dryRun"@)) == Some(false),
        done@.get("messageId"@) == Some(
            json::or_null(json::at(sent@.get("result"@), "message_id"@)),
        ),
{
    broadcast use values::added_members_are_found;
    broadcast use values::no_members_are_found;

    names::names_differ();
}

/// What is wrong with a setup is told in words.
pub proof fn refused_setups_are_explained(error: SetupError)
    ensures
        error is EmptyEvents ==> setup::setup_error(error)
            == "telegram setup events cannot be empty"@,
        error is EmptyBridgeCommand ==> setup::setup_error(error)
            == "telegram setup bridge command cannot be empty"@,
        error is EmptyWebsocketUrl ==> setup::setup_error(error)
            == "telegram setup websocket url cannot be empty"@,
{
}

/// A request that failed names its method and its reason, and updates are those of the result.
pub proof fn failed_requests_name_their_method(
    method: &str,
    reason: &str,
    reply: &Json,
    told: String,
    list: Option<&Vec<Json>>,
)
    requires
        call_ensures(api::telegram_request_failed_text, (method, reason), told),
        call_ensures(api::telegram_updates_array, (reply,), list),
    ensures
        told@ == "Telegram API "@ + method@ + " request failed: "@ + reason@,
        list is None <==> json::items_at(reply@.get("result"@)) is None,
        list matches Some(items) ==> json::items_at(reply@.get("result"@)) == Some(
            json::views(items@),
        ),
{
}

/// The commands that are registered are those of the menu.
pub proof fn the_menu_is_registered(call: ApiCall, list: Vec<Json>)
    requires
        call_ensures(api::telegram_set_my_commands, (), call),
        call_ensures(api::telegram_bot_commands, (), list),
    ensures
        call.method@ == "setMyCommands"@,
        json::items_at(call.payload@.get("commands"@)) == Some(api::bot_command_views()),
        json::views(list@) == api::bot_command_views(),
{
    broadcast use values::added_members_are_found;
    broadcast use values::no_members_are_found;

    assert(call@ == api::call_of(
        "setMyCommands"@,
        json::members().with("commands"@, JsonView::Array(api::bot_command_views())),
    ));
}

/// What stands before the colon is the number of a bot only where it is one.
pub proof fn other_tokens_are_known_by_their_digest(
    token: Seq<char>,
    front: Seq<char>,
    secret: Seq<char>,
    k: int,
)
    requires
        texts::trims_to(token, front.push(':') + secret),
        0 <= k < front.len(),
        !('0' <= front[k] <= '9'),
        !front.contains(':'),
    ensures
        api::stable_bot_id(token) == digest::sha256_text(token).take(16),
{
    let bare = front.push(':') + secret;
    texts::trimming_gives_what_is_between_the_blanks(token, bare);
    assert forall|i: int| 0 <= i < front.len() implies bare[i] != ':' by {
        assert(bare[i] == front[i]);
        if front[i] == ':' {
            assert(front.contains(':'));
        }
    }
    text::lemma_first_index_is(bare, ':', front.len() as int);
    assert(bare.take(front.len() as int) =~= front);
    assert(bare.take(front.len() as int)[k] == front[k]);
}

} // verus!
