//! Setting up the bot: checking the options, pairing a chat, and the reports of the setup commands.

use vstd::prelude::*;

use crate::api;
use crate::api::telegram_bot_commands;
use crate::api::telegram_chat_id;
use crate::api::telegram_from_user_id;
use crate::delivery;
use crate::delivery::message_payload;
use crate::json;
use crate::json::Fields;
use crate::json::Json;
use crate::json::JsonView;
use crate::text;
use crate::text::cat3;
use crate::text::same_text;
use crate::text::trim;
use crate::types::TelegramConfig;

verus! {

// ---------------------------------------------------------------------------------------------
// Options
// ---------------------------------------------------------------------------------------------

/// Why options are refused.
#[derive(Debug, Clone, Copy, PartialEq, Eq, Structural)]
pub enum SetupError {
    EmptyEvents,
    EmptyBridgeCommand,
    EmptyWebsocketUrl,
}

/// The error in words.
pub open spec fn setup_error(error: SetupError) -> Seq<char> {
    match error {
        SetupError::EmptyEvents => "telegram setup events cannot be empty"@,
        SetupError::EmptyBridgeCommand => "telegram setup bridge command cannot be empty"@,
        SetupError::EmptyWebsocketUrl => "telegram setup websocket url cannot be empty"@,
    }
}

impl SetupError {
    /// The error in words.
    pub fn message(&self) -> (out: &'static str)
        ensures
            out@ == setup_error(*self),
    {
        match self {
            SetupError::EmptyEvents => "telegram setup events cannot be empty",
            SetupError::EmptyBridgeCommand => "telegram setup bridge command cannot be empty",
            SetupError::EmptyWebsocketUrl => "telegram setup websocket url cannot be empty",
        }
    }
}

/// Options that are not blank, trimmed.
#[derive(Debug, PartialEq, Eq)]
pub struct CheckedSetup {
    pub events: String,
    pub bridge_command: String,
    pub websocket_url: String,
}

/// The first blank option, if any.
pub open spec fn blank_option(
    events: Seq<char>,
    bridge_command: Seq<char>,
    websocket_url: Seq<char>,
) -> Option<SetupError> {
    if text::blank(events) {
        Some(SetupError::EmptyEvents)
    } else if text::blank(bridge_command) {
        Some(SetupError::EmptyBridgeCommand)
    } else if text::blank(websocket_url) {
        Some(SetupError::EmptyWebsocketUrl)
    } else {
        None
    }
}

/// Checks the options of a setup.
pub fn check_setup(events: &str, bridge_command: &str, websocket_url: &str) -> (out: Result<
    CheckedSetup,
    SetupError,
>)
    ensures
        match out {
            Ok(checked) => {
                &&& blank_option(events@, bridge_command@, websocket_url@) is None
                &&& checked.events@ == text::trimmed(events@)
                &&& checked.bridge_command@ == text::trimmed(bridge_command@)
                &&& checked.websocket_url@ == text::trimmed(websocket_url@)
            },
            Err(error) => blank_option(events@, bridge_command@, websocket_url@) == Some(error),
        },
{
    let events = trim(events);
    let bridge_command = trim(bridge_command);
    let websocket_url = trim(websocket_url);
    if events.unicode_len() == 0 {
        return Err(SetupError::EmptyEvents);
    }
    if bridge_command.unicode_len() == 0 {
        return Err(SetupError::EmptyBridgeCommand);
    }
    if websocket_url.unicode_len() == 0 {
        return Err(SetupError::EmptyWebsocketUrl);
    }
    Ok(
        CheckedSetup {
            events: events.to_owned(),
            bridge_command: bridge_command.to_owned(),
            websocket_url: websocket_url.to_owned(),
        },
    )
}

/// An option that is given and not blank, trimmed.
pub open spec fn given(value: Option<Seq<char>>) -> Option<Seq<char>> {
    match value {
        Some(s) => if text::blank(s) {
            None
        } else {
            Some(text::trimmed(s))
        },
        None => None,
    }
}

fn read_given(value: Option<&str>) -> (out: Option<String>)
    ensures
        json::opt_string(out) == given(json::opt_text(value)),
{
    match value {
        Some(s) => {
            let kept = trim(s);
            if kept.unicode_len() == 0 {
                None
            } else {
                Some(kept.to_owned())
            }
        },
        None => None,
    }
}

/// How the chat of the bot is found.
#[derive(Debug, PartialEq, Eq)]
pub enum SetupPairing {
    Known(TelegramConfig),
    /// The user has to send /start to the bot.
    Discover,
}

/// Finds the chat of the bot: the one that is given; where none is given, one that a dry run leaves
/// open, and otherwise the one from which /start comes.
pub fn setup_pairing(
    bot_token: &str,
    chat_id: Option<&str>,
    allowed_user_id: Option<&str>,
    dry_run: bool,
) -> (out: SetupPairing)
    ensures
        ({
            let chat = given(json::opt_text(chat_id));
            match out {
                SetupPairing::Known(config) => {
                    &&& chat is Some || dry_run
                    &&& config.bot_token@ == bot_token@
                    &&& config.chat_id@ == if chat is Some {
                        chat->0
                    } else {
                        "<paired by /start>"@
                    }
                    &&& json::opt_string(config.allowed_user_id) == given(
                        json::opt_text(allowed_user_id),
                    )
                },
                SetupPairing::Discover => chat is None && !dry_run,
            }
        }),
{
    match read_given(chat_id) {
        Some(chat_id) => SetupPairing::Known(
            TelegramConfig {
                bot_token: bot_token.to_owned(),
                chat_id,
                allowed_user_id: read_given(allowed_user_id),
            },
        ),
        None => if dry_run {
            SetupPairing::Known(
                TelegramConfig {
                    bot_token: bot_token.to_owned(),
                    chat_id: "<paired by /start>".to_owned(),
                    allowed_user_id: read_given(allowed_user_id),
                },
            )
        } else {
            SetupPairing::Discover
        },
    }
}

// ---------------------------------------------------------------------------------------------
// Pairing
// ---------------------------------------------------------------------------------------------

/// The update is a message that says /start and no more.
pub open spec fn is_start(update: JsonView) -> bool {
    match update.get("message"@) {
        Some(message) => match json::text_at(message.get("text"@)) {
            Some(body) => text::trimmed(body) == "/start"@,
            None => false,
        },
        None => false,
    }
}

fn is_start_update(update: &Json) -> (yes: bool)
    ensures
        yes == is_start(update@),
{
    match update.get("message") {
        Some(message) => match message.str_at("text") {
            Some(body) => same_text(trim(body), "/start"),
            None => false,
        },
        None => false,
    }
}

/// The first update that says /start, or the number of updates.
pub open spec fn start_at(updates: Seq<JsonView>) -> int
    decreases updates.len(),
{
    if updates.len() == 0 || is_start(updates[0]) {
        0
    } else {
        1 + start_at(updates.skip(1))
    }
}

/// The first update to ask for next: the one behind the last of `updates` that has a number.
pub open spec fn next_offset(updates: Seq<JsonView>, offset: Option<int>) -> Option<int>
    decreases updates.len(),
{
    if updates.len() == 0 {
        offset
    } else {
        match json::signed_at(updates.last().get("update_id"@)) {
            Some(id) => Some(
                if id < i64::MAX {
                    id + 1
                } else {
                    id
                },
            ),
            None => next_offset(updates.drop_last(), offset),
        }
    }
}

/// What was found among updates.
#[derive(Debug, PartialEq, Eq)]
pub enum PairingScan {
    /// Nobody sent /start; ask again from this offset.
    Nothing { offset: Option<i64> },
    Paired(TelegramConfig),
    /// The message with /start lacks `chat.id`.
    NoChat,
}

/// The message of an update.
pub open spec fn message_of(update: JsonView) -> JsonView {
    match update.get("message"@) {
        Some(message) => message,
        None => JsonView::Null,
    }
}

/// Looks for /start among updates: the chat that it comes from is paired, and so is its sender.
pub fn scan_pairing_updates(
    bot_token: &str,
    updates: &Vec<Json>,
    offset: Option<i64>,
) -> (out: PairingScan)
    ensures
        ({
            let all = json::views(updates@);
            let at = start_at(all);
            let message = message_of(all[at]);
            match out {
                PairingScan::Nothing { offset: next } => at == all.len() && json::opt_signed(next)
                    == next_offset(all, json::opt_signed(offset)),
                PairingScan::Paired(config) => {
                    &&& at < all.len()
                    &&& config.bot_token@ == bot_token@
                    &&& api::chat_id_of(message) == Some(config.chat_id@)
                    &&& json::opt_string(config.allowed_user_id) == api::user_id_of(message)
                },
                PairingScan::NoChat => at < all.len() && api::chat_id_of(message) is None,
            }
        }),
{
    let ghost all = json::views(updates@);
    let mut next: Option<i64> = offset;
    let mut i: usize = 0;
    assert(all.skip(0) =~= all);
    assert(all.take(0) =~= Seq::<JsonView>::empty());
    while i < updates.len()
        invariant
            all == json::views(updates@),
            i <= updates@.len(),
            i + start_at(all.skip(i as int)) == start_at(all),
            json::opt_signed(next) == next_offset(all.take(i as int), json::opt_signed(offset)),
        decreases updates@.len() - i,
    {
        let update = &updates[i];
        assert(all.skip(i as int)[0] == all[i as int]);
        assert(all.skip(i as int).skip(1) =~= all.skip(i + 1));
        assert(all.take(i + 1).drop_last() =~= all.take(i as int));
        assert(all.take(i + 1).last() == all[i as int]);
        if let Some(id) = update.i64_at("update_id") {
            next = Some(
                if id < i64::MAX {
                    id + 1
                } else {
                    id
                },
            );
        }
        if is_start_update(update) {
            if let Some(message) = update.get("message") {
                return match telegram_chat_id(message) {
                    Some(chat_id) => PairingScan::Paired(
                        TelegramConfig {
                            bot_token: bot_token.to_owned(),
                            chat_id,
                            allowed_user_id: telegram_from_user_id(message),
                        },
                    ),
                    None => PairingScan::NoChat,
                };
            }
        }
        i = i + 1;
    }
    assert(all.take(i as int) =~= all);
    PairingScan::Nothing { offset: next }
}

// ---------------------------------------------------------------------------------------------
// Reports
// ---------------------------------------------------------------------------------------------

/// What is said of the registration of the bot's commands; a dry run registers nothing.
pub open spec fn registration(response: Option<JsonView>) -> JsonView {
    match response {
        Some(reply) => json::members().flag("registered"@, true).with(
            "commands"@,
            JsonView::Array(api::bot_command_views()),
        ).with("response"@, reply).object(),
        None => json::members().flag("registered"@, false).flag("dryRun"@, true).with(
            "commands"@,
            JsonView::Array(api::bot_command_views()),
        ).object(),
    }
}

/// What is said of the registration of the bot's commands: `response` is Telegram's reply, or
/// `None` in a dry run.
pub fn commands_registration(response: Option<Json>) -> (out: Json)
    ensures
        out@ == registration(
            match response {
                Some(reply) => Some(reply@),
                None => None,
            },
        ),
{
    let commands = Json::array(telegram_bot_commands());
    match response {
        Some(reply) => Fields::new().flag("registered", true).with("commands", commands).with(
            "response",
            reply,
        ).object(),
        None => Fields::new().flag("registered", false).flag("dryRun", true).with(
            "commands",
            commands,
        ).object(),
    }
}

/// How to pair a chat.
pub open spec fn pair_hint(pair_timeout_ms: int) -> JsonView {
    json::members().text(
        "message"@,
        "Send /start to the Telegram bot to pair this chat automatically."@,
    ).number("timeoutMs"@, pair_timeout_ms).object()
}

/// What a setup led to.
pub struct SetupOutcome {
    pub dry_run: bool,
    pub config_path: String,
    pub paired: TelegramConfig,
    /// Whether a chat was named on the command line.
    pub chat_named: bool,
    pub pair_timeout_ms: u64,
    pub registration: Json,
    /// The configuration without its secrets.
    pub redacted_config: Json,
    pub daemon_command: String,
    /// The bridge command, quoted for a shell.
    pub quoted_bridge_command: String,
}

/// The report of a setup. The token is not part of it.
pub open spec fn setup_report(outcome: SetupOutcome) -> JsonView {
    let telegram = json::members().flag("configured"@, true).text(
        "botToken"@,
        "<redacted>"@,
    ).text("chatId"@, outcome.paired.chat_id@).with(
        "allowedUserId"@,
        json::text_or_null(json::opt_string(outcome.paired.allowed_user_id)),
    ).with(
        "pairing"@,
        if outcome.chat_named {
            JsonView::Null
        } else {
            pair_hint(outcome.pair_timeout_ms as int)
        },
    ).with("commands"@, outcome.registration@).object();
    json::members().flag("ok"@, true).text("action"@, "telegram_setup"@).flag(
        "dryRun"@,
        outcome.dry_run,
    ).text("configPath"@, outcome.config_path@).with("telegram"@, telegram).with(
        "config"@,
        outcome.redacted_config@,
    ).text("daemonCommand"@, outcome.daemon_command@).text(
        "daemonInstallCommand"@,
        outcome.quoted_bridge_command@ + " daemon install --bridge-command "@
            + outcome.quoted_bridge_command@,
    ).text(
        "nextStep"@,
        "Install and start the daemon. Send /away to the Telegram bot before leaving; replies, approvals, and new threads will use the shared Codex live backend."@,
    ).object()
}

/// The report of a setup.
pub fn telegram_setup_report(outcome: &SetupOutcome) -> (out: Json)
    ensures
        out@ == setup_report(*outcome),
{
    let pairing = if outcome.chat_named {
        Json::Null
    } else {
        Fields::new().text(
            "message",
            "Send /start to the Telegram bot to pair this chat automatically.",
        ).number("timeoutMs", outcome.pair_timeout_ms as i128).object()
    };
    let telegram = Fields::new().flag("configured", true).text("botToken", "<redacted>").text(
        "chatId",
        outcome.paired.chat_id.as_str(),
    ).with("allowedUserId", Json::opt_string(&outcome.paired.allowed_user_id)).with(
        "pairing",
        pairing,
    ).with("commands", outcome.registration.copy()).object();
    let quoted = outcome.quoted_bridge_command.as_str();
    let install = cat3(quoted, " daemon install --bridge-command ", quoted);
    Fields::new().flag("ok", true).text("action", "telegram_setup").flag(
        "dryRun",
        outcome.dry_run,
    ).text("configPath", outcome.config_path.as_str()).with("telegram", telegram).with(
        "config",
        outcome.redacted_config.copy(),
    ).text("daemonCommand", outcome.daemon_command.as_str()).text(
        "daemonInstallCommand",
        install.as_str(),
    ).text(
        "nextStep",
        "Install and start the daemon. Send /away to the Telegram bot before leaving; replies, approvals, and new threads will use the shared Codex live backend.",
    ).object()
}

/// The report of a setup does not depend on the token: outcomes that differ in nothing else are
/// reported alike.
pub proof fn setup_reports_hide_the_token(first: SetupOutcome, second: SetupOutcome)
    requires
        first.dry_run == second.dry_run,
        first.config_path@ == second.config_path@,
        first.paired.chat_id@ == second.paired.chat_id@,
        json::opt_string(first.paired.allowed_user_id) == json::opt_string(
            second.paired.allowed_user_id,
        ),
        first.chat_named == second.chat_named,
        first.pair_timeout_ms == second.pair_timeout_ms,
        first.registration@ == second.registration@,
        first.redacted_config@ == second.redacted_config@,
        first.daemon_command@ == second.daemon_command@,
        first.quoted_bridge_command@ == second.quoted_bridge_command@,
    ensures
        setup_report(first) == setup_report(second),
{
}

/// The report of what is configured; `config` is the configuration without its secrets.
pub fn telegram_status_report(
    config_path: &str,
    configured: bool,
    config: Option<&Json>,
) -> (out: Json)
    ensures
        out@ == json::members().flag("ok"@, true).text("action"@, "telegram_status"@).text(
            "configPath"@,
            config_path@,
        ).flag("configured"@, configured).with(
            "config"@,
            json::or_null(json::opt_view(config)),
        ).object(),
{
    Fields::new().flag("ok", true).text("action", "telegram_status").text(
        "configPath",
        config_path,
    ).flag("configured", configured).with("config", Json::or_null(config)).object()
}

/// The message of a test: the given one, or a default where there is none.
pub fn test_message_payload(telegram: &TelegramConfig, message: Option<&str>) -> (out: Json)
    ensures
        out@ == delivery::message_members(
            telegram.chat_id@,
            match message {
                Some(body) => body@,
                None => "Codex Telegram bridge test"@,
            },
        ).object(),
{
    let body = match message {
        Some(body) => body,
        None => "Codex Telegram bridge test",
    };
    message_payload(telegram.chat_id.as_str(), body)
}

/// The report of a dry test: what would be sent.
pub fn test_dry_report(payload: Json) -> (out: Json)
    ensures
        out@ == json::members().flag("ok"@, true).text("action"@, "telegram_test"@).flag(
            "dryRun"@,
            true,
        ).with("payload"@, payload@).object(),
{
    Fields::new().flag("ok", true).text("action", "telegram_test").flag("dryRun", true).with(
        "payload",
        payload,
    ).object()
}

/// The report of a test: the number of the message that was sent.
pub fn test_sent_report(sent: &Json) -> (out: Json)
    ensures
        out@ == json::members().flag("ok"@, true).text("action"@, "telegram_test"@).flag(
            "dryRun"@,
            false,
        ).with(
            "messageId"@,
            json::or_null(json::at(sent@.get("result"@), "message_id"@)),
        ).object(),
{
    Fields::new().flag("ok", true).text("action", "telegram_test").flag("dryRun", false).with(
        "messageId",
        Json::or_null(sent.get2("result", "message_id")),
    ).object()
}

} // verus!
