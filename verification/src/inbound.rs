//! What an update from Telegram asks for: who may ask, commands, replies and taps on buttons.

use vstd::prelude::*;

use crate::api;
use crate::api::telegram_chat_id;
use crate::api::telegram_from_user_id;
use crate::api::telegram_message_id;
use crate::api::telegram_reply_to_id;
use crate::json;
use crate::json::Json;
use crate::json::JsonView;
use crate::number;
use crate::number::parse_u64;
use crate::number::NumberError;
use crate::text;
use crate::text::cat3;
use crate::text::find_char;
use crate::text::find_white;
use crate::text::is_text;
use crate::text::same_text;
use crate::text::starts_with_char;
use crate::text::strip_prefix;
use crate::text::to_ascii_lower;
use crate::text::trim;
use crate::types;
use crate::types::lend;
use crate::types::own_again;
use crate::types::TelegramCallbackAction;
use crate::types::TelegramConfig;

verus! {

// ---------------------------------------------------------------------------------------------
// Who may ask
// ---------------------------------------------------------------------------------------------

/// The chat is the configured one, and the user is the allowed one where one is set.
pub open spec fn authorized(
    telegram: TelegramConfig,
    chat_id: Option<Seq<char>>,
    user_id: Option<Seq<char>>,
) -> bool {
    &&& chat_id == Some(telegram.chat_id@)
    &&& telegram.allowed_user_id is Some ==> user_id == json::opt_string(telegram.allowed_user_id)
}

/// Whether a user may use the bridge from a chat.
pub fn telegram_authorized(
    telegram: &TelegramConfig,
    chat_id: Option<&str>,
    user_id: Option<&str>,
) -> (yes: bool)
    ensures
        yes == authorized(*telegram, json::opt_text(chat_id), json::opt_text(user_id)),
{
    if !is_text(chat_id, telegram.chat_id.as_str()) {
        return false;
    }
    match &telegram.allowed_user_id {
        Some(allowed) => is_text(user_id, allowed.as_str()),
        None => true,
    }
}

/// The message comes from the configured chat and from a user who may use it.
pub open spec fn message_authorized(message: JsonView, telegram: TelegramConfig) -> bool {
    authorized(telegram, api::chat_id_of(message), api::user_id_of(message))
}

fn is_message_authorized(message: &Json, telegram: &TelegramConfig) -> (yes: bool)
    ensures
        yes == message_authorized(message@, *telegram),
{
    let chat_id = telegram_chat_id(message);
    let user_id = telegram_from_user_id(message);
    telegram_authorized(telegram, lend(&chat_id), lend(&user_id))
}

// ---------------------------------------------------------------------------------------------
// Commands
// ---------------------------------------------------------------------------------------------

/// A command to the bot.
#[derive(Debug, PartialEq, Eq)]
pub enum TelegramInboundCommand {
    Start,
    Help,
    Away,
    Back,
    Repair,
    Status,
    Threads(Option<String>),
    NewThread(Option<String>),
    Project(Option<String>),
    Unknown(String),
}

/// What a command holds.
pub enum CommandView {
    Start,
    Help,
    Away,
    Back,
    Repair,
    Status,
    Threads(Option<Seq<char>>),
    NewThread(Option<Seq<char>>),
    Project(Option<Seq<char>>),
    Unknown(Seq<char>),
}

impl View for TelegramInboundCommand {
    type V = CommandView;

    open spec fn view(&self) -> CommandView {
        match *self {
            TelegramInboundCommand::Start => CommandView::Start,
            TelegramInboundCommand::Help => CommandView::Help,
            TelegramInboundCommand::Away => CommandView::Away,
            TelegramInboundCommand::Back => CommandView::Back,
            TelegramInboundCommand::Repair => CommandView::Repair,
            TelegramInboundCommand::Status => CommandView::Status,
            TelegramInboundCommand::Threads(s) => CommandView::Threads(json::opt_string(s)),
            TelegramInboundCommand::NewThread(s) => CommandView::NewThread(json::opt_string(s)),
            TelegramInboundCommand::Project(s) => CommandView::Project(json::opt_string(s)),
            TelegramInboundCommand::Unknown(s) => CommandView::Unknown(s@),
        }
    }
}

/// What an optional command holds.
pub open spec fn opt_command(command: Option<TelegramInboundCommand>) -> Option<CommandView> {
    match command {
        Some(c) => Some(c@),
        None => None,
    }
}

/// The first word of a command line.
pub open spec fn raw_command(line: Seq<char>) -> Seq<char> {
    line.take(text::first_white(line))
}

/// What follows the first word of a command line, where that is more than whitespace.
pub open spec fn command_argument(line: Seq<char>) -> Option<Seq<char>> {
    let k = text::first_white(line);
    let rest = text::trimmed(line.skip(k + 1));
    if k < line.len() && rest.len() > 0 {
        Some(rest)
    } else {
        None
    }
}

/// The name in a first word: in lower case, and without the bot that it is addressed to.
pub open spec fn command_name(raw: Seq<char>) -> Seq<char> {
    text::ascii_lowered(raw.take(text::first_index(raw, '@')))
}

/// The command that a first word and an argument stand for.
pub open spec fn command_for(raw: Seq<char>, argument: Option<Seq<char>>) -> CommandView {
    let name = command_name(raw);
    if name == "/start"@ {
        CommandView::Start
    } else if name == "/help"@ {
        CommandView::Help
    } else if name == "/away"@ {
        CommandView::Away
    } else if name == "/back"@ {
        CommandView::Back
    } else if name == "/repair"@ {
        CommandView::Repair
    } else if name == "/status"@ {
        CommandView::Status
    } else if name == "/threads"@ {
        CommandView::Threads(argument)
    } else if name == "/new"@ {
        CommandView::NewThread(argument)
    } else if name == "/project"@ {
        CommandView::Project(argument)
    } else {
        CommandView::Unknown(raw)
    }
}

/// The command of a text: a text is one exactly where it starts with a slash.
pub open spec fn parsed_command(body: Seq<char>) -> Option<CommandView> {
    let line = text::trimmed(body);
    if line.len() > 0 && line[0] == '/' {
        Some(command_for(raw_command(line), command_argument(line)))
    } else {
        None
    }
}

/// Reads a command.
pub fn parse_telegram_command_text(body: &str) -> (out: Option<TelegramInboundCommand>)
    ensures
        opt_command(out) == parsed_command(body@),
{
    let line = trim(body);
    if !starts_with_char(line, '/') {
        return None;
    }
    let total = line.unicode_len();
    let k = find_white(line);
    let raw = line.substring_char(0, k);
    assert(raw@ =~= raw_command(line@));
    let mut argument: Option<String> = None;
    if k < total {
        let rest = trim(line.substring_char(k + 1, total));
        assert(line@.subrange(k + 1, total as int) =~= line@.skip(k + 1));
        if rest.unicode_len() > 0 {
            argument = Some(rest.to_owned());
        }
    }
    assert(json::opt_string(argument) == command_argument(line@));
    let name = match find_char(raw, '@') {
        Some(at) => {
            let head = raw.substring_char(0, at);
            assert(head@ =~= raw@.take(at as int));
            to_ascii_lower(head)
        },
        None => {
            assert(raw@.take(raw@.len() as int) =~= raw@);
            to_ascii_lower(raw)
        },
    };
    let name = name.as_str();
    if same_text(name, "/start") {
        Some(TelegramInboundCommand::Start)
    } else if same_text(name, "/help") {
        Some(TelegramInboundCommand::Help)
    } else if same_text(name, "/away") {
        Some(TelegramInboundCommand::Away)
    } else if same_text(name, "/back") {
        Some(TelegramInboundCommand::Back)
    } else if same_text(name, "/repair") {
        Some(TelegramInboundCommand::Repair)
    } else if same_text(name, "/status") {
        Some(TelegramInboundCommand::Status)
    } else if same_text(name, "/threads") {
        Some(TelegramInboundCommand::Threads(argument))
    } else if same_text(name, "/new") {
        Some(TelegramInboundCommand::NewThread(argument))
    } else if same_text(name, "/project") {
        Some(TelegramInboundCommand::Project(argument))
    } else {
        Some(TelegramInboundCommand::Unknown(raw.to_owned()))
    }
}

/// Addressing a command to a bot changes nothing: a name without an at sign stands for the same
/// command with `@bot` behind it, whatever the bot's name is.
pub proof fn addressed_commands_mean_the_same(name: Seq<char>, bot: Seq<char>)
    requires
        !name.contains('@'),
    ensures
        command_name(name.push('@') + bot) == command_name(name),
{
    let addressed = name.push('@') + bot;
    assert forall|i: int| 0 <= i < name.len() implies addressed[i] != '@' by {
        assert(name[i] == addressed[i]);
        assert(name.contains(name[i]));
    }
    text::lemma_first_index_is(addressed, '@', name.len() as int);
    text::lemma_first_index(name, '@');
    assert(addressed.take(name.len() as int) =~= name);
    assert(name.take(name.len() as int) =~= name);
}

/// Whether a command is written in capitals or not makes no difference.
pub proof fn commands_ignore_case(first: Seq<char>, second: Seq<char>)
    requires
        text::ascii_lowered(first) == text::ascii_lowered(second),
        !first.contains('@'),
        !second.contains('@'),
    ensures
        command_name(first) == command_name(second),
{
    text::lemma_first_index(first, '@');
    text::lemma_first_index(second, '@');
    assert(first.take(first.len() as int) =~= first);
    assert(second.take(second.len() as int) =~= second);
}

// ---------------------------------------------------------------------------------------------
// How many threads
// ---------------------------------------------------------------------------------------------

/// How many threads are shown where no number is given.
pub const DEFAULT_TELEGRAM_THREADS_LIMIT: u64 = 5;

/// The most threads that are shown.
pub const MAX_TELEGRAM_THREADS_LIMIT: u64 = 25;

/// Why a number of threads is refused.
#[derive(Debug, Clone, Copy, PartialEq, Eq)]
pub enum ThreadsLimitError {
    NotANumber(NumberError),
    OutOfRange,
}

/// What is wrong with a number, in words.
pub open spec fn number_error_text(error: NumberError) -> Seq<char> {
    match error {
        NumberError::Empty => "cannot parse integer from empty string"@,
        NumberError::InvalidDigit => "invalid digit found in string"@,
        NumberError::TooLarge => "number too large to fit in target type"@,
    }
}

/// The error in words.
pub open spec fn threads_limit_error(error: ThreadsLimitError) -> Seq<char> {
    let usage = "Use /threads or /threads <count>, with count between 1 and 25"@;
    match error {
        ThreadsLimitError::NotANumber(e) => usage + ": "@ + number_error_text(e),
        ThreadsLimitError::OutOfRange => usage,
    }
}

impl ThreadsLimitError {
    /// The error in words.
    pub fn message(&self) -> (out: String)
        ensures
            out@ == threads_limit_error(*self),
    {
        let usage = "Use /threads or /threads <count>, with count between 1 and 25";
        match self {
            ThreadsLimitError::NotANumber(e) => {
                let reason = match e {
                    NumberError::Empty => "cannot parse integer from empty string",
                    NumberError::InvalidDigit => "invalid digit found in string",
                    NumberError::TooLarge => "number too large to fit in target type",
                };
                cat3(usage, ": ", reason)
            },
            ThreadsLimitError::OutOfRange => usage.to_owned(),
        }
    }
}

/// How many threads an argument asks for: five where it is missing or blank, otherwise the number
/// that it writes, from 1 to 25.
pub open spec fn threads_limit(raw: Option<Seq<char>>) -> Result<int, ThreadsLimitError> {
    match raw {
        Some(s) => if text::blank(s) {
            Ok(5)
        } else {
            match number::read_u64(text::trimmed(s)) {
                Ok(n) => if 1 <= n <= 25 {
                    Ok(n)
                } else {
                    Err(ThreadsLimitError::OutOfRange)
                },
                Err(e) => Err(ThreadsLimitError::NotANumber(e)),
            }
        },
        None => Ok(5),
    }
}

/// Reads how many threads to show.
pub fn parse_telegram_threads_limit(raw: Option<&str>) -> (out: Result<u64, ThreadsLimitError>)
    ensures
        match out {
            Ok(n) => threads_limit(json::opt_text(raw)) == Ok::<int, ThreadsLimitError>(n as int)
                && 1 <= n <= 25,
            Err(e) => threads_limit(json::opt_text(raw)) == Err::<int, ThreadsLimitError>(e),
        },
{
    let argument = match raw {
        Some(s) => trim(s),
        None => {
            return Ok(DEFAULT_TELEGRAM_THREADS_LIMIT);
        },
    };
    if argument.unicode_len() == 0 {
        return Ok(DEFAULT_TELEGRAM_THREADS_LIMIT);
    }
    match parse_u64(argument) {
        Ok(n) => if 1 <= n && n <= MAX_TELEGRAM_THREADS_LIMIT {
            Ok(n)
        } else {
            Err(ThreadsLimitError::OutOfRange)
        },
        Err(e) => Err(ThreadsLimitError::NotANumber(e)),
    }
}

/// The command of a message: only a message of its own, not a reply, from a user who may use the
/// chat holds one.
pub open spec fn message_command(message: JsonView, telegram: TelegramConfig) -> Option<
    CommandView,
> {
    if !message_authorized(message, telegram) || message.get("reply_to_message"@) is Some {
        None
    } else {
        match json::text_at(message.get("text"@)) {
            Some(body) => parsed_command(body),
            None => None,
        }
    }
}

/// Reads the command of a message.
pub fn extract_telegram_command(message: &Json, telegram: &TelegramConfig) -> (out: Option<
    TelegramInboundCommand,
>)
    ensures
        opt_command(out) == message_command(message@, *telegram),
{
    if !is_message_authorized(message, telegram) {
        return None;
    }
    if message.get("reply_to_message").is_some() {
        return None;
    }
    match message.str_at("text") {
        Some(body) => parse_telegram_command_text(body),
        None => None,
    }
}

// ---------------------------------------------------------------------------------------------
// Replies
// ---------------------------------------------------------------------------------------------

/// A reply that may be routed: the message that it replies to, and what it says.
#[derive(Debug, PartialEq, Eq)]
pub struct TelegramReply {
    pub chat_id: String,
    pub reply_to: i64,
    pub text: String,
}

/// What a reply holds.
pub struct ReplyView {
    pub chat_id: Seq<char>,
    pub reply_to: int,
    pub text: Seq<char>,
}

impl View for TelegramReply {
    type V = ReplyView;

    open spec fn view(&self) -> ReplyView {
        ReplyView { chat_id: self.chat_id@, reply_to: self.reply_to as int, text: self.text@ }
    }
}

/// The reply that a message is: it comes from a user who may use the chat, names the message that
/// it replies to and says more than whitespace.
pub open spec fn reply_of(message: JsonView, telegram: TelegramConfig) -> Option<ReplyView> {
    let reply_to = api::reply_to_id(message);
    let body = json::text_at(message.get("text"@));
    if message_authorized(message, telegram) && reply_to is Some && body is Some && !text::blank(
        body->0,
    ) {
        Some(
            ReplyView {
                chat_id: telegram.chat_id@,
                reply_to: reply_to->0,
                text: text::trimmed(body->0),
            },
        )
    } else {
        None
    }
}

/// Reads a reply: its chat and the message that it replies to are what its route is looked up by.
pub fn telegram_reply(message: &Json, telegram: &TelegramConfig) -> (out: Option<TelegramReply>)
    ensures
        match out {
            Some(reply) => reply_of(message@, *telegram) == Some(reply@),
            None => reply_of(message@, *telegram) is None,
        },
{
    if !is_message_authorized(message, telegram) {
        return None;
    }
    let reply_to = match telegram_reply_to_id(message) {
        Some(id) => id,
        None => {
            return None;
        },
    };
    let body = match message.str_at("text") {
        Some(body) => trim(body),
        None => {
            return None;
        },
    };
    if body.unicode_len() == 0 {
        return None;
    }
    Some(
        TelegramReply { chat_id: telegram.chat_id.clone(), reply_to, text: body.to_owned() },
    )
}

/// A reply that continues a thread.
#[derive(Debug, PartialEq, Eq)]
pub struct RoutedTelegramReply {
    pub thread_id: String,
    pub message: String,
}

/// Routes a reply to the thread of the message that it replies to. `thread_id` is what is stored
/// for that message in the reply's chat.
pub fn extract_telegram_reply_route(
    message: &Json,
    telegram: &TelegramConfig,
    thread_id: Option<String>,
) -> (out: Option<RoutedTelegramReply>)
    ensures
        out is Some <==> reply_of(message@, *telegram) is Some && thread_id is Some,
        out matches Some(route) ==> route.thread_id@ == thread_id->0@ && route.message@ == reply_of(
            message@,
            *telegram,
        )->0.text,
{
    match telegram_reply(message, telegram) {
        Some(reply) => match thread_id {
            Some(thread_id) => Some(RoutedTelegramReply { thread_id, message: reply.text }),
            None => None,
        },
        None => None,
    }
}

/// What a reply to one of the bot's own questions is for.
#[derive(Debug, Clone, Copy, PartialEq, Eq, Structural)]
pub enum TelegramCommandRouteKind {
    NewThread,
}

/// A reply that completes a command.
#[derive(Debug, PartialEq, Eq)]
pub struct RoutedTelegramCommandPromptReply {
    pub kind: TelegramCommandRouteKind,
    pub message: String,
    pub project_id: Option<String>,
}

/// What is stored for a message in which the bot asked for the rest of a command.
pub struct CommandRoute {
    pub kind: TelegramCommandRouteKind,
    pub payload: Option<Json>,
}

/// The project that a stored command route names.
pub open spec fn route_project(payload: Option<Json>) -> Option<Seq<char>> {
    match payload {
        Some(value) => json::text_at(value@.get("projectId"@)),
        None => None,
    }
}

/// Routes a reply to the command that it completes. `route` is what is stored for the message that
/// it replies to.
pub fn extract_telegram_command_prompt_reply(
    message: &Json,
    telegram: &TelegramConfig,
    route: Option<CommandRoute>,
) -> (out: Option<RoutedTelegramCommandPromptReply>)
    ensures
        out is Some <==> reply_of(message@, *telegram) is Some && route is Some,
        out matches Some(routed) ==> {
            &&& routed.kind == route->0.kind
            &&& routed.message@ == reply_of(message@, *telegram)->0.text
            &&& json::opt_string(routed.project_id) == route_project(route->0.payload)
        },
{
    match telegram_reply(message, telegram) {
        Some(reply) => match route {
            Some(route) => {
                let project_id = match &route.payload {
                    Some(value) => types::own(value.str_at("projectId")),
                    None => None,
                };
                Some(
                    RoutedTelegramCommandPromptReply {
                        kind: route.kind,
                        message: reply.text,
                        project_id,
                    },
                )
            },
            None => None,
        },
        None => None,
    }
}

/// A reply to a question message: a free-form answer to that one question.
#[derive(Debug, PartialEq, Eq)]
pub struct RoutedTelegramQuestionReply {
    pub question_key: String,
    pub question_id: String,
    pub text: String,
    pub message_id: Option<i64>,
    pub question_message_id: i64,
    pub question_message_text: Option<String>,
}

/// The question that a message asks.
#[derive(Debug, PartialEq, Eq)]
pub struct QuestionRef {
    pub question_key: String,
    pub question_id: String,
}

/// Routes a reply to the question that the message it replies to asks. `question` is what is
/// stored for that message, whether the question is settled or not.
pub fn extract_telegram_question_reply(
    message: &Json,
    telegram: &TelegramConfig,
    question: Option<QuestionRef>,
) -> (out: Option<RoutedTelegramQuestionReply>)
    ensures
        out is Some <==> reply_of(message@, *telegram) is Some && question is Some,
        out matches Some(routed) ==> {
            &&& routed.question_key@ == question->0.question_key@
            &&& routed.question_id@ == question->0.question_id@
            &&& routed.text@ == reply_of(message@, *telegram)->0.text
            &&& json::opt_signed(routed.message_id) == api::message_id_of(Some(message@))
            &&& routed.question_message_id == reply_of(message@, *telegram)->0.reply_to
            &&& json::opt_string(routed.question_message_text) == json::text_at(
                json::at(message@.get("reply_to_message"@), "text"@),
            )
        },
{
    match telegram_reply(message, telegram) {
        Some(reply) => match question {
            Some(question) => {
                let shown = types::own(message.str_at2("reply_to_message", "text"));
                Some(
                    RoutedTelegramQuestionReply {
                        question_key: question.question_key,
                        question_id: question.question_id,
                        text: reply.text,
                        message_id: telegram_message_id(message),
                        question_message_id: reply.reply_to,
                        question_message_text: shown,
                    },
                )
            },
            None => None,
        },
        None => None,
    }
}

// ---------------------------------------------------------------------------------------------
// Taps on buttons
// ---------------------------------------------------------------------------------------------

/// A stored button.
#[derive(Debug, PartialEq, Eq)]
pub struct StoredCallbackRoute {
    pub callback_id: String,
    pub chat_id: String,
    pub message_id: Option<i64>,
    pub thread_id: String,
    /// The name of what the button does.
    pub action: String,
    pub approval_key: Option<String>,
    pub question_id: Option<String>,
    pub answer: Option<String>,
    pub used: bool,
}

/// A delivered copy of a question.
#[derive(Debug, PartialEq, Eq)]
pub struct QuestionMessage {
    pub chat_id: String,
    pub message_id: i64,
    pub question_key: String,
    pub question_id: String,
}

/// A tap on a button that can be acted on.
#[derive(Debug, PartialEq, Eq)]
pub struct RoutedTelegramCallback {
    pub callback_query_id: String,
    pub callback_id: String,
    pub thread_id: String,
    pub action: TelegramCallbackAction,
    pub approval_key: Option<String>,
    pub question_id: Option<String>,
    pub answer: Option<String>,
}

/// Why a tap cannot be read.
#[derive(Debug, Clone, Copy, PartialEq, Eq, Structural)]
pub enum CallbackError {
    MissingId,
}

impl CallbackError {
    /// The error in words.
    pub fn message(&self) -> (out: &'static str)
        ensures
            out@ == "callback query missing id"@,
    {
        "callback query missing id"
    }
}

/// The message is a delivered copy of the question that the button belongs to.
pub open spec fn is_copy_of(
    copy: QuestionMessage,
    row: StoredCallbackRoute,
    chat_id: Seq<char>,
    message_id: Option<int>,
) -> bool {
    &&& copy.chat_id@ == chat_id
    &&& message_id == Some(copy.message_id as int)
    &&& json::opt_string(row.approval_key) == Some(copy.question_key@)
    &&& json::opt_string(row.question_id) == Some(copy.question_id@)
}

/// A button answers a tap: it is the one that was tapped, in its chat, not used yet, and on its
/// own message, on no particular message, or on any delivered copy of its question.
pub open spec fn button_answers(
    row: StoredCallbackRoute,
    copies: Seq<QuestionMessage>,
    callback_id: Seq<char>,
    chat_id: Seq<char>,
    message_id: Option<int>,
) -> bool {
    &&& row.callback_id@ == callback_id
    &&& row.chat_id@ == chat_id
    &&& !row.used
    &&& {
        ||| row.message_id is None
        ||| message_id is Some && json::opt_signed(row.message_id) == message_id
        ||| exists|i: int|
            0 <= i < copies.len() && is_copy_of(#[trigger] copies[i], row, chat_id, message_id)
    }
}

/// The position of the first button that answers a tap, or the number of buttons.
pub open spec fn answering_button(
    rows: Seq<StoredCallbackRoute>,
    copies: Seq<QuestionMessage>,
    callback_id: Seq<char>,
    chat_id: Seq<char>,
    message_id: Option<int>,
) -> int
    decreases rows.len(),
{
    if rows.len() == 0 || button_answers(rows[0], copies, callback_id, chat_id, message_id) {
        0
    } else {
        1 + answering_button(rows.skip(1), copies, callback_id, chat_id, message_id)
    }
}

fn any_copy(
    copies: &Vec<QuestionMessage>,
    row: &StoredCallbackRoute,
    chat_id: &str,
    message_id: Option<i64>,
) -> (found: bool)
    ensures
        found == exists|i: int|
            0 <= i < copies@.len() && is_copy_of(
                #[trigger] copies@[i],
                *row,
                chat_id@,
                json::opt_signed(message_id),
            ),
{
    let mut i: usize = 0;
    while i < copies.len()
        invariant
            i <= copies@.len(),
            forall|k: int|
                0 <= k < i ==> !is_copy_of(
                    #[trigger] copies@[k],
                    *row,
                    chat_id@,
                    json::opt_signed(message_id),
                ),
        decreases copies@.len() - i,
    {
        let copy = &copies[i];
        let here = match message_id {
            Some(id) => id == copy.message_id,
            None => false,
        };
        if here && same_text(copy.chat_id.as_str(), chat_id) && is_text(
            lend(&row.approval_key),
            copy.question_key.as_str(),
        ) && is_text(lend(&row.question_id), copy.question_id.as_str()) {
            assert(is_copy_of(copies@[i as int], *row, chat_id@, json::opt_signed(message_id)));
            return true;
        }
        i = i + 1;
    }
    false
}

fn does_button_answer(
    row: &StoredCallbackRoute,
    copies: &Vec<QuestionMessage>,
    callback_id: &str,
    chat_id: &str,
    message_id: Option<i64>,
) -> (yes: bool)
    ensures
        yes == button_answers(*row, copies@, callback_id@, chat_id@, json::opt_signed(message_id)),
{
    if row.used || !same_text(row.callback_id.as_str(), callback_id) || !same_text(
        row.chat_id.as_str(),
        chat_id,
    ) {
        return false;
    }
    match row.message_id {
        None => true,
        Some(bound) => {
            let here = match message_id {
                Some(id) => id == bound,
                None => false,
            };
            here || any_copy(copies, row, chat_id, message_id)
        },
    }
}

fn find_button(
    rows: &Vec<StoredCallbackRoute>,
    copies: &Vec<QuestionMessage>,
    callback_id: &str,
    chat_id: &str,
    message_id: Option<i64>,
) -> (at: usize)
    ensures
        at == answering_button(
            rows@,
            copies@,
            callback_id@,
            chat_id@,
            json::opt_signed(message_id),
        ),
        at <= rows@.len(),
        at < rows@.len() ==> button_answers(
            rows@[at as int],
            copies@,
            callback_id@,
            chat_id@,
            json::opt_signed(message_id),
        ),
{
    let ghost id = json::opt_signed(message_id);
    let mut i: usize = 0;
    assert(rows@.skip(0) =~= rows@);
    while i < rows.len()
        invariant
            id == json::opt_signed(message_id),
            i <= rows@.len(),
            i + answering_button(rows@.skip(i as int), copies@, callback_id@, chat_id@, id)
                == answering_button(rows@, copies@, callback_id@, chat_id@, id),
        decreases rows@.len() - i,
    {
        assert(rows@.skip(i as int)[0] == rows@[i as int]);
        assert(rows@.skip(i as int).skip(1) =~= rows@.skip(i + 1));
        if does_button_answer(&rows[i], copies, callback_id, chat_id, message_id) {
            return i;
        }
        i = i + 1;
    }
    i
}

/// The tap comes from the configured chat and from a user who may use it.
pub open spec fn tap_authorized(query: JsonView, telegram: TelegramConfig) -> bool {
    let chat_id = match query.get("message"@) {
        Some(message) => api::chat_id_of(message),
        None => None,
    };
    authorized(telegram, chat_id, api::user_id_of(query))
}

/// The button that a tap names.
pub open spec fn tapped_callback_id(query: JsonView) -> Option<Seq<char>> {
    match json::text_at(query.get("data"@)) {
        Some(data) => if text::has_prefix(data, "codex:"@) {
            Some(data.skip("codex:"@.len() as int))
        } else {
            None
        },
        None => None,
    }
}

/// The position of the button that a tap is answered by: `None` where the tap is not from a user
/// who may use the chat, names no button of the bridge, or no stored button answers it.
pub open spec fn tap_answered_by(
    query: JsonView,
    telegram: TelegramConfig,
    rows: Seq<StoredCallbackRoute>,
    copies: Seq<QuestionMessage>,
) -> Option<int> {
    let callback_id = tapped_callback_id(query);
    if tap_authorized(query, telegram) && callback_id is Some {
        let at = answering_button(
            rows,
            copies,
            callback_id->0,
            telegram.chat_id@,
            api::message_id_of(query.get("message"@)),
        );
        if at < rows.len() && types::action_named(rows[at].action@) is Some {
            Some(at)
        } else {
            None
        }
    } else {
        None
    }
}

/// Reads whether a tap comes from the configured chat and from a user who may use it.
pub fn is_tap_authorized(query: &Json, telegram: &TelegramConfig) -> (yes: bool)
    ensures
        yes == tap_authorized(query@, *telegram),
{
    let chat_id = match query.get("message") {
        Some(message) => telegram_chat_id(message),
        None => None,
    };
    let user_id = telegram_from_user_id(query);
    telegram_authorized(telegram, lend(&chat_id), lend(&user_id))
}

/// The button that a tap names.
pub fn telegram_tapped_callback_id(query: &Json) -> (out: Option<&str>)
    ensures
        json::opt_text(out) == tapped_callback_id(query@),
{
    match query.str_at("data") {
        Some(data) => strip_prefix(data, "codex:"),
        None => None,
    }
}

/// The number of the message that a tapped button stands on.
pub fn telegram_tapped_message_id(query: &Json) -> (out: Option<i64>)
    ensures
        json::opt_signed(out) == api::message_id_of(query@.get("message"@)),
{
    match query.get("message") {
        Some(message) => telegram_message_id(message),
        None => None,
    }
}

/// Routes a tap to what its button is bound to. `rows` are the stored buttons and `copies` the
/// delivered copies of questions.
pub fn extract_telegram_callback_route(
    query: &Json,
    telegram: &TelegramConfig,
    rows: &Vec<StoredCallbackRoute>,
    copies: &Vec<QuestionMessage>,
) -> (out: Result<Option<RoutedTelegramCallback>, CallbackError>)
    ensures
        out is Err <==> tap_authorized(query@, *telegram) && json::text_at(query@.get("id"@)) is None,
        out matches Ok(route) ==> {
            let at = tap_answered_by(query@, *telegram, rows@, copies@);
            &&& route is Some <==> at is Some
            &&& route matches Some(route) ==> {
                let row = rows@[at->0];
                &&& 0 <= at->0 < rows@.len()
                &&& Some(route.callback_query_id@) == json::text_at(query@.get("id"@))
                &&& Some(route.callback_id@) == tapped_callback_id(query@)
                &&& route.thread_id@ == row.thread_id@
                &&& Some(route.action) == types::action_named(row.action@)
                &&& json::opt_string(route.approval_key) == json::opt_string(row.approval_key)
                &&& json::opt_string(route.question_id) == json::opt_string(row.question_id)
                &&& json::opt_string(route.answer) == json::opt_string(row.answer)
            }
        },
{
    if !is_tap_authorized(query, telegram) {
        return Ok(None);
    }
    let query_id = match query.str_at("id") {
        Some(id) => id,
        None => {
            return Err(CallbackError::MissingId);
        },
    };
    let callback_id = match telegram_tapped_callback_id(query) {
        Some(id) => id,
        None => {
            return Ok(None);
        },
    };
    let message_id = telegram_tapped_message_id(query);
    let at = find_button(rows, copies, callback_id, telegram.chat_id.as_str(), message_id);
    if at == rows.len() {
        return Ok(None);
    }
    let row = &rows[at];
    match TelegramCallbackAction::from_name(row.action.as_str()) {
        Some(action) => Ok(
            Some(
                RoutedTelegramCallback {
                    callback_query_id: query_id.to_owned(),
                    callback_id: callback_id.to_owned(),
                    thread_id: row.thread_id.clone(),
                    action,
                    approval_key: own_again(&row.approval_key),
                    question_id: own_again(&row.question_id),
                    answer: own_again(&row.answer),
                },
            ),
        ),
        None => Ok(None),
    }
}

/// A used button is never acted on again.
pub proof fn used_buttons_are_consumed(
    query: JsonView,
    telegram: TelegramConfig,
    rows: Seq<StoredCallbackRoute>,
    copies: Seq<QuestionMessage>,
)
    requires
        forall|i: int|
            0 <= i < rows.len() && Some((#[trigger] rows[i]).callback_id@) == tapped_callback_id(
                query,
            ) ==> rows[i].used,
    ensures
        tap_answered_by(query, telegram, rows, copies) is None,
{
    let callback_id = tapped_callback_id(query);
    if callback_id is Some {
        lemma_no_button_answers(
            rows,
            copies,
            callback_id->0,
            telegram.chat_id@,
            api::message_id_of(query.get("message"@)),
        );
    }
}

proof fn lemma_no_button_answers(
    rows: Seq<StoredCallbackRoute>,
    copies: Seq<QuestionMessage>,
    callback_id: Seq<char>,
    chat_id: Seq<char>,
    message_id: Option<int>,
)
    requires
        forall|i: int|
            0 <= i < rows.len() ==> !button_answers(
                #[trigger] rows[i],
                copies,
                callback_id,
                chat_id,
                message_id,
            ),
    ensures
        answering_button(rows, copies, callback_id, chat_id, message_id) == rows.len(),
    decreases rows.len(),
{
    if rows.len() > 0 {
        assert forall|i: int| 0 <= i < rows.skip(1).len() implies !button_answers(
            #[trigger] rows.skip(1)[i],
            copies,
            callback_id,
            chat_id,
            message_id,
        ) by {
            assert(rows.skip(1)[i] == rows[i + 1]);
        }
        assert(!button_answers(rows[0], copies, callback_id, chat_id, message_id));
        lemma_no_button_answers(rows.skip(1), copies, callback_id, chat_id, message_id);
    }
}

/// A button of a question answers a tap on every delivered copy of the question, and one that is
/// bound to a message answers none on an unrelated message.
pub proof fn question_buttons_work_on_every_copy(
    row: StoredCallbackRoute,
    copies: Seq<QuestionMessage>,
    message_id: int,
)
    requires
        !row.used,
        row.message_id is Some,
    ensures
        (exists|i: int|
            0 <= i < copies.len() && is_copy_of(
                #[trigger] copies[i],
                row,
                row.chat_id@,
                Some(message_id),
            )) ==> button_answers(
            row,
            copies,
            row.callback_id@,
            row.chat_id@,
            Some(message_id),
        ),
        row.message_id->0 != message_id && (forall|i: int|
            0 <= i < copies.len() ==> !is_copy_of(
                #[trigger] copies[i],
                row,
                row.chat_id@,
                Some(message_id),
            )) ==> !button_answers(
            row,
            copies,
            row.callback_id@,
            row.chat_id@,
            Some(message_id),
        ),
{
}

/// A stored button holds what a delivery bound it to, and is not used yet.
pub open spec fn stores(row: StoredCallbackRoute, route: types::CallbackRouteView) -> bool {
    &&& row.callback_id@ == route.callback_id
    &&& row.chat_id@ == route.chat_id
    &&& json::opt_signed(row.message_id) == route.message_id
    &&& row.thread_id@ == route.thread_id
    &&& row.action@ == types::action_name(route.action)
    &&& json::opt_string(row.approval_key) == route.approval_key
    &&& json::opt_string(row.question_id) == route.question_id
    &&& json::opt_string(row.answer) == route.answer
    &&& !row.used
}

/// A tap on a delivered button is routed back to what the delivery bound the button to: its thread,
/// its decision, and its request or question with the answer. No two stored buttons share an
/// identifier.
pub proof fn delivered_buttons_route_back(
    query: JsonView,
    telegram: TelegramConfig,
    rows: Seq<StoredCallbackRoute>,
    copies: Seq<QuestionMessage>,
    at: int,
    route: types::CallbackRouteView,
)
    requires
        tap_authorized(query, telegram),
        json::text_at(query.get("data"@)) == Some("codex:"@ + route.callback_id),
        0 <= at < rows.len(),
        stores(rows[at], route),
        route.chat_id == telegram.chat_id@,
        route.message_id is Some ==> route.message_id == api::message_id_of(query.get("message"@)),
        forall|i: int|
            0 <= i < rows.len() && i != at ==> (#[trigger] rows[i]).callback_id@
                != route.callback_id,
    ensures
        tap_answered_by(query, telegram, rows, copies) == Some(at),
        types::action_named(rows[at].action@) == Some(route.action),
        rows[at].thread_id@ == route.thread_id,
        json::opt_string(rows[at].approval_key) == route.approval_key,
        json::opt_string(rows[at].question_id) == route.question_id,
        json::opt_string(rows[at].answer) == route.answer,
{
    types::action_names_read_back(route.action);
    let data = "codex:"@ + route.callback_id;
    assert(data.take("codex:"@.len() as int) =~= "codex:"@);
    assert(data.skip("codex:"@.len() as int) =~= route.callback_id);
    assert(tapped_callback_id(query) == Some(route.callback_id));
    let message_id = api::message_id_of(query.get("message"@));
    assert(button_answers(rows[at], copies, route.callback_id, telegram.chat_id@, message_id));
    lemma_only_button_answers(rows, copies, route.callback_id, telegram.chat_id@, message_id, at);
}

proof fn lemma_only_button_answers(
    rows: Seq<StoredCallbackRoute>,
    copies: Seq<QuestionMessage>,
    callback_id: Seq<char>,
    chat_id: Seq<char>,
    message_id: Option<int>,
    at: int,
)
    requires
        0 <= at < rows.len(),
        button_answers(rows[at], copies, callback_id, chat_id, message_id),
        forall|i: int|
            0 <= i < rows.len() && i != at ==> (#[trigger] rows[i]).callback_id@ != callback_id,
    ensures
        answering_button(rows, copies, callback_id, chat_id, message_id) == at,
    decreases at,
{
    if at > 0 {
        assert(rows[0].callback_id@ != callback_id);
        let rest = rows.skip(1);
        assert(rest[at - 1] == rows[at]);
        assert forall|i: int| 0 <= i < rest.len() && i != at - 1 implies (
        #[trigger] rest[i]).callback_id@ != callback_id by {
            assert(rest[i] == rows[i + 1]);
        }
        lemma_only_button_answers(rest, copies, callback_id, chat_id, message_id, at - 1);
    }
}

} // verus!
