//! What the bridge stores and is configured with.

use vstd::prelude::*;

use crate::json;
use crate::text::same_text;

verus! {

/// The bot and the chat that the bridge talks to.
#[derive(Debug, PartialEq, Eq)]
pub struct TelegramConfig {
    pub bot_token: String,
    pub chat_id: String,
    /// Where set, the one user who may use the chat.
    pub allowed_user_id: Option<String>,
}

/// A project in which Telegram can start threads.
#[derive(Debug, PartialEq, Eq)]
pub struct RegisteredProject {
    pub id: String,
    pub label: String,
    pub cwd: String,
    pub aliases: Vec<String>,
}

/// A working directory that recent threads ran in.
#[derive(Debug, PartialEq, Eq)]
pub struct ObservedWorkspace {
    pub label: String,
    pub cwd: String,
}

/// What a thread waits for.
#[derive(Debug, PartialEq, Eq)]
pub struct PendingPrompt {
    pub prompt_id: String,
    pub kind: String,
    pub status: String,
    pub question: Option<String>,
}

/// A thread as it was last seen.
#[derive(Debug, PartialEq, Eq)]
pub struct BridgeThreadSnapshot {
    pub thread_id: String,
    pub name: Option<String>,
    pub cwd: Option<String>,
    pub updated_at: Option<u64>,
    pub status_type: String,
    pub status_flags: Vec<String>,
    pub last_turn_status: Option<String>,
    pub last_preview: Option<String>,
    pub pending_prompt: Option<PendingPrompt>,
}

/// What a button does.
#[derive(Debug, Clone, Copy, PartialEq, Eq, Structural)]
pub enum TelegramCallbackAction {
    Approve,
    ApproveForSession,
    Deny,
    AnswerOption,
    SkipQuestion,
}

/// The name under which an action is stored.
pub open spec fn action_name(action: TelegramCallbackAction) -> Seq<char> {
    match action {
        TelegramCallbackAction::Approve => "approve"@,
        TelegramCallbackAction::ApproveForSession => "approve_for_session"@,
        TelegramCallbackAction::Deny => "deny"@,
        TelegramCallbackAction::AnswerOption => "answer_option"@,
        TelegramCallbackAction::SkipQuestion => "skip_question"@,
    }
}

/// The action that is stored under a name.
pub open spec fn action_named(name: Seq<char>) -> Option<TelegramCallbackAction> {
    if name == "approve"@ {
        Some(TelegramCallbackAction::Approve)
    } else if name == "approve_for_session"@ {
        Some(TelegramCallbackAction::ApproveForSession)
    } else if name == "deny"@ {
        Some(TelegramCallbackAction::Deny)
    } else if name == "answer_option"@ {
        Some(TelegramCallbackAction::AnswerOption)
    } else if name == "skip_question"@ {
        Some(TelegramCallbackAction::SkipQuestion)
    } else {
        None
    }
}

/// An action is read back from its name.
pub proof fn action_names_read_back(action: TelegramCallbackAction)
    ensures
        action_named(action_name(action)) == Some(action),
{
    reveal_strlit("approve");
    reveal_strlit("approve_for_session");
    reveal_strlit("deny");
    reveal_strlit("answer_option");
    reveal_strlit("skip_question");
    assert("approve"@.len() == 7 && "approve_for_session"@.len() == 19 && "deny"@.len() == 4);
    assert("answer_option"@.len() == 13 && "skip_question"@.len() == 13);
    assert("answer_option"@[0] == 'a' && "skip_question"@[0] == 's');
}

impl TelegramCallbackAction {
    /// The name under which the action is stored.
    pub fn as_str(&self) -> (out: &'static str)
        ensures
            out@ == action_name(*self),
    {
        match self {
            TelegramCallbackAction::Approve => "approve",
            TelegramCallbackAction::ApproveForSession => "approve_for_session",
            TelegramCallbackAction::Deny => "deny",
            TelegramCallbackAction::AnswerOption => "answer_option",
            TelegramCallbackAction::SkipQuestion => "skip_question",
        }
    }

    /// The action that is stored under a name.
    pub fn from_name(name: &str) -> (out: Option<TelegramCallbackAction>)
        ensures
            out == action_named(name@),
    {
        if same_text(name, "approve") {
            Some(TelegramCallbackAction::Approve)
        } else if same_text(name, "approve_for_session") {
            Some(TelegramCallbackAction::ApproveForSession)
        } else if same_text(name, "deny") {
            Some(TelegramCallbackAction::Deny)
        } else if same_text(name, "answer_option") {
            Some(TelegramCallbackAction::AnswerOption)
        } else if same_text(name, "skip_question") {
            Some(TelegramCallbackAction::SkipQuestion)
        } else {
            None
        }
    }

    /// Whether the button settles a question.
    pub fn answers_question(&self) -> (out: bool)
        ensures
            out == answers_question(*self),
    {
        match self {
            TelegramCallbackAction::AnswerOption => true,
            TelegramCallbackAction::SkipQuestion => true,
            _ => false,
        }
    }
}

/// The button settles a question.
pub open spec fn answers_question(action: TelegramCallbackAction) -> bool {
    action == TelegramCallbackAction::AnswerOption || action
        == TelegramCallbackAction::SkipQuestion
}

/// What a button of a message is bound to.
#[derive(Debug, PartialEq, Eq)]
pub struct TelegramCallbackRoute {
    pub callback_id: String,
    pub chat_id: String,
    pub message_id: Option<i64>,
    pub thread_id: String,
    pub action: TelegramCallbackAction,
    pub approval_key: Option<String>,
    pub question_id: Option<String>,
    pub answer: Option<String>,
}

/// What a callback route holds.
pub struct CallbackRouteView {
    pub callback_id: Seq<char>,
    pub chat_id: Seq<char>,
    pub message_id: Option<int>,
    pub thread_id: Seq<char>,
    pub action: TelegramCallbackAction,
    pub approval_key: Option<Seq<char>>,
    pub question_id: Option<Seq<char>>,
    pub answer: Option<Seq<char>>,
}

impl View for TelegramCallbackRoute {
    type V = CallbackRouteView;

    open spec fn view(&self) -> CallbackRouteView {
        CallbackRouteView {
            callback_id: self.callback_id@,
            chat_id: self.chat_id@,
            message_id: json::opt_signed(self.message_id),
            thread_id: self.thread_id@,
            action: self.action,
            approval_key: json::opt_string(self.approval_key),
            question_id: json::opt_string(self.question_id),
            answer: json::opt_string(self.answer),
        }
    }
}

/// What the routes of a list hold.
pub open spec fn route_views(list: Seq<TelegramCallbackRoute>) -> Seq<CallbackRouteView> {
    Seq::new(list.len(), |i: int| list[i]@)
}

/// Appends one route to a list.
pub fn push_route(list: &mut Vec<TelegramCallbackRoute>, route: TelegramCallbackRoute)
    ensures
        route_views(final(list)@) == route_views(old(list)@).push(route@),
{
    list.push(route);
    assert(route_views(list@) =~= route_views(old(list)@).push(route@));
}

/// An optional text as a string of its own.
pub fn own(value: Option<&str>) -> (out: Option<String>)
    ensures
        json::opt_string(out) == json::opt_text(value),
{
    match value {
        Some(s) => Some(s.to_owned()),
        None => None,
    }
}

/// An optional string as a text.
pub fn lend<'a>(value: &'a Option<String>) -> (out: Option<&'a str>)
    ensures
        json::opt_text(out) == json::opt_string(*value),
{
    match value {
        Some(s) => Some(s.as_str()),
        None => None,
    }
}

/// Another string with the same text.
pub fn own_again(value: &Option<String>) -> (out: Option<String>)
    ensures
        json::opt_string(out) == json::opt_string(*value),
{
    match value {
        Some(s) => Some(s.clone()),
        None => None,
    }
}

} // verus!
