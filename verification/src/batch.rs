//! A batch of updates from Telegram: what each update leads to, in which order, and how far the
//! batch is acknowledged.
//!
//! The outside work of an update (reading and writing the store, calling Telegram and Codex) is
//! laid out as a list of effects. They are carried out in order; the first required one that fails
//! ends the update, and one that is not required may fail without consequence.

use vstd::prelude::*;

use crate::api;
use crate::api::telegram_answer_callback_query;
use crate::api::telegram_chat_id;
use crate::api::telegram_remove_inline_keyboard;
use crate::api::telegram_send_text;
use crate::api::telegram_stable_bot_id;
use crate::api::ApiCall;
use crate::api::ApiCallView;
use crate::inbound;
use crate::inbound::telegram_authorized;
use crate::inbound::telegram_tapped_message_id;
use crate::inbound::RoutedTelegramCallback;
use crate::inbound::RoutedTelegramQuestionReply;
use crate::inbound::RoutedTelegramReply;
use crate::json;
use crate::json::Fields;
use crate::json::Json;
use crate::json::JsonView;
use crate::number;
use crate::number::to_decimal;
use crate::number::to_signed_decimal;
use crate::questions;
use crate::questions::question_outcome_text;
use crate::questions::settle_question_message;
use crate::questions::QuestionAnswerOutcome;
use crate::questions::QuestionSettlement;
use crate::text::cat2;
use crate::text::cat3;
use crate::turns;
use crate::turns::codex_log_context_from_result;
use crate::turns::failure_text;
use crate::turns::plain_log_context_of;
use crate::turns::prompt_reply_log_context_from_result;
use crate::turns::LogContextView;
use crate::turns::TelegramInboundLogContext;
use crate::types::lend;
use crate::types::TelegramConfig;

verus! {

// ---------------------------------------------------------------------------------------------
// Effects
// ---------------------------------------------------------------------------------------------

/// What an update is counted as.
#[derive(Debug, Clone, Copy, PartialEq, Eq, Structural)]
pub enum Counter {
    Replies,
    CommandPromptReplies,
    Commands,
    Callbacks,
    Ignored,
}

/// One thing to do for an update.
#[derive(Debug, PartialEq, Eq)]
pub enum Effect {
    /// Puts a message in the queue of those to be deleted.
    QueueDeletion { bot_id: String, chat_id: String, message_id: i64 },
    /// Tries the queued deletions.
    RetryDeletions,
    /// Marks a button as used.
    MarkCallbackUsed { callback_id: String },
    /// Shows the outcome of a question on its message.
    Settle { settlement: QuestionSettlement },
    /// Calls Telegram.
    Call { call: ApiCall },
    /// Logs the update as processed.
    Record {
        update_id: i64,
        kind: &'static str,
        result: Json,
        context: TelegramInboundLogContext,
    },
    /// Counts the update.
    Count { counter: Counter },
}

/// What an effect holds.
pub enum EffectView {
    QueueDeletion { bot_id: Seq<char>, chat_id: Seq<char>, message_id: int },
    RetryDeletions,
    MarkCallbackUsed { callback_id: Seq<char> },
    Settle { edit: Option<ApiCallView>, fallback: ApiCallView },
    Call { call: ApiCallView },
    Record { update_id: int, kind: Seq<char>, result: JsonView, context: LogContextView },
    Count { counter: Counter },
}

/// What an optional call holds.
pub open spec fn opt_call(call: Option<ApiCall>) -> Option<ApiCallView> {
    match call {
        Some(c) => Some(c@),
        None => None,
    }
}

impl View for Effect {
    type V = EffectView;

    open spec fn view(&self) -> EffectView {
        match *self {
            Effect::QueueDeletion { bot_id, chat_id, message_id } => EffectView::QueueDeletion {
                bot_id: bot_id@,
                chat_id: chat_id@,
                message_id: message_id as int,
            },
            Effect::RetryDeletions => EffectView::RetryDeletions,
            Effect::MarkCallbackUsed { callback_id } => EffectView::MarkCallbackUsed {
                callback_id: callback_id@,
            },
            Effect::Settle { settlement } => EffectView::Settle {
                edit: opt_call(settlement.edit),
                fallback: settlement.fallback@,
            },
            Effect::Call { call } => EffectView::Call { call: call@ },
            Effect::Record { update_id, kind, result, context } => EffectView::Record {
                update_id: update_id as int,
                kind: kind@,
                result: result@,
                context: context@,
            },
            Effect::Count { counter } => EffectView::Count { counter },
        }
    }
}

/// What the effects of a list hold.
pub open spec fn effect_views(list: Seq<Effect>) -> Seq<EffectView> {
    Seq::new(list.len(), |i: int| list[i]@)
}

impl Effect {
    /// Whether the update fails where this effect fails. Calls of Telegram that only show something
    /// are best effort.
    pub fn required(&self) -> (yes: bool)
        ensures
            yes == is_required(self@),
    {
        match self {
            Effect::Settle { .. } => false,
            Effect::Call { .. } => false,
            _ => true,
        }
    }
}

/// The update fails where this effect fails.
pub open spec fn is_required(effect: EffectView) -> bool {
    !(effect is Settle) && !(effect is Call)
}

/// No effects.
pub fn no_effects() -> (out: Vec<Effect>)
    ensures
        effect_views(out@) == Seq::<EffectView>::empty(),
{
    let out: Vec<Effect> = Vec::new();
    assert(effect_views(out@) =~= Seq::<EffectView>::empty());
    out
}

fn push_effect(list: &mut Vec<Effect>, effect: Effect)
    ensures
        effect_views(final(list)@) == effect_views(old(list)@).push(effect@),
{
    list.push(effect);
    assert(effect_views(list@) =~= effect_views(old(list)@).push(effect@));
}

fn push_call(list: &mut Vec<Effect>, call: ApiCall)
    ensures
        effect_views(final(list)@) == effect_views(old(list)@).push(
            EffectView::Call { call: call@ },
        ),
{
    push_effect(list, Effect::Call { call });
}

fn push_count(list: &mut Vec<Effect>, counter: Counter)
    ensures
        effect_views(final(list)@) == effect_views(old(list)@).push(EffectView::Count { counter }),
{
    push_effect(list, Effect::Count { counter });
}

/// The effects and the log of the update, which only an update with a number has.
pub open spec fn then_record(
    effects: Seq<EffectView>,
    update_id: Option<int>,
    kind: Seq<char>,
    result: JsonView,
    context: LogContextView,
) -> Seq<EffectView> {
    match update_id {
        Some(update_id) => effects.push(EffectView::Record { update_id, kind, result, context }),
        None => effects,
    }
}

fn push_record(
    list: &mut Vec<Effect>,
    update_id: Option<i64>,
    kind: &'static str,
    result: Json,
    context: TelegramInboundLogContext,
)
    ensures
        effect_views(final(list)@) == then_record(
            effect_views(old(list)@),
            json::opt_signed(update_id),
            kind@,
            result@,
            context@,
        ),
{
    if let Some(update_id) = update_id {
        push_effect(list, Effect::Record { update_id, kind, result, context });
    }
}

/// The effects and the removal of a message's buttons, where the message is known.
pub open spec fn then_remove_keyboard(
    effects: Seq<EffectView>,
    chat_id: Seq<char>,
    message_id: Option<int>,
) -> Seq<EffectView> {
    match message_id {
        Some(id) => effects.push(
            EffectView::Call { call: api::remove_keyboard_call(chat_id, id) },
        ),
        None => effects,
    }
}

fn push_remove_keyboard(
    list: &mut Vec<Effect>,
    telegram: &TelegramConfig,
    message_id: Option<i64>,
)
    ensures
        effect_views(final(list)@) == then_remove_keyboard(
            effect_views(old(list)@),
            telegram.chat_id@,
            json::opt_signed(message_id),
        ),
{
    if let Some(id) = message_id {
        push_call(list, telegram_remove_inline_keyboard(telegram, id));
    }
}

/// The effects and the outcome of a question on its message, where the message is known.
pub open spec fn then_settle(
    effects: Seq<EffectView>,
    chat_id: Seq<char>,
    message_id: Option<int>,
    original: Option<Seq<char>>,
    outcome: Seq<char>,
) -> Seq<EffectView> {
    match message_id {
        Some(id) => effects.push(
            EffectView::Settle {
                edit: match original {
                    Some(s) => Some(
                        api::edit_text_call(chat_id, id, questions::settled_text(s, outcome)),
                    ),
                    None => None,
                },
                fallback: api::remove_keyboard_call(chat_id, id),
            },
        ),
        None => effects,
    }
}

fn push_settle(
    list: &mut Vec<Effect>,
    telegram: &TelegramConfig,
    message_id: Option<i64>,
    original: Option<&str>,
    outcome: &str,
)
    ensures
        effect_views(final(list)@) == then_settle(
            effect_views(old(list)@),
            telegram.chat_id@,
            json::opt_signed(message_id),
            json::opt_text(original),
            outcome@,
        ),
{
    match settle_question_message(telegram, message_id, original, outcome) {
        Some(settlement) => push_effect(list, Effect::Settle { settlement }),
        None => {},
    }
}

// ---------------------------------------------------------------------------------------------
// Messages
// ---------------------------------------------------------------------------------------------

/// A result that says that an update was ignored.
pub open spec fn ignored_result() -> JsonView {
    json::members().flag("ignored"@, true).object()
}

/// A result that says that an update was understood and ignored.
pub open spec fn ok_ignored_result() -> JsonView {
    json::members().flag("ok"@, true).flag("ignored"@, true).object()
}

fn ignored_json() -> (out: Json)
    ensures
        out@ == ignored_result(),
{
    Fields::new().flag("ignored", true).object()
}

fn ok_ignored_json() -> (out: Json)
    ensures
        out@ == ok_ignored_result(),
{
    Fields::new().flag("ok", true).flag("ignored", true).object()
}

/// What is done before an answer to a question is taken: a secret reply's deletion is queued before
/// anything that can fail, so that it leaves the chat even when the answer cannot be delivered.
pub open spec fn before_answer(
    telegram: TelegramConfig,
    message_id: Option<int>,
    is_secret: bool,
) -> Seq<EffectView> {
    if is_secret && message_id is Some {
        Seq::empty().push(
            EffectView::QueueDeletion {
                bot_id: api::stable_bot_id(telegram.bot_token@),
                chat_id: telegram.chat_id@,
                message_id: message_id->0,
            },
        ).push(EffectView::RetryDeletions)
    } else {
        Seq::empty()
    }
}

/// What is done before an answer to a question is taken.
pub fn before_question_answer(
    telegram: &TelegramConfig,
    route: &RoutedTelegramQuestionReply,
    is_secret: bool,
) -> (out: Vec<Effect>)
    ensures
        effect_views(out@) == before_answer(
            *telegram,
            json::opt_signed(route.message_id),
            is_secret,
        ),
{
    let mut out = no_effects();
    if is_secret {
        if let Some(message_id) = route.message_id {
            push_effect(
                &mut out,
                Effect::QueueDeletion {
                    bot_id: telegram_stable_bot_id(telegram.bot_token.as_str()),
                    chat_id: telegram.chat_id.clone(),
                    message_id,
                },
            );
            push_effect(&mut out, Effect::RetryDeletions);
        }
    }
    out
}

/// What is logged beside a result that names no thread.
pub open spec fn message_context(result: JsonView, route_message_id: Option<int>) -> LogContextView {
    turns::plain_log_context(None, route_message_id, json::text_at(result.get("action"@)))
}

/// What a reply to a question leads to.
pub open spec fn question_reply_effects(
    telegram: TelegramConfig,
    update_id: Option<int>,
    route: RoutedTelegramQuestionReply,
    outcome: QuestionAnswerOutcome,
) -> Seq<EffectView> {
    let message_id = Some(route.question_message_id as int);
    match outcome {
        QuestionAnswerOutcome::Recorded { result, sent, remaining, is_secret } => then_record(
            then_settle(
                Seq::empty(),
                telegram.chat_id@,
                message_id,
                json::opt_string(route.question_message_text),
                questions::outcome_text(
                    Some(route.text@),
                    is_secret,
                    sent,
                    remaining as int,
                ),
            ).push(EffectView::Count { counter: Counter::Replies }),
            update_id,
            "telegram_question_reply"@,
            result@,
            message_context(result@, message_id),
        ),
        QuestionAnswerOutcome::NotPending => then_record(
            Seq::empty().push(
                EffectView::Call {
                    call: api::send_text_call(
                        telegram.chat_id@,
                        "This question is no longer waiting for an answer, so your reply was not sent to Codex."@,
                    ),
                },
            ).push(EffectView::Count { counter: Counter::Ignored }),
            update_id,
            "telegram_question_reply_expired"@,
            ok_ignored_result(),
            message_context(ok_ignored_result(), message_id),
        ),
        QuestionAnswerOutcome::NeedsOption => then_record(
            Seq::empty().push(
                EffectView::Call {
                    call: api::send_text_call(
                        telegram.chat_id@,
                        "Codex asked you to pick one of the options: tap a button on the question, or Skip."@,
                    ),
                },
            ).push(EffectView::Count { counter: Counter::Ignored }),
            update_id,
            "telegram_question_reply_needs_option"@,
            ok_ignored_result(),
            message_context(ok_ignored_result(), message_id),
        ),
    }
}

/// What a reply to a question leads to, once it is known what became of the answer.
pub fn after_question_reply(
    telegram: &TelegramConfig,
    update_id: Option<i64>,
    route: &RoutedTelegramQuestionReply,
    outcome: QuestionAnswerOutcome,
) -> (out: Vec<Effect>)
    ensures
        effect_views(out@) == question_reply_effects(
            *telegram,
            json::opt_signed(update_id),
            *route,
            outcome,
        ),
{
    let mut out = no_effects();
    let message_id = Some(route.question_message_id);
    match outcome {
        QuestionAnswerOutcome::Recorded { result, sent, remaining, is_secret } => {
            let shown = question_outcome_text(
                Some(route.text.as_str()),
                is_secret,
                sent,
                remaining,
            );
            push_settle(
                &mut out,
                telegram,
                message_id,
                lend(&route.question_message_text),
                shown.as_str(),
            );
            push_count(&mut out, Counter::Replies);
            let context = plain_log_context_of(None, message_id, result.str_at("action"));
            push_record(&mut out, update_id, "telegram_question_reply", result, context);
        },
        QuestionAnswerOutcome::NotPending => {
            push_call(
                &mut out,
                telegram_send_text(
                    telegram,
                    "This question is no longer waiting for an answer, so your reply was not sent to Codex.",
                ),
            );
            push_count(&mut out, Counter::Ignored);
            let result = ok_ignored_json();
            let context = plain_log_context_of(None, message_id, result.str_at("action"));
            push_record(&mut out, update_id, "telegram_question_reply_expired", result, context);
        },
        QuestionAnswerOutcome::NeedsOption => {
            push_call(
                &mut out,
                telegram_send_text(
                    telegram,
                    "Codex asked you to pick one of the options: tap a button on the question, or Skip.",
                ),
            );
            push_count(&mut out, Counter::Ignored);
            let result = ok_ignored_json();
            let context = plain_log_context_of(None, message_id, result.str_at("action"));
            push_record(
                &mut out,
                update_id,
                "telegram_question_reply_needs_option",
                result,
                context,
            );
        },
    }
    out
}

/// What a reply to a thread leads to, once the turn is started.
pub fn after_thread_reply(
    update_id: Option<i64>,
    route: &RoutedTelegramReply,
    route_message_id: Option<i64>,
    result: Json,
) -> (out: Vec<Effect>)
    ensures
        effect_views(out@) == then_record(
            Seq::empty(),
            json::opt_signed(update_id),
            "telegram_reply"@,
            result@,
            turns::codex_log_context(
                result@,
                Some(route.thread_id@),
                json::opt_signed(route_message_id),
            ),
        ).push(EffectView::Count { counter: Counter::Replies }),
{
    let mut out = no_effects();
    let context = codex_log_context_from_result(
        &result,
        Some(route.thread_id.as_str()),
        route_message_id,
    );
    push_record(&mut out, update_id, "telegram_reply", result, context);
    push_count(&mut out, Counter::Replies);
    out
}

/// What a reply that completes a command leads to, once the command is executed.
pub fn after_command_prompt_reply(
    update_id: Option<i64>,
    route_message_id: Option<i64>,
    result: Json,
) -> (out: Vec<Effect>)
    ensures
        effect_views(out@) == then_record(
            Seq::empty(),
            json::opt_signed(update_id),
            "telegram_command_prompt_reply"@,
            result@,
            turns::prompt_reply_log_context(result@, json::opt_signed(route_message_id)),
        ).push(EffectView::Count { counter: Counter::CommandPromptReplies }),
{
    let mut out = no_effects();
    let context = prompt_reply_log_context_from_result(&result, route_message_id);
    push_record(&mut out, update_id, "telegram_command_prompt_reply", result, context);
    push_count(&mut out, Counter::CommandPromptReplies);
    out
}

/// What a command leads to, once it is executed.
pub fn after_command(
    update_id: Option<i64>,
    route_message_id: Option<i64>,
    result: Json,
) -> (out: Vec<Effect>)
    ensures
        effect_views(out@) == then_record(
            Seq::empty(),
            json::opt_signed(update_id),
            "telegram_command"@,
            result@,
            message_context(result@, json::opt_signed(route_message_id)),
        ).push(EffectView::Count { counter: Counter::Commands }),
{
    let mut out = no_effects();
    let context = plain_log_context_of(None, route_message_id, result.str_at("action"));
    push_record(&mut out, update_id, "telegram_command", result, context);
    push_count(&mut out, Counter::Commands);
    out
}

/// What a message that asks for nothing leads to.
pub fn after_ignored_message(
    update_id: Option<i64>,
    route_message_id: Option<i64>,
) -> (out: Vec<Effect>)
    ensures
        effect_views(out@) == then_record(
            Seq::empty(),
            json::opt_signed(update_id),
            "message_ignored"@,
            ignored_result(),
            turns::plain_log_context(None, json::opt_signed(route_message_id), None),
        ).push(EffectView::Count { counter: Counter::Ignored }),
{
    let mut out = no_effects();
    let context = plain_log_context_of(None, route_message_id, None);
    push_record(&mut out, update_id, "message_ignored", ignored_json(), context);
    push_count(&mut out, Counter::Ignored);
    out
}

// ---------------------------------------------------------------------------------------------
// Taps
// ---------------------------------------------------------------------------------------------

/// What a tap is for.
#[derive(Debug, PartialEq, Eq)]
pub enum TapTarget {
    /// A question and what is answered to it.
    Question { question_key: String, question_id: String },
    /// A question button that is bound to no question.
    NoQuestion,
    /// A request that waits for an approval.
    Approval { approval_key: String },
    /// A thread that is told the decision as a text.
    Thread,
}

/// What a routed tap is for.
pub fn tap_target(route: &RoutedTelegramCallback) -> (out: TapTarget)
    ensures
        ({
            let answers = crate::types::answers_question(route.action);
            match out {
                TapTarget::Question { question_key, question_id } => answers && json::opt_string(
                    route.approval_key,
                ) == Some(question_key@) && json::opt_string(route.question_id) == Some(
                    question_id@,
                ),
                TapTarget::NoQuestion => answers && (route.approval_key is None
                    || route.question_id is None),
                TapTarget::Approval { approval_key } => !answers && json::opt_string(
                    route.approval_key,
                ) == Some(approval_key@),
                TapTarget::Thread => !answers && route.approval_key is None,
            }
        }),
{
    if route.action.answers_question() {
        match (&route.approval_key, &route.question_id) {
            (Some(key), Some(id)) => TapTarget::Question {
                question_key: key.clone(),
                question_id: id.clone(),
            },
            _ => TapTarget::NoQuestion,
        }
    } else {
        match &route.approval_key {
            Some(key) => TapTarget::Approval { approval_key: key.clone() },
            None => TapTarget::Thread,
        }
    }
}

/// What is answered to a tap that Codex could not be asked about.
pub fn after_tap_failure(route: &RoutedTelegramCallback) -> (out: Vec<Effect>)
    ensures
        effect_views(out@) == Seq::empty().push(
            EffectView::Call {
                call: api::answer_callback_call(
                    route.callback_query_id@,
                    "Codex is temporarily unavailable; tap again to retry"@,
                ),
            },
        ),
{
    let mut out = no_effects();
    push_call(
        &mut out,
        telegram_answer_callback_query(
            route.callback_query_id.as_str(),
            "Codex is temporarily unavailable; tap again to retry",
        ),
    );
    out
}

/// The result of a tap on the button of a question that is no longer pending.
pub open spec fn expired_result(action: Seq<char>, thread_id: Seq<char>) -> JsonView {
    json::members().flag("ok"@, true).text("action"@, action).text("threadId"@, thread_id).flag(
        "ignored"@,
        true,
    ).object()
}

fn expired_json(action: &str, thread_id: &str) -> (out: Json)
    ensures
        out@ == expired_result(action@, thread_id@),
{
    Fields::new().flag("ok", true).text("action", action).text("threadId", thread_id).flag(
        "ignored",
        true,
    ).object()
}

/// What a tap on a question button is answered.
pub open spec fn answered_toast(sent: bool, remaining: int) -> Seq<char> {
    if sent {
        "Sent to Codex"@
    } else {
        "Saved: "@ + number::decimal(remaining as nat) + " more question(s) to go"@
    }
}

/// What a tap on a question button leads to.
pub open spec fn question_tap_effects(
    telegram: TelegramConfig,
    update_id: Option<int>,
    route: RoutedTelegramCallback,
    message_id: Option<int>,
    message_text: Option<Seq<char>>,
    outcome: QuestionAnswerOutcome,
) -> Seq<EffectView> {
    let used = Seq::empty().push(
        EffectView::MarkCallbackUsed { callback_id: route.callback_id@ },
    );
    match outcome {
        QuestionAnswerOutcome::Recorded { result, sent, remaining, is_secret } => then_record(
            then_settle(
                used,
                telegram.chat_id@,
                message_id,
                message_text,
                questions::outcome_text(
                    json::opt_string(route.answer),
                    is_secret,
                    sent,
                    remaining as int,
                ),
            ).push(EffectView::Count { counter: Counter::Callbacks }),
            update_id,
            "callback_query"@,
            result@,
            turns::plain_log_context(
                Some(route.thread_id@),
                message_id,
                json::text_at(result@.get("action"@)),
            ),
        ).push(
            EffectView::Call {
                call: api::answer_callback_call(
                    route.callback_query_id@,
                    answered_toast(sent, remaining as int),
                ),
            },
        ),
        _ => then_record(
            then_remove_keyboard(used, telegram.chat_id@, message_id).push(
                EffectView::Count { counter: Counter::Ignored },
            ),
            update_id,
            "callback_query_expired"@,
            expired_result("telegram_question_expired"@, route.thread_id@),
            turns::plain_log_context(
                Some(route.thread_id@),
                message_id,
                json::text_at(
                    expired_result("telegram_question_expired"@, route.thread_id@).get("action"@),
                ),
            ),
        ).push(
            EffectView::Call {
                call: api::answer_callback_call(
                    route.callback_query_id@,
                    "This question is no longer pending"@,
                ),
            },
        ),
    }
}

/// What a tap on a question button leads to, once it is known what became of the answer.
pub fn after_question_tap(
    telegram: &TelegramConfig,
    update_id: Option<i64>,
    route: &RoutedTelegramCallback,
    message_id: Option<i64>,
    message_text: Option<&str>,
    outcome: QuestionAnswerOutcome,
) -> (out: Vec<Effect>)
    ensures
        effect_views(out@) == question_tap_effects(
            *telegram,
            json::opt_signed(update_id),
            *route,
            json::opt_signed(message_id),
            json::opt_text(message_text),
            outcome,
        ),
{
    let mut out = no_effects();
    push_effect(&mut out, Effect::MarkCallbackUsed { callback_id: route.callback_id.clone() });
    let thread_id = Some(route.thread_id.as_str());
    match outcome {
        QuestionAnswerOutcome::Recorded { result, sent, remaining, is_secret } => {
            let shown = question_outcome_text(lend(&route.answer), is_secret, sent, remaining);
            push_settle(&mut out, telegram, message_id, message_text, shown.as_str());
            push_count(&mut out, Counter::Callbacks);
            let context = plain_log_context_of(thread_id, message_id, result.str_at("action"));
            push_record(&mut out, update_id, "callback_query", result, context);
            let toast = if sent {
                "Sent to Codex".to_owned()
            } else {
                let count = to_decimal(remaining as u128);
                cat3("Saved: ", count.as_str(), " more question(s) to go")
            };
            push_call(
                &mut out,
                telegram_answer_callback_query(route.callback_query_id.as_str(), toast.as_str()),
            );
        },
        _ => {
            push_remove_keyboard(&mut out, telegram, message_id);
            push_count(&mut out, Counter::Ignored);
            let result = expired_json("telegram_question_expired", route.thread_id.as_str());
            let context = plain_log_context_of(thread_id, message_id, result.str_at("action"));
            push_record(&mut out, update_id, "callback_query_expired", result, context);
            push_call(
                &mut out,
                telegram_answer_callback_query(
                    route.callback_query_id.as_str(),
                    "This question is no longer pending",
                ),
            );
        },
    }
    out
}

/// What a tap on an approval button leads to. `dispatched` is what came of it, or `None` where the
/// request is no longer pending.
pub open spec fn approval_tap_effects(
    telegram: TelegramConfig,
    update_id: Option<int>,
    route: RoutedTelegramCallback,
    message_id: Option<int>,
    dispatched: Option<JsonView>,
) -> Seq<EffectView> {
    match dispatched {
        Some(result) => then_record(
            Seq::empty(),
            update_id,
            "callback_query"@,
            result,
            turns::codex_log_context(result, Some(route.thread_id@), message_id),
        ).push(EffectView::MarkCallbackUsed { callback_id: route.callback_id@ }).push(
            EffectView::Call {
                call: api::answer_callback_call(route.callback_query_id@, "Sent to Codex"@),
            },
        ).push(EffectView::Count { counter: Counter::Callbacks }),
        None => then_remove_keyboard(
            then_record(
                Seq::empty().push(
                    EffectView::MarkCallbackUsed { callback_id: route.callback_id@ },
                ),
                update_id,
                "callback_query_expired"@,
                expired_result("telegram_approval_expired"@, route.thread_id@),
                turns::plain_log_context(
                    Some(route.thread_id@),
                    message_id,
                    Some("telegram_approval_expired"@),
                ),
            ),
            telegram.chat_id@,
            message_id,
        ).push(
            EffectView::Call {
                call: api::answer_callback_call(
                    route.callback_query_id@,
                    "This request is no longer pending"@,
                ),
            },
        ).push(EffectView::Count { counter: Counter::Ignored }),
    }
}

/// What a tap on an approval button leads to, once the decision is dispatched.
pub fn after_approval_tap(
    telegram: &TelegramConfig,
    update_id: Option<i64>,
    route: &RoutedTelegramCallback,
    message_id: Option<i64>,
    dispatched: Option<Json>,
) -> (out: Vec<Effect>)
    ensures
        effect_views(out@) == approval_tap_effects(
            *telegram,
            json::opt_signed(update_id),
            *route,
            json::opt_signed(message_id),
            match dispatched {
                Some(result) => Some(result@),
                None => None,
            },
        ),
{
    let mut out = no_effects();
    let query_id = route.callback_query_id.as_str();
    let thread_id = Some(route.thread_id.as_str());
    match dispatched {
        Some(result) => {
            let context = codex_log_context_from_result(&result, thread_id, message_id);
            push_record(&mut out, update_id, "callback_query", result, context);
            push_effect(
                &mut out,
                Effect::MarkCallbackUsed { callback_id: route.callback_id.clone() },
            );
            push_call(&mut out, telegram_answer_callback_query(query_id, "Sent to Codex"));
            push_count(&mut out, Counter::Callbacks);
        },
        None => {
            push_effect(
                &mut out,
                Effect::MarkCallbackUsed { callback_id: route.callback_id.clone() },
            );
            let result = expired_json("telegram_approval_expired", route.thread_id.as_str());
            let context = plain_log_context_of(
                thread_id,
                message_id,
                Some("telegram_approval_expired"),
            );
            push_record(&mut out, update_id, "callback_query_expired", result, context);
            push_remove_keyboard(&mut out, telegram, message_id);
            push_call(
                &mut out,
                telegram_answer_callback_query(query_id, "This request is no longer pending"),
            );
            push_count(&mut out, Counter::Ignored);
        },
    }
    out
}

/// The message whose dead buttons are retired: only one of the authorized chat's own.
pub open spec fn retired_message(query: JsonView, telegram: TelegramConfig) -> Option<int> {
    let chat_id = match query.get("message"@) {
        Some(message) => api::chat_id_of(message),
        None => None,
    };
    let user_id = match json::signed_at(json::at(query.get("from"@), "id"@)) {
        Some(n) => Some(number::signed_decimal(n)),
        None => None,
    };
    if inbound::authorized(telegram, chat_id, user_id) {
        api::message_id_of(query.get("message"@))
    } else {
        None
    }
}

fn find_retired_message(query: &Json, telegram: &TelegramConfig) -> (out: Option<i64>)
    ensures
        json::opt_signed(out) == retired_message(query@, *telegram),
{
    let chat_id = match query.get("message") {
        Some(message) => telegram_chat_id(message),
        None => None,
    };
    let user_id = match query.get2("from", "id") {
        Some(id) => match id.as_i64() {
            Some(n) => Some(to_signed_decimal(n)),
            None => None,
        },
        None => None,
    };
    if telegram_authorized(telegram, lend(&chat_id), lend(&user_id)) {
        telegram_tapped_message_id(query)
    } else {
        None
    }
}

/// What a tap that no button answers leads to.
pub open spec fn unrouted_tap_effects(
    telegram: TelegramConfig,
    update_id: Option<int>,
    query: JsonView,
) -> Seq<EffectView> {
    let answered = match json::text_at(query.get("id"@)) {
        Some(id) => Seq::empty().push(
            EffectView::Call {
                call: api::answer_callback_call(id, "This request is no longer pending"@),
            },
        ),
        None => Seq::empty(),
    };
    then_record(
        then_remove_keyboard(answered, telegram.chat_id@, retired_message(query, telegram)),
        update_id,
        "callback_query_ignored"@,
        ignored_result(),
        turns::plain_log_context(None, api::message_id_of(query.get("message"@)), None),
    ).push(EffectView::Count { counter: Counter::Ignored })
}

/// What a tap that no button answers leads to.
pub fn after_unrouted_tap(
    telegram: &TelegramConfig,
    update_id: Option<i64>,
    query: &Json,
) -> (out: Vec<Effect>)
    ensures
        effect_views(out@) == unrouted_tap_effects(*telegram, json::opt_signed(update_id), query@),
{
    let mut out = no_effects();
    if let Some(id) = query.str_at("id") {
        push_call(
            &mut out,
            telegram_answer_callback_query(id, "This request is no longer pending"),
        );
    }
    let retired = find_retired_message(query, telegram);
    push_remove_keyboard(&mut out, telegram, retired);
    let context = plain_log_context_of(None, telegram_tapped_message_id(query), None);
    push_record(&mut out, update_id, "callback_query_ignored", ignored_json(), context);
    push_count(&mut out, Counter::Ignored);
    out
}

// ---------------------------------------------------------------------------------------------
// Failures
// ---------------------------------------------------------------------------------------------

/// Why an update failed, and what the sender of a message is told of it.
#[derive(Debug, PartialEq, Eq)]
pub struct Failure {
    /// The error, as it is logged.
    pub error: String,
    /// What the sender is told.
    pub notice: String,
}

/// The failure tells the sender the error itself.
pub open spec fn is_plain(failure: Failure, error: Seq<char>) -> bool {
    failure.error@ == error && failure.notice@ == turns::unprocessed_text(error)
}

/// A failure of which the sender is told the error itself.
pub fn plain_failure(error: String) -> (out: Failure)
    ensures
        is_plain(out, error@),
{
    let notice = failure_text(error.as_str());
    Failure { error, notice }
}

/// What a failed update leads to: it is logged, so that polling advances past it, and the sender of
/// a message is told.
pub open spec fn failure_effects(
    telegram: TelegramConfig,
    update_id: Option<int>,
    is_message: bool,
    error: Seq<char>,
    notice: Seq<char>,
) -> Seq<EffectView> {
    let logged = then_record(
        Seq::empty(),
        update_id,
        "update_error"@,
        json::members().text("error"@, error).object(),
        turns::plain_log_context(None, None, None),
    );
    if is_message {
        logged.push(EffectView::Call { call: api::send_text_call(telegram.chat_id@, notice) })
    } else {
        logged
    }
}

/// What a failed update leads to.
pub fn after_failure(
    telegram: &TelegramConfig,
    update_id: Option<i64>,
    is_message: bool,
    failure: &Failure,
) -> (out: Vec<Effect>)
    ensures
        effect_views(out@) == failure_effects(
            *telegram,
            json::opt_signed(update_id),
            is_message,
            failure.error@,
            failure.notice@,
        ),
{
    let mut out = no_effects();
    let context = plain_log_context_of(None, None, None);
    push_record(
        &mut out,
        update_id,
        "update_error",
        Fields::new().text("error", failure.error.as_str()).object(),
        context,
    );
    if is_message {
        push_call(&mut out, telegram_send_text(telegram, failure.notice.as_str()));
    }
    out
}

// ---------------------------------------------------------------------------------------------
// What every handled update has in common
// ---------------------------------------------------------------------------------------------

/// How many of the effects log the update.
pub open spec fn records(effects: Seq<EffectView>) -> nat
    decreases effects.len(),
{
    if effects.len() == 0 {
        0
    } else {
        records(effects.drop_last()) + if effects.last() is Record {
            1nat
        } else {
            0nat
        }
    }
}

/// How many of the effects count the update.
pub open spec fn counts(effects: Seq<EffectView>) -> nat
    decreases effects.len(),
{
    if effects.len() == 0 {
        0
    } else {
        counts(effects.drop_last()) + if effects.last() is Count {
            1nat
        } else {
            0nat
        }
    }
}

proof fn lemma_pushed(effects: Seq<EffectView>, effect: EffectView)
    ensures
        records(effects.push(effect)) == records(effects) + if effect is Record {
            1nat
        } else {
            0nat
        },
        counts(effects.push(effect)) == counts(effects) + if effect is Count {
            1nat
        } else {
            0nat
        },
{
    assert(effects.push(effect).drop_last() =~= effects);
}

/// The update is counted once and, where it has a number, logged once.
pub open spec fn accounted_once(effects: Seq<EffectView>, update_id: Option<int>) -> bool {
    &&& counts(effects) == 1
    &&& records(effects) == if update_id is Some {
        1nat
    } else {
        0nat
    }
}

/// Whatever becomes of the answer, a reply to a question is counted once and logged once.
pub proof fn question_replies_are_accounted_once(
    telegram: TelegramConfig,
    update_id: Option<int>,
    route: RoutedTelegramQuestionReply,
    outcome: QuestionAnswerOutcome,
)
    ensures
        accounted_once(question_reply_effects(telegram, update_id, route, outcome), update_id),
{
    broadcast use group_pushed;

}

/// Whatever becomes of the answer, a tap on a question button is counted once and logged once, and
/// its button is used up before anything else is done.
pub proof fn question_taps_are_accounted_once(
    telegram: TelegramConfig,
    update_id: Option<int>,
    route: RoutedTelegramCallback,
    message_id: Option<int>,
    message_text: Option<Seq<char>>,
    outcome: QuestionAnswerOutcome,
)
    ensures
        ({
            let effects = question_tap_effects(
                telegram,
                update_id,
                route,
                message_id,
                message_text,
                outcome,
            );
            &&& accounted_once(effects, update_id)
            &&& effects[0] == EffectView::MarkCallbackUsed { callback_id: route.callback_id@ }
        }),
{
    broadcast use group_pushed;

}

/// Whatever becomes of the decision, a tap on an approval button is counted once and logged once,
/// and its button is used up.
pub proof fn approval_taps_are_accounted_once(
    telegram: TelegramConfig,
    update_id: Option<int>,
    route: RoutedTelegramCallback,
    message_id: Option<int>,
    dispatched: Option<JsonView>,
)
    ensures
        ({
            let effects = approval_tap_effects(
                telegram,
                update_id,
                route,
                message_id,
                dispatched,
            );
            &&& accounted_once(effects, update_id)
            &&& effects.contains(
                EffectView::MarkCallbackUsed { callback_id: route.callback_id@ },
            )
        }),
{
    broadcast use group_pushed;

    let effects = approval_tap_effects(telegram, update_id, route, message_id, dispatched);
    let used = EffectView::MarkCallbackUsed { callback_id: route.callback_id@ };
    if dispatched is Some && update_id is Some {
        assert(effects[1] == used);
    } else {
        assert(effects[0] == used);
    }
}

/// A tap that no button answers is counted once and logged once.
pub proof fn unrouted_taps_are_accounted_once(
    telegram: TelegramConfig,
    update_id: Option<int>,
    query: JsonView,
)
    ensures
        accounted_once(unrouted_tap_effects(telegram, update_id, query), update_id),
{
    broadcast use group_pushed;

}

/// Adding an effect adds to the counts by its kind.
broadcast proof fn lemma_records_pushed(effects: Seq<EffectView>, effect: EffectView)
    ensures
        #[trigger] records(effects.push(effect)) == records(effects) + if effect is Record {
            1nat
        } else {
            0nat
        },
{
    lemma_pushed(effects, effect);
}

/// Adding an effect adds to the counts by its kind.
broadcast proof fn lemma_counts_pushed(effects: Seq<EffectView>, effect: EffectView)
    ensures
        #[trigger] counts(effects.push(effect)) == counts(effects) + if effect is Count {
            1nat
        } else {
            0nat
        },
{
    lemma_pushed(effects, effect);
}

broadcast group group_pushed {
    lemma_records_pushed,
    lemma_counts_pushed,
}

// ---------------------------------------------------------------------------------------------
// The batch
// ---------------------------------------------------------------------------------------------

/// The greater of an acknowledged number and a new one, where there is a new one.
pub open spec fn acked(max_acked: Option<int>, update_id: Option<int>) -> Option<int> {
    match update_id {
        Some(id) => match max_acked {
            Some(current) => if id > current {
                Some(id)
            } else {
                Some(current)
            },
            None => Some(id),
        },
        None => max_acked,
    }
}

/// Acknowledges an update.
pub fn advance_telegram_ack_offset(max_acked: &mut Option<i64>, update_id: Option<i64>)
    ensures
        json::opt_signed(*final(max_acked)) == acked(
            json::opt_signed(*old(max_acked)),
            json::opt_signed(update_id),
        ),
{
    if let Some(id) = update_id {
        let next: i64 = match *max_acked {
            Some(current) => if id > current {
                id
            } else {
                current
            },
            None => id,
        };
        *max_acked = Some(next);
    }
}

/// How an update ended.
#[derive(Debug, Clone, Copy, PartialEq, Eq, Structural)]
pub enum UpdateEnd {
    /// It had been processed before.
    Duplicate,
    /// All required effects were carried out.
    Done,
    /// One of them, or what came before them, failed.
    Failed,
}

/// What became of the updates of a batch.
#[derive(Debug, PartialEq, Eq)]
pub struct BatchTally {
    pub seen: u64,
    pub replies: u64,
    pub command_prompt_replies: u64,
    pub commands: u64,
    pub callbacks: u64,
    pub duplicate: u64,
    pub ignored: u64,
    pub failed: u64,
    pub max_acked_update_id: Option<i64>,
}

/// What a tally holds.
pub struct TallyView {
    pub seen: int,
    pub replies: int,
    pub command_prompt_replies: int,
    pub commands: int,
    pub callbacks: int,
    pub duplicate: int,
    pub ignored: int,
    pub failed: int,
    pub max_acked: Option<int>,
}

impl View for BatchTally {
    type V = TallyView;

    open spec fn view(&self) -> TallyView {
        TallyView {
            seen: self.seen as int,
            replies: self.replies as int,
            command_prompt_replies: self.command_prompt_replies as int,
            commands: self.commands as int,
            callbacks: self.callbacks as int,
            duplicate: self.duplicate as int,
            ignored: self.ignored as int,
            failed: self.failed as int,
            max_acked: json::opt_signed(self.max_acked_update_id),
        }
    }
}

/// The tally of no updates.
pub open spec fn empty_tally() -> TallyView {
    TallyView {
        seen: 0,
        replies: 0,
        command_prompt_replies: 0,
        commands: 0,
        callbacks: 0,
        duplicate: 0,
        ignored: 0,
        failed: 0,
        max_acked: None,
    }
}

/// The tally with one more update of a kind.
pub open spec fn counted(tally: TallyView, counter: Counter) -> TallyView {
    match counter {
        Counter::Replies => TallyView { replies: tally.replies + 1, ..tally },
        Counter::CommandPromptReplies => TallyView {
            command_prompt_replies: tally.command_prompt_replies + 1,
            ..tally
        },
        Counter::Commands => TallyView { commands: tally.commands + 1, ..tally },
        Counter::Callbacks => TallyView { callbacks: tally.callbacks + 1, ..tally },
        Counter::Ignored => TallyView { ignored: tally.ignored + 1, ..tally },
    }
}

/// The tally with an update that was counted as `counter`, if at all, and ended as `end`. Every
/// update that was looked at is acknowledged, a failed one too: without this, the same update would
/// be processed forever and every message behind it would be blocked.
pub open spec fn tallied(
    tally: TallyView,
    update_id: Option<int>,
    counter: Option<Counter>,
    end: UpdateEnd,
) -> TallyView {
    let seen = TallyView {
        seen: tally.seen + 1,
        max_acked: acked(tally.max_acked, update_id),
        ..tally
    };
    let kind = match counter {
        Some(counter) => counted(seen, counter),
        None => seen,
    };
    match end {
        UpdateEnd::Duplicate => TallyView { duplicate: kind.duplicate + 1, ..kind },
        UpdateEnd::Done => kind,
        UpdateEnd::Failed => TallyView { failed: kind.failed + 1, ..kind },
    }
}

impl BatchTally {
    /// Every count is at most the number of updates that were looked at.
    pub open spec fn wf(self) -> bool {
        &&& self.replies <= self.seen
        &&& self.command_prompt_replies <= self.seen
        &&& self.commands <= self.seen
        &&& self.callbacks <= self.seen
        &&& self.duplicate <= self.seen
        &&& self.ignored <= self.seen
        &&& self.failed <= self.seen
    }

    /// The tally of no updates.
    pub fn new() -> (out: BatchTally)
        ensures
            out.wf(),
            out@ == empty_tally(),
    {
        BatchTally {
            seen: 0,
            replies: 0,
            command_prompt_replies: 0,
            commands: 0,
            callbacks: 0,
            duplicate: 0,
            ignored: 0,
            failed: 0,
            max_acked_update_id: None,
        }
    }

    /// Adds an update.
    pub fn add_update(
        &mut self,
        update_id: Option<i64>,
        counter: Option<Counter>,
        end: UpdateEnd,
    )
        requires
            old(self).wf(),
            old(self).seen < u64::MAX,
        ensures
            final(self).wf(),
            final(self)@ == tallied(old(self)@, json::opt_signed(update_id), counter, end),
    {
        self.seen = self.seen + 1;
        advance_telegram_ack_offset(&mut self.max_acked_update_id, update_id);
        match counter {
            Some(Counter::Replies) => {
                self.replies = self.replies + 1;
            },
            Some(Counter::CommandPromptReplies) => {
                self.command_prompt_replies = self.command_prompt_replies + 1;
            },
            Some(Counter::Commands) => {
                self.commands = self.commands + 1;
            },
            Some(Counter::Callbacks) => {
                self.callbacks = self.callbacks + 1;
            },
            Some(Counter::Ignored) => {
                self.ignored = self.ignored + 1;
            },
            None => {},
        }
        match end {
            UpdateEnd::Duplicate => {
                self.duplicate = self.duplicate + 1;
            },
            UpdateEnd::Done => {},
            UpdateEnd::Failed => {
                self.failed = self.failed + 1;
            },
        }
    }

    /// The offset to store: the number of the last acknowledged update, in the 64 bits that the
    /// store keeps.
    pub fn stored_offset(&self) -> (out: Option<u64>)
        ensures
            json::opt_unsigned(out) == match self@.max_acked {
                Some(id) => Some(unsigned_bits(id)),
                None => None,
            },
    {
        match self.max_acked_update_id {
            Some(id) => if id >= 0 {
                Some(id as u64)
            } else {
                Some((id as i128 + 0x1_0000_0000_0000_0000) as u64)
            },
            None => None,
        }
    }

    /// The report of the batch.
    pub fn report(&self) -> (out: Json)
        ensures
            out@ == batch_report(self@),
    {
        Fields::new().flag("ok", true).text("transport", "telegram").number(
            "seen",
            self.seen as i128,
        ).number("replies", self.replies as i128).number(
            "commandPromptReplies",
            self.command_prompt_replies as i128,
        ).number("commands", self.commands as i128).number(
            "callbacks",
            self.callbacks as i128,
        ).number("duplicate", self.duplicate as i128).number(
            "ignored",
            self.ignored as i128,
        ).number("failed", self.failed as i128).object()
    }
}

/// A 64-bit number read without its sign.
pub open spec fn unsigned_bits(n: int) -> int {
    if n >= 0 {
        n
    } else {
        n + 0x1_0000_0000_0000_0000
    }
}

/// A 64-bit number read with its sign.
pub open spec fn signed_bits(n: int) -> int {
    if n <= i64::MAX {
        n
    } else {
        n - 0x1_0000_0000_0000_0000
    }
}

/// The report of a batch.
pub open spec fn batch_report(tally: TallyView) -> JsonView {
    json::members().flag("ok"@, true).text("transport"@, "telegram"@).number(
        "seen"@,
        tally.seen,
    ).number("replies"@, tally.replies).number(
        "commandPromptReplies"@,
        tally.command_prompt_replies,
    ).number("commands"@, tally.commands).number("callbacks"@, tally.callbacks).number(
        "duplicate"@,
        tally.duplicate,
    ).number("ignored"@, tally.ignored).number("failed"@, tally.failed).object()
}

/// The key under which the offset of a bot is stored.
pub fn telegram_offset_key(bot_id: &str) -> (out: String)
    ensures
        out@ == "telegram_offset:"@ + bot_id@,
{
    cat2("telegram_offset:", bot_id)
}

/// The first update to ask for: the one behind the last acknowledged one.
pub fn next_update_offset(stored: Option<u64>) -> (out: Option<i64>)
    requires
        stored matches Some(n) ==> n != i64::MAX,
    ensures
        json::opt_signed(out) == match stored {
            Some(n) => Some(signed_bits(n as int) + 1),
            None => None,
        },
{
    match stored {
        Some(n) => if n <= i64::MAX as u64 {
            Some(n as i64 + 1)
        } else {
            Some((n as i128 - 0x1_0000_0000_0000_0000 + 1) as i64)
        },
        None => None,
    }
}

/// What is asked for next is the update behind the last acknowledged one.
pub proof fn polling_continues_behind_the_last_update(id: int)
    requires
        i64::MIN <= id < i64::MAX,
    ensures
        signed_bits(unsigned_bits(id)) + 1 == id + 1,
{
}

/// The report of a poll for which the cycle had no time left.
pub open spec fn skipped_poll() -> JsonView {
    json::members().flag("ok"@, true).text("transport"@, "telegram"@).number("seen"@, 0).text(
        "skipped"@,
        "cycle_deadline"@,
    ).object()
}

/// The report of a poll for which the cycle had no time left.
pub fn skipped_poll_report() -> (out: Json)
    ensures
        out@ == skipped_poll(),
{
    Fields::new().flag("ok", true).text("transport", "telegram").number("seen", 0).text(
        "skipped",
        "cycle_deadline",
    ).object()
}

/// An update that was looked at.
pub ghost struct HandledUpdate {
    pub update_id: Option<int>,
    pub counter: Option<Counter>,
    pub end: UpdateEnd,
}

/// The tally of a batch.
pub open spec fn batch_tally(updates: Seq<HandledUpdate>) -> TallyView
    decreases updates.len(),
{
    if updates.len() == 0 {
        empty_tally()
    } else {
        let last = updates.last();
        tallied(batch_tally(updates.drop_last()), last.update_id, last.counter, last.end)
    }
}

/// How many updates ended as `end`.
pub open spec fn ended(updates: Seq<HandledUpdate>, end: UpdateEnd) -> int
    decreases updates.len(),
{
    if updates.len() == 0 {
        0
    } else {
        ended(updates.drop_last(), end) + if updates.last().end == end {
            1int
        } else {
            0int
        }
    }
}

/// The acknowledged number is the greatest of the updates that were looked at: it covers each of
/// them, a failed one too, and belongs to one of them.
pub proof fn the_offset_covers_what_was_handled(updates: Seq<HandledUpdate>)
    ensures
        forall|i: int|
            0 <= i < updates.len() && (#[trigger] updates[i]).update_id is Some ==> {
                &&& batch_tally(updates).max_acked is Some
                &&& updates[i].update_id->0 <= batch_tally(updates).max_acked->0
            },
        batch_tally(updates).max_acked is Some ==> exists|i: int|
            0 <= i < updates.len() && (#[trigger] updates[i]).update_id == batch_tally(
                updates,
            ).max_acked,
    decreases updates.len(),
{
    if updates.len() > 0 {
        let before = updates.drop_last();
        the_offset_covers_what_was_handled(before);
        let max = batch_tally(updates).max_acked;
        assert forall|i: int|
            0 <= i < updates.len() && (#[trigger] updates[i]).update_id is Some implies max is Some
            && updates[i].update_id->0 <= max->0 by {
            if i < before.len() {
                assert(before[i] == updates[i]);
            }
        }
        if max is Some {
            if updates.last().update_id == max {
                assert(updates[updates.len() - 1].update_id == max);
            } else {
                let k = choose|k: int|
                    0 <= k < before.len() && (#[trigger] before[k]).update_id == batch_tally(
                        before,
                    ).max_acked;
                assert(updates[k] == before[k]);
            }
        }
    }
}

/// A batch that ends early never skips a later message: where the updates come in the order of
/// their numbers, the acknowledged number is below that of every update that was not looked at.
pub proof fn the_offset_never_skips_updates(
    handled: Seq<HandledUpdate>,
    rest: Seq<int>,
)
    requires
        forall|i: int, j: int|
            0 <= i < handled.len() && 0 <= j < rest.len() && (#[trigger] handled[i]).update_id is Some
                ==> handled[i].update_id->0 < #[trigger] rest[j],
    ensures
        batch_tally(handled).max_acked is Some ==> forall|j: int|
            0 <= j < rest.len() ==> batch_tally(handled).max_acked->0 < #[trigger] rest[j],
{
    the_offset_covers_what_was_handled(handled);
    if batch_tally(handled).max_acked is Some {
        let k = choose|k: int|
            0 <= k < handled.len() && (#[trigger] handled[k]).update_id == batch_tally(
                handled,
            ).max_acked;
        assert forall|j: int| 0 <= j < rest.len() implies batch_tally(handled).max_acked->0
            < #[trigger] rest[j] by {
            assert(handled[k].update_id->0 < rest[j]);
        }
    }
}

/// Acknowledging never goes back.
pub proof fn the_offset_never_goes_back(
    updates: Seq<HandledUpdate>,
    next: HandledUpdate,
)
    requires
        batch_tally(updates).max_acked is Some,
    ensures
        batch_tally(updates.push(next)).max_acked is Some,
        batch_tally(updates).max_acked->0 <= batch_tally(updates.push(next)).max_acked->0,
{
    assert(updates.push(next).drop_last() =~= updates);
}

/// Every update that was looked at is seen, and ended as a duplicate, as done or as failed.
pub proof fn every_update_is_accounted_for(updates: Seq<HandledUpdate>)
    ensures
        batch_tally(updates).seen == updates.len(),
        batch_tally(updates).duplicate == ended(updates, UpdateEnd::Duplicate),
        batch_tally(updates).failed == ended(updates, UpdateEnd::Failed),
        updates.len() == ended(updates, UpdateEnd::Duplicate) + ended(updates, UpdateEnd::Done)
            + ended(updates, UpdateEnd::Failed),
    decreases updates.len(),
{
    if updates.len() > 0 {
        every_update_is_accounted_for(updates.drop_last());
    }
}

/// A failing update does not block the ones behind it: what is tallied of them is the same as
/// behind an update that did not fail, but for the failure itself.
pub proof fn failures_do_not_block_later_updates(
    tally: TallyView,
    update_id: Option<int>,
    later_id: Option<int>,
    later_counter: Option<Counter>,
    later_end: UpdateEnd,
)
    ensures
        ({
            let failed = tallied(
                tallied(tally, update_id, None, UpdateEnd::Failed),
                later_id,
                later_counter,
                later_end,
            );
            let done = tallied(
                tallied(tally, update_id, None, UpdateEnd::Done),
                later_id,
                later_counter,
                later_end,
            );
            failed == TallyView { failed: done.failed + 1, ..done }
        }),
{
}

} // verus!
