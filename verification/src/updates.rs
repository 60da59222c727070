//! One update from Telegram, step by step.
//!
//! Each step names the outside work that comes next and keeps what is needed to go on. A function
//! for each step takes what came of that work and gives the next step, until the update is
//! finished or has failed.

use vstd::prelude::*;

use crate::api;
use crate::api::telegram_reply_to_id;
use crate::batch;
use crate::batch::after_approval_tap;
use crate::batch::after_command;
use crate::batch::after_command_prompt_reply;
use crate::batch::after_ignored_message;
use crate::batch::after_question_reply;
use crate::batch::after_question_tap;
use crate::batch::after_tap_failure;
use crate::batch::after_thread_reply;
use crate::batch::after_unrouted_tap;
use crate::batch::before_question_answer;
use crate::batch::no_effects;
use crate::batch::plain_failure;
use crate::batch::tap_target;
use crate::batch::Effect;
use crate::batch::EffectView;
use crate::batch::Failure;
use crate::batch::TapTarget;
use crate::inbound;
use crate::inbound::extract_telegram_callback_route;
use crate::inbound::extract_telegram_command;
use crate::inbound::extract_telegram_command_prompt_reply;
use crate::inbound::extract_telegram_question_reply;
use crate::inbound::extract_telegram_reply_route;
use crate::inbound::is_tap_authorized;
use crate::inbound::telegram_reply;
use crate::inbound::telegram_tapped_callback_id;
use crate::inbound::telegram_tapped_message_id;
use crate::inbound::CallbackError;
use crate::inbound::CommandRoute;
use crate::inbound::QuestionMessage;
use crate::inbound::QuestionRef;
use crate::inbound::RoutedTelegramCallback;
use crate::inbound::RoutedTelegramCommandPromptReply;
use crate::inbound::RoutedTelegramQuestionReply;
use crate::inbound::RoutedTelegramReply;
use crate::inbound::StoredCallbackRoute;
use crate::inbound::TelegramInboundCommand;
use crate::inbound::TelegramReply;
use crate::json;
use crate::json::Json;
use crate::json::JsonView;
use crate::questions::QuestionAnswerOutcome;
use crate::text;
use crate::turns;
use crate::turns::reply_failure_text;
use crate::types;
use crate::types::TelegramConfig;

verus! {

/// What comes next for an update.
#[allow(inconsistent_fields)]
#[derive(Debug, PartialEq, Eq)]
pub enum UpdateStep {
    /// Look up whether the message that is replied to asks a question.
    LookupQuestion { reply: TelegramReply },
    /// Look up whether the message that is replied to belongs to a thread.
    LookupThread { reply: TelegramReply },
    /// Look up whether the message that is replied to asks for the rest of a command.
    LookupCommand { reply: TelegramReply },
    /// Look up whether the question is secret.
    CheckSecret { route: RoutedTelegramQuestionReply },
    /// Carry out the effects, and only then answer the question.
    AnswerReply { before: Vec<Effect>, route: RoutedTelegramQuestionReply },
    /// Start a turn.
    StartTurn { route: RoutedTelegramReply },
    /// Execute the command that the reply completes.
    CompleteCommand { route: RoutedTelegramCommandPromptReply },
    /// Execute a command.
    RunCommand { command: TelegramInboundCommand },
    /// Look up the stored buttons and the delivered copies of questions.
    LookupButtons { callback_id: String },
    /// Answer the question that a button belongs to.
    AnswerTap { route: RoutedTelegramCallback, question_key: String, question_id: String },
    /// Answer the request that a button belongs to.
    Approve { route: RoutedTelegramCallback, approval_key: String },
    /// Tell a thread the decision as a text.
    ApproveAsText { route: RoutedTelegramCallback },
    /// Carry out the effects; the update is done.
    Finish { effects: Vec<Effect> },
    /// Carry out the effects; the update has failed.
    Fail { effects: Vec<Effect>, failure: Failure },
}

/// The number of an update.
pub open spec fn update_id_of(update: JsonView) -> Option<int> {
    json::signed_at(update.get("update_id"@))
}

/// The number of an update.
pub fn telegram_update_id(update: &Json) -> (out: Option<i64>)
    ensures
        json::opt_signed(out) == update_id_of(update@),
{
    update.i64_at("update_id")
}

/// What comes next for a batch of updates.
#[derive(Debug, Clone, Copy, PartialEq, Eq, Structural)]
pub enum BatchStep {
    /// The batch is over: all updates were looked at, or the cycle has no time left for the rest.
    End,
    /// Look up whether the next update was processed before.
    CheckProcessed { update_id: i64 },
    /// Process the next update: it has no number by which it could be known.
    Process,
}

/// What comes next for a batch in which the updates before `at` were looked at. An update that the
/// cycle has no time for is left to the next poll.
pub fn batch_step(updates: &Vec<Json>, at: usize, over: bool) -> (out: BatchStep)
    ensures
        match out {
            BatchStep::End => over || at >= updates@.len(),
            BatchStep::CheckProcessed { update_id } => !over && at < updates@.len()
                && update_id_of(updates@[at as int]@) == Some(update_id as int),
            BatchStep::Process => !over && at < updates@.len() && update_id_of(
                updates@[at as int]@,
            ) is None,
        },
{
    if over || at >= updates.len() {
        return BatchStep::End;
    }
    match telegram_update_id(&updates[at]) {
        Some(update_id) => BatchStep::CheckProcessed { update_id },
        None => BatchStep::Process,
    }
}

/// Whether an update is a message, whose sender is told of a failure.
pub fn is_message_update(update: &Json) -> (yes: bool)
    ensures
        yes == (update@.get("message"@) is Some),
{
    update.get("message").is_some()
}

/// The effects of a message that asks for nothing.
pub open spec fn ignored_message_effects(update_id: Option<int>, message: JsonView) -> Seq<
    EffectView,
> {
    batch::then_record(
        Seq::empty(),
        update_id,
        "message_ignored"@,
        batch::ignored_result(),
        turns::plain_log_context(None, api::reply_to_id(message), None),
    ).push(EffectView::Count { counter: batch::Counter::Ignored })
}

/// The first step of a message.
pub open spec fn message_begins(
    out: UpdateStep,
    update_id: Option<int>,
    message: JsonView,
    telegram: TelegramConfig,
) -> bool {
    let reply = inbound::reply_of(message, telegram);
    let command = inbound::message_command(message, telegram);
    match out {
        UpdateStep::LookupQuestion { reply: looked_up } => reply == Some(looked_up@),
        UpdateStep::RunCommand { command: run } => reply is None && command == Some(run@),
        UpdateStep::Finish { effects } => {
            &&& reply is None
            &&& command is None
            &&& batch::effect_views(effects@) == ignored_message_effects(update_id, message)
        },
        _ => false,
    }
}

/// The first step of a tap.
pub open spec fn tap_begins(
    out: UpdateStep,
    update_id: Option<int>,
    query: JsonView,
    telegram: TelegramConfig,
) -> bool {
    let authorized = inbound::tap_authorized(query, telegram);
    let named = json::text_at(query.get("id"@)) is Some;
    let callback_id = inbound::tapped_callback_id(query);
    match out {
        UpdateStep::Fail { effects, failure } => {
            &&& authorized
            &&& !named
            &&& batch::effect_views(effects@) == Seq::<EffectView>::empty()
            &&& batch::is_plain(failure, "callback query missing id"@)
        },
        UpdateStep::LookupButtons { callback_id: looked_up } => authorized && named && callback_id
            == Some(looked_up@),
        UpdateStep::Finish { effects } => {
            &&& !authorized || named && callback_id is None
            &&& batch::effect_views(effects@) == batch::unrouted_tap_effects(
                telegram,
                update_id,
                query,
            )
        },
        _ => false,
    }
}

/// The first step of an update.
pub open spec fn update_begins(
    out: UpdateStep,
    update: JsonView,
    telegram: TelegramConfig,
) -> bool {
    match update.get("message"@) {
        Some(message) => message_begins(out, update_id_of(update), message, telegram),
        None => match update.get("callback_query"@) {
            Some(query) => tap_begins(out, update_id_of(update), query, telegram),
            None => out matches UpdateStep::Finish { effects } && batch::effect_views(effects@)
                == Seq::<EffectView>::empty(),
        },
    }
}

/// The first step of an update: a message, a tap on a button, or something else that is done
/// already.
pub fn begin_update(update: &Json, telegram: &TelegramConfig) -> (out: UpdateStep)
    ensures
        update_begins(out, update@, *telegram),
{
    let update_id = telegram_update_id(update);
    if let Some(message) = update.get("message") {
        if let Some(reply) = telegram_reply(message, telegram) {
            return UpdateStep::LookupQuestion { reply };
        }
        return match extract_telegram_command(message, telegram) {
            Some(command) => UpdateStep::RunCommand { command },
            None => UpdateStep::Finish {
                effects: after_ignored_message(update_id, telegram_reply_to_id(message)),
            },
        };
    }
    if let Some(query) = update.get("callback_query") {
        if is_tap_authorized(query, telegram) {
            if query.str_at("id").is_none() {
                return UpdateStep::Fail {
                    effects: no_effects(),
                    failure: plain_failure(CallbackError::MissingId.message().to_owned()),
                };
            }
            if let Some(callback_id) = telegram_tapped_callback_id(query) {
                return UpdateStep::LookupButtons { callback_id: callback_id.to_owned() };
            }
        }
        return UpdateStep::Finish { effects: after_unrouted_tap(telegram, update_id, query) };
    }
    UpdateStep::Finish { effects: no_effects() }
}

/// The first step of an update, where it was not processed before; `None` means that it is a
/// duplicate, for which nothing is done.
pub fn begin_unless_processed(
    update: &Json,
    telegram: &TelegramConfig,
    processed: bool,
) -> (out: Option<UpdateStep>)
    ensures
        out is None <==> processed,
        out matches Some(step) ==> update_begins(step, update@, *telegram),
{
    if processed {
        None
    } else {
        Some(begin_update(update, telegram))
    }
}

/// Goes on from the lookup of a question. A reply to a question message answers that question and
/// is never sent to Codex as a new turn, even once the question is settled.
pub fn question_looked_up(
    message: &Json,
    telegram: &TelegramConfig,
    reply: TelegramReply,
    found: Option<QuestionRef>,
) -> (out: UpdateStep)
    requires
        inbound::reply_of(message@, *telegram) == Some(reply@),
    ensures
        match found {
            Some(question) => out matches UpdateStep::CheckSecret { route } && {
                &&& route.question_key@ == question.question_key@
                &&& route.question_id@ == question.question_id@
                &&& route.text@ == reply.text@
                &&& json::opt_signed(route.message_id) == api::message_id_of(Some(message@))
                &&& route.question_message_id == reply.reply_to
                &&& json::opt_string(route.question_message_text) == json::text_at(
                    json::at(message@.get("reply_to_message"@), "text"@),
                )
            },
            None => out matches UpdateStep::LookupThread { reply: same } && same == reply,
        },
{
    match extract_telegram_question_reply(message, telegram, found) {
        Some(route) => UpdateStep::CheckSecret { route },
        None => UpdateStep::LookupThread { reply },
    }
}

/// Goes on from the lookup of a thread.
pub fn thread_looked_up(
    message: &Json,
    telegram: &TelegramConfig,
    reply: TelegramReply,
    found: Option<String>,
) -> (out: UpdateStep)
    requires
        inbound::reply_of(message@, *telegram) == Some(reply@),
    ensures
        match found {
            Some(thread_id) => out matches UpdateStep::StartTurn { route } && route.thread_id@
                == thread_id@ && route.message@ == reply.text@,
            None => out matches UpdateStep::LookupCommand { reply: same } && same == reply,
        },
{
    match extract_telegram_reply_route(message, telegram, found) {
        Some(route) => UpdateStep::StartTurn { route },
        None => UpdateStep::LookupCommand { reply },
    }
}

/// Goes on from the lookup of a command.
pub fn command_looked_up(
    update_id: Option<i64>,
    message: &Json,
    telegram: &TelegramConfig,
    reply: TelegramReply,
    found: Option<CommandRoute>,
) -> (out: UpdateStep)
    requires
        inbound::reply_of(message@, *telegram) == Some(reply@),
    ensures
        match found {
            Some(stored) => out matches UpdateStep::CompleteCommand { route } && {
                &&& route.kind == stored.kind
                &&& route.message@ == reply.text@
                &&& json::opt_string(route.project_id) == inbound::route_project(stored.payload)
            },
            None => out matches UpdateStep::Finish { effects } && batch::effect_views(effects@)
                == ignored_message_effects(json::opt_signed(update_id), message@),
        },
{
    match extract_telegram_command_prompt_reply(message, telegram, found) {
        Some(route) => UpdateStep::CompleteCommand { route },
        None => UpdateStep::Finish {
            effects: after_ignored_message(update_id, telegram_reply_to_id(message)),
        },
    }
}

/// Goes on from the lookup whether a question is secret.
pub fn secret_checked(
    telegram: &TelegramConfig,
    route: RoutedTelegramQuestionReply,
    is_secret: bool,
) -> (out: UpdateStep)
    ensures
        out matches UpdateStep::AnswerReply { before, route: same } && same == route
            && batch::effect_views(before@) == batch::before_answer(
            *telegram,
            json::opt_signed(route.message_id),
            is_secret,
        ),
{
    let before = before_question_answer(telegram, &route, is_secret);
    UpdateStep::AnswerReply { before, route }
}

/// Goes on from the answer to a question by a reply.
pub fn reply_answered(
    telegram: &TelegramConfig,
    update_id: Option<i64>,
    route: &RoutedTelegramQuestionReply,
    outcome: QuestionAnswerOutcome,
) -> (out: UpdateStep)
    ensures
        out matches UpdateStep::Finish { effects } && batch::effect_views(effects@)
            == batch::question_reply_effects(
            *telegram,
            json::opt_signed(update_id),
            *route,
            outcome,
        ),
{
    UpdateStep::Finish { effects: after_question_reply(telegram, update_id, route, outcome) }
}

/// The effects of a turn that was started.
pub open spec fn turn_started_effects(
    update_id: Option<int>,
    thread_id: Seq<char>,
    route_message_id: Option<int>,
    result: JsonView,
) -> Seq<EffectView> {
    batch::then_record(
        Seq::empty(),
        update_id,
        "telegram_reply"@,
        result,
        turns::codex_log_context(result, Some(thread_id), route_message_id),
    ).push(EffectView::Count { counter: batch::Counter::Replies })
}

/// Goes on from a turn that was started.
pub fn turn_started(
    update_id: Option<i64>,
    message: &Json,
    route: &RoutedTelegramReply,
    result: Json,
) -> (out: UpdateStep)
    ensures
        out matches UpdateStep::Finish { effects } && batch::effect_views(effects@)
            == turn_started_effects(
            json::opt_signed(update_id),
            route.thread_id@,
            api::reply_to_id(message@),
            result@,
        ),
{
    UpdateStep::Finish {
        effects: after_thread_reply(update_id, route, telegram_reply_to_id(message), result),
    }
}

/// The effects of a completed command.
pub open spec fn command_completed_effects(
    update_id: Option<int>,
    route_message_id: Option<int>,
    result: JsonView,
) -> Seq<EffectView> {
    batch::then_record(
        Seq::empty(),
        update_id,
        "telegram_command_prompt_reply"@,
        result,
        turns::prompt_reply_log_context(result, route_message_id),
    ).push(EffectView::Count { counter: batch::Counter::CommandPromptReplies })
}

/// Goes on from a command that a reply completed.
pub fn command_completed(update_id: Option<i64>, message: &Json, result: Json) -> (out: UpdateStep)
    ensures
        out matches UpdateStep::Finish { effects } && batch::effect_views(effects@)
            == command_completed_effects(
            json::opt_signed(update_id),
            api::reply_to_id(message@),
            result@,
        ),
{
    UpdateStep::Finish {
        effects: after_command_prompt_reply(update_id, telegram_reply_to_id(message), result),
    }
}

/// The effects of an executed command.
pub open spec fn command_run_effects(
    update_id: Option<int>,
    route_message_id: Option<int>,
    result: JsonView,
) -> Seq<EffectView> {
    batch::then_record(
        Seq::empty(),
        update_id,
        "telegram_command"@,
        result,
        batch::message_context(result, route_message_id),
    ).push(EffectView::Count { counter: batch::Counter::Commands })
}

/// Goes on from a command that was executed.
pub fn command_run(update_id: Option<i64>, message: &Json, result: Json) -> (out: UpdateStep)
    ensures
        out matches UpdateStep::Finish { effects } && batch::effect_views(effects@)
            == command_run_effects(
            json::opt_signed(update_id),
            api::reply_to_id(message@),
            result@,
        ),
{
    UpdateStep::Finish {
        effects: after_command(update_id, telegram_reply_to_id(message), result),
    }
}

/// A routed tap holds what is stored for the button that answers it.
pub open spec fn routes_to(
    route: RoutedTelegramCallback,
    query: JsonView,
    row: StoredCallbackRoute,
) -> bool {
    &&& Some(route.callback_query_id@) == json::text_at(query.get("id"@))
    &&& Some(route.callback_id@) == inbound::tapped_callback_id(query)
    &&& route.thread_id@ == row.thread_id@
    &&& Some(route.action) == types::action_named(row.action@)
    &&& json::opt_string(route.approval_key) == json::opt_string(row.approval_key)
    &&& json::opt_string(route.question_id) == json::opt_string(row.question_id)
    &&& json::opt_string(route.answer) == json::opt_string(row.answer)
}

/// The step after the lookup of the buttons.
pub open spec fn tap_goes_on(
    out: UpdateStep,
    update_id: Option<int>,
    query: JsonView,
    telegram: TelegramConfig,
    rows: Seq<StoredCallbackRoute>,
    copies: Seq<QuestionMessage>,
) -> bool {
    let at = inbound::tap_answered_by(query, telegram, rows, copies);
    let row = rows[at->0];
    let answers = types::answers_question(types::action_named(row.action@)->0);
    let key = json::opt_string(row.approval_key);
    let id = json::opt_string(row.question_id);
    match out {
        UpdateStep::AnswerTap { route, question_key, question_id } => {
            &&& at is Some
            &&& routes_to(route, query, row)
            &&& answers
            &&& key == Some(question_key@)
            &&& id == Some(question_id@)
        },
        UpdateStep::Approve { route, approval_key } => {
            &&& at is Some
            &&& routes_to(route, query, row)
            &&& !answers
            &&& key == Some(approval_key@)
        },
        UpdateStep::ApproveAsText { route } => {
            &&& at is Some
            &&& routes_to(route, query, row)
            &&& !answers
            &&& key is None
        },
        UpdateStep::Finish { effects } => if at is None {
            batch::effect_views(effects@) == batch::unrouted_tap_effects(
                telegram,
                update_id,
                query,
            )
        } else {
            &&& answers
            &&& key is None || id is None
            &&& exists|route: RoutedTelegramCallback| #[trigger]
                routes_to(route, query, row) && batch::effect_views(effects@)
                    == batch::question_tap_effects(
                    telegram,
                    update_id,
                    route,
                    api::message_id_of(query.get("message"@)),
                    json::text_at(json::at(query.get("message"@), "text"@)),
                    QuestionAnswerOutcome::NotPending,
                )
        },
        _ => false,
    }
}

/// Goes on from the lookup of the buttons.
pub fn buttons_looked_up(
    update_id: Option<i64>,
    query: &Json,
    telegram: &TelegramConfig,
    rows: &Vec<StoredCallbackRoute>,
    copies: &Vec<QuestionMessage>,
) -> (out: UpdateStep)
    requires
        json::text_at(query@.get("id"@)) is Some,
    ensures
        tap_goes_on(out, json::opt_signed(update_id), query@, *telegram, rows@, copies@),
{
    match extract_telegram_callback_route(query, telegram, rows, copies) {
        Ok(Some(route)) => match tap_target(&route) {
            TapTarget::Question { question_key, question_id } => UpdateStep::AnswerTap {
                route,
                question_key,
                question_id,
            },
            TapTarget::NoQuestion => {
                let effects = after_question_tap(
                    telegram,
                    update_id,
                    &route,
                    telegram_tapped_message_id(query),
                    query.str_at2("message", "text"),
                    QuestionAnswerOutcome::NotPending,
                );
                assert(routes_to(
                    route,
                    query@,
                    rows@[inbound::tap_answered_by(query@, *telegram, rows@, copies@)->0],
                ));
                UpdateStep::Finish { effects }
            },
            TapTarget::Approval { approval_key } => UpdateStep::Approve { route, approval_key },
            TapTarget::Thread => UpdateStep::ApproveAsText { route },
        },
        Ok(None) => UpdateStep::Finish { effects: after_unrouted_tap(telegram, update_id, query) },
        Err(error) => UpdateStep::Fail {
            effects: no_effects(),
            failure: plain_failure(error.message().to_owned()),
        },
    }
}

/// Goes on from the answer to a question by a tap.
pub fn tap_answered(
    telegram: &TelegramConfig,
    update_id: Option<i64>,
    query: &Json,
    route: &RoutedTelegramCallback,
    outcome: QuestionAnswerOutcome,
) -> (out: UpdateStep)
    ensures
        out matches UpdateStep::Finish { effects } && batch::effect_views(effects@)
            == batch::question_tap_effects(
            *telegram,
            json::opt_signed(update_id),
            *route,
            api::message_id_of(query@.get("message"@)),
            json::text_at(json::at(query@.get("message"@), "text"@)),
            outcome,
        ),
{
    UpdateStep::Finish {
        effects: after_question_tap(
            telegram,
            update_id,
            route,
            telegram_tapped_message_id(query),
            query.str_at2("message", "text"),
            outcome,
        ),
    }
}

/// Goes on from a decision that was dispatched, or whose request is no longer pending.
pub fn approval_dispatched(
    telegram: &TelegramConfig,
    update_id: Option<i64>,
    query: &Json,
    route: &RoutedTelegramCallback,
    dispatched: Option<Json>,
) -> (out: UpdateStep)
    ensures
        out matches UpdateStep::Finish { effects } && batch::effect_views(effects@)
            == batch::approval_tap_effects(
            *telegram,
            json::opt_signed(update_id),
            *route,
            api::message_id_of(query@.get("message"@)),
            match dispatched {
                Some(result) => Some(result@),
                None => None,
            },
        ),
{
    UpdateStep::Finish {
        effects: after_approval_tap(
            telegram,
            update_id,
            route,
            telegram_tapped_message_id(query),
            dispatched,
        ),
    }
}

/// Goes on from outside work for a tap that failed: the button stays unused, and the user is asked
/// to tap again.
pub fn tap_failed(route: &RoutedTelegramCallback, error: String) -> (out: UpdateStep)
    ensures
        out matches UpdateStep::Fail { effects, failure } && batch::is_plain(failure, error@)
            && batch::effect_views(effects@) == Seq::empty().push(
            EffectView::Call {
                call: api::answer_callback_call(
                    route.callback_query_id@,
                    "Codex is temporarily unavailable; tap again to retry"@,
                ),
            },
        ),
{
    UpdateStep::Fail { effects: after_tap_failure(route), failure: plain_failure(error) }
}

/// Goes on from any other outside work that failed.
pub fn work_failed(error: String) -> (out: UpdateStep)
    ensures
        out matches UpdateStep::Fail { effects, failure } && batch::is_plain(failure, error@)
            && batch::effect_views(effects@) == Seq::<EffectView>::empty(),
{
    UpdateStep::Fail { effects: no_effects(), failure: plain_failure(error) }
}

/// Goes on from a reply that did not reach its thread, as a turn or as the answer to a question. The
/// error is logged; where another session holds the thread, the sender is told how to go on in
/// place of the error.
pub fn reply_failed(thread_id: &str, websocket_url: &str, error: String) -> (out: UpdateStep)
    ensures
        out matches UpdateStep::Fail { effects, failure } && failure.error == error
            && failure.notice@ == turns::reply_failure(thread_id@, websocket_url@, error@)
            && batch::effect_views(effects@) == Seq::<EffectView>::empty(),
{
    let notice = reply_failure_text(thread_id, websocket_url, error.as_str());
    UpdateStep::Fail { effects: no_effects(), failure: Failure { error, notice } }
}

/// A message from anyone who may not use the chat is neither a reply nor a command.
pub proof fn strangers_are_ignored(message: JsonView, telegram: TelegramConfig)
    requires
        !inbound::message_authorized(message, telegram),
    ensures
        inbound::reply_of(message, telegram) is None,
        inbound::message_command(message, telegram) is None,
{
}

/// A message is never both a reply and a command.
pub proof fn replies_are_not_commands(message: JsonView, telegram: TelegramConfig)
    requires
        inbound::reply_of(message, telegram) is Some,
    ensures
        inbound::message_command(message, telegram) is None,
{
}

// ---------------------------------------------------------------------------------------------
// Polling again
// ---------------------------------------------------------------------------------------------

/// The effects log the update with this number.
pub open spec fn records_update(effects: Seq<EffectView>, id: int) -> bool {
    exists|i: int|
        0 <= i < effects.len() && (#[trigger] effects[i] matches EffectView::Record {
            update_id,
            ..
        } && update_id == id)
}

/// The effects are those with which a message or a tap can be done.
pub open spec fn finishes(
    effects: Seq<EffectView>,
    update: JsonView,
    telegram: TelegramConfig,
) -> bool {
    let id = update_id_of(update);
    match update.get("message"@) {
        Some(message) => {
            let to = api::reply_to_id(message);
            ||| effects == ignored_message_effects(id, message)
            ||| exists|route: RoutedTelegramQuestionReply, outcome: QuestionAnswerOutcome|
                effects == #[trigger] batch::question_reply_effects(telegram, id, route, outcome)
            ||| exists|thread_id: Seq<char>, result: JsonView|
                effects == #[trigger] turn_started_effects(id, thread_id, to, result)
            ||| exists|result: JsonView|
                effects == #[trigger] command_completed_effects(id, to, result)
            ||| exists|result: JsonView| effects == #[trigger] command_run_effects(id, to, result)
        },
        None => match update.get("callback_query"@) {
            Some(query) => {
                let on = api::message_id_of(query.get("message"@));
                let shown = json::text_at(json::at(query.get("message"@), "text"@));
                ||| effects == batch::unrouted_tap_effects(telegram, id, query)
                ||| exists|route: RoutedTelegramCallback, outcome: QuestionAnswerOutcome|
                    effects == #[trigger] batch::question_tap_effects(
                        telegram,
                        id,
                        route,
                        on,
                        shown,
                        outcome,
                    )
                ||| exists|route: RoutedTelegramCallback, dispatched: Option<JsonView>|
                    effects == #[trigger] batch::approval_tap_effects(
                        telegram,
                        id,
                        route,
                        on,
                        dispatched,
                    )
            },
            None => effects.len() == 0,
        },
    }
}

proof fn lemma_recorded(
    before: Seq<EffectView>,
    id: int,
    kind: Seq<char>,
    result: JsonView,
    context: turns::LogContextView,
)
    ensures
        records_update(batch::then_record(before, Some(id), kind, result, context), id),
{
    let after = batch::then_record(before, Some(id), kind, result, context);
    assert(after[before.len() as int] is Record);
}

broadcast proof fn lemma_record_stays(effects: Seq<EffectView>, next: EffectView, id: int)
    requires
        records_update(effects, id),
    ensures
        #[trigger] records_update(effects.push(next), id),
{
    let i = choose|i: int|
        0 <= i < effects.len() && (#[trigger] effects[i] matches EffectView::Record {
            update_id,
            ..
        } && update_id == id);
    assert(effects.push(next)[i] == effects[i]);
}

broadcast proof fn lemma_record_counts(
    effects: Seq<EffectView>,
    id: int,
    kind: Seq<char>,
    result: JsonView,
    context: turns::LogContextView,
)
    ensures
        #[trigger] records_update(
            effects.push(EffectView::Record { update_id: id, kind, result, context }),
            id,
        ),
{
    lemma_recorded(effects, id, kind, result, context);
}

/// However a message or a tap with a number is done, it is logged under that number.
pub proof fn done_updates_are_logged(
    effects: Seq<EffectView>,
    update: JsonView,
    telegram: TelegramConfig,
    id: int,
)
    requires
        finishes(effects, update, telegram),
        update_id_of(update) == Some(id),
        update.get("message"@) is Some || update.get("callback_query"@) is Some,
    ensures
        records_update(effects, id),
{
    broadcast use lemma_record_stays;
    broadcast use lemma_record_counts;

}

/// A failed update with a number is logged under that number.
pub proof fn failed_updates_are_logged(
    telegram: TelegramConfig,
    is_message: bool,
    error: Seq<char>,
    notice: Seq<char>,
    id: int,
)
    ensures
        records_update(batch::failure_effects(telegram, Some(id), is_message, error, notice), id),
{
    broadcast use lemma_record_stays;
    broadcast use lemma_record_counts;

}

/// A reply to a thread that another session holds is logged with its error, and the one message that
/// is sent explains the matter without it.
pub proof fn replies_to_busy_threads_are_explained(
    telegram: TelegramConfig,
    id: int,
    thread_id: Seq<char>,
    websocket_url: Seq<char>,
    error: Seq<char>,
)
    requires
        turns::thread_busy(error),
    ensures
        batch::failure_effects(
            telegram,
            Some(id),
            true,
            error,
            turns::reply_failure(thread_id, websocket_url, error),
        ) == seq![
            EffectView::Record {
                update_id: id,
                kind: "update_error"@,
                result: json::members().text("error"@, error).object(),
                context: turns::plain_log_context(None, None, None),
            },
            EffectView::Call {
                call: api::send_text_call(
                    telegram.chat_id@,
                    turns::busy_text(thread_id, websocket_url),
                ),
            },
        ],
        text::occurs_in(
            turns::resume_command(thread_id, websocket_url),
            turns::busy_text(thread_id, websocket_url),
        ),
{
    turns::busy_threads_are_explained(thread_id, websocket_url, error, error);
}

/// Where the first step of an update, or the step after the lookup of the buttons, ends the update,
/// it ends it in one of the ways in which an update can be done.
pub proof fn ending_steps_finish(
    out: UpdateStep,
    update: JsonView,
    telegram: TelegramConfig,
    rows: Seq<StoredCallbackRoute>,
    copies: Seq<QuestionMessage>,
)
    requires
        ({
            ||| update_begins(out, update, telegram)
            ||| update.get("message"@) is None && (update.get("callback_query"@) matches Some(query)
                && tap_goes_on(out, update_id_of(update), query, telegram, rows, copies))
        }),
    ensures
        out matches UpdateStep::Finish { effects } ==> finishes(
            batch::effect_views(effects@),
            update,
            telegram,
        ),
{
}

/// What became of an update that was not processed before.
pub ghost struct UpdateRun {
    /// What was carried out for it: all effects with which it was done or, where it failed, those
    /// before the failure.
    pub effects: Seq<EffectView>,
    /// What it was counted as, if at all.
    pub counter: Option<batch::Counter>,
    /// The error, where it failed.
    pub error: Option<Seq<char>>,
    /// What the sender of a message that failed was told.
    pub notice: Seq<char>,
}

/// An update that did not fail was done.
pub open spec fn valid_run(run: UpdateRun, update: JsonView, telegram: TelegramConfig) -> bool {
    run.error is None ==> finishes(run.effects, update, telegram)
}

/// All that was carried out for an update, with what a failure leads to.
pub open spec fn carried_out(
    run: UpdateRun,
    update: JsonView,
    telegram: TelegramConfig,
) -> Seq<EffectView> {
    match run.error {
        Some(error) => run.effects + batch::failure_effects(
            telegram,
            update_id_of(update),
            update.get("message"@) is Some,
            error,
            run.notice,
        ),
        None => run.effects,
    }
}

/// What a poll leaves behind.
pub ghost struct PollView {
    /// The numbers of the updates that are logged as processed.
    pub processed: Set<int>,
    pub handled: Seq<batch::HandledUpdate>,
    /// What was carried out.
    pub effects: Seq<EffectView>,
}

/// The numbers that are logged, with those that the effects log.
pub open spec fn with_recorded(processed: Set<int>, effects: Seq<EffectView>) -> Set<int> {
    Set::new(|n: int| processed.contains(n) || records_update(effects, n))
}

/// A poll that has time for all of its updates. `runs` are, update by update, what became of it.
pub open spec fn polled(
    updates: Seq<JsonView>,
    processed: Set<int>,
    runs: Seq<UpdateRun>,
    telegram: TelegramConfig,
) -> PollView
    decreases updates.len(),
{
    if updates.len() == 0 {
        PollView { processed, handled: Seq::empty(), effects: Seq::empty() }
    } else {
        let before = polled(updates.drop_last(), processed, runs, telegram);
        let update = updates.last();
        let run = runs[updates.len() - 1];
        let id = update_id_of(update);
        if id is Some && before.processed.contains(id->0) {
            PollView {
                handled: before.handled.push(
                    batch::HandledUpdate {
                        update_id: id,
                        counter: None,
                        end: batch::UpdateEnd::Duplicate,
                    },
                ),
                ..before
            }
        } else {
            let done = carried_out(run, update, telegram);
            PollView {
                processed: with_recorded(before.processed, done),
                handled: before.handled.push(
                    batch::HandledUpdate {
                        update_id: id,
                        counter: run.counter,
                        end: if run.error is None {
                            batch::UpdateEnd::Done
                        } else {
                            batch::UpdateEnd::Failed
                        },
                    },
                ),
                effects: before.effects + done,
            }
        }
    }
}

/// The update is a message or a tap and has a number.
pub open spec fn numbered(update: JsonView) -> bool {
    &&& update_id_of(update) is Some
    &&& update.get("message"@) is Some || update.get("callback_query"@) is Some
}

proof fn lemma_polled_updates_are_processed(
    updates: Seq<JsonView>,
    processed: Set<int>,
    runs: Seq<UpdateRun>,
    telegram: TelegramConfig,
)
    requires
        runs.len() >= updates.len(),
        forall|k: int|
            0 <= k < updates.len() ==> numbered(#[trigger] updates[k]) && valid_run(
                runs[k],
                updates[k],
                telegram,
            ),
    ensures
        forall|k: int|
            0 <= k < updates.len() ==> polled(updates, processed, runs, telegram).processed.contains(
                update_id_of(#[trigger] updates[k])->0,
            ),
    decreases updates.len(),
{
    if updates.len() > 0 {
        let front = updates.drop_last();
        assert forall|k: int| 0 <= k < front.len() implies numbered(#[trigger] front[k])
            && valid_run(runs[k], front[k], telegram) by {
            assert(front[k] == updates[k]);
        }
        lemma_polled_updates_are_processed(front, processed, runs, telegram);
        let before = polled(front, processed, runs, telegram);
        let after = polled(updates, processed, runs, telegram);
        let last = updates.len() - 1;
        let update = updates[last];
        let id = update_id_of(update)->0;
        assert(numbered(update) && valid_run(runs[last], update, telegram));
        if !before.processed.contains(id) {
            let run = runs[last];
            let done = carried_out(run, update, telegram);
            match run.error {
                None => {
                    done_updates_are_logged(run.effects, update, telegram, id);
                },
                Some(error) => {
                    let is_message = update.get("message"@) is Some;
                    let failure = batch::failure_effects(
                        telegram,
                        Some(id),
                        is_message,
                        error,
                        run.notice,
                    );
                    failed_updates_are_logged(telegram, is_message, error, run.notice, id);
                    let i = choose|i: int|
                        0 <= i < failure.len() && (#[trigger] failure[i] matches EffectView::Record {
                            update_id,
                            ..
                        } && update_id == id);
                    assert(done[run.effects.len() + i] == failure[i]);
                },
            }
            assert(records_update(done, id));
        }
        assert forall|k: int| 0 <= k < updates.len() implies after.processed.contains(
            update_id_of(#[trigger] updates[k])->0,
        ) by {
            if k < last {
                assert(front[k] == updates[k]);
            }
        }
    }
}

proof fn lemma_processed_updates_are_duplicates(
    updates: Seq<JsonView>,
    processed: Set<int>,
    runs: Seq<UpdateRun>,
    telegram: TelegramConfig,
)
    requires
        forall|k: int|
            0 <= k < updates.len() ==> update_id_of(#[trigger] updates[k]) is Some
                && processed.contains(update_id_of(updates[k])->0),
    ensures
        ({
            let again = polled(updates, processed, runs, telegram);
            let tally = batch::batch_tally(again.handled);
            &&& again.processed == processed
            &&& again.effects.len() == 0
            &&& tally == (batch::TallyView {
                seen: updates.len() as int,
                duplicate: updates.len() as int,
                max_acked: tally.max_acked,
                ..batch::empty_tally()
            })
        }),
    decreases updates.len(),
{
    if updates.len() > 0 {
        let front = updates.drop_last();
        assert forall|k: int| 0 <= k < front.len() implies update_id_of(
            #[trigger] front[k],
        ) is Some && processed.contains(update_id_of(front[k])->0) by {
            assert(front[k] == updates[k]);
        }
        lemma_processed_updates_are_duplicates(front, processed, runs, telegram);
        let before = polled(front, processed, runs, telegram);
        let after = polled(updates, processed, runs, telegram);
        assert(updates[updates.len() - 1] == updates.last());
        assert(after.handled.drop_last() =~= before.handled);
    }
}

proof fn lemma_polls_acknowledge_alike(
    updates: Seq<JsonView>,
    first: Set<int>,
    first_runs: Seq<UpdateRun>,
    second: Set<int>,
    second_runs: Seq<UpdateRun>,
    telegram: TelegramConfig,
)
    ensures
        batch::batch_tally(polled(updates, first, first_runs, telegram).handled).max_acked
            == batch::batch_tally(polled(updates, second, second_runs, telegram).handled).max_acked,
    decreases updates.len(),
{
    if updates.len() > 0 {
        let front = updates.drop_last();
        lemma_polls_acknowledge_alike(front, first, first_runs, second, second_runs, telegram);
        assert(polled(updates, first, first_runs, telegram).handled.drop_last() =~= polled(
            front,
            first,
            first_runs,
            telegram,
        ).handled);
        assert(polled(updates, second, second_runs, telegram).handled.drop_last() =~= polled(
            front,
            second,
            second_runs,
            telegram,
        ).handled);
    }
}

/// Polling the same updates again gives only duplicates, carries out nothing, and leaves the log and
/// the acknowledged number as they were, also where updates failed: a failing update is not retried
/// forever.
pub proof fn polling_again_gives_only_duplicates(
    updates: Seq<JsonView>,
    processed: Set<int>,
    first_runs: Seq<UpdateRun>,
    second_runs: Seq<UpdateRun>,
    telegram: TelegramConfig,
)
    requires
        first_runs.len() == updates.len(),
        forall|k: int|
            0 <= k < updates.len() ==> numbered(#[trigger] updates[k]) && valid_run(
                first_runs[k],
                updates[k],
                telegram,
            ),
    ensures
        ({
            let first = polled(updates, processed, first_runs, telegram);
            let again = polled(updates, first.processed, second_runs, telegram);
            &&& batch::batch_tally(again.handled) == (batch::TallyView {
                seen: updates.len() as int,
                duplicate: updates.len() as int,
                max_acked: batch::batch_tally(first.handled).max_acked,
                ..batch::empty_tally()
            })
            &&& again.effects.len() == 0
            &&& again.processed == first.processed
        }),
{
    let first = polled(updates, processed, first_runs, telegram);
    lemma_polled_updates_are_processed(updates, processed, first_runs, telegram);
    assert forall|k: int| 0 <= k < updates.len() implies update_id_of(
        #[trigger] updates[k],
    ) is Some && first.processed.contains(update_id_of(updates[k])->0) by {
        assert(numbered(updates[k]));
    }
    lemma_processed_updates_are_duplicates(updates, first.processed, second_runs, telegram);
    lemma_polls_acknowledge_alike(
        updates,
        processed,
        first_runs,
        first.processed,
        second_runs,
        telegram,
    );
}

} // verus!
