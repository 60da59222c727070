//! What is done with an update: where it is routed, what the user sees of it, what is logged and
//! how it is counted.

use vstd::prelude::*;

use crate::api;
use crate::batch;
use crate::batch::BatchTally;
use crate::batch::Counter;
use crate::batch::EffectView;
use crate::batch::Failure;
use crate::batch::TallyView;
use crate::batch::TapTarget;
use crate::batch::UpdateEnd;
use crate::inbound::CallbackError;
use crate::inbound;
use crate::inbound::CommandRoute;
use crate::inbound::QuestionMessage;
use crate::inbound::QuestionRef;
use crate::inbound::RoutedTelegramCallback;
use crate::inbound::RoutedTelegramQuestionReply;
use crate::inbound::RoutedTelegramReply;
use crate::inbound::StoredCallbackRoute;
use crate::inbound::TelegramReply;
use crate::json;
use crate::json::Json;
use crate::json::JsonView;
use crate::laws::names;
use crate::laws::values;
use crate::number;
use crate::questions;
use crate::questions::QuestionAnswerOutcome;
use crate::turns::LogContextView;
use crate::types;
use crate::types::TelegramConfig;
use crate::updates;
use crate::updates::BatchStep;
use crate::updates::UpdateStep;

verus! {

/// A log without how Codex was reached.
pub open spec fn plain_context(
    thread_id: Option<Seq<char>>,
    route_message_id: Option<int>,
    result_action: Option<Seq<char>>,
) -> LogContextView {
    LogContextView {
        thread_id,
        route_message_id,
        result_action,
        codex_transport: None,
        codex_app_server_pid: None,
    }
}

/// The effect logs the update as processed, under the name of what it was.
pub open spec fn logs(effect: EffectView, id: int, name: Seq<char>, value: JsonView) -> bool {
    effect matches EffectView::Record { update_id, kind, result, context: _ } && update_id == id
        && kind == name && result == value
}

/// The effect shows a text on a message of the chat in place of what it said, or takes away its
/// buttons where that cannot be done.
pub open spec fn settles(
    effect: EffectView,
    chat_id: Seq<char>,
    message_id: int,
    shown: Option<Seq<char>>,
) -> bool {
    effect matches EffectView::Settle { edit, fallback } && fallback == api::remove_keyboard_call(
        chat_id,
        message_id,
    ) && match shown {
        Some(body) => edit == Some(api::edit_text_call(chat_id, message_id, body)),
        None => edit is None,
    }
}

// ---------------------------------------------------------------------------------------------
// Replies to questions
// ---------------------------------------------------------------------------------------------

/// The reply with a secret answer is put up for deletion before the answer is sent, and any other
/// reply stays.
pub proof fn secret_replies_are_put_up_for_deletion(
    telegram: TelegramConfig,
    message_id: int,
    other: Option<int>,
)
    ensures
        batch::before_answer(telegram, Some(message_id), true) == seq![
            EffectView::QueueDeletion {
                bot_id: api::stable_bot_id(telegram.bot_token@),
                chat_id: telegram.chat_id@,
                message_id,
            },
            EffectView::RetryDeletions,
        ],
        batch::before_answer(telegram, other, false).len() == 0,
        batch::before_answer(telegram, None, true).len() == 0,
{
}

/// A reply that answers a question shows its outcome on the question and counts as a reply. One
/// that comes too late, or where an option is wanted, is told so and counts as ignored.
pub proof fn question_replies_are_shown_on_the_question(
    telegram: TelegramConfig,
    id: int,
    route: RoutedTelegramQuestionReply,
    result: Json,
    sent: bool,
    remaining: usize,
    is_secret: bool,
)
    ensures
        ({
            let recorded = batch::question_reply_effects(
                telegram,
                Some(id),
                route,
                QuestionAnswerOutcome::Recorded { result, sent, remaining, is_secret },
            );
            let outcome = questions::outcome_text(
                Some(route.text@),
                is_secret,
                sent,
                remaining as int,
            );
            &&& recorded.len() == 3
            &&& settles(
                recorded[0],
                telegram.chat_id@,
                route.question_message_id as int,
                match route.question_message_text {
                    Some(original) => Some(questions::settled_text(original@, outcome)),
                    None => None,
                },
            )
            &&& recorded[1] == (EffectView::Count { counter: Counter::Replies })
            &&& logs(recorded[2], id, "telegram_question_reply"@, result@)
            &&& recorded[2]->context == plain_context(
                None,
                Some(route.question_message_id as int),
                json::text_at(result@.get("action"@)),
            )
        }),
        ({
            let late = batch::question_reply_effects(
                telegram,
                Some(id),
                route,
                QuestionAnswerOutcome::NotPending,
            );
            &&& late.len() == 3
            &&& late[0] == (EffectView::Call {
                call: api::send_text_call(
                    telegram.chat_id@,
                    "This question is no longer waiting for an answer, so your reply was not sent to Codex."@,
                ),
            })
            &&& late[1] == (EffectView::Count { counter: Counter::Ignored })
            &&& logs(
                late[2],
                id,
                "telegram_question_reply_expired"@,
                json::members().flag("ok"@, true).flag("ignored"@, true).object(),
            )
        }),
        ({
            let wrong = batch::question_reply_effects(
                telegram,
                Some(id),
                route,
                QuestionAnswerOutcome::NeedsOption,
            );
            &&& wrong.len() == 3
            &&& wrong[0] == (EffectView::Call {
                call: api::send_text_call(
                    telegram.chat_id@,
                    "Codex asked you to pick one of the options: tap a button on the question, or Skip."@,
                ),
            })
            &&& wrong[1] == (EffectView::Count { counter: Counter::Ignored })
            &&& logs(
                wrong[2],
                id,
                "telegram_question_reply_needs_option"@,
                json::members().flag("ok"@, true).flag("ignored"@, true).object(),
            )
        }),
{
}

// ---------------------------------------------------------------------------------------------
// Taps
// ---------------------------------------------------------------------------------------------

/// What a tap is for: the question or the request that its button is bound to, or a thread.
pub proof fn taps_go_to_what_their_button_is_bound_to(
    route: &RoutedTelegramCallback,
    target: TapTarget,
)
    requires
        call_ensures(batch::tap_target, (route,), target),
    ensures
        ({
            let answers = route.action is AnswerOption || route.action is SkipQuestion;
            &&& answers && route.approval_key is Some && route.question_id is Some ==> (
            target matches TapTarget::Question { question_key, question_id } && question_key@
                == route.approval_key->0@ && question_id@ == route.question_id->0@)
            &&& answers && (route.approval_key is None || route.question_id is None)
                ==> target is NoQuestion
            &&& !answers && route.approval_key is Some ==> (target matches TapTarget::Approval {
                approval_key,
            } && approval_key@ == route.approval_key->0@)
            &&& !answers && route.approval_key is None ==> target is Thread
        }),
{
}

/// A tap that answers a question uses up its button, shows the outcome on the question, counts as a
/// tap and tells the user whether Codex has the answer.
pub proof fn question_taps_are_shown_on_the_question(
    telegram: TelegramConfig,
    id: int,
    route: RoutedTelegramCallback,
    message_id: int,
    message_text: Option<Seq<char>>,
    result: Json,
    sent: bool,
    remaining: usize,
    is_secret: bool,
)
    ensures
        ({
            let recorded = batch::question_tap_effects(
                telegram,
                Some(id),
                route,
                Some(message_id),
                message_text,
                QuestionAnswerOutcome::Recorded { result, sent, remaining, is_secret },
            );
            let outcome = questions::outcome_text(
                json::opt_string(route.answer),
                is_secret,
                sent,
                remaining as int,
            );
            &&& recorded.len() == 5
            &&& recorded[0] == (EffectView::MarkCallbackUsed { callback_id: route.callback_id@ })
            &&& settles(
                recorded[1],
                telegram.chat_id@,
                message_id,
                match message_text {
                    Some(original) => Some(questions::settled_text(original, outcome)),
                    None => None,
                },
            )
            &&& recorded[2] == (EffectView::Count { counter: Counter::Callbacks })
            &&& logs(recorded[3], id, "callback_query"@, result@)
            &&& recorded[3]->context == plain_context(
                Some(route.thread_id@),
                Some(message_id),
                json::text_at(result@.get("action"@)),
            )
            &&& recorded[4] == (EffectView::Call {
                call: api::answer_callback_call(
                    route.callback_query_id@,
                    if sent {
                        "Sent to Codex"@
                    } else {
                        "Saved: "@ + number::decimal(remaining as nat) + " more question(s) to go"@
                    },
                ),
            })
        }),
{
}

/// A tap on a question that is settled uses up its button, takes the buttons away, counts as
/// ignored and says so.
pub proof fn late_question_taps_are_told_so(
    telegram: TelegramConfig,
    id: int,
    route: RoutedTelegramCallback,
    message_id: int,
    message_text: Option<Seq<char>>,
    outcome: QuestionAnswerOutcome,
)
    requires
        !(outcome is Recorded),
    ensures
        ({
            let late = batch::question_tap_effects(
                telegram,
                Some(id),
                route,
                Some(message_id),
                message_text,
                outcome,
            );
            &&& late.len() == 5
            &&& late[0] == (EffectView::MarkCallbackUsed { callback_id: route.callback_id@ })
            &&& late[1] == (EffectView::Call {
                call: api::remove_keyboard_call(telegram.chat_id@, message_id),
            })
            &&& late[2] == (EffectView::Count { counter: Counter::Ignored })
            &&& late[3] matches EffectView::Record { update_id, kind, result, context } && update_id
                == id && kind == "callback_query_expired"@ && is_expired(
                result,
                "telegram_question_expired"@,
                route.thread_id@,
            ) && context == plain_context(
                Some(route.thread_id@),
                Some(message_id),
                Some("telegram_question_expired"@),
            )
            &&& late[4] == (EffectView::Call {
                call: api::answer_callback_call(
                    route.callback_query_id@,
                    "This question is no longer pending"@,
                ),
            })
        }),
{
    broadcast use values::added_members_are_found;
    broadcast use values::no_members_are_found;

    names::names_differ();
}

/// The result says that something on a thread was too late.
pub open spec fn is_expired(result: JsonView, action: Seq<char>, thread_id: Seq<char>) -> bool {
    &&& json::truth_at(result.get("ok"@)) == Some(true)
    &&& json::text_at(result.get("action"@)) == Some(action)
    &&& json::text_at(result.get("threadId"@)) == Some(thread_id)
    &&& json::truth_at(result.get("ignored"@)) == Some(true)
}

/// A tap that decides a request uses up its button, counts as a tap and says that Codex has it; one
/// that is too late takes the buttons away, counts as ignored and says so.
pub proof fn approval_taps_are_told_what_came_of_them(
    telegram: TelegramConfig,
    id: int,
    route: RoutedTelegramCallback,
    message_id: int,
    result: JsonView,
)
    ensures
        ({
            let taken = batch::approval_tap_effects(
                telegram,
                Some(id),
                route,
                Some(message_id),
                Some(result),
            );
            &&& taken.len() == 4
            &&& logs(taken[0], id, "callback_query"@, result)
            &&& taken[0]->context.thread_id == Some(route.thread_id@)
            &&& taken[0]->context.route_message_id == Some(message_id)
            &&& taken[1] == (EffectView::MarkCallbackUsed { callback_id: route.callback_id@ })
            &&& taken[2] == (EffectView::Call {
                call: api::answer_callback_call(route.callback_query_id@, "Sent to Codex"@),
            })
            &&& taken[3] == (EffectView::Count { counter: Counter::Callbacks })
        }),
        ({
            let late = batch::approval_tap_effects(
                telegram,
                Some(id),
                route,
                Some(message_id),
                None,
            );
            &&& late.len() == 5
            &&& late[0] == (EffectView::MarkCallbackUsed { callback_id: route.callback_id@ })
            &&& late[1] matches EffectView::Record { update_id, kind, result, context } && update_id
                == id && kind == "callback_query_expired"@ && is_expired(
                result,
                "telegram_approval_expired"@,
                route.thread_id@,
            ) && context == plain_context(
                Some(route.thread_id@),
                Some(message_id),
                Some("telegram_approval_expired"@),
            )
            &&& late[2] == (EffectView::Call {
                call: api::remove_keyboard_call(telegram.chat_id@, message_id),
            })
            &&& late[3] == (EffectView::Call {
                call: api::answer_callback_call(
                    route.callback_query_id@,
                    "This request is no longer pending"@,
                ),
            })
            &&& late[4] == (EffectView::Count { counter: Counter::Ignored })
        }),
{
    broadcast use values::added_members_are_found;
    broadcast use values::no_members_are_found;

    names::names_differ();
}

/// A tap that is bound to nothing is answered, takes the buttons of its message away only where the
/// user may use the chat, and counts as ignored.
pub proof fn unknown_taps_are_answered(
    telegram: TelegramConfig,
    id: int,
    query: JsonView,
    query_id: Seq<char>,
    user: int,
)
    requires
        json::text_at(query.get("id"@)) == Some(query_id),
        i64::MIN <= user <= i64::MAX,
        json::at(query.get("from"@), "id"@) == Some(JsonView::Int(user)),
    ensures
        ({
            let effects = batch::unrouted_tap_effects(telegram, Some(id), query);
            let message_id = json::signed_at(json::at(query.get("message"@), "message_id"@));
            let chat_id = match query.get("message"@) {
                Some(message) => api::chat_id_of(message),
                None => None,
            };
            let heard = chat_id == Some(telegram.chat_id@) && (telegram.allowed_user_id is None
                || telegram.allowed_user_id->0@ == number::signed_decimal(user));
            &&& effects[0] == (EffectView::Call {
                call: api::answer_callback_call(query_id, "This request is no longer pending"@),
            })
            &&& heard && message_id is Some ==> effects.len() == 4 && effects[1] == (
            EffectView::Call {
                call: api::remove_keyboard_call(telegram.chat_id@, message_id->0),
            })
            &&& !heard || message_id is None ==> effects.len() == 3
            &&& logs(
                effects[effects.len() - 2],
                id,
                "callback_query_ignored"@,
                json::members().flag("ignored"@, true).object(),
            )
            &&& effects.last() == (EffectView::Count { counter: Counter::Ignored })
        }),
{
}

// ---------------------------------------------------------------------------------------------
// Failures
// ---------------------------------------------------------------------------------------------

/// An update that failed is logged with its error, and the sender of a message is told.
pub proof fn failures_are_logged_and_told(
    telegram: &TelegramConfig,
    id: i64,
    failure: &Failure,
    message: Vec<batch::Effect>,
    tap: Vec<batch::Effect>,
)
    requires
        call_ensures(batch::after_failure, (telegram, Some(id), true, failure), message),
        call_ensures(batch::after_failure, (telegram, Some(id), false, failure), tap),
    ensures
        ({
            let told = batch::effect_views(message@);
            let logged = batch::effect_views(tap@);
            &&& told.len() == 2
            &&& logs(
                told[0],
                id as int,
                "update_error"@,
                json::members().text("error"@, failure.error@).object(),
            )
            &&& told[1] == (EffectView::Call {
                call: api::send_text_call(telegram.chat_id@, failure.notice@),
            })
            &&& logged.len() == 1
            &&& logged[0] == told[0]
        }),
{
}

/// Where Codex cannot be reached a tap is told to try again, and the update has failed.
pub proof fn failed_taps_can_be_tried_again(
    route: &RoutedTelegramCallback,
    error: String,
    other: String,
    tap: UpdateStep,
    work: UpdateStep,
    failure: Failure,
)
    requires
        call_ensures(updates::tap_failed, (route, error), tap),
        call_ensures(updates::work_failed, (other,), work),
        call_ensures(batch::plain_failure, (other,), failure),
    ensures
        tap matches UpdateStep::Fail { effects, failure } && failure.error@ == error@
            && failure.notice@ == "Your message could not be processed: "@ + error@
            && batch::effect_views(effects@) == seq![
            EffectView::Call {
                call: api::answer_callback_call(
                    route.callback_query_id@,
                    "Codex is temporarily unavailable; tap again to retry"@,
                ),
            },
        ],
        work matches UpdateStep::Fail { effects, failure } && failure.error@ == other@
            && batch::effect_views(effects@).len() == 0,
        failure.error@ == other@,
        failure.notice@ == "Your message could not be processed: "@ + other@,
{
}

/// A failed effect fails the update, unless it only shows something in Telegram.
pub proof fn showing_something_is_not_required(
    effect: batch::Effect,
    required: bool,
)
    requires
        call_ensures(batch::Effect::required, (&effect,), required),
    ensures
        effect is Settle || effect is Call ==> !required,
        !(effect is Settle) && !(effect is Call) ==> required,
{
}

// ---------------------------------------------------------------------------------------------
// Routing
// ---------------------------------------------------------------------------------------------

/// The batch goes on to the next update while there is one and time is left, and asks whether it
/// was processed where it has a number.
pub proof fn every_update_is_looked_at(
    list: &Vec<Json>,
    at: usize,
    over: bool,
    step: BatchStep,
)
    requires
        call_ensures(updates::batch_step, (list, at, over), step),
    ensures
        over || at >= list@.len() <==> step is End,
        !over && at < list@.len() ==> (json::signed_at(list@[at as int]@.get("update_id"@)) matches Some(
            id,
        ) ==> step matches BatchStep::CheckProcessed { update_id } && update_id == id),
        !over && at < list@.len() && json::signed_at(list@[at as int]@.get("update_id"@)) is None
            ==> step is Process,
{
}

/// An update that was processed is not processed again, and one that was not is.
pub proof fn updates_are_processed_once(
    update: &Json,
    telegram: &TelegramConfig,
    again: Option<UpdateStep>,
    first: Option<UpdateStep>,
)
    requires
        call_ensures(updates::begin_unless_processed, (update, telegram, true), again),
        call_ensures(updates::begin_unless_processed, (update, telegram, false), first),
    ensures
        again is None,
        first is Some,
        updates::update_begins(first->0, update@, *telegram),
{
}

/// A reply is first looked up as an answer, any other text of the user may be a command, and what
/// is neither is logged and counted as ignored.
pub proof fn messages_are_replies_or_commands(
    update: &Json,
    telegram: &TelegramConfig,
    message: JsonView,
    step: UpdateStep,
)
    requires
        call_ensures(updates::begin_update, (update, telegram), step),
        update@.get("message"@) == Some(message),
    ensures
        inbound::reply_of(message, *telegram) matches Some(reply) ==> (
        step matches UpdateStep::LookupQuestion { reply: found } && found@ == reply),
        inbound::reply_of(message, *telegram) is None ==> (inbound::message_command(
            message,
            *telegram,
        ) matches Some(command) ==> (step matches UpdateStep::RunCommand { command: found }
            && found@ == command)),
        inbound::reply_of(message, *telegram) is None && inbound::message_command(
            message,
            *telegram,
        ) is None ==> (step matches UpdateStep::Finish { effects } && is_ignored(
            batch::effect_views(effects@),
            json::signed_at(update@.get("update_id"@)),
            message,
        )),
{
}

/// The effects log a message as ignored, and count it so.
pub open spec fn is_ignored(
    effects: Seq<EffectView>,
    id: Option<int>,
    message: JsonView,
) -> bool {
    let count = EffectView::Count { counter: Counter::Ignored };
    match id {
        Some(id) => effects.len() == 2 && logs(
            effects[0],
            id,
            "message_ignored"@,
            json::members().flag("ignored"@, true).object(),
        ) && effects[0]->context == plain_context(
            None,
            json::signed_at(json::at(message.get("reply_to_message"@), "message_id"@)),
            None,
        ) && effects[1] == count,
        None => effects == seq![count],
    }
}

/// Taps of strangers, and taps on what is no button of the bridge, are ignored; a tap without an
/// identifier fails; any other is looked up. What is neither message nor tap is passed over.
pub proof fn taps_are_looked_up(
    update: &Json,
    telegram: &TelegramConfig,
    query: JsonView,
    step: UpdateStep,
)
    requires
        call_ensures(updates::begin_update, (update, telegram), step),
        update@.get("message"@) is None,
    ensures
        update@.get("callback_query"@) == Some(query) ==> {
            let heard = inbound::tap_authorized(query, *telegram);
            let named = json::text_at(query.get("id"@)) is Some;
            let id = inbound::tapped_callback_id(query);
            &&& heard && !named ==> (step matches UpdateStep::Fail { effects, failure }
                && batch::effect_views(effects@).len() == 0 && failure.error@
                == "callback query missing id"@ && failure.notice@
                == "Your message could not be processed: "@ + "callback query missing id"@)
            &&& heard && named && id is Some ==> (step matches UpdateStep::LookupButtons {
                callback_id,
            } && callback_id@ == id->0)
            &&& !heard || (named && id is None) ==> (step matches UpdateStep::Finish { effects }
                && batch::effect_views(effects@) == batch::unrouted_tap_effects(
                *telegram,
                json::signed_at(update@.get("update_id"@)),
                query,
            ))
        },
        update@.get("callback_query"@) is None ==> (step matches UpdateStep::Finish { effects }
            && batch::effect_views(effects@).len() == 0),
{
}

/// A reply is an answer where its message asks a question, else a turn where it belongs to a thread,
/// else the rest of a command, and else ignored; its text goes along.
pub proof fn replies_are_answers_before_they_are_turns(
    message: &Json,
    telegram: &TelegramConfig,
    reply: TelegramReply,
    question: QuestionRef,
    thread_id: String,
    command: CommandRoute,
    id: Option<i64>,
    asked: UpdateStep,
    not_asked: UpdateStep,
    threaded: UpdateStep,
    not_threaded: UpdateStep,
    prompted: UpdateStep,
    not_prompted: UpdateStep,
)
    requires
        inbound::reply_of(message@, *telegram) == Some(reply@),
        call_ensures(
            updates::question_looked_up,
            (message, telegram, reply, Some(question)),
            asked,
        ),
        call_ensures(
            updates::question_looked_up,
            (message, telegram, reply, None::<QuestionRef>),
            not_asked,
        ),
        call_ensures(
            updates::thread_looked_up,
            (message, telegram, reply, Some(thread_id)),
            threaded,
        ),
        call_ensures(
            updates::thread_looked_up,
            (message, telegram, reply, None::<String>),
            not_threaded,
        ),
        call_ensures(
            updates::command_looked_up,
            (id, message, telegram, reply, Some(command)),
            prompted,
        ),
        call_ensures(
            updates::command_looked_up,
            (id, message, telegram, reply, None::<CommandRoute>),
            not_prompted,
        ),
    ensures
        asked matches UpdateStep::CheckSecret { route } && route.question_key@
            == question.question_key@ && route.question_id@ == question.question_id@ && route.text@
            == reply.text@ && route.question_message_id == reply.reply_to && json::opt_signed(
            route.message_id,
        ) == json::signed_at(message@.get("message_id"@)) && json::opt_string(
            route.question_message_text,
        ) == json::text_at(json::at(message@.get("reply_to_message"@), "text"@)),
        not_asked matches UpdateStep::LookupThread { reply: same } && same == reply,
        threaded matches UpdateStep::StartTurn { route } && route.thread_id@ == thread_id@
            && route.message@ == reply.text@,
        not_threaded matches UpdateStep::LookupCommand { reply: same } && same == reply,
        prompted matches UpdateStep::CompleteCommand { route } && route.kind == command.kind
            && route.message@ == reply.text@ && (command.payload is None ==> route.project_id is None)
            && (command.payload matches Some(payload) ==> json::opt_string(route.project_id)
            == json::text_at(payload@.get("projectId"@))),
        not_prompted matches UpdateStep::Finish { effects } && is_ignored(
            batch::effect_views(effects@),
            json::opt_signed(id),
            message@,
        ),
{
}

/// An answer is given once what is to happen before it is done.
pub proof fn answers_follow_what_comes_before_them(
    telegram: &TelegramConfig,
    route: RoutedTelegramQuestionReply,
    message_id: i64,
    secret: UpdateStep,
    plain: UpdateStep,
)
    requires
        route.message_id == Some(message_id),
        call_ensures(updates::secret_checked, (telegram, route, true), secret),
        call_ensures(updates::secret_checked, (telegram, route, false), plain),
    ensures
        secret matches UpdateStep::AnswerReply { before, route: same } && same == route
            && batch::effect_views(before@) == seq![
            EffectView::QueueDeletion {
                bot_id: api::stable_bot_id(telegram.bot_token@),
                chat_id: telegram.chat_id@,
                message_id: message_id as int,
            },
            EffectView::RetryDeletions,
        ],
        plain matches UpdateStep::AnswerReply { before, route: same } && same == route
            && batch::effect_views(before@).len() == 0,
{
    secret_replies_are_put_up_for_deletion(*telegram, message_id as int, Some(message_id as int));
}

/// What became of a turn or a command is logged with its result, and each counts as what it is.
pub proof fn turns_and_commands_are_counted(
    id: i64,
    message: &Json,
    route: &RoutedTelegramReply,
    result: Json,
    turn: UpdateStep,
    completed: UpdateStep,
    run: UpdateStep,
)
    requires
        call_ensures(updates::turn_started, (Some(id), message, route, result), turn),
        call_ensures(updates::command_completed, (Some(id), message, result), completed),
        call_ensures(updates::command_run, (Some(id), message, result), run),
    ensures
        counts_as(turn, id as int, "telegram_reply"@, result@, Counter::Replies),
        counts_as(
            completed,
            id as int,
            "telegram_command_prompt_reply"@,
            result@,
            Counter::CommandPromptReplies,
        ),
        counts_as(run, id as int, "telegram_command"@, result@, Counter::Commands),
{
}

/// The step finishes an update by logging and counting it.
pub open spec fn counts_as(
    step: UpdateStep,
    id: int,
    name: Seq<char>,
    result: JsonView,
    counter: Counter,
) -> bool {
    step matches UpdateStep::Finish { effects } && {
        let views = batch::effect_views(effects@);
        views.len() == 2 && logs(views[0], id, name, result) && views[1] == (EffectView::Count {
            counter,
        })
    }
}

/// A tap whose button is stored goes to the question, the request or the thread that the button is
/// stored with, with the answer that it stands for.
pub proof fn taps_follow_their_stored_button(
    id: Option<i64>,
    query: &Json,
    telegram: &TelegramConfig,
    rows: &Vec<StoredCallbackRoute>,
    copies: &Vec<QuestionMessage>,
    at: int,
    step: UpdateStep,
)
    requires
        json::text_at(query@.get("id"@)) is Some,
        call_ensures(updates::buttons_looked_up, (id, query, telegram, rows, copies), step),
        inbound::tap_answered_by(query@, *telegram, rows@, copies@) == Some(at),
    ensures
        ({
            let row = rows@[at];
            let action = types::action_named(row.action@)->0;
            let answers = action is AnswerOption || action is SkipQuestion;
            &&& answers && row.approval_key is Some && row.question_id is Some ==> (
            step matches UpdateStep::AnswerTap { route, question_key, question_id } && question_key@
                == row.approval_key->0@ && question_id@ == row.question_id->0@ && route.action
                == action && route.thread_id@ == row.thread_id@ && json::opt_string(route.answer)
                == json::opt_string(row.answer))
            &&& !answers && row.approval_key is Some ==> (step matches UpdateStep::Approve {
                route,
                approval_key,
            } && approval_key@ == row.approval_key->0@ && route.action == action && route.thread_id@
                == row.thread_id@)
            &&& !answers && row.approval_key is None ==> (step matches UpdateStep::ApproveAsText {
                route,
            } && route.action == action && route.thread_id@ == row.thread_id@)
            &&& answers && (row.approval_key is None || row.question_id is None) ==> step is Finish
        }),
{
}

/// A tap whose button is not stored is answered as unknown.
pub proof fn taps_without_a_button_are_unknown(
    id: Option<i64>,
    query: &Json,
    telegram: &TelegramConfig,
    rows: &Vec<StoredCallbackRoute>,
    copies: &Vec<QuestionMessage>,
    step: UpdateStep,
)
    requires
        json::text_at(query@.get("id"@)) is Some,
        call_ensures(updates::buttons_looked_up, (id, query, telegram, rows, copies), step),
        inbound::tap_answered_by(query@, *telegram, rows@, copies@) is None,
    ensures
        step matches UpdateStep::Finish { effects } && batch::effect_views(effects@)
            == batch::unrouted_tap_effects(*telegram, json::opt_signed(id), query@),
{
}

// ---------------------------------------------------------------------------------------------
// Counting
// ---------------------------------------------------------------------------------------------

/// Every update counts once as seen and once as what it was, and no other count changes.
pub proof fn updates_count_as_what_they_were(
    tally: TallyView,
    id: Option<int>,
    counter: Option<Counter>,
    end: UpdateEnd,
)
    ensures
        ({
            let after = batch::tallied(tally, id, counter, end);
            &&& after.seen == tally.seen + 1
            &&& after.replies == tally.replies + one(counter == Some(Counter::Replies))
            &&& after.command_prompt_replies == tally.command_prompt_replies + one(
                counter == Some(Counter::CommandPromptReplies),
            )
            &&& after.commands == tally.commands + one(counter == Some(Counter::Commands))
            &&& after.callbacks == tally.callbacks + one(counter == Some(Counter::Callbacks))
            &&& after.ignored == tally.ignored + one(counter == Some(Counter::Ignored))
            &&& after.duplicate == tally.duplicate + one(end is Duplicate)
            &&& after.failed == tally.failed + one(end is Failed)
            &&& id is None ==> after.max_acked == tally.max_acked
            &&& id matches Some(n) ==> {
                &&& after.max_acked is Some
                &&& after.max_acked->0 >= n
                &&& tally.max_acked is None ==> after.max_acked == Some(n)
                &&& tally.max_acked matches Some(m) ==> after.max_acked->0 >= m && (
                after.max_acked->0 == m || after.max_acked->0 == n)
            }
        }),
{
}

/// One where it holds.
pub open spec fn one(holds: bool) -> int {
    if holds {
        1
    } else {
        0
    }
}

/// The report on a batch tells every count.
pub proof fn batches_are_reported(tally: BatchTally, report: Json)
    requires
        call_ensures(BatchTally::report, (&tally,), report),
    ensures
        json::truth_at(report@.get("ok"@)) == Some(true),
        json::text_at(report@.get("transport"@)) == Some("telegram"@),
        report@.get("seen"@) == Some(JsonView::Int(tally.seen as int)),
        report@.get("replies"@) == Some(JsonView::Int(tally.replies as int)),
        report@.get("commandPromptReplies"@) == Some(
            JsonView::Int(tally.command_prompt_replies as int),
        ),
        report@.get("commands"@) == Some(JsonView::Int(tally.commands as int)),
        report@.get("callbacks"@) == Some(JsonView::Int(tally.callbacks as int)),
        report@.get("duplicate"@) == Some(JsonView::Int(tally.duplicate as int)),
        report@.get("ignored"@) == Some(JsonView::Int(tally.ignored as int)),
        report@.get("failed"@) == Some(JsonView::Int(tally.failed as int)),
{
    broadcast use values::added_members_are_found;
    broadcast use values::no_members_are_found;

    names::names_differ();
}

/// The offset is stored for the bot, and the next batch begins behind the last update; a poll that
/// was skipped says so.
pub proof fn the_next_batch_begins_behind_the_last_update(
    tally: BatchTally,
    id: i64,
    stored: Option<u64>,
    next: Option<i64>,
    bot_id: &str,
    key: String,
    none: Option<i64>,
    skipped: Json,
)
    requires
        tally.max_acked_update_id == Some(id),
        id < i64::MAX,
        call_ensures(BatchTally::stored_offset, (&tally,), stored),
        call_ensures(batch::next_update_offset, (stored,), next),
        call_ensures(batch::next_update_offset, (None::<u64>,), none),
        call_ensures(batch::telegram_offset_key, (bot_id,), key),
        call_ensures(batch::skipped_poll_report, (), skipped),
    ensures
        next == Some((id + 1) as i64),
        none is None,
        key@ == "telegram_offset:"@ + bot_id@,
        skipped@.get("seen"@) == Some(JsonView::Int(0)),
        json::truth_at(skipped@.get("ok"@)) == Some(true),
        json::text_at(skipped@.get("transport"@)) == Some("telegram"@),
        json::text_at(skipped@.get("skipped"@)) == Some("cycle_deadline"@),
{
    broadcast use values::added_members_are_found;
    broadcast use values::no_members_are_found;

    names::names_differ();
    batch::polling_continues_behind_the_last_update(id as int);
}

/// What came of a tap is shown on the message that was tapped.
pub proof fn taps_are_shown_on_the_tapped_message(
    telegram: &TelegramConfig,
    id: Option<i64>,
    query: &Json,
    route: &RoutedTelegramCallback,
    outcome: QuestionAnswerOutcome,
    result: Json,
    answered: UpdateStep,
    decided: UpdateStep,
    late: UpdateStep,
)
    requires
        call_ensures(updates::tap_answered, (telegram, id, query, route, outcome), answered),
        call_ensures(
            updates::approval_dispatched,
            (telegram, id, query, route, Some(result)),
            decided,
        ),
        call_ensures(
            updates::approval_dispatched,
            (telegram, id, query, route, None::<Json>),
            late,
        ),
    ensures
        ({
            let on = json::signed_at(json::at(query@.get("message"@), "message_id"@));
            let said = json::text_at(json::at(query@.get("message"@), "text"@));
            &&& answered matches UpdateStep::Finish { effects } && batch::effect_views(effects@)
                == batch::question_tap_effects(
                *telegram,
                json::opt_signed(id),
                *route,
                on,
                said,
                outcome,
            )
            &&& decided matches UpdateStep::Finish { effects } && batch::effect_views(effects@)
                == batch::approval_tap_effects(
                *telegram,
                json::opt_signed(id),
                *route,
                on,
                Some(result@),
            )
            &&& late matches UpdateStep::Finish { effects } && batch::effect_views(effects@)
                == batch::approval_tap_effects(*telegram, json::opt_signed(id), *route, on, None)
        }),
{
}

/// What came of a reply to a question is what its outcome says.
pub proof fn answered_replies_finish(
    telegram: &TelegramConfig,
    id: Option<i64>,
    route: &RoutedTelegramQuestionReply,
    outcome: QuestionAnswerOutcome,
    step: UpdateStep,
)
    requires
        call_ensures(updates::reply_answered, (telegram, id, route, outcome), step),
    ensures
        step matches UpdateStep::Finish { effects } && batch::effect_views(effects@)
            == batch::question_reply_effects(*telegram, json::opt_signed(id), *route, outcome),
{
}

/// A tap on a question button that is bound to no question uses up the button and counts as
/// ignored.
pub proof fn unbound_question_buttons_are_used_up(
    id: i64,
    query: &Json,
    telegram: &TelegramConfig,
    rows: &Vec<StoredCallbackRoute>,
    copies: &Vec<QuestionMessage>,
    at: int,
    message_id: int,
    step: UpdateStep,
)
    requires
        json::text_at(query@.get("id"@)) is Some,
        call_ensures(updates::buttons_looked_up, (Some(id), query, telegram, rows, copies), step),
        inbound::tap_answered_by(query@, *telegram, rows@, copies@) == Some(at),
        types::action_named(rows@[at].action@)->0 is AnswerOption || types::action_named(
            rows@[at].action@,
        )->0 is SkipQuestion,
        rows@[at].approval_key is None || rows@[at].question_id is None,
        json::signed_at(json::at(query@.get("message"@), "message_id"@)) == Some(message_id),
    ensures
        step matches UpdateStep::Finish { effects } && {
            let done = batch::effect_views(effects@);
            &&& done.len() == 5
            &&& done[0] is MarkCallbackUsed
            &&& Some(done[0]->callback_id) == inbound::tapped_callback_id(query@)
            &&& done[2] == (EffectView::Count { counter: Counter::Ignored })
            &&& done[4] matches EffectView::Call { call } && call.method
                == "answerCallbackQuery"@
        },
{
}

/// Replies, commands and what is ignored are each logged and counted as what they are.
pub proof fn messages_are_counted_as_what_they_are(
    id: i64,
    route: &RoutedTelegramReply,
    on: Option<i64>,
    result: Json,
    tap: &RoutedTelegramCallback,
    reply: Vec<batch::Effect>,
    prompted: Vec<batch::Effect>,
    command: Vec<batch::Effect>,
    ignored: Vec<batch::Effect>,
    failed: Vec<batch::Effect>,
)
    requires
        call_ensures(batch::after_thread_reply, (Some(id), route, on, result), reply),
        call_ensures(batch::after_command_prompt_reply, (Some(id), on, result), prompted),
        call_ensures(batch::after_command, (Some(id), on, result), command),
        call_ensures(batch::after_ignored_message, (Some(id), on), ignored),
        call_ensures(batch::after_tap_failure, (tap,), failed),
    ensures
        are_counted(reply@, id as int, "telegram_reply"@, result@, Counter::Replies),
        batch::effect_views(reply@)[0]->context.thread_id == Some(route.thread_id@),
        batch::effect_views(reply@)[0]->context.route_message_id == json::opt_signed(on),
        are_counted(
            prompted@,
            id as int,
            "telegram_command_prompt_reply"@,
            result@,
            Counter::CommandPromptReplies,
        ),
        batch::effect_views(prompted@)[0]->context.thread_id == json::text_at(
            json::at(result@.get("result"@), "threadId"@),
        ),
        are_counted(command@, id as int, "telegram_command"@, result@, Counter::Commands),
        batch::effect_views(command@)[0]->context.result_action == json::text_at(
            result@.get("action"@),
        ),
        are_counted(
            ignored@,
            id as int,
            "message_ignored"@,
            json::members().flag("ignored"@, true).object(),
            Counter::Ignored,
        ),
        batch::effect_views(failed@) == seq![
            EffectView::Call {
                call: api::answer_callback_call(
                    tap.callback_query_id@,
                    "Codex is temporarily unavailable; tap again to retry"@,
                ),
            },
        ],
{
}

/// The effects log and count an update.
pub open spec fn are_counted(
    effects: Seq<batch::Effect>,
    id: int,
    name: Seq<char>,
    result: JsonView,
    counter: Counter,
) -> bool {
    let views = batch::effect_views(effects);
    views.len() == 2 && logs(views[0], id, name, result) && views[1] == (EffectView::Count {
        counter,
    })
}

/// The offset is the highest number there was.
pub proof fn offsets_only_grow(offset: &mut Option<i64>, id: Option<i64>, done: ())
    requires
        call_ensures(batch::advance_telegram_ack_offset, (offset, id), done),
    ensures
        id is None ==> json::opt_signed(*final(offset)) == json::opt_signed(*old(offset)),
        id matches Some(n) ==> (*final(offset) matches Some(m) && m >= n && (*old(offset) matches Some(
            b,
        ) ==> m >= b) && (m == n || *old(offset) == Some(m))),
{
}

/// An update is known by its number.
pub proof fn updates_are_known_by_their_number(
    update: &Json,
    id: Option<i64>,
    is_message: bool,
)
    requires
        call_ensures(updates::telegram_update_id, (update,), id),
        call_ensures(updates::is_message_update, (update,), is_message),
    ensures
        json::opt_signed(id) == json::signed_at(update@.get("update_id"@)),
        is_message <==> update@.get("message"@) is Some,
{
}

/// A tap is routed to what its stored button says; one without an identifier cannot be answered.
pub proof fn taps_are_routed_by_their_stored_button(
    query: &Json,
    telegram: &TelegramConfig,
    rows: &Vec<StoredCallbackRoute>,
    copies: &Vec<QuestionMessage>,
    out: Result<Option<RoutedTelegramCallback>, CallbackError>,
    message: &'static str,
)
    requires
        call_ensures(
            inbound::extract_telegram_callback_route,
            (query, telegram, rows, copies),
            out,
        ),
        call_ensures(CallbackError::message, (&CallbackError::MissingId,), message),
    ensures
        ({
            let heard = inbound::tap_authorized(query@, *telegram);
            let id = json::text_at(query@.get("id"@));
            let at = inbound::tap_answered_by(query@, *telegram, rows@, copies@);
            &&& heard && id is None ==> out is Err
            &&& !heard || id is Some ==> out is Ok
            &&& (!heard || id is Some) && at is None ==> (out matches Ok(route) && route is None)
            &&& (!heard || id is Some) && at is Some ==> (out matches Ok(Some(route))
                && json::opt_string(route.answer) == json::opt_string(rows@[at->0].answer)
                && json::opt_string(route.approval_key) == json::opt_string(
                rows@[at->0].approval_key,
            ) && json::opt_string(route.question_id) == json::opt_string(rows@[at->0].question_id)
                && route.thread_id@ == rows@[at->0].thread_id@ && Some(route.action)
                == types::action_named(rows@[at->0].action@) && Some(route.callback_query_id@) == id
                && Some(route.callback_id@) == inbound::tapped_callback_id(query@))
        }),
        message@ == "callback query missing id"@,
{
}

/// A batch begins with nothing counted.
pub proof fn batches_begin_with_nothing_counted(tally: BatchTally)
    requires
        call_ensures(BatchTally::new, (), tally),
    ensures
        tally.seen == 0 && tally.replies == 0 && tally.command_prompt_replies == 0,
        tally.commands == 0 && tally.callbacks == 0 && tally.duplicate == 0,
        tally.ignored == 0 && tally.failed == 0 && tally.max_acked_update_id is None,
{
    assert(tally@ == batch::empty_tally());
}

/// An update is added to what was counted before.
pub proof fn updates_are_added_to_the_count(
    tally: &mut BatchTally,
    id: Option<i64>,
    counter: Option<Counter>,
    end: UpdateEnd,
    done: (),
)
    requires
        old(tally).wf(),
        old(tally).seen < u64::MAX,
        call_ensures(BatchTally::add_update, (tally, id, counter, end), done),
    ensures
        final(tally).seen == old(tally).seen + 1,
        final(tally).replies == old(tally).replies + one(counter == Some(Counter::Replies)),
        final(tally).command_prompt_replies == old(tally).command_prompt_replies + one(
            counter == Some(Counter::CommandPromptReplies),
        ),
        final(tally).commands == old(tally).commands + one(counter == Some(Counter::Commands)),
        final(tally).callbacks == old(tally).callbacks + one(counter == Some(Counter::Callbacks)),
        final(tally).ignored == old(tally).ignored + one(counter == Some(Counter::Ignored)),
        final(tally).duplicate == old(tally).duplicate + one(end is Duplicate),
        final(tally).failed == old(tally).failed + one(end is Failed),
{
    assert(final(tally)@ == batch::tallied(old(tally)@, json::opt_signed(id), counter, end));
}

} // verus!
