//! Deliveries: what is stored of a message that was sent, the indicators that show a thread at work,
//! and the deletion of secret answers.

use vstd::prelude::*;

use crate::api;
use crate::deletions;
use crate::deletions::DeletionAttempt;
use crate::deletions::DeletionFollowUp;
use crate::deletions::MessageDeletion;
use crate::delivery::PreparedTelegramDelivery;
use crate::delivery::PreparedView;
use crate::json;
use crate::json::Json;
use crate::json::JsonView;
use crate::laws::names;
use crate::laws::texts;
use crate::laws::values;
use crate::outgoing;
use crate::outgoing::DeliveryEffectView;
use crate::outgoing::TypingEnd;
use crate::outgoing::TypingStep;
use crate::outgoing::TypingTally;
use crate::text;
use crate::types::CallbackRouteView;
use crate::types::TelegramConfig;

verus! {

// ---------------------------------------------------------------------------------------------
// Messages
// ---------------------------------------------------------------------------------------------

/// A delivery asks the question of its first button that is bound to one.
pub proof fn the_first_bound_button_tells_the_question(routes: Seq<CallbackRouteView>, k: int)
    requires
        0 <= k <= routes.len(),
        k < routes.len() ==> routes[k].approval_key is Some && routes[k].question_id is Some,
        forall|i: int|
            0 <= i < k ==> (#[trigger] routes[i]).approval_key is None
                || routes[i].question_id is None,
    ensures
        k < routes.len() ==> outgoing::bound_question(routes) == Some(
            (routes[k].approval_key->0, routes[k].question_id->0),
        ),
        k == routes.len() ==> outgoing::bound_question(routes) is None,
    decreases k,
{
    if k > 0 {
        let rest = routes.skip(1);
        assert(routes[0].approval_key is None || routes[0].question_id is None);
        assert forall|i: int| 0 <= i < k - 1 implies (#[trigger] rest[i]).approval_key is None
            || rest[i].question_id is None by {
            assert(rest[i] == routes[i + 1]);
        }
        the_first_bound_button_tells_the_question(rest, k - 1);
    }
}

/// The first message of a delivery has its buttons, in their order, and its question before them;
/// every message leads to the thread.
pub proof fn only_the_first_message_has_the_buttons(
    chat_id: Seq<char>,
    prepared: PreparedView,
    message_id: int,
    i: int,
)
    ensures
        ({
            let routes = prepared.callback_routes;
            let first = outgoing::sent_effects(chat_id, prepared, true, message_id);
            let other = outgoing::sent_effects(chat_id, prepared, false, message_id);
            let asks = outgoing::bound_question(routes) is Some;
            let before: int = if asks {
                1
            } else {
                0
            };
            let threaded: int = if prepared.thread_id is Some {
                1
            } else {
                0
            };
            &&& first.len() == before + routes.len() + threaded
            &&& other.len() == threaded
            &&& 0 <= i < routes.len() ==> first[before + i] == (DeliveryEffectView::BindCallback {
                callback_id: routes[i].callback_id,
                message_id,
            })
            &&& outgoing::bound_question(routes) matches Some(question) ==> first[0] == (
            DeliveryEffectView::RecordQuestionMessage {
                chat_id,
                message_id,
                question_key: question.0,
                question_id: question.1,
            })
            &&& prepared.thread_id matches Some(thread_id) ==> {
                let routed = DeliveryEffectView::RouteMessage {
                    chat_id,
                    message_id,
                    thread_id,
                    event_id: prepared.event_id,
                };
                first.last() == routed && other.last() == routed
            }
        }),
{
}

/// Sending the first message tells its buttons where they stand, and changes nothing else; sending
/// another changes nothing.
pub proof fn buttons_are_told_where_they_stand(prepared: PreparedView, message_id: int, i: int)
    requires
        0 <= i < prepared.callback_routes.len(),
    ensures
        ({
            let after = outgoing::after_message(prepared, true, message_id);
            let route = prepared.callback_routes[i];
            &&& after.callback_routes.len() == prepared.callback_routes.len()
            &&& after.callback_routes[i].message_id == Some(message_id)
            &&& after.callback_routes[i].callback_id == route.callback_id
            &&& after.callback_routes[i].chat_id == route.chat_id
            &&& after.callback_routes[i].thread_id == route.thread_id
            &&& after.callback_routes[i].action == route.action
            &&& after.callback_routes[i].approval_key == route.approval_key
            &&& after.callback_routes[i].question_id == route.question_id
            &&& after.callback_routes[i].answer == route.answer
            &&& after.payloads == prepared.payloads
            &&& after.thread_id == prepared.thread_id
            &&& after.event_id == prepared.event_id
        }),
        outgoing::after_message(prepared, false, message_id) == prepared,
{
}

/// A delivery is reported with its messages, first of all the first; there is none without one.
pub proof fn deliveries_are_reported(
    prepared: &PreparedTelegramDelivery,
    message_ids: &Vec<i64>,
    out: Option<Json>,
    i: int,
)
    requires
        call_ensures(outgoing::delivery_report_json, (prepared, message_ids), out),
    ensures
        out is None <==> message_ids@.len() == 0,
        out matches Some(report) ==> {
            &&& json::truth_at(report@.get("ok"@)) == Some(true)
            &&& json::signed_at(report@.get("messageId"@)) == Some(message_ids@[0] as int)
            &&& json::items_at(report@.get("messageIds"@)) matches Some(list) && list.len()
                == message_ids@.len() && (0 <= i < message_ids@.len() ==> list[i] == JsonView::Int(
                message_ids@[i] as int,
            ))
            &&& report@.get("chunks"@) == Some(JsonView::Int(prepared@.payloads.len() as int))
            &&& json::text_at(report@.get("threadId"@)) == prepared@.thread_id
            &&& report@.get("callbacks"@) == Some(
                JsonView::Int(prepared@.callback_routes.len() as int),
            )
        },
{
    broadcast use values::added_members_are_found;
    broadcast use values::no_members_are_found;

    names::names_differ();
}

// ---------------------------------------------------------------------------------------------
// Indicators
// ---------------------------------------------------------------------------------------------

/// An indicator is stored by chat and thread for two minutes, shown at once, and cleared where a
/// message of its thread is sent.
pub proof fn indicators_last_two_minutes(
    chat_id: &str,
    thread_id: &str,
    now: u64,
    prepared: &PreparedTelegramDelivery,
    key: String,
    record: Json,
    cleared: Option<String>,
)
    requires
        now + 120_000 <= u64::MAX,
        call_ensures(outgoing::telegram_typing_key, (chat_id, thread_id), key),
        call_ensures(outgoing::new_typing_record, (chat_id, thread_id, now), record),
        call_ensures(outgoing::typing_to_clear, (chat_id, prepared), cleared),
    ensures
        key@ == "telegram_typing:"@ + chat_id@ + ":"@ + thread_id@,
        json::text_at(record@.get("chatId"@)) == Some(chat_id@),
        json::text_at(record@.get("threadId"@)) == Some(thread_id@),
        record@.get("until"@) == Some(JsonView::Int(now + 120_000)),
        record@.get("nextAt"@) == Some(JsonView::Int(now as int)),
        prepared@.thread_id == Some(thread_id@) ==> (cleared matches Some(same) && same@ == key@),
        prepared@.thread_id is None ==> cleared is None,
{
    broadcast use values::added_members_are_found;
    broadcast use values::no_members_are_found;

    names::names_differ();
}

/// An indicator of the chat is shown every four seconds until it is over, and then deleted, as is one
/// that cannot be read; one of another chat is left alone.
pub proof fn indicators_are_shown_every_four_seconds(
    value: &Json,
    chat_id: &str,
    now: u64,
    step: TypingStep,
    unreadable: TypingStep,
)
    requires
        now + 4_000 <= u64::MAX,
        call_ensures(outgoing::typing_step, (Some(value), chat_id, now), step),
        call_ensures(outgoing::typing_step, (None::<&Json>, chat_id, now), unreadable),
    ensures
        ({
            let own = json::text_at(value@.get("chatId"@)) == Some(chat_id@);
            let until = match json::unsigned_at(value@.get("until"@)) {
                Some(n) => n,
                None => 0,
            };
            let next_at = match json::unsigned_at(value@.get("nextAt"@)) {
                Some(n) => n,
                None => 0,
            };
            &&& unreadable is Expire
            &&& !own ==> step is OtherChat
            &&& own && until <= now ==> step is Expire
            &&& own && until > now && next_at > now ==> step is Wait
            &&& own && until > now && next_at <= now ==> (step matches TypingStep::Show {
                refreshed,
            } && refreshed@.get("nextAt"@) == Some(JsonView::Int(now + 4_000))
                && refreshed@.get("until"@) == Some(JsonView::Int(until)) && json::text_at(
                refreshed@.get("chatId"@),
            ) == Some(chat_id@) && refreshed@.get("threadId"@) == Some(
                json::or_null(value@.get("threadId"@)),
            ))
        }),
{
    broadcast use values::added_members_are_found;
    broadcast use values::no_members_are_found;

    names::names_differ();
}

/// Indicators that are not over are active, whether they are shown or not; all goes well where none
/// failed.
pub proof fn indicators_are_counted(
    tally: &mut TypingTally,
    end: TypingEnd,
    done: (),
    other: TypingTally,
    report: Json,
    new: TypingTally,
)
    requires
        old(tally).active < u64::MAX,
        old(tally).sent < u64::MAX,
        old(tally).expired < u64::MAX,
        old(tally).failed < u64::MAX,
        call_ensures(TypingTally::add_indicator, (tally, end), done),
        call_ensures(TypingTally::report, (&other,), report),
        call_ensures(TypingTally::new, (), new),
    ensures
        end is Expired ==> final(tally).expired == old(tally).expired + 1 && final(tally).active
            == old(tally).active && final(tally).sent == old(tally).sent && final(tally).failed
            == old(tally).failed,
        end is OtherChat ==> *final(tally) == *old(tally),
        end is Waiting ==> final(tally).active == old(tally).active + 1 && final(tally).sent
            == old(tally).sent && final(tally).failed == old(tally).failed && final(tally).expired
            == old(tally).expired,
        end is Shown ==> final(tally).active == old(tally).active + 1 && final(tally).sent
            == old(tally).sent + 1 && final(tally).failed == old(tally).failed
            && final(tally).expired == old(tally).expired,
        end is Failed ==> final(tally).active == old(tally).active + 1 && final(tally).sent
            == old(tally).sent && final(tally).failed == old(tally).failed + 1
            && final(tally).expired == old(tally).expired,
        json::truth_at(report@.get("ok"@)) == Some(other.failed == 0),
        report@.get("active"@) == Some(JsonView::Int(other.active as int)),
        report@.get("sent"@) == Some(JsonView::Int(other.sent as int)),
        report@.get("expired"@) == Some(JsonView::Int(other.expired as int)),
        report@.get("failed"@) == Some(JsonView::Int(other.failed as int)),
        new.active == 0 && new.sent == 0 && new.expired == 0 && new.failed == 0,
{
    broadcast use values::added_members_are_found;
    broadcast use values::no_members_are_found;

    names::names_differ();
}

// ---------------------------------------------------------------------------------------------
// Deletions
// ---------------------------------------------------------------------------------------------

/// A message that is deleted, or not there to delete, is done. One that cannot be deleted, or was
/// not in 47 hours, is given up; any other failure is tried again.
pub proof fn deletions_are_tried_until_they_cannot_succeed(
    before: Seq<char>,
    after: Seq<char>,
    error: Seq<char>,
    created_at: int,
    now: int,
)
    ensures
        deletions::deletion_step(None, created_at, now) is Done,
        deletions::deletion_step(
            Some(before + "message to delete not found"@ + after),
            created_at,
            now,
        ) is Done,
        !text::occurs_in("message to delete not found"@, error) ==> {
            let step = deletions::deletion_step(Some(error), created_at, now);
            &&& text::occurs_in("message can't be deleted"@, error) ==> step is GiveUp
            &&& now - created_at >= 169_200_000 ==> step is GiveUp
            &&& !text::occurs_in("message can't be deleted"@, error) && now - created_at
                < 169_200_000 ==> step is Retry
        },
{
    texts::occurring_means_standing_between(before, "message to delete not found"@, after);
}

/// Only the bot that could delete a message tries to.
pub proof fn only_the_same_bot_deletes(
    deletion: &MessageDeletion,
    telegram: &TelegramConfig,
    attempt: DeletionAttempt,
)
    requires
        call_ensures(deletions::deletion_attempt, (deletion, telegram), attempt),
    ensures
        deletion.bot_id@ == api::stable_bot_id(telegram.bot_token@) ==> (
        attempt matches DeletionAttempt::Call(call) && call@ == api::delete_message_call(
            deletion.chat_id@,
            deletion.message_id as int,
        )),
        deletion.bot_id@ != api::stable_bot_id(telegram.bot_token@) ==> attempt is OtherBot,
{
}

/// The user is warned of a secret answer that is given up, in its chat, unless neither bot nor chat
/// are those of the bridge any more; what is done leaves the queue, and what may yet succeed stays.
pub proof fn users_are_warned_of_what_is_not_deleted(
    deletion: &MessageDeletion,
    telegram: &TelegramConfig,
    error: Option<&str>,
    now: u64,
    next: DeletionFollowUp,
)
    requires
        call_ensures(deletions::deletion_follow_up, (deletion, telegram, error, now), next),
    ensures
        ({
            let same_bot = deletion.bot_id@ == api::stable_bot_id(telegram.bot_token@);
            let same_chat = deletion.chat_id@ == telegram.chat_id@;
            let step = deletions::deletion_step(
                json::opt_text(error),
                deletion.created_at as int,
                now as int,
            );
            let warned = next matches DeletionFollowUp::Warn(call) && call@ == api::send_text_call(
                deletion.chat_id@,
                "⚠️ The bridge could not delete one of your secret answers to Codex. Please delete it yourself."@,
            );
            &&& same_bot && step is Done ==> next is Finish
            &&& same_bot && step is Retry ==> next is Retry
            &&& same_bot && step is GiveUp ==> warned
            &&& !same_bot && same_chat ==> warned
            &&& !same_bot && !same_chat ==> next is Finish
        }),
{
}

/// A warning that was not delivered is tried again.
pub proof fn warnings_are_tried_until_they_are_delivered(
    delivered: bool,
    next: DeletionFollowUp,
)
    requires
        call_ensures(deletions::warning_follow_up, (delivered,), next),
    ensures
        delivered ==> next is Finish,
        !delivered ==> next is Retry,
{
}

/// A call takes no longer than the cycle has left, and is not made where nothing is left.
pub proof fn calls_take_no_longer_than_is_left(
    timeout: u128,
    left: u128,
    cut: Option<u128>,
    free: Option<u128>,
)
    requires
        call_ensures(deletions::budgeted_timeout, (timeout, Some(left)), cut),
        call_ensures(deletions::budgeted_timeout, (timeout, None::<u128>), free),
    ensures
        left == 0 ==> cut is None,
        left > 0 && timeout <= left ==> cut == Some(timeout),
        left > 0 && timeout > left ==> cut == Some(left),
        free == Some(timeout),
{
}

} // verus!
