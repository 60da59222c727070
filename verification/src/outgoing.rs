//! Sending prepared messages, and the typing indicators of threads that work.

use vstd::prelude::*;

use crate::delivery::PreparedTelegramDelivery;
use crate::delivery::PreparedView;
use crate::json;
use crate::json::push_json;
use crate::json::Fields;
use crate::json::Json;
use crate::json::JsonView;
use crate::text::cat4;
use crate::text::is_text;
use crate::types;
use crate::types::CallbackRouteView;
use crate::types::TelegramCallbackRoute;

verus! {

// ---------------------------------------------------------------------------------------------
// Sending
// ---------------------------------------------------------------------------------------------

/// One thing to store for a message that was sent.
#[derive(Debug, PartialEq, Eq)]
pub enum DeliveryEffect {
    /// The message is a copy of a question: a reply to it answers the question.
    RecordQuestionMessage {
        chat_id: String,
        message_id: i64,
        question_key: String,
        question_id: String,
    },
    /// A button stands on the message.
    BindCallback { callback_id: String, message_id: i64 },
    /// A reply to the message continues a thread.
    RouteMessage { chat_id: String, message_id: i64, thread_id: String, event_id: String },
}

/// What an effect holds.
pub enum DeliveryEffectView {
    RecordQuestionMessage {
        chat_id: Seq<char>,
        message_id: int,
        question_key: Seq<char>,
        question_id: Seq<char>,
    },
    BindCallback { callback_id: Seq<char>, message_id: int },
    RouteMessage {
        chat_id: Seq<char>,
        message_id: int,
        thread_id: Seq<char>,
        event_id: Seq<char>,
    },
}

impl View for DeliveryEffect {
    type V = DeliveryEffectView;

    open spec fn view(&self) -> DeliveryEffectView {
        match *self {
            DeliveryEffect::RecordQuestionMessage {
                chat_id,
                message_id,
                question_key,
                question_id,
            } => DeliveryEffectView::RecordQuestionMessage {
                chat_id: chat_id@,
                message_id: message_id as int,
                question_key: question_key@,
                question_id: question_id@,
            },
            DeliveryEffect::BindCallback { callback_id, message_id } => {
                DeliveryEffectView::BindCallback {
                    callback_id: callback_id@,
                    message_id: message_id as int,
                }
            },
            DeliveryEffect::RouteMessage { chat_id, message_id, thread_id, event_id } => {
                DeliveryEffectView::RouteMessage {
                    chat_id: chat_id@,
                    message_id: message_id as int,
                    thread_id: thread_id@,
                    event_id: event_id@,
                }
            },
        }
    }
}

/// What the effects of a list hold.
pub open spec fn delivery_effect_views(list: Seq<DeliveryEffect>) -> Seq<DeliveryEffectView> {
    Seq::new(list.len(), |i: int| list[i]@)
}

fn push_delivery_effect(list: &mut Vec<DeliveryEffect>, effect: DeliveryEffect)
    ensures
        delivery_effect_views(final(list)@) == delivery_effect_views(old(list)@).push(effect@),
{
    list.push(effect);
    assert(delivery_effect_views(list@) =~= delivery_effect_views(old(list)@).push(effect@));
}

/// The question that the buttons of a delivery belong to: that of the first button with one.
pub open spec fn bound_question(routes: Seq<CallbackRouteView>) -> Option<(Seq<char>, Seq<char>)>
    decreases routes.len(),
{
    if routes.len() == 0 {
        None
    } else if routes[0].approval_key is Some && routes[0].question_id is Some {
        Some((routes[0].approval_key->0, routes[0].question_id->0))
    } else {
        bound_question(routes.skip(1))
    }
}

/// Buttons on a message.
pub open spec fn bound_routes(
    routes: Seq<CallbackRouteView>,
    message_id: int,
) -> Seq<CallbackRouteView> {
    Seq::new(
        routes.len(),
        |i: int| CallbackRouteView { message_id: Some(message_id), ..routes[i] },
    )
}

/// What is stored for a message that was sent. The first message of a delivery carries the buttons:
/// they are bound to it before anything else can fail, and where they belong to a question, so is
/// the question, since a reply is recognised as its answer by this binding alone.
pub open spec fn sent_effects(
    chat_id: Seq<char>,
    prepared: PreparedView,
    first: bool,
    message_id: int,
) -> Seq<DeliveryEffectView> {
    let question = match bound_question(prepared.callback_routes) {
        Some(question) => Seq::empty().push(
            DeliveryEffectView::RecordQuestionMessage {
                chat_id,
                message_id,
                question_key: question.0,
                question_id: question.1,
            },
        ),
        None => Seq::empty(),
    };
    let bound = if first {
        question + Seq::new(
            prepared.callback_routes.len(),
            |i: int|
                DeliveryEffectView::BindCallback {
                    callback_id: prepared.callback_routes[i].callback_id,
                    message_id,
                },
        )
    } else {
        Seq::empty()
    };
    match prepared.thread_id {
        Some(thread_id) => bound.push(
            DeliveryEffectView::RouteMessage {
                chat_id,
                message_id,
                thread_id,
                event_id: prepared.event_id,
            },
        ),
        None => bound,
    }
}

/// A delivery after a message was sent: the first message gets its buttons.
pub open spec fn after_message(
    prepared: PreparedView,
    first: bool,
    message_id: int,
) -> PreparedView {
    PreparedView {
        callback_routes: if first {
            bound_routes(prepared.callback_routes, message_id)
        } else {
            prepared.callback_routes
        },
        ..prepared
    }
}

fn push_bound_question(
    list: &mut Vec<DeliveryEffect>,
    chat_id: &str,
    routes: &Vec<TelegramCallbackRoute>,
    message_id: i64,
)
    ensures
        delivery_effect_views(final(list)@) == match bound_question(types::route_views(routes@)) {
            Some(question) => delivery_effect_views(old(list)@).push(
                DeliveryEffectView::RecordQuestionMessage {
                    chat_id: chat_id@,
                    message_id: message_id as int,
                    question_key: question.0,
                    question_id: question.1,
                },
            ),
            None => delivery_effect_views(old(list)@),
        },
{
    let ghost all = types::route_views(routes@);
    let ghost before = delivery_effect_views(list@);
    let mut i: usize = 0;
    assert(all.skip(0) =~= all);
    while i < routes.len()
        invariant
            all == types::route_views(routes@),
            before == delivery_effect_views(list@),
            before == delivery_effect_views(old(list)@),
            i <= routes@.len(),
            bound_question(all.skip(i as int)) == bound_question(all),
        decreases routes@.len() - i,
    {
        assert(all.skip(i as int)[0] == all[i as int]);
        assert(all.skip(i as int).skip(1) =~= all.skip(i + 1));
        if let Some(key) = &routes[i].approval_key {
            if let Some(id) = &routes[i].question_id {
                push_delivery_effect(
                    list,
                    DeliveryEffect::RecordQuestionMessage {
                        chat_id: chat_id.to_owned(),
                        message_id,
                        question_key: key.clone(),
                        question_id: id.clone(),
                    },
                );
                return ;
            }
        }
        i = i + 1;
    }
}

/// Stores a message that was sent: `first` is whether it is the first one of its delivery.
pub fn message_sent(
    chat_id: &str,
    prepared: &mut PreparedTelegramDelivery,
    first: bool,
    message_id: i64,
) -> (out: Vec<DeliveryEffect>)
    ensures
        delivery_effect_views(out@) == sent_effects(
            chat_id@,
            old(prepared)@,
            first,
            message_id as int,
        ),
        final(prepared)@ == after_message(old(prepared)@, first, message_id as int),
{
    let mut out: Vec<DeliveryEffect> = Vec::new();
    let ghost routes = types::route_views(prepared.callback_routes@);
    let ghost start = *prepared;
    assert(delivery_effect_views(out@) =~= Seq::<DeliveryEffectView>::empty());
    if first {
        push_bound_question(&mut out, chat_id, &prepared.callback_routes, message_id);
        let ghost before = delivery_effect_views(out@);
        let ghost bound = bound_routes(routes, message_id as int);
        let ghost wanted = Seq::new(
            routes.len(),
            |i: int|
                DeliveryEffectView::BindCallback {
                    callback_id: routes[i].callback_id,
                    message_id: message_id as int,
                },
        );
        let mut i: usize = 0;
        assert(before + wanted.take(0) =~= before);
        assert(bound.take(0) + routes.skip(0) =~= routes);
        while i < prepared.callback_routes.len()
            invariant
                i <= prepared.callback_routes@.len(),
                prepared.callback_routes@.len() == routes.len(),
                bound == bound_routes(routes, message_id as int),
                wanted == Seq::new(
                    routes.len(),
                    |i: int|
                        DeliveryEffectView::BindCallback {
                            callback_id: routes[i].callback_id,
                            message_id: message_id as int,
                        },
                ),
                types::route_views(prepared.callback_routes@) == bound.take(i as int)
                    + routes.skip(i as int),
                delivery_effect_views(out@) == before + wanted.take(i as int),
                prepared.payloads == start.payloads,
                prepared.thread_id == start.thread_id,
                prepared.event_id == start.event_id,
            decreases routes.len() - i,
        {
            let route = &prepared.callback_routes[i];
            assert(route@ == types::route_views(prepared.callback_routes@)[i as int]);
            assert(route@ == routes[i as int]);
            let callback_id = route.callback_id.clone();
            let bound_route = TelegramCallbackRoute {
                callback_id: route.callback_id.clone(),
                chat_id: route.chat_id.clone(),
                message_id: Some(message_id),
                thread_id: route.thread_id.clone(),
                action: route.action,
                approval_key: types::own_again(&route.approval_key),
                question_id: types::own_again(&route.question_id),
                answer: types::own_again(&route.answer),
            };
            assert(bound_route@ == bound[i as int]);
            let ghost so_far = types::route_views(prepared.callback_routes@);
            prepared.callback_routes.set(i, bound_route);
            assert(types::route_views(prepared.callback_routes@) =~= so_far.update(
                i as int,
                bound_route@,
            ));
            push_delivery_effect(&mut out, DeliveryEffect::BindCallback { callback_id, message_id });
            i = i + 1;
            assert(types::route_views(prepared.callback_routes@) =~= bound.take(i as int)
                + routes.skip(i as int));
            assert(delivery_effect_views(out@) =~= before + wanted.take(i as int));
        }
        assert(bound.take(i as int) + routes.skip(i as int) =~= bound);
        assert(wanted.take(i as int) =~= wanted);
        assert(before + wanted =~= match bound_question(routes) {
            Some(question) => Seq::<DeliveryEffectView>::empty().push(
                DeliveryEffectView::RecordQuestionMessage {
                    chat_id: chat_id@,
                    message_id: message_id as int,
                    question_key: question.0,
                    question_id: question.1,
                },
            ),
            None => Seq::<DeliveryEffectView>::empty(),
        } + wanted);
    }
    if let Some(thread_id) = &prepared.thread_id {
        push_delivery_effect(
            &mut out,
            DeliveryEffect::RouteMessage {
                chat_id: chat_id.to_owned(),
                message_id,
                thread_id: thread_id.clone(),
                event_id: prepared.event_id.clone(),
            },
        );
    }
    out
}

/// Where the buttons of a delivery belong to a question, the first thing that is stored for its
/// first message is that the message asks this question.
pub proof fn questions_are_bound_first(chat_id: Seq<char>, prepared: PreparedView, message_id: int)
    requires
        bound_question(prepared.callback_routes) is Some,
    ensures
        ({
            let question = bound_question(prepared.callback_routes)->0;
            let effects = sent_effects(chat_id, prepared, true, message_id);
            effects.len() > 0 && effects[0] == (DeliveryEffectView::RecordQuestionMessage {
                chat_id,
                message_id,
                question_key: question.0,
                question_id: question.1,
            })
        }),
{
}

/// What is stored for a delivery, message by message, and the delivery after that.
pub ghost struct DeliveredView {
    pub effects: Seq<DeliveryEffectView>,
    pub prepared: PreparedView,
}

/// A delivery whose messages were sent under the given numbers.
pub open spec fn delivered(
    chat_id: Seq<char>,
    prepared: PreparedView,
    message_ids: Seq<i64>,
) -> DeliveredView
    decreases message_ids.len(),
{
    if message_ids.len() == 0 {
        DeliveredView { effects: Seq::empty(), prepared }
    } else {
        let before = delivered(chat_id, prepared, message_ids.drop_last());
        let first = message_ids.len() == 1;
        let id = message_ids.last() as int;
        DeliveredView {
            effects: before.effects + sent_effects(chat_id, before.prepared, first, id),
            prepared: after_message(before.prepared, first, id),
        }
    }
}

/// However many messages a delivery has, its buttons end up on the first one, in the delivery and in
/// the store, and where it belongs to a thread, every message is stored as one of that thread.
pub proof fn deliveries_are_stored_whole(
    chat_id: Seq<char>,
    prepared: PreparedView,
    message_ids: Seq<i64>,
)
    requires
        message_ids.len() > 0,
    ensures
        delivered(chat_id, prepared, message_ids).prepared == after_message(
            prepared,
            true,
            message_ids[0] as int,
        ),
        forall|i: int|
            0 <= i < prepared.callback_routes.len() ==> delivered(
                chat_id,
                prepared,
                message_ids,
            ).effects.contains(
                DeliveryEffectView::BindCallback {
                    callback_id: (#[trigger] prepared.callback_routes[i]).callback_id,
                    message_id: message_ids[0] as int,
                },
            ),
        prepared.thread_id matches Some(thread_id) ==> forall|k: int|
            0 <= k < message_ids.len() ==> delivered(
                chat_id,
                prepared,
                message_ids,
            ).effects.contains(
                DeliveryEffectView::RouteMessage {
                    chat_id,
                    message_id: #[trigger] message_ids[k] as int,
                    thread_id,
                    event_id: prepared.event_id,
                },
            ),
    decreases message_ids.len(),
{
    let front = message_ids.drop_last();
    let before = delivered(chat_id, prepared, front);
    let last = message_ids.last() as int;
    let first = message_ids.len() == 1;
    let sent = sent_effects(chat_id, before.prepared, first, last);
    let after = delivered(chat_id, prepared, message_ids);
    let n = before.effects.len() as int;
    if first {
        assert(before.prepared == prepared);
    } else {
        deliveries_are_stored_whole(chat_id, prepared, front);
    }
    assert forall|e: DeliveryEffectView| before.effects.contains(e) implies after.effects.contains(
        e,
    ) by {
        let j = choose|j: int| 0 <= j < n && before.effects[j] == e;
        assert(after.effects[j] == e);
    }
    assert forall|e: DeliveryEffectView| sent.contains(e) implies after.effects.contains(e) by {
        let j = choose|j: int| 0 <= j < sent.len() && sent[j] == e;
        assert(after.effects[n + j] == e);
    }
    assert forall|i: int| 0 <= i < prepared.callback_routes.len() implies after.effects.contains(
        DeliveryEffectView::BindCallback {
            callback_id: (#[trigger] prepared.callback_routes[i]).callback_id,
            message_id: message_ids[0] as int,
        },
    ) by {
        if first {
            let asked: int = if bound_question(prepared.callback_routes) is Some {
                1
            } else {
                0
            };
            assert(sent[asked + i] == (DeliveryEffectView::BindCallback {
                callback_id: prepared.callback_routes[i].callback_id,
                message_id: last,
            }));
        } else {
            assert(front[0] == message_ids[0]);
        }
    }
    if let Some(thread_id) = prepared.thread_id {
        assert forall|k: int| 0 <= k < message_ids.len() implies after.effects.contains(
            DeliveryEffectView::RouteMessage {
                chat_id,
                message_id: #[trigger] message_ids[k] as int,
                thread_id,
                event_id: prepared.event_id,
            },
        ) by {
            if k < message_ids.len() - 1 {
                assert(front[k] == message_ids[k]);
            } else {
                assert(sent.last() == (DeliveryEffectView::RouteMessage {
                    chat_id,
                    message_id: last,
                    thread_id,
                    event_id: prepared.event_id,
                }));
                assert(sent.contains(sent[sent.len() - 1]));
            }
        }
    }
}

/// Numbers as values.
pub open spec fn int_views(list: Seq<i64>) -> Seq<JsonView> {
    Seq::new(list.len(), |i: int| JsonView::Int(list[i] as int))
}

/// The report of a delivery.
pub open spec fn delivery_report(prepared: PreparedView, message_ids: Seq<i64>) -> JsonView {
    json::members().flag("ok"@, true).text("transport"@, "telegram"@).number(
        "messageId"@,
        message_ids[0] as int,
    ).with("messageIds"@, JsonView::Array(int_views(message_ids))).number(
        "chunks"@,
        prepared.payloads.len() as int,
    ).with("threadId"@, json::text_or_null(prepared.thread_id)).number(
        "callbacks"@,
        prepared.callback_routes.len() as int,
    ).object()
}

/// The report of a delivery; `None` where no message was sent.
pub fn delivery_report_json(
    prepared: &PreparedTelegramDelivery,
    message_ids: &Vec<i64>,
) -> (out: Option<Json>)
    ensures
        out is Some <==> message_ids@.len() > 0,
        out matches Some(report) ==> report@ == delivery_report(prepared@, message_ids@),
{
    if message_ids.len() == 0 {
        return None;
    }
    let mut ids: Vec<Json> = Vec::new();
    let mut i: usize = 0;
    assert(json::views(ids@) =~= int_views(message_ids@).take(0));
    while i < message_ids.len()
        invariant
            i <= message_ids@.len(),
            json::views(ids@) == int_views(message_ids@).take(i as int),
        decreases message_ids@.len() - i,
    {
        push_json(&mut ids, Json::Int(message_ids[i] as i128));
        i = i + 1;
        assert(json::views(ids@) =~= int_views(message_ids@).take(i as int));
    }
    assert(int_views(message_ids@).take(i as int) =~= int_views(message_ids@));
    Some(
        Fields::new().flag("ok", true).text("transport", "telegram").number(
            "messageId",
            message_ids[0] as i128,
        ).with("messageIds", Json::array(ids)).number(
            "chunks",
            prepared.payloads.len() as i128,
        ).with("threadId", Json::opt_string(&prepared.thread_id)).number(
            "callbacks",
            prepared.callback_routes.len() as i128,
        ).object(),
    )
}

// ---------------------------------------------------------------------------------------------
// Typing indicators
// ---------------------------------------------------------------------------------------------

/// How long a thread shows as typing at most.
pub const TELEGRAM_TYPING_TTL_MS: u64 = 120_000;

/// How often the indicator is shown again.
pub const TELEGRAM_TYPING_REFRESH_MS: u64 = 4_000;

/// The key under which the indicator of a thread is stored.
pub fn telegram_typing_key(chat_id: &str, thread_id: &str) -> (out: String)
    ensures
        out@ == "telegram_typing:"@ + chat_id@ + ":"@ + thread_id@,
{
    cat4("telegram_typing:", chat_id, ":", thread_id)
}

/// The key of the indicator that is cleared once a delivery is sent: that of its thread, where it
/// has one.
pub fn typing_to_clear(chat_id: &str, prepared: &PreparedTelegramDelivery) -> (out: Option<String>)
    ensures
        out is Some <==> prepared@.thread_id is Some,
        out matches Some(key) ==> key@ == "telegram_typing:"@ + chat_id@ + ":"@
            + prepared@.thread_id->0,
{
    match &prepared.thread_id {
        Some(thread_id) => Some(telegram_typing_key(chat_id, thread_id.as_str())),
        None => None,
    }
}

/// A stored indicator.
pub open spec fn typing_record(
    chat_id: Seq<char>,
    thread_id: JsonView,
    until: int,
    next_at: int,
) -> JsonView {
    json::members().text("chatId"@, chat_id).with("threadId"@, thread_id).number(
        "until"@,
        until,
    ).number("nextAt"@, next_at).object()
}

/// The indicator of a thread that starts to work.
pub fn new_typing_record(chat_id: &str, thread_id: &str, now: u64) -> (out: Json)
    requires
        now + TELEGRAM_TYPING_TTL_MS <= u64::MAX,
    ensures
        out@ == typing_record(
            chat_id@,
            JsonView::Str(thread_id@),
            now + TELEGRAM_TYPING_TTL_MS,
            now as int,
        ),
{
    let until: u64 = now + TELEGRAM_TYPING_TTL_MS;
    Fields::new().text("chatId", chat_id).with("threadId", Json::text(thread_id)).number(
        "until",
        until as i128,
    ).number("nextAt", now as i128).object()
}

/// What to do with a stored indicator.
#[derive(Debug, PartialEq, Eq)]
pub enum TypingStep {
    /// It is over or cannot be read: delete it.
    Expire,
    /// It belongs to another chat: leave it alone.
    OtherChat,
    /// It was shown a moment ago.
    Wait,
    /// Show it, and where that succeeds, store the new record.
    Show { refreshed: Json },
}

/// A number of a stored indicator, 0 where it is missing.
pub open spec fn typing_number(value: JsonView, field: Seq<char>) -> int {
    match json::unsigned_at(value.get(field)) {
        Some(n) => n,
        None => 0,
    }
}

/// What to do with a stored indicator; `value` is `None` where it cannot be read.
pub fn typing_step(value: Option<&Json>, chat_id: &str, now: u64) -> (out: TypingStep)
    requires
        now + TELEGRAM_TYPING_REFRESH_MS <= u64::MAX,
    ensures
        ({
            let own = value is Some && json::text_at(value->0@.get("chatId"@)) == Some(chat_id@);
            let until = typing_number(value->0@, "until"@);
            let next_at = typing_number(value->0@, "nextAt"@);
            match out {
                TypingStep::Expire => value is None || own && until <= now,
                TypingStep::OtherChat => value is Some && !own,
                TypingStep::Wait => own && until > now && next_at > now,
                TypingStep::Show { refreshed } => {
                    &&& own
                    &&& until > now
                    &&& next_at <= now
                    &&& refreshed@ == typing_record(
                        chat_id@,
                        json::or_null(value->0@.get("threadId"@)),
                        until,
                        now + TELEGRAM_TYPING_REFRESH_MS,
                    )
                },
            }
        }),
{
    let value = match value {
        Some(value) => value,
        None => {
            return TypingStep::Expire;
        },
    };
    if !is_text(value.str_at("chatId"), chat_id) {
        return TypingStep::OtherChat;
    }
    let until: u64 = match value.u64_at("until") {
        Some(n) => n,
        None => 0,
    };
    if until <= now {
        return TypingStep::Expire;
    }
    let next_at: u64 = match value.u64_at("nextAt") {
        Some(n) => n,
        None => 0,
    };
    if next_at > now {
        return TypingStep::Wait;
    }
    let again: u64 = now + TELEGRAM_TYPING_REFRESH_MS;
    let refreshed = Fields::new().text("chatId", chat_id).with(
        "threadId",
        Json::or_null(value.get("threadId")),
    ).number("until", until as i128).number("nextAt", again as i128).object();
    TypingStep::Show { refreshed }
}

/// What became of an indicator.
#[derive(Debug, Clone, Copy, PartialEq, Eq, Structural)]
pub enum TypingEnd {
    Expired,
    OtherChat,
    Waiting,
    Shown,
    Failed,
}

/// What became of the indicators.
#[derive(Debug, PartialEq, Eq)]
pub struct TypingTally {
    pub active: u64,
    pub sent: u64,
    pub expired: u64,
    pub failed: u64,
}

impl TypingTally {
    /// No indicators yet.
    pub fn new() -> (out: TypingTally)
        ensures
            out.active == 0,
            out.sent == 0,
            out.expired == 0,
            out.failed == 0,
    {
        TypingTally { active: 0, sent: 0, expired: 0, failed: 0 }
    }

    /// Adds an indicator: those that are not over are active, whether they are shown or not.
    pub fn add_indicator(&mut self, end: TypingEnd)
        requires
            old(self).active < u64::MAX,
            old(self).sent < u64::MAX,
            old(self).expired < u64::MAX,
            old(self).failed < u64::MAX,
        ensures
            final(self).active == old(self).active + (if end == TypingEnd::Waiting || end
                == TypingEnd::Shown || end == TypingEnd::Failed {
                1int
            } else {
                0int
            }),
            final(self).sent == old(self).sent + (if end == TypingEnd::Shown {
                1int
            } else {
                0int
            }),
            final(self).expired == old(self).expired + (if end == TypingEnd::Expired {
                1int
            } else {
                0int
            }),
            final(self).failed == old(self).failed + (if end == TypingEnd::Failed {
                1int
            } else {
                0int
            }),
    {
        match end {
            TypingEnd::Expired => {
                self.expired = self.expired + 1;
            },
            TypingEnd::OtherChat => {},
            TypingEnd::Waiting => {
                self.active = self.active + 1;
            },
            TypingEnd::Shown => {
                self.active = self.active + 1;
                self.sent = self.sent + 1;
            },
            TypingEnd::Failed => {
                self.active = self.active + 1;
                self.failed = self.failed + 1;
            },
        }
    }

    /// The report of the indicators.
    pub fn report(&self) -> (out: Json)
        ensures
            out@ == json::members().flag("ok"@, self.failed == 0).text(
                "transport"@,
                "telegram"@,
            ).number("active"@, self.active as int).number("sent"@, self.sent as int).number(
                "expired"@,
                self.expired as int,
            ).number("failed"@, self.failed as int).object(),
    {
        Fields::new().flag("ok", self.failed == 0).text("transport", "telegram").number(
            "active",
            self.active as i128,
        ).number("sent", self.sent as i128).number("expired", self.expired as i128).number(
            "failed",
            self.failed as i128,
        ).object()
    }
}

} // verus!
