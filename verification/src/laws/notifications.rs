//! Notifications: what the message on an event says, how it is split, and which buttons it has.

use vstd::prelude::*;

use crate::delivery::PreparedTelegramDelivery;
use crate::delivery;
use crate::json::Json;
use crate::json;
use crate::json::JsonView;
use crate::laws::names;
use crate::laws::texts;
use crate::laws::values;
use crate::render;
use crate::text;
use crate::types;

verus! {

// ---------------------------------------------------------------------------------------------
// What a notification says
// ---------------------------------------------------------------------------------------------

/// The text is the detail of the event: it is shown without its long references, and not at all
/// where it is blank.
pub open spec fn is_detail(event: JsonView, s: Seq<char>) -> bool {
    if text::blank(s) {
        delivery::event_detail(event) is None
    } else {
        delivery::event_detail(event) == Some(render::sanitized(s))
    }
}

/// The summary of an approval is the detail. Without one it is the question that Codex waits on,
/// whatever the previews hold; without that the preview of the thread, and last the event's own.
pub proof fn a_pending_question_comes_before_a_preview(event: JsonView)
    ensures
        ({
            let thread = event.get("thread"@);
            let summary = json::text_at(json::at(event.get("approvalRequest"@), "summary"@));
            let question = json::text_at(json::at(json::at(thread, "pendingPrompt"@), "question"@));
            let preview = json::text_at(json::at(thread, "lastPreview"@));
            let own = json::text_at(event.get("lastPreview"@));
            &&& summary matches Some(s) ==> is_detail(event, s)
            &&& summary is None && question is Some ==> is_detail(event, question->0)
            &&& summary is None && question is None && preview is Some ==> is_detail(
                event,
                preview->0,
            )
            &&& summary is None && question is None && preview is None && own is Some ==> is_detail(
                event,
                own->0,
            )
            &&& summary is None && question is None && preview is None && own is None
                ==> delivery::event_detail(event) is None
        }),
{
}

/// A thread is called by the name to show, else by its name, else by its identifier.
pub proof fn a_thread_is_called_by_its_best_name(event: JsonView)
    ensures
        ({
            let shown = json::text_at(json::at(event.get("thread"@), "displayName"@));
            let name = json::text_at(json::at(event.get("thread"@), "name"@));
            let id = json::text_at(event.get("threadId"@));
            let called = delivery::event_display_name(event);
            &&& shown matches Some(s) ==> called == s
            &&& shown is None && name is Some ==> called == name->0
            &&& shown is None && name is None && id is Some ==> called == id->0
            &&& shown is None && name is None && id is None ==> called == "Codex thread"@
        }),
{
}

/// An approval is announced as one, whatever the type of its event, and its hint depends on
/// whether it has buttons; other events are announced by their type.
pub proof fn approvals_are_announced_as_approvals(event_type: Seq<char>, event: JsonView)
    ensures
        ({
            let prompt = json::at(event.get("thread"@), "pendingPrompt"@);
            let native = json::text_at(json::at(event.get("approvalRequest"@), "approvalKey"@)) is Some;
            let marked = json::text_at(event.get("promptKind"@)) == Some("approval"@) || json::text_at(
                json::at(prompt, "promptKind"@),
            ) == Some("approval"@) || json::text_at(json::at(prompt, "kind"@)) == Some("approval"@);
            let title = delivery::event_title(event_type, event);
            let hint = delivery::event_reply_hint(event_type, event);
            &&& native || marked ==> title == "🔐 Codex needs approval"@
            &&& native ==> hint
                == "Choose one option below. The button is bound to this exact Codex request."@
            &&& !native && marked ==> hint == "Open the active Codex client to answer this approval."@
            &&& !native && !marked && event_type == "thread_waiting"@ ==> title
                == "🟡 Codex needs you"@ && hint
                == "💬 To answer Codex, use Telegram's Reply action on this message."@
            &&& !native && !marked && event_type != "thread_waiting"@ ==> hint
                == "💬 To continue this thread, use Telegram's Reply action on this message."@
            &&& !native && !marked && event_type == "thread_completed"@ ==> title
                == "✅ Codex finished"@
            &&& !native && !marked && event_type == "thread_status_changed"@ ==> title
                == "🔄 Codex changed"@
        }),
{
    reveal_strlit("thread_waiting");
    reveal_strlit("thread_completed");
    reveal_strlit("thread_status_changed");
    assert("thread_waiting"@.len() == 14);
    assert("thread_completed"@.len() == 16);
    assert("thread_status_changed"@.len() == 21);
}

/// The lines that begin every message: its title, its thread, and the project where one is known.
pub open spec fn heading(title: Seq<char>, event: JsonView) -> Seq<char> {
    title + "\n"@ + ("🧵 "@ + delivery::event_display_name(event)) + match json::text_at(
        json::at(event.get("thread"@), "project"@),
    ) {
        Some(project) => "\n"@ + ("📁 "@ + project),
        None => Seq::empty(),
    }
}

/// The heading is the lines that begin every message.
pub proof fn a_heading_is_joined_from_its_lines(title: Seq<char>, event: JsonView)
    ensures
        text::joined(delivery::with_thread_lines(title, event), "\n"@) == heading(title, event),
        delivery::with_thread_lines(title, event).len() > 0,
{
    let name = "🧵 "@ + delivery::event_display_name(event);
    texts::joining_sets_separators_between(seq![title], seq![name], "\n"@, title);
    texts::joining_sets_separators_between(seq![title], seq![name], "\n"@, name);
    assert(seq![title] + seq![name] =~= seq![title, name]);
    match json::text_at(json::at(event.get("thread"@), "project"@)) {
        Some(project) => {
            texts::joining_one_more_part("\n"@, seq![title, name], "📁 "@ + project);
            assert(heading(title, event) =~= (title + "\n"@ + name) + "\n"@ + ("📁 "@ + project));
        },
        None => {
            assert(heading(title, event) =~= title + "\n"@ + name);
        },
    }
}

/// A notification has the heading, below it the detail, and at the end the hint where replies are
/// routed, with an empty line before each.
pub proof fn a_notification_shows_heading_detail_and_hint(event: JsonView, routed: bool)
    ensures
        ({
            let event_type = delivery::event_type_of(event);
            text::joined(delivery::event_lines(event, routed), "\n"@) == heading(
                delivery::event_title(event_type, event),
                event,
            ) + match delivery::event_detail(event) {
                Some(detail) => "\n"@ + "\n"@ + detail,
                None => Seq::empty(),
            } + if routed {
                "\n"@ + "\n"@ + delivery::event_reply_hint(event_type, event)
            } else {
                Seq::empty()
            }
        }),
        json::text_at(event.get("type"@)) matches Some(t) ==> delivery::event_type_of(event) == t,
{
    let event_type = delivery::event_type_of(event);
    let title = delivery::event_title(event_type, event);
    let hint = delivery::event_reply_hint(event_type, event);
    let top = delivery::with_thread_lines(title, event);
    a_heading_is_joined_from_its_lines(title, event);
    let middle = match delivery::event_detail(event) {
        Some(detail) => top.push(Seq::empty()).push(detail),
        None => top,
    };
    let shown: Seq<char> = match delivery::event_detail(event) {
        Some(detail) => "\n"@ + "\n"@ + detail,
        None => Seq::empty(),
    };
    if delivery::event_detail(event) is Some {
        texts::joining_one_more_part("\n"@, top, Seq::empty());
        texts::joining_one_more_part("\n"@, top.push(Seq::empty()), delivery::event_detail(event)->0);
    }
    assert(text::joined(middle, "\n"@) =~= heading(title, event) + shown);
    if routed {
        texts::joining_one_more_part("\n"@, middle, Seq::empty());
        texts::joining_one_more_part("\n"@, middle.push(Seq::empty()), hint);
        assert(text::joined(delivery::event_lines(event, routed), "\n"@) =~= heading(title, event)
            + shown + ("\n"@ + "\n"@ + hint));
    } else {
        assert(text::joined(delivery::event_lines(event, routed), "\n"@) =~= heading(title, event)
            + shown + Seq::<char>::empty());
    }
}

// ---------------------------------------------------------------------------------------------
// Messages
// ---------------------------------------------------------------------------------------------

/// The texts of messages.
pub open spec fn message_texts(payloads: Seq<JsonView>) -> Seq<Seq<char>> {
    Seq::new(payloads.len(), |i: int| json::text_at(payloads[i].get("text"@))->0)
}

/// Putting texts together goes text by text.
pub proof fn concatenating_goes_text_by_text(
    first: Seq<Seq<char>>,
    second: Seq<Seq<char>>,
    one: Seq<char>,
)
    ensures
        render::concatenation(first + second) == render::concatenation(first)
            + render::concatenation(second),
        render::concatenation(seq![one]) == one,
        render::concatenation(Seq::empty()) == Seq::<char>::empty(),
    decreases first.len(),
{
    assert(seq![one].skip(1) =~= Seq::<Seq<char>>::empty());
    assert(render::concatenation(seq![one].skip(1)) == Seq::<char>::empty());
    assert(render::concatenation(seq![one]) =~= one);
    if first.len() == 0 {
        assert(first + second =~= second);
    } else {
        concatenating_goes_text_by_text(first.skip(1), second, one);
        assert((first + second).skip(1) =~= first.skip(1) + second);
        assert((first + second)[0] == first[0]);
    }
}

/// A text is cut only where a message is full.
pub proof fn all_messages_but_the_last_are_full(value: Seq<char>, size: int, i: int)
    requires
        0 < size,
        0 <= i < render::chunks(value, size).len() - 1,
    ensures
        render::chunks(value, size)[i].len() == size,
    decreases value.len(),
{
    if value.len() > size {
        let rest = value.skip(size);
        render::splitting_loses_nothing(rest, size);
        if i > 0 {
            all_messages_but_the_last_are_full(rest, size, i - 1);
            assert(render::chunks(value, size)[i] == render::chunks(rest, size)[i - 1]);
        }
    }
}

/// Every message goes to the chat as plain text without previews of links, and only the first has
/// buttons, where the event asks for an approval that can be given. Together the messages say what
/// the notification says.
pub proof fn an_event_is_sent_to_the_chat_in_full(
    chat_id: Seq<char>,
    event: JsonView,
    event_id: Seq<char>,
    thread_id: Option<Seq<char>>,
    i: int,
)
    requires
        event.get("questionRequest"@) is None,
        0 <= i < delivery::delivery_of(chat_id, event, event_id, thread_id).payloads.len(),
    ensures
        ({
            let sent = delivery::delivery_of(chat_id, event, event_id, thread_id);
            let body = text::joined(delivery::event_lines(event, thread_id is Some), "\n"@);
            let key = json::text_at(json::at(event.get("approvalRequest"@), "approvalKey"@));
            let asks = key is Some && thread_id is Some;
            &&& sent.thread_id == thread_id
            &&& sent.event_id == event_id
            &&& render::concatenation(message_texts(sent.payloads)) == body
            &&& json::text_at(sent.payloads[i].get("chat_id"@)) == Some(chat_id)
            &&& json::text_at(sent.payloads[i].get("text"@)) is Some
            &&& json::truth_at(sent.payloads[i].get("disable_web_page_preview"@)) == Some(true)
            &&& sent.payloads[i].get("parse_mode"@) is None
            &&& sent.payloads[i].get("reply_markup"@) is Some <==> i == 0 && asks
            &&& sent.callback_routes.len() == if asks {
                3int
            } else {
                0int
            }
        }),
{
    broadcast use values::added_members_are_found;
    broadcast use values::no_members_are_found;

    names::names_differ();
    reveal_strlit("parse_mode");
    assert("parse_mode"@.len() == 10 && "parse_mode"@[0] == 'p' && "parse_mode"@[9] == 'e');
    let sent = delivery::delivery_of(chat_id, event, event_id, thread_id);
    let body = text::joined(delivery::event_lines(event, thread_id is Some), "\n"@);
    let parts = render::chunks(body, 4096);
    delivery::an_event_is_delivered_whole(chat_id, event, thread_id is Some);
    let payloads = delivery::event_payloads(chat_id, event, thread_id is Some);
    assert(payloads.len() == parts.len());
    assert forall|k: int| 0 <= k < sent.payloads.len() implies json::text_at(
        (#[trigger] sent.payloads[k]).get("text"@),
    ) == Some(parts[k]) by {
        assert(payloads[k] == delivery::message_members(chat_id, parts[k]).object());
    }
    assert(message_texts(sent.payloads) =~= parts);
    assert(payloads[i] == delivery::message_members(chat_id, parts[i]).object());
}

/// A question that Codex waits on is in what is delivered, whatever the previews hold.
pub proof fn a_pending_question_is_delivered(
    chat_id: Seq<char>,
    event: JsonView,
    event_id: Seq<char>,
    thread_id: Option<Seq<char>>,
    question: Seq<char>,
)
    requires
        event.get("questionRequest"@) is None,
        json::text_at(json::at(event.get("approvalRequest"@), "summary"@)) is None,
        json::text_at(json::at(json::at(event.get("thread"@), "pendingPrompt"@), "question"@))
            == Some(question),
        !text::blank(question),
    ensures
        text::occurs_in(
            render::sanitized(question),
            render::concatenation(
                message_texts(
                    delivery::delivery_of(chat_id, event, event_id, thread_id).payloads,
                ),
            ),
        ),
{
    let routed = thread_id is Some;
    delivery::an_event_is_delivered_whole(chat_id, event, routed);
    an_event_is_sent_to_the_chat_in_full(chat_id, event, event_id, thread_id, 0);
    a_pending_question_comes_before_a_preview(event);
    let event_type = delivery::event_type_of(event);
    let lines = delivery::event_lines(event, routed);
    let top = delivery::with_thread_lines(delivery::event_title(event_type, event), event);
    let k = top.len() + 1;
    assert(lines[k as int] == render::sanitized(question));
    texts::joining_keeps_every_part(lines, "\n"@, k as int);
}

/// The buttons of an approval, with what each is labelled and decides.
pub proof fn approval_buttons_decide_what_they_say(
    chat_id: Seq<char>,
    event: JsonView,
    event_id: Seq<char>,
    thread_id: Seq<char>,
    key: Seq<char>,
)
    requires
        event.get("questionRequest"@) is None,
        json::text_at(json::at(event.get("approvalRequest"@), "approvalKey"@)) == Some(key),
    ensures
        ({
            let sent = delivery::delivery_of(chat_id, event, event_id, Some(thread_id));
            let rows = json::items_at(
                json::at(sent.payloads[0].get("reply_markup"@), "inline_keyboard"@),
            );
            let routes = sent.callback_routes;
            &&& rows matches Some(rows) && rows.len() == 2
            &&& rows->0[0].items() matches Some(first) && first.len() == 2
                && shows_route(first[0], "✅ Allow once"@, routes[0]) && shows_route(
                first[1],
                "🔓 Allow session"@,
                routes[1],
            )
            &&& rows->0[1].items() matches Some(second) && second.len() == 1 && shows_route(
                second[0],
                "🛑 Deny"@,
                routes[2],
            )
            &&& routes.len() == 3
            &&& routes[0].action is Approve
            &&& routes[1].action is ApproveForSession
            &&& routes[2].action is Deny
            &&& forall|i: int|
                0 <= i < 3 ==> (#[trigger] routes[i]).approval_key == Some(key)
                    && routes[i].thread_id == thread_id && routes[i].chat_id == chat_id
                    && routes[i].answer is None && routes[i].question_id is None
        }),
{
    broadcast use values::added_members_are_found;
    broadcast use values::no_members_are_found;

    names::names_differ();
    delivery::an_event_is_delivered_whole(chat_id, event, true);
}

/// The button has the label, and tapping it sends back the identifier of the binding.
pub open spec fn shows_route(
    shown: JsonView,
    label: Seq<char>,
    route: types::CallbackRouteView,
) -> bool {
    &&& json::text_at(shown.get("text"@)) == Some(label)
    &&& json::text_at(shown.get("callback_data"@)) == Some("codex:"@ + route.callback_id)
}

/// The detail that is shown of an event is the question that Codex waits on, where the event has no
/// summary of an approval, and that question is in what is sent.
pub proof fn pending_questions_reach_the_chat(
    chat_id: &str,
    event: &Json,
    event_id: String,
    thread_id: Option<String>,
    question: Seq<char>,
    detail: Option<String>,
    prepared: PreparedTelegramDelivery,
)
    requires
        call_ensures(delivery::telegram_event_detail, (event,), detail),
        call_ensures(
            delivery::prepare_telegram_delivery,
            (chat_id, event, event_id, thread_id),
            prepared,
        ),
        event@.get("questionRequest"@) is None,
        json::text_at(json::at(event@.get("approvalRequest"@), "summary"@)) is None,
        json::text_at(json::at(json::at(event@.get("thread"@), "pendingPrompt"@), "question"@))
            == Some(question),
        !text::blank(question),
    ensures
        detail matches Some(shown) && shown@ == render::sanitized(question),
        text::occurs_in(
            render::sanitized(question),
            render::concatenation(message_texts(prepared@.payloads)),
        ),
{
    a_pending_question_is_delivered(
        chat_id@,
        event@,
        event_id@,
        json::opt_string(thread_id),
        question,
    );
}

/// An event of another type, or of none, is announced as an update.
pub proof fn other_events_are_announced_as_updates(event_type: Seq<char>, event: JsonView)
    requires
        json::text_at(json::at(event.get("approvalRequest"@), "approvalKey"@)) is None,
        json::text_at(event.get("promptKind"@)) != Some("approval"@),
        json::text_at(json::at(json::at(event.get("thread"@), "pendingPrompt"@), "promptKind"@))
            != Some("approval"@),
        json::text_at(json::at(json::at(event.get("thread"@), "pendingPrompt"@), "kind"@)) != Some(
            "approval"@,
        ),
    ensures
        event_type != "thread_waiting"@ && event_type != "thread_completed"@ && event_type
            != "thread_status_changed"@ ==> delivery::event_title(event_type, event)
            == "🧵 Codex update"@,
        json::text_at(event.get("type"@)) is None ==> delivery::event_title(
            delivery::event_type_of(event),
            event,
        ) == "🧵 Codex update"@,
{
    reveal_strlit("thread_waiting");
    reveal_strlit("thread_completed");
    reveal_strlit("thread_status_changed");
    reveal_strlit("codex_event");
    assert("thread_waiting"@.len() == 14);
    assert("thread_completed"@.len() == 16);
    assert("thread_status_changed"@.len() == 21);
    assert("codex_event"@.len() == 11);
}

} // verus!
