//! Codex events as Telegram messages with buttons, and what those buttons are bound to.

use vstd::prelude::*;

use crate::json;
use crate::json::push_json;
use crate::json::Fields;
use crate::json::Json;
use crate::json::JsonView;
use crate::number;
use crate::number::to_decimal;
use crate::render;
use crate::render::option_button_text;
use crate::render::option_marker;
use crate::render::sanitize_telegram_detail;
use crate::render::split_telegram_text;
use crate::render::telegram_callback_id;
use crate::render::telegram_question_callback_id;
use crate::render::trim_for_telegram_detail;
use crate::render::trim_for_telegram_line;
use crate::render::truncate_to_char_limit;
use crate::render::TELEGRAM_MESSAGE_CHAR_LIMIT;
use crate::render::TELEGRAM_THREAD_SNAPSHOT_DETAIL_LIMIT;
use crate::text;
use crate::text::append_texts;
use crate::text::cat2;
use crate::text::cat3;
use crate::text::cat5;
use crate::text::is_blank;
use crate::text::is_text;
use crate::text::join;
use crate::text::no_texts;
use crate::text::push_text;
use crate::text::same_text;
use crate::text::trim;
use crate::types;
use crate::types::push_route;
use crate::types::BridgeThreadSnapshot;
use crate::types::CallbackRouteView;
use crate::types::PendingPrompt;
use crate::types::TelegramCallbackAction;
use crate::types::TelegramCallbackRoute;

verus! {

// ---------------------------------------------------------------------------------------------
// What an event says
// ---------------------------------------------------------------------------------------------

/// The event asks for the approval of one request of the app server.
pub open spec fn is_native_approval(event: JsonView) -> bool {
    json::text_at(json::at(event.get("approvalRequest"@), "approvalKey"@)) is Some
}

/// The event asks for an approval.
pub open spec fn is_approval(event: JsonView) -> bool {
    let prompt = json::at(event.get("thread"@), "pendingPrompt"@);
    ||| is_native_approval(event)
    ||| json::text_at(event.get("promptKind"@)) == Some("approval"@)
    ||| json::text_at(json::at(prompt, "promptKind"@)) == Some("approval"@)
    ||| json::text_at(json::at(prompt, "kind"@)) == Some("approval"@)
}

/// Whether the event asks for the approval of one request of the app server.
pub fn telegram_event_is_native_approval(event: &Json) -> (yes: bool)
    ensures
        yes == is_native_approval(event@),
{
    event.str_at2("approvalRequest", "approvalKey").is_some()
}

/// Whether the event asks for an approval.
pub fn telegram_event_is_approval(event: &Json) -> (yes: bool)
    ensures
        yes == is_approval(event@),
{
    telegram_event_is_native_approval(event) || is_text(event.str_at("promptKind"), "approval")
        || is_text(event.str_at3("thread", "pendingPrompt", "promptKind"), "approval") || is_text(
        event.str_at3("thread", "pendingPrompt", "kind"),
        "approval",
    )
}

/// The first line of an event's message.
pub open spec fn event_title(event_type: Seq<char>, event: JsonView) -> Seq<char> {
    if is_approval(event) {
        "🔐 Codex needs approval"@
    } else if event_type == "thread_waiting"@ {
        "🟡 Codex needs you"@
    } else if event_type == "thread_completed"@ {
        "✅ Codex finished"@
    } else if event_type == "thread_status_changed"@ {
        "🔄 Codex changed"@
    } else {
        "🧵 Codex update"@
    }
}

/// The first line of an event's message.
pub fn telegram_event_title(event_type: &str, event: &Json) -> (out: &'static str)
    ensures
        out@ == event_title(event_type@, event@),
{
    if telegram_event_is_approval(event) {
        "🔐 Codex needs approval"
    } else if same_text(event_type, "thread_waiting") {
        "🟡 Codex needs you"
    } else if same_text(event_type, "thread_completed") {
        "✅ Codex finished"
    } else if same_text(event_type, "thread_status_changed") {
        "🔄 Codex changed"
    } else {
        "🧵 Codex update"
    }
}

/// How the user can react to an event.
pub open spec fn event_reply_hint(event_type: Seq<char>, event: JsonView) -> Seq<char> {
    if is_native_approval(event) {
        "Choose one option below. The button is bound to this exact Codex request."@
    } else if is_approval(event) {
        "Open the active Codex client to answer this approval."@
    } else if event_type == "thread_waiting"@ {
        "💬 To answer Codex, use Telegram's Reply action on this message."@
    } else {
        "💬 To continue this thread, use Telegram's Reply action on this message."@
    }
}

/// How the user can react to an event.
pub fn telegram_event_reply_hint(event_type: &str, event: &Json) -> (out: &'static str)
    ensures
        out@ == event_reply_hint(event_type@, event@),
{
    if telegram_event_is_native_approval(event) {
        "Choose one option below. The button is bound to this exact Codex request."
    } else if telegram_event_is_approval(event) {
        "Open the active Codex client to answer this approval."
    } else if same_text(event_type, "thread_waiting") {
        "💬 To answer Codex, use Telegram's Reply action on this message."
    } else {
        "💬 To continue this thread, use Telegram's Reply action on this message."
    }
}

/// The name of the event's thread.
pub open spec fn event_display_name(event: JsonView) -> Seq<char> {
    let shown = json::text_at(json::at(event.get("thread"@), "displayName"@));
    let name = json::text_at(json::at(event.get("thread"@), "name"@));
    let id = json::text_at(event.get("threadId"@));
    match json::first_of(shown, json::first_of(name, id)) {
        Some(s) => s,
        None => "Codex thread"@,
    }
}

/// The name of the event's thread.
pub fn telegram_event_display_name(event: &Json) -> (out: String)
    ensures
        out@ == event_display_name(event@),
{
    match event.str_at2("thread", "displayName") {
        Some(s) => s.to_owned(),
        None => match event.str_at2("thread", "name") {
            Some(s) => s.to_owned(),
            None => match event.str_at("threadId") {
                Some(s) => s.to_owned(),
                None => "Codex thread".to_owned(),
            },
        },
    }
}

/// The first of the texts that can stand for an event.
pub open spec fn event_detail_source(event: JsonView) -> Option<Seq<char>> {
    let thread = event.get("thread"@);
    let summary = json::text_at(json::at(event.get("approvalRequest"@), "summary"@));
    let question = json::text_at(json::at(json::at(thread, "pendingPrompt"@), "question"@));
    let preview = json::text_at(json::at(thread, "lastPreview"@));
    let own = json::text_at(event.get("lastPreview"@));
    json::first_of(summary, json::first_of(question, json::first_of(preview, own)))
}

/// The body of an event's message, unless it is blank.
pub open spec fn event_detail(event: JsonView) -> Option<Seq<char>> {
    match event_detail_source(event) {
        Some(s) => if text::blank(s) {
            None
        } else {
            Some(render::sanitized(s))
        },
        None => None,
    }
}

/// The body of an event's message.
pub fn telegram_event_detail(event: &Json) -> (out: Option<String>)
    ensures
        json::opt_string(out) == event_detail(event@),
{
    let source = match event.str_at2("approvalRequest", "summary") {
        Some(s) => Some(s),
        None => match event.str_at3("thread", "pendingPrompt", "question") {
            Some(s) => Some(s),
            None => match event.str_at2("thread", "lastPreview") {
                Some(s) => Some(s),
                None => event.str_at("lastPreview"),
            },
        },
    };
    assert(json::opt_text(source) == event_detail_source(event@));
    match source {
        Some(s) => if is_blank(s) {
            None
        } else {
            Some(sanitize_telegram_detail(s))
        },
        None => None,
    }
}

// ---------------------------------------------------------------------------------------------
// Messages
// ---------------------------------------------------------------------------------------------

/// The members of a message without buttons.
pub open spec fn message_members(chat_id: Seq<char>, body: Seq<char>) -> json::Members {
    json::members().text("chat_id"@, chat_id).text("text"@, body).flag(
        "disable_web_page_preview"@,
        true,
    )
}

/// A message with a keyboard.
pub open spec fn message_with_keyboard(
    chat_id: Seq<char>,
    body: Seq<char>,
    rows: Seq<JsonView>,
) -> JsonView {
    message_members(chat_id, body).with(
        "reply_markup"@,
        json::members().with("inline_keyboard"@, JsonView::Array(rows)).object(),
    ).object()
}

/// A button.
pub open spec fn button(label: Seq<char>, data: Seq<char>) -> JsonView {
    json::members().text("text"@, label).text("callback_data"@, data).object()
}

fn message_fields(chat_id: &str, body: &str) -> (out: Fields)
    ensures
        out@ == message_members(chat_id@, body@),
{
    Fields::new().text("chat_id", chat_id).text("text", body).flag("disable_web_page_preview", true)
}

/// A message without buttons.
pub fn message_payload(chat_id: &str, body: &str) -> (out: Json)
    ensures
        out@ == message_members(chat_id@, body@).object(),
{
    message_fields(chat_id, body).object()
}

fn keyboard_payload(chat_id: &str, body: &str, rows: Vec<Json>) -> (out: Json)
    ensures
        out@ == message_with_keyboard(chat_id@, body@, json::views(rows@)),
{
    let markup = Fields::new().with("inline_keyboard", Json::array(rows)).object();
    message_fields(chat_id, body).with("reply_markup", markup).object()
}

fn button_json(label: &str, callback_id: &str) -> (out: Json)
    ensures
        out@ == button(label@, "codex:"@ + callback_id@),
{
    let data = cat2("codex:", callback_id);
    Fields::new().text("text", label).text("callback_data", data.as_str()).object()
}

/// Messages to send, and what their buttons are bound to.
#[derive(Debug, PartialEq, Eq)]
pub struct PreparedTelegramDelivery {
    pub payloads: Vec<Json>,
    pub thread_id: Option<String>,
    pub event_id: String,
    pub callback_routes: Vec<TelegramCallbackRoute>,
}

/// What a delivery holds.
#[verifier::ext_equal]
pub struct PreparedView {
    pub payloads: Seq<JsonView>,
    pub thread_id: Option<Seq<char>>,
    pub event_id: Seq<char>,
    pub callback_routes: Seq<CallbackRouteView>,
}

impl View for PreparedTelegramDelivery {
    type V = PreparedView;

    open spec fn view(&self) -> PreparedView {
        PreparedView {
            payloads: json::views(self.payloads@),
            thread_id: json::opt_string(self.thread_id),
            event_id: self.event_id@,
            callback_routes: types::route_views(self.callback_routes@),
        }
    }
}

// ---------------------------------------------------------------------------------------------
// Questions
// ---------------------------------------------------------------------------------------------

/// A trimmed text of a question, empty where it is missing.
pub open spec fn question_field(question: JsonView, field: Seq<char>) -> Seq<char> {
    match json::text_at(question.get(field)) {
        Some(s) => text::trimmed(s),
        None => Seq::empty(),
    }
}

/// A number of a question, 1 where it is missing.
pub open spec fn question_number(question: JsonView, field: Seq<char>) -> int {
    match json::unsigned_at(question.get(field)) {
        Some(n) => n,
        None => 1,
    }
}

/// A flag of a question, off where it is missing.
pub open spec fn question_flag(question: JsonView, field: Seq<char>) -> bool {
    json::truth_at(question.get(field)) == Some(true)
}

/// The label and the description of an option, both trimmed.
pub open spec fn option_entry(option: JsonView) -> Option<(Seq<char>, Seq<char>)> {
    match json::text_at(option.get("label"@)) {
        Some(label) => Some((text::trimmed(label), question_field(option, "description"@))),
        None => None,
    }
}

/// The options that have a label.
pub open spec fn labelled(options: Seq<JsonView>) -> Seq<(Seq<char>, Seq<char>)>
    decreases options.len(),
{
    if options.len() == 0 {
        Seq::empty()
    } else {
        match option_entry(options.last()) {
            Some(entry) => labelled(options.drop_last()).push(entry),
            None => labelled(options.drop_last()),
        }
    }
}

/// The options of a question.
pub open spec fn question_options(question: JsonView) -> Seq<(Seq<char>, Seq<char>)> {
    match json::items_at(question.get("options"@)) {
        Some(items) => labelled(items),
        None => Seq::empty(),
    }
}

/// A question takes an answer in the user's own words.
pub open spec fn question_accepts_free_text(question: JsonView) -> bool {
    question_flag(question, "isOther"@) || question_options(question).len() == 0
}

/// An option of a question.
pub struct QuestionOption {
    pub label: String,
    pub description: String,
}

/// What the options of a list hold.
pub open spec fn option_views(list: Seq<QuestionOption>) -> Seq<(Seq<char>, Seq<char>)> {
    Seq::new(list.len(), |i: int| (list[i].label@, list[i].description@))
}

fn read_question_field<'a>(question: &'a Json, field: &str) -> (out: &'a str)
    ensures
        out@ == question_field(question@, field@),
{
    match question.str_at(field) {
        Some(s) => trim(s),
        None => {
            proof {
                reveal_strlit("");
            }
            assert(""@ =~= Seq::<char>::empty());
            ""
        },
    }
}

fn read_question_number(question: &Json, field: &str) -> (out: u64)
    ensures
        out == question_number(question@, field@),
{
    match question.u64_at(field) {
        Some(n) => n,
        None => 1,
    }
}

fn read_question_flag(question: &Json, field: &str) -> (out: bool)
    ensures
        out == question_flag(question@, field@),
{
    match question.bool_at(field) {
        Some(b) => b,
        None => false,
    }
}

fn read_question_options(question: &Json) -> (out: Vec<QuestionOption>)
    ensures
        option_views(out@) == question_options(question@),
{
    let mut out: Vec<QuestionOption> = Vec::new();
    assert(option_views(out@) =~= Seq::<(Seq<char>, Seq<char>)>::empty());
    let items = match question.get("options") {
        Some(v) => match v.as_array() {
            Some(items) => items,
            None => {
                return out;
            },
        },
        None => {
            return out;
        },
    };
    let ghost all = json::views(items@);
    let mut i: usize = 0;
    assert(all.take(0) =~= Seq::<JsonView>::empty());
    while i < items.len()
        invariant
            all == json::views(items@),
            i <= items@.len(),
            option_views(out@) == labelled(all.take(i as int)),
        decreases items@.len() - i,
    {
        let ghost before = option_views(out@);
        assert(all.take(i + 1).drop_last() =~= all.take(i as int));
        assert(all.take(i + 1).last() == items@[i as int]@);
        if let Some(label) = items[i].str_at("label") {
            let entry = QuestionOption {
                label: trim(label).to_owned(),
                description: read_question_field(&items[i], "description").to_owned(),
            };
            out.push(entry);
            assert(option_views(out@) =~= before.push((entry.label@, entry.description@)));
        }
        i = i + 1;
    }
    assert(all.take(i as int) =~= all);
    out
}

/// The first line of a question's message.
pub open spec fn question_title(question: JsonView) -> Seq<char> {
    let total = question_number(question, "total"@);
    if total > 1 {
        "❓ Codex has a question ("@ + number::decimal(
            question_number(question, "index"@) as nat,
        ) + "/"@ + number::decimal(total as nat) + ")"@
    } else {
        "❓ Codex has a question"@
    }
}

/// The lines with the name of the event's thread and, where it has one, its project.
pub open spec fn with_thread_lines(title: Seq<char>, event: JsonView) -> Seq<Seq<char>> {
    let lines = seq![title, "🧵 "@ + event_display_name(event)];
    match json::text_at(json::at(event.get("thread"@), "project"@)) {
        Some(project) => lines.push("📁 "@ + project),
        None => lines,
    }
}

/// What stands above the question.
pub open spec fn question_head(event: JsonView, question: JsonView) -> Seq<Seq<char>> {
    let lines = with_thread_lines(question_title(question), event).push(Seq::empty());
    let header = question_field(question, "header"@);
    if header.len() > 0 {
        lines.push("【"@ + header + "】"@)
    } else {
        lines
    }
}

/// The option says more than its label.
pub open spec fn is_described(option: (Seq<char>, Seq<char>)) -> bool {
    option.1.len() > 0 && option.1 != option.0
}

/// The line of an option in the message body.
pub open spec fn option_body_line(position: int, option: (Seq<char>, Seq<char>)) -> Seq<char> {
    if is_described(option) {
        render::option_marker_text(position) + " "@ + option.0 + " — "@ + option.1
    } else {
        render::option_marker_text(position) + " "@ + option.0
    }
}

/// The list of the options, where one of them says more than its label.
pub open spec fn option_list(options: Seq<(Seq<char>, Seq<char>)>) -> Seq<Seq<char>> {
    if exists|i: int| 0 <= i < options.len() && is_described(#[trigger] options[i]) {
        seq![Seq::<char>::empty()] + Seq::new(
            options.len(),
            |i: int| option_body_line(i, options[i]),
        )
    } else {
        Seq::empty()
    }
}

/// What stands below the question.
pub open spec fn question_tail(question: JsonView) -> Seq<Seq<char>> {
    let total = question_number(question, "total"@);
    let how = if question_options(question).len() == 0 {
        "💬 Use Telegram's Reply on this message to type your answer."@
    } else if question_accepts_free_text(question) {
        "Tap an option, or use Telegram's Reply on this message to type your own answer."@
    } else {
        "Tap one option below."@
    };
    let lines = seq![Seq::<char>::empty(), how];
    let lines = if question_flag(question, "isSecret"@) {
        lines.push(
            "🔒 Codex marked this answer as secret: your reply is deleted from this chat once Codex has it."@,
        )
    } else {
        lines
    };
    if total > 1 {
        lines.push(
            "Codex gets the answers once all "@ + number::decimal(total as nat)
                + " questions are answered or skipped."@,
        )
    } else {
        lines
    }
}

/// A question's message with the given question text and option list.
pub open spec fn composed(
    event: JsonView,
    question: JsonView,
    asked: Seq<char>,
    list: Seq<Seq<char>>,
) -> Seq<char> {
    text::joined(
        question_head(event, question).push(asked) + list + question_tail(question),
        "\n"@,
    )
}

/// The text of a question's message. Where it is too long, the list of the options goes first (the
/// buttons still show the labels), and the question is cut to what room there is left.
pub open spec fn question_body(event: JsonView, question: JsonView) -> Seq<char> {
    let asked = question_field(question, "question"@);
    let whole = composed(event, question, asked, option_list(question_options(question)));
    let taken = composed(event, question, Seq::empty(), Seq::empty()).len();
    let room: int = if taken <= 4096 {
        4096 - taken
    } else {
        0
    };
    if whole.len() <= 4096 {
        whole
    } else {
        render::truncated(
            composed(event, question, render::truncated(asked, room), Seq::empty()),
            4096,
        )
    }
}

/// The binding of a question button.
pub open spec fn question_route(
    chat_id: Seq<char>,
    thread_id: Seq<char>,
    event_id: Seq<char>,
    question_key: Seq<char>,
    question_id: Seq<char>,
    action: TelegramCallbackAction,
    position: int,
    answer: Option<Seq<char>>,
) -> CallbackRouteView {
    CallbackRouteView {
        callback_id: render::callback_id_of(render::question_name(event_id, action, position)),
        chat_id,
        message_id: None,
        thread_id,
        action,
        approval_key: Some(question_key),
        question_id: Some(question_id),
        answer,
    }
}

/// The bindings of a question's buttons: one for each option, and one to skip the question.
pub open spec fn question_routes(
    chat_id: Seq<char>,
    thread_id: Seq<char>,
    event_id: Seq<char>,
    question_key: Seq<char>,
    question_id: Seq<char>,
    options: Seq<(Seq<char>, Seq<char>)>,
) -> Seq<CallbackRouteView> {
    Seq::new(
        options.len(),
        |i: int|
            question_route(
                chat_id,
                thread_id,
                event_id,
                question_key,
                question_id,
                TelegramCallbackAction::AnswerOption,
                i,
                Some(options[i].0),
            ),
    ).push(
        question_route(
            chat_id,
            thread_id,
            event_id,
            question_key,
            question_id,
            TelegramCallbackAction::SkipQuestion,
            0,
            None,
        ),
    )
}

/// The keyboard of a question: a row with one button for each option, and one to skip the
/// question.
pub open spec fn question_rows(
    event_id: Seq<char>,
    options: Seq<(Seq<char>, Seq<char>)>,
) -> Seq<JsonView> {
    Seq::new(
        options.len(),
        |i: int|
            JsonView::Array(
                seq![
                    button(
                        render::option_button(i, options[i].0),
                        render::callback_data_of(
                            render::question_name(
                                event_id,
                                TelegramCallbackAction::AnswerOption,
                                i,
                            ),
                        ),
                    ),
                ],
            ),
    ).push(
        JsonView::Array(
            seq![
                button(
                    "⏭ Skip"@,
                    render::callback_data_of(
                        render::question_name(event_id, TelegramCallbackAction::SkipQuestion, 0),
                    ),
                ),
            ],
        ),
    )
}

/// The delivery of a question: one message, with buttons where the question can be answered by
/// them.
pub open spec fn question_delivery(
    chat_id: Seq<char>,
    event: JsonView,
    question: JsonView,
    event_id: Seq<char>,
    thread_id: Option<Seq<char>>,
) -> PreparedView {
    let key = json::text_at(question.get("questionKey"@));
    let id = json::text_at(question.get("questionId"@));
    let options = question_options(question);
    let body = question_body(event, question);
    if key is Some && id is Some && thread_id is Some {
        PreparedView {
            payloads: seq![
                message_with_keyboard(chat_id, body, question_rows(event_id, options)),
            ],
            thread_id,
            event_id,
            callback_routes: question_routes(
                chat_id,
                thread_id->0,
                event_id,
                key->0,
                id->0,
                options,
            ),
        }
    } else {
        PreparedView {
            payloads: seq![message_members(chat_id, body).object()],
            thread_id,
            event_id,
            callback_routes: Seq::empty(),
        }
    }
}

fn thread_lines(title: &str, event: &Json) -> (out: Vec<String>)
    ensures
        text::texts(out@) == with_thread_lines(title@, event@),
{
    let mut lines = no_texts();
    push_text(&mut lines, title.to_owned());
    let name = telegram_event_display_name(event);
    push_text(&mut lines, cat2("🧵 ", name.as_str()));
    if let Some(project) = event.str_at2("thread", "project") {
        push_text(&mut lines, cat2("📁 ", project));
    }
    lines
}

fn question_head_lines(event: &Json, question: &Json) -> (out: Vec<String>)
    ensures
        text::texts(out@) == question_head(event@, question@),
{
    let total = read_question_number(question, "total");
    let title = if total > 1 {
        let index = to_decimal(read_question_number(question, "index") as u128);
        let all = to_decimal(total as u128);
        cat5("❓ Codex has a question (", index.as_str(), "/", all.as_str(), ")")
    } else {
        "❓ Codex has a question".to_owned()
    };
    let mut lines = thread_lines(title.as_str(), event);
    push_text(&mut lines, String::new());
    let header = read_question_field(question, "header");
    if header.unicode_len() > 0 {
        push_text(&mut lines, cat3("【", header, "】"));
    }
    lines
}

fn option_list_lines(options: &Vec<QuestionOption>) -> (out: Vec<String>)
    ensures
        text::texts(out@) == option_list(option_views(options@)),
{
    let ghost all = option_views(options@);
    let mut described = false;
    let mut i: usize = 0;
    while i < options.len()
        invariant
            all == option_views(options@),
            i <= options@.len(),
            described == exists|k: int| 0 <= k < i && is_described(#[trigger] all[k]),
        decreases options@.len() - i,
    {
        let description = options[i].description.as_str();
        let differs = !same_text(description, options[i].label.as_str());
        if description.unicode_len() > 0 && differs {
            assert(is_described(all[i as int]));
            described = true;
        }
        i = i + 1;
    }
    let mut lines = no_texts();
    if !described {
        return lines;
    }
    push_text(&mut lines, String::new());
    let ghost wanted = Seq::new(all.len(), |k: int| option_body_line(k, all[k]));
    assert(text::texts(lines@) =~= seq![Seq::<char>::empty()] + wanted.take(0));
    let mut position: usize = 0;
    while position < options.len()
        invariant
            all == option_views(options@),
            wanted == Seq::new(all.len(), |k: int| option_body_line(k, all[k])),
            position <= options@.len(),
            text::texts(lines@) == seq![Seq::<char>::empty()] + wanted.take(position as int),
        decreases options@.len() - position,
    {
        let marker = option_marker(position);
        let label = options[position].label.as_str();
        let description = options[position].description.as_str();
        let ghost before = text::texts(lines@);
        let line = if description.unicode_len() == 0 || same_text(description, label) {
            cat3(marker.as_str(), " ", label)
        } else {
            cat5(marker.as_str(), " ", label, " — ", description)
        };
        assert(line@ == wanted[position as int]);
        push_text(&mut lines, line);
        position = position + 1;
        assert(text::texts(lines@) =~= seq![Seq::<char>::empty()] + wanted.take(position as int));
    }
    assert(wanted.take(position as int) =~= wanted);
    lines
}

fn question_tail_lines(question: &Json, no_options: bool) -> (out: Vec<String>)
    requires
        no_options == (question_options(question@).len() == 0),
    ensures
        text::texts(out@) == question_tail(question@),
{
    let total = read_question_number(question, "total");
    let how = if no_options {
        "💬 Use Telegram's Reply on this message to type your answer."
    } else if read_question_flag(question, "isOther") {
        "Tap an option, or use Telegram's Reply on this message to type your own answer."
    } else {
        "Tap one option below."
    };
    let mut lines = no_texts();
    push_text(&mut lines, String::new());
    push_text(&mut lines, how.to_owned());
    if read_question_flag(question, "isSecret") {
        push_text(
            &mut lines,
            "🔒 Codex marked this answer as secret: your reply is deleted from this chat once Codex has it.".to_owned(),
        );
    }
    if total > 1 {
        let all = to_decimal(total as u128);
        push_text(
            &mut lines,
            cat3(
                "Codex gets the answers once all ",
                all.as_str(),
                " questions are answered or skipped.",
            ),
        );
    }
    lines
}

fn compose(
    head: &Vec<String>,
    asked: &str,
    list: &Vec<String>,
    tail: &Vec<String>,
) -> (out: String)
    ensures
        out@ == text::joined(
            text::texts(head@).push(asked@) + text::texts(list@) + text::texts(tail@),
            "\n"@,
        ),
{
    let mut all = no_texts();
    append_texts(&mut all, head);
    assert(text::texts(all@) =~= text::texts(head@));
    push_text(&mut all, asked.to_owned());
    append_texts(&mut all, list);
    append_texts(&mut all, tail);
    join(&all, "\n")
}

fn compose_question(
    event: &Json,
    question: &Json,
    options: &Vec<QuestionOption>,
) -> (out: String)
    requires
        option_views(options@) == question_options(question@),
    ensures
        out@ == question_body(event@, question@),
{
    let head = question_head_lines(event, question);
    let list = option_list_lines(options);
    let tail = question_tail_lines(question, options.len() == 0);
    let asked = read_question_field(question, "question");
    let whole = compose(&head, asked, &list, &tail);
    if whole.as_str().unicode_len() <= TELEGRAM_MESSAGE_CHAR_LIMIT {
        return whole;
    }
    let no_list = no_texts();
    proof {
        reveal_strlit("");
    }
    assert(""@ =~= Seq::<char>::empty());
    let bare = compose(&head, "", &no_list, &tail);
    let taken = bare.as_str().unicode_len();
    let room: usize = if taken <= TELEGRAM_MESSAGE_CHAR_LIMIT {
        TELEGRAM_MESSAGE_CHAR_LIMIT - taken
    } else {
        0
    };
    let cut = truncate_to_char_limit(asked, room);
    let body = compose(&head, cut.as_str(), &no_list, &tail);
    truncate_to_char_limit(body.as_str(), TELEGRAM_MESSAGE_CHAR_LIMIT)
}

fn question_button_route(
    chat_id: &str,
    thread_id: &str,
    event_id: &str,
    question_key: &str,
    question_id: &str,
    action: TelegramCallbackAction,
    position: usize,
    answer: Option<&str>,
) -> (out: TelegramCallbackRoute)
    ensures
        out@ == question_route(
            chat_id@,
            thread_id@,
            event_id@,
            question_key@,
            question_id@,
            action,
            position as int,
            json::opt_text(answer),
        ),
{
    TelegramCallbackRoute {
        callback_id: telegram_question_callback_id(event_id, action, position),
        chat_id: chat_id.to_owned(),
        message_id: None,
        thread_id: thread_id.to_owned(),
        action,
        approval_key: Some(question_key.to_owned()),
        question_id: Some(question_id.to_owned()),
        answer: types::own(answer),
    }
}

/// Prepares a question from the app server: option buttons plus Skip, and a Reply for free-form
/// answers when Codex allows one. A question is always one message: its buttons and Reply routing
/// are bound to a single message.
pub fn prepare_question_delivery(
    chat_id: &str,
    event: &Json,
    question: &Json,
    event_id: String,
    thread_id: Option<String>,
) -> (out: PreparedTelegramDelivery)
    ensures
        out@ == question_delivery(
            chat_id@,
            event@,
            question@,
            event_id@,
            json::opt_string(thread_id),
        ),
{
    let options = read_question_options(question);
    let body = compose_question(event, question, &options);
    let key = question.str_at("questionKey");
    let id = question.str_at("questionId");
    let mut routes: Vec<TelegramCallbackRoute> = Vec::new();
    let mut payloads: Vec<Json> = Vec::new();
    assert(types::route_views(routes@) =~= Seq::<CallbackRouteView>::empty());
    assert(json::views(payloads@) =~= Seq::<JsonView>::empty());
    if key.is_some() && id.is_some() && thread_id.is_some() {
        let key = key.unwrap();
        let id = id.unwrap();
        let thread: &str = match &thread_id {
            Some(t) => t.as_str(),
            None => "",
        };
        let ghost all = option_views(options@);
        let ghost wanted_routes = question_routes(
            chat_id@,
            thread@,
            event_id@,
            key@,
            id@,
            all,
        );
        let ghost wanted_rows = question_rows(event_id@, all);
        let mut rows: Vec<Json> = Vec::new();
        let mut position: usize = 0;
        assert(json::views(rows@) =~= wanted_rows.take(0));
        assert(types::route_views(routes@) =~= wanted_routes.take(0));
        while position < options.len()
            invariant
                all == option_views(options@),
                wanted_routes == question_routes(chat_id@, thread@, event_id@, key@, id@, all),
                wanted_rows == question_rows(event_id@, all),
                position <= options@.len(),
                json::views(rows@) == wanted_rows.take(position as int),
                types::route_views(routes@) == wanted_routes.take(position as int),
            decreases options@.len() - position,
        {
            let label = options[position].label.as_str();
            let route = question_button_route(
                chat_id,
                thread,
                event_id.as_str(),
                key,
                id,
                TelegramCallbackAction::AnswerOption,
                position,
                Some(label),
            );
            let shown = option_button_text(position, label);
            let row = Json::array1(button_json(shown.as_str(), route.callback_id.as_str()));
            assert(route@ == wanted_routes[position as int]);
            assert(row@ == wanted_rows[position as int]);
            push_json(&mut rows, row);
            push_route(&mut routes, route);
            position = position + 1;
            assert(json::views(rows@) =~= wanted_rows.take(position as int));
            assert(types::route_views(routes@) =~= wanted_routes.take(position as int));
        }
        let skip = question_button_route(
            chat_id,
            thread,
            event_id.as_str(),
            key,
            id,
            TelegramCallbackAction::SkipQuestion,
            0,
            None,
        );
        let row = Json::array1(button_json("⏭ Skip", skip.callback_id.as_str()));
        push_json(&mut rows, row);
        push_route(&mut routes, skip);
        assert(json::views(rows@) =~= wanted_rows);
        assert(types::route_views(routes@) =~= wanted_routes);
        push_json(&mut payloads, keyboard_payload(chat_id, body.as_str(), rows));
    } else {
        push_json(&mut payloads, message_payload(chat_id, body.as_str()));
    }
    PreparedTelegramDelivery { payloads, thread_id, event_id, callback_routes: routes }
}

/// The text of a question's message fits Telegram's limit, whatever the question holds.
pub proof fn a_question_fits_one_message(event: JsonView, question: JsonView)
    ensures
        question_body(event, question).len() <= 4096,
{
    let asked = question_field(question, "question"@);
    let whole = composed(event, question, asked, option_list(question_options(question)));
    if whole.len() > 4096 {
        let taken = composed(event, question, Seq::empty(), Seq::empty()).len();
        let room: int = if taken <= 4096 {
            4096 - taken
        } else {
            0
        };
        render::truncation_respects_the_limit(
            composed(event, question, render::truncated(asked, room), Seq::empty()),
            4096,
        );
    }
}

/// A question is delivered as one message, and that message keeps a button for every option and
/// one to skip the question, each bound to this question and no other, however long the question
/// is.
pub proof fn a_question_keeps_its_buttons(
    chat_id: Seq<char>,
    event: JsonView,
    question: JsonView,
    event_id: Seq<char>,
    thread_id: Seq<char>,
    question_key: Seq<char>,
    question_id: Seq<char>,
)
    requires
        json::text_at(question.get("questionKey"@)) == Some(question_key),
        json::text_at(question.get("questionId"@)) == Some(question_id),
    ensures
        ({
            let sent = question_delivery(chat_id, event, question, event_id, Some(thread_id));
            let options = question_options(question);
            &&& sent.payloads.len() == 1
            &&& sent.payloads[0] == message_with_keyboard(
                chat_id,
                question_body(event, question),
                question_rows(event_id, options),
            )
            &&& question_rows(event_id, options).len() == options.len() + 1
            &&& sent.callback_routes.len() == options.len() + 1
            &&& forall|i: int|
                0 <= i < sent.callback_routes.len() ==> {
                    let route = #[trigger] sent.callback_routes[i];
                    &&& route.approval_key == Some(question_key)
                    &&& route.question_id == Some(question_id)
                    &&& route.thread_id == thread_id
                    &&& route.chat_id == chat_id
                    &&& types::answers_question(route.action)
                    &&& route.answer == if i < options.len() {
                        Some(options[i].0)
                    } else {
                        None
                    }
                }
        }),
{
}

// ---------------------------------------------------------------------------------------------
// Other events
// ---------------------------------------------------------------------------------------------

/// The kind of an event.
pub open spec fn event_type_of(event: JsonView) -> Seq<char> {
    match json::text_at(event.get("type"@)) {
        Some(s) => s,
        None => "codex_event"@,
    }
}

/// The lines of an event's message.
pub open spec fn event_lines(event: JsonView, routed: bool) -> Seq<Seq<char>> {
    let event_type = event_type_of(event);
    let lines = with_thread_lines(event_title(event_type, event), event);
    let lines = match event_detail(event) {
        Some(detail) => lines.push(Seq::empty()).push(detail),
        None => lines,
    };
    if routed {
        lines.push(Seq::empty()).push(event_reply_hint(event_type, event))
    } else {
        lines
    }
}

/// The binding of an approval button.
pub open spec fn approval_route(
    chat_id: Seq<char>,
    thread_id: Seq<char>,
    event_id: Seq<char>,
    approval_key: Seq<char>,
    action: TelegramCallbackAction,
) -> CallbackRouteView {
    CallbackRouteView {
        callback_id: render::callback_id_of(render::approval_name(event_id, action)),
        chat_id,
        message_id: None,
        thread_id,
        action,
        approval_key: Some(approval_key),
        question_id: None,
        answer: None,
    }
}

/// What an approval button shows and sends back.
pub open spec fn approval_button(
    label: Seq<char>,
    event_id: Seq<char>,
    action: TelegramCallbackAction,
) -> JsonView {
    button(label, render::callback_data_of(render::approval_name(event_id, action)))
}

/// The keyboard of an approval.
pub open spec fn approval_rows(event_id: Seq<char>) -> Seq<JsonView> {
    seq![
        JsonView::Array(
            seq![
                approval_button("✅ Allow once"@, event_id, TelegramCallbackAction::Approve),
                approval_button(
                    "🔓 Allow session"@,
                    event_id,
                    TelegramCallbackAction::ApproveForSession,
                ),
            ],
        ),
        JsonView::Array(
            seq![approval_button("🛑 Deny"@, event_id, TelegramCallbackAction::Deny)],
        ),
    ]
}

/// The messages of an event: its text in chunks that fit Telegram's limit.
pub open spec fn event_payloads(chat_id: Seq<char>, event: JsonView, routed: bool) -> Seq<
    JsonView,
> {
    let parts = render::chunks(text::joined(event_lines(event, routed), "\n"@), 4096);
    Seq::new(parts.len(), |i: int| message_members(chat_id, parts[i]).object())
}

/// The delivery of an event. An approval that is bound to a thread has its buttons on the first
/// message.
pub open spec fn event_delivery(
    chat_id: Seq<char>,
    event: JsonView,
    event_id: Seq<char>,
    thread_id: Option<Seq<char>>,
) -> PreparedView {
    let payloads = event_payloads(chat_id, event, thread_id is Some);
    let first = render::chunks(
        text::joined(event_lines(event, thread_id is Some), "\n"@),
        4096,
    )[0];
    let key = json::text_at(json::at(event.get("approvalRequest"@), "approvalKey"@));
    if key is Some && thread_id is Some {
        PreparedView {
            payloads: payloads.update(
                0,
                message_with_keyboard(chat_id, first, approval_rows(event_id)),
            ),
            thread_id,
            event_id,
            callback_routes: seq![
                approval_route(
                    chat_id,
                    thread_id->0,
                    event_id,
                    key->0,
                    TelegramCallbackAction::Approve,
                ),
                approval_route(
                    chat_id,
                    thread_id->0,
                    event_id,
                    key->0,
                    TelegramCallbackAction::ApproveForSession,
                ),
                approval_route(
                    chat_id,
                    thread_id->0,
                    event_id,
                    key->0,
                    TelegramCallbackAction::Deny,
                ),
            ],
        }
    } else {
        PreparedView { payloads, thread_id, event_id, callback_routes: Seq::empty() }
    }
}

/// The delivery of any event.
pub open spec fn delivery_of(
    chat_id: Seq<char>,
    event: JsonView,
    event_id: Seq<char>,
    thread_id: Option<Seq<char>>,
) -> PreparedView {
    match event.get("questionRequest"@) {
        Some(question) => question_delivery(chat_id, event, question, event_id, thread_id),
        None => event_delivery(chat_id, event, event_id, thread_id),
    }
}

fn event_message_lines(event: &Json, routed: bool) -> (out: Vec<String>)
    ensures
        text::texts(out@) == event_lines(event@, routed),
{
    let event_type = match event.str_at("type") {
        Some(s) => s,
        None => "codex_event",
    };
    let title = telegram_event_title(event_type, event);
    let mut lines = thread_lines(title, event);
    if let Some(detail) = telegram_event_detail(event) {
        push_text(&mut lines, String::new());
        push_text(&mut lines, detail);
    }
    if routed {
        push_text(&mut lines, String::new());
        push_text(&mut lines, telegram_event_reply_hint(event_type, event).to_owned());
    }
    lines
}

fn new_approval_route(
    chat_id: &str,
    thread_id: &str,
    event_id: &str,
    approval_key: &str,
    action: TelegramCallbackAction,
) -> (out: TelegramCallbackRoute)
    ensures
        out@ == approval_route(chat_id@, thread_id@, event_id@, approval_key@, action),
{
    TelegramCallbackRoute {
        callback_id: telegram_callback_id(event_id, action),
        chat_id: chat_id.to_owned(),
        message_id: None,
        thread_id: thread_id.to_owned(),
        action,
        approval_key: Some(approval_key.to_owned()),
        question_id: None,
        answer: None,
    }
}

/// Prepares the messages of an event. `event_id` and `thread_id` are the event's identifier and
/// the thread that replies to it go to.
pub fn prepare_telegram_delivery(
    chat_id: &str,
    event: &Json,
    event_id: String,
    thread_id: Option<String>,
) -> (out: PreparedTelegramDelivery)
    ensures
        out@ == delivery_of(chat_id@, event@, event_id@, json::opt_string(thread_id)),
{
    if let Some(question) = event.get("questionRequest") {
        return prepare_question_delivery(chat_id, event, question, event_id, thread_id);
    }
    let lines = event_message_lines(event, thread_id.is_some());
    let body = join(&lines, "\n");
    let parts = split_telegram_text(body.as_str(), TELEGRAM_MESSAGE_CHAR_LIMIT);
    let ghost wanted = event_payloads(chat_id@, event@, thread_id is Some);
    let ghost pieces = text::texts(parts@);
    let mut payloads: Vec<Json> = Vec::new();
    let mut i: usize = 0;
    assert(json::views(payloads@) =~= wanted.take(0));
    while i < parts.len()
        invariant
            pieces == text::texts(parts@),
            wanted.len() == parts@.len(),
            forall|k: int|
                0 <= k < wanted.len() ==> #[trigger] wanted[k] == message_members(
                    chat_id@,
                    pieces[k],
                ).object(),
            i <= parts@.len(),
            json::views(payloads@) == wanted.take(i as int),
        decreases parts@.len() - i,
    {
        push_json(&mut payloads, message_payload(chat_id, parts[i].as_str()));
        assert(wanted[i as int] == message_members(chat_id@, pieces[i as int]).object());
        i = i + 1;
        assert(json::views(payloads@) =~= wanted.take(i as int));
    }
    assert(wanted.take(i as int) =~= wanted);
    let mut routes: Vec<TelegramCallbackRoute> = Vec::new();
    assert(types::route_views(routes@) =~= Seq::<CallbackRouteView>::empty());
    let key = event.str_at2("approvalRequest", "approvalKey");
    if key.is_some() && thread_id.is_some() {
        let key = key.unwrap();
        let thread: &str = match &thread_id {
            Some(t) => t.as_str(),
            None => "",
        };
        let id = event_id.as_str();
        let approve = new_approval_route(
            chat_id,
            thread,
            id,
            key,
            TelegramCallbackAction::Approve,
        );
        let session = new_approval_route(
            chat_id,
            thread,
            id,
            key,
            TelegramCallbackAction::ApproveForSession,
        );
        let deny = new_approval_route(chat_id, thread, id, key, TelegramCallbackAction::Deny);
        let mut rows: Vec<Json> = Vec::new();
        push_json(
            &mut rows,
            Json::array2(
                button_json("✅ Allow once", approve.callback_id.as_str()),
                button_json("🔓 Allow session", session.callback_id.as_str()),
            ),
        );
        push_json(
            &mut rows,
            Json::array1(button_json("🛑 Deny", deny.callback_id.as_str())),
        );
        assert(json::views(rows@) =~= approval_rows(event_id@));
        proof {
            render::splitting_loses_nothing(body@, 4096);
        }
        let first = keyboard_payload(chat_id, parts[0].as_str(), rows);
        payloads.set(0, first);
        assert(json::views(payloads@) =~= wanted.update(0, first@));
        push_route(&mut routes, approve);
        push_route(&mut routes, session);
        push_route(&mut routes, deny);
        assert(types::route_views(routes@) =~= seq![approve@, session@, deny@]);
    }
    PreparedTelegramDelivery { payloads, thread_id, event_id, callback_routes: routes }
}

/// Nothing of an event's text is lost between its messages, each of which fits Telegram's limit.
pub proof fn an_event_is_delivered_whole(chat_id: Seq<char>, event: JsonView, routed: bool)
    ensures
        ({
            let body = text::joined(event_lines(event, routed), "\n"@);
            let parts = render::chunks(body, 4096);
            &&& render::concatenation(parts) == body
            &&& event_payloads(chat_id, event, routed).len() == parts.len() >= 1
            &&& forall|i: int|
                0 <= i < parts.len() ==> #[trigger] event_payloads(chat_id, event, routed)[i]
                    == message_members(chat_id, parts[i]).object() && parts[i].len() <= 4096
        }),
{
    render::splitting_loses_nothing(text::joined(event_lines(event, routed), "\n"@), 4096);
}

// ---------------------------------------------------------------------------------------------
// Thread snapshots
// ---------------------------------------------------------------------------------------------

/// The kind of event that a snapshot is shown as.
pub open spec fn snapshot_event_type(snapshot: BridgeThreadSnapshot) -> Seq<char> {
    if snapshot.pending_prompt is Some {
        "thread_waiting"@
    } else if json::opt_string(snapshot.last_turn_status) == Some("completed"@) {
        "thread_completed"@
    } else {
        "thread_status_changed"@
    }
}

/// The kind of event that a snapshot is shown as.
pub fn thread_snapshot_event_type(snapshot: &BridgeThreadSnapshot) -> (out: &'static str)
    ensures
        out@ == snapshot_event_type(*snapshot),
{
    if snapshot.pending_prompt.is_some() {
        "thread_waiting"
    } else if is_text(types::lend(&snapshot.last_turn_status), "completed") {
        "thread_completed"
    } else {
        "thread_status_changed"
    }
}

/// A detail of a snapshot, cut to size.
pub open spec fn snapshot_detail(value: Option<String>) -> Option<Seq<char>> {
    match value {
        Some(s) => render::trimmed_detail(s@, 3000),
        None => None,
    }
}

fn cut_snapshot_detail(value: &Option<String>) -> (out: Option<String>)
    ensures
        json::opt_string(out) == snapshot_detail(*value),
{
    match value {
        Some(s) => trim_for_telegram_detail(s.as_str(), TELEGRAM_THREAD_SNAPSHOT_DETAIL_LIMIT),
        None => None,
    }
}

/// A pending prompt in an event.
pub open spec fn prompt_value(prompt: PendingPrompt) -> JsonView {
    json::members().text("promptId"@, prompt.prompt_id@).text("promptKind"@, prompt.kind@).text(
        "promptStatus"@,
        prompt.status@,
    ).text("kind"@, prompt.kind@).text("status"@, prompt.status@).with(
        "question"@,
        json::text_or_null(snapshot_detail(prompt.question)),
    ).object()
}

/// A pending prompt in an event.
pub fn pending_prompt_value(prompt: &PendingPrompt) -> (out: Json)
    ensures
        out@ == prompt_value(*prompt),
{
    let question = cut_snapshot_detail(&prompt.question);
    Fields::new().text("promptId", prompt.prompt_id.as_str()).text(
        "promptKind",
        prompt.kind.as_str(),
    ).text("promptStatus", prompt.status.as_str()).text("kind", prompt.kind.as_str()).text(
        "status",
        prompt.status.as_str(),
    ).with("question", Json::opt_string(&question)).object()
}

/// A snapshot as an event. `project` and `display_name` are what the thread's directory and name
/// are shown as.
pub open spec fn snapshot_event(
    snapshot: BridgeThreadSnapshot,
    project: Option<Seq<char>>,
    display_name: Seq<char>,
) -> JsonView {
    let updated_at = json::int_or_null(json::opt_unsigned(snapshot.updated_at));
    let preview = json::text_or_null(snapshot_detail(snapshot.last_preview));
    let prompt = match snapshot.pending_prompt {
        Some(prompt) => prompt_value(prompt),
        None => JsonView::Null,
    };
    let thread = json::members().text("threadId"@, snapshot.thread_id@).with(
        "name"@,
        json::text_or_null(json::opt_string(snapshot.name)),
    ).text("displayName"@, render::trimmed_line(display_name, 160)).with(
        "project"@,
        json::text_or_null(project),
    ).with("cwd"@, json::text_or_null(json::opt_string(snapshot.cwd))).with(
        "updatedAt"@,
        updated_at,
    ).text("statusType"@, snapshot.status_type@).with(
        "statusFlags"@,
        JsonView::Array(json::str_views(text::texts(snapshot.status_flags@))),
    ).with(
        "lastTurnStatus"@,
        json::text_or_null(json::opt_string(snapshot.last_turn_status)),
    ).with("lastPreview"@, preview).with("pendingPrompt"@, prompt).object();
    json::members().text("type"@, snapshot_event_type(snapshot)).text(
        "threadId"@,
        snapshot.thread_id@,
    ).with("updatedAt"@, updated_at).with("lastPreview"@, preview).with("thread"@, thread).object()
}

/// A snapshot as an event.
pub fn thread_snapshot_event(
    snapshot: &BridgeThreadSnapshot,
    project: Option<&str>,
    display_name: &str,
) -> (out: Json)
    ensures
        out@ == snapshot_event(*snapshot, json::opt_text(project), display_name@),
{
    let shown = trim_for_telegram_line(display_name, 160);
    let preview = cut_snapshot_detail(&snapshot.last_preview);
    let prompt = match &snapshot.pending_prompt {
        Some(prompt) => pending_prompt_value(prompt),
        None => Json::Null,
    };
    let thread = Fields::new().text("threadId", snapshot.thread_id.as_str()).with(
        "name",
        Json::opt_string(&snapshot.name),
    ).text("displayName", shown.as_str()).with("project", Json::opt_text(project)).with(
        "cwd",
        Json::opt_string(&snapshot.cwd),
    ).with("updatedAt", Json::opt_u64(snapshot.updated_at)).text(
        "statusType",
        snapshot.status_type.as_str(),
    ).with("statusFlags", Json::texts(&snapshot.status_flags)).with(
        "lastTurnStatus",
        Json::opt_string(&snapshot.last_turn_status),
    ).with("lastPreview", Json::opt_string(&preview)).with("pendingPrompt", prompt).object();
    Fields::new().text("type", thread_snapshot_event_type(snapshot)).text(
        "threadId",
        snapshot.thread_id.as_str(),
    ).with("updatedAt", Json::opt_u64(snapshot.updated_at)).with(
        "lastPreview",
        Json::opt_string(&preview),
    ).with("thread", thread).object()
}

/// Why a snapshot cannot be delivered.
#[derive(Debug, Clone, Copy, PartialEq, Eq, Structural)]
pub enum SnapshotError {
    /// It does not fit one message.
    ExceedsOneMessage,
}

impl SnapshotError {
    /// The error in words.
    pub fn message(&self) -> (out: &'static str)
        ensures
            out@ == "thread snapshot Telegram delivery exceeded one message"@,
    {
        "thread snapshot Telegram delivery exceeded one message"
    }
}

/// Prepares a snapshot as one message. `event_id` and `thread_id` are those of the snapshot's
/// event.
pub fn prepare_telegram_thread_snapshot_delivery(
    chat_id: &str,
    snapshot: &BridgeThreadSnapshot,
    project: Option<&str>,
    display_name: &str,
    event_id: String,
    thread_id: Option<String>,
) -> (out: Result<PreparedTelegramDelivery, SnapshotError>)
    ensures
        ({
            let wanted = delivery_of(
                chat_id@,
                snapshot_event(*snapshot, json::opt_text(project), display_name@),
                event_id@,
                json::opt_string(thread_id),
            );
            match out {
                Ok(prepared) => wanted.payloads.len() == 1 && prepared@ == wanted,
                Err(_) => wanted.payloads.len() != 1,
            }
        }),
{
    let event = thread_snapshot_event(snapshot, project, display_name);
    let prepared = prepare_telegram_delivery(chat_id, &event, event_id, thread_id);
    if prepared.payloads.len() != 1 {
        return Err(SnapshotError::ExceedsOneMessage);
    }
    Ok(prepared)
}

// ---------------------------------------------------------------------------------------------
// Buttons and their bindings
// ---------------------------------------------------------------------------------------------

/// The button shows a label and sends back the identifier of a binding.
pub open spec fn sends_back(shown: JsonView, route: CallbackRouteView) -> bool {
    exists|label: Seq<char>| shown == #[trigger] button(label, "codex:"@ + route.callback_id)
}

/// Every button of a question sends back the identifier of its own binding: the button of an option
/// that of the option, and the last one that of the skip.
pub proof fn question_buttons_match_their_bindings(
    chat_id: Seq<char>,
    thread_id: Seq<char>,
    event_id: Seq<char>,
    question_key: Seq<char>,
    question_id: Seq<char>,
    options: Seq<(Seq<char>, Seq<char>)>,
    i: int,
)
    requires
        0 <= i <= options.len(),
    ensures
        ({
            let route = question_routes(
                chat_id,
                thread_id,
                event_id,
                question_key,
                question_id,
                options,
            )[i];
            let row = question_rows(event_id, options)[i];
            row matches JsonView::Array(shown) && shown.len() == 1 && sends_back(shown[0], route)
        }),
{
    let route = question_routes(
        chat_id,
        thread_id,
        event_id,
        question_key,
        question_id,
        options,
    )[i];
    let label = if i < options.len() {
        render::option_button(i, options[i].0)
    } else {
        "⏭ Skip"@
    };
    let row = question_rows(event_id, options)[i];
    assert(row->Array_0[0] == button(label, "codex:"@ + route.callback_id));
}

/// Every button of an approval sends back the identifier of its own binding: to allow once and to
/// allow for the session on the first row, to deny on the second.
pub proof fn approval_buttons_match_their_bindings(
    chat_id: Seq<char>,
    thread_id: Seq<char>,
    event_id: Seq<char>,
    approval_key: Seq<char>,
)
    ensures
        ({
            let once = approval_route(
                chat_id,
                thread_id,
                event_id,
                approval_key,
                TelegramCallbackAction::Approve,
            );
            let session = approval_route(
                chat_id,
                thread_id,
                event_id,
                approval_key,
                TelegramCallbackAction::ApproveForSession,
            );
            let deny = approval_route(
                chat_id,
                thread_id,
                event_id,
                approval_key,
                TelegramCallbackAction::Deny,
            );
            let rows = approval_rows(event_id);
            &&& rows.len() == 2
            &&& rows[0] matches JsonView::Array(shown) && shown.len() == 2 && sends_back(
                shown[0],
                once,
            ) && sends_back(shown[1], session)
            &&& rows[1] matches JsonView::Array(shown) && shown.len() == 1 && sends_back(
                shown[0],
                deny,
            )
        }),
{
    let approve = TelegramCallbackAction::Approve;
    let session = TelegramCallbackAction::ApproveForSession;
    let deny = TelegramCallbackAction::Deny;
    let rows = approval_rows(event_id);
    assert(rows[0]->Array_0[0] == button(
        "✅ Allow once"@,
        "codex:"@ + approval_route(chat_id, thread_id, event_id, approval_key, approve).callback_id,
    ));
    assert(rows[0]->Array_0[1] == button(
        "🔓 Allow session"@,
        "codex:"@ + approval_route(chat_id, thread_id, event_id, approval_key, session).callback_id,
    ));
    assert(rows[1]->Array_0[0] == button(
        "🛑 Deny"@,
        "codex:"@ + approval_route(chat_id, thread_id, event_id, approval_key, deny).callback_id,
    ));
}

} // verus!
