//! Turns, approvals and new threads: what is asked of Codex, and what is logged and reported of it.

use vstd::prelude::*;

use crate::json;
use crate::json::Fields;
use crate::json::Json;
use crate::json::JsonView;
use crate::questions;
use crate::questions::transport_json;
use crate::questions::AppServerRequest;
use crate::questions::TransportInfo;
use crate::text;
use crate::text::cat2;
use crate::text::cat3;
use crate::text::cat4;
use crate::text::cat5;
use crate::text::contains_text;
use crate::types;
use crate::types::own;
use crate::types::RegisteredProject;
use crate::types::TelegramCallbackAction;

verus! {

// ---------------------------------------------------------------------------------------------
// Starting turns
// ---------------------------------------------------------------------------------------------

/// Asks to resume a thread.
pub fn thread_resume_params(thread_id: &str) -> (out: Json)
    ensures
        out@ == json::members().text("threadId"@, thread_id@).object(),
{
    Fields::new().text("threadId", thread_id).object()
}

/// Asks to start a turn with one input.
pub fn turn_start_params(thread_id: &str, input: Json) -> (out: Json)
    ensures
        out@ == json::members().text("threadId"@, thread_id@).with(
            "input"@,
            JsonView::Array(seq![input@]),
        ).object(),
{
    Fields::new().text("threadId", thread_id).with("input", Json::array1(input)).object()
}

/// The turn that was started.
pub open spec fn started_turn_id(started: JsonView) -> Option<Seq<char>> {
    json::text_at(json::at(started.get("turn"@), "id"@))
}

/// How a turn that was started is followed up: the daemon will see it.
pub open spec fn turn_delivery(started: JsonView) -> JsonView {
    json::members().text("mode"@, "daemon_sync"@).text("status"@, "turn_started"@).with(
        "startedTurnId"@,
        json::text_or_null(started_turn_id(started)),
    ).object()
}

/// How a turn that was started is followed up.
pub fn turn_delivery_json(started: &Json) -> (out: Json)
    ensures
        out@ == turn_delivery(started@),
{
    Fields::new().text("mode", "daemon_sync").text("status", "turn_started").with(
        "startedTurnId",
        Json::opt_text(started.str_at2("turn", "id")),
    ).object()
}

/// What is logged of a reply.
pub fn reply_action_record(message: &str, resumed: &Json, started: &Json, now: u64) -> (out: Json)
    ensures
        out@ == json::members().text("message"@, message@).with("resumed"@, resumed@).with(
            "started"@,
            started@,
        ).with("delivery"@, turn_delivery(started@)).number("sentAt"@, now as int).object(),
{
    Fields::new().text("message", message).with("resumed", resumed.copy()).with(
        "started",
        started.copy(),
    ).with("delivery", turn_delivery_json(started)).number("sentAt", now as i128).object()
}

/// The report of a reply.
pub open spec fn reply_report(
    thread_id: Seq<char>,
    message: Seq<char>,
    transport: TransportInfo,
    started: JsonView,
    now: int,
) -> JsonView {
    json::members().flag("ok"@, true).text("action"@, "telegram_reply"@).text(
        "threadId"@,
        thread_id,
    ).text("message"@, message).with("codex"@, questions::transport_value(transport)).with(
        "delivery"@,
        turn_delivery(started),
    ).number("sentAt"@, now).object()
}

/// The report of a reply.
pub fn reply_report_json(
    thread_id: &str,
    message: &str,
    transport: &TransportInfo,
    started: &Json,
    now: u64,
) -> (out: Json)
    ensures
        out@ == reply_report(thread_id@, message@, *transport, started@, now as int),
{
    Fields::new().flag("ok", true).text("action", "telegram_reply").text(
        "threadId",
        thread_id,
    ).text("message", message).with("codex", transport_json(transport)).with(
        "delivery",
        turn_delivery_json(started),
    ).number("sentAt", now as i128).object()
}

/// The error of a resume says that the thread is gone, and with it what it had pending.
pub open spec fn thread_gone(error: Seq<char>) -> bool {
    ||| text::occurs_in("no rollout found for thread id"@, error)
    ||| text::occurs_in("thread not loaded"@, error)
    ||| text::occurs_in("thread not found"@, error)
}

/// What a failed resume means for a pending request.
#[derive(Debug, Clone, Copy, PartialEq, Eq, Structural)]
pub enum ResumeFailure {
    /// Codex no longer has the request: it expires.
    Expired,
    /// Codex could not be asked; the request stays pending.
    Unavailable,
}

/// What a failed resume means for a pending request.
pub fn resume_failure(error: &str) -> (out: ResumeFailure)
    ensures
        out == if thread_gone(error@) {
            ResumeFailure::Expired
        } else {
            ResumeFailure::Unavailable
        },
{
    if contains_text(error, "no rollout found for thread id") || contains_text(
        error,
        "thread not loaded",
    ) || contains_text(error, "thread not found") {
        ResumeFailure::Expired
    } else {
        ResumeFailure::Unavailable
    }
}

/// The error of a resume says that another Codex session, which is not connected to the bridge, holds
/// the thread.
pub open spec fn thread_busy(error: Seq<char>) -> bool {
    text::occurs_in("already has an active writer"@, error)
}

/// The command that brings a session of a thread to the shared backend.
pub open spec fn resume_command(thread_id: Seq<char>, websocket_url: Seq<char>) -> Seq<char> {
    "codex resume "@ + thread_id + " --remote "@ + websocket_url
}

/// What the sender of a reply is told where another session holds the thread.
pub open spec fn busy_text(thread_id: Seq<char>, websocket_url: Seq<char>) -> Seq<char> {
    "Your reply could not reach this thread: another Codex session that is not connected to the bridge holds it.\n\nClose that session, or continue it over the bridge with:\n"@
        + resume_command(thread_id, websocket_url) + "\n\nThen send your reply again."@
}

/// What the sender of a message that could not be processed is told.
pub open spec fn unprocessed_text(error: Seq<char>) -> Seq<char> {
    "Your message could not be processed: "@ + error
}

/// What the sender of a reply that did not reach its thread is told.
pub open spec fn reply_failure(
    thread_id: Seq<char>,
    websocket_url: Seq<char>,
    error: Seq<char>,
) -> Seq<char> {
    if thread_busy(error) {
        busy_text(thread_id, websocket_url)
    } else {
        unprocessed_text(error)
    }
}

/// What the sender of a message that could not be processed is told.
pub fn failure_text(error: &str) -> (out: String)
    ensures
        out@ == unprocessed_text(error@),
{
    cat2("Your message could not be processed: ", error)
}

/// What the sender of a reply that did not reach its thread is told: where another session holds
/// the thread, how to go on, and otherwise the error.
pub fn reply_failure_text(thread_id: &str, websocket_url: &str, error: &str) -> (out: String)
    ensures
        thread_busy(error@) ==> out@ == busy_text(thread_id@, websocket_url@),
        !thread_busy(error@) ==> out@ == unprocessed_text(error@),
        out@ == reply_failure(thread_id@, websocket_url@, error@),
{
    if contains_text(error, "already has an active writer") {
        let command = cat4("codex resume ", thread_id, " --remote ", websocket_url);
        cat3(
            "Your reply could not reach this thread: another Codex session that is not connected to the bridge holds it.\n\nClose that session, or continue it over the bridge with:\n",
            command.as_str(),
            "\n\nThen send your reply again.",
        )
    } else {
        failure_text(error)
    }
}

/// A reply to a thread that another session holds is answered with the command that brings the
/// session to the backend, and with nothing of the error: any two such errors lead to one text.
pub proof fn busy_threads_are_explained(
    thread_id: Seq<char>,
    websocket_url: Seq<char>,
    error: Seq<char>,
    other: Seq<char>,
)
    requires
        thread_busy(error),
        thread_busy(other),
    ensures
        text::occurs_in(
            resume_command(thread_id, websocket_url),
            reply_failure(thread_id, websocket_url, error),
        ),
        reply_failure(thread_id, websocket_url, error) == reply_failure(
            thread_id,
            websocket_url,
            other,
        ),
{
    let before =
        "Your reply could not reach this thread: another Codex session that is not connected to the bridge holds it.\n\nClose that session, or continue it over the bridge with:\n"@;
    let command = resume_command(thread_id, websocket_url);
    let told = busy_text(thread_id, websocket_url);
    let at = before.len() as int;
    assert(told.subrange(at, at + command.len()) =~= command);
    assert(text::stands_at(told, command, at));
}

// ---------------------------------------------------------------------------------------------
// Answering a pending request
// ---------------------------------------------------------------------------------------------

/// How an attempt to answer a pending request ended. Resuming the thread makes the app server
/// replay its pending requests to the connection, which can then respond.
#[derive(Debug, PartialEq, Eq)]
pub enum ReplayAttempt {
    /// There was no connection.
    NotConnected { error: String },
    /// The thread could not be resumed.
    NotResumed { error: String },
    /// Waiting for the request, or the response itself, failed.
    Interrupted { error: String },
    /// The app server did not replay the request.
    NotReplayed,
    Answered { resumed: Json, transport: TransportInfo },
}

/// What an attempt means for the request.
#[derive(Debug, PartialEq, Eq)]
pub enum SendResult {
    /// Codex could not be asked: the request stays pending.
    Failed { error: String },
    /// Codex no longer has the request.
    Gone,
    /// Codex has the response.
    Taken { resumed: Json, transport: TransportInfo },
}

/// What an attempt means for the request. A thread that cannot be resumed because it is gone took
/// the request with it, and a request that is not replayed is no longer pending.
pub fn send_result(attempt: ReplayAttempt) -> (out: SendResult)
    ensures
        match attempt {
            ReplayAttempt::NotConnected { error } => out == (SendResult::Failed { error }),
            ReplayAttempt::NotResumed { error } => if thread_gone(error@) {
                out == SendResult::Gone
            } else {
                out == (SendResult::Failed { error })
            },
            ReplayAttempt::Interrupted { error } => out == (SendResult::Failed { error }),
            ReplayAttempt::NotReplayed => out == SendResult::Gone,
            ReplayAttempt::Answered { resumed, transport } => out == (SendResult::Taken {
                resumed,
                transport,
            }),
        },
{
    match attempt {
        ReplayAttempt::NotConnected { error } => SendResult::Failed { error },
        ReplayAttempt::NotResumed { error } => match resume_failure(error.as_str()) {
            ResumeFailure::Expired => SendResult::Gone,
            ResumeFailure::Unavailable => SendResult::Failed { error },
        },
        ReplayAttempt::Interrupted { error } => SendResult::Failed { error },
        ReplayAttempt::NotReplayed => SendResult::Gone,
        ReplayAttempt::Answered { resumed, transport } => SendResult::Taken { resumed, transport },
    }
}

/// One thing to store after an attempt. They are stored in order; the first that fails ends them.
#[derive(Debug, PartialEq, Eq)]
pub enum RequestEffect {
    /// The request is no longer pending.
    Expire { approval_key: String },
    /// The answer to a question is stored; `None` skips the question.
    StoreAnswer { question_key: String, question_id: String, answer: Option<String> },
    /// The request was responded to.
    MarkResponded { approval_key: String },
    /// An action on the thread is logged.
    Log { thread_id: String, kind: &'static str, record: Json },
    /// The thread works.
    RegisterTyping { thread_id: String },
}

/// What an effect holds.
pub enum RequestEffectView {
    Expire { approval_key: Seq<char> },
    StoreAnswer {
        question_key: Seq<char>,
        question_id: Seq<char>,
        answer: Option<Seq<char>>,
    },
    MarkResponded { approval_key: Seq<char> },
    Log { thread_id: Seq<char>, kind: Seq<char>, record: JsonView },
    RegisterTyping { thread_id: Seq<char> },
}

impl View for RequestEffect {
    type V = RequestEffectView;

    open spec fn view(&self) -> RequestEffectView {
        match *self {
            RequestEffect::Expire { approval_key } => RequestEffectView::Expire {
                approval_key: approval_key@,
            },
            RequestEffect::StoreAnswer { question_key, question_id, answer } => {
                RequestEffectView::StoreAnswer {
                    question_key: question_key@,
                    question_id: question_id@,
                    answer: json::opt_string(answer),
                }
            },
            RequestEffect::MarkResponded { approval_key } => RequestEffectView::MarkResponded {
                approval_key: approval_key@,
            },
            RequestEffect::Log { thread_id, kind, record } => RequestEffectView::Log {
                thread_id: thread_id@,
                kind: kind@,
                record: record@,
            },
            RequestEffect::RegisterTyping { thread_id } => RequestEffectView::RegisterTyping {
                thread_id: thread_id@,
            },
        }
    }
}

/// What the effects of a list hold.
pub open spec fn request_effect_views(list: Seq<RequestEffect>) -> Seq<RequestEffectView> {
    Seq::new(list.len(), |i: int| list[i]@)
}

/// Appends an effect.
pub fn push_request_effect(list: &mut Vec<RequestEffect>, effect: RequestEffect)
    ensures
        request_effect_views(final(list)@) == request_effect_views(old(list)@).push(effect@),
{
    list.push(effect);
    assert(request_effect_views(list@) =~= request_effect_views(old(list)@).push(effect@));
}

/// What is stored after an attempt that did not reach Codex with the response: nothing where Codex
/// could not be asked, and that the request expired where Codex no longer has it.
pub open spec fn unsent_effects(result: SendResult, approval_key: Seq<char>) -> Seq<
    RequestEffectView,
> {
    match result {
        SendResult::Gone => Seq::empty().push(RequestEffectView::Expire { approval_key }),
        _ => Seq::empty(),
    }
}

/// The effects and that the thread works, which is shown where there is a chat.
pub open spec fn then_typing(
    effects: Seq<RequestEffectView>,
    configured: bool,
    thread_id: Seq<char>,
) -> Seq<RequestEffectView> {
    if configured {
        effects.push(RequestEffectView::RegisterTyping { thread_id })
    } else {
        effects
    }
}

// ---------------------------------------------------------------------------------------------
// Approvals
// ---------------------------------------------------------------------------------------------

/// What is logged of an approval.
pub fn approval_action_record(
    approval_key: &str,
    request: &AppServerRequest,
    action: TelegramCallbackAction,
    response: &Json,
    resumed: &Json,
    now: u64,
) -> (out: Json)
    ensures
        out@ == approval_action(
            approval_key@,
            *request,
            action,
            response@,
            resumed@,
            now as int,
        ),
{
    Fields::new().text("approvalKey", approval_key).with(
        "requestId",
        request.request_id.copy(),
    ).text("method", request.method.as_str()).text("turnId", request.turn_id.as_str()).text(
        "itemId",
        request.item_id.as_str(),
    ).text("decision", action.as_str()).with("response", response.copy()).with(
        "resumed",
        resumed.copy(),
    ).number("sentAt", now as i128).object()
}

/// The report of an approval.
pub open spec fn approval_report(
    approval_key: Seq<char>,
    request: AppServerRequest,
    action: TelegramCallbackAction,
    transport: TransportInfo,
    now: int,
) -> JsonView {
    json::members().flag("ok"@, true).text("action"@, "telegram_app_server_approval"@).text(
        "threadId"@,
        request.thread_id@,
    ).text("turnId"@, request.turn_id@).text("itemId"@, request.item_id@).text(
        "approvalKey"@,
        approval_key,
    ).text("decision"@, types::action_name(action)).with(
        "codex"@,
        questions::transport_value(transport),
    ).number("sentAt"@, now).object()
}

/// The report of an approval.
pub fn approval_report_json(
    approval_key: &str,
    request: &AppServerRequest,
    action: TelegramCallbackAction,
    transport: &TransportInfo,
    now: u64,
) -> (out: Json)
    ensures
        out@ == approval_report(approval_key@, *request, action, *transport, now as int),
{
    Fields::new().flag("ok", true).text("action", "telegram_app_server_approval").text(
        "threadId",
        request.thread_id.as_str(),
    ).text("turnId", request.turn_id.as_str()).text("itemId", request.item_id.as_str()).text(
        "approvalKey",
        approval_key,
    ).text("decision", action.as_str()).with("codex", transport_json(transport)).number(
        "sentAt",
        now as i128,
    ).object()
}

/// What is logged of an approval.
pub open spec fn approval_action(
    approval_key: Seq<char>,
    request: AppServerRequest,
    action: TelegramCallbackAction,
    response: JsonView,
    resumed: JsonView,
    now: int,
) -> JsonView {
    json::members().text("approvalKey"@, approval_key).with(
        "requestId"@,
        request.request_id@,
    ).text("method"@, request.method@).text("turnId"@, request.turn_id@).text(
        "itemId"@,
        request.item_id@,
    ).text("decision"@, types::action_name(action)).with("response"@, response).with(
        "resumed"@,
        resumed,
    ).number("sentAt"@, now).object()
}

/// What is stored after an attempt to send a decision: once Codex has it, that the request was
/// responded to, what was decided, and that the thread works.
pub open spec fn approval_effects(
    approval_key: Seq<char>,
    request: AppServerRequest,
    action: TelegramCallbackAction,
    response: JsonView,
    result: SendResult,
    configured: bool,
    now: int,
) -> Seq<RequestEffectView> {
    match result {
        SendResult::Taken { resumed, transport: _ } => then_typing(
            Seq::empty().push(RequestEffectView::MarkResponded { approval_key }).push(
                RequestEffectView::Log {
                    thread_id: request.thread_id@,
                    kind: "telegram_app_server_approval"@,
                    record: approval_action(
                        approval_key,
                        request,
                        action,
                        response,
                        resumed@,
                        now,
                    ),
                },
            ),
            configured,
            request.thread_id@,
        ),
        _ => unsent_effects(result, request.approval_key@),
    }
}

/// What is stored after an attempt to send a decision. `configured` is whether there is a chat.
pub fn approval_sent(
    approval_key: &str,
    request: &AppServerRequest,
    action: TelegramCallbackAction,
    response: &Json,
    result: &SendResult,
    configured: bool,
    now: u64,
) -> (out: Vec<RequestEffect>)
    ensures
        request_effect_views(out@) == approval_effects(
            approval_key@,
            *request,
            action,
            response@,
            *result,
            configured,
            now as int,
        ),
{
    let mut out: Vec<RequestEffect> = Vec::new();
    assert(request_effect_views(out@) =~= Seq::<RequestEffectView>::empty());
    match result {
        SendResult::Failed { .. } => {},
        SendResult::Gone => {
            push_request_effect(
                &mut out,
                RequestEffect::Expire { approval_key: request.approval_key.clone() },
            );
        },
        SendResult::Taken { resumed, .. } => {
            push_request_effect(
                &mut out,
                RequestEffect::MarkResponded { approval_key: approval_key.to_owned() },
            );
            let record = approval_action_record(
                approval_key,
                request,
                action,
                response,
                resumed,
                now,
            );
            push_request_effect(
                &mut out,
                RequestEffect::Log {
                    thread_id: request.thread_id.clone(),
                    kind: "telegram_app_server_approval",
                    record,
                },
            );
            if configured {
                push_request_effect(
                    &mut out,
                    RequestEffect::RegisterTyping { thread_id: request.thread_id.clone() },
                );
            }
        },
    }
    out
}

/// A button that settles a question was tapped without a question.
#[derive(Debug, Clone, Copy, PartialEq, Eq, Structural)]
pub enum ApprovalError {
    QuestionButton,
}

impl ApprovalError {
    /// The error in words.
    pub fn message(&self) -> (out: &'static str)
        ensures
            out@ == "question buttons need a pending Codex question request"@,
    {
        "question buttons need a pending Codex question request"
    }
}

/// The text that stands for a decision where the thread is not asked by a request.
pub fn legacy_approval_text(action: TelegramCallbackAction) -> (out: Result<
    &'static str,
    ApprovalError,
>)
    ensures
        out is Err <==> types::answers_question(action),
        out matches Ok(sent) ==> sent@ == if action == TelegramCallbackAction::Deny {
            "NO"@
        } else {
            "YES"@
        },
{
    match action {
        TelegramCallbackAction::Approve => Ok("YES"),
        TelegramCallbackAction::ApproveForSession => Ok("YES"),
        TelegramCallbackAction::Deny => Ok("NO"),
        TelegramCallbackAction::AnswerOption => Err(ApprovalError::QuestionButton),
        TelegramCallbackAction::SkipQuestion => Err(ApprovalError::QuestionButton),
    }
}

/// What is logged of an approval that was sent as a text.
pub fn legacy_approval_record(
    action: TelegramCallbackAction,
    sent_text: &str,
    resumed: &Json,
    started: &Json,
    now: u64,
) -> (out: Json)
    ensures
        out@ == json::members().text("decision"@, types::action_name(action)).text(
            "sentText"@,
            sent_text@,
        ).with("resumed"@, resumed@).with("started"@, started@).with(
            "delivery"@,
            turn_delivery(started@),
        ).number("sentAt"@, now as int).object(),
{
    Fields::new().text("decision", action.as_str()).text("sentText", sent_text).with(
        "resumed",
        resumed.copy(),
    ).with("started", started.copy()).with("delivery", turn_delivery_json(started)).number(
        "sentAt",
        now as i128,
    ).object()
}

/// The report of an approval that was sent as a text.
pub fn legacy_approval_report(
    thread_id: &str,
    action: TelegramCallbackAction,
    sent_text: &str,
    transport: &TransportInfo,
    started: &Json,
    now: u64,
) -> (out: Json)
    ensures
        out@ == json::members().flag("ok"@, true).text("action"@, "telegram_approval"@).text(
            "threadId"@,
            thread_id@,
        ).text("decision"@, types::action_name(action)).text("sentText"@, sent_text@).with(
            "codex"@,
            questions::transport_value(*transport),
        ).with("delivery"@, turn_delivery(started@)).number("sentAt"@, now as int).object(),
{
    Fields::new().flag("ok", true).text("action", "telegram_approval").text(
        "threadId",
        thread_id,
    ).text("decision", action.as_str()).text("sentText", sent_text).with(
        "codex",
        transport_json(transport),
    ).with("delivery", turn_delivery_json(started)).number("sentAt", now as i128).object()
}

// ---------------------------------------------------------------------------------------------
// New threads
// ---------------------------------------------------------------------------------------------

/// The result of a started thread, with how Codex was reached.
pub fn new_thread_result(started: Json, transport: &TransportInfo) -> (out: Json)
    ensures
        out@ == json::with_field(started@, "codex"@, questions::transport_value(*transport)),
{
    started.insert("codex", transport_json(transport))
}

/// The thread of a result; `None` means that the result lacks `threadId`.
pub fn result_thread_id(result: &Json) -> (out: Option<&str>)
    ensures
        json::opt_text(out) == json::text_at(result@.get("threadId"@)),
{
    result.str_at("threadId")
}

/// What is logged of a started thread.
pub fn new_thread_record(
    project: &RegisteredProject,
    message: &str,
    result: &Json,
    now: u64,
) -> (out: Json)
    ensures
        out@ == json::members().text("projectId"@, project.id@).text(
            "projectLabel"@,
            project.label@,
        ).text("cwd"@, project.cwd@).text("message"@, message@).with("result"@, result@).number(
            "sentAt"@,
            now as int,
        ).object(),
{
    Fields::new().text("projectId", project.id.as_str()).text(
        "projectLabel",
        project.label.as_str(),
    ).text("cwd", project.cwd.as_str()).text("message", message).with(
        "result",
        result.copy(),
    ).number("sentAt", now as i128).object()
}

/// The event under which the confirmation of a new thread is stored.
pub fn new_thread_event_id(thread_id: &str) -> (out: String)
    ensures
        out@ == "telegram_new_thread:"@ + thread_id@,
{
    cat2("telegram_new_thread:", thread_id)
}

/// The report of a confirmation.
pub open spec fn confirmation_report(thread_id: Seq<char>, message_id: int) -> JsonView {
    json::members().flag("ok"@, true).text("action"@, "telegram_new_thread_confirmation"@).text(
        "threadId"@,
        thread_id,
    ).number("messageId"@, message_id).object()
}

/// The report of a confirmation.
pub fn new_thread_confirmation_report(thread_id: &str, message_id: i64) -> (out: Json)
    ensures
        out@ == confirmation_report(thread_id@, message_id as int),
{
    Fields::new().flag("ok", true).text("action", "telegram_new_thread_confirmation").text(
        "threadId",
        thread_id,
    ).number("messageId", message_id as i128).object()
}

/// Asks what a new thread should work on.
pub fn new_thread_prompt_text(project: &RegisteredProject) -> (out: String)
    ensures
        out@ == "What should Codex work on in "@ + project.label@ + "?\n"@ + project.cwd@
            + "\n\nUse Telegram's Reply action on this message with the prompt for the new thread."@,
{
    cat5(
        "What should Codex work on in ",
        project.label.as_str(),
        "?\n",
        project.cwd.as_str(),
        "\n\nUse Telegram's Reply action on this message with the prompt for the new thread.",
    )
}

/// What is stored for the message that asks for a prompt.
pub fn new_thread_prompt_payload(project: &RegisteredProject) -> (out: Json)
    ensures
        out@ == json::members().text("projectId"@, project.id@).object(),
{
    Fields::new().text("projectId", project.id.as_str()).object()
}

/// The report of the message that asks for a prompt.
pub open spec fn prompt_report(project_id: Seq<char>, message_id: int) -> JsonView {
    json::members().flag("ok"@, true).text("action"@, "telegram_new_thread_prompt"@).text(
        "projectId"@,
        project_id,
    ).number("messageId"@, message_id).object()
}

/// The report of the message that asks for a prompt.
pub fn new_thread_prompt_report(project: &RegisteredProject, message_id: i64) -> (out: Json)
    ensures
        out@ == prompt_report(project.id@, message_id as int),
{
    Fields::new().flag("ok", true).text("action", "telegram_new_thread_prompt").text(
        "projectId",
        project.id.as_str(),
    ).number("messageId", message_id as i128).object()
}

// ---------------------------------------------------------------------------------------------
// Logs
// ---------------------------------------------------------------------------------------------

/// What is logged of an update beside its result.
#[derive(Debug, PartialEq, Eq)]
pub struct TelegramInboundLogContext {
    pub thread_id: Option<String>,
    pub route_message_id: Option<i64>,
    pub result_action: Option<String>,
    pub codex_transport: Option<String>,
    pub codex_app_server_pid: Option<u32>,
}

/// What a log context holds.
pub struct LogContextView {
    pub thread_id: Option<Seq<char>>,
    pub route_message_id: Option<int>,
    pub result_action: Option<Seq<char>>,
    pub codex_transport: Option<Seq<char>>,
    pub codex_app_server_pid: Option<int>,
}

impl View for TelegramInboundLogContext {
    type V = LogContextView;

    open spec fn view(&self) -> LogContextView {
        LogContextView {
            thread_id: json::opt_string(self.thread_id),
            route_message_id: json::opt_signed(self.route_message_id),
            result_action: json::opt_string(self.result_action),
            codex_transport: json::opt_string(self.codex_transport),
            codex_app_server_pid: questions::opt_pid(self.codex_app_server_pid),
        }
    }
}

/// The process number of a value, where it fits 32 bits.
pub open spec fn pid_at(value: Option<JsonView>) -> Option<int> {
    match json::unsigned_at(value) {
        Some(n) => if n <= u32::MAX {
            Some(n)
        } else {
            None
        },
        None => None,
    }
}

fn read_pid(value: Option<&Json>) -> (out: Option<u32>)
    ensures
        questions::opt_pid(out) == pid_at(json::opt_view(value)),
{
    match value {
        Some(v) => match v.as_u64() {
            Some(n) => if n <= u32::MAX as u64 {
                Some(n as u32)
            } else {
                None
            },
            None => None,
        },
        None => None,
    }
}

/// What is logged beside a result that names how Codex was reached.
pub open spec fn codex_log_context(
    result: JsonView,
    thread_id: Option<Seq<char>>,
    route_message_id: Option<int>,
) -> LogContextView {
    LogContextView {
        thread_id,
        route_message_id,
        result_action: json::text_at(result.get("action"@)),
        codex_transport: json::text_at(json::at(result.get("codex"@), "transport"@)),
        codex_app_server_pid: pid_at(json::at(result.get("codex"@), "appServerPid"@)),
    }
}

/// What is logged beside a result that names how Codex was reached.
pub fn codex_log_context_from_result(
    result: &Json,
    thread_id: Option<&str>,
    route_message_id: Option<i64>,
) -> (out: TelegramInboundLogContext)
    ensures
        out@ == codex_log_context(
            result@,
            json::opt_text(thread_id),
            json::opt_signed(route_message_id),
        ),
{
    TelegramInboundLogContext {
        thread_id: own(thread_id),
        route_message_id,
        result_action: own(result.str_at("action")),
        codex_transport: own(result.str_at2("codex", "transport")),
        codex_app_server_pid: read_pid(result.get2("codex", "appServerPid")),
    }
}

/// What is logged beside the result of a reply that completes a command.
pub open spec fn prompt_reply_log_context(
    result: JsonView,
    route_message_id: Option<int>,
) -> LogContextView {
    let inner = result.get("result"@);
    LogContextView {
        thread_id: json::text_at(json::at(inner, "threadId"@)),
        route_message_id,
        result_action: json::text_at(result.get("action"@)),
        codex_transport: json::text_at(json::at(json::at(inner, "codex"@), "transport"@)),
        codex_app_server_pid: pid_at(json::at(json::at(inner, "codex"@), "appServerPid"@)),
    }
}

/// What is logged beside the result of a reply that completes a command.
pub fn prompt_reply_log_context_from_result(
    result: &Json,
    route_message_id: Option<i64>,
) -> (out: TelegramInboundLogContext)
    ensures
        out@ == prompt_reply_log_context(result@, json::opt_signed(route_message_id)),
{
    let pid = match result.get2("result", "codex") {
        Some(codex) => read_pid(codex.get("appServerPid")),
        None => None,
    };
    TelegramInboundLogContext {
        thread_id: own(result.str_at2("result", "threadId")),
        route_message_id,
        result_action: own(result.str_at("action")),
        codex_transport: own(result.str_at3("result", "codex", "transport")),
        codex_app_server_pid: pid,
    }
}

/// What is logged beside any other result.
pub open spec fn plain_log_context(
    thread_id: Option<Seq<char>>,
    route_message_id: Option<int>,
    result_action: Option<Seq<char>>,
) -> LogContextView {
    LogContextView {
        thread_id,
        route_message_id,
        result_action,
        codex_transport: None,
        codex_app_server_pid: None,
    }
}

/// What is logged beside any other result.
pub fn plain_log_context_of(
    thread_id: Option<&str>,
    route_message_id: Option<i64>,
    result_action: Option<&str>,
) -> (out: TelegramInboundLogContext)
    ensures
        out@ == plain_log_context(
            json::opt_text(thread_id),
            json::opt_signed(route_message_id),
            json::opt_text(result_action),
        ),
{
    TelegramInboundLogContext {
        thread_id: own(thread_id),
        route_message_id,
        result_action: own(result_action),
        codex_transport: None,
        codex_app_server_pid: None,
    }
}

} // verus!
