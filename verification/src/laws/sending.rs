//! Turns, decisions and new threads: what Codex is sent, what its failures mean, and what is logged
//! and reported.

use vstd::prelude::*;

use crate::json;
use crate::json::Json;
use crate::json::JsonView;
use crate::laws::names;
use crate::laws::texts;
use crate::laws::values;
use crate::questions;
use crate::questions::AppServerRequest;
use crate::questions::TransportInfo;
use crate::text;
use crate::turns;
use crate::turns::ReplayAttempt;
use crate::turns::ResumeFailure;
use crate::turns::SendResult;
use crate::turns::TelegramInboundLogContext;
use crate::types;
use crate::types::RegisteredProject;
use crate::types::TelegramCallbackAction;

verus! {

// ---------------------------------------------------------------------------------------------
// Turns
// ---------------------------------------------------------------------------------------------

/// A turn is started on the thread of the reply, with its text as the only input.
pub proof fn turns_are_started_on_their_thread(
    thread_id: &str,
    input: Json,
    resume: Json,
    start: Json,
)
    requires
        call_ensures(turns::thread_resume_params, (thread_id,), resume),
        call_ensures(turns::turn_start_params, (thread_id, input), start),
    ensures
        json::text_at(resume@.get("threadId"@)) == Some(thread_id@),
        json::text_at(start@.get("threadId"@)) == Some(thread_id@),
        json::items_at(start@.get("input"@)) == Some(seq![input@]),
{
    broadcast use values::added_members_are_found;
    broadcast use values::no_members_are_found;

    names::names_differ();
}

/// The value is what is said of a turn that was started: that it was, and its identifier where
/// Codex tells one.
pub open spec fn tells_turn(value: Option<JsonView>, started: JsonView) -> bool {
    let id = json::text_at(json::at(started.get("turn"@), "id"@));
    &&& json::text_at(json::at(value, "mode"@)) == Some("daemon_sync"@)
    &&& json::text_at(json::at(value, "status"@)) == Some("turn_started"@)
    &&& json::text_at(json::at(value, "startedTurnId"@)) == id
    &&& id is None ==> json::at(value, "startedTurnId"@) == Some(JsonView::Null)
}

/// The value tells how Codex was reached.
pub open spec fn tells_transport(value: Option<JsonView>, transport: TransportInfo) -> bool {
    &&& json::text_at(json::at(value, "transport"@)) == Some(transport.transport@)
    &&& transport.app_server_pid matches Some(pid) ==> json::at(value, "appServerPid"@) == Some(
        JsonView::Int(pid as int),
    )
    &&& transport.app_server_pid is None ==> json::at(value, "appServerPid"@) == Some(JsonView::Null)
}

/// A reply that became a turn is logged and reported with its whole text.
pub proof fn turns_are_logged_with_their_text(
    thread_id: &str,
    message: &str,
    transport: &TransportInfo,
    resumed: &Json,
    started: &Json,
    now: u64,
    record: Json,
    report: Json,
)
    requires
        call_ensures(turns::reply_action_record, (message, resumed, started, now), record),
        call_ensures(turns::reply_report_json, (thread_id, message, transport, started, now), report),
    ensures
        json::text_at(record@.get("message"@)) == Some(message@),
        record@.get("resumed"@) == Some(resumed@),
        record@.get("started"@) == Some(started@),
        tells_turn(record@.get("delivery"@), started@),
        record@.get("sentAt"@) == Some(JsonView::Int(now as int)),
        json::truth_at(report@.get("ok"@)) == Some(true),
        json::text_at(report@.get("action"@)) == Some("telegram_reply"@),
        json::text_at(report@.get("threadId"@)) == Some(thread_id@),
        json::text_at(report@.get("message"@)) == Some(message@),
        tells_transport(report@.get("codex"@), *transport),
        tells_turn(report@.get("delivery"@), started@),
        report@.get("sentAt"@) == Some(JsonView::Int(now as int)),
{
    broadcast use values::added_members_are_found;
    broadcast use values::no_members_are_found;

    names::names_differ();
}

// ---------------------------------------------------------------------------------------------
// Failures
// ---------------------------------------------------------------------------------------------

/// The error says that Codex no longer has the thread.
pub open spec fn says_gone(error: Seq<char>) -> bool {
    ||| text::occurs_in("no rollout found for thread id"@, error)
    ||| text::occurs_in("thread not loaded"@, error)
    ||| text::occurs_in("thread not found"@, error)
}

/// A request expires where Codex says that its thread is gone, and stays pending after any other
/// error.
pub proof fn only_lost_threads_expire_requests(
    error: &str,
    out: ResumeFailure,
    before: Seq<char>,
    after: Seq<char>,
)
    requires
        call_ensures(turns::resume_failure, (error,), out),
    ensures
        out is Expired <==> says_gone(error@),
        out is Unavailable <==> !says_gone(error@),
        error@ == before + "thread not found"@ + after ==> out is Expired,
        error@ == before + "thread not loaded"@ + after ==> out is Expired,
        error@ == before + "no rollout found for thread id"@ + after ==> out is Expired,
{
    texts::occurring_means_standing_between(before, "thread not found"@, after);
    texts::occurring_means_standing_between(before, "thread not loaded"@, after);
    texts::occurring_means_standing_between(before, "no rollout found for thread id"@, after);
}

/// A response is taken where Codex answered, lost where the thread or the request is gone, and has
/// failed, with its error, otherwise.
pub proof fn responses_are_lost_only_with_their_request(
    error: String,
    resumed: Json,
    transport: TransportInfo,
    not_connected: SendResult,
    not_resumed: SendResult,
    interrupted: SendResult,
    not_replayed: SendResult,
    answered: SendResult,
)
    requires
        call_ensures(
            turns::send_result,
            (ReplayAttempt::NotConnected { error },),
            not_connected,
        ),
        call_ensures(turns::send_result, (ReplayAttempt::NotResumed { error },), not_resumed),
        call_ensures(turns::send_result, (ReplayAttempt::Interrupted { error },), interrupted),
        call_ensures(turns::send_result, (ReplayAttempt::NotReplayed,), not_replayed),
        call_ensures(
            turns::send_result,
            (ReplayAttempt::Answered { resumed, transport },),
            answered,
        ),
    ensures
        not_connected == (SendResult::Failed { error }),
        interrupted == (SendResult::Failed { error }),
        says_gone(error@) ==> not_resumed is Gone,
        !says_gone(error@) ==> not_resumed == (SendResult::Failed { error }),
        not_replayed is Gone,
        answered == (SendResult::Taken { resumed, transport }),
{
}

/// The sender of a reply that failed is told the error, or, where another session holds the thread,
/// how to go on.
pub proof fn failed_replies_are_explained(
    thread_id: &str,
    websocket_url: &str,
    error: &str,
    other: String,
    told: String,
)
    requires
        call_ensures(turns::reply_failure_text, (thread_id, websocket_url, error), told),
        call_ensures(turns::failure_text, (error,), other),
    ensures
        !text::occurs_in("already has an active writer"@, error@) ==> told@
            == "Your message could not be processed: "@ + error@,
        text::occurs_in("already has an active writer"@, error@) ==> told@
            == "Your reply could not reach this thread: another Codex session that is not connected to the bridge holds it.\n\nClose that session, or continue it over the bridge with:\n"@
            + ("codex resume "@ + thread_id@ + " --remote "@ + websocket_url@)
            + "\n\nThen send your reply again."@,
        other@ == "Your message could not be processed: "@ + error@,
{
}

// ---------------------------------------------------------------------------------------------
// Decisions
// ---------------------------------------------------------------------------------------------

/// A decision is reported with its request and what was decided.
pub proof fn decisions_are_reported(
    approval_key: Seq<char>,
    request: AppServerRequest,
    action: TelegramCallbackAction,
    transport: TransportInfo,
    now: int,
)
    ensures
        ({
            let report = turns::approval_report(approval_key, request, action, transport, now);
            &&& json::truth_at(report.get("ok"@)) == Some(true)
            &&& json::text_at(report.get("action"@)) == Some("telegram_app_server_approval"@)
            &&& json::text_at(report.get("threadId"@)) == Some(request.thread_id@)
            &&& json::text_at(report.get("turnId"@)) == Some(request.turn_id@)
            &&& json::text_at(report.get("itemId"@)) == Some(request.item_id@)
            &&& json::text_at(report.get("approvalKey"@)) == Some(approval_key)
            &&& json::text_at(report.get("decision"@)) == Some(types::action_name(action))
            &&& tells_transport(report.get("codex"@), transport)
            &&& report.get("sentAt"@) == Some(JsonView::Int(now))
        }),
{
    broadcast use values::added_members_are_found;
    broadcast use values::no_members_are_found;

    names::names_differ();
}

/// What a decision is called.
pub proof fn decisions_are_called_by_name()
    ensures
        types::action_name(TelegramCallbackAction::Approve) == "approve"@,
        types::action_name(TelegramCallbackAction::ApproveForSession) == "approve_for_session"@,
        types::action_name(TelegramCallbackAction::Deny) == "deny"@,
        types::action_name(TelegramCallbackAction::AnswerOption) == "answer_option"@,
        types::action_name(TelegramCallbackAction::SkipQuestion) == "skip_question"@,
{
}

/// Only the buttons of questions answer questions.
pub proof fn buttons_answer_or_decide(action: TelegramCallbackAction)
    ensures
        action is AnswerOption || action is SkipQuestion ==> types::answers_question(action),
        action is Approve || action is ApproveForSession || action is Deny
            ==> !types::answers_question(action),
{
}

/// A thread without a pending request is told YES or NO; the buttons of questions say neither.
pub proof fn decisions_are_told_as_yes_or_no(
    action: TelegramCallbackAction,
    out: Result<&'static str, turns::ApprovalError>,
)
    requires
        call_ensures(turns::legacy_approval_text, (action,), out),
    ensures
        action is Approve || action is ApproveForSession ==> out is Ok && out->Ok_0@ == "YES"@,
        action is Deny ==> out is Ok && out->Ok_0@ == "NO"@,
        action is AnswerOption || action is SkipQuestion ==> out is Err,
{
}

/// A decision that was told as a text is logged and reported with that text.
pub proof fn told_decisions_are_logged(
    thread_id: &str,
    action: TelegramCallbackAction,
    sent_text: &str,
    transport: &TransportInfo,
    resumed: &Json,
    started: &Json,
    now: u64,
    record: Json,
    report: Json,
)
    requires
        call_ensures(
            turns::legacy_approval_record,
            (action, sent_text, resumed, started, now),
            record,
        ),
        call_ensures(
            turns::legacy_approval_report,
            (thread_id, action, sent_text, transport, started, now),
            report,
        ),
    ensures
        json::text_at(record@.get("decision"@)) == Some(types::action_name(action)),
        json::text_at(record@.get("sentText"@)) == Some(sent_text@),
        record@.get("resumed"@) == Some(resumed@),
        record@.get("started"@) == Some(started@),
        tells_turn(record@.get("delivery"@), started@),
        json::truth_at(report@.get("ok"@)) == Some(true),
        json::text_at(report@.get("action"@)) == Some("telegram_approval"@),
        json::text_at(report@.get("threadId"@)) == Some(thread_id@),
        report@.get("sentAt"@) == Some(JsonView::Int(now as int)),
        record@.get("sentAt"@) == Some(JsonView::Int(now as int)),
        json::text_at(report@.get("decision"@)) == Some(types::action_name(action)),
        json::text_at(report@.get("sentText"@)) == Some(sent_text@),
        tells_transport(report@.get("codex"@), *transport),
        tells_turn(report@.get("delivery"@), started@),
{
    broadcast use values::added_members_are_found;
    broadcast use values::no_members_are_found;

    names::names_differ();
}

// ---------------------------------------------------------------------------------------------
// New threads
// ---------------------------------------------------------------------------------------------

/// The result of a new thread is what Codex replied, with how it was reached.
pub proof fn new_threads_keep_what_codex_replied(
    started: Json,
    transport: &TransportInfo,
    members: Seq<(Seq<char>, JsonView)>,
    key: Seq<char>,
    result: Json,
)
    requires
        call_ensures(turns::new_thread_result, (started, transport), result),
        started@ == JsonView::Object(members),
    ensures
        tells_transport(result@.get("codex"@), *transport),
        key != "codex"@ ==> result@.get(key) == started@.get(key),
{
    broadcast use values::added_members_are_found;
    broadcast use values::no_members_are_found;

    names::names_differ();
    json::members_that_are_set_read_back(
        members,
        "codex"@,
        questions::transport_value(*transport),
        key,
    );
}

/// A new thread is logged with its project, its directory and the whole prompt.
pub proof fn new_threads_are_logged(
    project: &RegisteredProject,
    message: &str,
    result: &Json,
    thread_id: &str,
    message_id: i64,
    now: u64,
    record: Json,
    confirmed: Json,
    event_id: String,
)
    requires
        call_ensures(turns::new_thread_record, (project, message, result, now), record),
        call_ensures(turns::new_thread_confirmation_report, (thread_id, message_id), confirmed),
        call_ensures(turns::new_thread_event_id, (thread_id,), event_id),
    ensures
        json::text_at(record@.get("projectId"@)) == Some(project.id@),
        json::text_at(record@.get("projectLabel"@)) == Some(project.label@),
        json::text_at(record@.get("cwd"@)) == Some(project.cwd@),
        json::text_at(record@.get("message"@)) == Some(message@),
        record@.get("result"@) == Some(result@),
        record@.get("sentAt"@) == Some(JsonView::Int(now as int)),
        json::truth_at(confirmed@.get("ok"@)) == Some(true),
        json::text_at(confirmed@.get("action"@)) == Some("telegram_new_thread_confirmation"@),
        json::text_at(confirmed@.get("threadId"@)) == Some(thread_id@),
        json::signed_at(confirmed@.get("messageId"@)) == Some(message_id as int),
        event_id@ == "telegram_new_thread:"@ + thread_id@,
{
    broadcast use values::added_members_are_found;
    broadcast use values::no_members_are_found;

    names::names_differ();
}

/// The prompt for a new thread names the project and its directory, and the project is stored with
/// it.
pub proof fn prompts_name_their_project(
    project: &RegisteredProject,
    message_id: i64,
    asked: String,
    payload: Json,
    report: Json,
)
    requires
        call_ensures(turns::new_thread_prompt_text, (project,), asked),
        call_ensures(turns::new_thread_prompt_payload, (project,), payload),
        call_ensures(turns::new_thread_prompt_report, (project, message_id), report),
    ensures
        text::has_prefix(
            asked@,
            "What should Codex work on in "@ + project.label@ + "?\n"@ + project.cwd@,
        ),
        json::text_at(payload@.get("projectId"@)) == Some(project.id@),
        json::truth_at(report@.get("ok"@)) == Some(true),
        json::text_at(report@.get("action"@)) == Some("telegram_new_thread_prompt"@),
        json::text_at(report@.get("projectId"@)) == Some(project.id@),
        json::signed_at(report@.get("messageId"@)) == Some(message_id as int),
{
    broadcast use values::added_members_are_found;
    broadcast use values::no_members_are_found;

    names::names_differ();
    let front = "What should Codex work on in "@ + project.label@ + "?\n"@ + project.cwd@;
    let rest = "\n\nUse Telegram's Reply action on this message with the prompt for the new thread."@;
    texts::occurring_means_standing_between(Seq::empty(), front, rest);
    assert(asked@ =~= front + rest);
}

/// The thread of a result is the one that it names.
pub proof fn results_name_their_thread(result: &Json, id: Option<&str>)
    requires
        call_ensures(turns::result_thread_id, (result,), id),
    ensures
        json::opt_text(id) == json::text_at(result@.get("threadId"@)),
{
}

// ---------------------------------------------------------------------------------------------
// The log of updates
// ---------------------------------------------------------------------------------------------

/// The log of an update tells the action and how Codex was reached, as the result says.
pub proof fn updates_are_logged_with_their_result(
    result: &Json,
    thread_id: Option<&str>,
    route_message_id: Option<i64>,
    action: Option<&str>,
    direct: TelegramInboundLogContext,
    prompted: TelegramInboundLogContext,
    plain: TelegramInboundLogContext,
)
    requires
        call_ensures(
            turns::codex_log_context_from_result,
            (result, thread_id, route_message_id),
            direct,
        ),
        call_ensures(
            turns::prompt_reply_log_context_from_result,
            (result, route_message_id),
            prompted,
        ),
        call_ensures(turns::plain_log_context_of, (thread_id, route_message_id, action), plain),
    ensures
        ({
            let inner = result@.get("result"@);
            &&& direct@.thread_id == json::opt_text(thread_id)
            &&& direct@.route_message_id == json::opt_signed(route_message_id)
            &&& direct@.result_action == json::text_at(result@.get("action"@))
            &&& direct@.codex_transport == json::text_at(
                json::at(result@.get("codex"@), "transport"@),
            )
            &&& json::unsigned_at(json::at(result@.get("codex"@), "appServerPid"@)) matches Some(n)
                ==> direct@.codex_app_server_pid == if n <= u32::MAX {
                Some(n)
            } else {
                None
            }
            &&& json::unsigned_at(json::at(result@.get("codex"@), "appServerPid"@)) is None
                ==> direct@.codex_app_server_pid is None
            &&& prompted@.thread_id == json::text_at(json::at(inner, "threadId"@))
            &&& prompted@.route_message_id == json::opt_signed(route_message_id)
            &&& prompted@.result_action == json::text_at(result@.get("action"@))
            &&& prompted@.codex_transport == json::text_at(
                json::at(json::at(inner, "codex"@), "transport"@),
            )
            &&& json::unsigned_at(json::at(json::at(inner, "codex"@), "appServerPid"@)) matches Some(n)
                ==> prompted@.codex_app_server_pid == if n <= u32::MAX {
                Some(n)
            } else {
                None
            }
            &&& plain@.thread_id == json::opt_text(thread_id)
            &&& plain@.route_message_id == json::opt_signed(route_message_id)
            &&& plain@.result_action == json::opt_text(action)
            &&& plain@.codex_transport is None
            &&& plain@.codex_app_server_pid is None
        }),
{
}

} // verus!
