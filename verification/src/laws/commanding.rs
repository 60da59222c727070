//! Commands: what each does, which project is meant, and what the user is told.

use vstd::prelude::*;

use crate::api;
use crate::commands;
use crate::commands::BackendCommand;
use crate::commands::CommandReply;
use crate::commands::CommandReplyView;
use crate::commands::CommandStep;
use crate::commands::NewThreadStep;
use crate::commands::PromptReplyStep;
use crate::commands::Sender;
use crate::commands::ThreadsStep;
use crate::inbound;
use crate::inbound::RoutedTelegramCommandPromptReply;
use crate::inbound::TelegramInboundCommand;
use crate::json;
use crate::json::Fields;
use crate::json::Json;
use crate::json::JsonView;
use crate::laws::names;
use crate::laws::values;
use crate::number;
use crate::render;
use crate::render::LiveBackendReport;
use crate::render::LiveBackendStatus;
use crate::text;
use crate::types::ObservedWorkspace;
use crate::types::RegisteredProject;

verus! {

// ---------------------------------------------------------------------------------------------
// What a command does
// ---------------------------------------------------------------------------------------------

/// The reply says something, and the report on it says what was done.
pub open spec fn says(
    reply: CommandReplyView,
    body: Seq<char>,
    ok: bool,
    action: Seq<char>,
) -> bool {
    let report = reply.report.object();
    &&& reply.text == body
    &&& json::truth_at(report.get("ok"@)) == Some(ok)
    &&& json::text_at(report.get("action"@)) == Some(action)
}

/// Every command begins what it is for.
pub proof fn commands_begin_what_they_are_for(
    prompt: Option<String>,
    query: String,
    start: CommandStep,
    help: CommandStep,
    away: CommandStep,
    back: CommandStep,
    repair: CommandStep,
    status: CommandStep,
    thread: CommandStep,
    project: CommandStep,
    projects: CommandStep,
)
    requires
        call_ensures(commands::begin_command, (TelegramInboundCommand::Start,), start),
        call_ensures(commands::begin_command, (TelegramInboundCommand::Help,), help),
        call_ensures(commands::begin_command, (TelegramInboundCommand::Away,), away),
        call_ensures(commands::begin_command, (TelegramInboundCommand::Back,), back),
        call_ensures(commands::begin_command, (TelegramInboundCommand::Repair,), repair),
        call_ensures(commands::begin_command, (TelegramInboundCommand::Status,), status),
        call_ensures(
            commands::begin_command,
            (TelegramInboundCommand::NewThread(prompt),),
            thread,
        ),
        call_ensures(
            commands::begin_command,
            (TelegramInboundCommand::Project(Some(query)),),
            project,
        ),
        call_ensures(
            commands::begin_command,
            (TelegramInboundCommand::Project(None),),
            projects,
        ),
    ensures
        start matches CommandStep::Reply { reply } && says(
            reply@,
            render::help_text(),
            true,
            "telegram_help"@,
        ),
        help matches CommandStep::Reply { reply } && says(
            reply@,
            render::help_text(),
            true,
            "telegram_help"@,
        ),
        away is TurnAwayOn,
        back is TurnAwayOff,
        repair is Repair,
        status is ReadStatus,
        thread matches CommandStep::ResolveThread { prompt: asked } && json::opt_string(asked)
            == json::opt_string(prompt),
        project matches CommandStep::ResolveProject { query: asked } && asked@ == query@,
        projects is ShowProjects,
{
    broadcast use values::added_members_are_found;
    broadcast use values::no_members_are_found;

    names::names_differ();
}

/// `/threads` lists as many threads as are asked for, and explains itself where that is no count; an
/// unknown command is named in the reply, with the help.
pub proof fn counts_are_listed_or_explained(
    raw: Option<String>,
    name: String,
    threads: CommandStep,
    unknown: CommandStep,
)
    requires
        call_ensures(commands::begin_command, (TelegramInboundCommand::Threads(raw),), threads),
        call_ensures(commands::begin_command, (TelegramInboundCommand::Unknown(name),), unknown),
    ensures
        inbound::threads_limit(json::opt_string(raw)) matches Ok(n) ==> (
        threads matches CommandStep::ListThreads { limit } && limit == n),
        inbound::threads_limit(json::opt_string(raw)) matches Err(error) ==> (
        threads matches CommandStep::Reply { reply } && says(
            reply@,
            inbound::threads_limit_error(error)
                + "\n\nExamples:\n/threads\n/threads 10\n\nThe maximum is 25."@,
            true,
            "telegram_threads_invalid_limit"@,
        )),
        unknown matches CommandStep::Reply { reply } && says(
            reply@,
            "I don't know "@ + name@ + " yet.\n\n"@ + render::help_text(),
            true,
            "telegram_unknown_command"@,
        ) && json::text_at(reply@.report.object().get("command"@)) == Some(name@),
{
    broadcast use values::added_members_are_found;
    broadcast use values::no_members_are_found;

    names::names_differ();
}

/// The sender of a command is its chat and its user.
pub proof fn commands_are_sent_by_chat_and_user(message: &Json, sender: Option<Sender>)
    requires
        call_ensures(commands::command_sender, (message,), sender),
    ensures
        api::chat_id_of(message@) is None ==> sender is None,
        api::chat_id_of(message@) matches Some(chat) ==> (sender matches Some(sender)
            && sender.chat_id@ == chat && json::opt_string(sender.user_id) == api::user_id_of(
            message@,
        )),
{
}

/// The report on a command has, beside what was done, what Telegram replied.
pub proof fn reports_have_what_was_sent(report: Fields, sent: Json, out: Json, key: Seq<char>)
    requires
        call_ensures(commands::command_report, (report, sent), out),
    ensures
        report@.object().get("sent"@) is None ==> out@.get("sent"@) == Some(sent@),
        key != "sent"@ ==> out@.get(key) == report@.object().get(key),
{
    broadcast use values::added_members_are_found;
}

// ---------------------------------------------------------------------------------------------
// Remote mode
// ---------------------------------------------------------------------------------------------

/// Turning remote mode off says how many notifications were dropped.
pub proof fn turning_off_tells_what_was_dropped(state: Json, n: nat, reply: CommandReply)
    requires
        call_ensures(commands::back_reply, (state,), reply),
    ensures
        json::unsigned_at(state@.get("clearedPendingNotifications"@)) == Some(n as int) ==> says(
            reply@,
            "Remote Codex mode is off. Cleared "@ + number::decimal(n)
                + " pending notification(s)."@,
            true,
            "telegram_back"@,
        ),
        json::unsigned_at(state@.get("clearedPendingNotifications"@)) is None ==> says(
            reply@,
            "Remote Codex mode is off. Cleared "@ + number::decimal(0)
                + " pending notification(s)."@,
            true,
            "telegram_back"@,
        ),
        reply@.report.object().get("state"@) == Some(state@),
{
    broadcast use values::added_members_are_found;
    broadcast use values::no_members_are_found;

    names::names_differ();
}

/// Turning remote mode on, or repairing it, tells what was done with the backend and how it is; a
/// failure tells the error.
pub proof fn turning_on_tells_how_the_backend_is(
    command: BackendCommand,
    action: &str,
    status: &LiveBackendStatus,
    backend: Json,
    away: Json,
    error: &str,
    done: CommandReply,
    failed: CommandReply,
)
    requires
        call_ensures(commands::backend_reply, (command, action, status, backend, away), done),
        call_ensures(commands::telegram_live_failure_result, (command, error), failed),
    ensures
        ({
            let title = if command is Away {
                "Remote Codex mode is on."@
            } else {
                "Remote Codex mode was repaired."@
            };
            let pid = match status.pid {
                Some(pid) => number::decimal(pid as nat),
                None => "unknown"@,
            };
            says(
                done@,
                title + "\nBackend: "@ + action@ + ", "@ + (if status.healthy {
                    "healthy"@
                } else {
                    "unhealthy"@
                }) + ", "@ + status.websocket_url@ + ", pid "@ + pid + ".\nAway mode: "@ + (
                if json::truth_at(away@.get("away"@)) == Some(true) {
                    "on"@
                } else {
                    "off"@
                }) + "."@,
                true,
                if command is Away {
                    "telegram_away"@
                } else {
                    "telegram_repair"@
                },
            )
        }),
        done@.report.object().get("backend"@) == Some(backend@),
        done@.report.object().get("away"@) == Some(away@),
        says(
            failed@,
            (if command is Away {
                "Remote Codex mode could not start."@
            } else {
                "Remote Codex mode could not repair."@
            }) + "\nError: "@ + error@
                + "\nTry /repair. If that keeps failing, check `codex-telegram-bridge doctor` locally."@,
            false,
            if command is Away {
                "telegram_away_failed"@
            } else {
                "telegram_repair_failed"@
            },
        ),
        json::text_at(failed@.report.object().get("error"@)) == Some(error@),
{
    broadcast use values::added_members_are_found;
    broadcast use values::no_members_are_found;

    names::names_differ();
}

/// The status is told as it is.
pub proof fn the_status_is_told(
    away: &Json,
    report: &LiveBackendReport,
    pending: u64,
    waiting: u64,
    reply: CommandReply,
)
    requires
        call_ensures(commands::status_reply, (away, report, pending, waiting), reply),
    ensures
        says(
            reply@,
            render::status_text(away@, *report, pending as nat, waiting as nat),
            true,
            "telegram_status"@,
        ),
{
    broadcast use values::added_members_are_found;
    broadcast use values::no_members_are_found;

    names::names_differ();
}

// ---------------------------------------------------------------------------------------------
// Threads
// ---------------------------------------------------------------------------------------------

/// The threads are sent one by one while there are more and time is left; where there are none that
/// is said.
pub proof fn threads_are_sent_one_by_one(
    total: usize,
    at: usize,
    expired: bool,
    step: ThreadsStep,
)
    requires
        call_ensures(commands::threads_step, (total, at, expired), step),
    ensures
        total == 0 <==> step is Empty,
        total > 0 && at < total && !expired ==> step is Send,
        total > 0 && (at >= total || expired) ==> step is Done,
{
}

/// What is told and reported of a list of threads.
pub proof fn lists_of_threads_are_reported(
    limit: u64,
    count: usize,
    sent: Vec<Json>,
    error: &str,
    none: CommandReply,
    report: Json,
    failed: CommandReply,
)
    requires
        call_ensures(commands::threads_empty_reply, (limit,), none),
        call_ensures(commands::threads_report, (limit, count, sent), report),
        call_ensures(commands::threads_failed_reply, (error,), failed),
    ensures
        says(
            none@,
            "No recent Codex threads are cached yet. Open Codex locally or try again after the daemon syncs."@,
            true,
            "telegram_threads_empty"@,
        ),
        none@.report.object().get("limit"@) == Some(JsonView::Int(limit as int)),
        report@.get("limit"@) == Some(JsonView::Int(limit as int)),
        report@.get("count"@) == Some(JsonView::Int(count as int)),
        json::items_at(report@.get("sent"@)) == Some(json::views(sent@)),
        json::text_at(report@.get("action"@)) == Some("telegram_threads"@),
        says(
            failed@,
            "I couldn't fetch recent Codex threads.\nError: "@ + error@
                + "\n\nTry /repair if the shared backend is unhealthy."@,
            false,
            "telegram_threads_failed"@,
        ),
        json::text_at(failed@.report.object().get("error"@)) == Some(error@),
{
    broadcast use values::added_members_are_found;
    broadcast use values::no_members_are_found;

    names::names_differ();
}

// ---------------------------------------------------------------------------------------------
// Projects
// ---------------------------------------------------------------------------------------------

/// The project is the first with the identifier, if there is one.
pub proof fn the_first_project_with_the_identifier_is_found(
    projects: Seq<RegisteredProject>,
    id: Seq<char>,
    k: int,
)
    requires
        0 <= k <= projects.len(),
        k < projects.len() ==> projects[k].id@ == id,
        forall|i: int| 0 <= i < k ==> (#[trigger] projects[i]).id@ != id,
    ensures
        commands::project_at(projects, id) == k,
    decreases k,
{
    if k > 0 {
        let rest = projects.skip(1);
        assert(projects[0].id@ != id);
        assert forall|i: int| 0 <= i < k - 1 implies (#[trigger] rest[i]).id@ != id by {
            assert(rest[i] == projects[i + 1]);
        }
        the_first_project_with_the_identifier_is_found(rest, id, k - 1);
    }
}

/// The current project is the one that was chosen; where none was, or it is gone, it is the only
/// one there is.
pub proof fn the_chosen_project_is_current(
    projects: Seq<RegisteredProject>,
    id: Seq<char>,
    k: int,
)
    requires
        0 <= k <= projects.len(),
        k < projects.len() ==> projects[k].id@ == id,
        forall|i: int| 0 <= i < k ==> (#[trigger] projects[i]).id@ != id,
    ensures
        k < projects.len() ==> commands::current_project(projects, Some(id)) == Some(k),
        k == projects.len() && projects.len() == 1 ==> commands::current_project(projects, Some(id))
            == Some(0int),
        k == projects.len() && projects.len() != 1 ==> commands::current_project(
            projects,
            Some(id),
        ) is None,
        projects.len() == 1 ==> commands::current_project(projects, None) == Some(0int),
        projects.len() != 1 ==> commands::current_project(projects, None) is None,
{
    the_first_project_with_the_identifier_is_found(projects, id, k);
}

/// The reply to a prompt starts a thread in the project that the prompt was for, and in the current
/// one where it was for none; never in another. Where there is none the user is told to choose.
pub proof fn prompts_start_threads_in_their_project(
    route: &RoutedTelegramCommandPromptReply,
    projects: &Vec<RegisteredProject>,
    current: Option<usize>,
    observed: &Vec<ObservedWorkspace>,
    k: int,
    step: PromptReplyStep,
)
    requires
        current matches Some(at) ==> at < projects@.len(),
        call_ensures(commands::begin_prompt_reply, (route, projects, current, observed), step),
        0 <= k <= projects@.len(),
        route.project_id matches Some(id) ==> {
            &&& k < projects@.len() ==> projects@[k].id@ == id@
            &&& forall|i: int| 0 <= i < k ==> (#[trigger] projects@[i]).id@ != id@
        },
    ensures
        route.project_id is Some && k < projects@.len() ==> (
        step matches PromptReplyStep::Start { project } && project == k),
        route.project_id is Some && k == projects@.len() ==> (
        step matches PromptReplyStep::Reply { reply } && tells_projects(
            reply@,
            "That project is no longer available. Pick a project first, then start the thread again."@,
            "telegram_new_thread_prompt_missing_project"@,
            projects@,
            current,
            observed@,
        )),
        route.project_id is None ==> (current matches Some(at) ==> (
        step matches PromptReplyStep::Start { project } && project == at)),
        route.project_id is None && current is None ==> (
        step matches PromptReplyStep::Reply { reply } && tells_projects(
            reply@,
            "No project is selected for that prompt. Use /project <id> first, then try /new again."@,
            "telegram_new_thread_prompt_needs_project"@,
            projects@,
            current,
            observed@,
        )),
{
    broadcast use values::added_members_are_found;
    broadcast use values::no_members_are_found;

    names::names_differ();
    if let Some(id) = route.project_id {
        the_first_project_with_the_identifier_is_found(projects@, id@, k);
    }
}

/// The reply says what is wrong and lists the projects.
pub open spec fn tells_projects(
    reply: CommandReplyView,
    problem: Seq<char>,
    action: Seq<char>,
    projects: Seq<RegisteredProject>,
    current: Option<usize>,
    observed: Seq<ObservedWorkspace>,
) -> bool {
    says(
        reply,
        problem + "\n\n"@ + render::projects_text(
            projects,
            match current {
                Some(at) => Some(&projects[at as int]),
                None => None,
            },
            observed,
        ),
        true,
        action,
    )
}

/// The projects are listed, also where the one that is asked for is not found or none is chosen for
/// a new thread; a project that is set is shown.
pub proof fn projects_are_listed_where_one_is_missing(
    error: &str,
    project: &RegisteredProject,
    projects: &Vec<RegisteredProject>,
    current: Option<usize>,
    observed: &Vec<ObservedWorkspace>,
    listed: CommandReply,
    set: CommandReply,
    missing: CommandReply,
    needed: CommandReply,
)
    requires
        current matches Some(at) ==> at < projects@.len(),
        call_ensures(commands::projects_list_reply, (projects, current, observed), listed),
        call_ensures(commands::project_set_reply, (project,), set),
        call_ensures(
            commands::project_not_found_reply,
            (error, projects, current, observed),
            missing,
        ),
        call_ensures(commands::needs_project_reply, (error, projects, current, observed), needed),
    ensures
        says(
            listed@,
            render::projects_text(
                projects@,
                match current {
                    Some(at) => Some(&projects@[at as int]),
                    None => None,
                },
                observed@,
            ),
            true,
            "telegram_project"@,
        ),
        says(set@, render::project_text(Some(project)), true, "telegram_project_set"@),
        json::text_at(set@.report.object().get("projectId"@)) == Some(project.id@),
        tells_projects(
            missing@,
            error@,
            "telegram_project_not_found"@,
            projects@,
            current,
            observed@,
        ),
        tells_projects(
            needed@,
            error@,
            "telegram_new_thread_needs_project"@,
            projects@,
            current,
            observed@,
        ),
{
    broadcast use values::added_members_are_found;
    broadcast use values::no_members_are_found;

    names::names_differ();
}

/// A new thread is started with the prompt that was given, and asked for where none was.
pub proof fn threads_start_with_their_prompt(
    given: bool,
    resolved: Option<String>,
    step: NewThreadStep,
)
    requires
        call_ensures(commands::new_thread_resolved, (given, resolved), step),
    ensures
        given && resolved is Some ==> (step matches NewThreadStep::Start { prompt } && prompt@
            == resolved->0@),
        !given || resolved is None ==> step is AskPrompt,
{
}

/// A new thread is reported with its project, what Codex replied and the confirmation.
pub proof fn new_threads_are_reported(
    project: &RegisteredProject,
    result: Json,
    confirmation: Json,
    direct: Json,
    prompted: Json,
)
    requires
        call_ensures(commands::new_thread_report, (project, result, confirmation), direct),
        call_ensures(commands::prompt_reply_report, (project, result, confirmation), prompted),
    ensures
        json::text_at(direct@.get("action"@)) == Some("telegram_new_thread"@),
        json::text_at(prompted@.get("action"@)) == Some("telegram_new_thread_prompt_reply"@),
        json::text_at(direct@.get("projectId"@)) == Some(project.id@),
        json::text_at(prompted@.get("projectId"@)) == Some(project.id@),
        direct@.get("result"@) == Some(result@),
        prompted@.get("result"@) == Some(result@),
        direct@.get("confirmation"@) == Some(confirmation@),
        prompted@.get("confirmation"@) == Some(confirmation@),
{
    broadcast use values::added_members_are_found;
    broadcast use values::no_members_are_found;

    names::names_differ();
}

} // verus!
