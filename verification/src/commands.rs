//! What the bot's commands do and reply.
//!
//! A command goes step by step: each step names the outside work that comes next, and a function
//! takes what came of it. Most commands end in a reply: a text for the chat, and a report that is
//! completed with what Telegram says of the message.

use vstd::prelude::*;

use crate::api::telegram_chat_id;
use crate::api::telegram_from_user_id;
use crate::inbound;
use crate::inbound::parse_telegram_threads_limit;
use crate::inbound::RoutedTelegramCommandPromptReply;
use crate::inbound::TelegramInboundCommand;
use crate::inbound::ThreadsLimitError;
use crate::json;
use crate::json::Fields;
use crate::json::Json;
use crate::json::JsonView;
use crate::number;
use crate::number::to_decimal;
use crate::render;
use crate::render::show_away;
use crate::render::show_health;
use crate::render::show_pid;
use crate::render::telegram_help_text;
use crate::render::telegram_project_text;
use crate::render::telegram_projects_text;
use crate::render::telegram_status_text;
use crate::render::LiveBackendReport;
use crate::render::LiveBackendStatus;
use crate::text::cat2;
use crate::text::cat3;
use crate::text::cat4;
use crate::text::same_text;
use crate::types::lend;
use crate::types::ObservedWorkspace;
use crate::types::RegisteredProject;

verus! {

// ---------------------------------------------------------------------------------------------
// Replies
// ---------------------------------------------------------------------------------------------

/// A text for the chat, and the report of the command so far.
pub struct CommandReply {
    pub text: String,
    pub report: Fields,
}

/// What a reply holds.
#[verifier::ext_equal]
pub struct CommandReplyView {
    pub text: Seq<char>,
    pub report: json::Members,
}

impl View for CommandReply {
    type V = CommandReplyView;

    open spec fn view(&self) -> CommandReplyView {
        CommandReplyView { text: self.text@, report: self.report@ }
    }
}

/// The report of a command whose reply was sent.
pub fn command_report(report: Fields, sent: Json) -> (out: Json)
    ensures
        out@ == report@.with("sent"@, sent@).object(),
{
    report.with("sent", sent).object()
}

/// A report of an action.
pub open spec fn report_of(ok: bool, action: Seq<char>) -> json::Members {
    json::members().flag("ok"@, ok).text("action"@, action)
}

fn new_report(ok: bool, action: &str) -> (out: Fields)
    ensures
        out@ == report_of(ok, action@),
{
    Fields::new().flag("ok", ok).text("action", action)
}

/// A reply with a report that says no more than the action.
pub open spec fn plain_reply(body: Seq<char>, action: Seq<char>) -> CommandReplyView {
    CommandReplyView { text: body, report: report_of(true, action) }
}

fn new_plain_reply(body: String, action: &str) -> (out: CommandReply)
    ensures
        out@ == plain_reply(body@, action@),
{
    CommandReply { text: body, report: new_report(true, action) }
}

/// The reply to a command that is not known.
pub open spec fn unknown_reply(command: Seq<char>) -> CommandReplyView {
    CommandReplyView {
        text: "I don't know "@ + command + " yet.\n\n"@ + render::help_text(),
        report: report_of(true, "telegram_unknown_command"@).text("command"@, command),
    }
}

/// The text about a number of threads that is refused.
pub open spec fn threads_limit_error_text(error: Seq<char>) -> Seq<char> {
    error + "\n\nExamples:\n/threads\n/threads 10\n\nThe maximum is 25."@
}

/// The text about a number of threads that is refused.
pub fn telegram_threads_limit_error_text(error: &str) -> (out: String)
    ensures
        out@ == threads_limit_error_text(error@),
{
    cat2(error, "\n\nExamples:\n/threads\n/threads 10\n\nThe maximum is 25.")
}

/// The text about threads that could not be fetched.
pub open spec fn threads_failure_text(error: Seq<char>) -> Seq<char> {
    "I couldn't fetch recent Codex threads.\nError: "@ + error
        + "\n\nTry /repair if the shared backend is unhealthy."@
}

/// The text about threads that could not be fetched.
pub fn telegram_threads_failure_text(error: &str) -> (out: String)
    ensures
        out@ == threads_failure_text(error@),
{
    cat3(
        "I couldn't fetch recent Codex threads.\nError: ",
        error,
        "\n\nTry /repair if the shared backend is unhealthy.",
    )
}

/// The reply to a number of threads that is refused.
pub open spec fn threads_limit_reply(error: ThreadsLimitError) -> CommandReplyView {
    let words = inbound::threads_limit_error(error);
    CommandReplyView {
        text: threads_limit_error_text(words),
        report: report_of(true, "telegram_threads_invalid_limit"@).text("error"@, words),
    }
}

// ---------------------------------------------------------------------------------------------
// Commands
// ---------------------------------------------------------------------------------------------

/// What comes next for a command.
pub enum CommandStep {
    /// Send a reply.
    Reply { reply: CommandReply },
    /// Turn remote mode off.
    TurnAwayOff,
    /// Find out remote mode, the state of the backend and what is pending.
    ReadStatus,
    /// Fetch the latest threads.
    ListThreads { limit: u64 },
    /// Ensure that the backend runs and turn remote mode on.
    TurnAwayOn,
    /// Restart the backend and turn remote mode on.
    Repair,
    /// Find out the project and the prompt of a new thread.
    ResolveThread { prompt: Option<String> },
    /// Find the project that is asked for.
    ResolveProject { query: String },
    /// Show the projects.
    ShowProjects,
}

/// The first step of a command.
pub open spec fn command_begins(out: CommandStep, command: inbound::CommandView) -> bool {
    match command {
        inbound::CommandView::Start => out matches CommandStep::Reply { reply } && reply@
            == plain_reply(render::help_text(), "telegram_help"@),
        inbound::CommandView::Help => out matches CommandStep::Reply { reply } && reply@
            == plain_reply(render::help_text(), "telegram_help"@),
        inbound::CommandView::Back => out is TurnAwayOff,
        inbound::CommandView::Status => out is ReadStatus,
        inbound::CommandView::Threads(raw) => match inbound::threads_limit(raw) {
            Ok(n) => out matches CommandStep::ListThreads { limit } && limit == n,
            Err(error) => out matches CommandStep::Reply { reply } && reply@ == threads_limit_reply(
                error,
            ),
        },
        inbound::CommandView::Away => out is TurnAwayOn,
        inbound::CommandView::Repair => out is Repair,
        inbound::CommandView::NewThread(prompt) => out matches CommandStep::ResolveThread {
            prompt: asked,
        } && json::opt_string(asked) == prompt,
        inbound::CommandView::Project(Some(query)) => out matches CommandStep::ResolveProject {
            query: asked,
        } && asked@ == query,
        inbound::CommandView::Project(None) => out is ShowProjects,
        inbound::CommandView::Unknown(name) => out matches CommandStep::Reply { reply } && reply@
            == unknown_reply(name),
    }
}

/// The first step of a command.
pub fn begin_command(command: TelegramInboundCommand) -> (out: CommandStep)
    ensures
        command_begins(out, command@),
{
    match command {
        TelegramInboundCommand::Start => CommandStep::Reply {
            reply: new_plain_reply(telegram_help_text(), "telegram_help"),
        },
        TelegramInboundCommand::Help => CommandStep::Reply {
            reply: new_plain_reply(telegram_help_text(), "telegram_help"),
        },
        TelegramInboundCommand::Back => CommandStep::TurnAwayOff,
        TelegramInboundCommand::Status => CommandStep::ReadStatus,
        TelegramInboundCommand::Threads(raw) => match parse_telegram_threads_limit(lend(&raw)) {
            Ok(limit) => CommandStep::ListThreads { limit },
            Err(error) => {
                let words = error.message();
                let text = telegram_threads_limit_error_text(words.as_str());
                let report = new_report(true, "telegram_threads_invalid_limit").text(
                    "error",
                    words.as_str(),
                );
                CommandStep::Reply { reply: CommandReply { text, report } }
            },
        },
        TelegramInboundCommand::Away => CommandStep::TurnAwayOn,
        TelegramInboundCommand::Repair => CommandStep::Repair,
        TelegramInboundCommand::NewThread(prompt) => CommandStep::ResolveThread { prompt },
        TelegramInboundCommand::Project(Some(query)) => CommandStep::ResolveProject { query },
        TelegramInboundCommand::Project(None) => CommandStep::ShowProjects,
        TelegramInboundCommand::Unknown(name) => {
            let help = telegram_help_text();
            let text = cat4("I don't know ", name.as_str(), " yet.\n\n", help.as_str());
            let report = new_report(true, "telegram_unknown_command").text(
                "command",
                name.as_str(),
            );
            CommandStep::Reply { reply: CommandReply { text, report } }
        },
    }
}

/// The chat and the user that a command comes from.
#[derive(Debug, PartialEq, Eq)]
pub struct Sender {
    pub chat_id: String,
    pub user_id: Option<String>,
}

/// The chat and the user that a command comes from; `None` means that the message lacks `chat.id`.
pub fn command_sender(message: &Json) -> (out: Option<Sender>)
    ensures
        out is Some <==> crate::api::chat_id_of(message@) is Some,
        out matches Some(sender) ==> crate::api::chat_id_of(message@) == Some(sender.chat_id@)
            && json::opt_string(sender.user_id) == crate::api::user_id_of(message@),
{
    match telegram_chat_id(message) {
        Some(chat_id) => Some(Sender { chat_id, user_id: telegram_from_user_id(message) }),
        None => None,
    }
}

/// How many notifications were dropped when remote mode was turned off.
pub open spec fn cleared_count(state: JsonView) -> int {
    match json::unsigned_at(state.get("clearedPendingNotifications"@)) {
        Some(n) => n,
        None => 0,
    }
}

/// The reply to /back, once remote mode is off.
pub fn back_reply(state: Json) -> (out: CommandReply)
    ensures
        out@ == (CommandReplyView {
            text: "Remote Codex mode is off. Cleared "@ + number::decimal(
                cleared_count(state@) as nat,
            ) + " pending notification(s)."@,
            report: report_of(true, "telegram_back"@).with("state"@, state@),
        }),
{
    let cleared: u64 = match state.u64_at("clearedPendingNotifications") {
        Some(n) => n,
        None => 0,
    };
    let count = to_decimal(cleared as u128);
    let text = cat3(
        "Remote Codex mode is off. Cleared ",
        count.as_str(),
        " pending notification(s).",
    );
    CommandReply { text, report: new_report(true, "telegram_back").with("state", state) }
}

/// The reply to /status.
pub fn status_reply(
    away: &Json,
    report: &LiveBackendReport,
    pending: u64,
    waiting: u64,
) -> (out: CommandReply)
    ensures
        out@ == plain_reply(
            render::status_text(away@, *report, pending as nat, waiting as nat),
            "telegram_status"@,
        ),
{
    new_plain_reply(telegram_status_text(away, report, pending, waiting), "telegram_status")
}

/// The text about a backend that was started or restarted.
pub open spec fn live_backend_text(
    title: Seq<char>,
    action: Seq<char>,
    status: LiveBackendStatus,
    away: JsonView,
) -> Seq<char> {
    title + "\nBackend: "@ + action + ", "@ + render::health_word(status.healthy) + ", "@
        + status.websocket_url@ + ", pid "@ + render::pid_text(status.pid, "unknown"@)
        + ".\nAway mode: "@ + render::away_word(away) + "."@
}

/// The text about a backend that was started or restarted.
pub fn telegram_live_backend_text(
    title: &str,
    action: &str,
    status: &LiveBackendStatus,
    away: &Json,
) -> (out: String)
    ensures
        out@ == live_backend_text(title@, action@, *status, away@),
{
    let pid = show_pid(status.pid, "unknown");
    let mut out = cat4(title, "\nBackend: ", action, ", ");
    out.append(show_health(status.healthy));
    out.append(", ");
    out.append(status.websocket_url.as_str());
    out.append(", pid ");
    out.append(pid.as_str());
    out.append(".\nAway mode: ");
    out.append(show_away(away));
    out.append(".");
    out
}

/// Which command worked on the backend.
#[derive(Debug, Clone, Copy, PartialEq, Eq, Structural)]
pub enum BackendCommand {
    Away,
    Repair,
}

/// The title of a success.
pub open spec fn backend_title(command: BackendCommand) -> Seq<char> {
    match command {
        BackendCommand::Away => "Remote Codex mode is on."@,
        BackendCommand::Repair => "Remote Codex mode was repaired."@,
    }
}

/// The action in the report of a success.
pub open spec fn backend_action(command: BackendCommand) -> Seq<char> {
    match command {
        BackendCommand::Away => "telegram_away"@,
        BackendCommand::Repair => "telegram_repair"@,
    }
}

/// The reply to /away and /repair, once the backend runs and remote mode is on. `backend` is the
/// whole result for the report.
pub fn backend_reply(
    command: BackendCommand,
    action: &str,
    status: &LiveBackendStatus,
    backend: Json,
    away: Json,
) -> (out: CommandReply)
    ensures
        out@ == (CommandReplyView {
            text: live_backend_text(backend_title(command), action@, *status, away@),
            report: report_of(true, backend_action(command)).with("backend"@, backend@).with(
                "away"@,
                away@,
            ),
        }),
{
    let (title, name) = match command {
        BackendCommand::Away => ("Remote Codex mode is on.", "telegram_away"),
        BackendCommand::Repair => ("Remote Codex mode was repaired.", "telegram_repair"),
    };
    let text = telegram_live_backend_text(title, action, status, &away);
    CommandReply {
        text,
        report: new_report(true, name).with("backend", backend).with("away", away),
    }
}

/// The text about a backend that could not be started or restarted.
pub open spec fn live_failure_text(title: Seq<char>, error: Seq<char>) -> Seq<char> {
    title + "\nError: "@ + error
        + "\nTry /repair. If that keeps failing, check `codex-telegram-bridge doctor` locally."@
}

/// The text about a backend that could not be started or restarted.
pub fn telegram_live_failure_text(title: &str, error: &str) -> (out: String)
    ensures
        out@ == live_failure_text(title@, error@),
{
    cat4(
        title,
        "\nError: ",
        error,
        "\nTry /repair. If that keeps failing, check `codex-telegram-bridge doctor` locally.",
    )
}

/// The title of a failure.
pub open spec fn backend_failure_title(command: BackendCommand) -> Seq<char> {
    match command {
        BackendCommand::Away => "Remote Codex mode could not start."@,
        BackendCommand::Repair => "Remote Codex mode could not repair."@,
    }
}

/// The action in the report of a failure.
pub open spec fn backend_failure_action(command: BackendCommand) -> Seq<char> {
    match command {
        BackendCommand::Away => "telegram_away_failed"@,
        BackendCommand::Repair => "telegram_repair_failed"@,
    }
}

/// The reply to /away and /repair where anything failed: the user is told.
pub fn telegram_live_failure_result(command: BackendCommand, error: &str) -> (out: CommandReply)
    ensures
        out@ == (CommandReplyView {
            text: live_failure_text(backend_failure_title(command), error@),
            report: report_of(false, backend_failure_action(command)).text("error"@, error@),
        }),
{
    let (title, name) = match command {
        BackendCommand::Away => ("Remote Codex mode could not start.", "telegram_away_failed"),
        BackendCommand::Repair => ("Remote Codex mode could not repair.", "telegram_repair_failed"),
    };
    CommandReply {
        text: telegram_live_failure_text(title, error),
        report: new_report(false, name).text("error", error),
    }
}

/// The reply to /threads where no threads are known.
pub fn threads_empty_reply(limit: u64) -> (out: CommandReply)
    ensures
        out@ == (CommandReplyView {
            text: "No recent Codex threads are cached yet. Open Codex locally or try again after the daemon syncs."@,
            report: report_of(true, "telegram_threads_empty"@).number("limit"@, limit as int),
        }),
{
    CommandReply {
        text: "No recent Codex threads are cached yet. Open Codex locally or try again after the daemon syncs.".to_owned(),
        report: new_report(true, "telegram_threads_empty").number("limit", limit as i128),
    }
}

/// What comes next for /threads.
#[derive(Debug, Clone, Copy, PartialEq, Eq, Structural)]
pub enum ThreadsStep {
    /// There are no threads: say so.
    Empty,
    /// Send the next snapshot.
    Send,
    /// All snapshots were sent, or the cycle has no time left for the rest: report.
    Done,
}

/// What comes next for /threads, where the snapshots before `at` were sent out of `total`.
pub fn threads_step(total: usize, at: usize, expired: bool) -> (out: ThreadsStep)
    ensures
        out == if total == 0 {
            ThreadsStep::Empty
        } else if at < total && !expired {
            ThreadsStep::Send
        } else {
            ThreadsStep::Done
        },
{
    if total == 0 {
        ThreadsStep::Empty
    } else if at < total && !expired {
        ThreadsStep::Send
    } else {
        ThreadsStep::Done
    }
}

/// The report of /threads: `sent` are the reports of the snapshots that were sent before the cycle
/// ended, out of `count`.
pub fn threads_report(limit: u64, count: usize, sent: Vec<Json>) -> (out: Json)
    ensures
        out@ == report_of(true, "telegram_threads"@).number("limit"@, limit as int).number(
            "count"@,
            count as int,
        ).with("sent"@, JsonView::Array(json::views(sent@))).object(),
{
    new_report(true, "telegram_threads").number("limit", limit as i128).number(
        "count",
        count as i128,
    ).with("sent", Json::array(sent)).object()
}

/// The reply to /threads where anything failed: the user is told.
pub fn threads_failed_reply(error: &str) -> (out: CommandReply)
    ensures
        out@ == (CommandReplyView {
            text: threads_failure_text(error@),
            report: report_of(false, "telegram_threads_failed"@).text("error"@, error@),
        }),
{
    CommandReply {
        text: telegram_threads_failure_text(error),
        report: new_report(false, "telegram_threads_failed").text("error", error),
    }
}

// ---------------------------------------------------------------------------------------------
// Projects
// ---------------------------------------------------------------------------------------------

/// The position of the project `id`, or the number of projects.
pub open spec fn project_at(projects: Seq<RegisteredProject>, id: Seq<char>) -> int
    decreases projects.len(),
{
    if projects.len() == 0 || projects[0].id@ == id {
        0
    } else {
        1 + project_at(projects.skip(1), id)
    }
}

/// The position of the project `id`, or the number of projects.
pub fn find_project(projects: &Vec<RegisteredProject>, id: &str) -> (at: usize)
    ensures
        at == project_at(projects@, id@),
        at <= projects@.len(),
{
    let mut i: usize = 0;
    assert(projects@.skip(0) =~= projects@);
    while i < projects.len()
        invariant
            i <= projects@.len(),
            i + project_at(projects@.skip(i as int), id@) == project_at(projects@, id@),
        decreases projects@.len() - i,
    {
        assert(projects@.skip(i as int)[0] == projects@[i as int]);
        assert(projects@.skip(i as int).skip(1) =~= projects@.skip(i + 1));
        if same_text(projects[i].id.as_str(), id) {
            return i;
        }
        i = i + 1;
    }
    i
}

/// The position of the current project: the chosen one where it is still there, otherwise the only
/// one there is.
pub open spec fn current_project(
    projects: Seq<RegisteredProject>,
    chosen: Option<Seq<char>>,
) -> Option<int> {
    if chosen is Some && project_at(projects, chosen->0) < projects.len() {
        Some(project_at(projects, chosen->0))
    } else if projects.len() == 1 {
        Some(0)
    } else {
        None
    }
}

/// The position of an option in mathematical terms.
pub open spec fn opt_position(at: Option<usize>) -> Option<int> {
    match at {
        Some(at) => Some(at as int),
        None => None,
    }
}

/// The position of the current project. `chosen` is the identifier that is stored for the sender.
pub fn current_project_for_identity(
    projects: &Vec<RegisteredProject>,
    chosen: Option<&str>,
) -> (out: Option<usize>)
    ensures
        opt_position(out) == current_project(projects@, json::opt_text(chosen)),
        out matches Some(at) ==> at < projects@.len(),
{
    if let Some(id) = chosen {
        let at = find_project(projects, id);
        if at < projects.len() {
            return Some(at);
        }
    }
    if projects.len() == 1 {
        Some(0)
    } else {
        None
    }
}

/// The project at a position.
pub open spec fn project_of<'a>(
    projects: Seq<RegisteredProject>,
    at: Option<usize>,
) -> Option<&'a RegisteredProject> {
    match at {
        Some(at) => Some(&projects[at as int]),
        None => None,
    }
}

fn project_ref<'a>(projects: &'a Vec<RegisteredProject>, at: Option<usize>) -> (out: Option<
    &'a RegisteredProject,
>)
    requires
        at matches Some(at) ==> at < projects@.len(),
    ensures
        out == project_of(projects@, at),
{
    match at {
        Some(at) => Some(&projects[at]),
        None => None,
    }
}

/// A reply that explains what is wrong above the list of the projects.
pub open spec fn projects_reply(
    problem: Seq<char>,
    action: Seq<char>,
    projects: Seq<RegisteredProject>,
    current: Option<usize>,
    observed: Seq<ObservedWorkspace>,
) -> CommandReplyView {
    plain_reply(
        problem + "\n\n"@ + render::projects_text(
            projects,
            project_of(projects, current),
            observed,
        ),
        action,
    )
}

fn new_projects_reply(
    problem: &str,
    action: &str,
    projects: &Vec<RegisteredProject>,
    current: Option<usize>,
    observed: &Vec<ObservedWorkspace>,
) -> (out: CommandReply)
    requires
        current matches Some(at) ==> at < projects@.len(),
    ensures
        out@ == projects_reply(problem@, action@, projects@, current, observed@),
{
    let list = telegram_projects_text(projects, project_ref(projects, current), observed);
    new_plain_reply(cat3(problem, "\n\n", list.as_str()), action)
}

/// The reply to /project: the list of the projects.
pub fn projects_list_reply(
    projects: &Vec<RegisteredProject>,
    current: Option<usize>,
    observed: &Vec<ObservedWorkspace>,
) -> (out: CommandReply)
    requires
        current matches Some(at) ==> at < projects@.len(),
    ensures
        out@ == plain_reply(
            render::projects_text(projects@, project_of(projects@, current), observed@),
            "telegram_project"@,
        ),
{
    let list = telegram_projects_text(projects, project_ref(projects, current), observed);
    new_plain_reply(list, "telegram_project")
}

/// The reply to /project with a project that was found, once it is stored as the current one.
pub fn project_set_reply(project: &RegisteredProject) -> (out: CommandReply)
    ensures
        out@ == (CommandReplyView {
            text: render::project_text(Some(project)),
            report: report_of(true, "telegram_project_set"@).text("projectId"@, project.id@),
        }),
{
    CommandReply {
        text: telegram_project_text(Some(project)),
        report: new_report(true, "telegram_project_set").text("projectId", project.id.as_str()),
    }
}

/// The reply to /project with a project that was not found. `error` says why.
pub fn project_not_found_reply(
    error: &str,
    projects: &Vec<RegisteredProject>,
    current: Option<usize>,
    observed: &Vec<ObservedWorkspace>,
) -> (out: CommandReply)
    requires
        current matches Some(at) ==> at < projects@.len(),
    ensures
        out@ == projects_reply(
            error@,
            "telegram_project_not_found"@,
            projects@,
            current,
            observed@,
        ),
{
    new_projects_reply(error, "telegram_project_not_found", projects, current, observed)
}

/// The reply to /new where the project is not clear. `error` says why.
pub fn needs_project_reply(
    error: &str,
    projects: &Vec<RegisteredProject>,
    current: Option<usize>,
    observed: &Vec<ObservedWorkspace>,
) -> (out: CommandReply)
    requires
        current matches Some(at) ==> at < projects@.len(),
    ensures
        out@ == projects_reply(
            error@,
            "telegram_new_thread_needs_project"@,
            projects@,
            current,
            observed@,
        ),
{
    new_projects_reply(error, "telegram_new_thread_needs_project", projects, current, observed)
}

// ---------------------------------------------------------------------------------------------
// New threads
// ---------------------------------------------------------------------------------------------

/// What comes next for a new thread whose project is clear.
#[derive(Debug, PartialEq, Eq)]
pub enum NewThreadStep {
    /// Start the thread with this prompt.
    Start { prompt: String },
    /// Ask for the prompt.
    AskPrompt,
}

/// Starts a thread where a prompt was given and is left after the project was found out; asks for
/// one otherwise. `given` is the argument of the command and `resolved` what is left of it.
pub fn new_thread_resolved(given: bool, resolved: Option<String>) -> (out: NewThreadStep)
    ensures
        match out {
            NewThreadStep::Start { prompt } => given && resolved is Some && prompt@
                == resolved->0@,
            NewThreadStep::AskPrompt => !given || resolved is None,
        },
{
    match resolved {
        Some(prompt) => if given {
            NewThreadStep::Start { prompt }
        } else {
            NewThreadStep::AskPrompt
        },
        None => NewThreadStep::AskPrompt,
    }
}

/// The report of a thread that was started.
pub open spec fn thread_report(
    action: Seq<char>,
    project_id: Seq<char>,
    result: JsonView,
    confirmation: JsonView,
) -> JsonView {
    report_of(true, action).text("projectId"@, project_id).with("result"@, result).with(
        "confirmation"@,
        confirmation,
    ).object()
}

/// The report of a thread that was started by /new.
pub fn new_thread_report(
    project: &RegisteredProject,
    result: Json,
    confirmation: Json,
) -> (out: Json)
    ensures
        out@ == thread_report("telegram_new_thread"@, project.id@, result@, confirmation@),
{
    new_report(true, "telegram_new_thread").text("projectId", project.id.as_str()).with(
        "result",
        result,
    ).with("confirmation", confirmation).object()
}

/// The report of a thread that was started by a reply to the question for its prompt.
pub fn prompt_reply_report(
    project: &RegisteredProject,
    result: Json,
    confirmation: Json,
) -> (out: Json)
    ensures
        out@ == thread_report(
            "telegram_new_thread_prompt_reply"@,
            project.id@,
            result@,
            confirmation@,
        ),
{
    new_report(true, "telegram_new_thread_prompt_reply").text(
        "projectId",
        project.id.as_str(),
    ).with("result", result).with("confirmation", confirmation).object()
}

/// What comes next for a reply to the question for a prompt.
pub enum PromptReplyStep {
    /// Start the thread in this project, then use up the question.
    Start { project: usize },
    /// Send the reply, then use up the question.
    Reply { reply: CommandReply },
}

/// The position of the project that a reply to the question for a prompt is for: the one that the
/// question named, or the current one where it named none.
pub open spec fn prompt_project(
    projects: Seq<RegisteredProject>,
    asked: Option<Seq<char>>,
    current: Option<int>,
) -> Option<int> {
    match asked {
        Some(id) => if project_at(projects, id) < projects.len() {
            Some(project_at(projects, id))
        } else {
            None
        },
        None => current,
    }
}

/// Goes on from a reply to the question for a prompt.
pub fn begin_prompt_reply(
    route: &RoutedTelegramCommandPromptReply,
    projects: &Vec<RegisteredProject>,
    current: Option<usize>,
    observed: &Vec<ObservedWorkspace>,
) -> (out: PromptReplyStep)
    requires
        current matches Some(at) ==> at < projects@.len(),
    ensures
        ({
            let asked = json::opt_string(route.project_id);
            let chosen = prompt_project(projects@, asked, opt_position(current));
            match out {
                PromptReplyStep::Start { project } => chosen == Some(project as int) && project
                    < projects@.len(),
                PromptReplyStep::Reply { reply } => chosen is None && reply@ == if asked is Some {
                    projects_reply(
                        "That project is no longer available. Pick a project first, then start the thread again."@,
                        "telegram_new_thread_prompt_missing_project"@,
                        projects@,
                        current,
                        observed@,
                    )
                } else {
                    projects_reply(
                        "No project is selected for that prompt. Use /project <id> first, then try /new again."@,
                        "telegram_new_thread_prompt_needs_project"@,
                        projects@,
                        current,
                        observed@,
                    )
                },
            }
        }),
{
    match &route.project_id {
        Some(id) => {
            let at = find_project(projects, id.as_str());
            if at < projects.len() {
                return PromptReplyStep::Start { project: at };
            }
            PromptReplyStep::Reply {
                reply: new_projects_reply(
                    "That project is no longer available. Pick a project first, then start the thread again.",
                    "telegram_new_thread_prompt_missing_project",
                    projects,
                    current,
                    observed,
                ),
            }
        },
        None => match current {
            Some(at) => PromptReplyStep::Start { project: at },
            None => PromptReplyStep::Reply {
                reply: new_projects_reply(
                    "No project is selected for that prompt. Use /project <id> first, then try /new again.",
                    "telegram_new_thread_prompt_needs_project",
                    projects,
                    current,
                    observed,
                ),
            },
        },
    }
}

} // verus!
