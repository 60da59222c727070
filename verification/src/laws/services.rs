//! The background service: what its state is read from, what it is called, what it runs and what
//! is reported of it.

use vstd::prelude::*;

use crate::json;
use crate::json::Json;
use crate::json::JsonView;
use crate::laws::names;
use crate::laws::texts;
use crate::laws::values;
use crate::path;
use crate::service;
use crate::service::DaemonServiceSpec;
use crate::service::HomePaths;
use crate::service::Platform;
use crate::service::QuotedNames;
use crate::service::ServiceError;
use crate::service::ServiceNames;
use crate::text;

verus! {

// ---------------------------------------------------------------------------------------------
// Its state
// ---------------------------------------------------------------------------------------------

/// The state is what the first line that begins with `state = ` says, whatever follows it, and
/// there is none where no line begins so.
pub proof fn the_first_state_line_tells_the_state(lines: Seq<Seq<char>>, k: int, rest: Seq<char>)
    requires
        0 <= k <= lines.len(),
        forall|i: int|
            0 <= i < k ==> !text::has_prefix(text::trimmed(#[trigger] lines[i]), "state = "@),
        k < lines.len() ==> texts::trims_to(lines[k], "state = "@ + rest),
    ensures
        k < lines.len() ==> service::state_line(lines) == Some(text::trimmed(rest)),
        k == lines.len() ==> service::state_line(lines) is None,
    decreases k,
{
    if k == 0 {
        if lines.len() > 0 {
            texts::trimming_gives_what_is_between_the_blanks(lines[0], "state = "@ + rest);
            texts::occurring_means_standing_between(Seq::empty(), "state = "@, rest);
            assert(("state = "@ + rest).skip("state = "@.len() as int) =~= rest);
        }
    } else {
        let others = lines.skip(1);
        assert(!text::has_prefix(text::trimmed(lines[0]), "state = "@));
        assert forall|i: int| 0 <= i < k - 1 implies !text::has_prefix(
            text::trimmed(#[trigger] others[i]),
            "state = "@,
        ) by {
            assert(others[i] == lines[i + 1]);
        }
        if k < lines.len() {
            assert(others[k - 1] == lines[k]);
        }
        the_first_state_line_tells_the_state(others, k - 1, rest);
    }
}

/// Once a line tells the state, further lines do not matter.
pub proof fn later_state_lines_do_not_matter(lines: Seq<Seq<char>>, more: Seq<Seq<char>>)
    requires
        service::state_line(lines) is Some,
    ensures
        service::state_line(lines + more) == service::state_line(lines),
    decreases lines.len(),
{
    if lines.len() > 0 {
        assert((lines + more)[0] == lines[0]);
        assert((lines + more).skip(1) =~= lines.skip(1) + more);
        if !text::has_prefix(text::trimmed(lines[0]), "state = "@) {
            later_state_lines_do_not_matter(lines.skip(1), more);
        }
    }
}

/// A service that launchd prints is loaded, and runs where its state is `running`; one that launchd
/// cannot print does not run, and is loaded unless launchd says that it does not know it.
pub proof fn launchd_tells_whether_the_service_runs(output: JsonView)
    ensures
        ({
            let runtime = service::macos_runtime(output);
            let printed = match json::text_at(output.get("stdout"@)) {
                Some(s) => s,
                None => Seq::empty(),
            };
            let complained = match json::text_at(output.get("stderr"@)) {
                Some(s) => s,
                None => Seq::empty(),
            };
            let state = service::state_line(text::lines_of(printed));
            let unknown = text::occurs_in("Could not find service"@, complained) || text::occurs_in(
                "could not find service"@,
                complained,
            ) || text::occurs_in("service not found"@, complained);
            if json::truth_at(output.get("success"@)) == Some(true) {
                &&& json::truth_at(runtime.get("loaded"@)) == Some(true)
                &&& json::truth_at(runtime.get("running"@)) == Some(state == Some("running"@))
                &&& json::text_at(runtime.get("state"@)) == state
            } else {
                &&& json::truth_at(runtime.get("loaded"@)) == Some(!unknown)
                &&& json::truth_at(runtime.get("running"@)) == Some(false)
                &&& runtime.get("state"@) == Some(JsonView::Null)
            }
        }),
        is_summary(service::macos_runtime(output).get("raw"@), output),
{
    broadcast use values::added_members_are_found;
    broadcast use values::no_members_are_found;

    names::names_differ();
}

/// The value has the status and the success of a command's output and nothing of what it printed.
pub open spec fn is_summary(value: Option<JsonView>, output: JsonView) -> bool {
    &&& json::at(value, "status"@) == Some(json::or_null(output.get("status"@)))
    &&& output.get("success"@) is Some ==> json::at(value, "success"@) == output.get("success"@)
    &&& output.get("success"@) is None ==> json::at(value, "success"@) == Some(
        JsonView::Bool(false),
    )
    &&& json::at(value, "stdout"@) is None
    &&& json::at(value, "stderr"@) is None
}

/// A service of systemd runs where systemd calls it `active`. It is loaded where its status can be
/// had, and unless it is called `inactive`.
pub proof fn systemd_tells_whether_the_service_runs(
    status: JsonView,
    active: JsonView,
    word: Seq<char>,
)
    requires
        json::text_at(active.get("stdout"@)) matches Some(s) && texts::trims_to(s, word),
    ensures
        ({
            let runtime = service::linux_runtime(status, active);
            &&& json::truth_at(runtime.get("running"@)) == Some(word == "active"@)
            &&& json::truth_at(runtime.get("loaded"@)) == Some(
                json::truth_at(status.get("success"@)) == Some(true) || word != "inactive"@,
            )
            &&& word.len() > 0 ==> json::text_at(runtime.get("state"@)) == Some(word)
            &&& word.len() == 0 ==> runtime.get("state"@) == Some(JsonView::Null)
            &&& is_summary(json::at(runtime.get("raw"@), "status"@), status)
            &&& is_summary(json::at(runtime.get("raw"@), "isActive"@), active)
        }),
{
    broadcast use values::added_members_are_found;
    broadcast use values::no_members_are_found;

    names::names_differ();
    texts::trimming_gives_what_is_between_the_blanks(
        json::text_at(active.get("stdout"@))->0,
        word,
    );
}

/// A service that is not installed is neither loaded nor running.
pub proof fn an_absent_service_does_not_run(platform: Platform, query: service::RuntimeQuery)
    requires
        call_ensures(service::service_runtime_query, (platform, false), query),
    ensures
        query is Absent,
        json::truth_at(service::absent_runtime().get("loaded"@)) == Some(false),
        json::truth_at(service::absent_runtime().get("running"@)) == Some(false),
{
    broadcast use values::added_members_are_found;
    broadcast use values::no_members_are_found;

    names::names_differ();
}

/// An installed service is asked for at the service manager of its platform.
pub proof fn a_service_is_asked_for_at_its_manager(
    platform: Platform,
    query: service::RuntimeQuery,
)
    requires
        call_ensures(service::service_runtime_query, (platform, true), query),
    ensures
        query is Launchd <==> platform is MacOs,
        query is Systemd <==> platform is Linux,
{
}

/// The bridge is healthy where it is configured, installed and running, and only then; else the
/// report says what to do.
pub proof fn health_takes_configuration_installation_and_running(
    service: DaemonServiceSpec,
    config_path: Seq<char>,
    config_exists: bool,
    installed: bool,
    runtime: JsonView,
)
    ensures
        ({
            let report = service::status_report(
                service,
                config_path,
                config_exists,
                installed,
                runtime,
            );
            let healthy = config_exists && installed && json::truth_at(runtime.get("running"@))
                == Some(true);
            &&& json::truth_at(report.get("ok"@)) == Some(true)
            &&& json::text_at(report.get("action"@)) == Some("daemon_status"@)
            &&& json::truth_at(report.get("healthy"@)) == Some(healthy)
            &&& json::text_at(report.get("nextStep"@)) is None <==> healthy
            &&& json::truth_at(report.get("configExists"@)) == Some(config_exists)
            &&& json::truth_at(report.get("serviceExists"@)) == Some(installed)
            &&& report.get("serviceStatus"@) == Some(runtime)
            &&& json::text_at(report.get("configPath"@)) == Some(config_path)
            &&& json::text_at(report.get("servicePath"@)) == Some(service.service_path@)
            &&& json::text_at(report.get("label"@)) == Some(service.unit_name@)
            &&& json::text_at(report.get("statusCommand"@)) == Some(service.status_command@)
            &&& json::text_at(json::at(report.get("logs"@), "stdout"@)) == Some(service.stdout_log@)
            &&& json::text_at(json::at(report.get("logs"@), "stderr"@)) == Some(service.stderr_log@)
        }),
{
    broadcast use values::added_members_are_found;
    broadcast use values::no_members_are_found;

    names::names_differ();
}

// ---------------------------------------------------------------------------------------------
// What it is called
// ---------------------------------------------------------------------------------------------

/// A label is taken without the blanks around it. One that is blank, or has a slash, a backslash or
/// a quote, is refused; a bridge command must not be blank either.
pub proof fn labels_and_commands_are_checked(
    label: Seq<char>,
    kept: Seq<char>,
    bridge_command: Seq<char>,
)
    requires
        texts::trims_to(label, kept),
    ensures
        ({
            let odd = kept.contains('/') || kept.contains('\\') || kept.contains('\'');
            let refused = service::request_error(label, bridge_command);
            &&& kept.len() == 0 ==> refused == Some(ServiceError::EmptyLabel)
            &&& kept.len() > 0 && odd ==> refused == Some(ServiceError::UnsupportedLabel)
            &&& kept.len() > 0 && !odd && text::blank(bridge_command) ==> refused == Some(
                ServiceError::EmptyBridgeCommand,
            )
            &&& kept.len() > 0 && !odd && !text::blank(bridge_command) ==> refused is None
        }),
{
    texts::trimming_gives_what_is_between_the_blanks(label, kept);
}

/// The unit of systemd ends with `.service`, and a label that ends so already stays as it is; on
/// other platforms the label is the name.
pub proof fn units_end_with_service(label: Seq<char>, before: Seq<char>)
    ensures
        text::has_suffix(service::unit_name_of(Platform::Linux, label), ".service"@),
        service::unit_name_of(Platform::Linux, before + ".service"@) == before + ".service"@,
        !text::has_suffix(label, ".service"@) ==> service::unit_name_of(Platform::Linux, label)
            == label + ".service"@,
        service::unit_name_of(Platform::MacOs, label) == label,
{
    texts::occurring_means_standing_between(label, ".service"@, Seq::empty());
    texts::occurring_means_standing_between(before, ".service"@, Seq::empty());
}

/// The file of the service is below the home directory, where its platform looks for it, and the
/// logs are in the state directory.
pub proof fn service_files_are_where_they_are_looked_for(
    home: Seq<char>,
    label: &str,
    state_dir: &str,
    mac: ServiceNames,
    linux: ServiceNames,
    home_dir: &str,
)
    requires
        home_dir@ == home,
        home.len() > 0,
        home.last() != '/',
        call_ensures(
            service::service_names,
            (Platform::MacOs, label, Some(home_dir), state_dir),
            Ok::<ServiceNames, ServiceError>(mac),
        ),
        call_ensures(
            service::service_names,
            (Platform::Linux, label, Some(home_dir), state_dir),
            Ok::<ServiceNames, ServiceError>(linux),
        ),
    ensures
        texts::trims_to(label@, mac.label@),
        mac.label@ == linux.label@,
        mac.service_path@ == home + "/Library/LaunchAgents/"@ + mac.label@ + ".plist"@,
        linux.service_path@ == home + "/.config/systemd/user/"@ + linux.unit_name@,
        mac.unit_name@ == mac.label@,
        text::has_suffix(linux.unit_name@, ".service"@),
        mac.stdout_log@ == path::path_joined(state_dir@, "daemon.out.log"@),
        mac.stderr_log@ == path::path_joined(state_dir@, "daemon.err.log"@),
        linux.stdout_log@ == mac.stdout_log@,
        linux.stderr_log@ == mac.stderr_log@,
{
    let kept = text::trimmed(label@);
    texts::trimming_takes_only_the_blanks_around(label@);
    units_end_with_service(kept, Seq::empty());
    reveal_strlit("Library");
    reveal_strlit("LaunchAgents");
    reveal_strlit("/Library/LaunchAgents/");
    reveal_strlit(".config");
    reveal_strlit("systemd");
    reveal_strlit("user");
    reveal_strlit("/.config/systemd/user/");
    reveal_strlit(".plist");
    reveal_strlit(".service");
    let library = home.push('/') + "Library"@;
    assert(path::path_joined(home, "Library"@) == library);
    let agents = library.push('/') + "LaunchAgents"@;
    assert(path::path_joined(library, "LaunchAgents"@) == agents);
    let file = kept + ".plist"@;
    assert(!(kept.len() > 0 && kept[0] == '/')) by {
        if kept.len() > 0 && kept[0] == '/' {
            assert(kept.contains('/'));
        }
    }
    assert(file[0] == if kept.len() > 0 {
        kept[0]
    } else {
        '.'
    });
    assert(mac.service_path@ == agents.push('/') + file);
    assert(agents.push('/') =~= home + "/Library/LaunchAgents/"@);
    assert(agents.push('/') + file =~= home + "/Library/LaunchAgents/"@ + kept + ".plist"@);
    let config = home.push('/') + ".config"@;
    assert(path::path_joined(home, ".config"@) == config);
    let systemd = config.push('/') + "systemd"@;
    assert(path::path_joined(config, "systemd"@) == systemd);
    let user = systemd.push('/') + "user"@;
    assert(path::path_joined(systemd, "user"@) == user);
    let unit = service::unit_name_of(Platform::Linux, kept);
    assert(unit[0] != '/') by {
        if unit != kept {
            assert((kept + ".service"@)[0] == if kept.len() > 0 {
                kept[0]
            } else {
                '.'
            });
        }
    }
    assert(linux.service_path@ == user.push('/') + unit);
    assert(user.push('/') =~= home + "/.config/systemd/user/"@);
}

/// An absolute command is run as it is, a relative one from the current directory, and a bare one
/// where it was found.
pub proof fn commands_are_run_from_where_they_are(
    bridge_command: Seq<char>,
    command: Seq<char>,
    current_dir: Option<Seq<char>>,
    found: Option<Seq<char>>,
)
    requires
        texts::trims_to(bridge_command, command),
    ensures
        ({
            let run = service::service_command(bridge_command, current_dir, found);
            &&& command.len() > 0 && command[0] == '/' ==> run == command
            &&& command.contains('/') && command[0] != '/' && current_dir is Some ==> run
                == path::path_joined(current_dir->0, command)
            &&& command.contains('/') && current_dir is None ==> run == command
            &&& !command.contains('/') && found is Some ==> run == found->0
            &&& !command.contains('/') && found is None ==> run == command
        }),
{
    texts::trimming_gives_what_is_between_the_blanks(bridge_command, command);
    if command.len() > 0 && command[0] == '/' {
        assert(command.contains('/'));
    }
}

// ---------------------------------------------------------------------------------------------
// Where it looks for programs
// ---------------------------------------------------------------------------------------------

/// An entry is added at the end, unless it is blank or there already.
pub proof fn entries_are_added_once(
    entries: Seq<Seq<char>>,
    more: Seq<Seq<char>>,
    entry: Seq<char>,
)
    ensures
        text::blank(entry) ==> service::with_entries(entries, seq![entry]) == entries,
        entries.contains(entry) ==> service::with_entries(entries, seq![entry]) == entries,
        !text::blank(entry) && !entries.contains(entry) ==> service::with_entries(
            entries,
            seq![entry],
        ) == entries.push(entry),
        service::with_entries(entries, Seq::empty()) == entries,
        service::with_entries(entries, more.push(entry)) == service::with_entries(
            service::with_entries(entries, more),
            seq![entry],
        ),
{
    assert(seq![entry].drop_last() =~= Seq::<Seq<char>>::empty());
    assert(service::with_entries(entries, seq![entry].drop_last()) == entries);
    service::lemma_with_entries_concat(entries, more, seq![entry]);
    assert(more + seq![entry] =~= more.push(entry));
}

/// The path looks below the home directory first, then in the directories of the system, then in
/// those of the current path, and misses none of them.
pub proof fn the_path_looks_at_home_first(
    home: HomePaths,
    current: Seq<char>,
    suffix: Seq<char>,
    system: Seq<char>,
    own: Seq<char>,
)
    requires
        seq![
            ".bun/bin"@,
            ".cargo/bin"@,
            ".local/bin"@,
            ".deno/bin"@,
            ".pyenv/shims"@,
            ".asdf/shims"@,
            "Library/pnpm"@,
            "go/bin"@,
        ].contains(suffix),
        seq![
            "/opt/homebrew/bin"@,
            "/opt/homebrew/sbin"@,
            "/usr/local/bin"@,
            "/usr/bin"@,
            "/bin"@,
            "/usr/sbin"@,
            "/sbin"@,
        ].contains(system),
        text::parts_of(current, ':').contains(own),
        !text::blank(own),
        !text::blank(system),
        !text::blank(path::path_joined(home.home@, suffix)),
    ensures
        ({
            let all = service::runtime_entries(Some(home), Some(current));
            let without = service::runtime_entries(Some(home), None);
            let homes = service::with_entries(Seq::empty(), service::home_entries(home));
            &&& homes.contains(path::path_joined(home.home@, suffix))
            &&& without.contains(system)
            &&& all.contains(path::path_joined(home.home@, suffix))
            &&& all.contains(system)
            &&& all.contains(own)
            &&& homes.len() <= without.len() <= all.len()
            &&& without.take(homes.len() as int) == homes
            &&& all.take(without.len() as int) == without
        }),
{
    let all = service::runtime_entries(Some(home), Some(current));
    let without = service::runtime_entries(Some(home), None);
    let homes = service::with_entries(Seq::empty(), service::home_entries(home));
    let none = Seq::<Seq<char>>::empty();
    let entries = service::home_entries(home);
    service::adding_entries_keeps_order(none, entries);
    service::adding_entries_keeps_order(homes, service::system_entries());
    service::adding_entries_keeps_order(without, text::parts_of(current, ':'));
    let suffixes = service::home_suffixes();
    assert(suffixes.contains(suffix));
    let k = choose|k: int| 0 <= k < suffixes.len() && suffixes[k] == suffix;
    assert(entries[k] == path::path_joined(home.home@, suffix));
    assert(service::system_entries().contains(system));
    let s = choose|s: int|
        0 <= s < service::system_entries().len() && service::system_entries()[s] == system;
    let parts = text::parts_of(current, ':');
    let c = choose|c: int| 0 <= c < parts.len() && parts[c] == own;
    assert(parts[c] == own);
    let wanted = path::path_joined(home.home@, suffix);
    let h = choose|h: int| 0 <= h < homes.len() && homes[h] == wanted;
    assert(without.take(homes.len() as int)[h] == wanted);
    assert(without[h] == wanted);
    assert(all.take(without.len() as int)[h] == wanted);
    assert(all[h] == wanted);
    let w = choose|w: int| 0 <= w < without.len() && without[w] == system;
    assert(all.take(without.len() as int)[w] == system);
    assert(all[w] == system);
}

// ---------------------------------------------------------------------------------------------
// What it runs
// ---------------------------------------------------------------------------------------------

/// The description for launchd names the label, the command, the path and the logs, each written
/// so that it is read back, and runs the daemon.
pub proof fn launchd_is_told_what_to_run(
    described: DaemonServiceSpec,
    names: ServiceNames,
    quoted: QuotedNames,
    bridge_command: Seq<char>,
    runtime_path: Seq<char>,
)
    requires
        service::describes(
            described,
            Platform::MacOs,
            names,
            quoted,
            bridge_command,
            runtime_path,
        ),
    ensures
        ({
            let contents = described.contents@;
            &&& text::occurs_in(service::xml_text(names.label@), contents)
            &&& text::occurs_in(service::xml_text(bridge_command), contents)
            &&& text::occurs_in(service::xml_text(runtime_path), contents)
            &&& text::occurs_in(service::xml_text(names.stdout_log@), contents)
            &&& text::occurs_in(service::xml_text(names.stderr_log@), contents)
            &&& described.install_command@ == "launchctl bootstrap gui/$(id -u) "@
                + quoted.service_path@
            &&& described.stop_command@ == "launchctl bootout gui/$(id -u)/"@ + quoted.label@
            &&& described.status_command@ == "launchctl print gui/$(id -u)/"@ + quoted.label@
            &&& described.uninstall_command@ == described.stop_command@ + " 2>/dev/null || true"@
            &&& described.start_command@ == described.install_command@ + " 2>/dev/null || "@ + (
            "launchctl kickstart -k gui/$(id -u)/"@ + quoted.label@)
            &&& described.service_path@ == names.service_path@
            &&& described.unit_name@ == names.unit_name@
            &&& described.stdout_log@ == names.stdout_log@
            &&& described.stderr_log@ == names.stderr_log@
        }),
{
    lemma_plist(names, bridge_command, runtime_path);
}

proof fn lemma_plist(names: ServiceNames, bridge_command: Seq<char>, runtime_path: Seq<char>)
    ensures
        ({
            let contents = service::plist_text(names, bridge_command, runtime_path);
            &&& text::occurs_in(service::xml_text(names.label@), contents)
            &&& text::occurs_in(service::xml_text(bridge_command), contents)
            &&& text::occurs_in(service::xml_text(runtime_path), contents)
            &&& text::occurs_in(service::xml_text(names.stdout_log@), contents)
            &&& text::occurs_in(service::xml_text(names.stderr_log@), contents)
        }),
{
    let a = "<?xml version=\"1.0\" encoding=\"UTF-8\"?>\n<!DOCTYPE plist PUBLIC \"-//Apple//DTD PLIST 1.0//EN\" \"http://www.apple.com/DTDs/PropertyList-1.0.dtd\">\n<plist version=\"1.0\">\n<dict>\n    <key>Label</key>\n    <string>"@;
    let b = "</string>\n    <key>ProgramArguments</key>\n    <array>\n        <string>"@;
    let c = "</string>\n        <string>daemon</string>\n        <string>run</string>\n    </array>\n    <key>EnvironmentVariables</key>\n    <dict>\n        <key>PATH</key>\n        <string>"@;
    let d = "</string>\n    </dict>\n    <key>RunAtLoad</key>\n    <true/>\n    <key>KeepAlive</key>\n    <true/>\n    <key>StandardOutPath</key>\n    <string>"@;
    let e = "</string>\n    <key>StandardErrorPath</key>\n    <string>"@;
    let f = "</string>\n</dict>\n</plist>\n"@;
    let label = service::xml_text(names.label@);
    let command = service::xml_text(bridge_command);
    let path = service::xml_text(runtime_path);
    let out = service::xml_text(names.stdout_log@);
    let err = service::xml_text(names.stderr_log@);
    let contents = service::plist_text(names, bridge_command, runtime_path);
    assert(contents == a + label + b + command + c + path + d + out + e + err + f);
    texts::occurring_means_standing_between(
        a,
        label,
        b + command + c + path + d + out + e + err + f,
    );
    assert(contents =~= a + label + (b + command + c + path + d + out + e + err + f));
    texts::occurring_means_standing_between(
        a + label + b,
        command,
        c + path + d + out + e + err + f,
    );
    assert(contents =~= (a + label + b) + command + (c + path + d + out + e + err + f));
    texts::occurring_means_standing_between(
        a + label + b + command + c,
        path,
        d + out + e + err + f,
    );
    assert(contents =~= (a + label + b + command + c) + path + (d + out + e + err + f));
    texts::occurring_means_standing_between(
        a + label + b + command + c + path + d,
        out,
        e + err + f,
    );
    assert(contents =~= (a + label + b + command + c + path + d) + out + (e + err + f));
    texts::occurring_means_standing_between(
        a + label + b + command + c + path + d + out + e,
        err,
        f,
    );
}

/// The unit of systemd runs the daemon with the path, and appends to the logs.
pub proof fn systemd_is_told_what_to_run(
    described: DaemonServiceSpec,
    names: ServiceNames,
    quoted: QuotedNames,
    bridge_command: Seq<char>,
    runtime_path: Seq<char>,
)
    requires
        service::describes(
            described,
            Platform::Linux,
            names,
            quoted,
            bridge_command,
            runtime_path,
        ),
    ensures
        ({
            let contents = described.contents@;
            &&& text::occurs_in(
                "\"\nExecStart="@ + quoted.bridge_command@
                    + " daemon run\nRestart=always\nRestartSec=2\nStandardOutput=append:"@,
                contents,
            )
            &&& text::occurs_in(service::systemd_text(runtime_path), contents)
            &&& text::occurs_in(names.stdout_log@, contents)
            &&& text::occurs_in("\nStandardError=append:"@ + names.stderr_log@, contents)
            &&& described.install_command@
                == "systemctl --user daemon-reload && systemctl --user enable --now "@
                + quoted.unit_name@
            &&& described.start_command@ == described.install_command@
            &&& described.stop_command@ == "systemctl --user stop "@ + quoted.unit_name@
            &&& described.status_command@ == "systemctl --user status "@ + quoted.unit_name@
            &&& described.uninstall_command@ == "systemctl --user disable --now "@
                + quoted.unit_name@ + " 2>/dev/null || true"@
            &&& described.service_path@ == names.service_path@
            &&& described.unit_name@ == names.unit_name@
            &&& described.stdout_log@ == names.stdout_log@
            &&& described.stderr_log@ == names.stderr_log@
        }),
{
    let a = "[Unit]\nDescription=Codex Telegram Bridge notification daemon\n\n[Service]\nType=simple\nEnvironment=\"PATH="@;
    let b = "\"\nExecStart="@;
    let c = " daemon run\nRestart=always\nRestartSec=2\nStandardOutput=append:"@;
    let d = "\nStandardError=append:"@;
    let e = "\n\n[Install]\nWantedBy=default.target\n"@;
    let path = service::systemd_text(runtime_path);
    let command = quoted.bridge_command@;
    let out = names.stdout_log@;
    let err = names.stderr_log@;
    let contents = described.contents@;
    assert(contents == a + path + b + command + c + out + d + err + e);
    texts::occurring_means_standing_between(a, path, b + command + c + out + d + err + e);
    assert(contents =~= a + path + (b + command + c + out + d + err + e));
    texts::occurring_means_standing_between(a + path, b + command + c, out + d + err + e);
    assert(contents =~= (a + path) + (b + command + c) + (out + d + err + e));
    texts::occurring_means_standing_between(a + path + b + command + c, out, d + err + e);
    assert(contents =~= (a + path + b + command + c) + out + (d + err + e));
    texts::occurring_means_standing_between(a + path + b + command + c + out, d + err, e);
    assert(contents =~= (a + path + b + command + c + out) + (d + err) + e);
}

// ---------------------------------------------------------------------------------------------
// What is reported
// ---------------------------------------------------------------------------------------------

/// The report on an installation has the commands of the service, and its contents only where
/// nothing was written.
pub proof fn installing_reports_what_was_done(
    service: &DaemonServiceSpec,
    dry_run: bool,
    run_command: &str,
    report: Json,
)
    requires
        call_ensures(service::install_report, (service, dry_run, run_command), report),
    ensures
        json::truth_at(report@.get("ok"@)) == Some(true),
        json::text_at(report@.get("action"@)) == Some("daemon_install"@),
        json::truth_at(report@.get("dryRun"@)) == Some(dry_run),
        json::text_at(report@.get("label"@)) == Some(service.unit_name@),
        json::text_at(report@.get("servicePath"@)) == Some(service.service_path@),
        json::text_at(report@.get("runCommand"@)) == Some(run_command@),
        json::text_at(report@.get("installCommand"@)) == Some(service.install_command@),
        json::text_at(report@.get("startCommand"@)) == Some(service.start_command@),
        json::text_at(report@.get("stopCommand"@)) == Some(service.stop_command@),
        json::text_at(report@.get("statusCommand"@)) == Some(service.status_command@),
        json::text_at(json::at(report@.get("logs"@), "stdout"@)) == Some(service.stdout_log@),
        json::text_at(json::at(report@.get("logs"@), "stderr"@)) == Some(service.stderr_log@),
        dry_run ==> json::text_at(report@.get("contents"@)) == Some(service.contents@),
        !dry_run ==> report@.get("contents"@) == Some(JsonView::Null),
{
    broadcast use values::added_members_are_found;
    broadcast use values::no_members_are_found;

    names::names_differ();
}

/// The other reports name the command that was run, or would be, and what it printed.
pub proof fn controlling_reports_the_command(
    service: &DaemonServiceSpec,
    dry_run: bool,
    output: Option<&Json>,
    started: Json,
    stopped: Json,
    uninstalled: Json,
)
    requires
        call_ensures(service::start_report, (service, dry_run, output), started),
        call_ensures(service::stop_report, (service, dry_run, output), stopped),
        call_ensures(service::uninstall_report, (service, dry_run, output), uninstalled),
    ensures
        json::text_at(started@.get("action"@)) == Some("daemon_start"@),
        json::text_at(stopped@.get("action"@)) == Some("daemon_stop"@),
        json::text_at(uninstalled@.get("action"@)) == Some("daemon_uninstall"@),
        json::text_at(started@.get("command"@)) == Some(service.start_command@),
        json::text_at(stopped@.get("command"@)) == Some(service.stop_command@),
        json::text_at(uninstalled@.get("uninstallCommand"@)) == Some(service.uninstall_command@),
        json::truth_at(started@.get("dryRun"@)) == Some(dry_run),
        json::truth_at(stopped@.get("dryRun"@)) == Some(dry_run),
        json::truth_at(uninstalled@.get("dryRun"@)) == Some(dry_run),
        started@.get("output"@) == Some(json::or_null(json::opt_view(output))),
        stopped@.get("output"@) == Some(json::or_null(json::opt_view(output))),
        uninstalled@.get("output"@) == Some(json::or_null(json::opt_view(output))),
{
    broadcast use values::added_members_are_found;
    broadcast use values::no_members_are_found;

    names::names_differ();
}

/// What a shell command printed is kept without the blanks around it, each stream as its own.
pub proof fn printed_output_is_kept(
    status: Option<i64>,
    success: bool,
    stdout: &str,
    stderr: &str,
    output: Json,
)
    requires
        call_ensures(service::shell_output, (status, success, stdout, stderr), output),
    ensures
        json::text_at(output@.get("stdout"@)) matches Some(s) && texts::trims_to(stdout@, s),
        json::text_at(output@.get("stderr"@)) matches Some(s) && texts::trims_to(stderr@, s),
        json::truth_at(output@.get("success"@)) == Some(success),
        json::signed_at(output@.get("status"@)) == json::opt_signed(status),
{
    broadcast use values::added_members_are_found;
    broadcast use values::no_members_are_found;

    names::names_differ();
    texts::trimming_takes_only_the_blanks_around(stdout@);
    texts::trimming_takes_only_the_blanks_around(stderr@);
}

/// What launchd is said to have printed is read up to the first line that tells the state.
pub proof fn printed_states_are_read(
    output: &Json,
    runtime: Json,
    printed: Seq<char>,
    k: int,
    rest: Seq<char>,
)
    requires
        call_ensures(service::macos_service_runtime, (output,), runtime),
        json::truth_at(output@.get("success"@)) == Some(true),
        json::text_at(output@.get("stdout"@)) == Some(printed),
        0 <= k < text::lines_of(printed).len(),
        forall|i: int|
            0 <= i < k ==> !text::has_prefix(
                text::trimmed(#[trigger] text::lines_of(printed)[i]),
                "state = "@,
            ),
        texts::trims_to(text::lines_of(printed)[k], "state = "@ + rest),
    ensures
        json::text_at(runtime@.get("state"@)) == Some(text::trimmed(rest)),
        json::truth_at(runtime@.get("running"@)) == Some(text::trimmed(rest) == "running"@),
        json::truth_at(runtime@.get("loaded"@)) == Some(true),
{
    the_first_state_line_tells_the_state(text::lines_of(printed), k, rest);
    launchd_tells_whether_the_service_runs(output@);
}

/// Characters with a meaning in the files of a service are written so that they have none.
pub proof fn characters_with_a_meaning_are_escaped(c: char)
    ensures
        c == '&' ==> service::xml_escaped(c) == "&amp;"@,
        c == '<' ==> service::xml_escaped(c) == "&lt;"@,
        c == '>' ==> service::xml_escaped(c) == "&gt;"@,
        c == '"' ==> service::xml_escaped(c) == "&quot;"@ && service::systemd_escaped(c)
            == "\\\""@,
        c == '\'' ==> service::xml_escaped(c) == "&apos;"@,
        c == '\\' ==> service::systemd_escaped(c) == "\\\\"@,
        c == '%' ==> service::systemd_escaped(c) == "%%"@,
        c != '&' && c != '<' && c != '>' && c != '"' && c != '\'' ==> service::xml_escaped(c)
            == seq![c],
        c != '\\' && c != '"' && c != '%' ==> service::systemd_escaped(c) == seq![c],
{
}

/// A service cannot be named where its label is refused, on a platform without one, and without a
/// home directory, in this order of complaints.
pub proof fn services_are_named_where_they_can_be(
    platform: Platform,
    label: Seq<char>,
    home: Option<Seq<char>>,
)
    ensures
        service::label_error(label) is Some ==> service::naming_error(platform, label, home)
            == service::label_error(label),
        service::label_error(label) is None && platform is Other ==> service::naming_error(
            platform,
            label,
            home,
        ) == Some(ServiceError::UnsupportedPlatform),
        service::label_error(label) is None && !(platform is Other) && home is None
            ==> service::naming_error(platform, label, home) == Some(ServiceError::NoHome),
        service::label_error(label) is None && !(platform is Other) && home is Some
            ==> service::naming_error(platform, label, home) is None,
{
}

/// A label that is taken is taken without the blanks around it.
pub proof fn labels_are_taken_without_blanks(
    label: &str,
    out: Result<&'static str, ServiceError>,
)
    requires
        call_ensures(service::validate_daemon_label, (label,), out),
    ensures
        out matches Ok(kept) ==> texts::trims_to(label@, kept@) && kept@.len() > 0
            && !kept@.contains('/') && !kept@.contains('\\') && !kept@.contains('\''),
        out is Err ==> {
            let kept = text::trimmed(label@);
            kept.len() == 0 || kept.contains('/') || kept.contains('\\') || kept.contains('\'')
        },
{
    texts::trimming_takes_only_the_blanks_around(label@);
}

/// The directories below the home directory come in a fixed order, with those of node behind them;
/// those of the system come in a fixed order too.
pub proof fn directories_come_in_order(home: HomePaths, i: int)
    ensures
        ({
            let all = service::home_entries(home);
            let config = service::sorted(text::texts(home.config_nvm_bins@));
            let own = service::sorted(text::texts(home.nvm_bins@));
            &&& all.len() == 8 + config.len() + own.len()
            &&& all[0] == path::path_joined(home.home@, ".bun/bin"@)
            &&& all[1] == path::path_joined(home.home@, ".cargo/bin"@)
            &&& all[2] == path::path_joined(home.home@, ".local/bin"@)
            &&& all[3] == path::path_joined(home.home@, ".deno/bin"@)
            &&& all[4] == path::path_joined(home.home@, ".pyenv/shims"@)
            &&& all[5] == path::path_joined(home.home@, ".asdf/shims"@)
            &&& all[6] == path::path_joined(home.home@, "Library/pnpm"@)
            &&& all[7] == path::path_joined(home.home@, "go/bin"@)
            &&& 0 <= i < config.len() ==> all[8 + i] == config[i]
            &&& 0 <= i < own.len() ==> all[8 + config.len() + i] == own[i]
        }),
        ({
            let system = service::system_entries();
            &&& system.len() == 7
            &&& system[0] == "/opt/homebrew/bin"@
            &&& system[1] == "/opt/homebrew/sbin"@
            &&& system[2] == "/usr/local/bin"@
            &&& system[3] == "/usr/bin"@
            &&& system[4] == "/bin"@
            &&& system[5] == "/usr/sbin"@
            &&& system[6] == "/sbin"@
        }),
{
}

/// The logs can be followed, and a unit asked whether it is active.
pub proof fn logs_can_be_followed(
    service: &DaemonServiceSpec,
    quoted_stdout: &str,
    quoted_stderr: &str,
    quoted_unit: &str,
    report: Json,
    command: String,
)
    requires
        call_ensures(service::logs_report, (service, quoted_stdout, quoted_stderr), report),
        call_ensures(service::is_active_command, (quoted_unit,), command),
    ensures
        json::text_at(report@.get("label"@)) == Some(service.unit_name@),
        json::text_at(report@.get("stdout"@)) == Some(service.stdout_log@),
        json::text_at(report@.get("stderr"@)) == Some(service.stderr_log@),
        json::text_at(report@.get("tailCommand"@)) == Some(
            "tail -f "@ + quoted_stdout@ + " "@ + quoted_stderr@,
        ),
        command@ == "systemctl --user is-active "@ + quoted_unit@,
{
    broadcast use values::added_members_are_found;
    broadcast use values::no_members_are_found;

    names::names_differ();
}

/// What is wrong with a request for a service is told in words.
pub proof fn refused_services_are_explained(error: ServiceError)
    ensures
        error is EmptyLabel ==> service::service_error(error) == "daemon label cannot be empty"@,
        error is UnsupportedLabel ==> service::service_error(error)
            == "daemon label contains unsupported characters"@,
        error is EmptyBridgeCommand ==> service::service_error(error)
            == "bridge command cannot be empty"@,
        error is NoHome ==> service::service_error(error) == "home directory is not available"@,
        error is UnsupportedPlatform ==> service::service_error(error)
            == "daemon service install is only supported on macOS launchd and Linux systemd"@,
{
}

/// The path is its directories with colons between, a request is refused as its label and command
/// are, and a command is run from where it is.
pub proof fn the_path_has_colons_between(
    home: &Option<HomePaths>,
    current: Option<&str>,
    path_text: String,
    label: &str,
    bridge_command: &str,
    current_dir: Option<&str>,
    found: Option<&str>,
    checked: Result<(), ServiceError>,
    command: String,
)
    requires
        call_ensures(service::daemon_runtime_path, (home, current), path_text),
        call_ensures(service::check_service_request, (label, bridge_command), checked),
        call_ensures(
            service::resolve_service_bridge_command,
            (bridge_command, current_dir, found),
            command,
        ),
    ensures
        path_text@ == text::joined(
            service::runtime_entries(*home, json::opt_text(current)),
            ":"@,
        ),
        checked is Ok <==> service::request_error(label@, bridge_command@) is None,
        checked matches Err(error) ==> service::request_error(label@, bridge_command@) == Some(
            error,
        ),
        command@ == service::service_command(
            bridge_command@,
            json::opt_text(current_dir),
            json::opt_text(found),
        ),
{
}

} // verus!
