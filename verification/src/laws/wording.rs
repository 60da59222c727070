//! How things are worded: references in details, options, shortened texts, projects and states.

use vstd::prelude::*;

use crate::json;
use crate::json::JsonView;
use crate::laws::paths;
use crate::laws::texts;
use crate::number;
use crate::path;
use crate::render;
use crate::render::LiveBackendReport;
use crate::text;
use crate::types::ObservedWorkspace;
use crate::types::RegisteredProject;

verus! {

// ---------------------------------------------------------------------------------------------
// References
// ---------------------------------------------------------------------------------------------

/// What stands between the first `[` and the next `]` is shortened in its place where it is a
/// reference, and left otherwise; the text around it stays, and what follows is treated likewise.
pub proof fn references_are_shortened_in_place(
    before: Seq<char>,
    inside: Seq<char>,
    after: Seq<char>,
)
    requires
        !before.contains('['),
        !inside.contains(']'),
    ensures
        ({
            let shown = render::sanitized(before + seq!['['] + inside + seq![']'] + after);
            &&& render::compacted_reference(inside) matches Some(short) ==> shown == before + short
                + render::sanitized(after)
            &&& render::compacted_reference(inside) is None ==> shown == before + seq!['[']
                + render::sanitized(inside + seq![']'] + after)
        }),
{
    let detail = before + seq!['['] + inside + seq![']'] + after;
    let start = before.len() as int;
    assert forall|i: int| 0 <= i < start implies detail[i] != '[' by {
        assert(detail[i] == before[i]);
        if before[i] == '[' {
            assert(before.contains('['));
        }
    }
    assert(detail[start] == '[');
    text::lemma_first_index_is(detail, '[', start);
    let candidate = detail.skip(start);
    let end: int = inside.len() + 1int;
    assert forall|i: int| 0 <= i < end implies candidate[i] != ']' by {
        if i > 0 {
            assert(candidate[i] == inside[i - 1]);
            if inside[i - 1] == ']' {
                assert(inside.contains(']'));
            }
        }
    }
    assert(candidate[end] == ']');
    text::lemma_first_index_is(candidate, ']', end);
    assert(candidate.subrange(1, end) =~= inside);
    assert(candidate.skip(end + 1) =~= after);
    assert(candidate.skip(1) =~= inside + seq![']'] + after);
    assert(detail.take(start) =~= before);
    assert(before.push('[') =~= before + seq!['[']);
}

/// A text whose bracket is not closed stays as it is.
pub proof fn open_brackets_are_left(before: Seq<char>, after: Seq<char>)
    requires
        !before.contains('['),
        !after.contains(']'),
    ensures
        render::sanitized(before + seq!['['] + after) == before + seq!['['] + after,
        render::sanitized(before) == before,
{
    let detail = before + seq!['['] + after;
    let start = before.len() as int;
    assert forall|i: int| 0 <= i < start implies detail[i] != '[' by {
        assert(detail[i] == before[i]);
        if before[i] == '[' {
            assert(before.contains('['));
        }
    }
    assert(detail[start] == '[');
    text::lemma_first_index_is(detail, '[', start);
    let candidate = detail.skip(start);
    assert forall|i: int| 0 <= i < candidate.len() implies candidate[i] != ']' by {
        if i > 0 {
            assert(candidate[i] == after[i - 1]);
            if after[i - 1] == ']' {
                assert(after.contains(']'));
            }
        }
    }
    text::lemma_first_index_is(candidate, ']', candidate.len() as int);
    render::sanitizing_leaves_plain_text(before);
}

/// A reference is an absolute path, with or without a mark before it; it is shortened to the name
/// of its file, and to the line where one follows.
pub proof fn references_are_shortened_to_file_and_line(
    dir: Seq<char>,
    name: Seq<char>,
    line: Seq<char>,
)
    requires
        dir.len() == 0 || dir[0] == '/',
        !dir.contains('†'),
        !name.contains('†'),
        paths::is_file_name(name),
    ensures
        ({
            let path = dir.push('/') + name;
            let marked = path + seq!['†'] + line;
            let short = if text::blank(line) {
                name
            } else {
                name + " "@ + text::trimmed(line)
            };
            &&& render::compacted_reference(path) == Some(name)
            &&& render::compacted_reference("F:"@ + path) == Some(name)
            &&& render::compacted_reference("f:"@ + path) == Some(name)
            &&& render::compacted_reference(marked) == Some(short)
            &&& render::compacted_reference("F:"@ + marked) == Some(short)
            &&& render::compacted_reference("f:"@ + marked) == Some(short)
        }),
{
    let path = dir.push('/') + name;
    let marked = path + seq!['†'] + line;
    assert(path.take(path.len() as int) =~= path);
    assert(marked.take(path.len() as int) =~= path);
    lemma_reference(dir, name, path, path.len() as int);
    lemma_reference(dir, name, marked, path.len() as int);
    assert(marked.skip(path.len() + 1int) =~= line);
    lemma_mark(path);
    lemma_mark(marked);
    texts::trimming_takes_only_the_blanks_around(line);
    texts::blank_means_only_blanks(line);
}

proof fn lemma_reference(dir: Seq<char>, name: Seq<char>, all: Seq<char>, k: int)
    requires
        dir.len() == 0 || dir[0] == '/',
        !dir.contains('†'),
        !name.contains('†'),
        paths::is_file_name(name),
        k == dir.len() + 1 + name.len(),
        k <= all.len(),
        all.take(k) == dir.push('/') + name,
        k < all.len() ==> all[k] == '†',
    ensures
        text::first_index(all, '†') == k,
        all[0] == '/',
        path::path_file_name(all.take(k)) == Some(name),
{
    let path = dir.push('/') + name;
    paths::the_file_name_follows_the_last_slash(dir, name, dir);
    assert forall|i: int| 0 <= i < k implies all[i] != '†' by {
        assert(all[i] == path[i]);
        if i < dir.len() {
            assert(path[i] == dir[i]);
            if dir[i] == '†' {
                assert(dir.contains('†'));
            }
        } else if i > dir.len() {
            assert(path[i] == name[i - dir.len() - 1]);
            if name[i - dir.len() - 1] == '†' {
                assert(name.contains('†'));
            }
        }
    }
    text::lemma_first_index_is(all, '†', k);
    assert(all[0] == path[0]);
}

proof fn lemma_mark(s: Seq<char>)
    requires
        s.len() > 0,
        s[0] == '/',
    ensures
        render::reference_path(s) == s,
        render::reference_path("F:"@ + s) == s,
        render::reference_path("f:"@ + s) == s,
{
    reveal_strlit("F:");
    reveal_strlit("f:");
    texts::occurring_means_standing_between(Seq::empty(), "F:"@, s);
    texts::occurring_means_standing_between(Seq::empty(), "f:"@, s);
    assert(("F:"@ + s).skip(2) =~= s);
    assert(("f:"@ + s).skip(2) =~= s);
    assert("F:"@[0] == 'F' && "f:"@[0] == 'f');
    assert(("f:"@ + s)[0] == 'f');
    if s.len() >= 2 {
        assert(s.subrange(0, 2)[0] == '/');
    }
    assert(("f:"@ + s).subrange(0, 2)[0] == 'f');
}

/// Anything that is not an absolute path is left.
pub proof fn other_brackets_are_left(inside: Seq<char>)
    requires
        inside.len() == 0 || (inside[0] != '/' && inside[0] != 'F' && inside[0] != 'f'),
    ensures
        render::compacted_reference(inside) is None,
{
    reveal_strlit("F:");
    reveal_strlit("f:");
    assert("F:"@[0] == 'F' && "f:"@[0] == 'f');
    if inside.len() >= 2 {
        assert(inside.subrange(0, 2)[0] == inside[0]);
    }
}

// ---------------------------------------------------------------------------------------------
// Options
// ---------------------------------------------------------------------------------------------

/// Options are marked with the letters from A on and then with their numbers, and with a colour
/// each; the colours repeat after eight.
pub proof fn options_are_lettered_and_coloured(index: int)
    requires
        0 <= index < 0x1_0000_0000,
    ensures
        render::option_marker_text(index) == render::option_dot(index) + render::option_letter_text(
            index,
        ),
        index < 26 ==> render::option_letter_text(index).len() == 1 && render::option_letter_text(
            index,
        )[0] as u32 == 'A' as u32 + index,
        index >= 26 ==> render::option_letter_text(index) == number::decimal((index + 1) as nat),
        index % 8 == 0 ==> render::option_dot(index) == "🔴"@,
        index % 8 == 1 ==> render::option_dot(index) == "🟠"@,
        index % 8 == 2 ==> render::option_dot(index) == "🟡"@,
        index % 8 == 3 ==> render::option_dot(index) == "🟢"@,
        index % 8 == 4 ==> render::option_dot(index) == "🔵"@,
        index % 8 == 5 ==> render::option_dot(index) == "🟣"@,
        index % 8 == 6 ==> render::option_dot(index) == "🟤"@,
        index % 8 == 7 ==> render::option_dot(index) == "⚫"@,
{
}

/// A button begins with the marker of its option and has the words of its label; where that is too
/// long for a button it is cut as late as possible, and says so.
pub proof fn buttons_show_as_much_of_the_label_as_fits(position: int, label: Seq<char>)
    ensures
        ({
            let line = render::option_marker_text(position) + " "@ + text::joined(
                text::words(label),
                " "@,
            );
            let shown = render::option_button(position, label);
            &&& text::utf16_len(line) <= 64 ==> shown == line
            &&& text::utf16_len(line) > 64 ==> {
                &&& shown.len() > 0
                &&& shown.last() == '…'
                &&& text::has_prefix(line, shown.drop_last())
                &&& text::utf16_len(shown) <= 64
                &&& shown.len() <= line.len()
                &&& text::utf16_len(line.take(shown.len() as int)) >= 64
            }
        }),
{
    let line = render::option_line(position, label);
    render::option_buttons_fit(position, label);
    if text::utf16_len(line) > 64 {
        lemma_cut_late(line, 64);
        let k = render::units_below(line, 64);
        let shown = render::option_button(position, label);
        assert(shown.drop_last() =~= line.take(k));
        assert(line.subrange(0, k) =~= line.take(k));
    }
}

proof fn lemma_cut_late(s: Seq<char>, limit: int)
    requires
        0 < limit <= text::utf16_len(s),
    ensures
        0 <= render::units_below(s, limit) < s.len(),
        text::utf16_len(s.take(render::units_below(s, limit) + 1)) >= limit,
    decreases s.len(),
{
    if s.len() > 0 {
        let front = s.drop_last();
        if text::utf16_len(front) >= limit {
            lemma_cut_late(front, limit);
            let k = render::units_below(front, limit);
            assert(front.take(k + 1) =~= s.take(k + 1));
        } else {
            assert(render::units_below(front, limit) == front.len());
            assert(s.take(s.len() as int) =~= s);
        }
    }
}

/// The identifier of a button begins with a mark and has a fixed length.
pub proof fn button_identifiers_have_one_length(name: Seq<char>, digits: Seq<char>)
    requires
        digits == crate::digest::sha256_text(name),
        digits.len() == 64,
    ensures
        render::callback_id_of(name) == "cb_"@ + digits.take(24),
        render::callback_id_of(name).len() == 27,
        render::callback_data_of(name) == "codex:"@ + render::callback_id_of(name),
{
    reveal_strlit("cb_");
}

// ---------------------------------------------------------------------------------------------
// Shortened texts
// ---------------------------------------------------------------------------------------------

/// A detail is shown without the blanks around it and not at all where it is blank. One that is too
/// long is cut from the end, and ends with three dots.
pub proof fn details_are_cut_at_the_end(value: Seq<char>, kept: Seq<char>, max: int)
    requires
        texts::trims_to(value, kept),
        max >= 3,
    ensures
        kept.len() == 0 <==> render::trimmed_detail(value, max) is None,
        0 < kept.len() <= max ==> render::trimmed_detail(value, max) == Some(kept),
        kept.len() > max ==> {
            let shown = render::trimmed_detail(value, max)->0;
            &&& shown.len() <= max
            &&& text::has_suffix(shown, "..."@)
            &&& shown == text::trimmed_end(kept.take(max - 3)) + "..."@
            &&& text::has_prefix(kept, text::trimmed_end(kept.take(max - 3)))
        },
{
    texts::trimming_gives_what_is_between_the_blanks(value, kept);
    reveal_strlit("...");
    if kept.len() > max {
        let front = kept.take(max - 3);
        texts::trimming_one_end_takes_only_its_blanks(front);
        let end = text::trimmed_end(front);
        let j = choose|j: int|
            0 <= j <= front.len() && text::trimmed_end(front) == #[trigger] front.take(j) && (
            forall|k: int| j <= k < front.len() ==> text::white(#[trigger] front[k])) && (j > 0
                ==> !text::white(front[j - 1]));
        assert(kept.subrange(0, j) =~= front.take(j));
        texts::occurring_means_standing_between(end, "..."@, Seq::empty());
    }
}

/// A line is shown without the blanks around it and with blanks for its line ends; one that is too
/// long is cut from the end, and ends with three dots.
pub proof fn lines_stay_on_one_line(value: Seq<char>, kept: Seq<char>, max: int, i: int)
    requires
        texts::trims_to(value, kept),
        max >= 1,
        0 <= i < kept.len(),
    ensures
        ({
            let shown = render::trimmed_line(value, max);
            &&& !shown.contains('\n')
            &&& kept.len() <= max ==> shown.len() == kept.len()
            &&& kept.len() > max ==> shown.len() == max + 2 && text::has_suffix(shown, "..."@)
            &&& kept.len() <= max || i < max - 1 ==> shown[i] == if kept[i] == '\n' {
                ' '
            } else {
                kept[i]
            }
        }),
{
    texts::trimming_gives_what_is_between_the_blanks(value, kept);
    texts::replacing_changes_one_character(kept, '\n', ' ');
    reveal_strlit("...");
    let line = text::rewritten(kept, text::swapped('\n', ' '));
    let shown = render::trimmed_line(value, max);
    assert forall|k: int| 0 <= k < shown.len() implies shown[k] != '\n' by {
        if kept.len() <= max || k < max - 1 {
            assert(shown[k] == line[k]);
        }
    }
    if kept.len() > max {
        texts::occurring_means_standing_between(line.take(max - 1), "..."@, Seq::empty());
    }
}

// ---------------------------------------------------------------------------------------------
// Projects
// ---------------------------------------------------------------------------------------------

proof fn lemma_project_lines(
    projects: Seq<RegisteredProject>,
    current: Option<&RegisteredProject>,
    i: int,
)
    requires
        0 <= i < projects.len(),
    ensures
        ({
            let lines = render::project_lines(projects, current);
            let marker = if current is Some && current->0.id@ == projects[i].id@ {
                "•"@
            } else {
                "-"@
            };
            &&& lines.len() == 2 * projects.len()
            &&& lines[2 * i] == marker + " "@ + projects[i].id@ + " - "@ + render::trimmed_line(
                projects[i].label@,
                80,
            )
            &&& lines[2 * i + 1] == "  "@ + projects[i].cwd@
        }),
    decreases projects.len(),
{
    let front = projects.drop_last();
    if i < front.len() {
        lemma_project_lines(front, current, i);
        assert(front[i] == projects[i]);
    } else if front.len() > 0 {
        lemma_project_lines(front, current, 0);
    } else {
        assert(render::project_lines(front, current).len() == 0);
    }
}

/// Every project is listed with its identifier, label and directory, and the current one, and only
/// it, is marked; of the observed workspaces the first five are listed.
pub proof fn every_project_is_listed(
    projects: Seq<RegisteredProject>,
    current: Option<&RegisteredProject>,
    observed: Seq<ObservedWorkspace>,
    i: int,
    k: int,
)
    ensures
        ({
            let shown = render::projects_text(projects, current, observed);
            &&& current matches Some(project) ==> text::occurs_in(
                "Current: "@ + project.id@ + " ("@ + project.label@ + ")"@,
                shown,
            )
            &&& current is None ==> text::occurs_in("Current: none selected"@, shown)
            &&& projects.len() == 0 ==> text::occurs_in("No projects are configured yet."@, shown)
            &&& 0 <= i < projects.len() ==> text::occurs_in(
                (if current is Some && current->0.id@ == projects[i].id@ {
                    "•"@
                } else {
                    "-"@
                }) + " "@ + projects[i].id@ + " - "@ + render::trimmed_line(projects[i].label@, 80),
                shown,
            ) && text::occurs_in("  "@ + projects[i].cwd@, shown)
            &&& 0 <= k < observed.len() && k < 5 ==> text::occurs_in(
                "- "@ + observed[k].label@ + " - "@ + render::trimmed_line(observed[k].cwd@, 90),
                shown,
            )
        }),
{
    let head = Seq::<Seq<char>>::empty().push("Projects"@).push(Seq::empty());
    let named = match current {
        Some(project) => head.push("Current: "@ + project.id@ + " ("@ + project.label@ + ")"@),
        None => head.push("Current: none selected"@),
    };
    let listed = render::project_lines(projects, current);
    let configured = if projects.len() == 0 {
        named.push(Seq::empty()).push("No projects are configured yet."@)
    } else {
        named.push(Seq::empty()).push("Configured:"@) + listed
    };
    let works = render::workspace_lines(observed);
    let lines = (configured + works).push(Seq::empty()).push(
        "Use /project <id> to switch the current project."@,
    );
    assert(render::projects_text(projects, current, observed) == text::joined(lines, "\n"@));
    assert(lines[2] == named[2]);
    texts::joining_keeps_every_part(lines, "\n"@, 2);
    texts::joining_keeps_every_part(lines, "\n"@, 4);
    if projects.len() == 0 {
        assert(lines[4] == "No projects are configured yet."@);
    }
    if 0 <= i < projects.len() {
        lemma_project_lines(projects, current, i);
        let at = 5 + 2 * i;
        assert(configured[at] == listed[2 * i]);
        assert(lines[at] == listed[2 * i]);
        assert(configured[at + 1] == listed[2 * i + 1]);
        assert(lines[at + 1] == listed[2 * i + 1]);
        texts::joining_keeps_every_part(lines, "\n"@, at);
        texts::joining_keeps_every_part(lines, "\n"@, at + 1);
    }
    if 0 <= k < observed.len() && k < 5 {
        let at = configured.len() + 2 + k;
        assert(works[2 + k] == render::workspace_line(observed[k]));
        assert(lines[at] == works[2 + k]);
        texts::joining_keeps_every_part(lines, "\n"@, at);
    }
}

/// At most five observed workspaces are listed.
pub proof fn few_workspaces_are_listed(observed: Seq<ObservedWorkspace>)
    ensures
        observed.len() == 0 ==> render::workspace_lines(observed).len() == 0,
        0 < observed.len() <= 5 ==> render::workspace_lines(observed).len() == observed.len() + 3,
        observed.len() > 5 ==> render::workspace_lines(observed).len() == 8,
{
}

/// The current project is shown with its identifier, label and directory.
pub proof fn the_current_project_is_shown(project: &RegisteredProject)
    ensures
        text::has_prefix(
            render::project_text(Some(project)),
            "Current project\n\n"@ + project.id@ + " ("@ + project.label@ + ")\n"@ + project.cwd@,
        ),
        render::project_text(None)
            == "No current project is selected.\n\nUse /project to inspect the registry, then /project <id> to choose one."@,
{
    let front = "Current project\n\n"@ + project.id@ + " ("@ + project.label@ + ")\n"@
        + project.cwd@;
    let rest = "\n\nNew Telegram threads will start here until you switch again."@;
    texts::occurring_means_standing_between(Seq::empty(), front, rest);
    assert(render::project_text(Some(project)) =~= front + rest);
}

// ---------------------------------------------------------------------------------------------
// States
// ---------------------------------------------------------------------------------------------

/// The state of the backend says whether it is healthy, where it listens and which process it is,
/// and what to do: go away where it is healthy, repair it where it is not.
pub proof fn the_backend_state_says_what_to_do(report: LiveBackendReport)
    ensures
        ({
            let line = render::backend_status_line(report);
            match report {
                LiveBackendReport::ConfigUnavailable { error } => line
                    == "Shared live backend: config unavailable ("@ + error@
                    + "). Run setup locally."@,
                LiveBackendReport::NotConfigured => line
                    == "Shared live backend: not configured. Run setup locally."@,
                LiveBackendReport::Known { status } => {
                    let pid = match status.pid {
                        Some(pid) => number::decimal(pid as nat),
                        None => "none"@,
                    };
                    &&& text::has_prefix(
                        line,
                        "Shared live backend: "@ + if status.healthy {
                            "healthy"@
                        } else {
                            "unhealthy"@
                        } + ", "@ + status.websocket_url@ + ", pid "@ + pid,
                    )
                    &&& status.healthy ==> text::has_suffix(line, "Use /away before you leave."@)
                    &&& !status.healthy ==> text::has_suffix(line, "Use /repair to recover."@)
                },
                LiveBackendReport::Unreachable { websocket_url, error } => line
                    == "Shared live backend: unhealthy, "@ + websocket_url@ + " ("@ + error@
                    + "). Use /repair to recover."@,
            }
        }),
{
    match report {
        LiveBackendReport::Known { status } => {
            let front = "Shared live backend: "@ + render::health_word(status.healthy) + ", "@
                + status.websocket_url@ + ", pid "@ + render::pid_text(status.pid, "none"@);
            let advice = if status.healthy {
                "Use /away before you leave."@
            } else {
                "Use /repair to recover."@
            };
            assert(render::backend_status_line(report) =~= front + (". "@ + advice));
            texts::occurring_means_standing_between(Seq::empty(), front, ". "@ + advice);
            texts::occurring_means_standing_between(front + ". "@, advice, Seq::empty());
            assert(render::backend_status_line(report) =~= (front + ". "@) + advice);
        },
        _ => {},
    }
}

/// The status tells the mode, the state of the backend, how many notifications wait to be sent and
/// how many threads wait for the user.
pub proof fn the_status_tells_both_counts(
    away: JsonView,
    report: LiveBackendReport,
    pending: nat,
    waiting: nat,
)
    ensures
        text::has_prefix(
            render::status_text(away, report, pending, waiting),
            "Codex remote status\n\nRemote mode: "@ + (if json::truth_at(away.get("away"@)) == Some(
                true,
            ) {
                "on"@
            } else {
                "off"@
            }) + "\n"@ + render::backend_status_line(report)
                + "\nPending Telegram notifications: "@ + number::decimal(pending)
                + "\nThreads waiting for you: "@ + number::decimal(waiting),
        ),
{
    let front = "Codex remote status\n\nRemote mode: "@ + render::away_word(away) + "\n"@
        + render::backend_status_line(report) + "\nPending Telegram notifications: "@
        + number::decimal(pending) + "\nThreads waiting for you: "@ + number::decimal(waiting);
    let rest = "\n\nUse /away before you leave. Use /repair if the backend is unhealthy. Use /back when you return."@;
    texts::occurring_means_standing_between(Seq::empty(), front, rest);
    assert(render::status_text(away, report, pending, waiting) =~= front + rest);
}

/// A new thread is confirmed with its project, and with its directory where Codex tells one.
pub proof fn a_new_thread_is_confirmed(label: Seq<char>, result: JsonView)
    ensures
        text::has_prefix(
            render::new_thread_confirmation(label, result),
            "Started a new Codex thread in "@ + label,
        ),
        json::text_at(result.get("cwd"@)) matches Some(cwd) ==> (!text::blank(cwd)
            ==> text::has_prefix(
            render::new_thread_confirmation(label, result),
            "Started a new Codex thread in "@ + label + ".\n"@ + cwd,
        )),
        json::text_at(result.get("cwd"@)) is None || text::blank(
            json::text_at(result.get("cwd"@))->0,
        ) ==> text::has_prefix(
            render::new_thread_confirmation(label, result),
            "Started a new Codex thread in "@ + label
                + " with no explicit working directory reported back."@,
        ),
{
    let front = "Started a new Codex thread in "@ + label;
    let cwd = json::text_at(result.get("cwd"@));
    if cwd is Some && !text::blank(cwd->0) {
        let rest = "\n\nCodex is working on the first answer now. I will send the answer here when it finishes.\n\nUse Telegram's Reply action on this message to continue it."@;
        let more = ".\n"@ + cwd->0 + rest;
        assert(render::new_thread_confirmation(label, result) =~= front + more);
        texts::occurring_means_standing_between(Seq::empty(), front, more);
        let longer = front + ".\n"@ + cwd->0;
        assert(render::new_thread_confirmation(label, result) =~= longer + rest);
        texts::occurring_means_standing_between(Seq::empty(), longer, rest);
    } else {
        let rest = " with no explicit working directory reported back.\n\nCodex is working on the first answer now. I will send the answer here when it finishes.\n\nUse Telegram's Reply action on this message to continue it."@;
        texts::occurring_means_standing_between(Seq::empty(), front, rest);
        lemma_no_directory(rest);
        let said = " with no explicit working directory reported back."@;
        assert(front + rest =~= (front + said) + rest.skip(said.len() as int));
        texts::occurring_means_standing_between(
            Seq::empty(),
            front + said,
            rest.skip(said.len() as int),
        );
    }
}

proof fn lemma_no_directory(rest: Seq<char>)
    requires
        rest
            == " with no explicit working directory reported back.\n\nCodex is working on the first answer now. I will send the answer here when it finishes.\n\nUse Telegram's Reply action on this message to continue it."@,
    ensures
        ({
            let said = " with no explicit working directory reported back."@;
            rest.len() >= said.len() && rest == said + rest.skip(said.len() as int)
        }),
{
    let said = " with no explicit working directory reported back."@;
    reveal_strlit(" with no explicit working directory reported back.");
    reveal_strlit(" with no explicit working directory reported back.\n\nCodex is working on the first answer now. I will send the answer here when it finishes.\n\nUse Telegram's Reply action on this message to continue it.");
    assert(rest.take(said.len() as int) =~= said);
    assert(rest =~= rest.take(said.len() as int) + rest.skip(said.len() as int));
}

/// The identifier of a button is made of the beginning of a digest.
pub proof fn button_identifiers_begin_with_the_digest(digest: &str, id: String)
    requires
        call_ensures(render::callback_id_from_digest, (digest,), id),
    ensures
        digest@.len() >= 24 ==> id@ == "cb_"@ + digest@.take(24),
        digest@.len() < 24 ==> id@ == "cb_"@ + digest@,
{
}

/// The list of projects begins with the current one and ends with how to switch; the projects stand
/// in their order, each with its directory below it.
pub proof fn projects_stand_in_their_order(
    projects: Seq<RegisteredProject>,
    current: Option<&RegisteredProject>,
    observed: Seq<ObservedWorkspace>,
)
    requires
        projects.len() > 0,
    ensures
        ({
            let named = match current {
                Some(project) => "Current: "@ + project.id@ + " ("@ + project.label@ + ")"@,
                None => "Current: none selected"@,
            };
            let listed = text::joined(render::project_lines(projects, current), "\n"@);
            let works = render::workspace_lines(observed);
            render::projects_text(projects, current, observed) == "Projects"@ + "\n"@ + "\n"@ + named
                + "\n"@ + "\n"@ + "Configured:"@ + "\n"@ + listed + (if works.len() > 0 {
                "\n"@ + text::joined(works, "\n"@)
            } else {
                Seq::empty()
            }) + "\n"@ + "\n"@ + "Use /project <id> to switch the current project."@
        }),
        render::project_lines(projects, current).len() == 2 * projects.len(),
        forall|i: int|
            0 <= i < projects.len() ==> #[trigger] render::project_lines(projects, current)[2 * i + 1]
                == "  "@ + projects[i].cwd@,
{
    let empty = Seq::<char>::empty();
    let named = match current {
        Some(project) => "Current: "@ + project.id@ + " ("@ + project.label@ + ")"@,
        None => "Current: none selected"@,
    };
    let one = Seq::<Seq<char>>::empty().push("Projects"@);
    let two = one.push(empty);
    let three = two.push(named);
    let four = three.push(empty);
    let five = four.push("Configured:"@);
    texts::joining_one_more_part("\n"@, one, empty);
    texts::joining_one_more_part("\n"@, two, named);
    texts::joining_one_more_part("\n"@, three, empty);
    texts::joining_one_more_part("\n"@, four, "Configured:"@);
    assert(text::joined(one, "\n"@) == "Projects"@);
    let top = "Projects"@ + "\n"@ + "\n"@ + named + "\n"@ + "\n"@ + "Configured:"@;
    assert(text::joined(five, "\n"@) =~= top);
    let listed = render::project_lines(projects, current);
    lemma_project_lines(projects, current, 0);
    texts::joining_sets_separators_between(five, listed, "\n"@, named);
    let works = render::workspace_lines(observed);
    texts::joining_sets_separators_between(five + listed, works, "\n"@, named);
    let shown = if works.len() > 0 {
        "\n"@ + text::joined(works, "\n"@)
    } else {
        empty
    };
    if works.len() == 0 {
        assert(five + listed + works =~= five + listed);
    }
    assert(text::joined(five + listed + works, "\n"@) =~= top + "\n"@ + text::joined(listed, "\n"@)
        + shown);
    texts::joining_one_more_part("\n"@, five + listed + works, empty);
    texts::joining_one_more_part(
        "\n"@,
        (five + listed + works).push(empty),
        "Use /project <id> to switch the current project."@,
    );
    assert(render::projects_text(projects, current, observed) =~= top + "\n"@ + text::joined(
        listed,
        "\n"@,
    ) + shown + "\n"@ + "\n"@ + "Use /project <id> to switch the current project."@);
    assert forall|i: int| 0 <= i < projects.len() implies #[trigger] listed[2 * i + 1] == "  "@
        + projects[i].cwd@ by {
        lemma_project_lines(projects, current, i);
    }
}

/// The help explains replies first and then every command, one in a line.
pub proof fn the_help_explains_every_command(i: int)
    requires
        0 <= i < 14,
    ensures
        ({
            let lines = seq![
                "Codex remote is ready."@,
                Seq::<char>::empty(),
                "Use Telegram's Reply action on a Codex notification to continue that exact thread."@,
                Seq::<char>::empty(),
                "/away - start remote Codex mode"@,
                "/back - stop remote Codex mode"@,
                "/repair - fix remote Codex mode"@,
                "/status - show remote status"@,
                "/threads - show the 5 most recent Codex threads"@,
                "/threads <count> - show that many recent Codex threads"@,
                "/new <prompt> - start a new Codex thread"@,
                "/new - ask for a prompt in a reply"@,
                "/project - list projects"@,
                "/project <id> - switch the current project"@,
            ];
            &&& render::help_text() == text::joined(lines, "\n"@)
            &&& text::occurs_in(lines[i], render::help_text())
        }),
{
    let lines = render::help_lines();
    texts::joining_keeps_every_part(lines, "\n"@, i);
    assert(lines =~= seq![
        "Codex remote is ready."@,
        Seq::<char>::empty(),
        "Use Telegram's Reply action on a Codex notification to continue that exact thread."@,
        Seq::<char>::empty(),
        "/away - start remote Codex mode"@,
        "/back - stop remote Codex mode"@,
        "/repair - fix remote Codex mode"@,
        "/status - show remote status"@,
        "/threads - show the 5 most recent Codex threads"@,
        "/threads <count> - show that many recent Codex threads"@,
        "/new <prompt> - start a new Codex thread"@,
        "/new - ask for a prompt in a reply"@,
        "/project - list projects"@,
        "/project <id> - switch the current project"@,
    ]);
}

} // verus!
