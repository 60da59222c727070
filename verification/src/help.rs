//! What the help text promises: the commands that it names are there, the commands that there are
//! have a line in it, and the commands that are gone have left it.

use vstd::prelude::*;

use crate::inbound;
use crate::render;
use crate::text;

verus! {

/// The commands that are gone.
pub open spec fn removed_commands() -> Seq<Seq<char>> {
    seq![
        "/away_on"@,
        "/away_off"@,
        "/live_on"@,
        "/live_reset"@,
        "/new_thread"@,
        "/projects"@,
        "/inbox"@,
        "/waiting"@,
        "/recent"@,
        "/settings"@,
    ]
}

/// The command is one that the bot knows.
pub open spec fn is_supported(command: Option<inbound::CommandView>) -> bool {
    command is Some && !(command->0 is Unknown)
}

/// The lines of the help text.
pub open spec fn help_split() -> Seq<Seq<char>> {
    text::parts_of(render::help_text(), '\n')
}

/// A line that names a command starts with the name and a blank, and holds no other slash.
spec fn names_command(line: Seq<char>, name: Seq<char>) -> bool {
    &&& 0 < name.len() < line.len()
    &&& line.take(name.len() as int) == name
    &&& name[0] == '/'
    &&& line[name.len() as int] == ' '
    &&& forall|i: int| 0 < i < line.len() ==> #[trigger] line[i] != '/'
    &&& !line.contains('\n')
}

/// A line that names a command is read as that command.
proof fn lemma_command_line(line: Seq<char>, name: Seq<char>)
    requires
        names_command(line, name),
        !text::white(line.last()),
        forall|i: int|
            0 <= i < name.len() ==> !text::white(#[trigger] name[i]) && name[i] != '@'
                && text::ascii_lower(name[i]) == name[i],
    ensures
        inbound::parsed_command(line) == Some(
            inbound::command_for(name, inbound::command_argument(line)),
        ),
        inbound::command_name(name) == name,
{
    let n = name.len() as int;
    assert forall|i: int| 0 <= i < n implies !text::white(line[i]) by {
        assert(line.take(n)[i] == name[i]);
    }
    assert(line.take(n)[0] == name[0]);
    assert(text::trimmed_start(line) == line);
    assert(text::trimmed(line) == line);
    text::lemma_first_white_is(line, n);
    text::lemma_first_index_is(name, '@', n);
    assert(name.take(n) =~= name);
    assert(text::ascii_lowered(name) =~= name);
}

/// The names of the commands stand for the commands.
proof fn lemma_names_are_supported(argument: Option<Seq<char>>)
    ensures
        inbound::command_name("/away"@) == "/away"@ ==> inbound::command_for("/away"@, argument)
            == inbound::CommandView::Away,
        inbound::command_name("/back"@) == "/back"@ ==> inbound::command_for("/back"@, argument)
            == inbound::CommandView::Back,
        inbound::command_name("/repair"@) == "/repair"@ ==> inbound::command_for("/repair"@, argument)
            == inbound::CommandView::Repair,
        inbound::command_name("/status"@) == "/status"@ ==> inbound::command_for("/status"@, argument)
            == inbound::CommandView::Status,
        inbound::command_name("/threads"@) == "/threads"@ ==> inbound::command_for("/threads"@, argument)
            == inbound::CommandView::Threads(argument),
        inbound::command_name("/new"@) == "/new"@ ==> inbound::command_for("/new"@, argument)
            == inbound::CommandView::NewThread(argument),
        inbound::command_name("/project"@) == "/project"@ ==> inbound::command_for("/project"@, argument)
            == inbound::CommandView::Project(argument),
{
    reveal_strlit("/start");
    reveal_strlit("/help");
    reveal_strlit("/away");
    reveal_strlit("/back");
    reveal_strlit("/repair");
    reveal_strlit("/status");
    reveal_strlit("/threads");
    reveal_strlit("/new");
    reveal_strlit("/project");
    assert("/start"@.len() == 6);
    assert("/help"@.len() == 5);
    assert("/away"@.len() == 5);
    assert("/back"@.len() == 5);
    assert("/repair"@.len() == 7);
    assert("/status"@.len() == 7);
    assert("/threads"@.len() == 8);
    assert("/new"@.len() == 4);
    assert("/project"@.len() == 8);
    assert("/help"@[1] != "/away"@[1]);
    assert("/help"@[1] != "/back"@[1]);
    assert("/away"@[1] != "/back"@[1]);
    assert("/repair"@[1] != "/status"@[1]);
    assert("/threads"@[1] != "/project"@[1]);
}

proof fn lemma_away_line()
    ensures
        names_command("/away - start remote Codex mode"@, "/away"@),
        inbound::parsed_command("/away - start remote Codex mode"@) == Some(
            inbound::command_for("/away"@, inbound::command_argument("/away - start remote Codex mode"@)),
        ),
        inbound::command_name("/away"@) == "/away"@,
{
    reveal_strlit("/away - start remote Codex mode");
    reveal_strlit("/away");
    let line = "/away - start remote Codex mode"@;
    let name = "/away"@;
    assert(line.take(5) =~= name);
    assert(line.last() == 'e');
    lemma_command_line(line, name);
}

proof fn lemma_back_line()
    ensures
        names_command("/back - stop remote Codex mode"@, "/back"@),
        inbound::parsed_command("/back - stop remote Codex mode"@) == Some(
            inbound::command_for("/back"@, inbound::command_argument("/back - stop remote Codex mode"@)),
        ),
        inbound::command_name("/back"@) == "/back"@,
{
    reveal_strlit("/back - stop remote Codex mode");
    reveal_strlit("/back");
    let line = "/back - stop remote Codex mode"@;
    let name = "/back"@;
    assert(line.take(5) =~= name);
    assert(line.last() == 'e');
    lemma_command_line(line, name);
}

proof fn lemma_repair_line()
    ensures
        names_command("/repair - fix remote Codex mode"@, "/repair"@),
        inbound::parsed_command("/repair - fix remote Codex mode"@) == Some(
            inbound::command_for("/repair"@, inbound::command_argument("/repair - fix remote Codex mode"@)),
        ),
        inbound::command_name("/repair"@) == "/repair"@,
{
    reveal_strlit("/repair - fix remote Codex mode");
    reveal_strlit("/repair");
    let line = "/repair - fix remote Codex mode"@;
    let name = "/repair"@;
    assert(line.take(7) =~= name);
    assert(line.last() == 'e');
    lemma_command_line(line, name);
}

proof fn lemma_status_line()
    ensures
        names_command("/status - show remote status"@, "/status"@),
        inbound::parsed_command("/status - show remote status"@) == Some(
            inbound::command_for("/status"@, inbound::command_argument("/status - show remote status"@)),
        ),
        inbound::command_name("/status"@) == "/status"@,
{
    reveal_strlit("/status - show remote status");
    reveal_strlit("/status");
    let line = "/status - show remote status"@;
    let name = "/status"@;
    assert(line.take(7) =~= name);
    assert(line.last() == 's');
    lemma_command_line(line, name);
}

proof fn lemma_threads_line()
    ensures
        names_command("/threads - show the 5 most recent Codex threads"@, "/threads"@),
        inbound::parsed_command("/threads - show the 5 most recent Codex threads"@) == Some(
            inbound::command_for("/threads"@, inbound::command_argument("/threads - show the 5 most recent Codex threads"@)),
        ),
        inbound::command_name("/threads"@) == "/threads"@,
{
    reveal_strlit("/threads - show the 5 most recent Codex threads");
    reveal_strlit("/threads");
    let line = "/threads - show the 5 most recent Codex threads"@;
    let name = "/threads"@;
    assert(line.take(8) =~= name);
    assert(line.last() == 's');
    lemma_command_line(line, name);
}

proof fn lemma_threads_count_line()
    ensures
        names_command("/threads <count> - show that many recent Codex threads"@, "/threads"@),
        inbound::parsed_command("/threads <count> - show that many recent Codex threads"@) == Some(
            inbound::command_for("/threads"@, inbound::command_argument("/threads <count> - show that many recent Codex threads"@)),
        ),
        inbound::command_name("/threads"@) == "/threads"@,
{
    reveal_strlit("/threads <count> - show that many recent Codex threads");
    reveal_strlit("/threads");
    let line = "/threads <count> - show that many recent Codex threads"@;
    let name = "/threads"@;
    assert(line.take(8) =~= name);
    assert(line.last() == 's');
    lemma_command_line(line, name);
}

proof fn lemma_new_prompt_line()
    ensures
        names_command("/new <prompt> - start a new Codex thread"@, "/new"@),
        inbound::parsed_command("/new <prompt> - start a new Codex thread"@) == Some(
            inbound::command_for("/new"@, inbound::command_argument("/new <prompt> - start a new Codex thread"@)),
        ),
        inbound::command_name("/new"@) == "/new"@,
{
    reveal_strlit("/new <prompt> - start a new Codex thread");
    reveal_strlit("/new");
    let line = "/new <prompt> - start a new Codex thread"@;
    let name = "/new"@;
    assert(line.take(4) =~= name);
    assert(line.last() == 'd');
    lemma_command_line(line, name);
}

proof fn lemma_new_line()
    ensures
        names_command("/new - ask for a prompt in a reply"@, "/new"@),
        inbound::parsed_command("/new - ask for a prompt in a reply"@) == Some(
            inbound::command_for("/new"@, inbound::command_argument("/new - ask for a prompt in a reply"@)),
        ),
        inbound::command_name("/new"@) == "/new"@,
{
    reveal_strlit("/new - ask for a prompt in a reply");
    reveal_strlit("/new");
    let line = "/new - ask for a prompt in a reply"@;
    let name = "/new"@;
    assert(line.take(4) =~= name);
    assert(line.last() == 'y');
    lemma_command_line(line, name);
}

proof fn lemma_project_line()
    ensures
        names_command("/project - list projects"@, "/project"@),
        inbound::parsed_command("/project - list projects"@) == Some(
            inbound::command_for("/project"@, inbound::command_argument("/project - list projects"@)),
        ),
        inbound::command_name("/project"@) == "/project"@,
{
    reveal_strlit("/project - list projects");
    reveal_strlit("/project");
    let line = "/project - list projects"@;
    let name = "/project"@;
    assert(line.take(8) =~= name);
    assert(line.last() == 's');
    lemma_command_line(line, name);
}

proof fn lemma_project_id_line()
    ensures
        names_command("/project <id> - switch the current project"@, "/project"@),
        inbound::parsed_command("/project <id> - switch the current project"@) == Some(
            inbound::command_for("/project"@, inbound::command_argument("/project <id> - switch the current project"@)),
        ),
        inbound::command_name("/project"@) == "/project"@,
{
    reveal_strlit("/project <id> - switch the current project");
    reveal_strlit("/project");
    let line = "/project <id> - switch the current project"@;
    let name = "/project"@;
    assert(line.take(8) =~= name);
    assert(line.last() == 't');
    lemma_command_line(line, name);
}

/// The names that the help text gives.
spec fn is_name(name: Seq<char>) -> bool {
    ||| name == "/away"@
    ||| name == "/back"@
    ||| name == "/repair"@
    ||| name == "/status"@
    ||| name == "/threads"@
    ||| name == "/new"@
    ||| name == "/project"@
}

/// The line holds no slash and no line break.
spec fn is_prose(line: Seq<char>) -> bool {
    !line.contains('/') && !line.contains('\n')
}

/// The name of the command in a line of the help text.
spec fn name_in(k: int) -> Seq<char> {
    if k == 4 {
        "/away"@
    } else if k == 5 {
        "/back"@
    } else if k == 6 {
        "/repair"@
    } else if k == 7 {
        "/status"@
    } else if k == 8 || k == 9 {
        "/threads"@
    } else if k == 10 || k == 11 {
        "/new"@
    } else {
        "/project"@
    }
}

/// The lines before the commands are prose.
proof fn lemma_prose(k: int)
    requires
        0 <= k < 4,
    ensures
        is_prose(render::help_lines()[k]),
{
    reveal_strlit("Codex remote is ready.");
    reveal_strlit(
        "Use Telegram's Reply action on a Codex notification to continue that exact thread.",
    );
    assert(is_prose(render::help_lines()[0]));
    assert(is_prose(render::help_lines()[1]));
    assert(is_prose(render::help_lines()[2]));
    assert(is_prose(render::help_lines()[3]));
}

/// The other lines name one command each, and are read as it.
proof fn lemma_named(k: int)
    requires
        4 <= k < 14,
    ensures
        names_command(render::help_lines()[k], name_in(k)),
        is_name(name_in(k)),
        inbound::parsed_command(render::help_lines()[k]) == Some(
            inbound::command_for(
                name_in(k),
                inbound::command_argument(render::help_lines()[k]),
            ),
        ),
        is_supported(inbound::parsed_command(render::help_lines()[k])),
        inbound::command_name(name_in(k)) == name_in(k),
{
    lemma_names_are_supported(inbound::command_argument(render::help_lines()[k]));
    if k == 4 {
        lemma_away_line();
    } else if k == 5 {
        lemma_back_line();
    } else if k == 6 {
        lemma_repair_line();
    } else if k == 7 {
        lemma_status_line();
    } else if k == 8 {
        lemma_threads_line();
    } else if k == 9 {
        lemma_threads_count_line();
    } else if k == 10 {
        lemma_new_prompt_line();
    } else if k == 11 {
        lemma_new_line();
    } else if k == 12 {
        lemma_project_line();
    } else {
        lemma_project_id_line();
    }
}

/// The lines of the help text are the lines that it was joined from.
proof fn lemma_split()
    ensures
        help_split() == render::help_lines(),
        render::help_text() == text::joined(render::help_lines(), seq!['\n']),
{
    reveal_strlit("\n");
    assert("\n"@ =~= seq!['\n']);
    assert forall|k: int| 0 <= k < render::help_lines().len() implies !(
    #[trigger] render::help_lines()[k]).contains('\n') by {
        if k < 4 {
            lemma_prose(k);
        } else {
            lemma_named(k);
        }
    }
    text::splitting_undoes_joining(render::help_lines(), '\n');
}

/// Every line of the help text that starts with a slash is read as a command that the bot knows.
pub proof fn help_names_known_commands(k: int)
    requires
        0 <= k < help_split().len(),
        help_split()[k].len() > 0,
        help_split()[k][0] == '/',
    ensures
        is_supported(inbound::parsed_command(help_split()[k])),
{
    lemma_split();
    if k < 4 {
        lemma_prose(k);
        assert(help_split()[k].contains(help_split()[k][0]));
    } else {
        lemma_named(k);
    }
}

/// The help text has a line for every command but `/start` and `/help`, which show it.
pub proof fn help_names_every_command()
    ensures
        exists|k: int|
            0 <= k < help_split().len() && #[trigger] inbound::parsed_command(help_split()[k]) == Some(
                inbound::CommandView::Away,
            ),
        exists|k: int|
            0 <= k < help_split().len() && #[trigger] inbound::parsed_command(help_split()[k]) == Some(
                inbound::CommandView::Back,
            ),
        exists|k: int|
            0 <= k < help_split().len() && #[trigger] inbound::parsed_command(help_split()[k]) == Some(
                inbound::CommandView::Repair,
            ),
        exists|k: int|
            0 <= k < help_split().len() && #[trigger] inbound::parsed_command(help_split()[k]) == Some(
                inbound::CommandView::Status,
            ),
        exists|k: int|
            0 <= k < help_split().len() && (#[trigger] inbound::parsed_command(help_split()[k])) matches Some(
                inbound::CommandView::Threads(_),
            ),
        exists|k: int|
            0 <= k < help_split().len() && (#[trigger] inbound::parsed_command(help_split()[k])) matches Some(
                inbound::CommandView::NewThread(_),
            ),
        exists|k: int|
            0 <= k < help_split().len() && (#[trigger] inbound::parsed_command(help_split()[k])) matches Some(
                inbound::CommandView::Project(_),
            ),
{
    lemma_split();
    lemma_named(4);
    lemma_names_are_supported(inbound::command_argument(help_split()[4]));
    assert(inbound::parsed_command(help_split()[4]) is Some);
    lemma_named(5);
    lemma_names_are_supported(inbound::command_argument(help_split()[5]));
    assert(inbound::parsed_command(help_split()[5]) is Some);
    lemma_named(6);
    lemma_names_are_supported(inbound::command_argument(help_split()[6]));
    assert(inbound::parsed_command(help_split()[6]) is Some);
    lemma_named(7);
    lemma_names_are_supported(inbound::command_argument(help_split()[7]));
    assert(inbound::parsed_command(help_split()[7]) is Some);
    lemma_named(8);
    lemma_names_are_supported(inbound::command_argument(help_split()[8]));
    assert(inbound::parsed_command(help_split()[8]) is Some);
    lemma_named(11);
    lemma_names_are_supported(inbound::command_argument(help_split()[11]));
    assert(inbound::parsed_command(help_split()[11]) is Some);
    lemma_named(12);
    lemma_names_are_supported(inbound::command_argument(help_split()[12]));
    assert(inbound::parsed_command(help_split()[12]) is Some);
}

/// Where a removed command parts from a name that it shares its first letter with.
spec fn parting(r: int) -> int {
    if r == 0 || r == 1 {
        5
    } else if r == 4 {
        4
    } else if r == 5 {
        8
    } else if r == 8 {
        3
    } else {
        2
    }
}

/// The character at a position of a name followed by a blank.
spec fn at(name: Seq<char>, p: int) -> char {
    if p < name.len() {
        name[p]
    } else {
        ' '
    }
}

/// A removed command parts from every name at its second character or at `parting`.
proof fn lemma_parting(name: Seq<char>, r: int)
    requires
        is_name(name),
        0 <= r < removed_commands().len(),
    ensures
        removed_commands()[r].len() > 1,
        removed_commands()[r][0] == '/',
        !removed_commands()[r].contains('\n'),
        name.len() > 1,
        name[1] != removed_commands()[r][1] || (parting(r) <= name.len() && parting(r)
            < removed_commands()[r].len() && at(name, parting(r)) != removed_commands()[r][parting(
            r,
        )]),
{
    reveal_strlit("/away");
    reveal_strlit("/back");
    reveal_strlit("/repair");
    reveal_strlit("/status");
    reveal_strlit("/threads");
    reveal_strlit("/new");
    reveal_strlit("/project");
    reveal_strlit("/away_on");
    reveal_strlit("/away_off");
    reveal_strlit("/live_on");
    reveal_strlit("/live_reset");
    reveal_strlit("/new_thread");
    reveal_strlit("/projects");
    reveal_strlit("/inbox");
    reveal_strlit("/waiting");
    reveal_strlit("/recent");
    reveal_strlit("/settings");
}

/// A text that parts from a name followed by a blank does not occur in a line with that name.
proof fn lemma_not_in_line(line: Seq<char>, name: Seq<char>, needle: Seq<char>, p: int)
    requires
        names_command(line, name),
        0 < p <= name.len(),
        p < needle.len(),
        needle[0] == '/',
        at(name, p) != needle[p],
    ensures
        !text::occurs_in(needle, line),
{
    let n = needle.len() as int;
    assert forall|i: int| !text::stands_at(line, needle, i) by {
        if text::stands_at(line, needle, i) {
            assert(line.subrange(i, i + n)[0] == line[i]);
            assert(line.subrange(i, i + n)[p] == line[i + p]);
            assert(i == 0);
            if p < name.len() {
                assert(line.take(name.len() as int)[p] == name[p]);
            }
        }
    }
}

/// The help text mentions none of the removed commands.
pub proof fn help_names_no_removed_command(r: int)
    requires
        0 <= r < removed_commands().len(),
    ensures
        !text::occurs_in(removed_commands()[r], render::help_text()),
{
    let needle = removed_commands()[r];
    let lines = render::help_lines();
    lemma_split();
    lemma_parting("/away"@, r);
    if text::occurs_in(needle, render::help_text()) {
        text::lemma_occurs_in_a_part(needle, lines, '\n');
        let k = choose|k: int| 0 <= k < lines.len() && text::occurs_in(needle, #[trigger] lines[k]);
        if k < 4 {
            lemma_prose(k);
            let i = choose|i: int| text::stands_at(lines[k], needle, i);
            assert(lines[k].subrange(i, i + needle.len())[0] == lines[k][i]);
            assert(lines[k].contains(lines[k][i]));
        } else {
            lemma_named(k);
            lemma_parting(name_in(k), r);
            if name_in(k)[1] != needle[1] {
                lemma_not_in_line(lines[k], name_in(k), needle, 1);
            } else {
                lemma_not_in_line(lines[k], name_in(k), needle, parting(r));
            }
        }
    }
}

} // verus!
