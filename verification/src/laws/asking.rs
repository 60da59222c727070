//! Questions of Codex: which options a question has, what its message says and which buttons it
//! has. Snapshots of threads, which are shown as events.

use vstd::prelude::*;

use crate::delivery::PreparedTelegramDelivery;
use crate::delivery::SnapshotError;
use crate::delivery;
use crate::json;
use crate::json::JsonView;
use crate::laws::names;
use crate::laws::notifications;
use crate::laws::texts;
use crate::laws::values;
use crate::number;
use crate::render;
use crate::text;
use crate::types::BridgeThreadSnapshot;

verus! {

// ---------------------------------------------------------------------------------------------
// Options
// ---------------------------------------------------------------------------------------------

/// The options are those with a label, in their order, each with its label and description without
/// the blanks around them.
pub proof fn labelled_options_are_kept_in_order(
    first: Seq<JsonView>,
    second: Seq<JsonView>,
    option: JsonView,
)
    ensures
        delivery::labelled(first + second) == delivery::labelled(first) + delivery::labelled(
            second,
        ),
        json::text_at(option.get("label"@)) is None ==> delivery::labelled(seq![option]).len() == 0,
        json::text_at(option.get("label"@)) matches Some(label) ==> ({
            let kept = delivery::labelled(seq![option]);
            &&& kept.len() == 1
            &&& texts::trims_to(label, kept[0].0)
            &&& json::text_at(option.get("description"@)) matches Some(description)
                ==> texts::trims_to(description, kept[0].1)
            &&& json::text_at(option.get("description"@)) is None ==> kept[0].1.len() == 0
        }),
    decreases second.len(),
{
    let none = Seq::<JsonView>::empty();
    assert(seq![option].drop_last() =~= none);
    assert(delivery::labelled(none) == Seq::<(Seq<char>, Seq<char>)>::empty());
    if let Some(label) = json::text_at(option.get("label"@)) {
        texts::trimming_takes_only_the_blanks_around(label);
    }
    if let Some(description) = json::text_at(option.get("description"@)) {
        texts::trimming_takes_only_the_blanks_around(description);
    }
    if second.len() == 0 {
        assert(first + second =~= first);
        assert(delivery::labelled(second) == Seq::<(Seq<char>, Seq<char>)>::empty());
        assert(delivery::labelled(first) + delivery::labelled(second) =~= delivery::labelled(first));
    } else {
        labelled_options_are_kept_in_order(first, second.drop_last(), option);
        assert((first + second).drop_last() =~= first + second.drop_last());
        assert((first + second).last() == second.last());
        assert(delivery::labelled(first + second) =~= delivery::labelled(first)
            + delivery::labelled(second));
    }
}

/// A question takes answers in the user's own words where it says so, and where no option of it
/// has a label.
pub proof fn questions_without_options_take_any_answer(question: JsonView)
    ensures
        json::truth_at(question.get("isOther"@)) == Some(true)
            ==> delivery::question_accepts_free_text(question),
        json::items_at(question.get("options"@)) is None ==> delivery::question_accepts_free_text(
            question,
        ),
        json::items_at(question.get("options"@)) matches Some(options) ==> {
            &&& (forall|i: int|
                0 <= i < options.len() ==> json::text_at((#[trigger] options[i]).get("label"@)) is None)
                ==> delivery::question_accepts_free_text(question)
            &&& (exists|i: int|
                0 <= i < options.len() && json::text_at((#[trigger] options[i]).get("label"@)) is Some)
                && json::truth_at(question.get("isOther"@)) != Some(true)
                ==> !delivery::question_accepts_free_text(question)
        },
{
    if let Some(options) = json::items_at(question.get("options"@)) {
        lemma_some_label(options);
    }
}

proof fn lemma_some_label(options: Seq<JsonView>)
    ensures
        delivery::labelled(options).len() > 0 <==> exists|i: int|
            0 <= i < options.len() && json::text_at((#[trigger] options[i]).get("label"@)) is Some,
    decreases options.len(),
{
    if options.len() > 0 {
        let front = options.drop_last();
        lemma_some_label(front);
        let last = options.len() - 1;
        assert(options.last() == options[last]);
        if delivery::labelled(front).len() > 0 {
            let i = choose|i: int|
                0 <= i < front.len() && json::text_at((#[trigger] front[i]).get("label"@)) is Some;
            assert(options[i] == front[i]);
        } else if json::text_at(options[last].get("label"@)) is None {
            assert forall|i: int| 0 <= i < options.len() implies json::text_at(
                (#[trigger] options[i]).get("label"@),
            ) is None by {
                if i < last {
                    assert(front[i] == options[i]);
                }
            }
        }
    }
}

// ---------------------------------------------------------------------------------------------
// What the message says
// ---------------------------------------------------------------------------------------------

/// How the question is to be answered.
pub open spec fn instruction(question: JsonView) -> Seq<char> {
    if delivery::question_options(question).len() == 0 {
        "💬 Use Telegram's Reply on this message to type your answer."@
    } else if json::truth_at(question.get("isOther"@)) == Some(true) {
        "Tap an option, or use Telegram's Reply on this message to type your own answer."@
    } else {
        "Tap one option below."@
    }
}

/// A question that fits a message is shown in full: which it is of how many, its thread, its
/// header, the question itself, its options where one is described, how to answer it, and whether
/// the answer is secret and waits for others.
pub proof fn a_question_that_fits_is_shown_in_full(event: JsonView, question: JsonView, i: int)
    requires
        delivery::composed(
            event,
            question,
            delivery::question_field(question, "question"@),
            delivery::option_list(delivery::question_options(question)),
        ).len() <= 4096,
    ensures
        ({
            let body = delivery::question_body(event, question);
            let options = delivery::question_options(question);
            let total = json::unsigned_at(question.get("total"@));
            let described = exists|k: int|
                0 <= k < options.len() && (#[trigger] options[k]).1.len() > 0 && options[k].1
                    != options[k].0;
            &&& text::has_prefix(
                body,
                notifications::heading(delivery::question_title(question), event),
            )
            &&& json::text_at(question.get("question"@)) matches Some(asked) ==> text::occurs_in(
                text::trimmed(asked),
                body,
            )
            &&& json::text_at(question.get("header"@)) matches Some(header) ==> (!text::blank(
                header,
            ) ==> text::occurs_in("【"@ + text::trimmed(header) + "】"@, body))
            &&& described && 0 <= i < options.len() ==> text::occurs_in(
                render::option_marker_text(i) + " "@ + options[i].0,
                body,
            )
            &&& 0 <= i < options.len() && options[i].1.len() > 0 && options[i].1 != options[i].0
                ==> text::occurs_in(
                render::option_marker_text(i) + " "@ + options[i].0 + " — "@ + options[i].1,
                body,
            )
            &&& text::occurs_in(instruction(question), body)
            &&& json::truth_at(question.get("isSecret"@)) == Some(true) ==> text::occurs_in(
                "🔒 Codex marked this answer as secret: your reply is deleted from this chat once Codex has it."@,
                body,
            )
            &&& total matches Some(n) ==> (n > 1 ==> text::occurs_in(
                "Codex gets the answers once all "@ + number::decimal(n as nat)
                    + " questions are answered or skipped."@,
                body,
            ))
        }),
{
    let options = delivery::question_options(question);
    let asked = delivery::question_field(question, "question"@);
    let head = delivery::question_head(event, question);
    let list = delivery::option_list(options);
    let tail = delivery::question_tail(question);
    let none = Seq::<Seq<char>>::empty();
    let lines = head.push(asked) + list + tail;
    lemma_begins_with_heading(event, question, asked, list);
    assert(lines =~= head + seq![asked] + (list + tail));
    lemma_part_is_kept(head, seq![asked], list + tail, 0);
    lemma_header(event, question);
    assert(lines =~= none + head + (seq![asked] + list + tail));
    lemma_part_is_kept(none, head, seq![asked] + list + tail, head.len() - 1);
    lemma_tail(question);
    assert(lines =~= head.push(asked) + list + tail + none);
    lemma_part_is_kept(head.push(asked) + list, tail, none, 1);
    lemma_part_is_kept(head.push(asked) + list, tail, none, tail.len() - 1);
    if json::truth_at(question.get("isSecret"@)) == Some(true) {
        lemma_part_is_kept(head.push(asked) + list, tail, none, 2);
    }
    let described = exists|k: int|
        0 <= k < options.len() && (#[trigger] options[k]).1.len() > 0 && options[k].1
            != options[k].0;
    if described && 0 <= i < options.len() {
        lemma_option(options, i);
        lemma_part_is_kept(head.push(asked), list, tail, 1 + i);
        texts::occurring_is_transitive(
            render::option_marker_text(i) + " "@ + options[i].0,
            list[1 + i],
            text::joined(lines, "\n"@),
        );
    }
}

proof fn lemma_part_is_kept(
    front: Seq<Seq<char>>,
    part: Seq<Seq<char>>,
    back: Seq<Seq<char>>,
    k: int,
)
    requires
        0 <= k < part.len(),
    ensures
        text::occurs_in(part[k], text::joined(front + part + back, "\n"@)),
{
    let all = front + part + back;
    assert(all[front.len() + k] == part[k]);
    texts::joining_keeps_every_part(all, "\n"@, front.len() + k);
}

proof fn lemma_header(event: JsonView, question: JsonView)
    ensures
        delivery::question_head(event, question).len() > 0,
        json::text_at(question.get("header"@)) matches Some(header) ==> (!text::blank(header)
            ==> delivery::question_head(event, question).last() == "【"@ + text::trimmed(header)
            + "】"@),
{
    if let Some(header) = json::text_at(question.get("header"@)) {
        texts::blank_means_only_blanks(header);
    }
}

proof fn lemma_tail(question: JsonView)
    ensures
        ({
            let tail = delivery::question_tail(question);
            let total = json::unsigned_at(question.get("total"@));
            &&& tail.len() >= 2
            &&& tail[1] == instruction(question)
            &&& json::truth_at(question.get("isSecret"@)) == Some(true) ==> tail.len() >= 3
                && tail[2]
                == "🔒 Codex marked this answer as secret: your reply is deleted from this chat once Codex has it."@
            &&& total matches Some(n) ==> (n > 1 ==> tail.last()
                == "Codex gets the answers once all "@ + number::decimal(n as nat)
                + " questions are answered or skipped."@)
        }),
{
}

proof fn lemma_option(options: Seq<(Seq<char>, Seq<char>)>, i: int)
    requires
        exists|k: int|
            0 <= k < options.len() && (#[trigger] options[k]).1.len() > 0 && options[k].1
                != options[k].0,
        0 <= i < options.len(),
    ensures
        ({
            let list = delivery::option_list(options);
            let start = render::option_marker_text(i) + " "@ + options[i].0;
            &&& list.len() == options.len() + 1
            &&& text::occurs_in(start, list[1 + i])
            &&& options[i].1.len() > 0 && options[i].1 != options[i].0 ==> list[1 + i] == start
                + " — "@ + options[i].1
        }),
{
    let d = choose|k: int|
        0 <= k < options.len() && (#[trigger] options[k]).1.len() > 0 && options[k].1
            != options[k].0;
    assert(delivery::is_described(options[d]));
    let list = delivery::option_list(options);
    assert(list[1 + i] == delivery::option_body_line(i, options[i]));
    let start = render::option_marker_text(i) + " "@ + options[i].0;
    let none = Seq::<char>::empty();
    texts::occurring_means_standing_between(none, start, none);
    assert(none + start + none =~= start);
    texts::occurring_means_standing_between(none, start, " — "@ + options[i].1);
    assert(none + start + (" — "@ + options[i].1) =~= start + " — "@ + options[i].1);
}

proof fn lemma_begins_with_heading(
    event: JsonView,
    question: JsonView,
    asked: Seq<char>,
    list: Seq<Seq<char>>,
)
    ensures
        text::has_prefix(
            delivery::composed(event, question, asked, list),
            notifications::heading(delivery::question_title(question), event),
        ),
{
    let title = delivery::question_title(question);
    let top = delivery::with_thread_lines(title, event);
    notifications::a_heading_is_joined_from_its_lines(title, event);
    let lines = delivery::question_head(event, question).push(asked) + list
        + delivery::question_tail(question);
    let rest = lines.skip(top.len() as int);
    assert(lines.take(top.len() as int) =~= top);
    assert(lines =~= top + rest);
    texts::joining_sets_separators_between(top, rest, "\n"@, title);
    texts::occurring_means_standing_between(
        Seq::empty(),
        text::joined(top, "\n"@),
        "\n"@ + text::joined(rest, "\n"@),
    );
    assert(text::joined(lines, "\n"@) =~= text::joined(top, "\n"@) + ("\n"@ + text::joined(
        rest,
        "\n"@,
    )));
}

/// Which question it is, of several.
pub proof fn questions_are_numbered_where_there_are_several(question: JsonView)
    ensures
        json::unsigned_at(question.get("total"@)) matches Some(total) ==> (total > 1
            ==> delivery::question_title(question) == "❓ Codex has a question ("@ + number::decimal(
            match json::unsigned_at(question.get("index"@)) {
                Some(index) => index as nat,
                None => 1nat,
            },
        ) + "/"@ + number::decimal(total as nat) + ")"@),
        json::unsigned_at(question.get("total"@)) is None || json::unsigned_at(
            question.get("total"@),
        )->0 <= 1 ==> delivery::question_title(question) == "❓ Codex has a question"@,
{
}

proof fn lemma_joined_len(
    before: Seq<Seq<char>>,
    line: Seq<char>,
    after: Seq<Seq<char>>,
)
    requires
        before.len() > 0,
        after.len() > 0,
    ensures
        text::joined(before.push(line) + after, "\n"@) == text::joined(before, "\n"@) + "\n"@ + line
            + "\n"@ + text::joined(after, "\n"@),
{
    texts::joining_sets_separators_between(before.push(line), after, "\n"@, line);
    assert(before.push(line).drop_last() =~= before);
}

/// A question that does not fit loses its options from the text, and of itself only what is too
/// much: what stands before and after it stays whole wherever that alone fits.
pub proof fn a_long_question_keeps_what_stands_around_it(event: JsonView, question: JsonView)
    requires
        delivery::composed(
            event,
            question,
            delivery::question_field(question, "question"@),
            delivery::option_list(delivery::question_options(question)),
        ).len() > 4096,
        delivery::composed(event, question, Seq::empty(), Seq::empty()).len() <= 4096,
    ensures
        ({
            let body = delivery::question_body(event, question);
            let asked = delivery::question_field(question, "question"@);
            let room = 4096 - delivery::composed(event, question, Seq::empty(), Seq::empty()).len();
            &&& body == delivery::composed(
                event,
                question,
                render::truncated(asked, room),
                Seq::empty(),
            )
            &&& asked.len() > room ==> body.len() == 4096
            &&& text::has_prefix(
                body,
                notifications::heading(delivery::question_title(question), event),
            )
            &&& text::has_suffix(body, text::joined(delivery::question_tail(question), "\n"@))
            &&& text::occurs_in(instruction(question), body)
            &&& text::occurs_in(render::truncated(asked, room), body)
        }),
{
    let asked = delivery::question_field(question, "question"@);
    let none = Seq::<Seq<char>>::empty();
    let taken = delivery::composed(event, question, Seq::empty(), none).len();
    let room = 4096 - taken;
    let cut = render::truncated(asked, room);
    let head = delivery::question_head(event, question);
    let tail = delivery::question_tail(question);
    render::truncation_respects_the_limit(asked, room);
    assert(head.push(cut) + none + tail =~= head.push(cut) + tail);
    assert(head.push(Seq::empty()) + none + tail =~= head.push(Seq::empty()) + tail);
    lemma_joined_len(head, cut, tail);
    lemma_joined_len(head, Seq::empty(), tail);
    let whole = delivery::composed(event, question, cut, none);
    assert(whole.len() == taken + cut.len());
    render::truncation_respects_the_limit(whole, 4096);
    let body = delivery::question_body(event, question);
    assert(body == whole);
    lemma_begins_with_heading(event, question, cut, none);
    let before = text::joined(head, "\n"@) + "\n"@ + cut + "\n"@;
    let after = text::joined(tail, "\n"@);
    texts::occurring_means_standing_between(before, after, Seq::empty());
    texts::joining_keeps_every_part(tail, "\n"@, 1);
    assert(before + after =~= before + after + Seq::<char>::empty());
    texts::occurring_is_transitive(instruction(question), after, body);
    texts::occurring_means_standing_between(
        text::joined(head, "\n"@) + "\n"@,
        cut,
        "\n"@ + after,
    );
    assert(body =~= (text::joined(head, "\n"@) + "\n"@) + cut + ("\n"@ + after));
    assert(asked.len() > room ==> cut.len() == room);
}

/// Every option has a button that shows it, and the last button skips the question.
pub proof fn every_option_has_its_button(
    chat_id: Seq<char>,
    event: JsonView,
    question: JsonView,
    event_id: Seq<char>,
    thread_id: Seq<char>,
    key: Seq<char>,
    id: Seq<char>,
    i: int,
)
    requires
        event.get("questionRequest"@) == Some(question),
        json::text_at(question.get("questionKey"@)) == Some(key),
        json::text_at(question.get("questionId"@)) == Some(id),
        0 <= i <= delivery::question_options(question).len(),
    ensures
        ({
            let sent = delivery::delivery_of(chat_id, event, event_id, Some(thread_id));
            let options = delivery::question_options(question);
            let rows = json::items_at(
                json::at(sent.payloads[0].get("reply_markup"@), "inline_keyboard"@),
            );
            &&& sent.payloads.len() == 1
            &&& json::text_at(sent.payloads[0].get("text"@)) == Some(
                delivery::question_body(event, question),
            )
            &&& json::text_at(sent.payloads[0].get("chat_id"@)) == Some(chat_id)
            &&& sent.thread_id == Some(thread_id)
            &&& sent.event_id == event_id
            &&& rows matches Some(rows) && rows.len() == options.len() + 1
            &&& rows->0[i].items() matches Some(row) && row.len() == 1 && notifications::shows_route(
                row[0],
                if i < options.len() {
                    render::option_button(i, options[i].0)
                } else {
                    "⏭ Skip"@
                },
                sent.callback_routes[i],
            )
            &&& i < options.len() ==> sent.callback_routes[i].action is AnswerOption
            &&& i == options.len() ==> sent.callback_routes[i].action is SkipQuestion
        }),
{
    broadcast use values::added_members_are_found;
    broadcast use values::no_members_are_found;

    names::names_differ();
    delivery::a_question_keeps_its_buttons(
        chat_id,
        event,
        question,
        event_id,
        thread_id,
        key,
        id,
    );
    let options = delivery::question_options(question);
    let rows = delivery::question_rows(event_id, options);
    if i < options.len() {
        assert(rows[i].items() is Some);
    } else {
        assert(rows[i] == rows.last());
    }
}

// ---------------------------------------------------------------------------------------------
// Snapshots
// ---------------------------------------------------------------------------------------------

/// A thread that waits is shown as waiting whatever its last turn was, one whose last turn is
/// completed as completed, and any other as changed.
pub proof fn snapshots_are_shown_by_their_state(snapshot: BridgeThreadSnapshot)
    ensures
        snapshot.pending_prompt is Some ==> delivery::snapshot_event_type(snapshot)
            == "thread_waiting"@,
        snapshot.pending_prompt is None && json::opt_string(snapshot.last_turn_status) == Some(
            "completed"@,
        ) ==> delivery::snapshot_event_type(snapshot) == "thread_completed"@,
        snapshot.pending_prompt is None && json::opt_string(snapshot.last_turn_status) != Some(
            "completed"@,
        ) ==> delivery::snapshot_event_type(snapshot) == "thread_status_changed"@,
{
}

/// The event on a snapshot has what the snapshot has.
pub proof fn snapshots_are_shown_whole(
    snapshot: BridgeThreadSnapshot,
    project: Option<Seq<char>>,
    display_name: Seq<char>,
)
    ensures
        ({
            let event = delivery::snapshot_event(snapshot, project, display_name);
            let thread = event.get("thread"@);
            &&& json::text_at(event.get("type"@)) == Some(delivery::snapshot_event_type(snapshot))
            &&& json::text_at(event.get("threadId"@)) == Some(snapshot.thread_id@)
            &&& json::text_at(json::at(thread, "threadId"@)) == Some(snapshot.thread_id@)
            &&& json::text_at(json::at(thread, "name"@)) == json::opt_string(snapshot.name)
            &&& json::text_at(json::at(thread, "displayName"@)) == Some(
                render::trimmed_line(display_name, 160),
            )
            &&& json::text_at(json::at(thread, "project"@)) == project
            &&& json::text_at(json::at(thread, "cwd"@)) == json::opt_string(snapshot.cwd)
            &&& json::unsigned_at(event.get("updatedAt"@)) == json::opt_unsigned(snapshot.updated_at)
            &&& json::unsigned_at(json::at(thread, "updatedAt"@)) == json::opt_unsigned(
                snapshot.updated_at,
            )
            &&& json::text_at(json::at(thread, "statusType"@)) == Some(snapshot.status_type@)
            &&& json::text_at(json::at(thread, "lastTurnStatus"@)) == json::opt_string(
                snapshot.last_turn_status,
            )
            &&& snapshot.last_preview matches Some(preview) ==> json::text_at(
                json::at(thread, "lastPreview"@),
            ) == render::trimmed_detail(preview@, 3000) && json::text_at(event.get("lastPreview"@))
                == render::trimmed_detail(preview@, 3000)
            &&& snapshot.last_preview is None ==> json::text_at(json::at(thread, "lastPreview"@)) is None
                && json::text_at(event.get("lastPreview"@)) is None
            &&& snapshot.pending_prompt is None ==> json::at(thread, "pendingPrompt"@) == Some(
                JsonView::Null,
            )
            &&& snapshot.pending_prompt matches Some(prompt) ==> {
                let shown = json::at(thread, "pendingPrompt"@);
                &&& json::text_at(json::at(shown, "promptId"@)) == Some(prompt.prompt_id@)
                &&& json::text_at(json::at(shown, "promptKind"@)) == Some(prompt.kind@)
                &&& json::text_at(json::at(shown, "kind"@)) == Some(prompt.kind@)
                &&& json::text_at(json::at(shown, "promptStatus"@)) == Some(prompt.status@)
                &&& json::text_at(json::at(shown, "status"@)) == Some(prompt.status@)
                &&& prompt.question matches Some(question) ==> json::text_at(
                    json::at(shown, "question"@),
                ) == render::trimmed_detail(question@, 3000)
                &&& prompt.question is None ==> json::text_at(json::at(shown, "question"@)) is None
            }
        }),
{
    broadcast use values::added_members_are_found;
    broadcast use values::no_members_are_found;

    names::names_differ();
}

/// A question that fits reads from its heading on: the header where there is one, the question, the
/// options where one is described, and below an empty line how to answer.
pub proof fn a_question_that_fits_reads_in_order(event: JsonView, question: JsonView)
    requires
        delivery::composed(
            event,
            question,
            delivery::question_field(question, "question"@),
            delivery::option_list(delivery::question_options(question)),
        ).len() <= 4096,
    ensures
        ({
            let asked = delivery::question_field(question, "question"@);
            let header = delivery::question_field(question, "header"@);
            let list = delivery::option_list(delivery::question_options(question));
            delivery::question_body(event, question) == notifications::heading(
                delivery::question_title(question),
                event,
            ) + "\n"@ + (if header.len() > 0 {
                "\n"@ + ("【"@ + header + "】"@)
            } else {
                Seq::empty()
            }) + "\n"@ + asked + (if list.len() > 0 {
                "\n"@ + text::joined(list, "\n"@)
            } else {
                Seq::empty()
            }) + "\n"@ + text::joined(delivery::question_tail(question), "\n"@)
        }),
{
    let title = delivery::question_title(question);
    let top = delivery::with_thread_lines(title, event);
    let asked = delivery::question_field(question, "question"@);
    let header = delivery::question_field(question, "header"@);
    let list = delivery::option_list(delivery::question_options(question));
    let tail = delivery::question_tail(question);
    let empty = Seq::<char>::empty();
    notifications::a_heading_is_joined_from_its_lines(title, event);
    let start = notifications::heading(title, event);
    texts::joining_one_more_part("\n"@, top, empty);
    let spaced = top.push(empty);
    assert(start + "\n"@ + empty =~= start + "\n"@);
    let head = delivery::question_head(event, question);
    let marked = if header.len() > 0 {
        "\n"@ + ("【"@ + header + "】"@)
    } else {
        empty
    };
    if header.len() > 0 {
        texts::joining_one_more_part("\n"@, spaced, "【"@ + header + "】"@);
    }
    assert(text::joined(head, "\n"@) =~= start + "\n"@ + marked);
    texts::joining_one_more_part("\n"@, head, asked);
    let front = head.push(asked);
    let listed = if list.len() > 0 {
        "\n"@ + text::joined(list, "\n"@)
    } else {
        empty
    };
    texts::joining_sets_separators_between(front, list, "\n"@, asked);
    if list.len() == 0 {
        assert(front + list =~= front);
    }
    assert(text::joined(front + list, "\n"@) =~= start + "\n"@ + marked + "\n"@ + asked + listed);
    texts::joining_sets_separators_between(front + list, tail, "\n"@, asked);
}

/// A question that nothing can be answered to is shown without buttons.
pub proof fn questions_without_a_key_have_no_buttons(
    chat_id: Seq<char>,
    event: JsonView,
    question: JsonView,
    event_id: Seq<char>,
    thread_id: Option<Seq<char>>,
)
    requires
        event.get("questionRequest"@) == Some(question),
        json::text_at(question.get("questionKey"@)) is None || json::text_at(
            question.get("questionId"@),
        ) is None || thread_id is None,
    ensures
        ({
            let sent = delivery::delivery_of(chat_id, event, event_id, thread_id);
            &&& sent.payloads.len() == 1
            &&& json::text_at(sent.payloads[0].get("text"@)) == Some(
                delivery::question_body(event, question),
            )
            &&& json::text_at(sent.payloads[0].get("chat_id"@)) == Some(chat_id)
            &&& sent.payloads[0].get("reply_markup"@) is None
            &&& sent.callback_routes.len() == 0
            &&& sent.thread_id == thread_id
        }),
{
    broadcast use values::added_members_are_found;
    broadcast use values::no_members_are_found;

    names::names_differ();
}

/// The flags of a thread are shown in their order.
pub proof fn snapshots_show_every_flag(
    snapshot: BridgeThreadSnapshot,
    project: Option<Seq<char>>,
    display_name: Seq<char>,
    i: int,
)
    requires
        0 <= i < snapshot.status_flags@.len(),
    ensures
        ({
            let event = delivery::snapshot_event(snapshot, project, display_name);
            json::items_at(json::at(event.get("thread"@), "statusFlags"@)) matches Some(flags)
                && flags.len() == snapshot.status_flags@.len() && flags[i] == JsonView::Str(
                snapshot.status_flags@[i]@,
            )
        }),
{
    broadcast use values::added_members_are_found;
    broadcast use values::no_members_are_found;

    names::names_differ();
}

/// The options of a question are the labelled ones of its list, and are listed in the text only
/// where one of them is described.
pub proof fn options_are_those_of_the_list(question: JsonView, options: Seq<JsonView>)
    ensures
        json::items_at(question.get("options"@)) == Some(options) ==> delivery::question_options(
            question,
        ) == delivery::labelled(options),
        json::items_at(question.get("options"@)) is None ==> delivery::question_options(
            question,
        ).len() == 0,
        (forall|k: int|
            0 <= k < delivery::question_options(question).len() ==> (
            #[trigger] delivery::question_options(question)[k]).1.len() == 0
                || delivery::question_options(question)[k].1 == delivery::question_options(
                question,
            )[k].0) ==> delivery::option_list(delivery::question_options(question)).len() == 0,
{
}

/// A snapshot is sent where its event fits one message.
pub proof fn snapshots_are_sent_where_they_fit(
    chat_id: &str,
    snapshot: &BridgeThreadSnapshot,
    project: Option<&str>,
    display_name: &str,
    event_id: String,
    thread_id: Option<String>,
    out: Result<PreparedTelegramDelivery, SnapshotError>,
    message: &'static str,
)
    requires
        call_ensures(
            delivery::prepare_telegram_thread_snapshot_delivery,
            (chat_id, snapshot, project, display_name, event_id, thread_id),
            out,
        ),
        call_ensures(SnapshotError::message, (&SnapshotError::ExceedsOneMessage,), message),
    ensures
        ({
            let wanted = delivery::delivery_of(
                chat_id@,
                delivery::snapshot_event(*snapshot, json::opt_text(project), display_name@),
                event_id@,
                json::opt_string(thread_id),
            );
            &&& wanted.payloads.len() == 1 ==> (out matches Ok(prepared) && prepared@ == wanted)
            &&& wanted.payloads.len() != 1 ==> out is Err
        }),
        message@ == "thread snapshot Telegram delivery exceeded one message"@,
{
}

} // verus!
