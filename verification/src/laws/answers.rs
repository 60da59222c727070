//! Answers to the questions of Codex, and decisions on its requests: which question an answer is
//! for, how many questions are left, what Codex is sent and what is stored of it.

use vstd::prelude::*;

use crate::api;
use crate::json;
use crate::json::Json;
use crate::json::JsonView;
use crate::laws::names;
use crate::laws::texts;
use crate::laws::values;
use crate::number;
use crate::questions;
use crate::questions::AnswerPlan;
use crate::questions::AnswerRefusal;
use crate::questions::AnswerStep;
use crate::questions::AppServerQuestion;
use crate::questions::AppServerRequest;
use crate::questions::HeldAnswer;
use crate::questions::QuestionAnswerOutcome;
use crate::questions::TransportInfo;
use crate::text;
use crate::turns;
use crate::types;
use crate::types::TelegramConfig;

verus! {

/// No question is answered twice.
pub open spec fn answered_once(held: Seq<(Seq<char>, Option<Seq<char>>)>) -> bool {
    forall|i: int, j: int|
        0 <= i < j < held.len() ==> (#[trigger] held[i]).0 != (#[trigger] held[j]).0
}

/// The response gives an answer to a question, or none where it was skipped.
pub open spec fn responds(
    response: JsonView,
    id: Seq<char>,
    answer: Option<Seq<char>>,
) -> bool {
    let member = json::at(response.get("answers"@), id);
    match answer {
        Some(a) => json::items_at(json::at(member, "answers"@)) == Some(seq![JsonView::Str(a)]),
        None => member is None,
    }
}

proof fn lemma_members(held: Seq<(Seq<char>, Option<Seq<char>>)>, id: Seq<char>)
    requires
        answered_once(held),
    ensures
        !questions::holds(held, id) ==> questions::answer_members(held).object().get(id) is None,
        forall|i: int|
            0 <= i < held.len() && (#[trigger] held[i]).0 == id ==> match held[i].1 {
                Some(a) => json::items_at(
                    json::at(questions::answer_members(held).object().get(id), "answers"@),
                ) == Some(seq![JsonView::Str(a)]),
                None => questions::answer_members(held).object().get(id) is None,
            },
    decreases held.len(),
{
    broadcast use values::added_members_are_found;
    broadcast use values::no_members_are_found;

    if held.len() > 0 {
        let front = held.drop_last();
        assert forall|i: int, j: int| 0 <= i < j < front.len() implies (#[trigger] front[i]).0 != (
        #[trigger] front[j]).0 by {
            assert(front[i] == held[i] && front[j] == held[j]);
        }
        lemma_members(front, id);
        let last = held.len() - 1;
        if questions::holds(front, id) {
            let k = choose|k: int| 0 <= k < front.len() && (#[trigger] front[k]).0 == id;
            assert(held[k] == front[k]);
            assert(held[last].0 != id);
            assert forall|i: int| 0 <= i < held.len() && (#[trigger] held[i]).0 == id implies i
                == k by {
                if i < k {
                    assert(held[i].0 != held[k].0);
                } else if k < i {
                    assert(held[k].0 != held[i].0);
                }
            }
        } else {
            assert forall|i: int| 0 <= i < held.len() && (#[trigger] held[i]).0 == id implies i
                == last by {
                if i < last {
                    assert(front[i] == held[i]);
                }
            }
            if held[last].0 != id && questions::holds(held, id) {
                let k = choose|k: int| 0 <= k < held.len() && (#[trigger] held[k]).0 == id;
                assert(front[k] == held[k]);
            }
            if held[last].0 == id {
                assert(questions::holds(held, id));
            }
        }
    }
}

/// The response has a member for every answer that was given, with exactly that answer, and none
/// for a question that was skipped or is not answered.
pub proof fn every_answer_is_sent(
    held: Seq<(Seq<char>, Option<Seq<char>>)>,
    i: int,
    other: Seq<char>,
)
    requires
        answered_once(held),
        0 <= i < held.len(),
    ensures
        responds(questions::question_response(held), held[i].0, held[i].1),
        !questions::holds(held, other) ==> responds(
            questions::question_response(held),
            other,
            None,
        ),
{
    broadcast use values::added_members_are_found;
    broadcast use values::no_members_are_found;

    lemma_members(held, held[i].0);
    lemma_members(held, other);
}

/// Holding an answer to another question keeps every question answered once.
pub proof fn held_answers_stay_apart(
    held: Seq<(Seq<char>, Option<Seq<char>>)>,
    id: Seq<char>,
    answer: Option<Seq<char>>,
)
    requires
        answered_once(held),
        !questions::holds(held, id),
    ensures
        answered_once(questions::held_with(held, id, answer)),
    decreases held.len(),
{
    let out = questions::held_with(held, id, answer);
    if held.len() == 0 || text::precedes(id, held[0].0) {
        assert forall|i: int, j: int| 0 <= i < j < out.len() implies (#[trigger] out[i]).0 != (
        #[trigger] out[j]).0 by {
            assert(out[j] == held[j - 1]);
            if i == 0 {
                assert(held[j - 1].0 != id);
            } else {
                assert(out[i] == held[i - 1]);
            }
        }
    } else {
        let rest = held.skip(1);
        assert forall|i: int, j: int| 0 <= i < j < rest.len() implies (#[trigger] rest[i]).0 != (
        #[trigger] rest[j]).0 by {
            assert(rest[i] == held[i + 1] && rest[j] == held[j + 1]);
        }
        assert(!questions::holds(rest, id)) by {
            if questions::holds(rest, id) {
                let k = choose|k: int| 0 <= k < rest.len() && (#[trigger] rest[k]).0 == id;
                assert(held[k + 1] == rest[k]);
            }
        }
        held_answers_stay_apart(rest, id, answer);
        let tail = questions::held_with(rest, id, answer);
        assert(held[0].0 != id);
        assert forall|i: int, j: int| 0 <= i < j < out.len() implies (#[trigger] out[i]).0 != (
        #[trigger] out[j]).0 by {
            assert(out[j] == tail[j - 1]);
            if i > 0 {
                assert(out[i] == tail[i - 1]);
            } else {
                questions::holding_an_answer_keeps_the_others(rest, id, answer, tail[j - 1]);
                assert(tail.contains(tail[j - 1]));
                if tail[j - 1] != (id, answer) {
                    let k = choose|k: int| 0 <= k < rest.len() && rest[k] == tail[j - 1];
                    assert(held[k + 1] == rest[k]);
                    assert(held[0].0 != held[k + 1].0);
                }
            }
        }
    }
}

/// Answers that are held in the order of their questions stay in it.
pub proof fn held_answers_stay_in_order(
    held: Seq<(Seq<char>, Option<Seq<char>>)>,
    id: Seq<char>,
    answer: Option<Seq<char>>,
    i: int,
    j: int,
)
    requires
        forall|i: int, j: int|
            0 <= i < j < held.len() ==> text::precedes(
                (#[trigger] held[i]).0,
                (#[trigger] held[j]).0,
            ),
        !questions::holds(held, id),
        0 <= i < j < held.len() + 1,
    ensures
        text::precedes(
            questions::held_with(held, id, answer)[i].0,
            questions::held_with(held, id, answer)[j].0,
        ),
    decreases held.len(),
{
    let out = questions::held_with(held, id, answer);
    if held.len() == 0 || text::precedes(id, held[0].0) {
        assert(out[j] == held[j - 1]);
        if i == 0 {
            if j > 1 {
                assert(text::precedes(held[0].0, held[j - 1].0));
                text::texts_are_totally_ordered(id, held[0].0, held[j - 1].0);
            }
        } else {
            assert(out[i] == held[i - 1]);
        }
    } else {
        let rest = held.skip(1);
        assert forall|a: int, b: int| 0 <= a < b < rest.len() implies text::precedes(
            (#[trigger] rest[a]).0,
            (#[trigger] rest[b]).0,
        ) by {
            assert(rest[a] == held[a + 1] && rest[b] == held[b + 1]);
        }
        assert(!questions::holds(rest, id)) by {
            if questions::holds(rest, id) {
                let k = choose|k: int| 0 <= k < rest.len() && (#[trigger] rest[k]).0 == id;
                assert(held[k + 1] == rest[k]);
            }
        }
        let tail = questions::held_with(rest, id, answer);
        questions::holding_an_answer_keeps_the_others(rest, id, answer, (id, answer));
        assert(out[j] == tail[j - 1]);
        if i > 0 {
            held_answers_stay_in_order(rest, id, answer, i - 1, j - 1);
            assert(out[i] == tail[i - 1]);
        } else {
            questions::holding_an_answer_keeps_the_others(rest, id, answer, tail[j - 1]);
            assert(tail.contains(tail[j - 1]));
            assert(held[0].0 != id);
            text::texts_are_totally_ordered(held[0].0, id, id);
            if tail[j - 1] != (id, answer) {
                let k = choose|k: int| 0 <= k < rest.len() && rest[k] == tail[j - 1];
                assert(held[k + 1] == rest[k]);
                assert(text::precedes(held[0].0, held[k + 1].0));
            }
        }
    }
}

/// What is sent once the last question is settled holds the last answer and every answer that was
/// held for the request.
pub proof fn the_last_answer_is_sent_with_the_others(
    held: Seq<(Seq<char>, Option<Seq<char>>)>,
    id: Seq<char>,
    answer: Option<Seq<char>>,
    i: int,
)
    requires
        answered_once(held),
        !questions::holds(held, id),
        0 <= i < held.len(),
    ensures
        responds(
            questions::question_response(questions::held_with(held, id, answer)),
            id,
            answer,
        ),
        responds(
            questions::question_response(questions::held_with(held, id, answer)),
            held[i].0,
            held[i].1,
        ),
{
    let all = questions::held_with(held, id, answer);
    held_answers_stay_apart(held, id, answer);
    questions::holding_an_answer_keeps_the_others(held, id, answer, (id, answer));
    questions::holding_an_answer_keeps_the_others(held, id, answer, held[i]);
    assert(held.contains(held[i]));
    let a = choose|k: int| 0 <= k < all.len() && all[k] == (id, answer);
    let b = choose|k: int| 0 <= k < all.len() && all[k] == held[i];
    every_answer_is_sent(all, a, id);
    every_answer_is_sent(all, b, id);
}

// ---------------------------------------------------------------------------------------------
// Questions
// ---------------------------------------------------------------------------------------------

proof fn lemma_question_at(list: Seq<AppServerQuestion>, id: Seq<char>, k: int)
    requires
        0 <= k <= list.len(),
        k < list.len() ==> list[k].id@ == id,
        forall|i: int| 0 <= i < k ==> (#[trigger] list[i]).id@ != id,
    ensures
        questions::question_at(list, id) == k,
    decreases k,
{
    if k > 0 {
        let rest = list.skip(1);
        assert(list[0].id@ != id);
        assert forall|i: int| 0 <= i < k - 1 implies (#[trigger] rest[i]).id@ != id by {
            assert(rest[i] == list[i + 1]);
        }
        lemma_question_at(rest, id, k - 1);
    }
}

/// An answer is for the first question with its identifier. It is refused where there is none, and
/// where it is in the user's own words and that question takes its options only.
pub proof fn an_answer_is_for_the_question_with_its_identifier(
    list: Seq<AppServerQuestion>,
    held: Seq<(Seq<char>, Option<Seq<char>>)>,
    id: Seq<char>,
    free_text: bool,
    k: int,
)
    requires
        0 <= k <= list.len(),
        k < list.len() ==> list[k].id@ == id,
        forall|i: int| 0 <= i < k ==> (#[trigger] list[i]).id@ != id,
    ensures
        k == list.len() ==> questions::refusal_of(Some(list), held, id, free_text) == Some(
            AnswerRefusal::NotPending,
        ),
        k < list.len() && free_text && !list[k].accepts_free_text ==> questions::refusal_of(
            Some(list),
            held,
            id,
            free_text,
        ) == Some(AnswerRefusal::NeedsOption),
        k < list.len() && (!free_text || list[k].accepts_free_text) && questions::holds(held, id)
            ==> questions::refusal_of(Some(list), held, id, free_text) == Some(
            AnswerRefusal::NotPending,
        ),
        k < list.len() && (!free_text || list[k].accepts_free_text) && !questions::holds(held, id)
            ==> questions::refusal_of(Some(list), held, id, free_text) is None,
        questions::refusal_of(None, held, id, free_text) == Some(AnswerRefusal::NotPending),
        k < list.len() ==> forall|plan: questions::AnswerPlan, answer: Option<Seq<char>>| #[trigger]
            questions::plans(plan, list, held, id, answer) ==> plan.is_secret == list[k].is_secret,
{
    lemma_question_at(list, id, k);
}

/// The questions of a request have different identifiers.
pub open spec fn asked_once(list: Seq<AppServerQuestion>) -> bool {
    forall|i: int, j: int|
        0 <= i < j < list.len() ==> (#[trigger] list[i]).id@ != (#[trigger] list[j]).id@
}

proof fn lemma_open(
    list: Seq<AppServerQuestion>,
    held: Seq<(Seq<char>, Option<Seq<char>>)>,
    id: Seq<char>,
    answer: Option<Seq<char>>,
    k: int,
)
    requires
        asked_once(list),
        !questions::holds(held, id),
        -1 <= k < list.len(),
        k >= 0 ==> list[k].id@ == id,
        k < 0 ==> forall|i: int| 0 <= i < list.len() ==> (#[trigger] list[i]).id@ != id,
    ensures
        questions::open_questions(list, questions::held_with(held, id, answer)) + if k >= 0 {
            1int
        } else {
            0int
        } == questions::open_questions(list, held),
    decreases list.len(),
{
    if list.len() > 0 {
        let front = list.drop_last();
        let last = list.last();
        questions::holding_an_answer_keeps_the_others(held, id, answer, (last.id@, None));
        assert forall|i: int, j: int| 0 <= i < j < front.len() implies (#[trigger] front[i]).id@
            != (#[trigger] front[j]).id@ by {
            assert(front[i] == list[i] && front[j] == list[j]);
        }
        if k == list.len() - 1 {
            assert forall|i: int| 0 <= i < front.len() implies (#[trigger] front[i]).id@ != id by {
                assert(front[i] == list[i]);
                assert(list[i].id@ != list[k].id@);
            }
            lemma_open(front, held, id, answer, -1);
        } else {
            if k >= 0 {
                assert(front[k] == list[k]);
                assert(list[k].id@ != list[list.len() - 1].id@);
            } else {
                assert(list[list.len() - 1].id@ != id);
                assert forall|i: int| 0 <= i < front.len() implies (#[trigger] front[i]).id@
                    != id by {
                    assert(front[i] == list[i]);
                }
            }
            lemma_open(front, held, id, answer, k);
        }
    }
}

/// At first all questions are open, and each answer or skip leaves one less.
pub proof fn each_answer_leaves_one_question_less(
    list: Seq<AppServerQuestion>,
    held: Seq<(Seq<char>, Option<Seq<char>>)>,
    answer: Option<Seq<char>>,
    k: int,
)
    requires
        asked_once(list),
        0 <= k < list.len(),
        !questions::holds(held, list[k].id@),
    ensures
        questions::open_questions(
            list,
            questions::held_with(held, list[k].id@, answer),
        ) == questions::open_questions(list, held) - 1,
        questions::open_questions(list, Seq::empty()) == list.len(),
{
    lemma_open(list, held, list[k].id@, answer, k);
    lemma_all_open(list);
}

proof fn lemma_all_open(list: Seq<AppServerQuestion>)
    ensures
        questions::open_questions(list, Seq::empty()) == list.len(),
    decreases list.len(),
{
    if list.len() > 0 {
        lemma_all_open(list.drop_last());
        assert(!questions::holds(Seq::empty(), list.last().id@));
    }
}

/// The log names every question that was answered and every one that was skipped, each in its list.
pub proof fn the_log_names_what_was_answered_and_skipped(
    held: Seq<(Seq<char>, Option<Seq<char>>)>,
    id: Seq<char>,
)
    ensures
        questions::settled_ids(held, false).contains(id) <==> exists|i: int|
            0 <= i < held.len() && (#[trigger] held[i]).0 == id && held[i].1 is Some,
        questions::settled_ids(held, true).contains(id) <==> exists|i: int|
            0 <= i < held.len() && (#[trigger] held[i]).0 == id && held[i].1 is None,
        questions::settled_ids(held, false).len() + questions::settled_ids(held, true).len()
            == held.len(),
    decreases held.len(),
{
    lemma_settled(held, false, id);
    lemma_settled(held, true, id);
    if held.len() > 0 {
        the_log_names_what_was_answered_and_skipped(held.drop_last(), id);
    }
}

proof fn lemma_settled(held: Seq<(Seq<char>, Option<Seq<char>>)>, skipped: bool, id: Seq<char>)
    ensures
        questions::settled_ids(held, skipped).contains(id) <==> exists|i: int|
            0 <= i < held.len() && (#[trigger] held[i]).0 == id && (held[i].1 is None) == skipped,
    decreases held.len(),
{
    if held.len() > 0 {
        let front = held.drop_last();
        let before = questions::settled_ids(front, skipped);
        let out = questions::settled_ids(held, skipped);
        let last = held.len() - 1;
        lemma_settled(front, skipped, id);
        if before.contains(id) {
            let i = choose|i: int|
                0 <= i < front.len() && (#[trigger] front[i]).0 == id && (front[i].1 is None)
                    == skipped;
            assert(held[i] == front[i]);
            let k = choose|k: int| 0 <= k < before.len() && before[k] == id;
            assert(out[k] == id);
        } else if (held[last].1 is None) == skipped && held[last].0 == id {
            assert(out[out.len() - 1] == id);
        } else {
            if out.contains(id) {
                let k = choose|k: int| 0 <= k < out.len() && out[k] == id;
                assert(before[k] == id);
            }
            if exists|i: int|
                0 <= i < held.len() && (#[trigger] held[i]).0 == id && (held[i].1 is None)
                    == skipped {
                let i = choose|i: int|
                    0 <= i < held.len() && (#[trigger] held[i]).0 == id && (held[i].1 is None)
                        == skipped;
                assert(front[i] == held[i]);
            }
        }
    }
}

// ---------------------------------------------------------------------------------------------
// What the user sees
// ---------------------------------------------------------------------------------------------

/// A settled question shows the answer, unless it is secret, or that it was skipped, and whether
/// Codex has it or how many questions it waits for.
pub proof fn a_settled_question_shows_its_outcome(
    answer: Seq<char>,
    sent: bool,
    remaining: nat,
    is_secret: bool,
)
    ensures
        text::occurs_in(answer, questions::outcome_text(Some(answer), false, sent, remaining as int)),
        text::has_prefix(
            questions::outcome_text(None, is_secret, sent, remaining as int),
            "⏭ Skipped"@,
        ),
        text::has_prefix(
            questions::outcome_text(Some(answer), true, sent, remaining as int),
            "✅ Answered (hidden)"@,
        ),
        text::occurs_in(
            "Sent to Codex"@,
            questions::outcome_text(Some(answer), is_secret, true, remaining as int),
        ),
        text::occurs_in(
            "Sent to Codex"@,
            questions::outcome_text(None, is_secret, true, remaining as int),
        ),
        text::occurs_in(
            " "@ + number::decimal(remaining) + " question(s)"@,
            questions::outcome_text(Some(answer), is_secret, false, remaining as int),
        ),
        text::occurs_in(
            " "@ + number::decimal(remaining) + " question(s)"@,
            questions::outcome_text(None, is_secret, false, remaining as int),
        ),
{
    let shown = "✅ Answer: "@ + answer;
    let rest = if sent {
        "\n📤 Sent to Codex."@
    } else {
        "\n💾 Saved. Codex gets it once the other "@ + number::decimal(remaining)
            + " question(s) are settled."@
    };
    let plain = questions::outcome_text(Some(answer), false, sent, remaining as int);
    assert(plain =~= "✅ Answer: "@ + answer + rest);
    texts::occurring_means_standing_between("✅ Answer: "@, answer, rest);
    let skipped = questions::outcome_text(None, is_secret, sent, remaining as int);
    assert(skipped =~= "⏭ Skipped"@ + rest);
    texts::occurring_means_standing_between(Seq::empty(), "⏭ Skipped"@, rest);
    let hidden = questions::outcome_text(Some(answer), true, sent, remaining as int);
    assert(hidden =~= "✅ Answered (hidden)"@ + rest);
    texts::occurring_means_standing_between(Seq::empty(), "✅ Answered (hidden)"@, rest);
    let head = if is_secret {
        "✅ Answered (hidden)"@
    } else {
        shown
    };
    lemma_sent_end(head);
    lemma_sent_end("⏭ Skipped"@);
    lemma_saved_end(head, number::decimal(remaining));
    lemma_saved_end("⏭ Skipped"@, number::decimal(remaining));
}

proof fn lemma_sent_end(head: Seq<char>)
    ensures
        text::occurs_in("Sent to Codex"@, head + "\n📤 Sent to Codex."@),
{
    reveal_strlit("\n📤 Sent to Codex.");
    reveal_strlit("Sent to Codex");
    let sent = "\n📤 Sent to Codex."@;
    assert(sent.subrange(3, 16) =~= "Sent to Codex"@);
    assert(head + sent =~= (head + sent.take(3)) + sent.subrange(3, 16) + sent.skip(16));
    texts::occurring_means_standing_between(head + sent.take(3), "Sent to Codex"@, sent.skip(16));
}

proof fn lemma_saved_end(head: Seq<char>, number: Seq<char>)
    ensures
        text::occurs_in(
            " "@ + number + " question(s)"@,
            head + "\n💾 Saved. Codex gets it once the other "@ + number
                + " question(s) are settled."@,
        ),
{
    let lead = "\n💾 Saved. Codex gets it once the other "@;
    let tail = " question(s) are settled."@;
    assert(lead.len() > 0 && seq![lead.last()] =~= " "@) by {
        reveal_strlit("\n💾 Saved. Codex gets it once the other ");
        reveal_strlit(" ");
    }
    assert(tail.len() >= 12 && tail.take(12) =~= " question(s)"@) by {
        reveal_strlit(" question(s) are settled.");
        reveal_strlit(" question(s)");
    }
    let front = lead.drop_last();
    assert(lead =~= front + seq![lead.last()]);
    assert(tail =~= tail.take(12) + tail.skip(12));
    assert(head + (front + " "@) + number + (" question(s)"@ + tail.skip(12)) =~= (head + front) + (
    " "@ + number + " question(s)"@) + tail.skip(12));
    texts::occurring_means_standing_between(
        head + front,
        " "@ + number + " question(s)"@,
        tail.skip(12),
    );
}

// ---------------------------------------------------------------------------------------------
// What is stored
// ---------------------------------------------------------------------------------------------

/// A decision is stored once Codex has it, and only then: the request is marked, the decision
/// logged with its request, and the thread shown as working where there is a chat. A request that
/// is gone expires, and a failed attempt changes nothing.
pub proof fn decisions_are_stored_once_codex_has_them(
    approval_key: Seq<char>,
    request: AppServerRequest,
    action: types::TelegramCallbackAction,
    response: JsonView,
    result: turns::SendResult,
    configured: bool,
    now: int,
)
    ensures
        ({
            let effects = turns::approval_effects(
                approval_key,
                request,
                action,
                response,
                result,
                configured,
                now,
            );
            let marked = turns::RequestEffectView::MarkResponded { approval_key };
            let typing = turns::RequestEffectView::RegisterTyping { thread_id: request.thread_id@ };
            let expired = turns::RequestEffectView::Expire { approval_key: request.approval_key@ };
            match result {
                turns::SendResult::Failed { .. } => effects.len() == 0,
                turns::SendResult::Gone => effects == seq![expired],
                turns::SendResult::Taken { .. } => {
                    &&& effects[0] == marked
                    &&& effects[1] matches turns::RequestEffectView::Log {
                        thread_id,
                        kind,
                        record,
                    } && thread_id == request.thread_id@ && kind == "telegram_app_server_approval"@
                        && json::text_at(record.get("approvalKey"@)) == Some(approval_key)
                        && json::text_at(record.get("method"@)) == Some(request.method@)
                        && json::text_at(record.get("turnId"@)) == Some(request.turn_id@)
                        && json::text_at(record.get("itemId"@)) == Some(request.item_id@)
                        && record.get("sentAt"@) == Some(JsonView::Int(now)) && json::text_at(
                        record.get("decision"@),
                    )
                        == Some(types::action_name(action)) && record.get("response"@) == Some(
                        response,
                    ) && record.get("requestId"@) == Some(request.request_id@)
                    &&& configured ==> effects.len() == 3 && effects[2] == typing
                    &&& !configured ==> effects.len() == 2
                },
            }
        }),
{
    broadcast use values::added_members_are_found;
    broadcast use values::no_members_are_found;

    names::names_differ();
}

/// The answers of a request are logged once Codex has them, by their questions alone, and the
/// thread is shown as working where there is a chat; a request that is gone expires.
pub proof fn answers_are_stored_once_codex_has_them(
    question_key: Seq<char>,
    question_id: Seq<char>,
    answer: Option<Seq<char>>,
    request: AppServerRequest,
    held: Seq<(Seq<char>, Option<Seq<char>>)>,
    result: turns::SendResult,
    configured: bool,
    now: int,
)
    ensures
        ({
            let effects = questions::answer_effects(
                question_key,
                question_id,
                answer,
                request,
                held,
                result,
                configured,
                now,
            );
            let stored = turns::RequestEffectView::StoreAnswer { question_key, question_id, answer };
            let marked = turns::RequestEffectView::MarkResponded { approval_key: question_key };
            let typing = turns::RequestEffectView::RegisterTyping { thread_id: request.thread_id@ };
            let expired = turns::RequestEffectView::Expire { approval_key: request.approval_key@ };
            match result {
                turns::SendResult::Failed { .. } => effects.len() == 0,
                turns::SendResult::Gone => effects == seq![expired],
                turns::SendResult::Taken { .. } => {
                    &&& effects[0] == stored
                    &&& effects[1] == marked
                    &&& effects[2] matches turns::RequestEffectView::Log {
                        thread_id,
                        kind,
                        record,
                    } && thread_id == request.thread_id@ && kind == "telegram_app_server_question"@
                        && json::text_at(record.get("questionKey"@)) == Some(question_key)
                        && json::text_at(record.get("turnId"@)) == Some(request.turn_id@)
                        && json::text_at(record.get("itemId"@)) == Some(request.item_id@)
                        && record.get("sentAt"@) == Some(JsonView::Int(now)) && record.get(
                        "answered"@,
                    ) == Some(
                        JsonView::Array(json::str_views(questions::settled_ids(held, false))),
                    ) && record.get("skipped"@) == Some(
                        JsonView::Array(json::str_views(questions::settled_ids(held, true))),
                    ) && record.get("requestId"@) == Some(request.request_id@)
                    &&& configured ==> effects.len() == 4 && effects[3] == typing
                    &&& !configured ==> effects.len() == 3
                },
            }
        }),
{
    broadcast use values::added_members_are_found;
    broadcast use values::no_members_are_found;

    names::names_differ();
}

// ---------------------------------------------------------------------------------------------
// What comes of an answer
// ---------------------------------------------------------------------------------------------

/// An answer is held while another question of its request is open, and sent with the others once
/// none is; it is refused where its question is not asked or already answered.
pub proof fn answers_wait_for_the_last_question(
    list: &Vec<AppServerQuestion>,
    held: Vec<HeldAnswer>,
    question_id: &str,
    answer: Option<&str>,
    free_text: bool,
    step: AnswerStep,
)
    requires
        call_ensures(
            questions::begin_answer,
            (Some(list), held, question_id, answer, free_text),
            step,
        ),
    ensures
        ({
            let before = questions::held_views(held@);
            let open = exists|i: int|
                0 <= i < list@.len() && (#[trigger] list@[i]).id@ != question_id@
                    && !questions::holds(before, list@[i].id@);
            let asked = exists|i: int|
                0 <= i < list@.len() && (#[trigger] list@[i]).id@ == question_id@;
            &&& !asked || questions::holds(before, question_id@) ==> step is Refused
            &&& asked && !questions::holds(before, question_id@) && !free_text ==> !(
            step is Refused)
            &&& step is Hold ==> open
            &&& step is Send ==> !open
            &&& step matches AnswerStep::Send { plan, response } ==> {
                &&& plan.remaining == 0
                &&& response@ == questions::question_response(
                    questions::held_with(before, question_id@, json::opt_text(answer)),
                )
            }
            &&& step matches AnswerStep::Hold { plan } ==> plan.remaining > 0
        }),
{
    let before = questions::held_views(held@);
    let given = json::opt_text(answer);
    lemma_found(list@, question_id@);
    if !(step is Refused) {
        questions::answers_are_sent_together(list@, before, question_id@, given, free_text);
    }
}

proof fn lemma_found(list: Seq<AppServerQuestion>, id: Seq<char>)
    ensures
        ({
            let k = questions::question_at(list, id);
            &&& 0 <= k <= list.len()
            &&& k < list.len() ==> list[k].id@ == id
            &&& k < list.len() <==> exists|i: int| 0 <= i < list.len() && (#[trigger] list[i]).id@ == id
        }),
    decreases list.len(),
{
    if list.len() > 0 && list[0].id@ != id {
        let rest = list.skip(1);
        lemma_found(rest, id);
        if exists|i: int| 0 <= i < list.len() && (#[trigger] list[i]).id@ == id {
            let i = choose|i: int| 0 <= i < list.len() && (#[trigger] list[i]).id@ == id;
            assert(rest[i - 1] == list[i]);
        }
        if exists|i: int| 0 <= i < rest.len() && (#[trigger] rest[i]).id@ == id {
            let i = choose|i: int| 0 <= i < rest.len() && (#[trigger] rest[i]).id@ == id;
            assert(list[i + 1] == rest[i]);
        }
    }
}

/// An answer is secret where a question with its identifier is.
pub proof fn answers_to_secret_questions_are_secret(
    list: &Vec<AppServerQuestion>,
    question_id: &str,
    k: int,
    yes: bool,
    unknown: bool,
)
    requires
        call_ensures(questions::question_is_secret, (Some(list), question_id), yes),
        call_ensures(
            questions::question_is_secret,
            (None::<&Vec<AppServerQuestion>>, question_id),
            unknown,
        ),
    ensures
        !unknown,
        0 <= k < list@.len() && list@[k].id@ == question_id@ && list@[k].is_secret ==> yes,
        yes ==> exists|i: int|
            0 <= i < list@.len() && (#[trigger] list@[i]).id@ == question_id@ && list@[i].is_secret,
{
}

/// What is returned of an answer that is held: that nothing was sent, how many questions are open,
/// and whether it is secret.
pub proof fn held_answers_are_reported_as_saved(
    request: &AppServerRequest,
    plan: &AnswerPlan,
    summary: Json,
    recorded: bool,
    now: u64,
    outcome: QuestionAnswerOutcome,
)
    requires
        call_ensures(
            questions::saved_answer_outcome,
            (request, plan, summary, recorded, now),
            outcome,
        ),
    ensures
        !recorded ==> outcome is NotPending,
        recorded ==> {
            &&& outcome matches QuestionAnswerOutcome::Recorded {
                result,
                sent,
                remaining,
                is_secret,
            } && !sent && remaining == plan.remaining && is_secret == plan.is_secret
                && json::truth_at(result@.get("ok"@)) == Some(true)
                && json::text_at(result@.get("threadId"@)) == Some(request.thread_id@)
                && json::text_at(result@.get("action"@)) == Some(
                "telegram_question_answer_saved"@,
            ) && result@.get("question"@) == Some(summary@) && result@.get("sentAt"@) == Some(
                JsonView::Int(now as int),
            )
        },
{
    broadcast use values::added_members_are_found;
    broadcast use values::no_members_are_found;

    names::names_differ();
}

/// What is returned of answers that went to Codex, or did not because the request is gone.
pub proof fn sent_answers_are_reported_as_sent(
    request: &AppServerRequest,
    plan: &AnswerPlan,
    summary: Json,
    reached: Option<&TransportInfo>,
    now: u64,
    outcome: QuestionAnswerOutcome,
)
    requires
        call_ensures(
            questions::sent_answer_outcome,
            (request, plan, summary, reached, now),
            outcome,
        ),
    ensures
        reached is None ==> outcome is NotPending,
        reached is Some ==> {
            &&& outcome matches QuestionAnswerOutcome::Recorded {
                result,
                sent,
                remaining,
                is_secret,
            } && sent && remaining == plan.remaining && is_secret == plan.is_secret
                && json::truth_at(result@.get("ok"@)) == Some(true) && result@.get("sentAt"@)
                == Some(JsonView::Int(now as int))
                && json::text_at(result@.get("threadId"@)) == Some(request.thread_id@)
                && json::text_at(result@.get("turnId"@)) == Some(request.turn_id@)
                && json::text_at(result@.get("itemId"@)) == Some(request.item_id@)
                && json::text_at(result@.get("action"@)) == Some("telegram_app_server_question"@)
                && result@.get("question"@) == Some(summary@) && json::text_at(
                json::at(result@.get("codex"@), "transport"@),
            ) == Some(reached->0.transport@)
        },
{
    broadcast use values::added_members_are_found;
    broadcast use values::no_members_are_found;

    names::names_differ();
}

/// The summary of an answer names its question, whether it was skipped, whether it was in the
/// user's own words, and how many questions are open.
pub proof fn summaries_name_the_question(
    question_key: Seq<char>,
    question_id: Seq<char>,
    skipped: bool,
    free_text: bool,
    remaining: int,
)
    ensures
        ({
            let summary = questions::answer_summary(
                question_key,
                question_id,
                skipped,
                free_text,
                remaining,
            );
            &&& json::text_at(summary.get("questionKey"@)) == Some(question_key)
            &&& json::text_at(summary.get("questionId"@)) == Some(question_id)
            &&& json::truth_at(summary.get("skipped"@)) == Some(skipped)
            &&& json::truth_at(summary.get("freeText"@)) == Some(free_text)
            &&& summary.get("remaining"@) == Some(JsonView::Int(remaining))
            &&& summary.get("answer"@) is None
        }),
{
    broadcast use values::added_members_are_found;
    broadcast use values::no_members_are_found;

    names::names_differ();
    reveal_strlit("answer");
    assert("answer"@.len() == 6);
}

/// The message of a settled question begins with the question and ends with the outcome. It is
/// edited where its text is known, and otherwise, or where that fails, it loses its buttons.
pub proof fn settled_questions_lose_their_buttons(
    telegram: &TelegramConfig,
    message_id: i64,
    original: &str,
    outcome: &str,
    known: Option<questions::QuestionSettlement>,
    unknown: Option<questions::QuestionSettlement>,
    none: Option<questions::QuestionSettlement>,
)
    requires
        call_ensures(
            questions::settle_question_message,
            (telegram, Some(message_id), Some(original), outcome),
            known,
        ),
        call_ensures(
            questions::settle_question_message,
            (telegram, Some(message_id), None::<&str>, outcome),
            unknown,
        ),
        call_ensures(
            questions::settle_question_message,
            (telegram, None::<i64>, Some(original), outcome),
            none,
        ),
    ensures
        none is None,
        known matches Some(plan) && plan.fallback@ == api::remove_keyboard_call(
            telegram.chat_id@,
            message_id as int,
        ) && (plan.edit matches Some(edit) && edit@ == api::edit_text_call(
            telegram.chat_id@,
            message_id as int,
            questions::settled_text(original@, outcome@),
        )),
        unknown matches Some(plan) && plan.fallback@ == api::remove_keyboard_call(
            telegram.chat_id@,
            message_id as int,
        ) && plan.edit is None,
{
}

/// The buttons are taken away unless the edit took them.
pub proof fn failed_edits_still_take_the_buttons(edited: Option<bool>, remove: bool)
    requires
        call_ensures(questions::settle_follow_up, (edited,), remove),
    ensures
        edited == Some(true) ==> !remove,
        edited == Some(false) ==> remove,
        edited is None ==> remove,
{
}

/// Where both are short enough, a settled question is its text, an empty line and the outcome; a
/// long text is cut before a long outcome is lost.
pub proof fn settled_questions_show_text_and_outcome(
    before: Seq<char>,
    blanks: Seq<char>,
    outcome: Seq<char>,
)
    requires
        before.len() > 0,
        !text::white(before.last()),
        forall|k: int| 0 <= k < blanks.len() ==> text::white(#[trigger] blanks[k]),
        outcome.len() <= 2048,
    ensures
        before.len() + outcome.len() + 2 <= 4096 ==> questions::settled_text(
            before + blanks,
            outcome,
        ) == before + "\n\n"@ + outcome,
        text::has_suffix(questions::settled_text(before + blanks, outcome), "\n\n"@ + outcome),
{
    let original = before + blanks;
    texts::trimming_one_end_takes_only_its_blanks(original);
    let j = choose|j: int|
        0 <= j <= original.len() && text::trimmed_end(original) == #[trigger] original.take(j) && (
        forall|k: int| j <= k < original.len() ==> text::white(#[trigger] original[k])) && (j > 0
            ==> !text::white(original[j - 1]));
    if j < before.len() {
        assert(text::white(original[before.len() - 1]));
    }
    if j > before.len() {
        assert(original[j - 1] == blanks[j - 1 - before.len()]);
    }
    assert(original.take(j) =~= before);
    questions::settled_questions_fit(original, outcome);
    let front = crate::render::truncated(before, 4096 - (outcome.len() + 2));
    texts::occurring_means_standing_between(front, "\n\n"@ + outcome, Seq::empty());
    assert(questions::settled_text(original, outcome) =~= front + ("\n\n"@ + outcome));
}

/// The response that is made of held answers has each of them, and nothing for what was skipped.
pub proof fn responses_have_every_held_answer(
    held: &Vec<HeldAnswer>,
    response: Json,
    i: int,
    other: Seq<char>,
)
    requires
        call_ensures(questions::app_server_question_response, (held,), response),
        forall|i: int, j: int|
            0 <= i < j < held@.len() ==> (#[trigger] held@[i]).question_id@ != (
            #[trigger] held@[j]).question_id@,
        0 <= i < held@.len(),
    ensures
        held@[i].answer matches Some(answer) ==> json::items_at(
            json::at(json::at(response@.get("answers"@), held@[i].question_id@), "answers"@),
        ) == Some(seq![JsonView::Str(answer@)]),
        held@[i].answer is None ==> json::at(response@.get("answers"@), held@[i].question_id@) is None,
        (forall|k: int| 0 <= k < held@.len() ==> (#[trigger] held@[k]).question_id@ != other)
            ==> json::at(response@.get("answers"@), other) is None,
{
    let views = questions::held_views(held@);
    assert forall|a: int, b: int| 0 <= a < b < views.len() implies (#[trigger] views[a]).0 != (
    #[trigger] views[b]).0 by {
        assert(held@[a].question_id@ != held@[b].question_id@);
    }
    assert(views[i] == (held@[i].question_id@, json::opt_string(held@[i].answer)));
    every_answer_is_sent(views, i, other);
    if forall|k: int| 0 <= k < held@.len() ==> (#[trigger] held@[k]).question_id@ != other {
        assert(!questions::holds(views, other)) by {
            if questions::holds(views, other) {
                let k = choose|k: int| 0 <= k < views.len() && (#[trigger] views[k]).0 == other;
                assert(held@[k].question_id@ == other);
            }
        }
    }
}

/// A long question is cut as far as the outcome needs it, and no further.
pub proof fn long_questions_give_way_to_the_outcome(original: Seq<char>, outcome: Seq<char>)
    requires
        outcome.len() <= 2048,
        original.len() > 0,
        !text::white(original.last()),
        original.len() + outcome.len() + 2 > 4096,
    ensures
        questions::settled_text(original, outcome) == original.take(4096 - (outcome.len() + 3)).push(
            '…',
        ) + "\n\n"@ + outcome,
        questions::settled_text(original, outcome).len() == 4096,
{
    texts::trimming_one_end_takes_only_its_blanks(original);
    let j = choose|j: int|
        0 <= j <= original.len() && text::trimmed_end(original) == #[trigger] original.take(j) && (
        forall|k: int| j <= k < original.len() ==> text::white(#[trigger] original[k])) && (j > 0
            ==> !text::white(original[j - 1]));
    if j < original.len() {
        assert(text::white(original[original.len() - 1]));
    }
    assert(original.take(j) =~= original);
    reveal_strlit("\n\n");
}

/// An answer is planned for a question that is not answered yet: it is held with the others, the
/// questions that are open are counted, and it is secret where the question is.
pub proof fn answers_are_planned_once(
    list: &Vec<AppServerQuestion>,
    at: usize,
    held: Vec<HeldAnswer>,
    question_id: &str,
    answer: Option<&str>,
    out: Option<AnswerPlan>,
    plan: &AnswerPlan,
    complete: bool,
)
    requires
        at < list@.len(),
        call_ensures(
            questions::plan_question_answer,
            (list, at, held, question_id, answer),
            out,
        ),
        call_ensures(AnswerPlan::complete, (plan,), complete),
    ensures
        questions::holds(questions::held_views(held@), question_id@) ==> out is None,
        !questions::holds(questions::held_views(held@), question_id@) ==> (out matches Some(made)
            && made.is_secret == list@[at as int].is_secret && questions::held_views(
            made.answers@,
        ).contains((question_id@, json::opt_text(answer))) && made.answers@.len() == held@.len() + 1
            && made.remaining == questions::open_questions(
            list@,
            questions::held_views(made.answers@),
        )),
        complete <==> plan.remaining == 0,
{
    let before = questions::held_views(held@);
    let given = json::opt_text(answer);
    questions::holding_an_answer_keeps_the_others(before, question_id@, given, (question_id@, given));
    if let Some(made) = out {
        assert(questions::held_views(made.answers@).len() == made.answers@.len());
    }
}

/// The question of an answer is the first with its identifier, unless it wants an option and got
/// words.
pub proof fn questions_are_found_for_their_answers(
    list: &Vec<AppServerQuestion>,
    question_id: &str,
    free_text: bool,
    k: int,
    out: Result<usize, AnswerRefusal>,
    none: Result<usize, AnswerRefusal>,
)
    requires
        call_ensures(questions::question_for_answer, (Some(list), question_id, free_text), out),
        call_ensures(
            questions::question_for_answer,
            (None::<&Vec<AppServerQuestion>>, question_id, free_text),
            none,
        ),
        0 <= k <= list@.len(),
        k < list@.len() ==> list@[k].id@ == question_id@,
        forall|i: int| 0 <= i < k ==> (#[trigger] list@[i]).id@ != question_id@,
    ensures
        none == Err::<usize, AnswerRefusal>(AnswerRefusal::NotPending),
        k == list@.len() ==> out == Err::<usize, AnswerRefusal>(AnswerRefusal::NotPending),
        k < list@.len() && free_text && !list@[k].accepts_free_text ==> out == Err::<
            usize,
            AnswerRefusal,
        >(AnswerRefusal::NeedsOption),
        k < list@.len() && (!free_text || list@[k].accepts_free_text) ==> out == Ok::<
            usize,
            AnswerRefusal,
        >(k as usize),
{
    lemma_question_at(list@, question_id@, k);
}

} // verus!
