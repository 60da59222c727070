//! Questions of Codex: holding answers until all questions of a request are settled, what is sent
//! back and logged, and what the question messages show.

use vstd::prelude::*;

use crate::api;
use crate::api::telegram_edit_message_text;
use crate::api::telegram_remove_inline_keyboard;
use crate::api::ApiCall;
use crate::json;
use crate::json::Fields;
use crate::json::Json;
use crate::json::JsonView;
use crate::number;
use crate::number::to_decimal;
use crate::render;
use crate::render::truncate_to_char_limit;
use crate::text;
use crate::text::cat2;
use crate::text::cat3;
use crate::text::cat4;
use crate::text::comes_before;
use crate::text::no_texts;
use crate::text::push_text;
use crate::text::same_text;
use crate::text::trim_end;
use crate::turns;
use crate::turns::push_request_effect;
use crate::turns::RequestEffect;
use crate::turns::SendResult;
use crate::types::own;
use crate::types::TelegramConfig;

verus! {

// ---------------------------------------------------------------------------------------------
// The questions of a request
// ---------------------------------------------------------------------------------------------

/// One question of a request.
#[derive(Debug, PartialEq, Eq)]
pub struct AppServerQuestion {
    pub id: String,
    /// An answer may be in the user's own words.
    pub accepts_free_text: bool,
    pub is_secret: bool,
}

/// The position of the question `id`, or the number of questions.
pub open spec fn question_at(questions: Seq<AppServerQuestion>, id: Seq<char>) -> int
    decreases questions.len(),
{
    if questions.len() == 0 || questions[0].id@ == id {
        0
    } else {
        1 + question_at(questions.skip(1), id)
    }
}

fn find_question(questions: &Vec<AppServerQuestion>, id: &str) -> (at: usize)
    ensures
        at == question_at(questions@, id@),
        at <= questions@.len(),
{
    let mut i: usize = 0;
    assert(questions@.skip(0) =~= questions@);
    while i < questions.len()
        invariant
            i <= questions@.len(),
            i + question_at(questions@.skip(i as int), id@) == question_at(questions@, id@),
        decreases questions@.len() - i,
    {
        assert(questions@.skip(i as int)[0] == questions@[i as int]);
        assert(questions@.skip(i as int).skip(1) =~= questions@.skip(i + 1));
        if same_text(questions[i].id.as_str(), id) {
            return i;
        }
        i = i + 1;
    }
    i
}

/// The question `id` is secret.
pub open spec fn marked_secret(questions: Seq<AppServerQuestion>, id: Seq<char>) -> bool {
    exists|i: int|
        0 <= i < questions.len() && (#[trigger] questions[i]).id@ == id && questions[i].is_secret
}

/// Whether Codex marked a question secret. `questions` are those of its request, whatever state the
/// request is in now: a late reply to a settled secret question must still leave the chat.
pub fn question_is_secret(
    questions: Option<&Vec<AppServerQuestion>>,
    question_id: &str,
) -> (yes: bool)
    ensures
        yes == (questions is Some && marked_secret(questions->0@, question_id@)),
{
    let list = match questions {
        Some(list) => list,
        None => {
            return false;
        },
    };
    let mut i: usize = 0;
    while i < list.len()
        invariant
            questions == Some(list),
            i <= list@.len(),
            forall|k: int|
                0 <= k < i ==> !((#[trigger] list@[k]).id@ == question_id@ && list@[k].is_secret),
        decreases list@.len() - i,
    {
        if list[i].is_secret && same_text(list[i].id.as_str(), question_id) {
            assert(list@[i as int].id@ == question_id@);
            return true;
        }
        i = i + 1;
    }
    false
}

// ---------------------------------------------------------------------------------------------
// Held answers
// ---------------------------------------------------------------------------------------------

/// An answer that is held until its request is settled; `None` skips the question.
#[derive(Debug, PartialEq, Eq)]
pub struct HeldAnswer {
    pub question_id: String,
    pub answer: Option<String>,
}

/// What the answers of a list hold.
pub open spec fn held_views(list: Seq<HeldAnswer>) -> Seq<(Seq<char>, Option<Seq<char>>)> {
    Seq::new(list.len(), |i: int| (list[i].question_id@, json::opt_string(list[i].answer)))
}

/// An answer to `id` is held.
pub open spec fn holds(held: Seq<(Seq<char>, Option<Seq<char>>)>, id: Seq<char>) -> bool {
    exists|i: int| 0 <= i < held.len() && (#[trigger] held[i]).0 == id
}

fn is_held(held: &Vec<HeldAnswer>, id: &str) -> (yes: bool)
    ensures
        yes == holds(held_views(held@), id@),
{
    let mut i: usize = 0;
    while i < held.len()
        invariant
            i <= held@.len(),
            forall|k: int| 0 <= k < i ==> (#[trigger] held_views(held@)[k]).0 != id@,
        decreases held@.len() - i,
    {
        if same_text(held[i].question_id.as_str(), id) {
            assert(held_views(held@)[i as int].0 == id@);
            return true;
        }
        i = i + 1;
    }
    false
}

/// The answers with one more, in the order of their questions' identifiers.
pub open spec fn held_with(
    held: Seq<(Seq<char>, Option<Seq<char>>)>,
    id: Seq<char>,
    answer: Option<Seq<char>>,
) -> Seq<(Seq<char>, Option<Seq<char>>)>
    decreases held.len(),
{
    if held.len() == 0 || text::precedes(id, held[0].0) {
        seq![(id, answer)] + held
    } else {
        seq![held[0]] + held_with(held.skip(1), id, answer)
    }
}

fn hold(held: Vec<HeldAnswer>, id: &str, answer: Option<&str>) -> (out: Vec<HeldAnswer>)
    ensures
        held_views(out@) == held_with(held_views(held@), id@, json::opt_text(answer)),
{
    let mut out = held;
    let ghost all = held_views(held@);
    let new = HeldAnswer { question_id: id.to_owned(), answer: own(answer) };
    let mut i: usize = 0;
    let ghost entry = (id@, json::opt_text(answer));
    assert(all.skip(0) =~= all);
    assert(all.take(0) + held_with(all, id@, entry.1) =~= held_with(all, id@, entry.1));
    while i < out.len() && !comes_before(id, out[i].question_id.as_str())
        invariant
            out@ == held@,
            all == held_views(held@),
            i <= out@.len(),
            entry == (id@, json::opt_text(answer)),
            all.take(i as int) + held_with(all.skip(i as int), id@, entry.1) == held_with(
                all,
                id@,
                entry.1,
            ),
        decreases out@.len() - i,
    {
        let ghost rest = all.skip(i as int);
        assert(rest[0] == all[i as int]);
        assert(rest.skip(1) =~= all.skip(i + 1));
        assert(all.take(i + 1) + held_with(all.skip(i + 1), id@, entry.1) =~= all.take(i as int)
            + held_with(rest, id@, entry.1));
        i = i + 1;
    }
    let ghost rest = all.skip(i as int);
    if i < out.len() {
        assert(rest[0] == all[i as int]);
    }
    assert(held_with(rest, id@, entry.1) =~= seq![entry] + rest);
    out.insert(i, new);
    assert(held_views(out@) =~= all.take(i as int) + (seq![entry] + rest));
    out
}

/// Holding an answer adds exactly that one: it can be found, and everything else is as it was.
pub proof fn holding_an_answer_keeps_the_others(
    held: Seq<(Seq<char>, Option<Seq<char>>)>,
    id: Seq<char>,
    answer: Option<Seq<char>>,
    other: (Seq<char>, Option<Seq<char>>),
)
    ensures
        held_with(held, id, answer).contains(other) <==> held.contains(other) || other == (
            id,
            answer,
        ),
        held_with(held, id, answer).len() == held.len() + 1,
        holds(held_with(held, id, answer), other.0) <==> holds(held, other.0) || other.0 == id,
    decreases held.len(),
{
    let after = held_with(held, id, answer);
    if held.len() == 0 || text::precedes(id, held[0].0) {
        assert(after[0] == (id, answer));
        assert forall|k: int| 0 <= k < held.len() implies held[k] == #[trigger] after[k + 1] by {}
        if held.contains(other) {
            let k = choose|k: int| 0 <= k < held.len() && held[k] == other;
            assert(after[k + 1] == other);
        }
        if after.contains(other) {
            let k = choose|k: int| 0 <= k < after.len() && after[k] == other;
            if k > 0 {
                assert(held[k - 1] == other);
            }
        }
        if holds(held, other.0) {
            let k = choose|k: int| 0 <= k < held.len() && (#[trigger] held[k]).0 == other.0;
            assert(after[k + 1].0 == other.0);
        }
        if holds(after, other.0) {
            let k = choose|k: int| 0 <= k < after.len() && (#[trigger] after[k]).0 == other.0;
            if k > 0 {
                assert(held[k - 1].0 == other.0);
            }
        }
    } else {
        let rest = held.skip(1);
        let tail = held_with(rest, id, answer);
        holding_an_answer_keeps_the_others(rest, id, answer, other);
        assert(after =~= seq![held[0]] + tail);
        assert(after[0] == held[0]);
        if held.contains(other) {
            let k = choose|k: int| 0 <= k < held.len() && held[k] == other;
            if k > 0 {
                assert(rest[k - 1] == other);
                let j = choose|j: int| 0 <= j < tail.len() && tail[j] == other;
                assert(after[j + 1] == other);
            }
        }
        if tail.contains(other) {
            let j = choose|j: int| 0 <= j < tail.len() && tail[j] == other;
            assert(after[j + 1] == other);
        }
        if after.contains(other) {
            let k = choose|k: int| 0 <= k < after.len() && after[k] == other;
            if k > 0 {
                assert(tail[k - 1] == other);
                if rest.contains(other) {
                    let j = choose|j: int| 0 <= j < rest.len() && rest[j] == other;
                    assert(held[j + 1] == other);
                }
            }
        }
        if holds(rest, other.0) {
            let k = choose|k: int| 0 <= k < rest.len() && (#[trigger] rest[k]).0 == other.0;
            assert(held[k + 1].0 == other.0);
        }
        if holds(tail, other.0) {
            let k = choose|k: int| 0 <= k < tail.len() && (#[trigger] tail[k]).0 == other.0;
            assert(after[k + 1].0 == other.0);
        }
        if holds(held, other.0) {
            let k = choose|k: int| 0 <= k < held.len() && (#[trigger] held[k]).0 == other.0;
            if k > 0 {
                assert(rest[k - 1].0 == other.0);
            }
        }
        if holds(after, other.0) {
            let k = choose|k: int| 0 <= k < after.len() && (#[trigger] after[k]).0 == other.0;
            if k > 0 {
                assert(tail[k - 1].0 == other.0);
            }
        }
    }
}

/// How many questions have no held answer.
pub open spec fn open_questions(
    questions: Seq<AppServerQuestion>,
    held: Seq<(Seq<char>, Option<Seq<char>>)>,
) -> nat
    decreases questions.len(),
{
    if questions.len() == 0 {
        0
    } else {
        open_questions(questions.drop_last(), held) + if holds(held, questions.last().id@) {
            0nat
        } else {
            1nat
        }
    }
}

fn count_open(questions: &Vec<AppServerQuestion>, held: &Vec<HeldAnswer>) -> (out: usize)
    ensures
        out == open_questions(questions@, held_views(held@)),
{
    let mut count: usize = 0;
    let mut i: usize = 0;
    assert(questions@.take(0) =~= Seq::<AppServerQuestion>::empty());
    while i < questions.len()
        invariant
            i <= questions@.len(),
            count <= i,
            count == open_questions(questions@.take(i as int), held_views(held@)),
        decreases questions@.len() - i,
    {
        assert(questions@.take(i + 1).drop_last() =~= questions@.take(i as int));
        assert(questions@.take(i + 1).last() == questions@[i as int]);
        if !is_held(held, questions[i].id.as_str()) {
            count = count + 1;
        }
        i = i + 1;
    }
    assert(questions@.take(i as int) =~= questions@);
    count
}

/// Nothing is open exactly when every question is answered or skipped.
pub proof fn settled_means_every_question(
    questions: Seq<AppServerQuestion>,
    held: Seq<(Seq<char>, Option<Seq<char>>)>,
)
    ensures
        open_questions(questions, held) == 0 <==> forall|i: int|
            0 <= i < questions.len() ==> holds(held, (#[trigger] questions[i]).id@),
        open_questions(questions, held) <= questions.len(),
    decreases questions.len(),
{
    if questions.len() > 0 {
        let before = questions.drop_last();
        settled_means_every_question(before, held);
        if open_questions(questions, held) == 0 {
            assert forall|i: int| 0 <= i < questions.len() implies holds(
                held,
                (#[trigger] questions[i]).id@,
            ) by {
                if i < before.len() {
                    assert(questions[i] == before[i]);
                }
            }
        }
        if forall|i: int|
            0 <= i < questions.len() ==> holds(held, (#[trigger] questions[i]).id@) {
            assert forall|i: int| 0 <= i < before.len() implies holds(
                held,
                (#[trigger] before[i]).id@,
            ) by {
                assert(questions[i] == before[i]);
            }
            assert(holds(held, questions[questions.len() - 1].id@));
        }
    }
}

// ---------------------------------------------------------------------------------------------
// Answering
// ---------------------------------------------------------------------------------------------

/// Why an answer is not taken.
#[derive(Debug, Clone, Copy, PartialEq, Eq, Structural)]
pub enum AnswerRefusal {
    /// The question is answered, expired, or was never pending.
    NotPending,
    /// Codex asked for one of the options only, and this was a free-form reply.
    NeedsOption,
}

/// Whether and why an answer is not taken, before the held answers are looked at.
pub open spec fn answer_refused(
    questions: Option<Seq<AppServerQuestion>>,
    id: Seq<char>,
    free_text: bool,
) -> Option<AnswerRefusal> {
    match questions {
        Some(list) => {
            let at = question_at(list, id);
            if at >= list.len() {
                Some(AnswerRefusal::NotPending)
            } else if free_text && !list[at].accepts_free_text {
                Some(AnswerRefusal::NeedsOption)
            } else {
                None
            }
        },
        None => Some(AnswerRefusal::NotPending),
    }
}

/// Looks up the question of an answer. `questions` are those of the pending request, where there
/// is one.
pub fn question_for_answer(
    questions: Option<&Vec<AppServerQuestion>>,
    question_id: &str,
    free_text: bool,
) -> (out: Result<usize, AnswerRefusal>)
    ensures
        match out {
            Ok(at) => {
                &&& questions is Some
                &&& at == question_at(questions->0@, question_id@)
                &&& at < questions->0@.len()
                &&& answer_refused(Some(questions->0@), question_id@, free_text) is None
            },
            Err(refusal) => answer_refused(
                match questions {
                    Some(list) => Some(list@),
                    None => None,
                },
                question_id@,
                free_text,
            ) == Some(refusal),
        },
{
    match questions {
        Some(list) => {
            let at = find_question(list, question_id);
            if at == list.len() {
                return Err(AnswerRefusal::NotPending);
            }
            if free_text && !list[at].accepts_free_text {
                return Err(AnswerRefusal::NeedsOption);
            }
            Ok(at)
        },
        None => Err(AnswerRefusal::NotPending),
    }
}

/// The answers with the new one, and what is left to do with them.
#[derive(Debug, PartialEq, Eq)]
pub struct AnswerPlan {
    pub answers: Vec<HeldAnswer>,
    /// How many questions of the request are still open.
    pub remaining: usize,
    pub is_secret: bool,
}

impl AnswerPlan {
    /// Whether all questions are settled, so that the answers go to Codex together.
    pub fn complete(&self) -> (yes: bool)
        ensures
            yes == (self.remaining == 0),
    {
        self.remaining == 0
    }
}

/// Adds an answer to those that are held; `None` where the question has one already, which is
/// never overwritten. `at` is the question's position.
pub fn plan_question_answer(
    questions: &Vec<AppServerQuestion>,
    at: usize,
    held: Vec<HeldAnswer>,
    question_id: &str,
    answer: Option<&str>,
) -> (out: Option<AnswerPlan>)
    requires
        at < questions@.len(),
    ensures
        out is None <==> holds(held_views(held@), question_id@),
        out matches Some(plan) ==> {
            &&& held_views(plan.answers@) == held_with(
                held_views(held@),
                question_id@,
                json::opt_text(answer),
            )
            &&& plan.remaining == open_questions(questions@, held_views(plan.answers@))
            &&& plan.is_secret == questions@[at as int].is_secret
        },
{
    if is_held(&held, question_id) {
        return None;
    }
    let answers = hold(held, question_id, answer);
    let remaining = count_open(questions, &answers);
    Some(AnswerPlan { answers, remaining, is_secret: questions[at].is_secret })
}

/// A member of the response to Codex for each answer that is not a skip.
pub open spec fn answer_members(held: Seq<(Seq<char>, Option<Seq<char>>)>) -> json::Members
    decreases held.len(),
{
    if held.len() == 0 {
        json::members()
    } else {
        let before = answer_members(held.drop_last());
        match held.last().1 {
            Some(answer) => before.with(
                held.last().0,
                json::members().with(
                    "answers"@,
                    JsonView::Array(seq![JsonView::Str(answer)]),
                ).object(),
            ),
            None => before,
        }
    }
}

/// The response to Codex: all answers of the request at once, without the skipped questions.
pub open spec fn question_response(held: Seq<(Seq<char>, Option<Seq<char>>)>) -> JsonView {
    json::members().with("answers"@, answer_members(held).object()).object()
}

/// The response to Codex: all answers of the request at once, without the skipped questions.
pub fn app_server_question_response(answers: &Vec<HeldAnswer>) -> (out: Json)
    ensures
        out@ == question_response(held_views(answers@)),
{
    let ghost all = held_views(answers@);
    let mut fields = Fields::new();
    let mut i: usize = 0;
    assert(all.take(0) =~= Seq::<(Seq<char>, Option<Seq<char>>)>::empty());
    while i < answers.len()
        invariant
            all == held_views(answers@),
            i <= answers@.len(),
            fields@ == answer_members(all.take(i as int)),
        decreases answers@.len() - i,
    {
        assert(all.take(i + 1).drop_last() =~= all.take(i as int));
        assert(all.take(i + 1).last() == all[i as int]);
        if let Some(answer) = &answers[i].answer {
            let one = Fields::new().with(
                "answers",
                Json::array1(Json::text(answer.as_str())),
            ).object();
            fields = fields.with(answers[i].question_id.as_str(), one);
        }
        i = i + 1;
    }
    assert(all.take(i as int) =~= all);
    Fields::new().with("answers", fields.object()).object()
}

/// What comes next for an answer.
#[derive(Debug, PartialEq, Eq)]
pub enum AnswerStep {
    /// The answer is not taken.
    Refused { refusal: AnswerRefusal },
    /// Other questions of the request are open: store the answer, and send nothing yet.
    Hold { plan: AnswerPlan },
    /// Every question of the request is settled: send the response, and store the answer only once
    /// Codex has it, so that a failed send can be retried.
    Send { plan: AnswerPlan, response: Json },
}

/// The questions of a list, where there is one.
pub open spec fn opt_questions(questions: Option<&Vec<AppServerQuestion>>) -> Option<
    Seq<AppServerQuestion>,
> {
    match questions {
        Some(list) => Some(list@),
        None => None,
    }
}

/// Whether and why an answer is not taken. A question that has an answer already is no longer
/// waiting for one: the first answer is never overwritten.
pub open spec fn refusal_of(
    questions: Option<Seq<AppServerQuestion>>,
    held: Seq<(Seq<char>, Option<Seq<char>>)>,
    id: Seq<char>,
    free_text: bool,
) -> Option<AnswerRefusal> {
    match answer_refused(questions, id, free_text) {
        Some(refusal) => Some(refusal),
        None => if holds(held, id) {
            Some(AnswerRefusal::NotPending)
        } else {
            None
        },
    }
}

/// The plan holds the answers with the new one.
pub open spec fn plans(
    plan: AnswerPlan,
    questions: Seq<AppServerQuestion>,
    held: Seq<(Seq<char>, Option<Seq<char>>)>,
    id: Seq<char>,
    answer: Option<Seq<char>>,
) -> bool {
    &&& held_views(plan.answers@) == held_with(held, id, answer)
    &&& plan.remaining == open_questions(questions, held_with(held, id, answer))
    &&& plan.is_secret == questions[question_at(questions, id)].is_secret
}

/// Begins with an answer. `questions` are those of the pending request, where there is one, and
/// `held` the answers that are held for it.
pub fn begin_answer(
    questions: Option<&Vec<AppServerQuestion>>,
    held: Vec<HeldAnswer>,
    question_id: &str,
    answer: Option<&str>,
    free_text: bool,
) -> (out: AnswerStep)
    ensures
        ({
            let asked = opt_questions(questions);
            let before = held_views(held@);
            let given = json::opt_text(answer);
            let refusal = refusal_of(asked, before, question_id@, free_text);
            match out {
                AnswerStep::Refused { refusal: refused } => refusal == Some(refused),
                AnswerStep::Hold { plan } => {
                    &&& refusal is None
                    &&& plans(plan, asked->0, before, question_id@, given)
                    &&& plan.remaining > 0
                },
                AnswerStep::Send { plan, response } => {
                    &&& refusal is None
                    &&& plans(plan, asked->0, before, question_id@, given)
                    &&& plan.remaining == 0
                    &&& response@ == question_response(held_with(before, question_id@, given))
                },
            }
        }),
{
    let at = match question_for_answer(questions, question_id, free_text) {
        Ok(at) => at,
        Err(refusal) => {
            return AnswerStep::Refused { refusal };
        },
    };
    match questions {
        Some(list) => match plan_question_answer(list, at, held, question_id, answer) {
            Some(plan) => if plan.complete() {
                let response = app_server_question_response(&plan.answers);
                AnswerStep::Send { plan, response }
            } else {
                AnswerStep::Hold { plan }
            },
            None => AnswerStep::Refused { refusal: AnswerRefusal::NotPending },
        },
        None => AnswerStep::Refused { refusal: AnswerRefusal::NotPending },
    }
}

/// An answer sends the response.
pub open spec fn sends_response(
    questions: Seq<AppServerQuestion>,
    held: Seq<(Seq<char>, Option<Seq<char>>)>,
    id: Seq<char>,
    answer: Option<Seq<char>>,
    free_text: bool,
) -> bool {
    &&& refusal_of(Some(questions), held, id, free_text) is None
    &&& open_questions(questions, held_with(held, id, answer)) == 0
}

/// All answers go to Codex in one response, and only once every question of the request is answered
/// or skipped: an answer that is taken sends the response exactly where it settles the last open
/// question.
pub proof fn answers_are_sent_together(
    questions: Seq<AppServerQuestion>,
    held: Seq<(Seq<char>, Option<Seq<char>>)>,
    id: Seq<char>,
    answer: Option<Seq<char>>,
    free_text: bool,
)
    requires
        refusal_of(Some(questions), held, id, free_text) is None,
    ensures
        sends_response(questions, held, id, answer, free_text) <==> forall|i: int|
            0 <= i < questions.len() ==> (#[trigger] questions[i]).id@ == id || holds(
                held,
                questions[i].id@,
            ),
{
    let after = held_with(held, id, answer);
    settled_means_every_question(questions, after);
    assert forall|i: int| 0 <= i < questions.len() implies holds(
        after,
        (#[trigger] questions[i]).id@,
    ) == (questions[i].id@ == id || holds(held, questions[i].id@)) by {
        holding_an_answer_keeps_the_others(held, id, answer, (questions[i].id@, answer));
    }
}

/// A request of the app server that waits for an answer.
#[derive(Debug, PartialEq, Eq)]
pub struct AppServerRequest {
    pub approval_key: String,
    pub request_id: Json,
    pub method: String,
    pub thread_id: String,
    pub turn_id: String,
    pub item_id: String,
}

/// How Codex was reached.
#[derive(Debug, PartialEq, Eq)]
pub struct TransportInfo {
    pub transport: String,
    pub app_server_pid: Option<u32>,
}

/// A process number as a mathematical integer.
pub open spec fn opt_pid(pid: Option<u32>) -> Option<int> {
    match pid {
        Some(pid) => Some(pid as int),
        None => None,
    }
}

/// How Codex was reached, in a report.
pub open spec fn transport_value(transport: TransportInfo) -> JsonView {
    json::members().text("transport"@, transport.transport@).with(
        "appServerPid"@,
        json::int_or_null(opt_pid(transport.app_server_pid)),
    ).object()
}

/// How Codex was reached, in a report.
pub fn transport_json(transport: &TransportInfo) -> (out: Json)
    ensures
        out@ == transport_value(*transport),
{
    let pid = match transport.app_server_pid {
        Some(pid) => Json::Int(pid as i128),
        None => Json::Null,
    };
    Fields::new().text("transport", transport.transport.as_str()).with("appServerPid", pid).object()
}

/// What a report says of an answer. The answer itself is not part of it.
pub open spec fn answer_summary(
    question_key: Seq<char>,
    question_id: Seq<char>,
    skipped: bool,
    free_text: bool,
    remaining: int,
) -> JsonView {
    json::members().text("questionKey"@, question_key).text("questionId"@, question_id).flag(
        "skipped"@,
        skipped,
    ).flag("freeText"@, free_text).number("remaining"@, remaining).object()
}

/// What a report says of an answer.
pub fn question_summary(
    question_key: &str,
    question_id: &str,
    skipped: bool,
    free_text: bool,
    remaining: usize,
) -> (out: Json)
    ensures
        out@ == answer_summary(
            question_key@,
            question_id@,
            skipped,
            free_text,
            remaining as int,
        ),
{
    Fields::new().text("questionKey", question_key).text("questionId", question_id).flag(
        "skipped",
        skipped,
    ).flag("freeText", free_text).number("remaining", remaining as i128).object()
}

/// What became of an answer.
#[derive(Debug, PartialEq, Eq)]
pub enum QuestionAnswerOutcome {
    /// The question is answered, expired, or was never pending: nothing was recorded.
    NotPending,
    /// Codex asked for one of the options only, and this was a free-form reply.
    NeedsOption,
    Recorded {
        result: Json,
        /// All questions of the request are settled and the answers went to Codex.
        sent: bool,
        remaining: usize,
        is_secret: bool,
    },
}

/// The report of an answer that is held.
pub open spec fn saved_report(thread_id: Seq<char>, summary: JsonView, now: int) -> JsonView {
    json::members().flag("ok"@, true).text("action"@, "telegram_question_answer_saved"@).text(
        "threadId"@,
        thread_id,
    ).with("question"@, summary).number("sentAt"@, now).object()
}

/// What became of an answer to a request that still has open questions. `recorded` is whether the
/// answer could be stored, which it cannot where another one came first.
pub fn saved_answer_outcome(
    request: &AppServerRequest,
    plan: &AnswerPlan,
    summary: Json,
    recorded: bool,
    now: u64,
) -> (out: QuestionAnswerOutcome)
    ensures
        match out {
            QuestionAnswerOutcome::NotPending => !recorded,
            QuestionAnswerOutcome::NeedsOption => false,
            QuestionAnswerOutcome::Recorded { result, sent, remaining, is_secret } => {
                &&& recorded
                &&& !sent
                &&& remaining == plan.remaining
                &&& is_secret == plan.is_secret
                &&& result@ == saved_report(request.thread_id@, summary@, now as int)
            },
        },
{
    if !recorded {
        return QuestionAnswerOutcome::NotPending;
    }
    let result = Fields::new().flag("ok", true).text(
        "action",
        "telegram_question_answer_saved",
    ).text("threadId", request.thread_id.as_str()).with("question", summary).number(
        "sentAt",
        now as i128,
    ).object();
    QuestionAnswerOutcome::Recorded {
        result,
        sent: false,
        remaining: plan.remaining,
        is_secret: plan.is_secret,
    }
}

/// The report of answers that went to Codex.
pub open spec fn sent_report(
    request: AppServerRequest,
    summary: JsonView,
    transport: TransportInfo,
    now: int,
) -> JsonView {
    json::members().flag("ok"@, true).text("action"@, "telegram_app_server_question"@).text(
        "threadId"@,
        request.thread_id@,
    ).text("turnId"@, request.turn_id@).text("itemId"@, request.item_id@).with(
        "question"@,
        summary,
    ).with("codex"@, transport_value(transport)).number("sentAt"@, now).object()
}

/// What became of the last answer of a request, which sends all of them. `reached` is how Codex
/// was reached, or `None` where it no longer has the request.
pub fn sent_answer_outcome(
    request: &AppServerRequest,
    plan: &AnswerPlan,
    summary: Json,
    reached: Option<&TransportInfo>,
    now: u64,
) -> (out: QuestionAnswerOutcome)
    ensures
        match out {
            QuestionAnswerOutcome::NotPending => reached is None,
            QuestionAnswerOutcome::NeedsOption => false,
            QuestionAnswerOutcome::Recorded { result, sent, remaining, is_secret } => {
                &&& reached is Some
                &&& sent
                &&& remaining == plan.remaining
                &&& is_secret == plan.is_secret
                &&& result@ == sent_report(*request, summary@, *reached->0, now as int)
            },
        },
{
    let transport = match reached {
        Some(transport) => transport,
        None => {
            return QuestionAnswerOutcome::NotPending;
        },
    };
    let result = Fields::new().flag("ok", true).text(
        "action",
        "telegram_app_server_question",
    ).text("threadId", request.thread_id.as_str()).text("turnId", request.turn_id.as_str()).text(
        "itemId",
        request.item_id.as_str(),
    ).with("question", summary).with("codex", transport_json(transport)).number(
        "sentAt",
        now as i128,
    ).object();
    QuestionAnswerOutcome::Recorded {
        result,
        sent: true,
        remaining: plan.remaining,
        is_secret: plan.is_secret,
    }
}

/// The questions that are answered, or those that are skipped.
pub open spec fn settled_ids(
    held: Seq<(Seq<char>, Option<Seq<char>>)>,
    skipped: bool,
) -> Seq<Seq<char>>
    decreases held.len(),
{
    if held.len() == 0 {
        Seq::empty()
    } else {
        let before = settled_ids(held.drop_last(), skipped);
        if (held.last().1 is None) == skipped {
            before.push(held.last().0)
        } else {
            before
        }
    }
}

fn list_settled(held: &Vec<HeldAnswer>, skipped: bool) -> (out: Vec<String>)
    ensures
        text::texts(out@) == settled_ids(held_views(held@), skipped),
{
    let ghost all = held_views(held@);
    let mut out = no_texts();
    let mut i: usize = 0;
    assert(all.take(0) =~= Seq::<(Seq<char>, Option<Seq<char>>)>::empty());
    while i < held.len()
        invariant
            all == held_views(held@),
            i <= held@.len(),
            text::texts(out@) == settled_ids(all.take(i as int), skipped),
        decreases held@.len() - i,
    {
        assert(all.take(i + 1).drop_last() =~= all.take(i as int));
        assert(all.take(i + 1).last() == all[i as int]);
        if held[i].answer.is_none() == skipped {
            push_text(&mut out, held[i].question_id.clone());
        }
        i = i + 1;
    }
    assert(all.take(i as int) =~= all);
    out
}

/// What is logged of answers that went to Codex: which questions were answered and which were
/// skipped.
pub open spec fn question_action(
    question_key: Seq<char>,
    request: AppServerRequest,
    held: Seq<(Seq<char>, Option<Seq<char>>)>,
    resumed: JsonView,
    now: int,
) -> JsonView {
    json::members().text("questionKey"@, question_key).with(
        "requestId"@,
        request.request_id@,
    ).text("turnId"@, request.turn_id@).text("itemId"@, request.item_id@).with(
        "answered"@,
        JsonView::Array(json::str_views(settled_ids(held, false))),
    ).with("skipped"@, JsonView::Array(json::str_views(settled_ids(held, true)))).with(
        "resumed"@,
        resumed,
    ).number("sentAt"@, now).object()
}

/// What is logged of answers that went to Codex. Answer text stays out of the logs: Codex may mark
/// a question as secret.
pub fn question_action_record(
    question_key: &str,
    request: &AppServerRequest,
    answers: &Vec<HeldAnswer>,
    resumed: &Json,
    now: u64,
) -> (out: Json)
    ensures
        out@ == question_action(
            question_key@,
            *request,
            held_views(answers@),
            resumed@,
            now as int,
        ),
{
    let answered = list_settled(answers, false);
    let skipped = list_settled(answers, true);
    Fields::new().text("questionKey", question_key).with(
        "requestId",
        request.request_id.copy(),
    ).text("turnId", request.turn_id.as_str()).text("itemId", request.item_id.as_str()).with(
        "answered",
        Json::texts(&answered),
    ).with("skipped", Json::texts(&skipped)).with("resumed", resumed.copy()).number(
        "sentAt",
        now as i128,
    ).object()
}

/// What is stored after an attempt to send the response: once Codex has it, the last answer, that
/// the request was responded to, what was settled, and that the thread works.
pub open spec fn answer_effects(
    question_key: Seq<char>,
    question_id: Seq<char>,
    answer: Option<Seq<char>>,
    request: AppServerRequest,
    held: Seq<(Seq<char>, Option<Seq<char>>)>,
    result: turns::SendResult,
    configured: bool,
    now: int,
) -> Seq<turns::RequestEffectView> {
    match result {
        turns::SendResult::Taken { resumed, transport: _ } => turns::then_typing(
            Seq::empty().push(
                turns::RequestEffectView::StoreAnswer { question_key, question_id, answer },
            ).push(turns::RequestEffectView::MarkResponded { approval_key: question_key }).push(
                turns::RequestEffectView::Log {
                    thread_id: request.thread_id@,
                    kind: "telegram_app_server_question"@,
                    record: question_action(question_key, request, held, resumed@, now),
                },
            ),
            configured,
            request.thread_id@,
        ),
        _ => turns::unsent_effects(result, request.approval_key@),
    }
}

/// What is stored after an attempt to send the response. `answers` are all answers of the request
/// and `configured` is whether there is a chat.
pub fn answer_sent(
    question_key: &str,
    question_id: &str,
    answer: Option<&str>,
    request: &AppServerRequest,
    answers: &Vec<HeldAnswer>,
    result: &SendResult,
    configured: bool,
    now: u64,
) -> (out: Vec<RequestEffect>)
    ensures
        turns::request_effect_views(out@) == answer_effects(
            question_key@,
            question_id@,
            json::opt_text(answer),
            *request,
            held_views(answers@),
            *result,
            configured,
            now as int,
        ),
{
    let mut out: Vec<RequestEffect> = Vec::new();
    assert(turns::request_effect_views(out@) =~= Seq::<turns::RequestEffectView>::empty());
    match result {
        SendResult::Failed { .. } => {},
        SendResult::Gone => {
            push_request_effect(
                &mut out,
                RequestEffect::Expire { approval_key: request.approval_key.clone() },
            );
        },
        SendResult::Taken { resumed, .. } => {
            push_request_effect(
                &mut out,
                RequestEffect::StoreAnswer {
                    question_key: question_key.to_owned(),
                    question_id: question_id.to_owned(),
                    answer: own(answer),
                },
            );
            push_request_effect(
                &mut out,
                RequestEffect::MarkResponded { approval_key: question_key.to_owned() },
            );
            let record = question_action_record(question_key, request, answers, resumed, now);
            push_request_effect(
                &mut out,
                RequestEffect::Log {
                    thread_id: request.thread_id.clone(),
                    kind: "telegram_app_server_question",
                    record,
                },
            );
            if configured {
                push_request_effect(
                    &mut out,
                    RequestEffect::RegisterTyping { thread_id: request.thread_id.clone() },
                );
            }
        },
    }
    out
}

/// A failed send can be retried: it stores nothing, so that the request stays pending and the last
/// answer open. Only once Codex has the response is the answer stored, and the request is marked
/// right behind it.
pub proof fn failed_sends_can_be_retried(
    question_key: Seq<char>,
    question_id: Seq<char>,
    answer: Option<Seq<char>>,
    request: AppServerRequest,
    held: Seq<(Seq<char>, Option<Seq<char>>)>,
    result: turns::SendResult,
    configured: bool,
    now: int,
)
    ensures
        ({
            let effects = answer_effects(
                question_key,
                question_id,
                answer,
                request,
                held,
                result,
                configured,
                now,
            );
            &&& result is Failed ==> effects.len() == 0
            &&& !(result is Taken) ==> forall|i: int|
                0 <= i < effects.len() ==> !((#[trigger] effects[i]) is StoreAnswer) && !(
                effects[i] is MarkResponded)
            &&& result is Taken ==> {
                &&& effects.len() >= 3
                &&& effects[0] == (turns::RequestEffectView::StoreAnswer {
                    question_key,
                    question_id,
                    answer,
                })
                &&& effects[1] == (turns::RequestEffectView::MarkResponded {
                    approval_key: question_key,
                })
            }
        }),
{
}

/// What is logged does not depend on what an answer says: two lists of answers to the same
/// questions, with the same ones skipped, are logged alike.
pub proof fn answers_stay_out_of_the_logs(
    question_key: Seq<char>,
    request: AppServerRequest,
    first: Seq<(Seq<char>, Option<Seq<char>>)>,
    second: Seq<(Seq<char>, Option<Seq<char>>)>,
    resumed: JsonView,
    now: int,
)
    requires
        first.len() == second.len(),
        forall|i: int|
            #![trigger first[i]]
            #![trigger second[i]]
            0 <= i < first.len() ==> first[i].0 == second[i].0 && (first[i].1 is None) == (
            second[i].1 is None),
    ensures
        question_action(question_key, request, first, resumed, now) == question_action(
            question_key,
            request,
            second,
            resumed,
            now,
        ),
{
    lemma_settled_ids_ignore_text(first, second, false);
    lemma_settled_ids_ignore_text(first, second, true);
}

proof fn lemma_settled_ids_ignore_text(
    first: Seq<(Seq<char>, Option<Seq<char>>)>,
    second: Seq<(Seq<char>, Option<Seq<char>>)>,
    skipped: bool,
)
    requires
        first.len() == second.len(),
        forall|i: int|
            #![trigger first[i]]
            #![trigger second[i]]
            0 <= i < first.len() ==> first[i].0 == second[i].0 && (first[i].1 is None) == (
            second[i].1 is None),
    ensures
        settled_ids(first, skipped) == settled_ids(second, skipped),
    decreases first.len(),
{
    if first.len() > 0 {
        let a = first.drop_last();
        let b = second.drop_last();
        assert forall|i: int|
            #![trigger a[i]]
            #![trigger b[i]]
            0 <= i < a.len() implies a[i].0 == b[i].0 && (a[i].1 is None) == (b[i].1 is None) by {
            assert(a[i] == first[i]);
            assert(b[i] == second[i]);
        }
        lemma_settled_ids_ignore_text(a, b, skipped);
        assert(first[first.len() - 1].0 == second[first.len() - 1].0);
    }
}

// ---------------------------------------------------------------------------------------------
// Question messages
// ---------------------------------------------------------------------------------------------

/// What a settled question shows as its outcome.
pub open spec fn outcome_text(
    answer: Option<Seq<char>>,
    is_secret: bool,
    sent: bool,
    remaining: int,
) -> Seq<char> {
    let answered = match answer {
        None => "⏭ Skipped"@,
        Some(s) => if is_secret {
            "✅ Answered (hidden)"@
        } else {
            "✅ Answer: "@ + s
        },
    };
    if sent {
        answered + "\n📤 Sent to Codex."@
    } else {
        answered + "\n💾 Saved. Codex gets it once the other "@ + number::decimal(
            remaining as nat,
        ) + " question(s) are settled."@
    }
}

/// The outcome of a question in words; the answer to a secret question is hidden.
pub fn question_outcome_text(
    answer: Option<&str>,
    is_secret: bool,
    sent: bool,
    remaining: usize,
) -> (out: String)
    ensures
        out@ == outcome_text(json::opt_text(answer), is_secret, sent, remaining as int),
{
    let answered = match answer {
        None => "⏭ Skipped".to_owned(),
        Some(s) => if is_secret {
            "✅ Answered (hidden)".to_owned()
        } else {
            cat2("✅ Answer: ", s)
        },
    };
    if sent {
        cat2(answered.as_str(), "\n📤 Sent to Codex.")
    } else {
        let count = to_decimal(remaining as u128);
        cat4(
            answered.as_str(),
            "\n💾 Saved. Codex gets it once the other ",
            count.as_str(),
            " question(s) are settled.",
        )
    }
}

/// The outcome of a secret question shows nothing of the answer.
pub proof fn secret_answers_are_hidden(
    first: Seq<char>,
    second: Seq<char>,
    sent: bool,
    remaining: int,
)
    ensures
        outcome_text(Some(first), true, sent, remaining) == outcome_text(
            Some(second),
            true,
            sent,
            remaining,
        ),
{
}

/// A question message with its outcome below it. The outcome gets at most half of what Telegram
/// takes and the original the rest.
pub open spec fn settled_text(original: Seq<char>, outcome: Seq<char>) -> Seq<char> {
    let shown = render::truncated(outcome, 2048);
    render::truncated(text::trimmed_end(original), 4096 - (shown.len() + 2)) + "\n\n"@ + shown
}

/// The question message with its outcome appended, within Telegram's text limit: the outcome, which
/// can carry a long free-text answer, gets at most half of it and the original the rest.
pub fn settled_question_text(original: &str, outcome: &str) -> (out: String)
    ensures
        out@ == settled_text(original@, outcome@),
{
    let shown = truncate_to_char_limit(outcome, 2048);
    proof {
        render::truncation_respects_the_limit(outcome@, 2048);
    }
    let room: usize = 4096 - (shown.as_str().unicode_len() + 2);
    let kept = truncate_to_char_limit(trim_end(original), room);
    cat3(kept.as_str(), "\n\n", shown.as_str())
}

/// A settled question fits one message, however long the question and the answer are, and shows
/// the beginning of its outcome.
pub proof fn settled_questions_fit(original: Seq<char>, outcome: Seq<char>)
    ensures
        settled_text(original, outcome).len() <= 4096,
        text::has_suffix(settled_text(original, outcome), render::truncated(outcome, 2048)),
        text::trimmed_end(original).len() + outcome.len() + 2 <= 4096 && outcome.len() <= 2048
            ==> settled_text(original, outcome) == text::trimmed_end(original) + "\n\n"@ + outcome,
{
    reveal_strlit("\n\n");
    render::truncation_respects_the_limit(outcome, 2048);
    let shown = render::truncated(outcome, 2048);
    let room = 4096 - (shown.len() + 2);
    render::truncation_respects_the_limit(text::trimmed_end(original), room);
    let all = settled_text(original, outcome);
    assert(all.subrange(all.len() - shown.len(), all.len() as int) =~= shown);
}

/// How a question message is settled: by an edit that shows the outcome and removes the buttons,
/// and where that cannot be had or fails, by removing the buttons alone.
#[derive(Debug, PartialEq, Eq)]
pub struct QuestionSettlement {
    pub edit: Option<ApiCall>,
    pub fallback: ApiCall,
}

/// Shows the outcome on the question message and removes its buttons; nothing is to be done where
/// the message is not known.
pub fn settle_question_message(
    telegram: &TelegramConfig,
    message_id: Option<i64>,
    original_text: Option<&str>,
    outcome: &str,
) -> (out: Option<QuestionSettlement>)
    ensures
        out is Some <==> message_id is Some,
        out matches Some(plan) ==> {
            &&& plan.edit is Some <==> original_text is Some
            &&& plan.edit matches Some(edit) ==> edit@ == api::edit_text_call(
                telegram.chat_id@,
                message_id->0 as int,
                settled_text(original_text->0@, outcome@),
            )
            &&& plan.fallback@ == api::remove_keyboard_call(
                telegram.chat_id@,
                message_id->0 as int,
            )
        },
{
    match message_id {
        Some(id) => {
            let edit = match original_text {
                Some(original) => {
                    let body = settled_question_text(original, outcome);
                    Some(telegram_edit_message_text(telegram, id, body.as_str()))
                },
                None => None,
            };
            Some(
                QuestionSettlement {
                    edit,
                    fallback: telegram_remove_inline_keyboard(telegram, id),
                },
            )
        },
        None => None,
    }
}

/// Whether the buttons are removed by a call of their own: `edited` is whether the edit succeeded,
/// where there was one.
pub fn settle_follow_up(edited: Option<bool>) -> (remove: bool)
    ensures
        remove == (edited != Some(true)),
{
    match edited {
        Some(true) => false,
        _ => true,
    }
}

} // verus!
